//! The byte form of values: how they are written to bytes and read back.

use vstd::bytes::spec_u64_from_le_bytes;
use vstd::bytes::spec_u64_to_le_bytes;
use vstd::bytes::u64_from_le_bytes;
use vstd::bytes::u64_to_le_bytes;
use vstd::prelude::*;
use vstd::slice::slice_subrange;

verus! {

/// A value with a byte form of fixed size.
pub trait Wire: Sized {
    /// The number of bytes of the byte form.
    spec fn spec_size() -> nat;

    /// The value is one that can be written and read back: its parts are
    /// valid.
    spec fn wire_wf(self) -> bool;

    /// The byte form of the value.
    spec fn spec_encode(self) -> Seq<u8>;

    /// The value that bytes are the byte form of, or `None` where they are
    /// the byte form of none.
    spec fn spec_decode(bytes: Seq<u8>) -> Option<Self>;

    /// The byte form of a value has the fixed size, and is read back as the
    /// value.
    proof fn encoded_and_decoded(self)
        requires
            self.wire_wf(),
        ensures
            self.spec_encode().len() == Self::spec_size(),
            Self::spec_decode(self.spec_encode()) == Some(self),
    ;

    /// Returns the number of bytes of the byte form, which is not zero.
    fn size() -> (r: usize)
        ensures
            r == Self::spec_size(),
            r > 0,
    ;

    /// Writes the byte form of the value behind what `out` holds.
    fn encode(&self, out: &mut Vec<u8>)
        ensures
            final(out)@ == old(out)@ + self.spec_encode(),
            self.wire_wf(),
    ;

    /// Reads a value from its byte form: from bytes of the fixed size that
    /// are the byte form of a value.
    fn decode(bytes: &[u8]) -> (r: Option<Self>)
        ensures
            r == if bytes@.len() == Self::spec_size() {
                Self::spec_decode(bytes@)
            } else {
                None
            },
            r matches Some(value) ==> value.wire_wf(),
    ;
}

impl Wire for u8 {
    open spec fn spec_size() -> nat {
        1
    }

    open spec fn wire_wf(self) -> bool {
        true
    }

    open spec fn spec_encode(self) -> Seq<u8> {
        seq![self]
    }

    open spec fn spec_decode(bytes: Seq<u8>) -> Option<u8> {
        Some(bytes[0])
    }

    proof fn encoded_and_decoded(self) {
    }

    fn size() -> (r: usize) {
        1
    }

    fn encode(&self, out: &mut Vec<u8>) {
        out.push(*self);
    }

    fn decode(bytes: &[u8]) -> (r: Option<u8>) {
        if bytes.len() != 1 {
            return None;
        }
        Some(bytes[0])
    }
}

impl Wire for u64 {
    open spec fn spec_size() -> nat {
        8
    }

    open spec fn wire_wf(self) -> bool {
        true
    }

    open spec fn spec_encode(self) -> Seq<u8> {
        spec_u64_to_le_bytes(self)
    }

    open spec fn spec_decode(bytes: Seq<u8>) -> Option<u64> {
        Some(spec_u64_from_le_bytes(bytes))
    }

    proof fn encoded_and_decoded(self) {
        vstd::bytes::lemma_auto_spec_u64_to_from_le_bytes();
    }

    fn size() -> (r: usize) {
        8
    }

    fn encode(&self, out: &mut Vec<u8>) {
        encode_u64(*self, out);
    }

    fn decode(bytes: &[u8]) -> (r: Option<u64>) {
        if bytes.len() != 8 {
            return None;
        }
        Some(u64_from_le_bytes(bytes))
    }
}

/// The byte form of four limbs: the eight bytes of each, least significant
/// byte first, the least significant limb first.
pub open spec fn spec_encode_limbs(limbs: Seq<u64>) -> Seq<u8> {
    spec_u64_to_le_bytes(limbs[0]) + spec_u64_to_le_bytes(limbs[1]) + spec_u64_to_le_bytes(
        limbs[2],
    ) + spec_u64_to_le_bytes(limbs[3])
}

/// The four limbs that 32 bytes are the byte form of.
pub open spec fn spec_decode_limbs(bytes: Seq<u8>) -> [u64; 4] {
    [
        spec_u64_from_le_bytes(bytes.subrange(0, 8)),
        spec_u64_from_le_bytes(bytes.subrange(8, 16)),
        spec_u64_from_le_bytes(bytes.subrange(16, 24)),
        spec_u64_from_le_bytes(bytes.subrange(24, 32)),
    ]
}

/// The byte form of four limbs has 32 bytes and is read back as the limbs;
/// and 32 bytes are the byte form of the limbs they are read as.
pub proof fn limbs_encoded_and_decoded(limbs: [u64; 4])
    ensures
        spec_encode_limbs(limbs@).len() == 32,
        spec_decode_limbs(spec_encode_limbs(limbs@)) == limbs,
{
    vstd::bytes::lemma_auto_spec_u64_to_from_le_bytes();
    let bytes = spec_encode_limbs(limbs@);
    assert(bytes.subrange(0, 8) =~= spec_u64_to_le_bytes(limbs[0]));
    assert(bytes.subrange(8, 16) =~= spec_u64_to_le_bytes(limbs[1]));
    assert(bytes.subrange(16, 24) =~= spec_u64_to_le_bytes(limbs[2]));
    assert(bytes.subrange(24, 32) =~= spec_u64_to_le_bytes(limbs[3]));
    assert(spec_decode_limbs(bytes)@ =~= limbs@);
}

/// 32 bytes are the byte form of the limbs that they are read as.
pub proof fn limbs_decoded_and_encoded(bytes: Seq<u8>)
    requires
        bytes.len() == 32,
    ensures
        spec_encode_limbs(spec_decode_limbs(bytes)@) == bytes,
{
    vstd::bytes::lemma_auto_spec_u64_to_from_le_bytes();
    let limbs = spec_decode_limbs(bytes);
    assert(spec_u64_to_le_bytes(limbs[0]) == bytes.subrange(0, 8));
    assert(spec_u64_to_le_bytes(limbs[1]) == bytes.subrange(8, 16));
    assert(spec_u64_to_le_bytes(limbs[2]) == bytes.subrange(16, 24));
    assert(spec_u64_to_le_bytes(limbs[3]) == bytes.subrange(24, 32));
    assert(spec_encode_limbs(limbs@) =~= bytes);
}

/// Writes the eight bytes of a number, least significant first, behind what
/// `out` holds.
pub fn encode_u64(value: u64, out: &mut Vec<u8>)
    ensures
        final(out)@ == old(out)@ + spec_u64_to_le_bytes(value),
{
    let mut bytes = u64_to_le_bytes(value);
    out.append(&mut bytes);
}

/// Writes the byte form of four limbs behind what `out` holds.
pub fn encode_limbs(limbs: &[u64; 4], out: &mut Vec<u8>)
    ensures
        final(out)@ == old(out)@ + spec_encode_limbs(limbs@),
{
    encode_u64(limbs[0], out);
    encode_u64(limbs[1], out);
    encode_u64(limbs[2], out);
    encode_u64(limbs[3], out);
    assert(out@ =~= old(out)@ + spec_encode_limbs(limbs@));
}

/// Reads four limbs from their byte form.
pub(crate) fn decode_limbs(bytes: &[u8]) -> (r: [u64; 4])
    requires
        bytes@.len() == 32,
    ensures
        r == spec_decode_limbs(bytes@),
{
    let r = [
        u64_from_le_bytes(slice_subrange(bytes, 0, 8)),
        u64_from_le_bytes(slice_subrange(bytes, 8, 16)),
        u64_from_le_bytes(slice_subrange(bytes, 16, 24)),
        u64_from_le_bytes(slice_subrange(bytes, 24, 32)),
    ];
    assert(r@ =~= spec_decode_limbs(bytes@)@);
    r
}

/// The array of the first 32 bytes of a sequence.
pub open spec fn spec_array32(bytes: Seq<u8>) -> [u8; 32] {
    [
        bytes[0], bytes[1], bytes[2], bytes[3], bytes[4], bytes[5], bytes[6], bytes[7], bytes[8], bytes[9], bytes[10], bytes[11], bytes[12], bytes[13], bytes[14], bytes[15], bytes[16], bytes[17], bytes[18], bytes[19], bytes[20], bytes[21], bytes[22], bytes[23], bytes[24], bytes[25], bytes[26], bytes[27], bytes[28], bytes[29], bytes[30], bytes[31],
    ]
}

/// Returns the array of 32 bytes.
pub(crate) fn array32(bytes: &[u8]) -> (r: [u8; 32])
    requires
        bytes@.len() == 32,
    ensures
        r == spec_array32(bytes@),
        r@ == bytes@,
{
    let r = [
        bytes[0], bytes[1], bytes[2], bytes[3], bytes[4], bytes[5], bytes[6], bytes[7], bytes[8], bytes[9], bytes[10], bytes[11], bytes[12], bytes[13], bytes[14], bytes[15], bytes[16], bytes[17], bytes[18], bytes[19], bytes[20], bytes[21], bytes[22], bytes[23], bytes[24], bytes[25], bytes[26], bytes[27], bytes[28], bytes[29], bytes[30], bytes[31],
    ];
    assert(r@ =~= bytes@);
    assert(r@ =~= spec_array32(bytes@)@);
    r
}

/// Writes 32 bytes behind what `out` holds.
pub fn encode_array32(bytes: &[u8; 32], out: &mut Vec<u8>)
    ensures
        final(out)@ == old(out)@ + bytes@,
{
    let mut index: usize = 0;
    while index < 32
        invariant
            index <= 32,
            out@ == old(out)@ + bytes@.take(index as int),
        decreases 32 - index,
    {
        out.push(bytes[index]);
        assert(out@ =~= old(out)@ + bytes@.take(index + 1));
        index += 1;
    }
    assert(bytes@.take(32) =~= bytes@);
}

/// The byte forms of the values of a list, one after the other.
pub open spec fn spec_encode_items<T: Wire>(items: Seq<T>) -> Seq<u8>
    decreases items.len(),
{
    if items.len() == 0 {
        Seq::empty()
    } else {
        spec_encode_items(items.drop_last()) + items.last().spec_encode()
    }
}

/// The values that the first `count` chunks of the bytes are the byte forms
/// of, or `None` where one of the chunks is the byte form of no value.
pub open spec fn spec_decode_items<T: Wire>(bytes: Seq<u8>, count: nat) -> Option<Seq<T>>
    decreases count,
{
    if count == 0 {
        Some(Seq::empty())
    } else {
        match (
            spec_decode_items::<T>(bytes, (count - 1) as nat),
            T::spec_decode(
                bytes.subrange((count - 1) * T::spec_size(), (count - 1) * T::spec_size() + T::spec_size()),
            ),
        ) {
            (Some(items), Some(item)) => Some(items.push(item)),
            _ => None,
        }
    }
}

/// Every value of the list can be written and read back.
pub open spec fn items_wf<T: Wire>(items: Seq<T>) -> bool {
    forall|i: int| 0 <= i < items.len() ==> (#[trigger] items[i]).wire_wf()
}

/// The byte forms of a list of values, with whatever follows them, are read
/// back as the list.
pub proof fn items_encoded_and_decoded<T: Wire>(items: Seq<T>, rest: Seq<u8>)
    requires
        items_wf(items),
    ensures
        spec_encode_items(items).len() == items.len() * T::spec_size(),
        spec_decode_items::<T>(spec_encode_items(items) + rest, items.len()) == Some(items),
    decreases items.len(),
{
    let size = T::spec_size() as int;
    if items.len() > 0 {
        let head = items.drop_last();
        let last = items.last();
        last.encoded_and_decoded();
        items_encoded_and_decoded(head, last.spec_encode() + rest);
        let bytes = spec_encode_items(items) + rest;
        assert(bytes =~= spec_encode_items(head) + (last.spec_encode() + rest));
        let before = head.len() as int;
        assert(before * size + size == items.len() * size) by (nonlinear_arith)
            requires
                before == items.len() - 1,
        ;
        assert(bytes.subrange(before * size, before * size + size) =~= last.spec_encode());
        assert(head.push(last) =~= items);
    } else {
        assert(items =~= Seq::<T>::empty());
    }
}

/// Writes the byte forms of the values of a list behind what `out` holds.
pub fn encode_items<T: Wire>(items: &Vec<T>, out: &mut Vec<u8>)
    ensures
        final(out)@ == old(out)@ + spec_encode_items(items@),
        items_wf(items@),
{
    let mut index: usize = 0;
    assert(items@.take(0) =~= Seq::<T>::empty());
    assert(out@ =~= old(out)@ + spec_encode_items(items@.take(0)));
    while index < items.len()
        invariant
            index <= items.len(),
            out@ == old(out)@ + spec_encode_items(items@.take(index as int)),
            items_wf(items@.take(index as int)),
        decreases items.len() - index,
    {
        let ghost before = out@;
        items[index].encode(out);
        proof {
            let next = items@.take(index + 1);
            assert(next.drop_last() =~= items@.take(index as int));
            assert(next.last() == items[index as int]);
            assert(out@ =~= old(out)@ + spec_encode_items(next));
            assert forall|i: int| 0 <= i < next.len() implies (#[trigger] next[i]).wire_wf() by {
                if i < index {
                    assert(items@.take(index as int)[i] == next[i]);
                }
            }
        }
        index += 1;
    }
    assert(items@.take(index as int) =~= items@);
}

/// Reads `count` values from their byte forms at the head of the bytes, or
/// returns `None` where the bytes are too few or one of the chunks is the
/// byte form of no value.
pub fn decode_items<T: Wire>(bytes: &[u8], count: usize) -> (r: Option<Vec<T>>)
    ensures
        r is Some <==> count * T::spec_size() <= bytes@.len() && spec_decode_items::<T>(
            bytes@,
            count as nat,
        ) is Some,
        r matches Some(items) ==> Some(items@) == spec_decode_items::<T>(bytes@, count as nat)
            && items_wf(items@),
{
    let size = T::size();
    let length = bytes.len();
    match count.checked_mul(size) {
        Some(total) => {
            if total > length {
                return None;
            }
        },
        None => {
            return None;
        },
    }
    let mut items: Vec<T> = Vec::new();
    let mut index: usize = 0;
    while index < count
        invariant
            index <= count,
            size == T::spec_size(),
            length == bytes@.len(),
            count * size <= length,
            Some(items@) == spec_decode_items::<T>(bytes@, index as nat),
            items_wf(items@),
        decreases count - index,
    {
        assert(0 <= index * size && index * size + size <= count * size) by (nonlinear_arith)
            requires
                0 <= index < count,
                size >= 0,
        ;
        let start = index * size;
        match T::decode(slice_subrange(bytes, start, start + size)) {
            Some(item) => {
                items.push(item);
            },
            None => {
                proof {
                    decode_items_fail_on::<T>(bytes@, (index + 1) as nat, count as nat);
                }
                return None;
            },
        }
        index += 1;
    }
    Some(items)
}

/// Where the first chunks cannot be read, more of them cannot.
proof fn decode_items_fail_on<T: Wire>(bytes: Seq<u8>, count: nat, more: nat)
    requires
        count <= more,
        spec_decode_items::<T>(bytes, count) is None,
    ensures
        spec_decode_items::<T>(bytes, more) is None,
    decreases more,
{
    if count < more {
        decode_items_fail_on::<T>(bytes, count, (more - 1) as nat);
    }
}

/// The byte form of a list: the number of its values in eight bytes, and the
/// byte forms of the values.
pub open spec fn spec_encode_list<T: Wire>(items: Seq<T>) -> Seq<u8> {
    spec_u64_to_le_bytes(items.len() as u64) + spec_encode_items(items)
}

/// The list that the bytes begin with the byte form of, and the bytes that
/// follow it; `None` where they begin with the byte form of no list.
pub open spec fn spec_decode_list<T: Wire>(bytes: Seq<u8>) -> Option<(Seq<T>, Seq<u8>)> {
    if bytes.len() < 8 {
        None
    } else {
        let count = spec_u64_from_le_bytes(bytes.take(8)) as nat;
        let body = bytes.skip(8);
        if count * T::spec_size() > body.len() {
            None
        } else {
            match spec_decode_items::<T>(body, count) {
                Some(items) => Some((items, body.skip((count * T::spec_size()) as int))),
                None => None,
            }
        }
    }
}

/// The byte form of a list, with whatever follows it, is read back as the
/// list, and what follows is left.
pub proof fn list_encoded_and_decoded<T: Wire>(items: Seq<T>, rest: Seq<u8>)
    requires
        items_wf(items),
        items.len() <= u64::MAX,
    ensures
        spec_decode_list::<T>(spec_encode_list(items) + rest) == Some((items, rest)),
{
    vstd::bytes::lemma_auto_spec_u64_to_from_le_bytes();
    let count = spec_u64_to_le_bytes(items.len() as u64);
    let bytes = spec_encode_list(items) + rest;
    items_encoded_and_decoded(items, rest);
    assert(bytes.take(8) =~= count);
    assert(bytes.skip(8) =~= spec_encode_items(items) + rest);
    assert(bytes.skip(8).skip((items.len() * T::spec_size()) as int) =~= rest);
}

/// Writes the byte form of a list behind what `out` holds.
pub fn encode_list<T: Wire>(items: &Vec<T>, out: &mut Vec<u8>)
    ensures
        final(out)@ == old(out)@ + spec_encode_list(items@),
        items_wf(items@),
{
    let count: u64 = items.len() as u64;
    encode_u64(count, out);
    encode_items(items, out);
    assert(out@ =~= old(out)@ + spec_encode_list(items@));
}

/// Reads a list from the byte form that the bytes begin with, and returns it
/// with the bytes that follow; `None` where the bytes begin with the byte
/// form of no list.
pub fn decode_list<T: Wire>(bytes: &[u8]) -> (r: Option<(Vec<T>, &[u8])>)
    ensures
        r is Some <==> spec_decode_list::<T>(bytes@) is Some,
        r matches Some((items, rest)) ==> Some((items@, rest@)) == spec_decode_list::<T>(bytes@)
            && items_wf(items@),
{
    if bytes.len() < 8 {
        return None;
    }
    let count = u64_from_le_bytes(slice_subrange(bytes, 0, 8));
    let body = slice_subrange(bytes, 8, bytes.len());
    assert(bytes@.subrange(0, 8) =~= bytes@.take(8));
    assert(body@ =~= bytes@.skip(8));
    let size = T::size();
    if count > usize::MAX as u64 {
        assert(count * size > body@.len()) by (nonlinear_arith)
            requires
                count > usize::MAX,
                body@.len() <= usize::MAX,
                size >= 1,
        ;
        return None;
    }
    let total = match (count as usize).checked_mul(size) {
        Some(total) => total,
        None => {
            return None;
        },
    };
    if total > body.len() {
        return None;
    }
    match decode_items::<T>(body, count as usize) {
        Some(items) => {
            assert(body@.subrange(total as int, body@.len() as int) =~= body@.skip(total as int));
            Some((items, slice_subrange(body, total, body.len())))
        },
        None => None,
    }
}

/// The byte forms of the byte strings of a list, one after the other, each
/// string behind the number of its bytes.
pub open spec fn spec_encode_strings(strings: Seq<Seq<u8>>) -> Seq<u8>
    decreases strings.len(),
{
    if strings.len() == 0 {
        Seq::empty()
    } else {
        spec_encode_strings(strings.drop_last()) + spec_encode_list(strings.last())
    }
}

/// The `count` byte strings that the bytes begin with the byte forms of, and
/// the bytes that follow them; `None` where they begin with fewer.
pub open spec fn spec_decode_strings(bytes: Seq<u8>, count: nat) -> Option<
    (Seq<Seq<u8>>, Seq<u8>),
>
    decreases count,
{
    if count == 0 {
        Some((Seq::empty(), bytes))
    } else {
        match spec_decode_strings(bytes, (count - 1) as nat) {
            None => None,
            Some((strings, rest)) => match spec_decode_list::<u8>(rest) {
                None => None,
                Some((string, rest)) => Some((strings.push(string), rest)),
            },
        }
    }
}

/// No byte string of the list is longer than its length can be written.
pub open spec fn strings_wf(strings: Seq<Seq<u8>>) -> bool {
    forall|i: int| 0 <= i < strings.len() ==> (#[trigger] strings[i]).len() <= u64::MAX
}

/// The byte forms of a list of byte strings, with whatever follows them, are
/// read back as the list, and what follows is left.
pub proof fn strings_encoded_and_decoded(strings: Seq<Seq<u8>>, rest: Seq<u8>)
    requires
        strings_wf(strings),
    ensures
        spec_decode_strings(spec_encode_strings(strings) + rest, strings.len()) == Some(
            (strings, rest),
        ),
    decreases strings.len(),
{
    if strings.len() > 0 {
        let head = strings.drop_last();
        let last = strings.last();
        let tail = spec_encode_list(last) + rest;
        strings_encoded_and_decoded(head, tail);
        assert(spec_encode_strings(strings) + rest =~= spec_encode_strings(head) + tail);
        list_encoded_and_decoded(last, rest);
        assert(head.push(last) =~= strings);
    } else {
        assert(spec_encode_strings(strings) + rest =~= rest);
        assert(strings =~= Seq::<Seq<u8>>::empty());
    }
}

/// Where fewer byte strings cannot be read, more of them cannot.
pub(crate) proof fn decode_strings_fail_on(bytes: Seq<u8>, count: nat, more: nat)
    requires
        count <= more,
        spec_decode_strings(bytes, count) is None,
    ensures
        spec_decode_strings(bytes, more) is None,
    decreases more,
{
    if count < more {
        decode_strings_fail_on(bytes, count, (more - 1) as nat);
    }
}

/// Each byte string that is read takes eight bytes at least.
pub(crate) proof fn decode_strings_takes_bytes(bytes: Seq<u8>, count: nat)
    requires
        spec_decode_strings(bytes, count) is Some,
    ensures
        spec_decode_strings(bytes, count) matches Some((strings, rest)) && rest.len() + 8 * count
            <= bytes.len() && strings.len() == count,
    decreases count,
{
    if count > 0 {
        decode_strings_takes_bytes(bytes, (count - 1) as nat);
    }
}

/// Writes the byte forms of the byte strings of a list behind what `out`
/// holds. The strings are given by a function that picks the bytes of an
/// item.
pub fn encode_string(string: &Vec<u8>, out: &mut Vec<u8>)
    ensures
        final(out)@ == old(out)@ + spec_encode_list(string@),
        string@.len() <= u64::MAX,
{
    encode_list(string, out);
    assert(string.len() <= usize::MAX);
}

/// Reads a byte string from the byte form that the bytes begin with, and
/// returns it with the bytes that follow.
pub fn decode_string(bytes: &[u8]) -> (r: Option<(Vec<u8>, &[u8])>)
    ensures
        r is Some <==> spec_decode_list::<u8>(bytes@) is Some,
        r matches Some((string, rest)) ==> Some((string@, rest@)) == spec_decode_list::<u8>(
            bytes@,
        ),
{
    decode_list::<u8>(bytes)
}

} // verus!

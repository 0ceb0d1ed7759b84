//! Whether a list holds one item twice.

use crate::field::Field;
use crate::field::Scalar;
use crate::serial_number::SerialNumber;
use vstd::prelude::*;

verus! {

/// Some item stands at two places of the list.
pub open spec fn spec_has_duplicates<T>(items: Seq<T>) -> bool {
    exists|i: int, j: int| 0 <= i < j < items.len() && items[i] == items[j]
}

/// The lists of integers that a list of keys holds.
pub open spec fn key_views(keys: Seq<Vec<u64>>) -> Seq<Seq<u64>> {
    keys.map_values(|k: Vec<u64>| k@)
}

/// Whether two of the keys are the same list of integers.
///
/// Calls `snarkvm_utilities::has_duplicates`, which puts the items into a
/// hash set one by one and answers `true` as soon as one is already there.
#[verifier::external_body]
fn has_duplicate_keys(keys: &Vec<Vec<u64>>) -> (r: bool)
    ensures
        r == spec_has_duplicates(key_views(keys@)),
{
    snarkvm_utilities::has_duplicates(keys.iter())
}

/// Returns whether the list holds one field element twice.
pub fn has_duplicate_fields(items: &Vec<Field>) -> (r: bool)
    ensures
        r == spec_has_duplicates(items@),
{
    let mut keys: Vec<Vec<u64>> = Vec::new();
    let mut index: usize = 0;
    while index < items.len()
        invariant
            index <= items.len(),
            keys.len() == index,
            forall|k: int| 0 <= k < index ==> (#[trigger] keys[k])@ == items[k].spec_limbs(),
        decreases items.len() - index,
    {
        keys.push(items[index].to_key());
        index += 1;
    }
    let found = has_duplicate_keys(&keys);
    proof {
        let views = key_views(keys@);
        if spec_has_duplicates(views) {
            let (i, j) = choose|i: int, j: int| 0 <= i < j < views.len() && views[i] == views[j];
            Field::same_limbs(items[i], items[j]);
        }
        if spec_has_duplicates(items@) {
            let (i, j) = choose|i: int, j: int| 0 <= i < j < items.len() && items[i] == items[j];
            assert(views[i] == views[j]);
        }
    }
    found
}

/// The outputs of the serial numbers of a list: what each of them is as a
/// one-time identifier, whatever its proof.
pub open spec fn serial_number_outputs(serial_numbers: Seq<SerialNumber>) -> Seq<Scalar> {
    serial_numbers.map_values(|serial_number: SerialNumber| serial_number.spec_output())
}

/// Returns whether the list holds one serial number twice: two serial
/// numbers with the same output, whatever their proofs.
pub fn has_duplicate_serial_numbers(items: &Vec<SerialNumber>) -> (r: bool)
    ensures
        r == spec_has_duplicates(serial_number_outputs(items@)),
{
    let mut keys: Vec<Vec<u64>> = Vec::new();
    let mut index: usize = 0;
    while index < items.len()
        invariant
            index <= items.len(),
            keys.len() == index,
            forall|k: int|
                0 <= k < index ==> (#[trigger] keys[k])@ == items[k].spec_output().spec_limbs(),
        decreases items.len() - index,
    {
        keys.push(items[index].output().to_key());
        index += 1;
    }
    let found = has_duplicate_keys(&keys);
    proof {
        let views = key_views(keys@);
        let outputs = serial_number_outputs(items@);
        if spec_has_duplicates(views) {
            let (i, j) = choose|i: int, j: int| 0 <= i < j < views.len() && views[i] == views[j];
            Scalar::same_limbs(outputs[i], outputs[j]);
        }
        if spec_has_duplicates(outputs) {
            let (i, j) = choose|i: int, j: int|
                0 <= i < j < outputs.len() && outputs[i] == outputs[j];
            assert(views[i] == views[j]);
        }
    }
    found
}

} // verus!

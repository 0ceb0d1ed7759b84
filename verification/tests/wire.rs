use dpc_core::account::{Address, PrivateKey, Signature};
use dpc_core::error::Error;
use dpc_core::field::{field_modulus_limbs, Field, Group, Scalar};
use dpc_core::kernel::TransactionKernel;
use dpc_core::record::Record;
use dpc_core::serial_number::SerialNumber;
use dpc_core::transition::TransactionAuthorization;
use dpc_core::wire::{decode_items, decode_list, encode_items, encode_list, Wire};
use rand::rngs::StdRng;
use rand::SeedableRng;
use snarkvm_console_account::{PrivateKey as NativePrivateKey, Signature as NativeSignature};
use snarkvm_console_network::TestnetV0;
use snarkvm_utilities::{FromBytes, ToBytes, Uniform};

fn encoded<T: Wire>(value: &T) -> Vec<u8> {
    let mut bytes = vec![0xaa];
    value.encode(&mut bytes);
    assert_eq!(bytes.len(), 1 + T::size());
    bytes.split_off(1)
}

fn key(seed: u64) -> PrivateKey {
    PrivateKey::new(Field::from_u64(seed), Scalar::from_limbs([seed + 1, 0, 0, 0]).unwrap())
}

fn record(dummy: bool) -> Record {
    Record::new(
        key(3).to_address().unwrap(),
        dummy,
        0x0102030405060708,
        [9; 32],
        Field::from_u64(11),
        Field::from_u64(12),
    )
}

fn serial_number(seed: u64) -> SerialNumber {
    let sk = Scalar::from_limbs([seed, 0, 0, 0]).unwrap();
    SerialNumber::prove(&sk, Field::from_u64(seed), sk).unwrap()
}

#[test]
fn numbers_are_written_least_significant_byte_first() {
    assert_eq!(encoded(&0x0102030405060708u64), vec![8, 7, 6, 5, 4, 3, 2, 1]);
    assert_eq!(u64::decode(&[8, 7, 6, 5, 4, 3, 2, 1]), Some(0x0102030405060708));
    assert_eq!(encoded(&0x7fu8), vec![0x7f]);
    assert_eq!(u8::decode(&[0x7f]), Some(0x7f));
    assert_eq!((u8::size(), u64::size()), (1, 8));
}

#[test]
fn field_elements_are_written_as_the_network_writes_them() {
    let mut rng = StdRng::seed_from_u64(1);
    for _ in 0..20 {
        let native = snarkvm_console_account::Field::<TestnetV0>::rand(&mut rng);
        let bytes = native.to_bytes_le().unwrap();
        let field = Field::decode(&bytes).unwrap();
        assert_eq!(encoded(&field), bytes);
        let native = snarkvm_console_account::Scalar::<TestnetV0>::rand(&mut rng);
        let bytes = native.to_bytes_le().unwrap();
        let scalar = Scalar::decode(&bytes).unwrap();
        assert_eq!(encoded(&scalar), bytes);
        let native = snarkvm_console_account::Group::<TestnetV0>::rand(&mut rng);
        let bytes = native.to_bytes_le().unwrap();
        let group = Group::decode(&bytes).unwrap();
        assert_eq!(encoded(&group), bytes);
    }
    let mut expected = vec![0u8; 32];
    expected[0] = 0x34;
    expected[1] = 0x12;
    assert_eq!(encoded(&Field::from_u64(0x1234)), expected);
    assert_eq!((Field::size(), Scalar::size(), Group::size(), Address::size()), (32, 32, 32, 32));
}

#[test]
fn bytes_that_stand_for_no_element_are_rejected() {
    let mut modulus = Vec::new();
    for limb in field_modulus_limbs() {
        modulus.extend_from_slice(&limb.to_le_bytes());
    }
    assert_eq!(Field::decode(&modulus), None);
    assert_eq!(Scalar::decode(&[0xff; 32]), None);
    assert_eq!(Field::decode(&[0xff; 32]), None);
    // An x-coordinate that belongs to no point of the subgroup.
    let mut rejected = 0;
    for x in 1u8..40 {
        let mut bytes = [0u8; 32];
        bytes[0] = x;
        let field = Field::decode(&bytes).unwrap();
        assert_eq!(Group::decode(&bytes), Group::from_x_coordinate(field));
        assert_eq!(Address::decode(&bytes), Group::from_x_coordinate(field).map(Address::new));
        if Group::decode(&bytes).is_none() {
            rejected += 1;
        }
    }
    assert!(rejected > 0);
}

#[test]
fn records_are_written_part_by_part() {
    let value = record(true);
    let bytes = encoded(&value);
    assert_eq!(Record::size(), 137);
    assert_eq!(&bytes[..32], &encoded(&value.owner)[..]);
    assert_eq!(bytes[32], 1);
    assert_eq!(&bytes[33..41], &[8, 7, 6, 5, 4, 3, 2, 1]);
    assert_eq!(&bytes[41..73], &[9u8; 32]);
    assert_eq!(&bytes[73..105], &encoded(&Field::from_u64(11))[..]);
    assert_eq!(&bytes[105..], &encoded(&Field::from_u64(12))[..]);
    assert_eq!(Record::decode(&bytes), Some(value));
    assert_eq!(encoded(&record(false))[32], 0);
    assert_eq!(Record::decode(&encoded(&record(false))), Some(record(false)));

    let mut bad = bytes.clone();
    bad[32] = 2;
    assert_eq!(Record::decode(&bad), None);
    let mut bad = bytes.clone();
    bad[73..105].copy_from_slice(&[0xff; 32]);
    assert_eq!(Record::decode(&bad), None);
}

#[test]
fn serial_numbers_are_written_part_by_part() {
    let value = serial_number(5);
    let bytes = encoded(&value);
    let (gamma, challenge, response) = value.to_proof();
    assert_eq!(SerialNumber::size(), 128);
    assert_eq!(&bytes[..32], &encoded(&value.output())[..]);
    assert_eq!(&bytes[32..64], &encoded(&gamma)[..]);
    assert_eq!(&bytes[64..96], &encoded(&challenge)[..]);
    assert_eq!(&bytes[96..], &encoded(&response)[..]);
    assert_eq!(SerialNumber::decode(&bytes), Some(value));
    let mut bad = bytes.clone();
    bad[64..96].copy_from_slice(&[0xff; 32]);
    assert_eq!(SerialNumber::decode(&bad), None);
}

#[test]
fn signatures_are_written_as_the_network_writes_them() {
    let mut rng = StdRng::seed_from_u64(2);
    let signer = key(8);
    let message = vec![Field::from_u64(1), Field::from_u64(2)];
    let signature = signer.sign(&message, &mut rng).unwrap();
    let bytes = encoded(&signature);
    assert_eq!(Signature::size(), 128);
    assert_eq!(signature.to_bytes(), bytes);
    assert_eq!(Signature::decode(&bytes), Some(signature));

    // The network reads the bytes as a signature of the same account.
    let native = NativeSignature::<TestnetV0>::from_bytes_le(&bytes).unwrap();
    let native_key =
        NativePrivateKey::<TestnetV0>::try_from(snarkvm_console_account::Field::from_u64(8)).unwrap();
    let native_message =
        [snarkvm_console_account::Field::from_u64(1), snarkvm_console_account::Field::from_u64(2)];
    assert!(native.verify(&snarkvm_console_account::Address::try_from(&native_key).unwrap(), &native_message));
    assert_eq!(native.to_bytes_le().unwrap(), bytes);

    // And a signature that the network makes is read and verified here.
    let made = native_key.sign(&native_message, &mut rng).unwrap();
    let read = Signature::decode(&made.to_bytes_le().unwrap()).unwrap();
    assert!(read.verify(&signer.to_address().unwrap(), &message));
    assert!(!read.verify(&key(9).to_address().unwrap(), &message));

    // Limbs that stand for no signature verify for nothing.
    let nonsense = Signature::from_limbs([u64::MAX; 4], [1; 4], [2; 4], [3; 4]);
    assert!(!nonsense.verify(&signer.to_address().unwrap(), &message));
    assert_eq!(Signature::decode(&encoded(&nonsense)), Some(nonsense));
}

#[test]
fn lists_are_written_behind_their_length() {
    let items = vec![Field::from_u64(1), Field::from_u64(2), Field::from_u64(3)];
    let mut bytes = Vec::new();
    encode_list(&items, &mut bytes);
    assert_eq!(bytes.len(), 8 + 3 * 32);
    assert_eq!(&bytes[..8], &[3, 0, 0, 0, 0, 0, 0, 0]);
    assert_eq!(&bytes[8..40], &encoded(&items[0])[..]);
    let mut only_items = Vec::new();
    encode_items(&items, &mut only_items);
    assert_eq!(only_items, &bytes[8..]);

    bytes.extend_from_slice(&[7, 7]);
    let (read, rest) = decode_list::<Field>(&bytes).unwrap();
    assert_eq!(read, items);
    assert_eq!(rest, &[7, 7]);
    assert_eq!(decode_items::<Field>(&bytes[8..], 2), Some(items[..2].to_vec()));
    assert_eq!(decode_items::<Field>(&bytes[8..], 0), Some(vec![]));

    // Too short for its length, or no length at all.
    assert_eq!(decode_list::<Field>(&bytes[..bytes.len() - 3]), None);
    assert_eq!(decode_list::<Field>(&bytes[..7]), None);
    assert_eq!(decode_list::<Field>(&[0xff; 8]), None);
    assert_eq!(decode_list::<u8>(&[0xff; 8]), None);
    // An item that is no field element.
    let mut bad = bytes.clone();
    bad[40..72].copy_from_slice(&[0xff; 32]);
    assert_eq!(decode_list::<Field>(&bad), None);
    // The empty list.
    assert_eq!(decode_list::<Field>(&[0; 8]), Some((vec![], &[][..])));
}

fn authorization() -> TransactionAuthorization {
    let mut rng = StdRng::seed_from_u64(3);
    let kernel = TransactionKernel::new(
        vec![serial_number(1), serial_number(2)],
        vec![Field::from_u64(600)],
        77,
        vec![1, 2, 3],
    );
    let signatures = vec![key(1).sign(&kernel.to_signature_message(), &mut rng).unwrap()];
    TransactionAuthorization {
        kernel,
        input_records: vec![record(true), record(false)],
        output_records: vec![record(false)],
        signatures,
    }
}

#[test]
fn authorization_is_written_list_by_list() {
    let value = authorization();
    let bytes = value.to_bytes_le();
    let mut expected = Vec::new();
    encode_list(&value.kernel.serial_numbers, &mut expected);
    encode_list(&value.kernel.commitments, &mut expected);
    expected.extend_from_slice(&77u64.to_le_bytes());
    encode_list(&value.kernel.memo, &mut expected);
    encode_list(&value.input_records, &mut expected);
    encode_list(&value.output_records, &mut expected);
    encode_list(&value.signatures, &mut expected);
    assert_eq!(bytes, expected);
    assert_eq!(bytes.len(), (8 + 256) + (8 + 32) + 8 + (8 + 3) + (8 + 274) + (8 + 137) + (8 + 128));
    assert_eq!(TransactionAuthorization::read_le(&bytes), Ok(value.clone()));

    // What follows the authorization is not read.
    let mut longer = bytes.clone();
    longer.push(0);
    assert_eq!(TransactionAuthorization::read_le(&longer), Ok(value));
}

#[test]
fn authorization_is_not_read_from_other_bytes() {
    let bytes = authorization().to_bytes_le();
    assert_eq!(TransactionAuthorization::read_le(&[]), Err(Error::Parse));
    for cut in [1, 8, 100, 264, 300, 310, 320, 400, 700, bytes.len() - 1] {
        assert_eq!(TransactionAuthorization::read_le(&bytes[..cut]), Err(Error::Parse));
    }
    // The flag of the first input record.
    let flag = (8 + 256) + (8 + 32) + 8 + (8 + 3) + 8 + 32;
    assert_eq!(bytes[flag], 1);
    let mut bad = bytes.clone();
    bad[flag] = 9;
    assert_eq!(TransactionAuthorization::read_le(&bad), Err(Error::Parse));
    // The length of the list of commitments.
    let mut bad = bytes.clone();
    bad[8 + 256] = 200;
    assert_eq!(TransactionAuthorization::read_le(&bad), Err(Error::Parse));
}

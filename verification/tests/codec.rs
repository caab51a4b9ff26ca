use ink_aa::env::{account_before, account_eq, bytes_eq, is_all_zero, zero_account};
use ink_aa::error::{append_decimal, failed_op, rejected, Error};
use ink_aa::exec::{OpaqueTypes, Transaction};
use ink_aa::helpers::{intersect_time_range, keccak256, keccak256_hash, Aggregator, ValidationData};
use ink_aa::user_operation::{PaymasterAndData, UserOperation};
use parity_scale_codec::{Decode, Encode};

fn check_opaque_types<T>(value: T)
where
    T: Encode + Decode + PartialEq + std::fmt::Debug,
{
    let encoded = value.encode();
    let opaque_types = OpaqueTypes(encoded.clone());
    assert_eq!(opaque_types.encode(), encoded);
    let decoded: OpaqueTypes = OpaqueTypes::decode(&encoded[..]);
    assert_eq!(decoded.0, opaque_types.0);
    let value = T::decode(&mut &decoded.0[..]).expect("decode failed");
    println!("{value:?}");
}

#[test]
fn test_call() {
    let call = Transaction {
        callee: [0u8; 32],
        selector: [0u8; 4],
        input: vec![1, 2, 3, 4, 5, 6],
        transferred_value: 1,
        gas_limit: 1,
        allow_reentry: false,
    };
    println!("{call:?}");
}

#[test]
fn test_opaque_types() {
    check_opaque_types(true);
    check_opaque_types(123);
    check_opaque_types(456i64);
    check_opaque_types("hello".to_owned());
    check_opaque_types(vec![1, 2, 3]);
    check_opaque_types((true, "world".to_owned()));
}

#[test]
fn opaque_types_write_their_bytes_as_they_are() {
    let opaque = OpaqueTypes(vec![9, 8, 7]);
    assert_eq!(opaque.size_hint(), 3);
    let mut out = vec![1u8];
    opaque.encode_to(&mut out);
    assert_eq!(out, vec![1, 9, 8, 7]);
    assert_eq!(opaque.clone(), opaque);
    assert_eq!(OpaqueTypes::decode(&[]).0, Vec::<u8>::new());
}

#[test]
fn transaction_new_sends_no_value_and_forbids_reentry() {
    let call = Transaction::new([7u8; 32], [1, 2, 3, 4], vec![5, 6], 99);
    assert_eq!(call.callee, [7u8; 32]);
    assert_eq!(call.selector, [1, 2, 3, 4]);
    assert_eq!(call.input, vec![5, 6]);
    assert_eq!(call.gas_limit, 99);
    assert_eq!(call.transferred_value, 0);
    assert!(!call.allow_reentry);
}

fn hex(bytes: &[u8]) -> String {
    let mut text = String::new();
    for byte in bytes {
        text.push_str(&format!("{byte:02x}"));
    }
    text
}

#[test]
fn keccak256_of_known_inputs() {
    assert_eq!(
        hex(&keccak256(b"")),
        "c5d2460186f7233c927e7db2dcc703c0e500b653ca82273b7bfad8045d85a470"
    );
    assert_eq!(
        hex(&keccak256(b"abc")),
        "4e03657aea45a94fc7d47ba826c8d667c0d1e6e33a64a036ec44f58fa12d6c45"
    );
    assert_eq!(keccak256_hash(b"abc"), keccak256(b"abc"));
    assert_ne!(keccak256(b"abc"), keccak256(b"abd"));
}

#[test]
fn byte_helpers() {
    assert!(is_all_zero(&[]));
    assert!(is_all_zero(&[0, 0, 0]));
    assert!(!is_all_zero(&[0, 1, 0]));
    assert!(bytes_eq(&[1, 2], &[1, 2]));
    assert!(!bytes_eq(&[1, 2], &[1, 3]));
    assert!(!bytes_eq(&[1, 2], &[1, 2, 3]));
    assert_eq!(zero_account(), [0u8; 32]);
    assert!(account_eq(&[5u8; 32], &[5u8; 32]));
    let mut other = [5u8; 32];
    other[31] = 6;
    assert!(!account_eq(&[5u8; 32], &other));
}

#[test]
fn decimal_digits_of_numbers() {
    for (n, text) in [
        (0u64, "0"),
        (7, "7"),
        (10, "10"),
        (160, "160"),
        (1_000_000, "1000000"),
        (u64::MAX, "18446744073709551615"),
    ] {
        let mut out = String::from("x");
        append_decimal(&mut out, n);
        assert_eq!(out, format!("x{text}"));
    }
}

#[test]
fn rejections_carry_index_and_reason() {
    assert_eq!(
        rejected(3, "AA24 signature error"),
        Error::FailedOp { op_index: 3, reason: "AA24 signature error".to_owned() }
    );
    assert_eq!(
        failed_op(4, "AA23 reverted: ", "NotOwner"),
        Error::FailedOp { op_index: 4, reason: "AA23 reverted: NotOwner".to_owned() }
    );
}

#[test]
fn validation_data_default_is_all_zero() {
    let data = ValidationData::default();
    assert_eq!(data.aggregator, Aggregator::VerifiedBySelf);
    assert_eq!(data.valid_after, 0);
    assert_eq!(data.valid_until, 0);
    assert_eq!(Aggregator::default(), Aggregator::VerifiedBySelf);
}

#[test]
fn validation_data_encoding() {
    let zero = ValidationData::default();
    assert_eq!(zero.encode(), vec![0u8; 17]);
    assert!(zero.is_failure_sentinel());

    let window = ValidationData {
        aggregator: Aggregator::VerifiedBySelf,
        valid_after: 1,
        valid_until: 0x0102,
    };
    let mut expected = vec![0u8];
    expected.extend_from_slice(&[1, 0, 0, 0, 0, 0, 0, 0]);
    expected.extend_from_slice(&[2, 1, 0, 0, 0, 0, 0, 0]);
    assert_eq!(window.encode(), expected);
    assert!(!window.is_failure_sentinel());

    let by = ValidationData {
        aggregator: Aggregator::VerifiedBy([0u8; 32]),
        valid_after: 0,
        valid_until: 0,
    };
    let mut expected = vec![1u8];
    expected.extend_from_slice(&[0u8; 32]);
    expected.extend_from_slice(&[0u8; 16]);
    assert_eq!(by.encode(), expected);
    assert!(!by.is_failure_sentinel());

    let failed = ValidationData {
        aggregator: Aggregator::FailedVerification,
        valid_after: 0,
        valid_until: 0,
    };
    assert_eq!(failed.encode()[0], 2);
    assert!(!failed.is_failure_sentinel());
}

#[test]
fn aggregators_compare_by_variant_and_account() {
    let a = Aggregator::VerifiedBy([1u8; 32]);
    let b = Aggregator::VerifiedBy([2u8; 32]);
    assert!(a.same(&a));
    assert!(!a.same(&b));
    assert!(!a.same(&Aggregator::VerifiedBySelf));
    assert!(Aggregator::VerifiedBySelf.same(&Aggregator::VerifiedBySelf));
    assert!(Aggregator::FailedVerification.same(&Aggregator::FailedVerification));
    assert!(!Aggregator::FailedVerification.same(&Aggregator::VerifiedBySelf));
}

#[test]
fn intersect_time_range_takes_the_narrower_window() {
    let account = ValidationData {
        aggregator: Aggregator::VerifiedBySelf,
        valid_after: 10,
        valid_until: 100,
    };
    let paymaster = ValidationData {
        aggregator: Aggregator::VerifiedBy([3u8; 32]),
        valid_after: 20,
        valid_until: 90,
    };
    let both = intersect_time_range(account, paymaster);
    assert_eq!(both.aggregator, Aggregator::VerifiedBy([3u8; 32]));
    assert_eq!(both.valid_after, 20);
    assert_eq!(both.valid_until, 90);

    let account = ValidationData {
        aggregator: Aggregator::FailedVerification,
        valid_after: 30,
        valid_until: 50,
    };
    let both = intersect_time_range(account, paymaster);
    assert_eq!(both.aggregator, Aggregator::FailedVerification);
    assert_eq!(both.valid_after, 30);
    assert_eq!(both.valid_until, 50);
}

fn sample_op() -> UserOperation {
    UserOperation {
        sender: [1u8; 32],
        nonce: [2u8; 32],
        init_code: vec![3, 4],
        callee: [5u8; 32],
        selector: [6, 7, 8, 9],
        call_data: vec![10, 11, 12],
        call_gas_limit: 0x0102030405060708,
        verification_gas_limit: 2,
        pre_verification_gas: 3,
        max_fee_per_gas: 4,
        max_priority_fee_per_gas: 5,
        paymaster_and_data: PaymasterAndData::PaymasterAndData {
            paymaster: [13u8; 32],
            data: vec![14, 15],
        },
        signature: vec![16, 17],
    }
}

#[test]
fn pack_lays_the_fields_out_in_order() {
    let op = sample_op();
    let packed = op.pack();
    assert_eq!(packed.len(), 236);
    assert_eq!(&packed[0..32], &[1u8; 32]);
    assert_eq!(&packed[32..64], &[2u8; 32]);
    assert_eq!(&packed[64..96], &keccak256(&[3, 4]));
    assert_eq!(&packed[96..128], &[5u8; 32]);
    assert_eq!(&packed[128..132], &[6, 7, 8, 9]);
    assert_eq!(&packed[132..164], &keccak256(&[10, 11, 12]));
    assert_eq!(&packed[164..172], &[8, 7, 6, 5, 4, 3, 2, 1]);
    assert_eq!(&packed[172..180], &[2, 0, 0, 0, 0, 0, 0, 0]);
    assert_eq!(&packed[180..188], &[3, 0, 0, 0, 0, 0, 0, 0]);
    assert_eq!(&packed[188..196], &[4, 0, 0, 0, 0, 0, 0, 0]);
    assert_eq!(&packed[196..204], &[5, 0, 0, 0, 0, 0, 0, 0]);
    let mut sponsor = vec![13u8; 32];
    sponsor.extend_from_slice(&[14, 15]);
    assert_eq!(&packed[204..236], &keccak256(&sponsor));
    assert_eq!(op.hash(), keccak256(&packed));
}

#[test]
fn hash_ignores_the_signature() {
    let a = sample_op();
    let mut b = sample_op();
    b.signature = vec![99; 65];
    assert_eq!(a.pack(), b.pack());
    assert_eq!(a.hash(), b.hash());
}

#[test]
fn hash_changes_with_every_other_field() {
    let base = sample_op().hash();
    let mut op = sample_op();
    op.sender[0] ^= 1;
    assert_ne!(op.hash(), base);
    let mut op = sample_op();
    op.nonce[31] ^= 1;
    assert_ne!(op.hash(), base);
    let mut op = sample_op();
    op.init_code.push(0);
    assert_ne!(op.hash(), base);
    let mut op = sample_op();
    op.callee[5] ^= 1;
    assert_ne!(op.hash(), base);
    let mut op = sample_op();
    op.selector[3] ^= 1;
    assert_ne!(op.hash(), base);
    let mut op = sample_op();
    op.call_data.clear();
    assert_ne!(op.hash(), base);
    let mut op = sample_op();
    op.call_gas_limit += 1;
    assert_ne!(op.hash(), base);
    let mut op = sample_op();
    op.verification_gas_limit += 1;
    assert_ne!(op.hash(), base);
    let mut op = sample_op();
    op.pre_verification_gas += 1;
    assert_ne!(op.hash(), base);
    let mut op = sample_op();
    op.max_fee_per_gas += 1;
    assert_ne!(op.hash(), base);
    let mut op = sample_op();
    op.max_priority_fee_per_gas += 1;
    assert_ne!(op.hash(), base);
    let mut op = sample_op();
    op.paymaster_and_data = PaymasterAndData::OnlyPaymaster([13u8; 32]);
    assert_ne!(op.hash(), base);
}

#[test]
fn sponsor_without_data_hashes_like_sponsor_with_empty_data() {
    let alone = PaymasterAndData::OnlyPaymaster([13u8; 32]);
    let empty = PaymasterAndData::PaymasterAndData { paymaster: [13u8; 32], data: vec![] };
    assert_eq!(alone.hash(), empty.hash());
    assert_eq!(alone.hash(), keccak256(&[13u8; 32]));
}

#[test]
fn paymaster_and_data_accessors() {
    let none = PaymasterAndData::OnlyPaymaster([0u8; 32]);
    assert!(none.is_eq_zero());
    let some = PaymasterAndData::PaymasterAndData { paymaster: [4u8; 32], data: vec![1] };
    assert!(!some.is_eq_zero());
    assert_eq!(*some.paymaster_ref(), [4u8; 32]);
    assert_eq!(some.paymaster(), [4u8; 32]);
    assert_eq!(some.clone(), some);
    assert_eq!(some.paymaster_take(), [4u8; 32]);
}

#[test]
fn gas_price_is_the_lower_ceiling() {
    let mut op = sample_op();
    assert_eq!(op.gas_price(), 4);
    op.max_priority_fee_per_gas = 4;
    assert_eq!(op.gas_price(), 4);
    op.max_priority_fee_per_gas = 1;
    assert_eq!(op.gas_price(), 1);
}

#[test]
fn default_operation_is_empty_and_unsponsored() {
    let op = UserOperation::default();
    assert_eq!(op.sender, [0u8; 32]);
    assert_eq!(op.nonce, [0u8; 32]);
    assert!(op.init_code.is_empty());
    assert!(op.call_data.is_empty());
    assert!(op.signature.is_empty());
    assert_eq!(op.call_gas_limit, 0);
    assert_eq!(op.max_fee_per_gas, 0);
    assert_eq!(op.paymaster_and_data, PaymasterAndData::OnlyPaymaster([0u8; 32]));
    assert!(op.paymaster_and_data.is_eq_zero());
    assert_eq!(op.clone(), op);
}

#[test]
fn pack_is_the_codec_s_encoding_of_the_fields() {
    let op = sample_op();
    let mut sponsor = vec![13u8; 32];
    sponsor.extend_from_slice(&[14, 15]);
    let fields = (
        op.sender,
        op.nonce,
        keccak256(&op.init_code),
        op.callee,
        op.selector,
        keccak256(&op.call_data),
        op.call_gas_limit,
        op.verification_gas_limit,
        op.pre_verification_gas,
        op.max_fee_per_gas,
        op.max_priority_fee_per_gas,
        keccak256(&sponsor),
    );
    assert_eq!(op.pack(), fields.encode());
}

#[test]
fn validation_data_encodes_as_the_codec_encodes_its_parts() {
    let own = ValidationData {
        aggregator: Aggregator::VerifiedBySelf,
        valid_after: 0x0102030405060708,
        valid_until: u64::MAX,
    };
    assert_eq!(own.encode(), (0u8, own.valid_after, own.valid_until).encode());
    let by = ValidationData {
        aggregator: Aggregator::VerifiedBy([7u8; 32]),
        valid_after: 5,
        valid_until: 6,
    };
    assert_eq!(by.encode(), (1u8, [7u8; 32], 5u64, 6u64).encode());
    let failed = ValidationData {
        aggregator: Aggregator::FailedVerification,
        valid_after: 5,
        valid_until: 6,
    };
    assert_eq!(failed.encode(), (2u8, 5u64, 6u64).encode());
}

#[test]
fn account_ids_are_ordered_from_the_front() {
    let low = [0u8; 32];
    let mut last = [0u8; 32];
    last[31] = 1;
    let mut first = [0u8; 32];
    first[0] = 1;
    let mut both = first;
    both[31] = 255;
    assert!(account_before(&low, &last));
    assert!(account_before(&last, &first));
    assert!(account_before(&first, &both));
    assert!(account_before(&low, &[255u8; 32]));
    assert!(!account_before(&last, &low));
    assert!(!account_before(&first, &last));
    assert!(!account_before(&first, &first));
    assert!(!account_before(&[255u8; 32], &[255u8; 32]));
    let mut ids = vec![both, low, first, last];
    ids.sort();
    for pair in ids.windows(2) {
        assert!(account_before(&pair[0], &pair[1]));
    }
}

use rshooks::codes;
use rshooks::error::HookError;
use rshooks::slot_obj::{
    classify_amount, classify_issue, AmountBytes, IssueData, SlotObject, SlotRequest,
    ISSUE_MAX_READ_LEN,
};
use rshooks::slot_obj::Resolve;
use rshooks::types::{
    AccountId, Amount, CurrencyCode, IouAmount, Issue, IssuedAsset, NativeAmount, Opaque, SField,
    STArray, STObject,
};

#[test]
fn amount_sizes_classify_or_error() {
    let buf = [7u8; 48];
    assert_eq!(classify_amount(&buf[..8]), Ok(AmountBytes::Native(NativeAmount([7u8; 8]))));
    assert_eq!(classify_amount(&buf), Ok(AmountBytes::Iou(IouAmount(buf))));

    // Every other length is an error, never a misclassification.
    assert_eq!(classify_amount(&buf[..33]), Err(HookError::ParseError));
    assert_eq!(classify_amount(&buf[..0]), Err(HookError::ParseError));
    assert_eq!(classify_amount(&buf[..20]), Err(HookError::ParseError));
}

#[test]
fn issue_sizes_classify_or_error() {
    let mut buf = [0u8; ISSUE_MAX_READ_LEN];
    for (i, b) in buf.iter_mut().enumerate() {
        *b = i as u8;
    }
    const CUR: usize = 20;
    const IOU: usize = CUR + 20;
    let at = |n: usize| buf.get(..n).unwrap_or(&[]);

    assert_eq!(classify_issue(at(CUR)), Ok(IssueData::Native));

    let mut currency = [0u8; CUR];
    let mut issuer = [0u8; 20];
    currency.copy_from_slice(at(CUR));
    issuer.copy_from_slice(buf.get(CUR..IOU).unwrap_or(&[]));
    assert_eq!(
        classify_issue(at(IOU)),
        Ok(IssueData::Iou(IssuedAsset { currency: CurrencyCode(currency), issuer: AccountId(issuer) }))
    );

    // 44 bytes is the issue encoding this layer does not decode.
    assert_eq!(classify_issue(&buf), Err(HookError::ParseError));
    assert_eq!(classify_issue(at(0)), Err(HookError::ParseError));
}

#[test]
fn issue_read_buffer_covers_the_out_of_scope_encoding() {
    const _: () = assert!(ISSUE_MAX_READ_LEN >= 44);
    const _: () = assert!(ISSUE_MAX_READ_LEN <= 48);
}

#[test]
fn slot_handles_follow_the_host_answers() {
    let root = SlotObject::<STObject>::from_keylet(3).expect("slot 3");
    assert_eq!(root.slot_no(), 3);
    assert!(SlotObject::<STObject>::from_meta(codes::NO_FREE_SLOTS).is_err());
    assert_eq!(root.size(120), Ok(120));
    assert_eq!(root.size(codes::DOESNT_EXIST), Err(HookError::DoesntExist));
    let flags_field: SField<u32> = SField::new(rshooks::sfield::sfFlags);
    assert_eq!(flags_field.request(), SlotRequest::Subfield(rshooks::sfield::sfFlags));
    let child = root.get(flags_field, 4).expect("child slot");
    assert_eq!(child.slot_no(), 4);
    assert_eq!(child.value(0x8000_0000), Ok(0x8000_0000u32));
    assert_eq!(
        root.get_opt(SField::<u32>::new(rshooks::sfield::sfFlags), codes::DOESNT_EXIST).map(|o| o.is_none()),
        Ok(true)
    );
    assert_eq!(7u32.request(), SlotRequest::Subarray(7));
}

#[test]
fn small_integer_slots_reject_values_that_do_not_fit() {
    let byte = SlotObject::<STObject>::from_otxn(1).expect("slot").assume_type::<u8>();
    assert_eq!(byte.value(0x100), Err(HookError::TooBig));
    let byte = SlotObject::<STObject>::from_otxn(1).expect("slot").assume_type::<u8>();
    assert_eq!(byte.take_value(0xFF), Ok(0xFF));
    let word = SlotObject::<STObject>::from_otxn(1).expect("slot").assume_type::<u16>();
    assert_eq!(word.value(codes::NOT_IMPLEMENTED), Err(HookError::NotImplemented));
}

#[test]
fn try_cast_checks_the_type_id() {
    let s = SlotObject::<STObject>::from_txn_hash(2).expect("slot").assume_type::<Opaque>();
    // Type 6 (Amount) in the high half of the answer.
    let amount = s.try_cast::<Amount>(6 << 16 | 1).expect("an amount");
    assert_eq!(amount.slot_no(), 2);
    let s = SlotObject::<STObject>::from_txn_hash(2).expect("slot").assume_type::<Opaque>();
    assert!(matches!(s.try_cast::<STArray>(6 << 16 | 1), Err(HookError::NotAnObject)));
    let s = SlotObject::<STObject>::from_txn_hash(2).expect("slot").assume_type::<Opaque>();
    assert!(s.try_cast::<STObject>(10001 << 16).is_ok());
}

#[test]
fn amount_and_issue_slots_classify_the_written_prefix() {
    let amount = SlotObject::<STObject>::from_otxn(5).expect("slot").assume_type::<Amount>();
    let mut buf = [0u8; 48];
    buf[..8].copy_from_slice(&[1u8; 8]);
    assert_eq!(amount.value(8, &buf), Ok(AmountBytes::Native(NativeAmount([1u8; 8]))));
    let amount = SlotObject::<STObject>::from_otxn(5).expect("slot").assume_type::<Amount>();
    assert_eq!(amount.take_value(49, &buf), Err(HookError::TooBig));
    let issue = SlotObject::<STObject>::from_otxn(5).expect("slot").assume_type::<Issue>();
    assert_eq!(issue.value(20, &[0u8; 44]), Ok(IssueData::Native));
    let amount = SlotObject::<STObject>::from_otxn(5).expect("slot").assume_type::<Amount>();
    assert_eq!(amount.as_xfl(42).map(|x| x.raw_bits()), Ok(42));
}

#[test]
fn fixed_size_slot_reads_require_the_exact_count() {
    let s = SlotObject::<STObject>::from_otxn(5).expect("slot").assume_type::<u64>();
    assert_eq!(s.value(8, &[0, 0, 0, 0, 0, 0, 1, 0]), Ok(256));
    let s = SlotObject::<STObject>::from_otxn(5).expect("slot").assume_type::<AccountId>();
    assert_eq!(s.value(19, &[0u8; 20]), Err(HookError::TooSmall));
    let s = SlotObject::<STObject>::from_otxn(5).expect("slot");
    assert_eq!(s.raw_exact::<4>(4, &[1, 2, 3, 4]), Ok([1, 2, 3, 4]));
}

#[test]
fn consuming_reads_decode_like_their_borrowing_twins() {
    let s = SlotObject::<STObject>::from_otxn(5).expect("slot");
    assert_eq!(s.take_raw(30), Ok(30));
    let s = SlotObject::<STObject>::from_otxn(5).expect("slot");
    assert_eq!(s.take_raw(codes::DOESNT_EXIST), Err(HookError::DoesntExist));
    let s = SlotObject::<STObject>::from_otxn(5).expect("slot");
    assert_eq!(s.take_raw_exact::<2>(2, &[9, 8]), Ok([9, 8]));
    let s = SlotObject::<STObject>::from_otxn(5).expect("slot");
    assert_eq!(s.take_raw_exact::<2>(1, &[9, 8]), Err(HookError::TooSmall));
    let amount = SlotObject::<STObject>::from_otxn(5).expect("slot").assume_type::<Amount>();
    assert_eq!(amount.take_xfl(7).map(|x| x.raw_bits()), Ok(7));
    let amount = SlotObject::<STObject>::from_otxn(5).expect("slot").assume_type::<Amount>();
    assert_eq!(amount.take_xfl(codes::INVALID_FLOAT).map(|x| x.raw_bits()), Err(HookError::InvalidFloat));
}

#[test]
fn field_code_is_the_type_answer() {
    let s = SlotObject::<STObject>::from_otxn(5).expect("slot");
    assert_eq!(s.field_code(0x0006_0001).map(|f| f.code()), Ok(0x0006_0001));
    assert_eq!(s.field_code(codes::DOESNT_EXIST).map(|f| f.code()), Err(HookError::DoesntExist));
}

#[test]
fn try_cast_reaches_every_scalar_target() {
    let s = || SlotObject::<STObject>::from_otxn(3).expect("slot").assume_type::<Opaque>();
    assert_eq!(s().try_cast::<u8>(16 << 16).map(|o| o.slot_no()), Ok(3));
    assert_eq!(s().try_cast::<u16>(1 << 16).map(|o| o.slot_no()), Ok(3));
    assert_eq!(s().try_cast::<u32>(2 << 16).map(|o| o.slot_no()), Ok(3));
    assert_eq!(s().try_cast::<u64>(3 << 16).map(|o| o.slot_no()), Ok(3));
    assert_eq!(s().try_cast::<rshooks::types::Hash>(5 << 16).map(|o| o.slot_no()), Ok(3));
    assert_eq!(s().try_cast::<AccountId>(8 << 16).map(|o| o.slot_no()), Ok(3));
    assert_eq!(s().try_cast::<CurrencyCode>(26 << 16).map(|o| o.slot_no()), Ok(3));
    assert!(matches!(s().try_cast::<u32>(8 << 16), Err(HookError::NotAnObject)));
    assert!(matches!(s().try_cast::<AccountId>(codes::DOESNT_EXIST), Err(HookError::DoesntExist)));
}

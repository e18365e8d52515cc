use rshooks::codes;
use rshooks::error::HookError;
use rshooks::sfield::{sfHighLimit, sfLowLimit};
use rshooks::trust_line::{
    LineFacts, TrustLineSide, TrustLineView, LSF_HIGH_AUTH, LSF_HIGH_DEEP_FREEZE,
    LSF_HIGH_FREEZE, LSF_LOW_AUTH, LSF_LOW_DEEP_FREEZE, LSF_LOW_FREEZE,
};
use rshooks::types::AccountId;

const LOW: AccountId = AccountId([0x01u8; 20]);
const HIGH: AccountId = AccountId([0x02u8; 20]);
const OTHER: AccountId = AccountId([0x03u8; 20]);

fn facts(flags: u32) -> LineFacts {
    LineFacts { low: LOW, high: HIGH, flags }
}

#[test]
fn load_surfaces_the_host_stub() {
    let n = codes::NOT_IMPLEMENTED;
    assert_eq!(TrustLineView::load(&LOW, &HIGH, n, n, n, n).err(), Some(HookError::NotImplemented));
    assert_eq!(TrustLineView::load(&HIGH, &LOW, n, n, n, n).err(), Some(HookError::NotImplemented));
}

#[test]
fn side_resolves_both_participants_and_rejects_a_stranger() {
    let f = facts(0);
    assert_eq!(f.side(&LOW), Ok(TrustLineSide::Low));
    assert_eq!(f.side(&HIGH), Ok(TrustLineSide::High));
    assert_eq!(f.side(&OTHER), Err(HookError::DoesNotMatch));
}

#[test]
fn freeze_flags_are_read_per_side_and_do_not_leak_across_sides() {
    let f = facts(LSF_LOW_FREEZE);
    assert_eq!(f.is_frozen_by(&LOW), Ok(true));
    assert_eq!(f.is_frozen_by(&HIGH), Ok(false));

    let f = facts(LSF_HIGH_FREEZE);
    assert_eq!(f.is_frozen_by(&LOW), Ok(false));
    assert_eq!(f.is_frozen_by(&HIGH), Ok(true));
}

#[test]
fn deep_freeze_flags_are_read_per_side() {
    let f = facts(LSF_LOW_DEEP_FREEZE);
    assert_eq!(f.is_deep_frozen_by(&LOW), Ok(true));
    assert_eq!(f.is_deep_frozen_by(&HIGH), Ok(false));

    let f = facts(LSF_HIGH_DEEP_FREEZE);
    assert_eq!(f.is_deep_frozen_by(&LOW), Ok(false));
    assert_eq!(f.is_deep_frozen_by(&HIGH), Ok(true));
}

#[test]
fn auth_flags_are_read_per_side() {
    let f = facts(LSF_LOW_AUTH);
    assert_eq!(f.is_authorized_by(&LOW), Ok(true));
    assert_eq!(f.is_authorized_by(&HIGH), Ok(false));

    let f = facts(LSF_HIGH_AUTH);
    assert_eq!(f.is_authorized_by(&LOW), Ok(false));
    assert_eq!(f.is_authorized_by(&HIGH), Ok(true));
}

#[test]
fn every_flag_accessor_rejects_a_non_participant() {
    let f = facts(LSF_LOW_FREEZE | LSF_HIGH_DEEP_FREEZE | LSF_LOW_AUTH);
    assert_eq!(f.side(&OTHER), Err(HookError::DoesNotMatch));
    assert_eq!(f.is_frozen_by(&OTHER), Err(HookError::DoesNotMatch));
    assert_eq!(f.is_deep_frozen_by(&OTHER), Err(HookError::DoesNotMatch));
    assert_eq!(f.is_authorized_by(&OTHER), Err(HookError::DoesNotMatch));
}

#[test]
fn load_orders_the_participants_whichever_way_they_are_given() {
    for (a, b) in [(LOW, HIGH), (HIGH, LOW)] {
        let view = TrustLineView::load(&a, &b, 34, 1, 2, LSF_HIGH_FREEZE as i64).expect("loads");
        assert_eq!(view.root_slot(), 1);
        assert_eq!(view.side(&LOW), Ok(TrustLineSide::Low));
        assert_eq!(view.side(&HIGH), Ok(TrustLineSide::High));
        assert_eq!(view.is_frozen_by(&HIGH), Ok(true));
        assert_eq!(view.is_frozen_by(&LOW), Ok(false));
        assert_eq!(view.limit_field(&LOW), Ok(sfLowLimit));
        assert_eq!(view.limit_field(&HIGH), Ok(sfHighLimit));
        assert_eq!(view.limit_field(&OTHER), Err(HookError::DoesNotMatch));
        assert_eq!(view.limit_of(&HIGH, 3, 77).map(|x| x.raw_bits()), Ok(77));
        assert_eq!(view.limit_of(&OTHER, 3, 77).err(), Some(HookError::DoesNotMatch));
    }
}

#[test]
fn load_reports_the_first_failing_answer() {
    assert_eq!(
        TrustLineView::load(&LOW, &HIGH, 34, codes::DOESNT_EXIST, 0, 0).err(),
        Some(HookError::DoesntExist)
    );
    assert_eq!(TrustLineView::load(&LOW, &HIGH, 34, 1, 2, 1i64 << 40).err(), Some(HookError::TooBig));
}

use bft_core::types::Address;
use bft_core::validator::ValidatorSet;

fn address(fill: u8) -> Address {
    Address::new(vec![fill; 20])
}

fn set_of(n: u8) -> ValidatorSet {
    let members = (0..n).map(address).collect::<Vec<_>>();
    ValidatorSet::new(members)
}

#[test]
fn two_thirds_majority_values() {
    // ceil(2 * N / 3) for small sets
    assert_eq!(set_of(1).two_thirds_majority(), 1);
    assert_eq!(set_of(2).two_thirds_majority(), 2);
    assert_eq!(set_of(3).two_thirds_majority(), 2);
    assert_eq!(set_of(4).two_thirds_majority(), 3);
    assert_eq!(set_of(5).two_thirds_majority(), 4);
    assert_eq!(set_of(6).two_thirds_majority(), 4);
    assert_eq!(set_of(7).two_thirds_majority(), 5);
    assert_eq!(set_of(10).two_thirds_majority(), 7);
}

#[test]
fn fault_bound_and_thresholds() {
    // F = floor((N - 1) / 3)
    assert_eq!(set_of(1).fault_bound(), 0);
    assert_eq!(set_of(4).fault_bound(), 1);
    assert_eq!(set_of(7).fault_bound(), 2);
    assert_eq!(set_of(10).fault_bound(), 3);
    // 2F + 1 and F + 1
    assert_eq!(set_of(4).round_change_threshold(), 3);
    assert_eq!(set_of(4).catch_up_threshold(), 2);
    assert_eq!(set_of(7).round_change_threshold(), 5);
    assert_eq!(set_of(7).catch_up_threshold(), 3);
}

#[test]
fn membership() {
    let vals = set_of(4);
    assert!(vals.is_member(&address(0)));
    assert!(vals.is_member(&address(3)));
    assert!(!vals.is_member(&address(4)));
    assert_eq!(vals.len(), 4);
}

#[test]
fn proposer_rotation() {
    let vals = set_of(4);
    // proposer index is (seed + round) mod N
    assert_eq!(vals.proposer_index(0, 0), 0);
    assert_eq!(vals.proposer_index(0, 1), 1);
    assert_eq!(vals.proposer_index(0, 5), 1);
    assert_eq!(vals.proposer_index(7, 1), 0);
    assert!(vals.proposer(0, 2).equals(&address(2)));
    // rotation wraps without overflow at the integer's edge
    assert_eq!(vals.proposer_index(u64::MAX, u64::MAX), ((u64::MAX as u128) * 2 % 4) as usize);
}

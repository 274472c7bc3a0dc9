use price_wager::errors::WagerError;
use price_wager::lifecycle::{
    close, join, open, refresh_price, resolve, unwind, FundAccount, Transfer, JOIN_STAKE,
    OPEN_STAKE, TOTAL_PAYOUT,
};
use price_wager::instruction::{Operation, Processor};
use price_wager::state::Identity;

fn ident(n: u64) -> Identity {
    Identity { w0: n, w1: 0, w2: 0, w3: 0 }
}

#[test]
fn open_records_entry_price_and_directs_stake() {
    let a = ident(1);
    let (rec, stake) = open(a, true, Some(1000), None).unwrap();
    assert!(rec.active);
    assert_eq!(rec.party_a, a);
    assert_eq!(rec.party_b, Identity { w0: 0, w1: 0, w2: 0, w3: 0 });
    assert_eq!(rec.entry_price, 1000);
    assert_eq!(rec.last_price, 1000);
    assert!(rec.party_a_direction);
    assert!(!rec.party_b_direction);
    assert_eq!(rec.winner, Identity { w0: 0, w1: 0, w2: 0, w3: 0 });
    assert_eq!(
        stake,
        Transfer { source: FundAccount::PartyAFunding, dest: FundAccount::Escrow, amount: OPEN_STAKE }
    );
}

#[test]
fn open_falls_back_to_oracle_when_price_absent_or_zero() {
    let a = ident(1);
    let (rec, _) = open(a, false, None, Some(777)).unwrap();
    assert_eq!(rec.entry_price, 777);
    let (rec, _) = open(a, false, Some(0), Some(888)).unwrap();
    assert_eq!(rec.entry_price, 888);
    assert!(!rec.party_a_direction);
    assert!(rec.party_b_direction);
}

#[test]
fn open_without_any_price_is_oracle_unavailable() {
    let a = ident(1);
    assert_eq!(open(a, true, None, None), Err(WagerError::OracleUnavailable));
    assert_eq!(open(a, true, Some(0), None), Err(WagerError::OracleUnavailable));
}

#[test]
fn join_admits_at_exactly_one_percent_drift() {
    let a = ident(1);
    let b = ident(2);
    let (rec, _) = open(a, true, Some(1000), None).unwrap();
    let (joined, stake) = join(&rec, b, Some(1010), None).unwrap();
    assert_eq!(joined.party_b, b);
    assert_eq!(joined.last_price, 1010);
    assert_eq!(joined.entry_price, 1000);
    assert!(joined.active);
    assert_eq!(
        stake,
        Transfer { source: FundAccount::PartyBFunding, dest: FundAccount::Escrow, amount: JOIN_STAKE }
    );
}

#[test]
fn join_admits_at_the_boundary_below_the_entry_price_too() {
    // The drift counts by absolute value: 990 is exactly one percent under.
    let (rec, _) = open(ident(1), true, Some(1000), None).unwrap();
    assert!(join(&rec, ident(2), Some(990), None).is_ok());
}

#[test]
fn join_rejects_drifted_price_without_state_change() {
    // 1012 is a 1.2% drift: strictly past the one-percent limit.
    let (rec, _) = open(ident(1), true, Some(1000), None).unwrap();
    assert_eq!(join(&rec, ident(2), Some(1012), None), Err(WagerError::PriceDrifted));
    assert_eq!(join(&rec, ident(2), Some(1011), None), Err(WagerError::PriceDrifted));
    assert_eq!(join(&rec, ident(2), Some(989), None), Err(WagerError::PriceDrifted));
    assert_eq!(join(&rec, ident(2), Some(980), None), Err(WagerError::PriceDrifted));
    // The record the caller holds is untouched; nothing was admitted.
    assert!(rec.party_b == Identity { w0: 0, w1: 0, w2: 0, w3: 0 });
}

#[test]
fn join_twice_is_party_already_set() {
    let (rec, _) = open(ident(1), true, Some(1000), None).unwrap();
    let (joined, _) = join(&rec, ident(2), Some(1000), None).unwrap();
    assert_eq!(join(&joined, ident(3), Some(1000), None), Err(WagerError::PartyAlreadySet));
}

#[test]
fn join_on_terminated_record_is_not_active() {
    let (rec, _) = open(ident(1), true, Some(1000), None).unwrap();
    let (unwound, _) = unwind(&rec).unwrap();
    assert_eq!(join(&unwound, ident(2), Some(1000), None), Err(WagerError::NotActive));
}

#[test]
fn join_with_zero_entry_price_is_divide_by_zero() {
    // An oracle reading of zero becomes the entry price; admission then has
    // no percentage to compute.
    let (rec, _) = open(ident(1), true, None, Some(0)).unwrap();
    assert_eq!(rec.entry_price, 0);
    assert_eq!(join(&rec, ident(2), Some(5), None), Err(WagerError::DivideByZero));
}

#[test]
fn resolve_at_increase_boundary_pays_party_a() {
    // Entry 1000, party A bets increase; 1050 is exactly plus five percent.
    let a = ident(1);
    let b = ident(2);
    let auth_a = ident(11);
    let auth_b = ident(22);
    let (rec, _) = open(a, true, Some(1000), None).unwrap();
    let (joined, _) = join(&rec, b, Some(1000), None).unwrap();
    let (settled, payout) = resolve(&joined, auth_a, auth_b, Some(1050), None).unwrap();
    assert!(!settled.active);
    assert_eq!(settled.winner, auth_a);
    assert_eq!(settled.last_price, 1050);
    assert_eq!(
        payout,
        Some(Transfer {
            source: FundAccount::Escrow,
            dest: FundAccount::PartyAFunding,
            amount: TOTAL_PAYOUT,
        })
    );
}

#[test]
fn resolve_at_decrease_boundary_pays_the_decrease_bettor() {
    // Party A bets increase, so at minus five percent party B wins.
    let (rec, _) = open(ident(1), true, Some(1000), None).unwrap();
    let (joined, _) = join(&rec, ident(2), Some(1000), None).unwrap();
    let (settled, payout) = resolve(&joined, ident(11), ident(22), Some(950), None).unwrap();
    assert_eq!(settled.winner, ident(22));
    assert_eq!(payout.unwrap().dest, FundAccount::PartyBFunding);
}

#[test]
fn resolve_directions_follow_the_declared_bets() {
    // Party A bets decrease this time; a fall pays A, a rise pays B.
    let (rec, _) = open(ident(1), false, Some(1000), None).unwrap();
    let (joined, _) = join(&rec, ident(2), Some(1000), None).unwrap();
    let (settled, payout) = resolve(&joined, ident(11), ident(22), Some(950), None).unwrap();
    assert_eq!(settled.winner, ident(11));
    assert_eq!(payout.unwrap().dest, FundAccount::PartyAFunding);
    let (settled, payout) = resolve(&joined, ident(11), ident(22), Some(1050), None).unwrap();
    assert_eq!(settled.winner, ident(22));
    assert_eq!(payout.unwrap().dest, FundAccount::PartyBFunding);
}

#[test]
fn resolve_within_band_changes_nothing_but_last_price() {
    let (rec, _) = open(ident(1), true, Some(1000), None).unwrap();
    let (joined, _) = join(&rec, ident(2), Some(1000), None).unwrap();
    let (after, payout) = resolve(&joined, ident(11), ident(22), Some(1049), None).unwrap();
    assert_eq!(payout, None);
    assert!(after.active);
    assert_eq!(after.winner, Identity { w0: 0, w1: 0, w2: 0, w3: 0 });
    assert_eq!(after.last_price, 1049);
    assert_eq!(after.party_b, joined.party_b);
    let (after, payout) = resolve(&joined, ident(11), ident(22), Some(951), None).unwrap();
    assert_eq!(payout, None);
    assert!(after.active);
}

#[test]
fn resolve_before_join_is_not_active() {
    let (rec, _) = open(ident(1), true, Some(1000), None).unwrap();
    assert_eq!(
        resolve(&rec, ident(11), ident(22), Some(1050), None),
        Err(WagerError::NotActive)
    );
}

#[test]
fn resolve_twice_never_pays_twice() {
    let (rec, _) = open(ident(1), true, Some(1000), None).unwrap();
    let (joined, _) = join(&rec, ident(2), Some(1000), None).unwrap();
    let (settled, payout) = resolve(&joined, ident(11), ident(22), Some(1050), None).unwrap();
    assert!(payout.is_some());
    assert_eq!(
        resolve(&settled, ident(11), ident(22), Some(1050), None),
        Err(WagerError::NotActive)
    );
}

#[test]
fn unwind_before_join_returns_the_stake() {
    let a = ident(1);
    let (rec, _) = open(a, true, Some(1000), None).unwrap();
    let (unwound, refund) = unwind(&rec).unwrap();
    assert!(!unwound.active);
    assert_eq!(unwound.winner, Identity { w0: 0, w1: 0, w2: 0, w3: 0 });
    assert_eq!(unwound.party_a, a);
    assert_eq!(
        refund,
        Transfer { source: FundAccount::Escrow, dest: FundAccount::PartyAFunding, amount: OPEN_STAKE }
    );
}

#[test]
fn unwind_after_join_is_not_allowed() {
    let (rec, _) = open(ident(1), true, Some(1000), None).unwrap();
    let (joined, _) = join(&rec, ident(2), Some(1000), None).unwrap();
    assert_eq!(unwind(&joined), Err(WagerError::UnwindNotAllowed));
    // Once the second party is set the refusal holds regardless of `active`.
    let (settled, _) = resolve(&joined, ident(11), ident(22), Some(1050), None).unwrap();
    assert!(!settled.active);
    assert_eq!(unwind(&settled), Err(WagerError::UnwindNotAllowed));
}

#[test]
fn close_pays_the_recorded_winner_by_authority_match() {
    let (rec, _) = open(ident(1), true, Some(1000), None).unwrap();
    let (joined, _) = join(&rec, ident(2), Some(1000), None).unwrap();
    let (settled, _) = resolve(&joined, ident(11), ident(22), Some(1050), None).unwrap();
    let payout = close(&settled, ident(11), ident(22)).unwrap();
    assert_eq!(
        payout,
        Transfer { source: FundAccount::Escrow, dest: FundAccount::PartyAFunding, amount: TOTAL_PAYOUT }
    );
    // With the winner's authority on the other funding record, that record
    // is paid instead.
    let payout = close(&settled, ident(33), ident(11)).unwrap();
    assert_eq!(payout.dest, FundAccount::PartyBFunding);
}

#[test]
fn close_rejects_wrong_authorities_and_wrong_states() {
    let (rec, _) = open(ident(1), true, Some(1000), None).unwrap();
    assert_eq!(close(&rec, ident(11), ident(22)), Err(WagerError::AlreadyActive));
    let (unwound, _) = unwind(&rec).unwrap();
    assert_eq!(close(&unwound, ident(11), ident(22)), Err(WagerError::NotActive));
    let (joined, _) = join(&rec, ident(2), Some(1000), None).unwrap();
    let (settled, _) = resolve(&joined, ident(11), ident(22), Some(1050), None).unwrap();
    assert_eq!(close(&settled, ident(33), ident(44)), Err(WagerError::AuthorizationMismatch));
}

#[test]
fn refresh_price_overwrites_last_price_only() {
    let (rec, _) = open(ident(1), true, Some(1000), None).unwrap();
    let refreshed = refresh_price(&rec, Some(1234)).unwrap();
    assert_eq!(refreshed.last_price, 1234);
    assert_eq!(refreshed.entry_price, 1000);
    assert!(refreshed.active);
    assert_eq!(refresh_price(&rec, None), Err(WagerError::OracleUnavailable));
}

#[test]
fn payout_equals_both_stakes() {
    assert_eq!(TOTAL_PAYOUT, OPEN_STAKE + JOIN_STAKE);
}

#[test]
fn a_wager_flows_from_raw_payloads_to_settlement() {
    let mut open_payload = vec![0u8, 1];
    open_payload.extend_from_slice(&1000u64.to_le_bytes());
    let operation = Processor::decode_operation(&open_payload).unwrap();
    let (rec, _) = match operation {
        Operation::Open { party_a_increase, supplied_price } => {
            open(ident(1), party_a_increase, supplied_price, None).unwrap()
        }
        other => panic!("decoded {:?}", other),
    };

    let mut join_payload = vec![2u8];
    join_payload.extend_from_slice(&1005u64.to_le_bytes());
    let operation = Processor::decode_operation(&join_payload).unwrap();
    let (joined, _) = match operation {
        Operation::Join { supplied_price } => {
            join(&rec, ident(2), supplied_price, None).unwrap()
        }
        other => panic!("decoded {:?}", other),
    };
    assert_eq!(joined.last_price, 1005);

    let mut resolve_payload = vec![3u8];
    resolve_payload.extend_from_slice(&949u64.to_le_bytes());
    let operation = Processor::decode_operation(&resolve_payload).unwrap();
    let (settled, payout) = match operation {
        Operation::Resolve { supplied_price } => {
            resolve(&joined, ident(11), ident(22), supplied_price, None).unwrap()
        }
        other => panic!("decoded {:?}", other),
    };
    assert!(!settled.active);
    assert_eq!(settled.winner, ident(22));
    assert_eq!(payout.unwrap().amount, TOTAL_PAYOUT);
}

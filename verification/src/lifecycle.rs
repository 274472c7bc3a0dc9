use vstd::prelude::*;
use crate::errors::WagerError;
use crate::price::{resolve_price, spec_resolve_price};
use crate::settlement::{
    determine_outcome, drift_exceeds_limit, lemma_decrease_boundary_has_winner,
    lemma_increase_boundary_has_winner, spec_abs_drift, spec_decrease_threshold,
    spec_drift_exceeds_limit, spec_increase_threshold, spec_outcome, Outcome,
};
use crate::state::{Identity, WagerRecord};

verus! {

/// Fixed stake the initiator moves into escrow at `open`.
pub const OPEN_STAKE: u64 = 1_000_000_000;

/// Fixed stake the second party moves into escrow at `join`.
pub const JOIN_STAKE: u64 = 1_000_000_000;

/// Fixed amount disbursed to the winner on settlement.
pub const TOTAL_PAYOUT: u64 = 2_000_000_000;

/// The payout equals the sum of the two stakes exactly: what flows out of
/// escrow on settlement is what flowed in, neither a leak nor a shortfall.
pub proof fn lemma_payout_covers_stakes()
    ensures
        TOTAL_PAYOUT == OPEN_STAKE + JOIN_STAKE,
{
}

/// The token-holding records among which the engine moves stakes.
#[derive(Clone, Copy, Debug, PartialEq, Eq, Structural)]
pub enum FundAccount {
    PartyAFunding,
    PartyBFunding,
    Escrow,
}

/// One outbound transfer directive. The engine never moves tokens itself:
/// each operation returns at most one directive, always for a protocol-fixed
/// amount, and the embedding program performs exactly the transfers returned.
#[derive(Clone, Copy, Debug, PartialEq, Eq, Structural)]
pub struct Transfer {
    pub source: FundAccount,
    pub dest: FundAccount,
    pub amount: u64,
}

/// What `open` produces for a given initiator, direction and price inputs.
pub open spec fn spec_open(
    party_a: Identity,
    party_a_increase: bool,
    supplied: Option<u64>,
    oracle: Option<u64>,
) -> Result<(WagerRecord, Transfer), WagerError> {
    match spec_resolve_price(supplied, oracle) {
        Err(e) => Err(e),
        Ok(price) => Ok(
            (
                WagerRecord {
                    party_a,
                    party_b: Identity::spec_unset(),
                    party_a_direction: party_a_increase,
                    party_b_direction: !party_a_increase,
                    entry_price: price,
                    last_price: price,
                    active: true,
                    winner: Identity::spec_unset(),
                },
                Transfer {
                    source: FundAccount::PartyAFunding,
                    dest: FundAccount::Escrow,
                    amount: OPEN_STAKE,
                },
            ),
        ),
    }
}

/// What `join` produces. The price is resolved first; then the record must
/// be active with no second party yet, and the resolved price must not have
/// drifted more than one percent from the entry price.
pub open spec fn spec_join(
    rec: WagerRecord,
    party_b: Identity,
    supplied: Option<u64>,
    oracle: Option<u64>,
) -> Result<(WagerRecord, Transfer), WagerError> {
    match spec_resolve_price(supplied, oracle) {
        Err(e) => Err(e),
        Ok(price) => if !rec.active {
            Err(WagerError::NotActive)
        } else if !rec.party_b.spec_is_unset() {
            Err(WagerError::PartyAlreadySet)
        } else if rec.entry_price == 0 {
            Err(WagerError::DivideByZero)
        } else if spec_drift_exceeds_limit(rec.entry_price as int, price as int) {
            Err(WagerError::PriceDrifted)
        } else {
            Ok(
                (
                    WagerRecord { party_b, last_price: price, ..rec },
                    Transfer {
                        source: FundAccount::PartyBFunding,
                        dest: FundAccount::Escrow,
                        amount: JOIN_STAKE,
                    },
                ),
            )
        },
    }
}

/// What `resolve` produces. `authority_a` and `authority_b` are the recorded
/// owners of the two funding records: the winner identity is taken from the
/// winning funding record's owner, so that the payout destination genuinely
/// belongs to the party credited as winner.
pub open spec fn spec_resolve(
    rec: WagerRecord,
    authority_a: Identity,
    authority_b: Identity,
    supplied: Option<u64>,
    oracle: Option<u64>,
) -> Result<(WagerRecord, Option<Transfer>), WagerError> {
    match spec_resolve_price(supplied, oracle) {
        Err(e) => Err(e),
        Ok(price) => if !rec.active || rec.party_b.spec_is_unset() {
            Err(WagerError::NotActive)
        } else {
            match spec_outcome(rec.entry_price as int, price as int, rec.party_a_direction) {
                Outcome::NoWinnerYet => Ok((WagerRecord { last_price: price, ..rec }, None)),
                Outcome::PartyAWins => Ok(
                    (
                        WagerRecord { last_price: price, active: false, winner: authority_a, ..rec },
                        Some(
                            Transfer {
                                source: FundAccount::Escrow,
                                dest: FundAccount::PartyAFunding,
                                amount: TOTAL_PAYOUT,
                            },
                        ),
                    ),
                ),
                Outcome::PartyBWins => Ok(
                    (
                        WagerRecord { last_price: price, active: false, winner: authority_b, ..rec },
                        Some(
                            Transfer {
                                source: FundAccount::Escrow,
                                dest: FundAccount::PartyBFunding,
                                amount: TOTAL_PAYOUT,
                            },
                        ),
                    ),
                ),
            }
        },
    }
}

/// What `unwind` produces: the escrowed stake goes back to the initiator and
/// the record terminates with no winner. Allowed exactly while no second
/// party has staked, whatever the rest of the record says.
pub open spec fn spec_unwind(rec: WagerRecord) -> Result<(WagerRecord, Transfer), WagerError> {
    if !rec.party_b.spec_is_unset() {
        Err(WagerError::UnwindNotAllowed)
    } else {
        Ok(
            (
                WagerRecord { active: false, ..rec },
                Transfer {
                    source: FundAccount::Escrow,
                    dest: FundAccount::PartyAFunding,
                    amount: OPEN_STAKE,
                },
            ),
        )
    }
}

/// What `close` produces: the terminal disbursement step, usable once a
/// winner is recorded. The winner's funding record is re-derived by matching
/// each record's owner against the recorded winner; the record itself does
/// not change.
pub open spec fn spec_close(
    rec: WagerRecord,
    authority_a: Identity,
    authority_b: Identity,
) -> Result<Transfer, WagerError> {
    if rec.active {
        Err(WagerError::AlreadyActive)
    } else if rec.winner.spec_is_unset() {
        Err(WagerError::NotActive)
    } else if authority_a == rec.winner {
        Ok(
            Transfer {
                source: FundAccount::Escrow,
                dest: FundAccount::PartyAFunding,
                amount: TOTAL_PAYOUT,
            },
        )
    } else if authority_b == rec.winner {
        Ok(
            Transfer {
                source: FundAccount::Escrow,
                dest: FundAccount::PartyBFunding,
                amount: TOTAL_PAYOUT,
            },
        )
    } else {
        Err(WagerError::AuthorizationMismatch)
    }
}

/// What `refresh_price` produces: the oracle reading overwrites `last_price`
/// and nothing else.
pub open spec fn spec_refresh_price(rec: WagerRecord, oracle: Option<u64>) -> Result<
    WagerRecord,
    WagerError,
> {
    match oracle {
        None => Err(WagerError::OracleUnavailable),
        Some(p) => Ok(WagerRecord { last_price: p, ..rec }),
    }
}

/// Open a wager: resolve the entry price, record the initiator and the two
/// opposing directions, and direct the fixed open stake into escrow.
pub fn open(
    party_a: Identity,
    party_a_increase: bool,
    supplied: Option<u64>,
    oracle: Option<u64>,
) -> (r: Result<(WagerRecord, Transfer), WagerError>)
    requires
        !party_a.spec_is_unset(),
    ensures
        r == spec_open(party_a, party_a_increase, supplied, oracle),
        r matches Ok(ok) ==> ok.0.wf() && ok.0.is_open(),
        r matches Ok(ok) ==> Ok::<u64, WagerError>(ok.0.entry_price) == spec_resolve_price(
            supplied,
            oracle,
        ) && ok.0.last_price == ok.0.entry_price,
        r matches Ok(ok) ==> ok.1.amount == OPEN_STAKE && ok.1.source
            == FundAccount::PartyAFunding && ok.1.dest == FundAccount::Escrow,
        r is Err ==> r == Err::<(WagerRecord, Transfer), WagerError>(WagerError::OracleUnavailable)
            && spec_resolve_price(supplied, oracle) is Err,
{
    match resolve_price(supplied, oracle) {
        Err(e) => Err(e),
        Ok(price) => Ok(
            (
                WagerRecord {
                    party_a,
                    party_b: Identity::unset(),
                    party_a_direction: party_a_increase,
                    party_b_direction: !party_a_increase,
                    entry_price: price,
                    last_price: price,
                    active: true,
                    winner: Identity::unset(),
                },
                Transfer {
                    source: FundAccount::PartyAFunding,
                    dest: FundAccount::Escrow,
                    amount: OPEN_STAKE,
                },
            ),
        ),
    }
}

/// Join the second party to the wager: resolve the current price, reject it if it
/// drifted more than one percent from the entry price, and otherwise record
/// the second party and direct the fixed join stake into escrow. A drift of
/// exactly one percent is still admitted. On any error the record is left
/// untouched.
pub fn join(
    rec: &WagerRecord,
    party_b: Identity,
    supplied: Option<u64>,
    oracle: Option<u64>,
) -> (r: Result<(WagerRecord, Transfer), WagerError>)
    requires
        rec.wf(),
        !party_b.spec_is_unset(),
    ensures
        r == spec_join(*rec, party_b, supplied, oracle),
        r matches Ok(ok) ==> ok.0.wf() && ok.0.is_joined() && ok.0.party_b == party_b
            && ok.0.party_a == rec.party_a && ok.0.entry_price == rec.entry_price
            && ok.0.party_a_direction == rec.party_a_direction && ok.0.party_b_direction
            == rec.party_b_direction && ok.0.winner == rec.winner,
        r matches Ok(ok) ==> Ok::<u64, WagerError>(ok.0.last_price) == spec_resolve_price(
            supplied,
            oracle,
        ),
        r matches Ok(ok) ==> ok.1.amount == JOIN_STAKE && ok.1.source
            == FundAccount::PartyBFunding && ok.1.dest == FundAccount::Escrow,
        r == Err::<(WagerRecord, Transfer), WagerError>(WagerError::PriceDrifted) <==> (
        spec_resolve_price(supplied, oracle) matches Ok(p) && rec.active
            && rec.party_b.spec_is_unset() && rec.entry_price > 0 && spec_drift_exceeds_limit(
            rec.entry_price as int,
            p as int,
        )),
{
    match resolve_price(supplied, oracle) {
        Err(e) => Err(e),
        Ok(price) => {
            if !rec.active {
                Err(WagerError::NotActive)
            } else if !rec.party_b.is_unset() {
                Err(WagerError::PartyAlreadySet)
            } else if rec.entry_price == 0 {
                Err(WagerError::DivideByZero)
            } else if drift_exceeds_limit(rec.entry_price, price) {
                Err(WagerError::PriceDrifted)
            } else {
                Ok(
                    (
                        WagerRecord { party_b, last_price: price, ..*rec },
                        Transfer {
                            source: FundAccount::PartyBFunding,
                            dest: FundAccount::Escrow,
                            amount: JOIN_STAKE,
                        },
                    ),
                )
            }
        },
    }
}

/// Resolve a joined wager: resolve the current price and compare it against
/// the five-percent thresholds. At or beyond a threshold the wager
/// terminates, the winner is recorded as the owner of the winning funding
/// record, and the fixed payout is directed out of escrow; strictly inside
/// the band nothing but `last_price` changes and no transfer is directed.
pub fn resolve(
    rec: &WagerRecord,
    authority_a: Identity,
    authority_b: Identity,
    supplied: Option<u64>,
    oracle: Option<u64>,
) -> (r: Result<(WagerRecord, Option<Transfer>), WagerError>)
    requires
        rec.wf(),
        !authority_a.spec_is_unset(),
        !authority_b.spec_is_unset(),
    ensures
        r == spec_resolve(*rec, authority_a, authority_b, supplied, oracle),
        r matches Ok(ok) ==> ok.0.wf() && ok.0.party_a == rec.party_a && ok.0.party_b
            == rec.party_b && ok.0.entry_price == rec.entry_price && ok.0.party_a_direction
            == rec.party_a_direction && ok.0.party_b_direction == rec.party_b_direction,
        r matches Ok(ok) ==> (ok.1 is None ==> ok.0.active == rec.active && ok.0.winner
            == rec.winner),
        r matches Ok(ok) ==> (ok.1 is Some ==> ok.0.is_resolved() && ok.1->Some_0.amount
            == TOTAL_PAYOUT && ok.1->Some_0.source == FundAccount::Escrow),
        !rec.active ==> r == Err::<(WagerRecord, Option<Transfer>), WagerError>(
            WagerError::NotActive,
        ) || r == Err::<(WagerRecord, Option<Transfer>), WagerError>(
            WagerError::OracleUnavailable,
        ),
{
    match resolve_price(supplied, oracle) {
        Err(e) => Err(e),
        Ok(price) => {
            if !rec.active || rec.party_b.is_unset() {
                Err(WagerError::NotActive)
            } else {
                match determine_outcome(rec.entry_price, price, rec.party_a_direction) {
                    Outcome::NoWinnerYet => Ok((WagerRecord { last_price: price, ..*rec }, None)),
                    Outcome::PartyAWins => Ok(
                        (
                            WagerRecord {
                                last_price: price,
                                active: false,
                                winner: authority_a,
                                ..*rec
                            },
                            Some(
                                Transfer {
                                    source: FundAccount::Escrow,
                                    dest: FundAccount::PartyAFunding,
                                    amount: TOTAL_PAYOUT,
                                },
                            ),
                        ),
                    ),
                    Outcome::PartyBWins => Ok(
                        (
                            WagerRecord {
                                last_price: price,
                                active: false,
                                winner: authority_b,
                                ..*rec
                            },
                            Some(
                                Transfer {
                                    source: FundAccount::Escrow,
                                    dest: FundAccount::PartyBFunding,
                                    amount: TOTAL_PAYOUT,
                                },
                            ),
                        ),
                    ),
                }
            }
        },
    }
}

/// Unwind a wager that no second party has joined: the escrowed open stake
/// is directed back to the initiator, the record terminates, and no winner
/// is ever recorded. Succeeds exactly when `party_b` is unset.
pub fn unwind(rec: &WagerRecord) -> (r: Result<(WagerRecord, Transfer), WagerError>)
    requires
        rec.wf(),
    ensures
        r == spec_unwind(*rec),
        r is Ok <==> rec.party_b.spec_is_unset(),
        r is Err <==> r == Err::<(WagerRecord, Transfer), WagerError>(
            WagerError::UnwindNotAllowed,
        ) && !rec.party_b.spec_is_unset(),
        r matches Ok(ok) ==> ok.0.wf() && !ok.0.active && ok.0.winner == rec.winner
            && ok.0.winner.spec_is_unset() && ok.0.party_a == rec.party_a && ok.0.party_b
            == rec.party_b && ok.0.entry_price == rec.entry_price && ok.0.last_price
            == rec.last_price,
        r matches Ok(ok) ==> ok.1.amount == OPEN_STAKE && ok.1.source == FundAccount::Escrow
            && ok.1.dest == FundAccount::PartyAFunding,
{
    if !rec.party_b.is_unset() {
        Err(WagerError::UnwindNotAllowed)
    } else {
        Ok(
            (
                WagerRecord { active: false, ..*rec },
                Transfer {
                    source: FundAccount::Escrow,
                    dest: FundAccount::PartyAFunding,
                    amount: OPEN_STAKE,
                },
            ),
        )
    }
}

/// Disburse the recorded payout once a winner exists: the winning funding
/// record is re-derived by owner match against the recorded winner. By this
/// engine's contract, `close` is a deliberate disbursement path of its own:
/// it directs the fixed payout again whenever invoked on a resolved record,
/// and the embedding program is expected to call it only while escrow still
/// holds the funds.
pub fn close(rec: &WagerRecord, authority_a: Identity, authority_b: Identity) -> (r: Result<
    Transfer,
    WagerError,
>)
    requires
        rec.wf(),
    ensures
        r == spec_close(*rec, authority_a, authority_b),
        r is Ok <==> !rec.active && !rec.winner.spec_is_unset() && (authority_a == rec.winner
            || authority_b == rec.winner),
        r matches Ok(t) ==> t.amount == TOTAL_PAYOUT && t.source == FundAccount::Escrow,
        r matches Ok(t) ==> (t.dest == FundAccount::PartyAFunding <==> authority_a == rec.winner),
{
    if rec.active {
        Err(WagerError::AlreadyActive)
    } else if rec.winner.is_unset() {
        Err(WagerError::NotActive)
    } else if authority_a == rec.winner {
        Ok(
            Transfer {
                source: FundAccount::Escrow,
                dest: FundAccount::PartyAFunding,
                amount: TOTAL_PAYOUT,
            },
        )
    } else if authority_b == rec.winner {
        Ok(
            Transfer {
                source: FundAccount::Escrow,
                dest: FundAccount::PartyBFunding,
                amount: TOTAL_PAYOUT,
            },
        )
    } else {
        Err(WagerError::AuthorizationMismatch)
    }
}

/// Overwrite `last_price` with the oracle's reading; every other field keeps
/// its value. Fails exactly when the feed yields no current price.
pub fn refresh_price(rec: &WagerRecord, oracle: Option<u64>) -> (r: Result<
    WagerRecord,
    WagerError,
>)
    requires
        rec.wf(),
    ensures
        r == spec_refresh_price(*rec, oracle),
        r is Ok <==> oracle is Some,
        r matches Ok(r2) ==> r2.wf() && r2.last_price == oracle->Some_0 && r2.party_a
            == rec.party_a && r2.party_b == rec.party_b && r2.entry_price == rec.entry_price
            && r2.active == rec.active && r2.winner == rec.winner && r2.party_a_direction
            == rec.party_a_direction && r2.party_b_direction == rec.party_b_direction,
{
    match oracle {
        None => Err(WagerError::OracleUnavailable),
        Some(p) => Ok(WagerRecord { last_price: p, ..*rec }),
    }
}

/// Resolution at exactly the increase threshold always settles the wager:
/// the threshold comparison is inclusive, so the boundary never yields the
/// winnerless outcome.
pub proof fn lemma_resolve_at_increase_boundary_settles(
    rec: WagerRecord,
    authority_a: Identity,
    authority_b: Identity,
    supplied: Option<u64>,
    oracle: Option<u64>,
    price: u64,
)
    requires
        rec.is_joined(),
        spec_resolve_price(supplied, oracle) == Ok::<u64, WagerError>(price),
        price == spec_increase_threshold(rec.entry_price as int),
    ensures
        spec_resolve(rec, authority_a, authority_b, supplied, oracle) matches Ok(ok) && ok.1
            is Some,
{
    lemma_increase_boundary_has_winner(rec.entry_price as int, rec.party_a_direction);
}

/// The decrease boundary settles the wager just the same.
pub proof fn lemma_resolve_at_decrease_boundary_settles(
    rec: WagerRecord,
    authority_a: Identity,
    authority_b: Identity,
    supplied: Option<u64>,
    oracle: Option<u64>,
    price: u64,
)
    requires
        rec.is_joined(),
        spec_resolve_price(supplied, oracle) == Ok::<u64, WagerError>(price),
        price == spec_decrease_threshold(rec.entry_price as int),
    ensures
        spec_resolve(rec, authority_a, authority_b, supplied, oracle) matches Ok(ok) && ok.1
            is Some,
{
    lemma_decrease_boundary_has_winner(rec.entry_price as int, rec.party_a_direction);
}

/// Resolution strictly inside the band succeeds, directs no transfer, and
/// changes nothing but `last_price`: the indeterminate case is a normal
/// outcome, not an error and not a mutation.
pub proof fn lemma_resolve_within_band_is_quiescent(
    rec: WagerRecord,
    authority_a: Identity,
    authority_b: Identity,
    supplied: Option<u64>,
    oracle: Option<u64>,
    price: u64,
)
    requires
        rec.is_joined(),
        spec_resolve_price(supplied, oracle) == Ok::<u64, WagerError>(price),
        spec_decrease_threshold(rec.entry_price as int) < price as int,
        (price as int) < spec_increase_threshold(rec.entry_price as int),
    ensures
        spec_resolve(rec, authority_a, authority_b, supplied, oracle) == Ok::<
            (WagerRecord, Option<Transfer>),
            WagerError,
        >((WagerRecord { last_price: price, ..rec }, None)),
{
}

/// A wager settles at most once: after a resolution that recorded a winner,
/// every further resolution fails outright, so a second payout is never
/// directed. With a usable price it is rejected as `NotActive`; without one
/// only the price resolution itself can fail.
pub proof fn lemma_resolve_settles_at_most_once(
    rec: WagerRecord,
    authority_a: Identity,
    authority_b: Identity,
    supplied: Option<u64>,
    oracle: Option<u64>,
    settled: WagerRecord,
    payout: Transfer,
    authority_a2: Identity,
    authority_b2: Identity,
    supplied2: Option<u64>,
    oracle2: Option<u64>,
)
    requires
        spec_resolve(rec, authority_a, authority_b, supplied, oracle) == Ok::<
            (WagerRecord, Option<Transfer>),
            WagerError,
        >((settled, Some(payout))),
    ensures
        spec_resolve(settled, authority_a2, authority_b2, supplied2, oracle2) is Err,
        spec_resolve_price(supplied2, oracle2) is Ok ==> spec_resolve(
            settled,
            authority_a2,
            authority_b2,
            supplied2,
            oracle2,
        ) == Err::<(WagerRecord, Option<Transfer>), WagerError>(WagerError::NotActive),
{
}

/// A drift of exactly one percent is still admitted: admission rejects only
/// strictly more than one percent.
pub proof fn lemma_join_at_drift_boundary_is_admitted(
    rec: WagerRecord,
    party_b: Identity,
    supplied: Option<u64>,
    oracle: Option<u64>,
    price: u64,
)
    requires
        rec.is_open(),
        rec.entry_price > 0,
        spec_resolve_price(supplied, oracle) == Ok::<u64, WagerError>(price),
        spec_abs_drift(rec.entry_price as int, price as int) * 100 == rec.entry_price,
    ensures
        spec_join(rec, party_b, supplied, oracle) is Ok,
{
}

/// The lifecycle invariants, over every operation on a well-formed record:
/// the second party is set exactly once and never overwritten, a record
/// terminates at most once and is never reactivated, and a winner is
/// recorded only together with termination and never changed afterwards.
pub proof fn lemma_transitions_are_monotonic(
    rec: WagerRecord,
    party_b: Identity,
    authority_a: Identity,
    authority_b: Identity,
    supplied: Option<u64>,
    oracle: Option<u64>,
)
    requires
        rec.wf(),
    ensures
        spec_join(rec, party_b, supplied, oracle) is Ok ==> rec.is_open(),
        spec_join(rec, party_b, supplied, oracle) matches Ok(ok) ==> ok.0.active == rec.active
            && ok.0.winner == rec.winner,
        spec_resolve(rec, authority_a, authority_b, supplied, oracle) is Ok ==> rec.is_joined(),
        spec_resolve(rec, authority_a, authority_b, supplied, oracle) matches Ok(ok)
            ==> ok.0.party_b == rec.party_b && rec.winner.spec_is_unset() && (ok.0.winner
            != rec.winner ==> !ok.0.active),
        spec_unwind(rec) is Ok ==> rec.party_b.spec_is_unset(),
        spec_unwind(rec) matches Ok(ok) ==> ok.0.winner == rec.winner && ok.0.party_b
            == rec.party_b,
        spec_refresh_price(rec, oracle) matches Ok(r2) ==> r2.active == rec.active && r2.winner
            == rec.winner && r2.party_b == rec.party_b,
{
}

} // verus!

use vstd::prelude::*;

verus! {

/// The verdict of the settlement arithmetic.
#[derive(Clone, Copy, Debug, PartialEq, Eq, Structural)]
pub enum Outcome {
    PartyAWins,
    PartyBWins,
    /// The price sits strictly inside the five-percent band: a valid,
    /// non-error outcome; callers retry resolution later.
    NoWinnerYet,
}

/// Price at or above which the "increase" bettor wins: the entry price plus
/// five percent of it, truncating. Fractional crossings below one unit round
/// toward the entry price.
pub open spec fn spec_increase_threshold(entry: int) -> int {
    entry + entry * 5 / 100
}

/// Price at or below which the "decrease" bettor wins: the entry price minus
/// five percent of it, truncating.
pub open spec fn spec_decrease_threshold(entry: int) -> int {
    entry - entry * 5 / 100
}

/// Winner determination from the entry price, the current price, and party
/// A's declared direction. Ties at exactly a threshold count as a win; the
/// increase threshold is examined first.
pub open spec fn spec_outcome(entry: int, current: int, party_a_increase: bool) -> Outcome {
    if current >= spec_increase_threshold(entry) {
        if party_a_increase {
            Outcome::PartyAWins
        } else {
            Outcome::PartyBWins
        }
    } else if current <= spec_decrease_threshold(entry) {
        if party_a_increase {
            Outcome::PartyBWins
        } else {
            Outcome::PartyAWins
        }
    } else {
        Outcome::NoWinnerYet
    }
}

/// Absolute drift of `last` from `entry`.
pub open spec fn spec_abs_drift(entry: int, last: int) -> int {
    if last >= entry {
        last - entry
    } else {
        entry - last
    }
}

/// True when `last` has drifted from `entry` by strictly more than one
/// percent: the admission guard. The comparison is exact — one hundred times
/// the absolute drift against the entry price itself — so a drift of exactly
/// one percent is still within the limit and anything above it is not.
pub open spec fn spec_drift_exceeds_limit(entry: int, last: int) -> bool {
    spec_abs_drift(entry, last) * 100 > entry
}

/// Determine the settlement outcome for the given prices and direction.
pub fn determine_outcome(entry: u64, current: u64, party_a_increase: bool) -> (o: Outcome)
    ensures
        o == spec_outcome(entry as int, current as int, party_a_increase),
{
    let e = entry as u128;
    let c = current as u128;
    let step = e * 5 / 100;
    assert(e * 5 / 100 <= e * 5) by (nonlinear_arith)
        requires e >= 0,
    ;
    let increase_at = e + step;
    assert(e * 5 / 100 <= e) by (nonlinear_arith)
        requires e >= 0,
    ;
    let decrease_at = e - step;
    if c >= increase_at {
        if party_a_increase {
            Outcome::PartyAWins
        } else {
            Outcome::PartyBWins
        }
    } else if c <= decrease_at {
        if party_a_increase {
            Outcome::PartyBWins
        } else {
            Outcome::PartyAWins
        }
    } else {
        Outcome::NoWinnerYet
    }
}

/// True when the price has drifted strictly more than one percent from the
/// entry price.
pub fn drift_exceeds_limit(entry: u64, last: u64) -> (r: bool)
    ensures
        r == spec_drift_exceeds_limit(entry as int, last as int),
{
    let e = entry as u128;
    let l = last as u128;
    let diff = if l >= e {
        l - e
    } else {
        e - l
    };
    diff * 100 > e
}

/// At exactly the increase threshold the wager always settles: the
/// comparison is inclusive, so the boundary never yields `NoWinnerYet`.
pub proof fn lemma_increase_boundary_has_winner(entry: int, party_a_increase: bool)
    ensures
        spec_outcome(entry, spec_increase_threshold(entry), party_a_increase)
            != Outcome::NoWinnerYet,
{
}

/// The decrease boundary likewise always settles.
pub proof fn lemma_decrease_boundary_has_winner(entry: int, party_a_increase: bool)
    ensures
        spec_outcome(entry, spec_decrease_threshold(entry), party_a_increase)
            != Outcome::NoWinnerYet,
{
}

} // verus!

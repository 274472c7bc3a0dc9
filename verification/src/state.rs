use vstd::prelude::*;

verus! {

/// An opaque, comparable participant identifier: 32 bytes held as four
/// 64-bit little-endian words. The all-zero value is the distinguished
/// sentinel that stands for "no identity".
#[derive(Clone, Copy, Debug, PartialEq, Eq, Structural)]
pub struct Identity {
    pub w0: u64,
    pub w1: u64,
    pub w2: u64,
    pub w3: u64,
}

impl Identity {
    /// The sentinel "no identity".
    pub open spec fn spec_unset() -> Identity {
        Identity { w0: 0, w1: 0, w2: 0, w3: 0 }
    }

    pub open spec fn spec_is_unset(self) -> bool {
        self == Identity::spec_unset()
    }

    pub fn unset() -> (r: Identity)
        ensures
            r == Identity::spec_unset(),
    {
        Identity { w0: 0, w1: 0, w2: 0, w3: 0 }
    }

    pub fn is_unset(&self) -> (r: bool)
        ensures
            r == self.spec_is_unset(),
    {
        self.w0 == 0 && self.w1 == 0 && self.w2 == 0 && self.w3 == 0
    }
}

/// The persisted state of one wager: the sole entity the engine mutates.
#[derive(Clone, Copy, Debug, PartialEq, Eq, Structural)]
pub struct WagerRecord {
    /// The initiating party; set at creation and immutable thereafter.
    pub party_a: Identity,
    /// The admitted second party; the sentinel until admission, then immutable.
    pub party_b: Identity,
    /// True when party A bets on a price increase.
    pub party_a_direction: bool,
    /// Always the negation of `party_a_direction`, fixed at creation.
    pub party_b_direction: bool,
    /// Reference price recorded at creation; immutable thereafter.
    pub entry_price: u64,
    /// Most recently observed reference price; overwritten on every refresh.
    pub last_price: u64,
    /// True from creation until a resolution or unwind commits; false is terminal.
    pub active: bool,
    /// The sentinel until a resolution commits a winner.
    pub winner: Identity,
}

impl WagerRecord {
    /// Well-formedness: established by `open` and preserved by every
    /// state-changing operation.
    pub open spec fn wf(self) -> bool {
        &&& !self.party_a.spec_is_unset()
        &&& self.party_b_direction == !self.party_a_direction
        &&& self.active ==> self.winner.spec_is_unset()
        &&& !self.winner.spec_is_unset() ==> !self.party_b.spec_is_unset()
    }

    /// Runtime validation of `wf`, for records read back from untrusted
    /// storage.
    pub fn check_wf(&self) -> (r: bool)
        ensures
            r == self.wf(),
    {
        !self.party_a.is_unset() && self.party_b_direction == !self.party_a_direction && (
        !self.active || self.winner.is_unset()) && (self.winner.is_unset()
            || !self.party_b.is_unset())
    }

    /// Created, waiting for a second party.
    pub open spec fn is_open(self) -> bool {
        self.active && self.party_b.spec_is_unset()
    }

    /// Both parties staked, waiting for a threshold crossing.
    pub open spec fn is_joined(self) -> bool {
        self.active && !self.party_b.spec_is_unset()
    }

    /// Terminated with a recorded winner.
    pub open spec fn is_resolved(self) -> bool {
        !self.active && !self.winner.spec_is_unset()
    }

    /// Terminated before a second party joined; no winner was ever recorded.
    pub open spec fn is_unwound(self) -> bool {
        !self.active && self.winner.spec_is_unset()
    }
}

} // verus!

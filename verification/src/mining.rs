//! The decisions of a miner: when to go on mining, and what counts as a
//! mined block.

use vstd::prelude::*;

verus! {

/// What an attempt to mine a block came to.
#[derive(Clone, Copy, Debug, PartialEq, Eq, Structural)]
pub enum Attempt {
    /// A block header was found; `verified` says whether it passes its own
    /// verification.
    Found { verified: bool },
    /// No block header was found.
    Failed,
}

/// What the miner does next.
#[derive(Clone, Copy, Debug, PartialEq, Eq, Structural)]
pub enum Action {
    /// Make another attempt.
    Mine,
    /// Stop: the target is reached.
    Stop,
}

/// A miner that counts the blocks it has mined, up to a target.
#[derive(Clone, Copy, Debug, PartialEq, Eq, Structural)]
pub struct Miner {
    pub mined: u64,
    pub target: u64,
}

/// The number of mined blocks after an attempt: one more after a header that
/// was found and verified, and the same after any other attempt.
pub open spec fn spec_mined_after(mined: u64, attempt: Attempt) -> int {
    match attempt {
        Attempt::Found { verified: true } => mined + 1,
        _ => mined as int,
    }
}

/// What the miner does with a number of mined blocks and a target: it stops
/// once the number has reached the target.
pub open spec fn spec_action(mined: u64, target: u64) -> Action {
    if mined >= target {
        Action::Stop
    } else {
        Action::Mine
    }
}

impl Miner {
    /// A miner that has mined nothing yet.
    pub fn new(target: u64) -> (r: Miner)
        ensures
            r == (Miner { mined: 0, target }),
    {
        Miner { mined: 0, target }
    }

    /// Takes an attempt into account, and returns what to do next. The count
    /// does not go beyond the largest number that it can hold.
    pub fn step(&mut self, attempt: Attempt) -> (r: Action)
        ensures
            final(self).target == old(self).target,
            final(self).mined == if spec_mined_after(old(self).mined, attempt) <= u64::MAX {
                spec_mined_after(old(self).mined, attempt)
            } else {
                old(self).mined as int
            },
            r == spec_action(final(self).mined, final(self).target),
    {
        match attempt {
            Attempt::Found { verified } => {
                if verified && self.mined < u64::MAX {
                    self.mined += 1;
                }
            },
            Attempt::Failed => {},
        }
        if self.mined >= self.target {
            Action::Stop
        } else {
            Action::Mine
        }
    }
}

/// A miner that has not reached its target yet does not go beyond it with
/// one attempt, and stops exactly when it reaches it.
pub proof fn miner_stops_at_its_target(mined: u64, target: u64, attempt: Attempt)
    requires
        mined < target,
    ensures
        spec_mined_after(mined, attempt) <= target,
        spec_mined_after(mined, attempt) <= u64::MAX,
        spec_action(spec_mined_after(mined, attempt) as u64, target) == Action::Stop
            <==> spec_mined_after(mined, attempt) == target,
{
}

} // verus!

//! Protection against timing attacks on the login.
use vstd::prelude::*;

verus! {

/// Makes every authentication take at least `delay` nanoseconds, so that its
/// duration does not tell why it failed.
#[derive(Debug)]
pub struct TokioTimingAttackProtection {
    pub delay: u128,
}

/// How long to wait after `already_spend` nanoseconds: the rest of the delay,
/// or nothing once it is spent.
pub open spec fn remaining(delay: u128, already_spend: u128) -> u128 {
    if already_spend < delay {
        (delay - already_spend) as u128
    } else {
        0
    }
}

impl TokioTimingAttackProtection {
    /// How long to sleep after an authentication that took `already_spend`
    /// nanoseconds; 0 means not at all.
    pub fn delay(&self, already_spend: u128) -> (r: u128)
        ensures
            r == remaining(self.delay, already_spend),
    {
        if already_spend < self.delay {
            self.delay - already_spend
        } else {
            0
        }
    }
}

/// The time spent and the wait together make up at least the delay, and the
/// wait never goes beyond what is missing.
pub proof fn law_delay_fills_up(delay: u128, already_spend: u128)
    ensures
        already_spend + remaining(delay, already_spend) >= delay,
        already_spend < delay ==> already_spend + remaining(delay, already_spend) == delay,
        already_spend >= delay ==> remaining(delay, already_spend) == 0,
{
}

} // verus!

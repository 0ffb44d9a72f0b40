//! The stun effect: a timed component that blocks a combatant's input
//! and movement while it runs down.

use vstd::prelude::*;

verus! {

/// A running stun effect on a combatant.
#[derive(Clone, Copy, Debug, PartialEq, Eq, Structural)]
pub struct Stun {
    /// Time left, in milliseconds.
    pub remaining_duration: u64,
    /// The duration the stun started with, kept for progress feedback.
    pub total_duration: u64,
}

impl Stun {
    /// Start a stun of the given duration.
    pub fn new(duration: u64) -> (r: Stun)
        ensures
            r == (Stun { remaining_duration: duration, total_duration: duration }),
    {
        Stun { remaining_duration: duration, total_duration: duration }
    }

    /// A stun with time left still suppresses input.
    pub fn is_active(&self) -> (r: bool)
        ensures
            r == (self.remaining_duration > 0),
    {
        self.remaining_duration > 0
    }

    /// Share of the stun still to run, in percent rounded down; a
    /// zero-length stun counts as over.
    pub fn progress_percentage(&self) -> (r: u32)
        requires
            self.remaining_duration <= self.total_duration,
        ensures
            self.total_duration == 0 ==> r == 0,
            self.total_duration > 0 ==> r == self.remaining_duration * 100 / (
            self.total_duration as int),
            r <= 100,
    {
        if self.total_duration == 0 {
            0
        } else {
            proof {
                let rem = self.remaining_duration as int;
                let tot = self.total_duration as int;
                assert(rem * 100 <= tot * 100) by (nonlinear_arith)
                    requires
                        rem <= tot,
                ;
                assert(rem * 100 / tot <= 100) by (nonlinear_arith)
                    requires
                        rem * 100 <= tot * 100 && tot > 0,
                ;
                assert(rem * 100 >= 0) by (nonlinear_arith)
                    requires
                        rem >= 0,
                ;
            }
            // remaining <= total <= u64::MAX, and the product is taken in
            // wider arithmetic below only when it cannot wrap.
            ((self.remaining_duration as u128 * 100) / (self.total_duration as u128)) as u32
        }
    }
}

/// Run one stun down by `dt` milliseconds; report whether it expired
/// this very step (and is to be removed from the combatant).
pub fn update_stun_effect(slot: &mut Option<Stun>, dt: u64) -> (expired: bool)
    ensures
        *old(slot) is None ==> *final(slot) is None && !expired,
        *old(slot) matches Some(s) ==> *final(slot) == (if dt < s.remaining_duration {
            Some(Stun { remaining_duration: (s.remaining_duration - dt) as u64, ..s })
        } else {
            Option::<Stun>::None
        }),
        *old(slot) matches Some(s) ==> expired == (dt >= s.remaining_duration),
{
    match slot {
        Some(s) => {
            if dt >= s.remaining_duration {
                *slot = None;
                true
            } else {
                s.remaining_duration = s.remaining_duration - dt;
                false
            }
        },
        None => false,
    }
}

} // verus!

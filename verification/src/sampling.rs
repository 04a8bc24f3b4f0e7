//! Rejection sampling with a bounded number of attempts.
//!
//! A point inside the unit ball is found by drawing points of the enclosing
//! cube until one falls inside. A draw succeeds with probability above one
//! half, so running out of attempts shows a fault of the generator and is
//! reported rather than papered over.

use vstd::prelude::*;

verus! {

/// The number of draws after which sampling gives up.
pub const MAX_ATTEMPTS: u32 = 10000;

/// What follows a draw.
#[derive(Clone, Copy, Debug, PartialEq, Eq, Structural)]
pub enum Attempt {
    /// The draw is taken.
    Accept,
    /// The draw is rejected and another is made; `made` counts the draws so
    /// far, this one included.
    Retry { made: u32 },
    /// The draw is rejected and it was the last one allowed.
    GiveUp,
}

/// The rule of the sampler: a draw inside the ball is accepted; one outside
/// is rejected, and leads to another draw while fewer than `MAX_ATTEMPTS`
/// have been made.
pub open spec fn verdict(made_before: u32, inside: bool) -> Attempt {
    if inside {
        Attempt::Accept
    } else if made_before + 1 < MAX_ATTEMPTS {
        Attempt::Retry { made: (made_before + 1) as u32 }
    } else {
        Attempt::GiveUp
    }
}

/// Judges one draw. `made_before` is the number of draws rejected before it
/// and `inside` says whether this draw fell inside the ball.
pub fn after_attempt(made_before: u32, inside: bool) -> (next: Attempt)
    ensures
        next == verdict(made_before, inside),
{
    if inside {
        Attempt::Accept
    } else if made_before < MAX_ATTEMPTS - 1 {
        Attempt::Retry { made: made_before + 1 }
    } else {
        Attempt::GiveUp
    }
}

/// The number of draws that the sampler makes after `made_before` rejected
/// ones, where `draws` says of each draw in turn whether it falls inside: the
/// sampler stops at the first draw that is accepted or is the last allowed.
pub open spec fn draws_made(made_before: u32, draws: Seq<bool>) -> nat
    decreases draws.len(),
{
    if draws.len() == 0 {
        0
    } else {
        match verdict(made_before, draws[0]) {
            Attempt::Retry { made } => 1 + draws_made(made, draws.drop_first()),
            _ => 1,
        }
    }
}

/// However the draws fall, the sampler makes no more than `MAX_ATTEMPTS` of
/// them before it accepts one or gives up.
pub proof fn lemma_attempts_bounded(made_before: u32, draws: Seq<bool>)
    requires
        made_before < MAX_ATTEMPTS,
    ensures
        made_before + draws_made(made_before, draws) <= MAX_ATTEMPTS,
    decreases draws.len(),
{
    if draws.len() > 0 {
        match verdict(made_before, draws[0]) {
            Attempt::Retry { made } => {
                lemma_attempts_bounded(made, draws.drop_first());
            },
            _ => {},
        }
    }
}

} // verus!

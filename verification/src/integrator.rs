//! The control of a light path: what follows each bounce, and when the path
//! ends.
//!
//! A path is traced backwards from the eye with a budget of bounces. At each
//! step the ray either leaves the scene, and the path ends in the colour of
//! the background; or it is absorbed, and the path ends in black; or it is
//! scattered, and the path goes on with one bounce less to spend. A path
//! whose budget is spent ends in black whatever the scene holds, which is
//! what bounds the work between two mirrors that face each other.

use vstd::prelude::*;

verus! {

/// What happened to a ray in the scene.
#[derive(Clone, Copy, Debug, PartialEq, Eq, Structural)]
pub enum Bounce {
    /// The ray hit no surface.
    Miss,
    /// The ray hit a surface, which absorbed it.
    Absorbed,
    /// The ray hit a surface, which scattered it.
    Scattered,
}

/// What the integrator does after a bounce.
#[derive(Clone, Copy, Debug, PartialEq, Eq, Structural)]
pub enum Step {
    /// The path ends and contributes no light.
    Black,
    /// The path ends in the background, attenuated by what it met on its way.
    Background,
    /// The path goes on along the scattered ray with `depth` bounces left.
    Continue { depth: i32 },
}

/// The rule of the integrator for a ray with `depth` bounces left.
pub open spec fn next_step(depth: i32, bounce: Bounce) -> Step {
    if depth <= 0 {
        Step::Black
    } else {
        match bounce {
            Bounce::Miss => Step::Background,
            Bounce::Absorbed => Step::Black,
            Bounce::Scattered => Step::Continue { depth: (depth - 1) as i32 },
        }
    }
}

/// Whether a path with `depth` bounces left has spent its budget, so that it
/// ends in black without a look at the scene.
pub fn exhausted(depth: i32) -> (done: bool)
    ensures
        done == (depth <= 0),
        done ==> forall|bounce: Bounce| next_step(depth, bounce) == Step::Black,
{
    depth <= 0
}

/// Decides what follows a bounce of a ray with `depth` bounces left.
pub fn ray_color_step(depth: i32, bounce: Bounce) -> (step: Step)
    ensures
        step == next_step(depth, bounce),
{
    if depth <= 0 {
        Step::Black
    } else {
        match bounce {
            Bounce::Miss => Step::Background,
            Bounce::Absorbed => Step::Black,
            Bounce::Scattered => Step::Continue { depth: depth - 1 },
        }
    }
}

/// The number of times a path is scattered when it starts with `depth`
/// bounces to spend and meets `bounces` in turn.
pub open spec fn scatterings(depth: i32, bounces: Seq<Bounce>) -> nat
    decreases bounces.len(),
{
    if bounces.len() == 0 {
        0
    } else {
        match next_step(depth, bounces[0]) {
            Step::Continue { depth: left } => 1 + scatterings(left, bounces.drop_first()),
            _ => 0,
        }
    }
}

/// A path is scattered no more often than its budget allows, whatever the
/// scene answers: with a budget of zero or less, never.
pub proof fn lemma_depth_bounds_path(depth: i32, bounces: Seq<Bounce>)
    ensures
        depth <= 0 ==> scatterings(depth, bounces) == 0,
        depth > 0 ==> scatterings(depth, bounces) <= depth,
    decreases bounces.len(),
{
    if bounces.len() > 0 {
        match next_step(depth, bounces[0]) {
            Step::Continue { depth: left } => {
                lemma_depth_bounds_path(left, bounces.drop_first());
            },
            _ => {},
        }
    }
}

} // verus!

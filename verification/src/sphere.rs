//! Which root of the intersection quadratic is the hit.
//!
//! A ray meets a sphere where a quadratic in the ray parameter vanishes. The
//! arithmetic yields the sign of the discriminant and, for each of the two
//! roots, whether it lies within the bounds the caller asked for; the choice
//! between the roots is made here.

use vstd::prelude::*;

verus! {

/// One of the two roots of the quadratic.
#[derive(Clone, Copy, Debug, PartialEq, Eq, Structural)]
pub enum Root {
    /// The smaller root, where the ray enters the sphere.
    Near,
    /// The larger root, where the ray leaves the sphere.
    Far,
}

/// The root at which the ray hits: none without real roots; otherwise the
/// smaller root if it is within bounds, else the larger root if that one is,
/// else none.
pub open spec fn chosen_root(real_roots: bool, near_in_bounds: bool, far_in_bounds: bool) -> Option<
    Root,
> {
    if !real_roots {
        None
    } else if near_in_bounds {
        Some(Root::Near)
    } else if far_in_bounds {
        Some(Root::Far)
    } else {
        None
    }
}

/// Chooses the root at which the ray hits the sphere, if it hits at all.
///
/// `real_roots` says that the discriminant is not negative; `near_in_bounds`
/// and `far_in_bounds` say, each for its root, that the root is neither below
/// the lower bound nor above the upper one.
pub fn select_root(real_roots: bool, near_in_bounds: bool, far_in_bounds: bool) -> (root: Option<
    Root,
>)
    ensures
        root == chosen_root(real_roots, near_in_bounds, far_in_bounds),
{
    if !real_roots {
        None
    } else if near_in_bounds {
        Some(Root::Near)
    } else if far_in_bounds {
        Some(Root::Far)
    } else {
        None
    }
}

/// A ray that reaches the near side of a sphere within bounds hits there
/// first, whatever holds of the far side; and a sphere is hit exactly where
/// the quadratic has real roots and one of them is within bounds.
pub proof fn lemma_near_side_first(real_roots: bool, near_in_bounds: bool, far_in_bounds: bool)
    ensures
        real_roots && near_in_bounds ==> chosen_root(real_roots, near_in_bounds, far_in_bounds)
            == Some(Root::Near),
        chosen_root(real_roots, near_in_bounds, far_in_bounds) is Some <==> real_roots && (
        near_in_bounds || far_in_bounds),
        chosen_root(real_roots, near_in_bounds, far_in_bounds) == Some(Root::Far) ==> !near_in_bounds,
{
}

} // verus!

//! How a surface scatters a ray: for each material, which direction the
//! scattered ray takes, or that the ray is absorbed.
//!
//! The vectors themselves are the caller's arithmetic. What reaches this
//! module are the few facts about them on which the materials' rules turn.

use vstd::prelude::*;

verus! {

/// What was found where a ray met a surface, by the material of the surface.
#[derive(Clone, Copy, Debug, PartialEq, Eq, Structural)]
pub enum Incidence {
    /// A diffuse surface. The candidate direction is the surface normal plus
    /// a random unit vector; `near_zero` says that the two all but cancel.
    Lambertian { near_zero: bool },
    /// A metal surface. The candidate direction is the fuzzed mirror
    /// reflection; `outward` says that it points away from the surface.
    Metal { outward: bool },
    /// A dielectric surface. `cannot_refract` says that the ray is reflected
    /// totally; `reflectance_wins` says that the reflectance at this angle
    /// is greater than the uniform sample drawn against it.
    Dielectric { cannot_refract: bool, reflectance_wins: bool },
}

/// The direction of a scattered ray.
#[derive(Clone, Copy, Debug, PartialEq, Eq, Structural)]
pub enum Direction {
    /// The material's candidate direction, as it was sampled.
    Sampled,
    /// The surface normal itself.
    Normal,
    /// The mirror reflection of the incoming direction.
    Reflected,
    /// The incoming direction bent by Snell's law.
    Refracted,
}

/// The scattering rule of the three materials; `None` is absorption.
pub open spec fn scattered(incidence: Incidence) -> Option<Direction> {
    match incidence {
        Incidence::Lambertian { near_zero } => if near_zero {
            Some(Direction::Normal)
        } else {
            Some(Direction::Sampled)
        },
        Incidence::Metal { outward } => if outward {
            Some(Direction::Sampled)
        } else {
            None
        },
        Incidence::Dielectric { cannot_refract, reflectance_wins } => if cannot_refract
            || reflectance_wins {
            Some(Direction::Reflected)
        } else {
            Some(Direction::Refracted)
        },
    }
}

/// Decides what becomes of a ray at a surface: the direction in which it
/// goes on, or `None` where the surface absorbs it.
pub fn scatter(incidence: Incidence) -> (outcome: Option<Direction>)
    ensures
        outcome == scattered(incidence),
{
    match incidence {
        Incidence::Lambertian { near_zero } => {
            if near_zero {
                Some(Direction::Normal)
            } else {
                Some(Direction::Sampled)
            }
        },
        Incidence::Metal { outward } => {
            if outward {
                Some(Direction::Sampled)
            } else {
                None
            }
        },
        Incidence::Dielectric { cannot_refract, reflectance_wins } => {
            if cannot_refract || reflectance_wins {
                Some(Direction::Reflected)
            } else {
                Some(Direction::Refracted)
            }
        },
    }
}

/// Only metal absorbs, and only a ray whose reflection would point into the
/// surface: diffuse and dielectric surfaces scatter every ray.
pub proof fn lemma_only_metal_absorbs(incidence: Incidence)
    ensures
        scattered(incidence) is None <==> incidence == (Incidence::Metal { outward: false }),
{
}

/// A dielectric either reflects or refracts: it reflects where the ray is
/// reflected totally or the reflectance wins the draw, and refracts
/// everywhere else.
pub proof fn lemma_dielectric_reflects_or_refracts(cannot_refract: bool, reflectance_wins: bool)
    ensures
        scattered(Incidence::Dielectric { cannot_refract, reflectance_wins }) == Some(
            Direction::Reflected,
        ) <==> cannot_refract || reflectance_wins,
        scattered(Incidence::Dielectric { cannot_refract, reflectance_wins }) == Some(
            Direction::Refracted,
        ) <==> !cannot_refract && !reflectance_wins,
{
}

} // verus!

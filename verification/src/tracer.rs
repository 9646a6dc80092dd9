//! What the tracer does with a ray once its nearest hit is known.
//!
//! Tracing a ray is a walk: find the nearest hit, decide, and either stop with a
//! colour or follow one more ray with one bounce less to spend. The decision takes
//! the material of the shape that was hit, if any, and the bounces that are left.
//! It never needs a coordinate, so it is stated here over those two values alone.
use vstd::prelude::*;
use crate::binary32::{below, less_than, ONE};

verus! {

/// How a surface answers the light that reaches it.
#[derive(Clone, Copy, Debug, PartialEq, Eq, Structural)]
pub enum Material {
    /// A mirror: the ray leaves in the one reflected direction.
    Specular,
    /// A surface that shows its own colour and sends no further ray.
    Diffuse,
    /// A matt surface: the ray leaves in a randomly perturbed direction.
    Lambertian,
}

/// The tracer's decision for one ray.
#[derive(Clone, Copy, Debug, PartialEq, Eq, Structural)]
pub enum Shading {
    /// The ray left the scene: the colour is that of the sky gradient.
    Background,
    /// The colour is the one the shape has at the hit point.
    Surface,
    /// The colour is black.
    Black,
    /// Follow the mirrored ray with `depth` bounces left, and dim what it returns.
    Reflect { depth: u32 },
    /// Follow a scattered ray with `depth` bounces left, and dim what it returns.
    Scatter { depth: u32 },
}

/// The share of light a mirror passes on: the encoding of 0.9.
pub const SPECULAR_ATTENUATION: u32 = 0x3f66_6666;

/// The share of light a matt surface passes on: the encoding of 0.5.
pub const LAMBERTIAN_ATTENUATION: u32 = 0x3f00_0000;

/// The decision for a ray whose nearest hit has the material `hit`, or which hit
/// nothing, when `depth` bounces are left.
pub open spec fn decision_for(hit: Option<Material>, depth: u32) -> Shading {
    match hit {
        None => Shading::Background,
        Some(Material::Diffuse) => Shading::Surface,
        Some(Material::Specular) => if depth > 0 {
            Shading::Reflect { depth: (depth - 1) as u32 }
        } else {
            Shading::Surface
        },
        Some(Material::Lambertian) => if depth > 0 {
            Shading::Scatter { depth: (depth - 1) as u32 }
        } else {
            Shading::Black
        },
    }
}

impl Shading {
    /// Whether the decision sends a further ray.
    pub open spec fn bounces(self) -> bool {
        self is Reflect || self is Scatter
    }

    /// The factor by which the colour of the further ray is scaled, as an encoding.
    /// A decision that sends no ray leaves its colour as it is.
    pub open spec fn factor(self) -> u32 {
        match self {
            Shading::Reflect { .. } => SPECULAR_ATTENUATION,
            Shading::Scatter { .. } => LAMBERTIAN_ATTENUATION,
            _ => ONE,
        }
    }

    /// The factor by which the colour of the further ray is scaled.
    pub fn attenuation(&self) -> (encoded: u32)
        ensures
            encoded == self.factor(),
    {
        match self {
            Shading::Reflect { .. } => SPECULAR_ATTENUATION,
            Shading::Scatter { .. } => LAMBERTIAN_ATTENUATION,
            _ => ONE,
        }
    }
}

/// Decides what becomes of a ray, from the material of its nearest hit and the
/// bounces that are left.
///
/// A ray that hits nothing takes the background. A diffuse surface shows its own
/// colour. A mirror and a matt surface send one more ray while a bounce is left,
/// with one bounce less; with none left the mirror shows its own colour and the
/// matt surface is black.
pub fn shade(hit: Option<Material>, depth: u32) -> (decision: Shading)
    ensures
        decision == decision_for(hit, depth),
        decision matches Shading::Reflect { depth: left } ==> left + 1 == depth,
        decision matches Shading::Scatter { depth: left } ==> left + 1 == depth,
        depth == 0 ==> !decision.bounces(),
{
    match hit {
        None => Shading::Background,
        Some(Material::Diffuse) => Shading::Surface,
        Some(Material::Specular) => if depth > 0 {
            Shading::Reflect { depth: depth - 1 }
        } else {
            Shading::Surface
        },
        Some(Material::Lambertian) => if depth > 0 {
            Shading::Scatter { depth: depth - 1 }
        } else {
            Shading::Black
        },
    }
}

/// Whether a sample drawn from the cube around the origin lies inside the unit
/// sphere, given the encoding of its squared length. A matt surface draws samples
/// until one is kept.
pub fn keeps_sample(squared_length: u32) -> (kept: bool)
    ensures
        kept == below(squared_length, ONE),
{
    less_than(squared_length, ONE)
}

/// The number of further rays that a trace follows when it starts with `depth`
/// bounces to spend and the nearest hits along its path have the materials `path`,
/// in order. The trace stops at the first decision that sends no ray, or where the
/// path ends.
pub open spec fn nested_rays(path: Seq<Option<Material>>, depth: u32) -> nat
    decreases path.len(),
{
    if path.len() == 0 {
        0
    } else {
        match decision_for(path[0], depth) {
            Shading::Reflect { depth: left } => 1 + nested_rays(path.drop_first(), left),
            Shading::Scatter { depth: left } => 1 + nested_rays(path.drop_first(), left),
            _ => 0,
        }
    }
}

/// Whatever the rays meet, a trace that starts with `depth` bounces to spend
/// follows at most `depth` further rays.
pub proof fn lemma_nested_rays_bounded(path: Seq<Option<Material>>, depth: u32)
    ensures
        nested_rays(path, depth) <= depth,
    decreases path.len(),
{
    if path.len() > 0 {
        match decision_for(path[0], depth) {
            Shading::Reflect { depth: left } => {
                lemma_nested_rays_bounded(path.drop_first(), left);
            },
            Shading::Scatter { depth: left } => {
                lemma_nested_rays_bounded(path.drop_first(), left);
            },
            _ => {},
        }
    }
}

} // verus!

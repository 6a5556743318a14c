//! Materials whose scattering decision needs no arithmetic on the colours
//! and rays they are given.
use vstd::prelude::*;

verus! {

/// A material's answer for a ray it scattered: the colour it tints the ray
/// by, and the ray it sends out.
pub struct Scatter<C, R> {
    pub attenuation: C,
    pub scattered: R,
}

/// A diffuse surface: it scatters every incoming ray and tints it by its albedo.
pub struct Lambertian<C> {
    pub albedo: C,
}

impl<C: Copy> Lambertian<C> {
    pub fn new(albedo: C) -> (r: Lambertian<C>)
        ensures
            r.albedo == albedo,
    {
        Lambertian { albedo }
    }

    /// Scatters a ray that met the surface: the outgoing ray is the one
    /// given, sent from the hit point along the normal plus a random unit
    /// offset. The ray is never absorbed, and its tint is the albedo exactly.
    pub fn scatter<R>(&self, scattered: R) -> (r: Option<Scatter<C, R>>)
        ensures
            r matches Some(s) && s.attenuation == self.albedo && s.scattered == scattered,
    {
        Some(Scatter { attenuation: self.albedo, scattered })
    }
}

} // verus!

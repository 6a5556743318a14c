//! The decisions of the recursive colour estimator: how many bounces a
//! camera ray may still take, and what each surface event leads to.
use vstd::prelude::*;

verus! {

/// What a ray met when it was traced into the scene.
#[derive(Clone, Copy, Debug, PartialEq, Eq, Structural)]
pub enum Hit {
    /// It hit nothing.
    Miss,
    /// It hit a surface whose material absorbed it.
    Absorbed,
    /// It hit a surface whose material sent out a new ray.
    Scattered,
}

/// What the estimator does after an event.
#[derive(Clone, Copy, Debug, PartialEq, Eq, Structural)]
pub enum Step {
    /// The path ends in black.
    Black,
    /// The path ends in the background gradient of the ray's direction.
    Sky,
    /// The path goes on with the scattered ray, tinted by the attenuation.
    Bounce,
}

/// The step an event leads to while bounces are left.
pub open spec fn step_for(h: Hit) -> Step {
    match h {
        Hit::Miss => Step::Sky,
        Hit::Absorbed => Step::Black,
        Hit::Scattered => Step::Bounce,
    }
}

/// A camera ray's path through the scene, as far as the bounces left go.
pub struct Path {
    depth: i32,
}

impl Path {
    /// The bounces left.
    pub closed spec fn depth(&self) -> int {
        self.depth as int
    }

    /// A path that may take `max_depth` bounces.
    pub fn new(max_depth: i32) -> (r: Path)
        ensures
            r.depth() == max_depth as int,
    {
        Path { depth: max_depth }
    }

    pub fn bounces_left(&self) -> (r: i32)
        ensures
            r as int == self.depth(),
    {
        self.depth
    }

    /// Whether no bounce is left: the path then ends in black, with no ray traced.
    pub fn exhausted(&self) -> (r: bool)
        ensures
            r == (self.depth() <= 0),
    {
        self.depth <= 0
    }

    /// Records what the ray met: a miss shows the sky, an absorption ends in
    /// black, and a scatter uses up one bounce.
    pub fn advance(&mut self, h: Hit) -> (r: Step)
        requires
            old(self).depth() > 0,
        ensures
            r == step_for(h),
            h == Hit::Scattered ==> final(self).depth() == old(self).depth() - 1,
            h != Hit::Scattered ==> final(self).depth() == old(self).depth(),
    {
        match h {
            Hit::Miss => Step::Sky,
            Hit::Absorbed => Step::Black,
            Hit::Scattered => {
                self.depth = self.depth - 1;
                Step::Bounce
            },
        }
    }
}

} // verus!

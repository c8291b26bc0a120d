use vstd::prelude::*;

verus! {

/// How two overlapping particles respond to each other within a step.
#[derive(Clone, Copy, Debug, PartialEq, Eq, Structural)]
pub enum CollisionMode {
    /// Separate along the contact normal and exchange the normal component
    /// of the relative velocity.
    ElasticNormal,
    /// Nudge both velocities along the contact normal by a share of each
    /// particle's speed, without positional correction.
    SoftBubble,
}

impl CollisionMode {
    /// The mode selected by the integer code of the drawing host: `1` picks
    /// the soft-bubble response, every other code the elastic-normal one.
    pub fn from_code(code: i8) -> (r: CollisionMode)
        ensures
            r == (if code == 1 { CollisionMode::SoftBubble } else { CollisionMode::ElasticNormal }),
    {
        if code == 1 {
            CollisionMode::SoftBubble
        } else {
            CollisionMode::ElasticNormal
        }
    }
}

} // verus!

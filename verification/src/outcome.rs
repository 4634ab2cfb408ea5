use vstd::prelude::*;

verus! {

/// How a simulated trajectory ended, as far as the messages and the scoring
/// read it: which event stopped the probe and, for a collision, which asteroid.
#[derive(Clone, Copy, Debug, PartialEq, Eq, Structural)]
pub enum OutcomeKind {
    /// The probe reached the beacon.
    Reached,
    /// The probe hit the asteroid at index `obstacle` of the level.
    Collision { obstacle: usize },
    /// The probe crossed the edge of the field.
    LeftField,
    /// The probe drifted for the whole time budget without ending.
    TimeLimit,
    /// The current could not be computed any further.
    NumericalFailure,
}

impl OutcomeKind {
    /// Whether the probe reached the beacon.
    pub fn reached(&self) -> (reached: bool)
        ensures
            reached <==> *self is Reached,
    {
        match self {
            OutcomeKind::Reached => true,
            _ => false,
        }
    }

    /// Whether the probe hit an asteroid.
    pub fn collided(&self) -> (collided: bool)
        ensures
            collided <==> *self is Collision,
    {
        match self {
            OutcomeKind::Collision { .. } => true,
            _ => false,
        }
    }

    /// Whether the closest pass to the beacon is marked on the field: only
    /// after a release that missed the beacon.
    pub fn shows_closest_pass(&self) -> (shown: bool)
        ensures
            shown <==> !(*self is Reached),
    {
        !self.reached()
    }
}

} // verus!

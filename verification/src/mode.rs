use vstd::prelude::*;

verus! {

/// How a release is simulated: a mission stops at the beacon or at an
/// asteroid, a free exploration only stops at the edge of the field.
#[derive(Clone, Copy, Debug, PartialEq, Eq, Structural)]
pub enum SimulationMode {
    Mission,
    Exploration,
}

impl SimulationMode {
    /// Whether the beacon and the asteroids end a trajectory in this mode.
    pub fn checks_targets(self) -> (checks: bool)
        ensures
            checks <==> self == SimulationMode::Mission,
    {
        self == SimulationMode::Mission
    }
}

} // verus!

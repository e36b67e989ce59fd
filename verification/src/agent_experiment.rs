//! Results of agent trajectory experiments.

use vstd::prelude::*;
use crate::conservation::ConservationTracker;
use crate::phase::PhaseSpace;

verus! {

/// Result of an agent trajectory experiment.
#[derive(Clone, Debug)]
pub struct AgentResult<V> {
    /// Full trajectory through phase space
    pub trajectory: Vec<PhaseSpace<V>>,
    /// Conservation tracker with energy/volume data
    pub conservation: ConservationTracker<V>,
    /// Final energy value
    pub final_energy: V,
    /// Total energy drift (relative)
    pub energy_drift: V,
    /// Path length through phase space
    pub path_length: V,
    /// Name of the integrator used
    pub integrator_name: &'static str,
}

impl<V> AgentResult<V> {
    /// Final position in task space: that of the last state of the trajectory.
    pub fn final_position(&self) -> (q: &[V])
        requires
            self.trajectory.len() > 0,
        ensures
            q@ == self.trajectory@.last().position@,
    {
        self.trajectory[self.trajectory.len() - 1].position.as_slice()
    }

    /// Final momentum: that of the last state of the trajectory.
    pub fn final_momentum(&self) -> (p: &[V])
        requires
            self.trajectory.len() > 0,
        ensures
            p@ == self.trajectory@.last().momentum@,
    {
        self.trajectory[self.trajectory.len() - 1].momentum.as_slice()
    }
}

} // verus!

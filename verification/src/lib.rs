//! Agent trajectories as Hamiltonian flows: the verified core.
//!
//! An agent's state is a point (q, p) of phase space; an integrator advances it
//! step by step along the flow of a Hamiltonian, and a tracker records the
//! energy and phase-space volume of each step. This crate holds the parts of
//! that machinery that do not depend on the scalar arithmetic: the phase-space
//! and result containers (generic over the scalar type), the trajectory loop
//! shared by all integrators, the tracker's bookkeeping, and the canonical
//! symplectic form Ω against which the symplectic condition is checked.

pub mod agent_experiment;
pub mod conservation;
pub mod integrator;
pub mod phase;

pub use agent_experiment::AgentResult;
pub use conservation::{symplectic_form_entry, ConservationTracker};
pub use integrator::{integrate, RK4Baseline, StormerVerlet, SymplecticEuler};
pub use phase::PhaseSpace;

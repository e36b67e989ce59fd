//! Integrators for Hamiltonian systems, and the trajectory loop they share.

use vstd::prelude::*;

verus! {

/// Symplectic Euler integrator (first order).
///
///   q' = q + dt · ∂H/∂p(q, p)
///   p' = p - dt · ∂H/∂q(q', p)
#[derive(Clone, Copy, Debug)]
pub struct SymplecticEuler;

/// Störmer-Verlet (leapfrog) integrator (second order, symplectic).
#[derive(Clone, Copy, Debug)]
pub struct StormerVerlet;

/// Classical fourth-order Runge-Kutta: accurate, but not symplectic.
#[derive(Clone, Copy, Debug)]
pub struct RK4Baseline;

impl SymplecticEuler {
    /// Name of this integrator for reporting.
    pub fn name(&self) -> (name: &'static str)
        ensures
            name@ == "SymplecticEuler"@,
    {
        "SymplecticEuler"
    }
}

impl StormerVerlet {
    /// Name of this integrator for reporting.
    pub fn name(&self) -> (name: &'static str)
        ensures
            name@ == "StormerVerlet"@,
    {
        "StormerVerlet"
    }
}

impl RK4Baseline {
    /// Name of this integrator for reporting.
    pub fn name(&self) -> (name: &'static str)
        ensures
            name@ == "RK4Baseline"@,
    {
        "RK4Baseline"
    }
}

/// Integrates from `initial` for `steps` steps, returning the full trajectory.
///
/// The trajectory holds `steps + 1` states: the initial state, then the state
/// that one `step` gives from each state before it.
pub fn integrate<S, F: Fn(&S) -> S>(initial: S, steps: usize, step: F) -> (trajectory: Vec<S>)
    requires
        forall|s: S| call_requires(step, (&s,)),
    ensures
        trajectory.len() == steps + 1,
        trajectory[0] == initial,
        forall|i: int| #![trigger trajectory[i]]
            0 <= i < steps ==> call_ensures(step, (&trajectory[i],), trajectory[i + 1]),
{
    let mut trajectory: Vec<S> = Vec::new();
    trajectory.push(initial);
    let mut k: usize = 0;
    while k < steps
        invariant
            forall|s: S| call_requires(step, (&s,)),
            k <= steps,
            trajectory.len() == k + 1,
            trajectory[0] == initial,
            forall|i: int| #![trigger trajectory[i]]
                0 <= i < k ==> call_ensures(step, (&trajectory[i],), trajectory[i + 1]),
        decreases steps - k,
    {
        let next = step(&trajectory[k]);
        trajectory.push(next);
        k = k + 1;
    }
    trajectory
}

} // verus!

# si_symplectic_agent

Agent trajectories as Hamiltonian flows, integrated with symplectic methods.

- `src/` is the verified library. It holds what does not depend on scalar
  arithmetic: the phase-space, tracker and result types (generic over the
  scalar type), the trajectory loop shared by every integrator (`integrate`),
  the conservation tracker's bookkeeping, the integrators' identities, and the
  canonical symplectic form Ω with its laws (antisymmetry, Ω·Ω = -I).
- `app/` holds the `f64` numerics: the Hamiltonians and their gradients, the
  symplectic Euler, Störmer-Verlet and RK4 steps, energy drift and volume
  estimates, numerical Jacobians and the symplectic condition, and the
  experiments (`AgentExperiment`, `compare_integrators`, `find_attractor`,
  `bifurcation_diagram`, `verify_symplecticity`).
- `tests/` runs the library on concrete values.

//! Conservation bookkeeping and the canonical symplectic form.
//!
//! The tracker records, step by step, the energy and the phase-space volume
//! estimate of a trajectory; the values themselves are computed by the caller
//! from the Hamiltonian. The symplectic form Ω = [[0, I], [-I, 0]] is the
//! matrix against which the symplectic condition Jᵀ Ω J = Ω is checked.

use vstd::prelude::*;
use crate::phase::PhaseSpace;

verus! {

// ---------------------------------------------------------------------------
// Conservation tracker
// ---------------------------------------------------------------------------

/// Tracks conservation laws during integration: the energy and the
/// approximate phase-space volume at each recorded step.
#[derive(Clone, Debug)]
pub struct ConservationTracker<V> {
    /// Initial total energy H(q₀, p₀)
    pub initial_energy: V,
    /// Energy at each recorded step, starting with the initial energy
    pub energies: Vec<V>,
    /// Approximate phase space volume at each step (relative to initial)
    pub volumes: Vec<V>,
    /// Number of recorded steps
    pub steps: usize,
    /// Initial phase space (for volume computation)
    pub initial_state: PhaseSpace<V>,
}

impl<V> ConservationTracker<V> {
    /// The bookkeeping every tracker keeps: one energy and one volume for the
    /// initial state and for each recorded step, the first energy being the
    /// initial energy.
    pub open spec fn well_formed(&self) -> bool {
        &&& self.energies.len() == self.steps + 1
        &&& self.volumes.len() == self.steps + 1
        &&& self.energies[0] == self.initial_energy
    }

    /// A tracker starting from `initial`, whose energy is `initial_energy`;
    /// the volume of the initial state is `unit_volume` (relative volume one).
    pub fn new(initial: PhaseSpace<V>, initial_energy: V, unit_volume: V) -> (tracker: Self)
        where V: Copy
        ensures
            tracker.well_formed(),
            tracker.steps == 0,
            tracker.initial_energy == initial_energy,
            tracker.energies@ == seq![initial_energy],
            tracker.volumes@ == seq![unit_volume],
            tracker.initial_state == initial,
    {
        let mut energies: Vec<V> = Vec::new();
        energies.push(initial_energy);
        let mut volumes: Vec<V> = Vec::new();
        volumes.push(unit_volume);
        let tracker = ConservationTracker {
            initial_energy,
            energies,
            volumes,
            steps: 0,
            initial_state: initial,
        };
        assert(tracker.energies@ =~= seq![initial_energy]);
        assert(tracker.volumes@ =~= seq![unit_volume]);
        tracker
    }

    /// Records one more step, with its energy and its volume estimate.
    pub fn record(&mut self, energy: V, volume: V)
        requires
            old(self).well_formed(),
        ensures
            final(self).well_formed(),
            final(self).steps == old(self).steps + 1,
            final(self).energies@ == old(self).energies@.push(energy),
            final(self).volumes@ == old(self).volumes@.push(volume),
            final(self).initial_energy == old(self).initial_energy,
            final(self).initial_state == old(self).initial_state,
    {
        self.energies.push(energy);
        self.steps = self.steps + 1;
        self.volumes.push(volume);
    }
}

// ---------------------------------------------------------------------------
// The canonical symplectic form
// ---------------------------------------------------------------------------

/// Entry (i, j) of the canonical symplectic matrix Ω = [[0, I], [-I, 0]] of a
/// phase space of dimension n: 1 where j = i + n in the upper right block,
/// -1 where i = j + n in the lower left block, 0 everywhere else.
pub open spec fn canonical_form(n: nat, i: nat, j: nat) -> int {
    if i < n && j == i + n {
        1
    } else if j < n && i == j + n {
        -1
    } else {
        0
    }
}

/// The one column in which row i of Ω is non-zero.
pub open spec fn form_partner(n: nat, i: nat) -> nat {
    if i < n {
        i + n
    } else {
        (i - n) as nat
    }
}

/// Σ_{k < m} Ω(i, k) · Ω(k, j): the first m terms of entry (i, j) of Ω · Ω.
pub open spec fn form_product(n: nat, i: nat, j: nat, m: nat) -> int
    decreases m,
{
    if m == 0 {
        0
    } else {
        form_product(n, i, j, (m - 1) as nat) + canonical_form(n, i, (m - 1) as nat)
            * canonical_form(n, (m - 1) as nat, j)
    }
}

/// Entry (i, j) of the symplectic matrix Ω for a phase space with n position
/// coordinates (the matrix has 2n rows and columns).
pub fn symplectic_form_entry(n: usize, i: usize, j: usize) -> (w: i8)
    ensures
        w as int == canonical_form(n as nat, i as nat, j as nat),
        i < n && j == i + n ==> w == 1,
        j < n && i == j + n ==> w == -1,
        !(i < n && j == i + n) && !(j < n && i == j + n) ==> w == 0,
{
    proof {
        lemma_symplectic_form_blocks(n as nat);
    }
    if i < n && j >= n && i == j - n {
        1
    } else if i >= n && j < n && i - n == j {
        -1
    } else {
        0
    }
}

/// The blocks of Ω: the upper-right block is exactly +I, the lower-left block
/// exactly -I, and every other entry is 0.
pub proof fn lemma_symplectic_form_blocks(n: nat)
    ensures
        forall|i: nat| i < n ==> #[trigger] canonical_form(n, i, i + n) == 1,
        forall|i: nat| i < n ==> #[trigger] canonical_form(n, i + n, i) == -1,
        forall|i: nat, j: nat|
            !(i < n && j == i + n) && !(j < n && i == j + n) ==> #[trigger] canonical_form(n, i, j)
                == 0,
{
}

/// Ω is antisymmetric: Ω(i, j) = -Ω(j, i).
pub proof fn lemma_symplectic_form_antisymmetric(n: nat, i: nat, j: nat)
    ensures
        canonical_form(n, i, j) == -canonical_form(n, j, i),
{
}

/// Ω is non-degenerate: every row has a non-zero entry.
pub proof fn lemma_symplectic_form_nondegenerate(n: nat, i: nat)
    requires
        i < 2 * n,
    ensures
        form_partner(n, i) < 2 * n,
        canonical_form(n, i, form_partner(n, i)) != 0,
        forall|k: nat| k != form_partner(n, i) ==> #[trigger] canonical_form(n, i, k) == 0,
{
}

proof fn lemma_form_product_prefix(n: nat, i: nat, j: nat, m: nat)
    requires
        i < 2 * n,
    ensures
        form_product(n, i, j, m) == (if form_partner(n, i) < m {
            canonical_form(n, i, form_partner(n, i)) * canonical_form(n, form_partner(n, i), j)
        } else {
            0
        }),
    decreases m,
{
    lemma_symplectic_form_nondegenerate(n, i);
    if m > 0 {
        lemma_form_product_prefix(n, i, j, (m - 1) as nat);
        let k = (m - 1) as nat;
        if k != form_partner(n, i) {
            assert(canonical_form(n, i, k) == 0);
            assert(canonical_form(n, i, k) * canonical_form(n, k, j) == 0);
        }
    }
}

/// Ω · Ω = -I: the matrix is invertible, with inverse -Ω.
pub proof fn lemma_symplectic_form_squares_to_minus_identity(n: nat, i: nat, j: nat)
    requires
        i < 2 * n,
        j < 2 * n,
    ensures
        form_product(n, i, j, 2 * n) == (if i == j { -1int } else { 0int }),
{
    lemma_form_product_prefix(n, i, j, 2 * n);
    lemma_symplectic_form_nondegenerate(n, i);
}

} // verus!

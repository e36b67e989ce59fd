//! Phase space (q, p) for agent trajectories.
//!
//! Position q is the agent's state in task space; momentum p is its
//! "cognitive momentum". The coordinates are generic over the scalar type.

use vstd::prelude::*;

verus! {

/// Canonical phase space coordinates (q, p) for an agent trajectory.
#[derive(Clone, Debug)]
pub struct PhaseSpace<T> {
    /// Position coordinates q (agent state in task space)
    pub position: Vec<T>,
    /// Momentum coordinates p (cognitive momentum)
    pub momentum: Vec<T>,
}

/// The sequence of `len` copies of `value`.
pub open spec fn filled<T>(len: nat, value: T) -> Seq<T> {
    Seq::new(len, |_i: int| value)
}

/// `filled(len, value)` has exactly `len` elements, every one of them `value`.
pub proof fn lemma_filled<T>(len: nat, value: T)
    ensures
        filled(len, value).len() == len,
        forall|i: int| 0 <= i < len ==> #[trigger] filled(len, value)[i] == value,
{
}

/// A vector holding `len` copies of `value`.
fn filled_vec<T: Copy>(len: usize, value: T) -> (v: Vec<T>)
    ensures
        v@ == filled(len as nat, value),
        v.len() == len,
        forall|i: int| 0 <= i < len ==> #[trigger] v[i] == value,
{
    let mut v: Vec<T> = Vec::new();
    let mut k: usize = 0;
    while k < len
        invariant
            k <= len,
            v@ == filled(k as nat, value),
        decreases len - k,
    {
        v.push(value);
        k = k + 1;
        assert(v@ =~= filled(k as nat, value));
    }
    proof {
        lemma_filled(len as nat, value);
    }
    v
}

impl<T: Copy> PhaseSpace<T> {
    /// A phase space of the given dimension with every coordinate `zero`.
    pub fn new(dimension: usize, zero: T) -> (ps: Self)
        ensures
            ps.position@ == filled(dimension as nat, zero),
            ps.momentum@ == filled(dimension as nat, zero),
            ps.position.len() == dimension,
            ps.momentum.len() == dimension,
            forall|i: int| 0 <= i < dimension ==> #[trigger] ps.position[i] == zero,
            forall|i: int| 0 <= i < dimension ==> #[trigger] ps.momentum[i] == zero,
    {
        PhaseSpace { position: filled_vec(dimension, zero), momentum: filled_vec(dimension, zero) }
    }
}

impl<T> PhaseSpace<T> {
    /// Dimension of the phase space (number of position coordinates).
    pub fn dimension(&self) -> (d: usize)
        ensures
            d == self.position.len(),
    {
        self.position.len()
    }
}

} // verus!

//! The closed catalog of standard single-qubit gates.

use vstd::prelude::*;

verus! {

/// A standard single-qubit gate. The catalog is closed and densely indexed:
/// each member's index is its ordinal position in the declared variant order,
/// and that ordinal is the sole key used to address the generator table, so
/// the two are declared in lock-step.
#[derive(Clone, Copy, Debug, PartialEq, Eq, Hash, Structural)]
pub enum StandardGate {
    /// The identity gate.
    Id,
    /// Rotation about the X axis.
    Rx,
    /// Rotation about the Y axis.
    Ry,
    /// Rotation about the Z axis.
    Rz,
    /// The Hadamard gate.
    H,
    /// The phase gate S.
    S,
    /// The inverse phase gate S-dagger.
    Sdg,
}

impl StandardGate {
    /// How many members the catalog has.
    pub const NUM_VARIANTS: usize = 7;

    /// The ordinal position of `self` in the declared variant order.
    pub open spec fn index_spec(self) -> int {
        match self {
            StandardGate::Id => 0,
            StandardGate::Rx => 1,
            StandardGate::Ry => 2,
            StandardGate::Rz => 3,
            StandardGate::H => 4,
            StandardGate::S => 5,
            StandardGate::Sdg => 6,
        }
    }

    /// The dense index of this gate: its ordinal position in the declared
    /// variant order, always below [`StandardGate::NUM_VARIANTS`].
    pub fn as_index(self) -> (r: usize)
        ensures
            r == self.index_spec(),
            r < StandardGate::NUM_VARIANTS,
    {
        match self {
            StandardGate::Id => 0,
            StandardGate::Rx => 1,
            StandardGate::Ry => 2,
            StandardGate::Rz => 3,
            StandardGate::H => 4,
            StandardGate::S => 5,
            StandardGate::Sdg => 6,
        }
    }
}

/// The catalog's indexing is dense: every member's ordinal lies in
/// `[0, NUM_VARIANTS)`, and distinct members have distinct ordinals, so the
/// ordinal is a sound sole key for a table with one slot per member.
pub proof fn lemma_catalog_index_dense(g1: StandardGate, g2: StandardGate)
    ensures
        0 <= g1.index_spec() < StandardGate::NUM_VARIANTS,
        g1 != g2 ==> g1.index_spec() != g2.index_spec(),
{
}

} // verus!

//! Single-qubit Pauli operator tags.

use vstd::prelude::*;

verus! {

/// A single-qubit Pauli operator. The identity is excluded: a summand with no
/// factor at all stands for the identity, so only non-trivial operators are
/// tabulated. Values are immutable and trivially copyable.
#[derive(Clone, Copy, Debug, PartialEq, Eq, Hash, Structural)]
pub enum BitTerm {
    /// The Pauli X operator.
    X,
    /// The Pauli Y operator.
    Y,
    /// The Pauli Z operator.
    Z,
}

} // verus!

//! Generators of standard single-qubit quantum gates, as sparse Pauli sums.
//!
//! The crate provides a validated sparse representation of a weighted sum of
//! Pauli strings ([`observable::SparseObservable`]), a closed catalog of
//! standard single-qubit gates ([`gates::StandardGate`]), and a lookup
//! ([`generators::generator_observable`]) that maps each catalog member to the
//! observable generating it, when one is tabulated.

pub mod gates;
pub mod generators;
pub mod observable;
pub mod pauli;

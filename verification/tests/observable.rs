use pauli_generators::observable::{Coefficient, SparseObservable, ValidationError};
use pauli_generators::pauli::BitTerm;

#[test]
fn empty_observable_is_valid() {
    let obs = SparseObservable::new(0, vec![], vec![], vec![], vec![0])
        .expect("the empty sum over zero qubits is valid");
    assert_eq!(obs.num_qubits(), 0);
    assert!(obs.coefficients().is_empty());
    assert!(obs.bit_terms().is_empty());
    assert!(obs.indices().is_empty());
    assert_eq!(obs.boundaries(), &vec![0usize]);
}

#[test]
fn construction_preserves_order() {
    let obs = SparseObservable::new(
        4,
        vec![Coefficient { re: 2, im: -1 }, Coefficient::one()],
        vec![BitTerm::Z, BitTerm::X, BitTerm::Y],
        vec![3, 1, 2],
        vec![0, 2, 3],
    )
    .expect("a well-formed two-summand layout is valid");
    assert_eq!(obs.num_qubits(), 4);
    assert_eq!(
        obs.coefficients(),
        &vec![Coefficient { re: 2, im: -1 }, Coefficient { re: 1, im: 0 }]
    );
    assert_eq!(obs.bit_terms(), &vec![BitTerm::Z, BitTerm::X, BitTerm::Y]);
    assert_eq!(obs.indices(), &vec![3u32, 1, 2]);
    assert_eq!(obs.boundaries(), &vec![0usize, 2, 3]);
}

#[test]
fn repeated_qubit_across_summands_is_valid() {
    let obs = SparseObservable::new(
        1,
        vec![Coefficient::one(), Coefficient::one()],
        vec![BitTerm::X, BitTerm::Z],
        vec![0, 0],
        vec![0, 1, 2],
    )
    .expect("distinct summands may act on the same qubit");
    assert_eq!(obs.bit_terms().len(), 2);
}

#[test]
fn rejects_coefficient_count_mismatch() {
    let r = SparseObservable::new(1, vec![Coefficient::one()], vec![], vec![], vec![0]);
    assert_eq!(r.unwrap_err(), ValidationError::MismatchedCoefficientCount);
}

#[test]
fn rejects_empty_boundaries() {
    let r = SparseObservable::new(1, vec![], vec![], vec![], vec![]);
    assert_eq!(r.unwrap_err(), ValidationError::MismatchedCoefficientCount);
}

#[test]
fn rejects_term_index_count_mismatch() {
    let r = SparseObservable::new(
        1,
        vec![Coefficient::one()],
        vec![BitTerm::X],
        vec![],
        vec![0, 1],
    );
    assert_eq!(r.unwrap_err(), ValidationError::MismatchedIndexCount);
}

#[test]
fn rejects_boundaries_not_starting_at_zero() {
    let r = SparseObservable::new(
        2,
        vec![Coefficient::one()],
        vec![BitTerm::X],
        vec![0],
        vec![1, 1],
    );
    assert_eq!(r.unwrap_err(), ValidationError::BadInitialBoundary);
}

#[test]
fn rejects_boundaries_not_ending_at_term_count() {
    let r = SparseObservable::new(
        2,
        vec![Coefficient::one()],
        vec![BitTerm::X, BitTerm::Z],
        vec![0, 1],
        vec![0, 1],
    );
    assert_eq!(r.unwrap_err(), ValidationError::BadFinalBoundary);
}

#[test]
fn rejects_decreasing_boundaries() {
    let r = SparseObservable::new(
        4,
        vec![Coefficient::one(), Coefficient::one(), Coefficient::one()],
        vec![BitTerm::X, BitTerm::Y, BitTerm::Z],
        vec![0, 1, 2],
        vec![0, 2, 1, 3],
    );
    assert_eq!(r.unwrap_err(), ValidationError::DecreasingBoundaries);
}

#[test]
fn rejects_qubit_index_at_num_qubits() {
    let r = SparseObservable::new(
        1,
        vec![Coefficient::one()],
        vec![BitTerm::X],
        vec![1],
        vec![0, 1],
    );
    assert_eq!(r.unwrap_err(), ValidationError::QubitIndexOutOfRange);
}

#[test]
fn rejects_duplicate_qubit_in_one_summand() {
    let r = SparseObservable::new(
        2,
        vec![Coefficient::one()],
        vec![BitTerm::X, BitTerm::Z],
        vec![1, 1],
        vec![0, 2],
    );
    assert_eq!(r.unwrap_err(), ValidationError::DuplicateQubitIndex);
}

#[test]
fn reports_first_violated_invariant() {
    // Both the final boundary and a qubit index are wrong; the earlier
    // check in validation order decides the error.
    let r = SparseObservable::new(
        1,
        vec![Coefficient::one()],
        vec![BitTerm::X, BitTerm::Z],
        vec![0, 5],
        vec![0, 1],
    );
    assert_eq!(r.unwrap_err(), ValidationError::BadFinalBoundary);
}

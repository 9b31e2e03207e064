//! The validated sparse Pauli-sum representation.
//!
//! A [`SparseObservable`] encodes a weighted sum of Pauli strings over a
//! declared qubit count in a flattened, boundary-delimited form: one
//! coefficient per summand, and one flat pair of sequences giving every
//! summand's Pauli factors and the qubits they act on, delimited by a
//! boundary offset sequence. The constructor validates the layout eagerly
//! and the value is immutable afterwards.

use vstd::prelude::*;

use crate::pauli::BitTerm;

verus! {

/// A complex scalar weight with exact integer real and imaginary parts.
///
/// The generators tabulated in this crate carry only unit weights, so exact
/// integer components suffice; callers that need floating-point scalars
/// convert at the edge, outside the library.
#[derive(Clone, Copy, Debug, PartialEq, Eq, Structural)]
pub struct Coefficient {
    /// The real part.
    pub re: i64,
    /// The imaginary part.
    pub im: i64,
}

impl Coefficient {
    /// The scalar one: real part 1, imaginary part 0.
    pub open spec fn one_spec() -> Coefficient {
        Coefficient { re: 1, im: 0 }
    }

    /// Builds the scalar one.
    pub fn one() -> (r: Coefficient)
        ensures
            r == Coefficient::one_spec(),
    {
        Coefficient { re: 1, im: 0 }
    }
}

/// Which structural invariant a rejected construction violated.
#[derive(Clone, Copy, Debug, PartialEq, Eq, Structural)]
pub enum ValidationError {
    /// The boundary sequence is not one longer than the coefficient sequence.
    MismatchedCoefficientCount,
    /// The Pauli-term sequence and the qubit-index sequence differ in length.
    MismatchedIndexCount,
    /// The boundary sequence does not start at zero.
    BadInitialBoundary,
    /// The boundary sequence does not end at the number of Pauli terms.
    BadFinalBoundary,
    /// The boundary sequence is not non-decreasing.
    DecreasingBoundaries,
    /// Some qubit index is not below the declared qubit count.
    QubitIndexOutOfRange,
    /// A qubit index is repeated within one summand's slice.
    DuplicateQubitIndex,
}

/// The boundary sequence never steps down.
pub open spec fn boundaries_nondecreasing(boundaries: Seq<usize>) -> bool {
    forall|t: int| 0 <= t < boundaries.len() - 1 ==> #[trigger] boundaries[t] <= boundaries[t + 1]
}

/// Every qubit index is below the declared qubit count.
pub open spec fn indices_in_range(indices: Seq<u32>, num_qubits: u32) -> bool {
    forall|k: int| 0 <= k < indices.len() ==> #[trigger] indices[k] < num_qubits
}

/// No qubit index is repeated within one summand's half-open slice
/// `[boundaries[i], boundaries[i + 1])` of the flat index sequence.
pub open spec fn summand_indices_distinct(indices: Seq<u32>, boundaries: Seq<usize>) -> bool {
    forall|i: int, k1: int, k2: int|
        #![trigger boundaries[i], indices[k1], indices[k2]]
        0 <= i < boundaries.len() - 1 && boundaries[i] <= k1 < k2 < boundaries[i + 1]
            ==> indices[k1] != indices[k2]
}

/// The full structural invariant of a sparse observable: with `S` summands,
/// there are `S` coefficients and `S + 1` boundaries; the flat term and index
/// sequences are aligned; the boundaries run non-decreasingly from zero to the
/// number of terms; every index is in range; and no summand repeats a qubit.
pub open spec fn valid_layout(
    num_qubits: u32,
    coefficients: Seq<Coefficient>,
    bit_terms: Seq<BitTerm>,
    indices: Seq<u32>,
    boundaries: Seq<usize>,
) -> bool {
    &&& boundaries.len() == coefficients.len() + 1
    &&& bit_terms.len() == indices.len()
    &&& boundaries[0] == 0
    &&& boundaries[boundaries.len() - 1] == bit_terms.len()
    &&& boundaries_nondecreasing(boundaries)
    &&& indices_in_range(indices, num_qubits)
    &&& summand_indices_distinct(indices, boundaries)
}

/// The first violated invariant in validation order, or `None` when the
/// layout is valid. This fixes which error a rejected construction reports
/// when several invariants are violated at once.
pub open spec fn first_layout_error(
    num_qubits: u32,
    coefficients: Seq<Coefficient>,
    bit_terms: Seq<BitTerm>,
    indices: Seq<u32>,
    boundaries: Seq<usize>,
) -> Option<ValidationError> {
    if boundaries.len() != coefficients.len() + 1 {
        Some(ValidationError::MismatchedCoefficientCount)
    } else if bit_terms.len() != indices.len() {
        Some(ValidationError::MismatchedIndexCount)
    } else if boundaries[0] != 0 {
        Some(ValidationError::BadInitialBoundary)
    } else if boundaries[boundaries.len() - 1] != bit_terms.len() {
        Some(ValidationError::BadFinalBoundary)
    } else if !boundaries_nondecreasing(boundaries) {
        Some(ValidationError::DecreasingBoundaries)
    } else if !indices_in_range(indices, num_qubits) {
        Some(ValidationError::QubitIndexOutOfRange)
    } else if !summand_indices_distinct(indices, boundaries) {
        Some(ValidationError::DuplicateQubitIndex)
    } else {
        None
    }
}

/// In a non-decreasing boundary sequence, an earlier entry never exceeds a
/// later one.
proof fn lemma_boundaries_monotonic(boundaries: Seq<usize>, x: int, y: int)
    requires
        boundaries_nondecreasing(boundaries),
        0 <= x <= y < boundaries.len(),
    ensures
        boundaries[x] <= boundaries[y],
    decreases y - x,
{
    if x < y {
        lemma_boundaries_monotonic(boundaries, x, y - 1);
    }
}

/// Decides [`boundaries_nondecreasing`].
fn check_boundaries_nondecreasing(boundaries: &Vec<usize>) -> (r: bool)
    ensures
        r == boundaries_nondecreasing(boundaries@),
{
    let mut j: usize = 1;
    while j < boundaries.len()
        invariant
            1 <= j,
            forall|t: int| 0 <= t < j - 1 ==> #[trigger] boundaries@[t] <= boundaries@[t + 1],
        decreases boundaries.len() - j,
    {
        if boundaries[j - 1] > boundaries[j] {
            proof {
                assert(!boundaries_nondecreasing(boundaries@)) by {
                    assert(!(boundaries@[j as int - 1] <= boundaries@[j as int]));
                }
            }
            return false;
        }
        j += 1;
    }
    true
}

/// Decides [`indices_in_range`].
fn check_indices_in_range(indices: &Vec<u32>, num_qubits: u32) -> (r: bool)
    ensures
        r == indices_in_range(indices@, num_qubits),
{
    let mut k: usize = 0;
    while k < indices.len()
        invariant
            forall|t: int| 0 <= t < k ==> #[trigger] indices@[t] < num_qubits,
        decreases indices.len() - k,
    {
        if indices[k] >= num_qubits {
            proof {
                assert(!indices_in_range(indices@, num_qubits)) by {
                    assert(!(indices@[k as int] < num_qubits));
                }
            }
            return false;
        }
        k += 1;
    }
    true
}

/// Decides [`summand_indices_distinct`], comparing each summand's qubit
/// indices pairwise.
#[verifier::loop_isolation(false)]
fn check_summand_indices_distinct(indices: &Vec<u32>, boundaries: &Vec<usize>) -> (r: bool)
    requires
        boundaries@.len() >= 1,
        boundaries_nondecreasing(boundaries@),
        boundaries@[boundaries@.len() - 1] == indices@.len(),
    ensures
        r == summand_indices_distinct(indices@, boundaries@),
{
    let n_summands = boundaries.len() - 1;
    let mut i: usize = 0;
    while i < n_summands
        invariant
            i <= n_summands,
            forall|t: int, k1: int, k2: int|
                #![trigger boundaries@[t], indices@[k1], indices@[k2]]
                0 <= t < i && boundaries@[t] <= k1 < k2 < boundaries@[t + 1]
                    ==> indices@[k1] != indices@[k2],
        decreases n_summands - i,
    {
        let lo = boundaries[i];
        let hi = boundaries[i + 1];
        proof {
            lemma_boundaries_monotonic(boundaries@, i as int + 1, n_summands as int);
        }
        let mut k1 = lo;
        while k1 < hi
            invariant
                lo <= k1,
                forall|a: int, b: int|
                    #![trigger indices@[a], indices@[b]]
                    lo <= a < k1 && a < b < hi ==> indices@[a] != indices@[b],
            decreases hi - k1,
        {
            let mut k2 = k1 + 1;
            while k2 < hi
                invariant
                    k1 < k2,
                    forall|b: int| k1 < b < k2 ==> indices@[k1 as int] != #[trigger] indices@[b],
                decreases hi - k2,
            {
                if indices[k1] == indices[k2] {
                    proof {
                        assert(!summand_indices_distinct(indices@, boundaries@)) by {
                            assert(0 <= (i as int) < boundaries@.len() - 1);
                            assert(boundaries@[i as int] <= (k1 as int) < (k2 as int)
                                < boundaries@[i as int + 1]);
                            assert(indices@[k1 as int] == indices@[k2 as int]);
                        }
                    }
                    return false;
                }
                k2 += 1;
            }
            k1 += 1;
        }
        i += 1;
    }
    true
}

/// A validated sparse sum of weighted Pauli strings over `num_qubits` qubits.
///
/// Summand `i` has weight `coefficients[i]` and occupies the half-open slice
/// `[boundaries[i], boundaries[i + 1])` of `bit_terms` and `indices`, pairing
/// each Pauli factor with the qubit it acts on. The fields are private: every
/// value is produced by [`SparseObservable::new`], so [`SparseObservable::wf`]
/// holds of it, and insertion order is preserved exactly.
#[derive(Debug)]
pub struct SparseObservable {
    num_qubits: u32,
    coefficients: Vec<Coefficient>,
    bit_terms: Vec<BitTerm>,
    indices: Vec<u32>,
    boundaries: Vec<usize>,
}

impl SparseObservable {
    /// The declared qubit count.
    pub closed spec fn spec_num_qubits(self) -> u32 {
        self.num_qubits
    }

    /// The per-summand complex weights.
    pub closed spec fn spec_coefficients(self) -> Seq<Coefficient> {
        self.coefficients@
    }

    /// The flat sequence of Pauli factors of all summands.
    pub closed spec fn spec_bit_terms(self) -> Seq<BitTerm> {
        self.bit_terms@
    }

    /// The flat sequence of qubit positions, aligned with the Pauli factors.
    pub closed spec fn spec_indices(self) -> Seq<u32> {
        self.indices@
    }

    /// The boundary offsets delimiting each summand's slice.
    pub closed spec fn spec_boundaries(self) -> Seq<usize> {
        self.boundaries@
    }

    /// The structural invariant, as established by the constructor.
    pub open spec fn wf(self) -> bool {
        valid_layout(
            self.spec_num_qubits(),
            self.spec_coefficients(),
            self.spec_bit_terms(),
            self.spec_indices(),
            self.spec_boundaries(),
        )
    }

    /// Validates the flattened layout eagerly and, when every invariant
    /// holds, returns the observable holding exactly the given sequences in
    /// their given order. A rejected input yields the first violated
    /// invariant in validation order; no partial state is observable then.
    pub fn new(
        num_qubits: u32,
        coefficients: Vec<Coefficient>,
        bit_terms: Vec<BitTerm>,
        indices: Vec<u32>,
        boundaries: Vec<usize>,
    ) -> (r: Result<SparseObservable, ValidationError>)
        ensures
            r is Ok <==> valid_layout(
                num_qubits,
                coefficients@,
                bit_terms@,
                indices@,
                boundaries@,
            ),
            match r {
                Ok(o) => {
                    &&& o.spec_num_qubits() == num_qubits
                    &&& o.spec_coefficients() == coefficients@
                    &&& o.spec_bit_terms() == bit_terms@
                    &&& o.spec_indices() == indices@
                    &&& o.spec_boundaries() == boundaries@
                    &&& o.wf()
                },
                Err(e) => first_layout_error(
                    num_qubits,
                    coefficients@,
                    bit_terms@,
                    indices@,
                    boundaries@,
                ) == Some(e),
            },
    {
        if boundaries.len() == 0 || boundaries.len() - 1 != coefficients.len() {
            return Err(ValidationError::MismatchedCoefficientCount);
        }
        if bit_terms.len() != indices.len() {
            return Err(ValidationError::MismatchedIndexCount);
        }
        if boundaries[0] != 0 {
            return Err(ValidationError::BadInitialBoundary);
        }
        if boundaries[boundaries.len() - 1] != bit_terms.len() {
            return Err(ValidationError::BadFinalBoundary);
        }
        if !check_boundaries_nondecreasing(&boundaries) {
            return Err(ValidationError::DecreasingBoundaries);
        }
        if !check_indices_in_range(&indices, num_qubits) {
            return Err(ValidationError::QubitIndexOutOfRange);
        }
        if !check_summand_indices_distinct(&indices, &boundaries) {
            return Err(ValidationError::DuplicateQubitIndex);
        }
        Ok(SparseObservable { num_qubits, coefficients, bit_terms, indices, boundaries })
    }

    /// The declared qubit count.
    pub fn num_qubits(&self) -> (r: u32)
        ensures
            r == self.spec_num_qubits(),
    {
        self.num_qubits
    }

    /// Read-only view of the per-summand complex weights.
    pub fn coefficients(&self) -> (r: &Vec<Coefficient>)
        ensures
            r@ == self.spec_coefficients(),
    {
        &self.coefficients
    }

    /// Read-only view of the flat sequence of Pauli factors.
    pub fn bit_terms(&self) -> (r: &Vec<BitTerm>)
        ensures
            r@ == self.spec_bit_terms(),
    {
        &self.bit_terms
    }

    /// Read-only view of the flat sequence of qubit positions.
    pub fn indices(&self) -> (r: &Vec<u32>)
        ensures
            r@ == self.spec_indices(),
    {
        &self.indices
    }

    /// Read-only view of the boundary offsets.
    pub fn boundaries(&self) -> (r: &Vec<usize>)
        ensures
            r@ == self.spec_boundaries(),
    {
        &self.boundaries
    }
}

} // verus!

//! The table of gate generators, and the lookup that turns a table entry
//! into a validated sparse observable.

use vstd::prelude::*;

use crate::gates::StandardGate;
use crate::observable::{
    boundaries_nondecreasing, indices_in_range, summand_indices_distinct, valid_layout,
    Coefficient, SparseObservable,
};
use crate::pauli::BitTerm;

verus! {

/// The generator table: the ordered list of Pauli terms composing the
/// generator of each catalog member. An empty entry signals that no
/// generator is tabulated and the caller must fall back to a generic
/// derivation. The table is declared in lock-step with the catalog, one
/// entry per member, so the lookup is total over the catalog's domain.
pub open spec fn generator_terms(gate: StandardGate) -> Seq<BitTerm> {
    match gate {
        StandardGate::Id => Seq::empty(),
        StandardGate::Rx => seq![BitTerm::X],
        StandardGate::Ry => seq![BitTerm::Y],
        StandardGate::Rz => seq![BitTerm::Z],
        StandardGate::H => seq![BitTerm::X, BitTerm::Z],
        StandardGate::S => seq![BitTerm::Z],
        StandardGate::Sdg => seq![BitTerm::Z],
    }
}

/// No tabulated generator has more than two terms.
proof fn lemma_generator_terms_len(gate: StandardGate)
    ensures
        generator_terms(gate).len() <= 2,
{
}

/// Reads the generator table entry of `gate` as a vector, in table order.
pub fn generator_terms_of(gate: StandardGate) -> (r: Vec<BitTerm>)
    ensures
        r@ == generator_terms(gate),
{
    let mut r: Vec<BitTerm> = Vec::new();
    match gate {
        StandardGate::Id => {},
        StandardGate::Rx => {
            r.push(BitTerm::X);
        },
        StandardGate::Ry => {
            r.push(BitTerm::Y);
        },
        StandardGate::Rz => {
            r.push(BitTerm::Z);
        },
        StandardGate::H => {
            r.push(BitTerm::X);
            r.push(BitTerm::Z);
        },
        StandardGate::S => {
            r.push(BitTerm::Z);
        },
        StandardGate::Sdg => {
            r.push(BitTerm::Z);
        },
    }
    proof {
        assert(r@ =~= generator_terms(gate));
    }
    r
}

/// An observable for the generator of `gate`, when one is tabulated.
///
/// `None` means the table entry is empty and the caller must use its
/// generic fallback path. Otherwise each of the `k` listed terms becomes
/// its own summand with coefficient one, on its own synthetic qubit slot:
/// `indices` run `0, 1, ..., k - 1`, `boundaries` run `0, 1, ..., k`, and
/// the declared qubit count is `k`, so that every index is in range and
/// the listed terms are never taken to act jointly on one qubit. The
/// table-derived layout always satisfies the constructor's invariants, so
/// the lookup itself never fails.
pub fn generator_observable(gate: StandardGate) -> (r: Option<SparseObservable>)
    ensures
        generator_terms(gate).len() == 0 ==> r is None,
        generator_terms(gate).len() > 0 ==> (r matches Some(o) && {
            let k = generator_terms(gate).len();
            &&& o.wf()
            &&& o.spec_num_qubits() == k
            &&& o.spec_bit_terms().len() == k
            &&& o.spec_coefficients().len() == k
            &&& o.spec_coefficients() == Seq::new(k, |i: int| Coefficient::one_spec())
            &&& o.spec_bit_terms() == generator_terms(gate)
            &&& o.spec_indices() == Seq::new(k, |i: int| i as u32)
            &&& o.spec_boundaries() == Seq::new(k + 1, |i: int| i as usize)
        }),
{
    let terms = generator_terms_of(gate);
    if terms.len() == 0 {
        return None;
    }
    proof {
        lemma_generator_terms_len(gate);
    }
    let k = terms.len();
    let num_qubits = k as u32;

    let mut coefficients: Vec<Coefficient> = Vec::new();
    let mut indices: Vec<u32> = Vec::new();
    let mut boundaries: Vec<usize> = Vec::new();
    boundaries.push(0);
    let mut j: usize = 0;
    #[verifier::loop_isolation(false)]
    while j < k
        invariant
            j <= k,
            coefficients@ == Seq::new(j as nat, |i: int| Coefficient::one_spec()),
            indices@ == Seq::new(j as nat, |i: int| i as u32),
            boundaries@ == Seq::new(j as nat + 1, |i: int| i as usize),
        decreases k - j,
    {
        coefficients.push(Coefficient::one());
        indices.push(j as u32);
        boundaries.push(j + 1);
        j += 1;
        proof {
            assert(coefficients@ =~= Seq::new(j as nat, |i: int| Coefficient::one_spec()));
            assert(indices@ =~= Seq::new(j as nat, |i: int| i as u32));
            assert(boundaries@ =~= Seq::new(j as nat + 1, |i: int| i as usize));
        }
    }

    proof {
        lemma_synthetic_layout_valid(num_qubits, coefficients@, terms@, indices@, boundaries@);
    }
    match SparseObservable::new(num_qubits, coefficients, terms, indices, boundaries) {
        Ok(o) => Some(o),
        // Never taken: the layout above satisfies every constructor
        // invariant, so a rejection would be a defect in the table itself.
        Err(_) => None,
    }
}

/// The synthetic per-term layout built by [`generator_observable`] — one
/// single-factor summand per term, index `t` on slot `t`, over as many
/// qubits as terms — satisfies every constructor invariant.
proof fn lemma_synthetic_layout_valid(
    num_qubits: u32,
    coefficients: Seq<Coefficient>,
    bit_terms: Seq<BitTerm>,
    indices: Seq<u32>,
    boundaries: Seq<usize>,
)
    requires
        bit_terms.len() == coefficients.len(),
        bit_terms.len() <= u32::MAX,
        num_qubits == bit_terms.len(),
        indices == Seq::new(bit_terms.len(), |i: int| i as u32),
        boundaries == Seq::new(bit_terms.len() + 1, |i: int| i as usize),
    ensures
        valid_layout(num_qubits, coefficients, bit_terms, indices, boundaries),
{
    assert(boundaries[0] == 0);
    assert(boundaries[boundaries.len() - 1] == bit_terms.len());
    assert(boundaries_nondecreasing(boundaries));
    assert(indices_in_range(indices, num_qubits));
    assert(summand_indices_distinct(indices, boundaries));
}

} // verus!

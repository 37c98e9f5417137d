//! Pauli bases and the integer codes by which the engine knows them.

use vstd::prelude::*;

verus! {

/// A Pauli basis.
#[derive(Clone, Copy, Debug, PartialEq, Eq, Structural)]
pub enum Pauli {
    /// The identity operator.
    PauliI,
    /// The Pauli X operator.
    PauliX,
    /// The Pauli Y operator.
    PauliY,
    /// The Pauli Z operator.
    PauliZ,
}

impl Pauli {
    /// The engine's number for this basis: I is 0, X is 1, Z is 2 and Y is 3.
    pub open spec fn code_spec(self) -> i32 {
        match self {
            Pauli::PauliI => 0i32,
            Pauli::PauliX => 1i32,
            Pauli::PauliZ => 2i32,
            Pauli::PauliY => 3i32,
        }
    }

    /// The engine's number for this basis.
    #[verifier::when_used_as_spec(code_spec)]
    pub fn code(self) -> (c: i32)
        ensures
            c == self.code_spec(),
    {
        match self {
            Pauli::PauliI => 0,
            Pauli::PauliX => 1,
            Pauli::PauliZ => 2,
            Pauli::PauliY => 3,
        }
    }

    /// The engine's number for this basis, as the unsigned word in which a
    /// single basis is passed.
    pub fn word(self) -> (w: u64)
        ensures
            w == self.code_spec(),
    {
        match self {
            Pauli::PauliI => 0,
            Pauli::PauliX => 1,
            Pauli::PauliZ => 2,
            Pauli::PauliY => 3,
        }
    }
}

/// The codes of a list of bases, in the same order.
pub open spec fn codes_of(bases: Seq<Pauli>) -> Seq<i32> {
    Seq::new(bases.len(), |i: int| bases[i].code_spec())
}

/// Marshals a list of bases into the integer array that the engine reads.
pub fn pauli_codes(bases: &Vec<Pauli>) -> (codes: Vec<i32>)
    ensures
        codes@ == codes_of(bases@),
{
    let mut codes: Vec<i32> = Vec::new();
    let mut i: usize = 0;
    while i < bases.len()
        invariant
            i <= bases.len(),
            codes@ == codes_of(bases@.take(i as int)),
        decreases bases.len() - i,
    {
        codes.push(bases[i].code());
        i = i + 1;
        assert(codes@ =~= codes_of(bases@.take(i as int)));
    }
    assert(bases@.take(i as int) =~= bases@);
    codes
}

/// Distinct bases have distinct codes, and every code lies in `0..=3`.
pub proof fn lemma_codes_injective(a: Pauli, b: Pauli)
    ensures
        0 <= a.code_spec() <= 3,
        a.code_spec() == b.code_spec() ==> a == b,
{
}

} // verus!

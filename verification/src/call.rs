//! The requests that the control plane hands to the engine.
//!
//! Every value of [`EngineCall`] stands for exactly one invocation of one
//! native entry point, with its arguments in the order in which the entry
//! point reads them. Array lengths travel with the arrays; Pauli bases
//! travel as [`Pauli`] and are turned into the engine's numbers by
//! [`crate::pauli::pauli_codes`] and [`Pauli::word`].

use crate::pauli::Pauli;
use vstd::prelude::*;

verus! {

/// A real number, carried across the engine boundary as the bit pattern of
/// its IEEE-754 binary64 encoding. The control plane never does arithmetic
/// on it.
#[derive(Clone, Copy, Debug, PartialEq, Eq, Structural)]
pub struct Real {
    pub bits: u64,
}

impl Real {
    /// The real number with the given binary64 bit pattern.
    pub fn from_bits(bits: u64) -> (r: Real)
        ensures
            r.bits == bits,
    {
        Real { bits }
    }

    /// The binary64 bit pattern of this number.
    pub fn to_bits(self) -> (bits: u64)
        ensures
            bits == self.bits,
    {
        self.bits
    }
}

/// A 2x2 complex operator, row-major, each entry as a (real, imaginary) pair.
pub type Matrix = [Real; 8];

/// The capability flags that select an engine backend.
#[derive(Clone, Copy, Debug, PartialEq, Eq, Structural)]
pub struct Layers {
    pub tensor_network: bool,
    pub schmidt_decompose_multi: bool,
    pub schmidt_decompose: bool,
    pub stabilizer_hybrid: bool,
    pub binary_decision_tree: bool,
    pub paged: bool,
    pub cpu_gpu_hybrid: bool,
    pub opencl: bool,
}

/// The single-qubit gates that take no parameter.
#[derive(Clone, Copy, Debug, PartialEq, Eq, Structural)]
pub enum Gate {
    X,
    Y,
    Z,
    H,
    S,
    T,
    AdjS,
    AdjT,
}

/// The state that every control qubit must be in for a controlled operation
/// to act.
#[derive(Clone, Copy, Debug, PartialEq, Eq, Structural)]
pub enum Polarity {
    /// All controls must be |1>.
    AllOnes,
    /// All controls must be |0>.
    AllZeros,
}

/// The Pauli operators that can be applied to a whole list of qubits.
#[derive(Clone, Copy, Debug, PartialEq, Eq, Structural)]
pub enum Axis {
    X,
    Y,
    Z,
}

/// The two-qubit exchange gates.
#[derive(Clone, Copy, Debug, PartialEq, Eq, Structural)]
pub enum Exchange {
    Swap,
    ISwap,
    AdjISwap,
}

/// Addition or subtraction of a classical integer.
#[derive(Clone, Copy, Debug, PartialEq, Eq, Structural)]
pub enum Sum {
    Add,
    Sub,
}

/// Multiplication by a classical integer, or its adjoint.
#[derive(Clone, Copy, Debug, PartialEq, Eq, Structural)]
pub enum Product {
    Mul,
    Div,
}

/// The out-of-place modular operations.
#[derive(Clone, Copy, Debug, PartialEq, Eq, Structural)]
pub enum Modular {
    MulN,
    DivN,
    PowN,
}

/// The table operations that use a carry qubit.
#[derive(Clone, Copy, Debug, PartialEq, Eq, Structural)]
pub enum Carry {
    Adc,
    Sbc,
}

/// The two-input boolean gates.
#[derive(Clone, Copy, Debug, PartialEq, Eq, Structural)]
pub enum Logic {
    And,
    Or,
    Xor,
    Nand,
    Nor,
    Xnor,
}

/// The direction of a quantum Fourier transform.
#[derive(Clone, Copy, Debug, PartialEq, Eq, Structural)]
pub enum Fourier {
    Forward,
    Inverse,
}

/// One invocation of one engine entry point.
#[allow(inconsistent_fields)]
#[derive(Debug, PartialEq, Eq)]
pub enum EngineCall {
    // lifecycle
    InitCount { qubits: u64, host_pointer: bool },
    InitCountPager { qubits: u64, host_pointer: bool },
    InitCountType { qubits: u64, layers: Layers, zx_filter: bool, host_pointer: bool },
    InitClone { sid: u64 },
    Destroy { sid: u64 },
    GetError { sid: u64 },
    // configuration
    Seed { sid: u64, seed: u64 },
    SetConcurrency { sid: u64, threads: u64 },
    // unconditional unitaries
    Gate { sid: u64, gate: Gate, target: u64 },
    U { sid: u64, target: u64, theta: Real, phi: Real, lambda: Real },
    Mtrx { sid: u64, matrix: Matrix, target: u64 },
    R { sid: u64, basis: Pauli, phi: Real, target: u64 },
    Exp { sid: u64, bases: Vec<Pauli>, phi: Real, qubits: Vec<u64> },
    MultiGate { sid: u64, axis: Axis, qubits: Vec<u64> },
    Exchange { sid: u64, gate: Exchange, first: u64, second: u64 },
    FSim { sid: u64, theta: Real, phi: Real, first: u64, second: u64 },
    // controlled unitaries
    ControlledGate { sid: u64, polarity: Polarity, gate: Gate, controls: Vec<u64>, target: u64 },
    ControlledU {
        sid: u64,
        polarity: Polarity,
        controls: Vec<u64>,
        target: u64,
        theta: Real,
        phi: Real,
        lambda: Real,
    },
    ControlledMtrx {
        sid: u64,
        polarity: Polarity,
        controls: Vec<u64>,
        matrix: Matrix,
        target: u64,
    },
    UCMtrx { sid: u64, controls: Vec<u64>, matrix: Matrix, target: u64, pattern: u64 },
    Multiplex1Mtrx { sid: u64, controls: Vec<u64>, target: u64, matrices: Vec<Real> },
    MCR { sid: u64, basis: Pauli, phi: Real, controls: Vec<u64>, target: u64 },
    MCExp { sid: u64, bases: Vec<Pauli>, phi: Real, controls: Vec<u64>, qubits: Vec<u64> },
    ControlledSwap { sid: u64, polarity: Polarity, controls: Vec<u64>, first: u64, second: u64 },
    // measurement
    M { sid: u64, target: u64 },
    ForceM { sid: u64, target: u64, outcome: bool },
    MAll { sid: u64 },
    Measure { sid: u64, bases: Vec<Pauli>, qubits: Vec<u64> },
    MeasureShots { sid: u64, qubits: Vec<u64>, shots: u64 },
    ResetAll { sid: u64 },
    // arithmetic
    Sum { sid: u64, op: Sum, value: Vec<u64>, qubits: Vec<u64> },
    SignedSum { sid: u64, op: Sum, value: Vec<u64>, overflow: u64, qubits: Vec<u64> },
    Product { sid: u64, op: Product, value: Vec<u64>, qubits: Vec<u64>, carry: Vec<u64> },
    Modular {
        sid: u64,
        op: Modular,
        value: Vec<u64>,
        modulus: Vec<u64>,
        qubits: Vec<u64>,
        output: Vec<u64>,
    },
    ControlledSum { sid: u64, op: Sum, value: Vec<u64>, controls: Vec<u64>, qubits: Vec<u64> },
    ControlledProduct {
        sid: u64,
        op: Product,
        value: Vec<u64>,
        controls: Vec<u64>,
        qubits: Vec<u64>,
        carry: Vec<u64>,
    },
    ControlledModular {
        sid: u64,
        op: Modular,
        value: Vec<u64>,
        controls: Vec<u64>,
        modulus: Vec<u64>,
        qubits: Vec<u64>,
        output: Vec<u64>,
    },
    // tables
    Lda { sid: u64, index: Vec<u64>, value: Vec<u64>, table: Vec<u8> },
    CarryTable {
        sid: u64,
        op: Carry,
        carry: u64,
        index: Vec<u64>,
        value: Vec<u64>,
        table: Vec<u8>,
    },
    Hash { sid: u64, qubits: Vec<u64>, table: Vec<u8> },
    // boolean logic
    Logic { sid: u64, op: Logic, first: u64, second: u64, output: u64 },
    ClassicalLogic { sid: u64, op: Logic, bit: bool, input: u64, output: u64 },
    // Fourier transform
    Fourier { sid: u64, direction: Fourier, qubits: Vec<u64> },
    // structure
    AllocateQubit { sid: u64, qubit: u64 },
    Release { sid: u64, qubit: u64 },
    NumQubits { sid: u64 },
    Compose { sid: u64, other: u64, qubits: Vec<u64> },
    Decompose { sid: u64, qubits: Vec<u64> },
    Dispose { sid: u64, qubits: Vec<u64> },
    // introspection
    Prob { sid: u64, target: u64 },
    PermutationProb { sid: u64, qubits: Vec<u64>, values: Vec<bool> },
    PermutationExpectation { sid: u64, qubits: Vec<u64> },
    JointEnsembleProbability { sid: u64, bases: Vec<Pauli>, qubits: Vec<u64> },
    PhaseParity { sid: u64, lambda: Real, qubits: Vec<u64> },
    TrySeparate1Qb { sid: u64, target: u64 },
    TrySeparate2Qb { sid: u64, first: u64, second: u64 },
    TrySeparateTol { sid: u64, qubits: Vec<u64>, tolerance: Real },
    GetUnitaryFidelity { sid: u64 },
    ResetUnitaryFidelity { sid: u64 },
    SetSdrp { sid: u64, sdrp: Real },
    SetReactiveSeparate { sid: u64, on: bool },
    SetTInjection { sid: u64, on: bool },
}

impl EngineCall {
    /// The handle of the session that the call acts on. A construction call
    /// acts on none: its session does not exist yet.
    pub open spec fn session_spec(&self) -> Option<u64> {
        match self {
            EngineCall::InitCount { .. } => None,
            EngineCall::InitCountPager { .. } => None,
            EngineCall::InitCountType { .. } => None,
            EngineCall::InitClone { sid, .. } => Some(*sid),
            EngineCall::Destroy { sid, .. } => Some(*sid),
            EngineCall::GetError { sid, .. } => Some(*sid),
            EngineCall::Seed { sid, .. } => Some(*sid),
            EngineCall::SetConcurrency { sid, .. } => Some(*sid),
            EngineCall::Gate { sid, .. } => Some(*sid),
            EngineCall::U { sid, .. } => Some(*sid),
            EngineCall::Mtrx { sid, .. } => Some(*sid),
            EngineCall::R { sid, .. } => Some(*sid),
            EngineCall::Exp { sid, .. } => Some(*sid),
            EngineCall::MultiGate { sid, .. } => Some(*sid),
            EngineCall::Exchange { sid, .. } => Some(*sid),
            EngineCall::FSim { sid, .. } => Some(*sid),
            EngineCall::ControlledGate { sid, .. } => Some(*sid),
            EngineCall::ControlledU { sid, .. } => Some(*sid),
            EngineCall::ControlledMtrx { sid, .. } => Some(*sid),
            EngineCall::UCMtrx { sid, .. } => Some(*sid),
            EngineCall::Multiplex1Mtrx { sid, .. } => Some(*sid),
            EngineCall::MCR { sid, .. } => Some(*sid),
            EngineCall::MCExp { sid, .. } => Some(*sid),
            EngineCall::ControlledSwap { sid, .. } => Some(*sid),
            EngineCall::M { sid, .. } => Some(*sid),
            EngineCall::ForceM { sid, .. } => Some(*sid),
            EngineCall::MAll { sid, .. } => Some(*sid),
            EngineCall::Measure { sid, .. } => Some(*sid),
            EngineCall::MeasureShots { sid, .. } => Some(*sid),
            EngineCall::ResetAll { sid, .. } => Some(*sid),
            EngineCall::Sum { sid, .. } => Some(*sid),
            EngineCall::SignedSum { sid, .. } => Some(*sid),
            EngineCall::Product { sid, .. } => Some(*sid),
            EngineCall::Modular { sid, .. } => Some(*sid),
            EngineCall::ControlledSum { sid, .. } => Some(*sid),
            EngineCall::ControlledProduct { sid, .. } => Some(*sid),
            EngineCall::ControlledModular { sid, .. } => Some(*sid),
            EngineCall::Lda { sid, .. } => Some(*sid),
            EngineCall::CarryTable { sid, .. } => Some(*sid),
            EngineCall::Hash { sid, .. } => Some(*sid),
            EngineCall::Logic { sid, .. } => Some(*sid),
            EngineCall::ClassicalLogic { sid, .. } => Some(*sid),
            EngineCall::Fourier { sid, .. } => Some(*sid),
            EngineCall::AllocateQubit { sid, .. } => Some(*sid),
            EngineCall::Release { sid, .. } => Some(*sid),
            EngineCall::NumQubits { sid, .. } => Some(*sid),
            EngineCall::Compose { sid, .. } => Some(*sid),
            EngineCall::Decompose { sid, .. } => Some(*sid),
            EngineCall::Dispose { sid, .. } => Some(*sid),
            EngineCall::Prob { sid, .. } => Some(*sid),
            EngineCall::PermutationProb { sid, .. } => Some(*sid),
            EngineCall::PermutationExpectation { sid, .. } => Some(*sid),
            EngineCall::JointEnsembleProbability { sid, .. } => Some(*sid),
            EngineCall::PhaseParity { sid, .. } => Some(*sid),
            EngineCall::TrySeparate1Qb { sid, .. } => Some(*sid),
            EngineCall::TrySeparate2Qb { sid, .. } => Some(*sid),
            EngineCall::TrySeparateTol { sid, .. } => Some(*sid),
            EngineCall::GetUnitaryFidelity { sid, .. } => Some(*sid),
            EngineCall::ResetUnitaryFidelity { sid, .. } => Some(*sid),
            EngineCall::SetSdrp { sid, .. } => Some(*sid),
            EngineCall::SetReactiveSeparate { sid, .. } => Some(*sid),
            EngineCall::SetTInjection { sid, .. } => Some(*sid),
        }
    }

    /// The handle of the session that the call acts on, if it acts on one.
    #[verifier::when_used_as_spec(session_spec)]
    pub fn session(&self) -> (h: Option<u64>)
        ensures
            h == self.session_spec(),
    {
        match self {
            EngineCall::InitCount { .. } => None,
            EngineCall::InitCountPager { .. } => None,
            EngineCall::InitCountType { .. } => None,
            EngineCall::InitClone { sid, .. } => Some(*sid),
            EngineCall::Destroy { sid, .. } => Some(*sid),
            EngineCall::GetError { sid, .. } => Some(*sid),
            EngineCall::Seed { sid, .. } => Some(*sid),
            EngineCall::SetConcurrency { sid, .. } => Some(*sid),
            EngineCall::Gate { sid, .. } => Some(*sid),
            EngineCall::U { sid, .. } => Some(*sid),
            EngineCall::Mtrx { sid, .. } => Some(*sid),
            EngineCall::R { sid, .. } => Some(*sid),
            EngineCall::Exp { sid, .. } => Some(*sid),
            EngineCall::MultiGate { sid, .. } => Some(*sid),
            EngineCall::Exchange { sid, .. } => Some(*sid),
            EngineCall::FSim { sid, .. } => Some(*sid),
            EngineCall::ControlledGate { sid, .. } => Some(*sid),
            EngineCall::ControlledU { sid, .. } => Some(*sid),
            EngineCall::ControlledMtrx { sid, .. } => Some(*sid),
            EngineCall::UCMtrx { sid, .. } => Some(*sid),
            EngineCall::Multiplex1Mtrx { sid, .. } => Some(*sid),
            EngineCall::MCR { sid, .. } => Some(*sid),
            EngineCall::MCExp { sid, .. } => Some(*sid),
            EngineCall::ControlledSwap { sid, .. } => Some(*sid),
            EngineCall::M { sid, .. } => Some(*sid),
            EngineCall::ForceM { sid, .. } => Some(*sid),
            EngineCall::MAll { sid, .. } => Some(*sid),
            EngineCall::Measure { sid, .. } => Some(*sid),
            EngineCall::MeasureShots { sid, .. } => Some(*sid),
            EngineCall::ResetAll { sid, .. } => Some(*sid),
            EngineCall::Sum { sid, .. } => Some(*sid),
            EngineCall::SignedSum { sid, .. } => Some(*sid),
            EngineCall::Product { sid, .. } => Some(*sid),
            EngineCall::Modular { sid, .. } => Some(*sid),
            EngineCall::ControlledSum { sid, .. } => Some(*sid),
            EngineCall::ControlledProduct { sid, .. } => Some(*sid),
            EngineCall::ControlledModular { sid, .. } => Some(*sid),
            EngineCall::Lda { sid, .. } => Some(*sid),
            EngineCall::CarryTable { sid, .. } => Some(*sid),
            EngineCall::Hash { sid, .. } => Some(*sid),
            EngineCall::Logic { sid, .. } => Some(*sid),
            EngineCall::ClassicalLogic { sid, .. } => Some(*sid),
            EngineCall::Fourier { sid, .. } => Some(*sid),
            EngineCall::AllocateQubit { sid, .. } => Some(*sid),
            EngineCall::Release { sid, .. } => Some(*sid),
            EngineCall::NumQubits { sid, .. } => Some(*sid),
            EngineCall::Compose { sid, .. } => Some(*sid),
            EngineCall::Decompose { sid, .. } => Some(*sid),
            EngineCall::Dispose { sid, .. } => Some(*sid),
            EngineCall::Prob { sid, .. } => Some(*sid),
            EngineCall::PermutationProb { sid, .. } => Some(*sid),
            EngineCall::PermutationExpectation { sid, .. } => Some(*sid),
            EngineCall::JointEnsembleProbability { sid, .. } => Some(*sid),
            EngineCall::PhaseParity { sid, .. } => Some(*sid),
            EngineCall::TrySeparate1Qb { sid, .. } => Some(*sid),
            EngineCall::TrySeparate2Qb { sid, .. } => Some(*sid),
            EngineCall::TrySeparateTol { sid, .. } => Some(*sid),
            EngineCall::GetUnitaryFidelity { sid, .. } => Some(*sid),
            EngineCall::ResetUnitaryFidelity { sid, .. } => Some(*sid),
            EngineCall::SetSdrp { sid, .. } => Some(*sid),
            EngineCall::SetReactiveSeparate { sid, .. } => Some(*sid),
            EngineCall::SetTInjection { sid, .. } => Some(*sid),
        }
    }

    /// The call hands back the handle of a session that did not exist
    /// before.
    pub open spec fn mints_handle(&self) -> bool {
        self is InitCount || self is InitCountPager || self is InitCountType || self is InitClone
            || self is Decompose
    }

    /// The register poll that has to follow this call before its result is
    /// trusted, where `answer` is the handle that the engine handed back, if
    /// the call hands one back.
    ///
    /// A construction or a clone is judged by the register of the new
    /// handle; every other call by the register of the session it acts on.
    /// Nothing follows a release, whose handle is gone, nor a poll.
    pub open spec fn poll_spec(&self, answer: u64) -> Option<EngineCall> {
        match self {
            EngineCall::InitCount { .. }
            | EngineCall::InitCountPager { .. }
            | EngineCall::InitCountType { .. }
            | EngineCall::InitClone { .. } => Some(EngineCall::GetError { sid: answer }),
            EngineCall::Destroy { .. } | EngineCall::GetError { .. } => None,
            _ => match self.session_spec() {
                Some(sid) => Some(EngineCall::GetError { sid }),
                None => None,
            },
        }
    }

    /// The register poll that has to follow this call.
    #[verifier::when_used_as_spec(poll_spec)]
    pub fn poll(&self, answer: u64) -> (p: Option<EngineCall>)
        ensures
            p == self.poll_spec(answer),
    {
        match self {
            EngineCall::InitCount { .. }
            | EngineCall::InitCountPager { .. }
            | EngineCall::InitCountType { .. }
            | EngineCall::InitClone { .. } => Some(EngineCall::GetError { sid: answer }),
            EngineCall::Destroy { .. } | EngineCall::GetError { .. } => None,
            _ => match self.session() {
                Some(sid) => Some(EngineCall::GetError { sid }),
                None => None,
            },
        }
    }
}

} // verus!

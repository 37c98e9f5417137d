//! Unconditional unitaries on one qubit, on two, or on a list.

use crate::call::{Axis, EngineCall, Exchange, Fourier, Gate, Matrix, Real};
use crate::error::{checked, QrackError};
use crate::pauli::Pauli;
use crate::qrack_simulator::QrackSimulator;
use vstd::prelude::*;

verus! {

impl QrackSimulator {
    /// Applies the Pauli X gate, a logical NOT, to the qubit `q`.
    pub fn x(&self, q: u64) -> (call: EngineCall)
        requires
            self.is_live(),
        ensures
            call == (EngineCall::Gate { sid: self.handle(), gate: Gate::X, target: q }),
    {
        EngineCall::Gate { sid: self.get_sid(), gate: Gate::X, target: q }
    }

    /// Applies the Pauli Y gate to the qubit `q`.
    pub fn y(&self, q: u64) -> (call: EngineCall)
        requires
            self.is_live(),
        ensures
            call == (EngineCall::Gate { sid: self.handle(), gate: Gate::Y, target: q }),
    {
        EngineCall::Gate { sid: self.get_sid(), gate: Gate::Y, target: q }
    }

    /// Applies the Pauli Z gate, a phase flip of |1>, to the qubit `q`.
    pub fn z(&self, q: u64) -> (call: EngineCall)
        requires
            self.is_live(),
        ensures
            call == (EngineCall::Gate { sid: self.handle(), gate: Gate::Z, target: q }),
    {
        EngineCall::Gate { sid: self.get_sid(), gate: Gate::Z, target: q }
    }

    /// Applies the Hadamard gate to the qubit `q`.
    pub fn h(&self, q: u64) -> (call: EngineCall)
        requires
            self.is_live(),
        ensures
            call == (EngineCall::Gate { sid: self.handle(), gate: Gate::H, target: q }),
    {
        EngineCall::Gate { sid: self.get_sid(), gate: Gate::H, target: q }
    }

    /// Applies the quarter-turn phase gate to the qubit `q`.
    pub fn s(&self, q: u64) -> (call: EngineCall)
        requires
            self.is_live(),
        ensures
            call == (EngineCall::Gate { sid: self.handle(), gate: Gate::S, target: q }),
    {
        EngineCall::Gate { sid: self.get_sid(), gate: Gate::S, target: q }
    }

    /// Applies the eighth-turn phase gate to the qubit `q`.
    pub fn t(&self, q: u64) -> (call: EngineCall)
        requires
            self.is_live(),
        ensures
            call == (EngineCall::Gate { sid: self.handle(), gate: Gate::T, target: q }),
    {
        EngineCall::Gate { sid: self.get_sid(), gate: Gate::T, target: q }
    }

    /// Applies the inverse of the quarter-turn phase gate to the qubit `q`.
    pub fn adjs(&self, q: u64) -> (call: EngineCall)
        requires
            self.is_live(),
        ensures
            call == (EngineCall::Gate { sid: self.handle(), gate: Gate::AdjS, target: q }),
    {
        EngineCall::Gate { sid: self.get_sid(), gate: Gate::AdjS, target: q }
    }

    /// Applies the inverse of the eighth-turn phase gate to the qubit `q`.
    pub fn adjt(&self, q: u64) -> (call: EngineCall)
        requires
            self.is_live(),
        ensures
            call == (EngineCall::Gate { sid: self.handle(), gate: Gate::AdjT, target: q }),
    {
        EngineCall::Gate { sid: self.get_sid(), gate: Gate::AdjT, target: q }
    }

    /// Applies the general single-qubit unitary with the angles `th`, `ph` and
    /// `la`, in that order, to the qubit `q`.
    pub fn u(&self, q: u64, th: Real, ph: Real, la: Real) -> (call: EngineCall)
        requires
            self.is_live(),
        ensures
            call == (EngineCall::U { sid: self.handle(), target: q, theta: th, phi: ph, lambda: la }),
    {
        EngineCall::U { sid: self.get_sid(), target: q, theta: th, phi: ph, lambda: la }
    }

    /// Applies the 2x2 operator `m` to the qubit `q`.
    pub fn mtrx(&self, m: &Matrix, q: u64) -> (call: EngineCall)
        requires
            self.is_live(),
        ensures
            call == (EngineCall::Mtrx { sid: self.handle(), matrix: *m, target: q }),
    {
        EngineCall::Mtrx { sid: self.get_sid(), matrix: *m, target: q }
    }

    /// Rotates the qubit `q` by the angle `ph` about the axis `b`.
    pub fn r(&self, b: Pauli, ph: Real, q: u64) -> (call: EngineCall)
        requires
            self.is_live(),
        ensures
            call == (EngineCall::R { sid: self.handle(), basis: b, phi: ph, target: q }),
    {
        EngineCall::R { sid: self.get_sid(), basis: b, phi: ph, target: q }
    }

    /// Applies the exponential of `ph` times the tensor product of the bases
    /// `b`, each on its qubit of `q`. There must be as many bases as qubits.
    pub fn exp(&self, b: Vec<Pauli>, ph: Real, q: Vec<u64>) -> (r: Result<EngineCall, QrackError>)
        requires
            self.is_live(),
        ensures
            r == checked(
                b.len() == q.len(),
                (EngineCall::Exp { sid: self.handle(), bases: b, phi: ph, qubits: q }),
            ),
    {
        if b.len() != q.len() {
            return Err(QrackError::ShapeMismatch);
        }
        Ok(EngineCall::Exp { sid: self.get_sid(), bases: b, phi: ph, qubits: q })
    }

    /// Applies the Pauli X gate to each of the qubits `q`.
    pub fn mx(&self, q: Vec<u64>) -> (call: EngineCall)
        requires
            self.is_live(),
        ensures
            call == (EngineCall::MultiGate { sid: self.handle(), axis: Axis::X, qubits: q }),
    {
        EngineCall::MultiGate { sid: self.get_sid(), axis: Axis::X, qubits: q }
    }

    /// Applies the Pauli Y gate to each of the qubits `q`.
    pub fn my(&self, q: Vec<u64>) -> (call: EngineCall)
        requires
            self.is_live(),
        ensures
            call == (EngineCall::MultiGate { sid: self.handle(), axis: Axis::Y, qubits: q }),
    {
        EngineCall::MultiGate { sid: self.get_sid(), axis: Axis::Y, qubits: q }
    }

    /// Applies the Pauli Z gate to each of the qubits `q`.
    pub fn mz(&self, q: Vec<u64>) -> (call: EngineCall)
        requires
            self.is_live(),
        ensures
            call == (EngineCall::MultiGate { sid: self.handle(), axis: Axis::Z, qubits: q }),
    {
        EngineCall::MultiGate { sid: self.get_sid(), axis: Axis::Z, qubits: q }
    }

    /// Swaps the qubits `qi1` and `qi2`.
    pub fn swap(&self, qi1: u64, qi2: u64) -> (call: EngineCall)
        requires
            self.is_live(),
        ensures
            call == (EngineCall::Exchange { sid: self.handle(), gate: Exchange::Swap, first: qi1, second: qi2 }),
    {
        EngineCall::Exchange { sid: self.get_sid(), gate: Exchange::Swap, first: qi1, second: qi2 }
    }

    /// Swaps the qubits `qi1` and `qi2`, with a phase of `i` where they differ.
    pub fn iswap(&self, qi1: u64, qi2: u64) -> (call: EngineCall)
        requires
            self.is_live(),
        ensures
            call == (EngineCall::Exchange { sid: self.handle(), gate: Exchange::ISwap, first: qi1, second: qi2 }),
    {
        EngineCall::Exchange { sid: self.get_sid(), gate: Exchange::ISwap, first: qi1, second: qi2 }
    }

    /// Swaps the qubits `qi1` and `qi2`, with a phase of `-i` where they differ.
    pub fn adjiswap(&self, qi1: u64, qi2: u64) -> (call: EngineCall)
        requires
            self.is_live(),
        ensures
            call == (EngineCall::Exchange { sid: self.handle(), gate: Exchange::AdjISwap, first: qi1, second: qi2 }),
    {
        EngineCall::Exchange { sid: self.get_sid(), gate: Exchange::AdjISwap, first: qi1, second: qi2 }
    }

    /// Applies the fermionic simulation gate with the angles `th` and `ph` to
    /// the qubits `qi1` and `qi2`.
    pub fn fsim(&self, th: Real, ph: Real, qi1: u64, qi2: u64) -> (call: EngineCall)
        requires
            self.is_live(),
        ensures
            call == (EngineCall::FSim { sid: self.handle(), theta: th, phi: ph, first: qi1, second: qi2 }),
    {
        EngineCall::FSim { sid: self.get_sid(), theta: th, phi: ph, first: qi1, second: qi2 }
    }

    /// Applies the quantum Fourier transform to the qubits `qs`.
    pub fn qft(&self, qs: Vec<u64>) -> (call: EngineCall)
        requires
            self.is_live(),
        ensures
            call == (EngineCall::Fourier { sid: self.handle(), direction: Fourier::Forward, qubits: qs }),
    {
        EngineCall::Fourier { sid: self.get_sid(), direction: Fourier::Forward, qubits: qs }
    }

    /// Applies the inverse quantum Fourier transform to the qubits `qs`.
    pub fn iqft(&self, qs: Vec<u64>) -> (call: EngineCall)
        requires
            self.is_live(),
        ensures
            call == (EngineCall::Fourier { sid: self.handle(), direction: Fourier::Inverse, qubits: qs }),
    {
        EngineCall::Fourier { sid: self.get_sid(), direction: Fourier::Inverse, qubits: qs }
    }
}

} // verus!

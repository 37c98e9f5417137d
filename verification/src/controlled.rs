//! Unitaries gated on a list of control qubits, in both polarities.

use crate::call::{EngineCall, Gate, Matrix, Polarity, Real};
use crate::error::{checked, QrackError};
use crate::pauli::Pauli;
use crate::qrack_simulator::QrackSimulator;
use vstd::prelude::*;

verus! {

impl QrackSimulator {
    /// Applies the Pauli X gate to the qubit `q` if all controls `c` are
    /// |1>.
    pub fn mcx(&self, c: Vec<u64>, q: u64) -> (call: EngineCall)
        requires
            self.is_live(),
        ensures
            call == (EngineCall::ControlledGate { sid: self.handle(), polarity: Polarity::AllOnes, gate: Gate::X, controls: c, target: q }),
    {
        EngineCall::ControlledGate { sid: self.get_sid(), polarity: Polarity::AllOnes, gate: Gate::X, controls: c, target: q }
    }

    /// Applies the Pauli Y gate to the qubit `q` if all controls `c` are
    /// |1>.
    pub fn mcy(&self, c: Vec<u64>, q: u64) -> (call: EngineCall)
        requires
            self.is_live(),
        ensures
            call == (EngineCall::ControlledGate { sid: self.handle(), polarity: Polarity::AllOnes, gate: Gate::Y, controls: c, target: q }),
    {
        EngineCall::ControlledGate { sid: self.get_sid(), polarity: Polarity::AllOnes, gate: Gate::Y, controls: c, target: q }
    }

    /// Applies the Pauli Z gate to the qubit `q` if all controls `c` are
    /// |1>.
    pub fn mcz(&self, c: Vec<u64>, q: u64) -> (call: EngineCall)
        requires
            self.is_live(),
        ensures
            call == (EngineCall::ControlledGate { sid: self.handle(), polarity: Polarity::AllOnes, gate: Gate::Z, controls: c, target: q }),
    {
        EngineCall::ControlledGate { sid: self.get_sid(), polarity: Polarity::AllOnes, gate: Gate::Z, controls: c, target: q }
    }

    /// Applies the Hadamard gate to the qubit `q` if all controls `c` are
    /// |1>.
    pub fn mch(&self, c: Vec<u64>, q: u64) -> (call: EngineCall)
        requires
            self.is_live(),
        ensures
            call == (EngineCall::ControlledGate { sid: self.handle(), polarity: Polarity::AllOnes, gate: Gate::H, controls: c, target: q }),
    {
        EngineCall::ControlledGate { sid: self.get_sid(), polarity: Polarity::AllOnes, gate: Gate::H, controls: c, target: q }
    }

    /// Applies the quarter-turn phase gate to the qubit `q` if all controls `c` are
    /// |1>.
    pub fn mcs(&self, c: Vec<u64>, q: u64) -> (call: EngineCall)
        requires
            self.is_live(),
        ensures
            call == (EngineCall::ControlledGate { sid: self.handle(), polarity: Polarity::AllOnes, gate: Gate::S, controls: c, target: q }),
    {
        EngineCall::ControlledGate { sid: self.get_sid(), polarity: Polarity::AllOnes, gate: Gate::S, controls: c, target: q }
    }

    /// Applies the eighth-turn phase gate to the qubit `q` if all controls `c` are
    /// |1>.
    pub fn mct(&self, c: Vec<u64>, q: u64) -> (call: EngineCall)
        requires
            self.is_live(),
        ensures
            call == (EngineCall::ControlledGate { sid: self.handle(), polarity: Polarity::AllOnes, gate: Gate::T, controls: c, target: q }),
    {
        EngineCall::ControlledGate { sid: self.get_sid(), polarity: Polarity::AllOnes, gate: Gate::T, controls: c, target: q }
    }

    /// Applies the inverse quarter-turn phase gate to the qubit `q` if all controls `c` are
    /// |1>.
    pub fn mcadjs(&self, c: Vec<u64>, q: u64) -> (call: EngineCall)
        requires
            self.is_live(),
        ensures
            call == (EngineCall::ControlledGate { sid: self.handle(), polarity: Polarity::AllOnes, gate: Gate::AdjS, controls: c, target: q }),
    {
        EngineCall::ControlledGate { sid: self.get_sid(), polarity: Polarity::AllOnes, gate: Gate::AdjS, controls: c, target: q }
    }

    /// Applies the inverse eighth-turn phase gate to the qubit `q` if all controls `c` are
    /// |1>.
    pub fn mcadjt(&self, c: Vec<u64>, q: u64) -> (call: EngineCall)
        requires
            self.is_live(),
        ensures
            call == (EngineCall::ControlledGate { sid: self.handle(), polarity: Polarity::AllOnes, gate: Gate::AdjT, controls: c, target: q }),
    {
        EngineCall::ControlledGate { sid: self.get_sid(), polarity: Polarity::AllOnes, gate: Gate::AdjT, controls: c, target: q }
    }

    /// Applies the general unitary with the angles `th`, `ph` and `la` to the
    /// qubit `q` if all controls `c` are |1>.
    pub fn mcu(&self, c: Vec<u64>, q: u64, th: Real, ph: Real, la: Real) -> (call: EngineCall)
        requires
            self.is_live(),
        ensures
            call == (EngineCall::ControlledU { sid: self.handle(), polarity: Polarity::AllOnes, controls: c, target: q, theta: th, phi: ph, lambda: la }),
    {
        EngineCall::ControlledU { sid: self.get_sid(), polarity: Polarity::AllOnes, controls: c, target: q, theta: th, phi: ph, lambda: la }
    }

    /// Applies the 2x2 operator `m` to the qubit `q` if all controls `c` are
    /// |1>.
    pub fn mcmtrx(&self, c: Vec<u64>, m: &Matrix, q: u64) -> (call: EngineCall)
        requires
            self.is_live(),
        ensures
            call == (EngineCall::ControlledMtrx { sid: self.handle(), polarity: Polarity::AllOnes, controls: c, matrix: *m, target: q }),
    {
        EngineCall::ControlledMtrx { sid: self.get_sid(), polarity: Polarity::AllOnes, controls: c, matrix: *m, target: q }
    }

    /// Applies the Pauli X gate to the qubit `q` if all controls `c` are
    /// |0>.
    pub fn macx(&self, c: Vec<u64>, q: u64) -> (call: EngineCall)
        requires
            self.is_live(),
        ensures
            call == (EngineCall::ControlledGate { sid: self.handle(), polarity: Polarity::AllZeros, gate: Gate::X, controls: c, target: q }),
    {
        EngineCall::ControlledGate { sid: self.get_sid(), polarity: Polarity::AllZeros, gate: Gate::X, controls: c, target: q }
    }

    /// Applies the Pauli Y gate to the qubit `q` if all controls `c` are
    /// |0>.
    pub fn macy(&self, c: Vec<u64>, q: u64) -> (call: EngineCall)
        requires
            self.is_live(),
        ensures
            call == (EngineCall::ControlledGate { sid: self.handle(), polarity: Polarity::AllZeros, gate: Gate::Y, controls: c, target: q }),
    {
        EngineCall::ControlledGate { sid: self.get_sid(), polarity: Polarity::AllZeros, gate: Gate::Y, controls: c, target: q }
    }

    /// Applies the Pauli Z gate to the qubit `q` if all controls `c` are
    /// |0>.
    pub fn macz(&self, c: Vec<u64>, q: u64) -> (call: EngineCall)
        requires
            self.is_live(),
        ensures
            call == (EngineCall::ControlledGate { sid: self.handle(), polarity: Polarity::AllZeros, gate: Gate::Z, controls: c, target: q }),
    {
        EngineCall::ControlledGate { sid: self.get_sid(), polarity: Polarity::AllZeros, gate: Gate::Z, controls: c, target: q }
    }

    /// Applies the Hadamard gate to the qubit `q` if all controls `c` are
    /// |0>.
    pub fn mach(&self, c: Vec<u64>, q: u64) -> (call: EngineCall)
        requires
            self.is_live(),
        ensures
            call == (EngineCall::ControlledGate { sid: self.handle(), polarity: Polarity::AllZeros, gate: Gate::H, controls: c, target: q }),
    {
        EngineCall::ControlledGate { sid: self.get_sid(), polarity: Polarity::AllZeros, gate: Gate::H, controls: c, target: q }
    }

    /// Applies the quarter-turn phase gate to the qubit `q` if all controls `c` are
    /// |0>.
    pub fn macs(&self, c: Vec<u64>, q: u64) -> (call: EngineCall)
        requires
            self.is_live(),
        ensures
            call == (EngineCall::ControlledGate { sid: self.handle(), polarity: Polarity::AllZeros, gate: Gate::S, controls: c, target: q }),
    {
        EngineCall::ControlledGate { sid: self.get_sid(), polarity: Polarity::AllZeros, gate: Gate::S, controls: c, target: q }
    }

    /// Applies the eighth-turn phase gate to the qubit `q` if all controls `c` are
    /// |0>.
    pub fn mact(&self, c: Vec<u64>, q: u64) -> (call: EngineCall)
        requires
            self.is_live(),
        ensures
            call == (EngineCall::ControlledGate { sid: self.handle(), polarity: Polarity::AllZeros, gate: Gate::T, controls: c, target: q }),
    {
        EngineCall::ControlledGate { sid: self.get_sid(), polarity: Polarity::AllZeros, gate: Gate::T, controls: c, target: q }
    }

    /// Applies the inverse quarter-turn phase gate to the qubit `q` if all controls `c` are
    /// |0>.
    pub fn macadjs(&self, c: Vec<u64>, q: u64) -> (call: EngineCall)
        requires
            self.is_live(),
        ensures
            call == (EngineCall::ControlledGate { sid: self.handle(), polarity: Polarity::AllZeros, gate: Gate::AdjS, controls: c, target: q }),
    {
        EngineCall::ControlledGate { sid: self.get_sid(), polarity: Polarity::AllZeros, gate: Gate::AdjS, controls: c, target: q }
    }

    /// Applies the inverse eighth-turn phase gate to the qubit `q` if all controls `c` are
    /// |0>.
    pub fn macadjt(&self, c: Vec<u64>, q: u64) -> (call: EngineCall)
        requires
            self.is_live(),
        ensures
            call == (EngineCall::ControlledGate { sid: self.handle(), polarity: Polarity::AllZeros, gate: Gate::AdjT, controls: c, target: q }),
    {
        EngineCall::ControlledGate { sid: self.get_sid(), polarity: Polarity::AllZeros, gate: Gate::AdjT, controls: c, target: q }
    }

    /// Applies the general unitary with the angles `th`, `ph` and `la` to the
    /// qubit `q` if all controls `c` are |0>.
    pub fn macu(&self, c: Vec<u64>, q: u64, th: Real, ph: Real, la: Real) -> (call: EngineCall)
        requires
            self.is_live(),
        ensures
            call == (EngineCall::ControlledU { sid: self.handle(), polarity: Polarity::AllZeros, controls: c, target: q, theta: th, phi: ph, lambda: la }),
    {
        EngineCall::ControlledU { sid: self.get_sid(), polarity: Polarity::AllZeros, controls: c, target: q, theta: th, phi: ph, lambda: la }
    }

    /// Applies the 2x2 operator `m` to the qubit `q` if all controls `c` are
    /// |0>.
    pub fn macmtrx(&self, c: Vec<u64>, m: &Matrix, q: u64) -> (call: EngineCall)
        requires
            self.is_live(),
        ensures
            call == (EngineCall::ControlledMtrx { sid: self.handle(), polarity: Polarity::AllZeros, controls: c, matrix: *m, target: q }),
    {
        EngineCall::ControlledMtrx { sid: self.get_sid(), polarity: Polarity::AllZeros, controls: c, matrix: *m, target: q }
    }

    /// Applies the 2x2 operator `m` to the qubit `q` if the controls `c`, read
    /// as bits in their order, spell the pattern `p`.
    pub fn ucmtrx(&self, c: Vec<u64>, m: &Matrix, q: u64, p: u64) -> (call: EngineCall)
        requires
            self.is_live(),
        ensures
            call == (EngineCall::UCMtrx { sid: self.handle(), controls: c, matrix: *m, target: q, pattern: p }),
    {
        EngineCall::UCMtrx { sid: self.get_sid(), controls: c, matrix: *m, target: q, pattern: p }
    }

    /// Applies to the qubit `q` the one of the operators in `m` that the
    /// controls `c` select.
    pub fn multiplex1_mtrx(&self, c: Vec<u64>, q: u64, m: Vec<Real>) -> (call: EngineCall)
        requires
            self.is_live(),
        ensures
            call == (EngineCall::Multiplex1Mtrx { sid: self.handle(), controls: c, target: q, matrices: m }),
    {
        EngineCall::Multiplex1Mtrx { sid: self.get_sid(), controls: c, target: q, matrices: m }
    }

    /// Rotates the qubit `q` by the angle `ph` about the axis `b` if all
    /// controls `c` are |1>.
    pub fn mcr(&self, b: Pauli, ph: Real, c: Vec<u64>, q: u64) -> (call: EngineCall)
        requires
            self.is_live(),
        ensures
            call == (EngineCall::MCR { sid: self.handle(), basis: b, phi: ph, controls: c, target: q }),
    {
        EngineCall::MCR { sid: self.get_sid(), basis: b, phi: ph, controls: c, target: q }
    }

    /// Applies the exponential of `ph` times the tensor product of the bases
    /// `b`, each on its qubit of `q`, if all controls `cs` are |1>. There must
    /// be as many bases as qubits.
    pub fn mcexp(&self, b: Vec<Pauli>, ph: Real, cs: Vec<u64>, q: Vec<u64>) -> (r: Result<EngineCall, QrackError>)
        requires
            self.is_live(),
        ensures
            r == checked(
                b.len() == q.len(),
                (EngineCall::MCExp { sid: self.handle(), bases: b, phi: ph, controls: cs, qubits: q }),
            ),
    {
        if b.len() != q.len() {
            return Err(QrackError::ShapeMismatch);
        }
        Ok(EngineCall::MCExp { sid: self.get_sid(), bases: b, phi: ph, controls: cs, qubits: q })
    }

    /// Swaps the qubits `qi1` and `qi2` if all controls `c` are |1>.
    pub fn cswap(&self, c: Vec<u64>, qi1: u64, qi2: u64) -> (call: EngineCall)
        requires
            self.is_live(),
        ensures
            call == (EngineCall::ControlledSwap { sid: self.handle(), polarity: Polarity::AllOnes, controls: c, first: qi1, second: qi2 }),
    {
        EngineCall::ControlledSwap { sid: self.get_sid(), polarity: Polarity::AllOnes, controls: c, first: qi1, second: qi2 }
    }

    /// Swaps the qubits `qi1` and `qi2` if all controls `c` are |0>.
    pub fn acswap(&self, c: Vec<u64>, qi1: u64, qi2: u64) -> (call: EngineCall)
        requires
            self.is_live(),
        ensures
            call == (EngineCall::ControlledSwap { sid: self.handle(), polarity: Polarity::AllZeros, controls: c, first: qi1, second: qi2 }),
    {
        EngineCall::ControlledSwap { sid: self.get_sid(), polarity: Polarity::AllZeros, controls: c, first: qi1, second: qi2 }
    }
}

} // verus!

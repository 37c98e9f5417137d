//! Measurement: collapse of one qubit or of all, joint measurement in Pauli
//! bases, and sampling without collapse.

use crate::call::EngineCall;
use crate::error::{checked, QrackError};
use crate::pauli::Pauli;
use crate::qrack_simulator::QrackSimulator;
use vstd::prelude::*;

verus! {

/// A buffer of `shots` zeroed entries for the engine to write one sampled
/// outcome into each.
pub fn shot_buffer(shots: u64) -> (buffer: Vec<u64>)
    requires
        shots <= usize::MAX,
    ensures
        buffer@ == Seq::new(shots as nat, |i: int| 0u64),
{
    let mut buffer: Vec<u64> = Vec::new();
    let mut i: u64 = 0;
    while i < shots
        invariant
            i <= shots,
            buffer@ == Seq::new(i as nat, |j: int| 0u64),
        decreases shots - i,
    {
        buffer.push(0);
        i = i + 1;
        assert(buffer@ =~= Seq::new(i as nat, |j: int| 0u64));
    }
    buffer
}

impl QrackSimulator {
    /// Measures the qubit `q`.
    pub fn m(&self, q: u64) -> (call: EngineCall)
        requires
            self.is_live(),
        ensures
            call == (EngineCall::M { sid: self.handle(), target: q }),
    {
        EngineCall::M { sid: self.get_sid(), target: q }
    }

    /// Collapses the qubit `q` as if it had been measured with the outcome
    /// `r`.
    pub fn force_m(&self, q: u64, r: bool) -> (call: EngineCall)
        requires
            self.is_live(),
        ensures
            call == (EngineCall::ForceM { sid: self.handle(), target: q, outcome: r }),
    {
        EngineCall::ForceM { sid: self.get_sid(), target: q, outcome: r }
    }

    /// Measures all qubits.
    pub fn m_all(&self) -> (call: EngineCall)
        requires
            self.is_live(),
        ensures
            call == (EngineCall::MAll { sid: self.handle() }),
    {
        EngineCall::MAll { sid: self.get_sid() }
    }

    /// Measures the qubits `q` jointly, each in its basis of `b`. There must
    /// be as many bases as qubits.
    pub fn measure_pauli(&self, b: Vec<Pauli>, q: Vec<u64>) -> (r: Result<EngineCall, QrackError>)
        requires
            self.is_live(),
        ensures
            r == checked(
                b.len() == q.len(),
                (EngineCall::Measure { sid: self.handle(), bases: b, qubits: q }),
            ),
    {
        if b.len() != q.len() {
            return Err(QrackError::ShapeMismatch);
        }
        Ok(EngineCall::Measure { sid: self.get_sid(), bases: b, qubits: q })
    }

    /// Samples the qubits `q` `s` times without collapsing them. The engine
    /// writes one outcome per shot.
    pub fn measure_shots(&self, q: Vec<u64>, s: u64) -> (call: EngineCall)
        requires
            self.is_live(),
        ensures
            call == (EngineCall::MeasureShots { sid: self.handle(), qubits: q, shots: s }),
    {
        EngineCall::MeasureShots { sid: self.get_sid(), qubits: q, shots: s }
    }

    /// Resets all qubits to |0>.
    pub fn reset_all(&self) -> (call: EngineCall)
        requires
            self.is_live(),
        ensures
            call == (EngineCall::ResetAll { sid: self.handle() }),
    {
        EngineCall::ResetAll { sid: self.get_sid() }
    }
}

} // verus!

//! Operations that change which qubits a session holds.

use crate::call::EngineCall;
use crate::qrack_simulator::{Phase, QrackSimulator};
use vstd::prelude::*;

verus! {

impl QrackSimulator {
    /// Adds one qubit, known as `qid`, to the session.
    pub fn allocate_qubit(&self, qid: u64) -> (call: EngineCall)
        requires
            self.is_live(),
        ensures
            call == (EngineCall::AllocateQubit { sid: self.handle(), qubit: qid }),
    {
        EngineCall::AllocateQubit { sid: self.get_sid(), qubit: qid }
    }

    /// Removes the qubit `q` from the session.
    pub fn release(&self, q: u64) -> (call: EngineCall)
        requires
            self.is_live(),
        ensures
            call == (EngineCall::Release { sid: self.handle(), qubit: q }),
    {
        EngineCall::Release { sid: self.get_sid(), qubit: q }
    }

    /// Asks for the number of qubits in the session.
    pub fn num_qubits(&self) -> (call: EngineCall)
        requires
            self.is_live(),
        ensures
            call == (EngineCall::NumQubits { sid: self.handle() }),
    {
        EngineCall::NumQubits { sid: self.get_sid() }
    }

    /// Discards the qubits `q`, which must be separable from the rest.
    pub fn dispose(&self, q: Vec<u64>) -> (call: EngineCall)
        requires
            self.is_live(),
        ensures
            call == (EngineCall::Dispose { sid: self.handle(), qubits: q }),
    {
        EngineCall::Dispose { sid: self.get_sid(), qubits: q }
    }

    /// Absorbs the qubits `q` of `other` into this session. The handle of
    /// `other` is read and stays with `other`.
    pub fn compose(&self, other: &QrackSimulator, q: Vec<u64>) -> (call: EngineCall)
        requires
            self.is_live(),
            other.is_live(),
        ensures
            call == (EngineCall::Compose { sid: self.handle(), other: other.handle(), qubits: q }),
    {
        EngineCall::Compose { sid: self.get_sid(), other: other.get_sid(), qubits: q }
    }

    /// Plans the extraction of the qubits `q`, which must be separable from
    /// the rest, into a session of their own. Returns that session, still
    /// under construction, and the call to make.
    pub fn decompose(&self, q: Vec<u64>) -> (r: (QrackSimulator, EngineCall))
        requires
            self.is_live(),
        ensures
            r.0.phase() == Phase::Constructing,
            r.1 == (EngineCall::Decompose { sid: self.handle(), qubits: q }),
    {
        (QrackSimulator::unattached(), EngineCall::Decompose { sid: self.get_sid(), qubits: q })
    }
}

} // verus!

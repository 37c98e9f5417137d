//! Queries that leave the state as it is, and the engine's tuning knobs.

use crate::call::{EngineCall, Real};
use crate::error::{checked, QrackError};
use crate::pauli::Pauli;
use crate::qrack_simulator::QrackSimulator;
use vstd::prelude::*;

verus! {

impl QrackSimulator {
    /// Seeds the session's random number generator.
    pub fn seed(&self, s: u64) -> (call: EngineCall)
        requires
            self.is_live(),
        ensures
            call == (EngineCall::Seed { sid: self.handle(), seed: s }),
    {
        EngineCall::Seed { sid: self.get_sid(), seed: s }
    }

    /// Tells the engine how many threads it may use for this session.
    pub fn set_concurrency(&self, p: u64) -> (call: EngineCall)
        requires
            self.is_live(),
        ensures
            call == (EngineCall::SetConcurrency { sid: self.handle(), threads: p }),
    {
        EngineCall::SetConcurrency { sid: self.get_sid(), threads: p }
    }

    /// Asks for the probability that each qubit of `q` has the value at the
    /// same place in `c`. There must be as many values as qubits.
    pub fn prob_perm(&self, q: Vec<u64>, c: Vec<bool>) -> (r: Result<EngineCall, QrackError>)
        requires
            self.is_live(),
        ensures
            r == checked(
                q.len() == c.len(),
                (EngineCall::PermutationProb { sid: self.handle(), qubits: q, values: c }),
            ),
    {
        if q.len() != c.len() {
            return Err(QrackError::ShapeMismatch);
        }
        Ok(EngineCall::PermutationProb { sid: self.get_sid(), qubits: q, values: c })
    }

    /// Asks for the probability that the qubit `q` is |1>.
    pub fn prob(&self, q: u64) -> (call: EngineCall)
        requires
            self.is_live(),
        ensures
            call == (EngineCall::Prob { sid: self.handle(), target: q }),
    {
        EngineCall::Prob { sid: self.get_sid(), target: q }
    }

    /// Asks for the expectation value of the integer that the qubits `c` spell,
    /// in their order.
    pub fn permutation_expectation(&self, c: Vec<u64>) -> (call: EngineCall)
        requires
            self.is_live(),
        ensures
            call == (EngineCall::PermutationExpectation { sid: self.handle(), qubits: c }),
    {
        EngineCall::PermutationExpectation { sid: self.get_sid(), qubits: c }
    }

    /// Asks for the joint probability of the qubits `q`, each in its basis of
    /// `b`. There must be as many bases as qubits.
    pub fn joint_ensemble_probability(&self, b: Vec<Pauli>, q: Vec<u64>) -> (r: Result<EngineCall, QrackError>)
        requires
            self.is_live(),
        ensures
            r == checked(
                b.len() == q.len(),
                (EngineCall::JointEnsembleProbability { sid: self.handle(), bases: b, qubits: q }),
            ),
    {
        if b.len() != q.len() {
            return Err(QrackError::ShapeMismatch);
        }
        Ok(EngineCall::JointEnsembleProbability { sid: self.get_sid(), bases: b, qubits: q })
    }

    /// Applies the phase `la` to the states of odd parity over the qubits `q`.
    pub fn phase_parity(&self, la: Real, q: Vec<u64>) -> (call: EngineCall)
        requires
            self.is_live(),
        ensures
            call == (EngineCall::PhaseParity { sid: self.handle(), lambda: la, qubits: q }),
    {
        EngineCall::PhaseParity { sid: self.get_sid(), lambda: la, qubits: q }
    }

    /// Asks the engine to try to separate the qubit `qi1` from the rest.
    pub fn try_separate_1qb(&self, qi1: u64) -> (call: EngineCall)
        requires
            self.is_live(),
        ensures
            call == (EngineCall::TrySeparate1Qb { sid: self.handle(), target: qi1 }),
    {
        EngineCall::TrySeparate1Qb { sid: self.get_sid(), target: qi1 }
    }

    /// Asks the engine to try to separate the qubits `qi1` and `qi2` from the
    /// rest.
    pub fn try_separate_2qb(&self, qi1: u64, qi2: u64) -> (call: EngineCall)
        requires
            self.is_live(),
        ensures
            call == (EngineCall::TrySeparate2Qb { sid: self.handle(), first: qi1, second: qi2 }),
    {
        EngineCall::TrySeparate2Qb { sid: self.get_sid(), first: qi1, second: qi2 }
    }

    /// Asks the engine to try to separate the qubits `qs` from the rest, within
    /// the rounding tolerance `t`.
    pub fn try_separate_tolerance(&self, qs: Vec<u64>, t: Real) -> (call: EngineCall)
        requires
            self.is_live(),
        ensures
            call == (EngineCall::TrySeparateTol { sid: self.handle(), qubits: qs, tolerance: t }),
    {
        EngineCall::TrySeparateTol { sid: self.get_sid(), qubits: qs, tolerance: t }
    }

    /// Asks for the engine's estimate of the fidelity lost to rounding so far.
    pub fn get_unitary_fidelity(&self) -> (call: EngineCall)
        requires
            self.is_live(),
        ensures
            call == (EngineCall::GetUnitaryFidelity { sid: self.handle() }),
    {
        EngineCall::GetUnitaryFidelity { sid: self.get_sid() }
    }

    /// Resets the engine's fidelity estimate to one.
    pub fn reset_unitary_fidelity(&self) -> (call: EngineCall)
        requires
            self.is_live(),
        ensures
            call == (EngineCall::ResetUnitaryFidelity { sid: self.handle() }),
    {
        EngineCall::ResetUnitaryFidelity { sid: self.get_sid() }
    }

    /// Sets the rounding parameter of approximate simulation.
    pub fn set_sdrp(&self, sdrp: Real) -> (call: EngineCall)
        requires
            self.is_live(),
        ensures
            call == (EngineCall::SetSdrp { sid: self.handle(), sdrp: sdrp }),
    {
        EngineCall::SetSdrp { sid: self.get_sid(), sdrp: sdrp }
    }

    /// Turns the engine's reactive separation on or off.
    pub fn set_reactive_separate(&self, irs: bool) -> (call: EngineCall)
        requires
            self.is_live(),
        ensures
            call == (EngineCall::SetReactiveSeparate { sid: self.handle(), on: irs }),
    {
        EngineCall::SetReactiveSeparate { sid: self.get_sid(), on: irs }
    }

    /// Turns the engine's T-gate injection on or off.
    pub fn set_t_injection(&self, iti: bool) -> (call: EngineCall)
        requires
            self.is_live(),
        ensures
            call == (EngineCall::SetTInjection { sid: self.handle(), on: iti }),
    {
        EngineCall::SetTInjection { sid: self.get_sid(), on: iti }
    }
}

} // verus!

//! Boolean gates on two inputs, the left one a qubit or a classical bit.

use crate::call::{EngineCall, Logic};
use crate::qrack_simulator::QrackSimulator;
use vstd::prelude::*;

verus! {

impl QrackSimulator {
    /// Stores the AND of the qubits `qi1` and `qi2` in the qubit `qo`.
    pub fn qand(&self, qi1: u64, qi2: u64, qo: u64) -> (call: EngineCall)
        requires
            self.is_live(),
        ensures
            call == (EngineCall::Logic { sid: self.handle(), op: Logic::And, first: qi1, second: qi2, output: qo }),
    {
        EngineCall::Logic { sid: self.get_sid(), op: Logic::And, first: qi1, second: qi2, output: qo }
    }

    /// Stores the OR of the qubits `qi1` and `qi2` in the qubit `qo`.
    pub fn qor(&self, qi1: u64, qi2: u64, qo: u64) -> (call: EngineCall)
        requires
            self.is_live(),
        ensures
            call == (EngineCall::Logic { sid: self.handle(), op: Logic::Or, first: qi1, second: qi2, output: qo }),
    {
        EngineCall::Logic { sid: self.get_sid(), op: Logic::Or, first: qi1, second: qi2, output: qo }
    }

    /// Stores the XOR of the qubits `qi1` and `qi2` in the qubit `qo`.
    pub fn qxor(&self, qi1: u64, qi2: u64, qo: u64) -> (call: EngineCall)
        requires
            self.is_live(),
        ensures
            call == (EngineCall::Logic { sid: self.handle(), op: Logic::Xor, first: qi1, second: qi2, output: qo }),
    {
        EngineCall::Logic { sid: self.get_sid(), op: Logic::Xor, first: qi1, second: qi2, output: qo }
    }

    /// Stores the NAND of the qubits `qi1` and `qi2` in the qubit `qo`.
    pub fn qnand(&self, qi1: u64, qi2: u64, qo: u64) -> (call: EngineCall)
        requires
            self.is_live(),
        ensures
            call == (EngineCall::Logic { sid: self.handle(), op: Logic::Nand, first: qi1, second: qi2, output: qo }),
    {
        EngineCall::Logic { sid: self.get_sid(), op: Logic::Nand, first: qi1, second: qi2, output: qo }
    }

    /// Stores the NOR of the qubits `qi1` and `qi2` in the qubit `qo`.
    pub fn qnor(&self, qi1: u64, qi2: u64, qo: u64) -> (call: EngineCall)
        requires
            self.is_live(),
        ensures
            call == (EngineCall::Logic { sid: self.handle(), op: Logic::Nor, first: qi1, second: qi2, output: qo }),
    {
        EngineCall::Logic { sid: self.get_sid(), op: Logic::Nor, first: qi1, second: qi2, output: qo }
    }

    /// Stores the XNOR of the qubits `qi1` and `qi2` in the qubit `qo`.
    pub fn qxnor(&self, qi1: u64, qi2: u64, qo: u64) -> (call: EngineCall)
        requires
            self.is_live(),
        ensures
            call == (EngineCall::Logic { sid: self.handle(), op: Logic::Xnor, first: qi1, second: qi2, output: qo }),
    {
        EngineCall::Logic { sid: self.get_sid(), op: Logic::Xnor, first: qi1, second: qi2, output: qo }
    }

    /// Stores the AND of the classical bit `ci` and the qubit `qi` in the
    /// qubit `qo`.
    pub fn cland(&self, ci: bool, qi: u64, qo: u64) -> (call: EngineCall)
        requires
            self.is_live(),
        ensures
            call == (EngineCall::ClassicalLogic { sid: self.handle(), op: Logic::And, bit: ci, input: qi, output: qo }),
    {
        EngineCall::ClassicalLogic { sid: self.get_sid(), op: Logic::And, bit: ci, input: qi, output: qo }
    }

    /// Stores the OR of the classical bit `ci` and the qubit `qi` in the
    /// qubit `qo`.
    pub fn clor(&self, ci: bool, qi: u64, qo: u64) -> (call: EngineCall)
        requires
            self.is_live(),
        ensures
            call == (EngineCall::ClassicalLogic { sid: self.handle(), op: Logic::Or, bit: ci, input: qi, output: qo }),
    {
        EngineCall::ClassicalLogic { sid: self.get_sid(), op: Logic::Or, bit: ci, input: qi, output: qo }
    }

    /// Stores the XOR of the classical bit `ci` and the qubit `qi` in the
    /// qubit `qo`.
    pub fn clxor(&self, ci: bool, qi: u64, qo: u64) -> (call: EngineCall)
        requires
            self.is_live(),
        ensures
            call == (EngineCall::ClassicalLogic { sid: self.handle(), op: Logic::Xor, bit: ci, input: qi, output: qo }),
    {
        EngineCall::ClassicalLogic { sid: self.get_sid(), op: Logic::Xor, bit: ci, input: qi, output: qo }
    }

    /// Stores the NAND of the classical bit `ci` and the qubit `qi` in the
    /// qubit `qo`.
    pub fn clnand(&self, ci: bool, qi: u64, qo: u64) -> (call: EngineCall)
        requires
            self.is_live(),
        ensures
            call == (EngineCall::ClassicalLogic { sid: self.handle(), op: Logic::Nand, bit: ci, input: qi, output: qo }),
    {
        EngineCall::ClassicalLogic { sid: self.get_sid(), op: Logic::Nand, bit: ci, input: qi, output: qo }
    }

    /// Stores the NOR of the classical bit `ci` and the qubit `qi` in the
    /// qubit `qo`.
    pub fn clnor(&self, ci: bool, qi: u64, qo: u64) -> (call: EngineCall)
        requires
            self.is_live(),
        ensures
            call == (EngineCall::ClassicalLogic { sid: self.handle(), op: Logic::Nor, bit: ci, input: qi, output: qo }),
    {
        EngineCall::ClassicalLogic { sid: self.get_sid(), op: Logic::Nor, bit: ci, input: qi, output: qo }
    }

    /// Stores the XNOR of the classical bit `ci` and the qubit `qi` in the
    /// qubit `qo`.
    pub fn clxnor(&self, ci: bool, qi: u64, qo: u64) -> (call: EngineCall)
        requires
            self.is_live(),
        ensures
            call == (EngineCall::ClassicalLogic { sid: self.handle(), op: Logic::Xnor, bit: ci, input: qi, output: qo }),
    {
        EngineCall::ClassicalLogic { sid: self.get_sid(), op: Logic::Xnor, bit: ci, input: qi, output: qo }
    }
}

} // verus!

//! Classical tables loaded into pairs of qubit registers. A table is checked
//! against the registers' lengths before the engine sees it, since the
//! engine reads as many bytes as the registers call for.

use crate::call::{Carry, EngineCall};
use crate::error::{checked, QrackError};
use crate::qrack_simulator::QrackSimulator;
use crate::shape::{hash_table_fits, hash_table_large_enough, table_fits, table_large_enough};
use vstd::prelude::*;

verus! {

impl QrackSimulator {
    /// Loads the table `t`, indexed by the register `qi`, into the register
    /// `qv`. The table must hold `2^|qi| * |qv|` bits.
    pub fn lda(&self, qi: Vec<u64>, qv: Vec<u64>, t: Vec<u8>) -> (r: Result<
        EngineCall,
        QrackError,
    >)
        requires
            self.is_live(),
        ensures
            r == checked(
                table_fits(qi.len() as nat, qv.len() as nat, t.len() as nat),
                (EngineCall::Lda { sid: self.handle(), index: qi, value: qv, table: t }),
            ),
    {
        if !table_large_enough(qi.len(), qv.len(), t.len()) {
            return Err(QrackError::ShapeMismatch);
        }
        Ok(EngineCall::Lda { sid: self.get_sid(), index: qi, value: qv, table: t })
    }

    /// Adds the entry of the table `t` that the register `qi` selects to the
    /// register `qv`, with the carry qubit `s`. The table must hold
    /// `2^|qi| * |qv|` bits.
    pub fn adc(&self, s: u64, qi: Vec<u64>, qv: Vec<u64>, t: Vec<u8>) -> (r: Result<
        EngineCall,
        QrackError,
    >)
        requires
            self.is_live(),
        ensures
            r == checked(
                table_fits(qi.len() as nat, qv.len() as nat, t.len() as nat),
                (EngineCall::CarryTable {
                    sid: self.handle(),
                    op: Carry::Adc,
                    carry: s,
                    index: qi,
                    value: qv,
                    table: t,
                }),
            ),
    {
        if !table_large_enough(qi.len(), qv.len(), t.len()) {
            return Err(QrackError::ShapeMismatch);
        }
        Ok(EngineCall::CarryTable {
            sid: self.get_sid(),
            op: Carry::Adc,
            carry: s,
            index: qi,
            value: qv,
            table: t,
        })
    }

    /// Subtracts the entry of the table `t` that the register `qi` selects
    /// from the register `qv`, with the carry qubit `s`. The table must hold
    /// `2^|qi| * |qv|` bits.
    pub fn sbc(&self, s: u64, qi: Vec<u64>, qv: Vec<u64>, t: Vec<u8>) -> (r: Result<
        EngineCall,
        QrackError,
    >)
        requires
            self.is_live(),
        ensures
            r == checked(
                table_fits(qi.len() as nat, qv.len() as nat, t.len() as nat),
                (EngineCall::CarryTable {
                    sid: self.handle(),
                    op: Carry::Sbc,
                    carry: s,
                    index: qi,
                    value: qv,
                    table: t,
                }),
            ),
    {
        if !table_large_enough(qi.len(), qv.len(), t.len()) {
            return Err(QrackError::ShapeMismatch);
        }
        Ok(EngineCall::CarryTable {
            sid: self.get_sid(),
            op: Carry::Sbc,
            carry: s,
            index: qi,
            value: qv,
            table: t,
        })
    }

    /// Replaces the value of the register `q` by its entry in the table `t`.
    /// The table must hold `2^|q|` bits.
    pub fn hash(&self, q: Vec<u64>, t: Vec<u8>) -> (r: Result<EngineCall, QrackError>)
        requires
            self.is_live(),
        ensures
            r == checked(
                hash_table_fits(q.len() as nat, t.len() as nat),
                (EngineCall::Hash { sid: self.handle(), qubits: q, table: t }),
            ),
    {
        if !hash_table_large_enough(q.len(), t.len()) {
            return Err(QrackError::ShapeMismatch);
        }
        Ok(EngineCall::Hash { sid: self.get_sid(), qubits: q, table: t })
    }
}

} // verus!

//! Arithmetic on qubit registers: classical integers, given as words from
//! low to high, are added to, multiplied into or taken as powers of a
//! register.

use crate::call::{EngineCall, Modular, Product, Sum};
use crate::error::{checked, QrackError};
use crate::qrack_simulator::QrackSimulator;
use vstd::prelude::*;

verus! {

impl QrackSimulator {
    /// Adds the integer `a` to the register `q`.
    pub fn add(&self, a: Vec<u64>, q: Vec<u64>) -> (call: EngineCall)
        requires
            self.is_live(),
        ensures
            call == (EngineCall::Sum { sid: self.handle(), op: Sum::Add, value: a, qubits: q }),
    {
        EngineCall::Sum { sid: self.get_sid(), op: Sum::Add, value: a, qubits: q }
    }

    /// Subtracts the integer `a` from the register `q`.
    pub fn sub(&self, a: Vec<u64>, q: Vec<u64>) -> (call: EngineCall)
        requires
            self.is_live(),
        ensures
            call == (EngineCall::Sum { sid: self.handle(), op: Sum::Sub, value: a, qubits: q }),
    {
        EngineCall::Sum { sid: self.get_sid(), op: Sum::Sub, value: a, qubits: q }
    }

    /// Adds the signed integer `a` to the register `q`; the qubit `s` takes
    /// the overflow.
    pub fn adds(&self, a: Vec<u64>, s: u64, q: Vec<u64>) -> (call: EngineCall)
        requires
            self.is_live(),
        ensures
            call == (EngineCall::SignedSum {
                sid: self.handle(),
                op: Sum::Add,
                value: a,
                overflow: s,
                qubits: q,
            }),
    {
        EngineCall::SignedSum { sid: self.get_sid(), op: Sum::Add, value: a, overflow: s, qubits: q }
    }

    /// Subtracts the signed integer `a` from the register `q`; the qubit `s`
    /// takes the overflow.
    pub fn subs(&self, a: Vec<u64>, s: u64, q: Vec<u64>) -> (call: EngineCall)
        requires
            self.is_live(),
        ensures
            call == (EngineCall::SignedSum {
                sid: self.handle(),
                op: Sum::Sub,
                value: a,
                overflow: s,
                qubits: q,
            }),
    {
        EngineCall::SignedSum { sid: self.get_sid(), op: Sum::Sub, value: a, overflow: s, qubits: q }
    }

    /// Multiplies the register `q` by the integer `a`. The carry register
    /// `o` must be as long as `q`.
    pub fn mul(&self, a: Vec<u64>, q: Vec<u64>, o: Vec<u64>) -> (r: Result<EngineCall, QrackError>)
        requires
            self.is_live(),
        ensures
            r == checked(
                q.len() == o.len(),
                (EngineCall::Product {
                    sid: self.handle(),
                    op: Product::Mul,
                    value: a,
                    qubits: q,
                    carry: o,
                }),
            ),
    {
        if q.len() != o.len() {
            return Err(QrackError::ShapeMismatch);
        }
        Ok(EngineCall::Product { sid: self.get_sid(), op: Product::Mul, value: a, qubits: q, carry: o })
    }

    /// Undoes a multiplication of the register `q` by the integer `a`. The
    /// carry register `o` must be as long as `q`.
    pub fn div(&self, a: Vec<u64>, q: Vec<u64>, o: Vec<u64>) -> (r: Result<EngineCall, QrackError>)
        requires
            self.is_live(),
        ensures
            r == checked(
                q.len() == o.len(),
                (EngineCall::Product {
                    sid: self.handle(),
                    op: Product::Div,
                    value: a,
                    qubits: q,
                    carry: o,
                }),
            ),
    {
        if q.len() != o.len() {
            return Err(QrackError::ShapeMismatch);
        }
        Ok(EngineCall::Product { sid: self.get_sid(), op: Product::Div, value: a, qubits: q, carry: o })
    }

    /// Plans one of the modular operations, after checking that the value
    /// `a` is as long as the modulus `m` and the register `q` as long as the
    /// result register `o`.
    fn modular(
        &self,
        op: Modular,
        a: Vec<u64>,
        m: Vec<u64>,
        q: Vec<u64>,
        o: Vec<u64>,
    ) -> (r: Result<EngineCall, QrackError>)
        ensures
            r == checked(
                a.len() == m.len() && q.len() == o.len(),
                (EngineCall::Modular {
                    sid: self.handle(),
                    op,
                    value: a,
                    modulus: m,
                    qubits: q,
                    output: o,
                }),
            ),
    {
        if a.len() != m.len() {
            return Err(QrackError::ShapeMismatch);
        }
        if q.len() != o.len() {
            return Err(QrackError::ShapeMismatch);
        }
        Ok(EngineCall::Modular {
            sid: self.get_sid(),
            op,
            value: a,
            modulus: m,
            qubits: q,
            output: o,
        })
    }

    /// Multiplies the register `q` by `a` modulo `m` into the result
    /// register `o`.
    pub fn muln(&self, a: Vec<u64>, m: Vec<u64>, q: Vec<u64>, o: Vec<u64>) -> (r: Result<
        EngineCall,
        QrackError,
    >)
        requires
            self.is_live(),
        ensures
            r == checked(
                a.len() == m.len() && q.len() == o.len(),
                (EngineCall::Modular {
                    sid: self.handle(),
                    op: Modular::MulN,
                    value: a,
                    modulus: m,
                    qubits: q,
                    output: o,
                }),
            ),
    {
        self.modular(Modular::MulN, a, m, q, o)
    }

    /// Undoes a multiplication of the register `q` by `a` modulo `m`, into
    /// the result register `o`.
    pub fn divn(&self, a: Vec<u64>, m: Vec<u64>, q: Vec<u64>, o: Vec<u64>) -> (r: Result<
        EngineCall,
        QrackError,
    >)
        requires
            self.is_live(),
        ensures
            r == checked(
                a.len() == m.len() && q.len() == o.len(),
                (EngineCall::Modular {
                    sid: self.handle(),
                    op: Modular::DivN,
                    value: a,
                    modulus: m,
                    qubits: q,
                    output: o,
                }),
            ),
    {
        self.modular(Modular::DivN, a, m, q, o)
    }

    /// Raises `a` to the power held in the register `q`, modulo `m`, into
    /// the result register `o`.
    pub fn pown(&self, a: Vec<u64>, m: Vec<u64>, q: Vec<u64>, o: Vec<u64>) -> (r: Result<
        EngineCall,
        QrackError,
    >)
        requires
            self.is_live(),
        ensures
            r == checked(
                a.len() == m.len() && q.len() == o.len(),
                (EngineCall::Modular {
                    sid: self.handle(),
                    op: Modular::PowN,
                    value: a,
                    modulus: m,
                    qubits: q,
                    output: o,
                }),
            ),
    {
        self.modular(Modular::PowN, a, m, q, o)
    }

    /// Adds the integer `a` to the register `q` if all controls `c` are |1>.
    pub fn mcadd(&self, a: Vec<u64>, c: Vec<u64>, q: Vec<u64>) -> (call: EngineCall)
        requires
            self.is_live(),
        ensures
            call == (EngineCall::ControlledSum {
                sid: self.handle(),
                op: Sum::Add,
                value: a,
                controls: c,
                qubits: q,
            }),
    {
        EngineCall::ControlledSum {
            sid: self.get_sid(),
            op: Sum::Add,
            value: a,
            controls: c,
            qubits: q,
        }
    }

    /// Subtracts the integer `a` from the register `q` if all controls `c`
    /// are |1>.
    pub fn mcsub(&self, a: Vec<u64>, c: Vec<u64>, q: Vec<u64>) -> (call: EngineCall)
        requires
            self.is_live(),
        ensures
            call == (EngineCall::ControlledSum {
                sid: self.handle(),
                op: Sum::Sub,
                value: a,
                controls: c,
                qubits: q,
            }),
    {
        EngineCall::ControlledSum {
            sid: self.get_sid(),
            op: Sum::Sub,
            value: a,
            controls: c,
            qubits: q,
        }
    }

    /// Multiplies the register `q` by the integer `a` if all controls `c`
    /// are |1>. The carry register `o` must be as long as `q`.
    pub fn mcmul(&self, a: Vec<u64>, c: Vec<u64>, q: Vec<u64>, o: Vec<u64>) -> (r: Result<
        EngineCall,
        QrackError,
    >)
        requires
            self.is_live(),
        ensures
            r == checked(
                q.len() == o.len(),
                (EngineCall::ControlledProduct {
                    sid: self.handle(),
                    op: Product::Mul,
                    value: a,
                    controls: c,
                    qubits: q,
                    carry: o,
                }),
            ),
    {
        if q.len() != o.len() {
            return Err(QrackError::ShapeMismatch);
        }
        Ok(EngineCall::ControlledProduct {
            sid: self.get_sid(),
            op: Product::Mul,
            value: a,
            controls: c,
            qubits: q,
            carry: o,
        })
    }

    /// Undoes a multiplication of the register `q` by the integer `a` if all
    /// controls `c` are |1>. The carry register `o` must be as long as `q`.
    pub fn mcdiv(&self, a: Vec<u64>, c: Vec<u64>, q: Vec<u64>, o: Vec<u64>) -> (r: Result<
        EngineCall,
        QrackError,
    >)
        requires
            self.is_live(),
        ensures
            r == checked(
                q.len() == o.len(),
                (EngineCall::ControlledProduct {
                    sid: self.handle(),
                    op: Product::Div,
                    value: a,
                    controls: c,
                    qubits: q,
                    carry: o,
                }),
            ),
    {
        if q.len() != o.len() {
            return Err(QrackError::ShapeMismatch);
        }
        Ok(EngineCall::ControlledProduct {
            sid: self.get_sid(),
            op: Product::Div,
            value: a,
            controls: c,
            qubits: q,
            carry: o,
        })
    }

    /// Plans one of the controlled modular operations, after checking that
    /// the value `a` is as long as the modulus `m` and the register `q` as
    /// long as the result register `o`.
    fn controlled_modular(
        &self,
        op: Modular,
        a: Vec<u64>,
        c: Vec<u64>,
        m: Vec<u64>,
        q: Vec<u64>,
        o: Vec<u64>,
    ) -> (r: Result<EngineCall, QrackError>)
        ensures
            r == checked(
                a.len() == m.len() && q.len() == o.len(),
                (EngineCall::ControlledModular {
                    sid: self.handle(),
                    op,
                    value: a,
                    controls: c,
                    modulus: m,
                    qubits: q,
                    output: o,
                }),
            ),
    {
        if a.len() != m.len() {
            return Err(QrackError::ShapeMismatch);
        }
        if q.len() != o.len() {
            return Err(QrackError::ShapeMismatch);
        }
        Ok(EngineCall::ControlledModular {
            sid: self.get_sid(),
            op,
            value: a,
            controls: c,
            modulus: m,
            qubits: q,
            output: o,
        })
    }

    /// Multiplies the register `q` by `a` modulo `m` into the result
    /// register `o`, if all controls `c` are |1>.
    pub fn mcmuln(
        &self,
        a: Vec<u64>,
        c: Vec<u64>,
        m: Vec<u64>,
        q: Vec<u64>,
        o: Vec<u64>,
    ) -> (r: Result<EngineCall, QrackError>)
        requires
            self.is_live(),
        ensures
            r == checked(
                a.len() == m.len() && q.len() == o.len(),
                (EngineCall::ControlledModular {
                    sid: self.handle(),
                    op: Modular::MulN,
                    value: a,
                    controls: c,
                    modulus: m,
                    qubits: q,
                    output: o,
                }),
            ),
    {
        self.controlled_modular(Modular::MulN, a, c, m, q, o)
    }

    /// Undoes a multiplication of the register `q` by `a` modulo `m`, into
    /// the result register `o`, if all controls `c` are |1>.
    pub fn mcdivn(
        &self,
        a: Vec<u64>,
        c: Vec<u64>,
        m: Vec<u64>,
        q: Vec<u64>,
        o: Vec<u64>,
    ) -> (r: Result<EngineCall, QrackError>)
        requires
            self.is_live(),
        ensures
            r == checked(
                a.len() == m.len() && q.len() == o.len(),
                (EngineCall::ControlledModular {
                    sid: self.handle(),
                    op: Modular::DivN,
                    value: a,
                    controls: c,
                    modulus: m,
                    qubits: q,
                    output: o,
                }),
            ),
    {
        self.controlled_modular(Modular::DivN, a, c, m, q, o)
    }

    /// Raises `a` to the power held in the register `q`, modulo `m`, into
    /// the result register `o`, if all controls `c` are |1>.
    pub fn mcpown(
        &self,
        a: Vec<u64>,
        c: Vec<u64>,
        m: Vec<u64>,
        q: Vec<u64>,
        o: Vec<u64>,
    ) -> (r: Result<EngineCall, QrackError>)
        requires
            self.is_live(),
        ensures
            r == checked(
                a.len() == m.len() && q.len() == o.len(),
                (EngineCall::ControlledModular {
                    sid: self.handle(),
                    op: Modular::PowN,
                    value: a,
                    controls: c,
                    modulus: m,
                    qubits: q,
                    output: o,
                }),
            ),
    {
        self.controlled_modular(Modular::PowN, a, c, m, q, o)
    }
}

} // verus!

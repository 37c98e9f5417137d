//! The two ways an operation can fail, and the two decisions that produce
//! them: the shape check before a call and the register check after it.

use vstd::prelude::*;

verus! {

/// Why an operation did not produce its result.
#[derive(Clone, Copy, Debug, PartialEq, Eq, Structural)]
pub enum QrackError {
    /// The engine's error register was nonzero after a call.
    EngineError,
    /// An argument-shape check failed before any engine call was made.
    ShapeMismatch,
}

/// What a shape-checked operation plans: the call if the shapes agree, a
/// shape mismatch and no call otherwise.
pub open spec fn checked<C>(shapes_agree: bool, call: C) -> Result<C, QrackError> {
    if shapes_agree {
        Ok(call)
    } else {
        Err(QrackError::ShapeMismatch)
    }
}

/// What an operation returns once the error register has been polled: the
/// engine's result if the register is clear, an engine error otherwise.
pub open spec fn settled<T>(code: i32, value: T) -> Result<T, QrackError> {
    if code == 0 {
        Ok(value)
    } else {
        Err(QrackError::EngineError)
    }
}

/// Decides what an operation returns, from the error register's value after
/// the call and the value that the engine handed back. A nonzero register
/// discards the value.
pub fn settle<T>(code: i32, value: T) -> (r: Result<T, QrackError>)
    ensures
        r == settled(code, value),
{
    if code != 0 {
        Err(QrackError::EngineError)
    } else {
        Ok(value)
    }
}

} // verus!

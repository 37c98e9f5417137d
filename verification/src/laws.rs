//! What holds of the control plane whatever the engine answers.

use crate::call::{EngineCall, Layers};
use crate::error::{checked, settled, QrackError};
use crate::qrack_simulator::{construction_call, Phase, QrackSimulator};
use vstd::prelude::*;

verus! {

/// A handle is given back at most once: releasing a session that has been
/// released issues no call and changes nothing, and a live session's one
/// release names the handle that the session owns.
pub proof fn law_release_once(s: QrackSimulator)
    ensures
        s.is_live() ==> s.release_call() == Some(EngineCall::Destroy { sid: s.handle() }),
        !s.is_live() ==> s.release_call() is None,
        s.released().release_call() is None,
        s.released().released() == s.released(),
        !s.released().is_live(),
{
    s.lemma_released();
    s.released().lemma_released();
    s.released().released().lemma_extensional(s.released());
}

/// Construction followed by release leaves nothing behind: whatever handle
/// and register value the engine answers a construction call with, the
/// session takes the handle, its release gives back exactly that handle, and
/// a second release gives back nothing. This holds of a failed construction
/// too, which is reported as an engine error.
pub proof fn law_construct_then_release(s: QrackSimulator, sid: u64, code: i32)
    requires
        s.phase() == Phase::Constructing,
    ensures
        s.release_call() is None,
        s.attached(sid).is_live(),
        s.attached(sid).release_call() == Some(EngineCall::Destroy { sid }),
        s.attached(sid).released().release_call() is None,
        code == 0 ==> settled(code, ()) == Ok::<(), QrackError>(()),
        code != 0 ==> settled(code, ()) == Err::<(), QrackError>(QrackError::EngineError),
{
    s.lemma_attached(sid);
    law_release_once(s.attached(sid));
}

/// The flags of a session select exactly one of three constructors, which
/// is handed the qubit count and the host-pointer flag unchanged. The two
/// short constructors serve one combination of flags, apart from the flag
/// that tells them apart; the full constructor serves every other
/// combination and is handed all flags.
pub proof fn law_construction_total(qubits: u64, layers: Layers, host_pointer: bool)
    ensures
        ({
            let fast = layers.tensor_network && layers.schmidt_decompose
                && layers.stabilizer_hybrid && !layers.binary_decision_tree && layers.paged
                && layers.cpu_gpu_hybrid && layers.opencl;
            let call = construction_call(qubits, layers, host_pointer);
            &&& fast && layers.schmidt_decompose_multi <==> call == (EngineCall::InitCount {
                qubits,
                host_pointer,
            })
            &&& fast && !layers.schmidt_decompose_multi <==> call == (EngineCall::InitCountPager {
                qubits,
                host_pointer,
            })
            &&& !fast <==> call == (EngineCall::InitCountType {
                qubits,
                layers,
                zx_filter: false,
                host_pointer,
            })
            &&& call.mints_handle()
            &&& call.session_spec() is None
            &&& forall|answer: u64| call.poll_spec(answer) == Some(EngineCall::GetError { sid: answer })
        }),
{
}

/// A shape mismatch is found before the engine is asked anything: where the
/// shapes disagree the plan is the mismatch and holds no call, and where
/// they agree it is the call and nothing else.
pub proof fn law_mismatch_plans_nothing<C>(shapes_agree: bool, call: C)
    ensures
        shapes_agree <==> checked(shapes_agree, call) == Ok::<C, QrackError>(call),
        !shapes_agree <==> checked(shapes_agree, call) == Err::<C, QrackError>(
            QrackError::ShapeMismatch,
        ),
{
}

/// No operation swallows a nonzero register value, and none reports a
/// failure when the register is zero: the outcome is the engine's value
/// exactly when the register is clear, and an engine error otherwise.
pub proof fn law_register_decides<T>(code: i32, value: T)
    ensures
        code == 0 <==> settled(code, value) == Ok::<T, QrackError>(value),
        code != 0 <==> settled(code, value) == Err::<T, QrackError>(QrackError::EngineError),
{
}

/// Every call that acts on a session is followed by a poll of that
/// session's own register, except its release and the poll itself.
pub proof fn law_poll_follows(call: EngineCall, answer: u64)
    ensures
        call.session_spec() matches Some(sid) ==> {
            ||| call is Destroy
            ||| call is GetError
            ||| (call is InitClone && call.poll_spec(answer) == Some(
                EngineCall::GetError { sid: answer },
            ))
            ||| call.poll_spec(answer) == Some(EngineCall::GetError { sid })
        },
        call.poll_spec(answer) is None <==> call is Destroy || call is GetError,
{
}

} // verus!

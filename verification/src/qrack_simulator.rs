//! A session: the owner of one engine handle, from construction to release.
//!
//! The session never talks to the engine itself. Each operation returns the
//! [`EngineCall`] to perform, already validated and marshalled; the caller
//! performs it, polls the error register and hands the outcome back to
//! [`QrackSimulator::check_error`] or [`crate::error::settle`].

use crate::call::{EngineCall, Layers};
use crate::error::{settle, settled, QrackError};
use vstd::prelude::*;

verus! {

/// Where a session stands in its life.
#[derive(Clone, Copy, Debug, PartialEq, Eq, Structural)]
pub enum Phase {
    /// A construction call has been planned; the engine has not answered yet.
    Constructing,
    /// The session owns a handle and accepts operations.
    Live,
    /// The handle has been given back to the engine. Terminal.
    Destroyed,
}

/// The owner of one engine handle.
#[derive(Debug)]
pub struct QrackSimulator {
    sid: u64,
    phase: Phase,
}

/// The engine call that builds a session with the given capability flags.
///
/// One fixed combination of flags is served by the two short constructors;
/// every other combination goes to the fully parameterized one, with its
/// ZX-filter flag off.
pub open spec fn construction_call(qubits: u64, layers: Layers, host_pointer: bool) -> EngineCall {
    if layers.tensor_network && layers.schmidt_decompose && layers.stabilizer_hybrid
        && !layers.binary_decision_tree && layers.paged && layers.cpu_gpu_hybrid && layers.opencl {
        if layers.schmidt_decompose_multi {
            EngineCall::InitCount { qubits, host_pointer }
        } else {
            EngineCall::InitCountPager { qubits, host_pointer }
        }
    } else {
        EngineCall::InitCountType { qubits, layers, zx_filter: false, host_pointer }
    }
}

impl QrackSimulator {
    /// The handle that the session owns. Meaningful once the session has
    /// left [`Phase::Constructing`].
    pub closed spec fn handle(&self) -> u64 {
        self.sid
    }

    /// Where the session stands in its life.
    pub closed spec fn phase(&self) -> Phase {
        self.phase
    }

    /// The session owns a handle and accepts operations.
    pub open spec fn is_live(&self) -> bool {
        self.phase() == Phase::Live
    }

    /// The session after the engine has answered its construction call with
    /// the handle `sid`.
    pub closed spec fn attached(self, sid: u64) -> QrackSimulator {
        QrackSimulator { sid, phase: Phase::Live }
    }

    /// The session after a release.
    pub closed spec fn released(self) -> QrackSimulator {
        QrackSimulator { sid: self.sid, phase: Phase::Destroyed }
    }

    /// The engine call that a release of this session issues, if any.
    pub open spec fn release_call(self) -> Option<EngineCall> {
        if self.is_live() {
            Some(EngineCall::Destroy { sid: self.handle() })
        } else {
            None
        }
    }

    /// Attaching fixes the handle and makes the session live.
    pub proof fn lemma_attached(self, sid: u64)
        ensures
            self.attached(sid).handle() == sid,
            self.attached(sid).is_live(),
    {
    }

    /// Releasing keeps the handle and ends the session.
    pub proof fn lemma_released(self)
        ensures
            self.released().handle() == self.handle(),
            self.released().phase() == Phase::Destroyed,
    {
    }

    /// A session is determined by its handle and its phase.
    pub proof fn lemma_extensional(self, other: QrackSimulator)
        requires
            self.handle() == other.handle(),
            self.phase() == other.phase(),
        ensures
            self == other,
    {
    }

    /// A session that waits for the engine to answer its construction call.
    pub fn unattached() -> (s: QrackSimulator)
        ensures
            s.phase() == Phase::Constructing,
    {
        QrackSimulator { sid: 0, phase: Phase::Constructing }
    }

    /// Plans a session of `qubit_count` qubits on the default backend.
    /// Returns the session, still under construction, and the call to make.
    pub fn new(qubit_count: u64) -> (r: (QrackSimulator, EngineCall))
        ensures
            r.0.phase() == Phase::Constructing,
            r.1 == (EngineCall::InitCount { qubits: qubit_count, host_pointer: false }),
    {
        (
            QrackSimulator { sid: 0, phase: Phase::Constructing },
            EngineCall::InitCount { qubits: qubit_count, host_pointer: false },
        )
    }

    /// Plans a session of `qubit_count` qubits on the backend that the flags
    /// select. Every combination of flags maps to exactly one entry point.
    pub fn new_layers(
        qubit_count: u64,
        is_tensor_network: bool,
        is_schmidt_decompose_multi: bool,
        is_schmidt_decompose: bool,
        is_stabilizer_hybrid: bool,
        is_binary_decision_tree: bool,
        is_paged: bool,
        is_cpu_gpu_hybrid: bool,
        is_opencl: bool,
        is_host_pointer: bool,
    ) -> (r: (QrackSimulator, EngineCall))
        ensures
            r.0.phase() == Phase::Constructing,
            r.1 == construction_call(
                qubit_count,
                (Layers {
                    tensor_network: is_tensor_network,
                    schmidt_decompose_multi: is_schmidt_decompose_multi,
                    schmidt_decompose: is_schmidt_decompose,
                    stabilizer_hybrid: is_stabilizer_hybrid,
                    binary_decision_tree: is_binary_decision_tree,
                    paged: is_paged,
                    cpu_gpu_hybrid: is_cpu_gpu_hybrid,
                    opencl: is_opencl,
                }),
                is_host_pointer,
            ),
    {
        let session = QrackSimulator { sid: 0, phase: Phase::Constructing };
        let call = if is_tensor_network && is_schmidt_decompose && is_stabilizer_hybrid
            && !is_binary_decision_tree && is_paged && is_cpu_gpu_hybrid && is_opencl {
            if is_schmidt_decompose_multi {
                EngineCall::InitCount { qubits: qubit_count, host_pointer: is_host_pointer }
            } else {
                EngineCall::InitCountPager { qubits: qubit_count, host_pointer: is_host_pointer }
            }
        } else {
            EngineCall::InitCountType {
                qubits: qubit_count,
                layers: Layers {
                    tensor_network: is_tensor_network,
                    schmidt_decompose_multi: is_schmidt_decompose_multi,
                    schmidt_decompose: is_schmidt_decompose,
                    stabilizer_hybrid: is_stabilizer_hybrid,
                    binary_decision_tree: is_binary_decision_tree,
                    paged: is_paged,
                    cpu_gpu_hybrid: is_cpu_gpu_hybrid,
                    opencl: is_opencl,
                },
                zx_filter: false,
                host_pointer: is_host_pointer,
            }
        };
        (session, call)
    }

    /// Takes ownership of the handle `sid` with which the engine answered the
    /// construction call, and reports whether construction succeeded, from
    /// the error register's value `code` after that call.
    ///
    /// The session becomes live whatever `code` is, so that a failed
    /// construction is still released.
    pub fn attach(&mut self, sid: u64, code: i32) -> (r: Result<(), QrackError>)
        requires
            old(self).phase() == Phase::Constructing,
        ensures
            *final(self) == old(self).attached(sid),
            final(self).handle() == sid,
            final(self).is_live(),
            r == settled(code, ()),
    {
        self.sid = sid;
        self.phase = Phase::Live;
        settle(code, ())
    }

    /// Ends the session. Returns the one call that gives the handle back to
    /// the engine, or nothing if the session owns no handle: it was never
    /// attached, or it has been released before.
    pub fn destroy(&mut self) -> (call: Option<EngineCall>)
        ensures
            *final(self) == old(self).released(),
            final(self).handle() == old(self).handle(),
            final(self).phase() == Phase::Destroyed,
            call == old(self).release_call(),
    {
        let call = match self.phase {
            Phase::Live => Some(EngineCall::Destroy { sid: self.sid }),
            _ => None,
        };
        self.phase = Phase::Destroyed;
        call
    }

    /// Whether the session owns a handle and accepts operations.
    pub fn live(&self) -> (b: bool)
        ensures
            b == self.is_live(),
    {
        match self.phase {
            Phase::Live => true,
            _ => false,
        }
    }

    /// Plans an independent copy of this session. Returns the copy, still
    /// under construction, and the call to make.
    pub fn clone(&self) -> (r: (QrackSimulator, EngineCall))
        requires
            self.is_live(),
        ensures
            r.0.phase() == Phase::Constructing,
            r.1 == (EngineCall::InitClone { sid: self.handle() }),
    {
        (
            QrackSimulator { sid: 0, phase: Phase::Constructing },
            EngineCall::InitClone { sid: self.sid },
        )
    }

    /// The poll of this session's error register.
    pub fn get_error(&self) -> (call: EngineCall)
        requires
            self.is_live(),
        ensures
            call == (EngineCall::GetError { sid: self.handle() }),
    {
        EngineCall::GetError { sid: self.sid }
    }

    /// Decides whether the last call on this session succeeded, from the
    /// error register's value after it.
    pub fn check_error(&self, code: i32) -> (r: Result<(), QrackError>)
        ensures
            r == settled(code, ()),
    {
        settle(code, ())
    }

    /// The handle that the session owns.
    pub fn get_sid(&self) -> (sid: u64)
        ensures
            sid == self.handle(),
    {
        self.sid
    }
}

} // verus!

//! Control plane for a quantum-state simulation engine.
//!
//! The engine is reached through an opaque handle and a flat set of entry
//! points. This library decides what is asked of it and what its answers
//! mean: it plans each call, checks argument shapes before the engine sees
//! them, tracks the life of each handle, and turns the engine's error
//! register into a result. Performing a planned call is left to the caller.

pub mod arithmetic;
pub mod call;
pub mod controlled;
pub mod error;
pub mod gates;
pub mod introspection;
pub mod laws;
pub mod logic;
pub mod measurement;
pub mod pauli;
pub mod qrack_simulator;
pub mod shape;
pub mod structure;
pub mod tables;

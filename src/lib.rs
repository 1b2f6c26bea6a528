//! Moves tensors between two compute backends, through a backend-neutral
//! byte representation whenever the target device belongs to the other one.
pub mod backend;
pub mod bridge;
pub mod data;
pub mod handle;
pub mod laws;

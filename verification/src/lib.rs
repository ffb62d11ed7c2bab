//! Admission control for a virtual waiting room.
//!
//! A bounded number of visitors is active at a time; the rest wait in
//! arrival order and are promoted as capacity frees up. An active visitor
//! stays active while the destination keeps renewing their liveness marker.
//!
//! - [`model`] is the shared state as mathematics, with every operation on it.
//! - [`theorems`] proves what holds of that state under every operation.
//! - [`store`] holds the state in memory; [`admission`], [`reconcile`],
//!   [`token`] and [`status`] are the operations, each proved to agree with
//!   the model.
//! - [`identity`], [`clock`], [`config`] and [`http`] read and write the plain
//!   values at the edge.

pub mod admission;
pub mod clock;
pub mod config;
pub mod http;
pub mod identity;
pub mod model;
pub mod reconcile;
mod seqs;
pub mod status;
pub mod store;
pub mod theorems;
pub mod token;

//! A zero-trust tunnel: the decisions of a node proxy, with their proofs.

pub mod assoc;
pub mod command;
pub mod config;
pub mod identity;
pub mod metrics;
pub mod net;
pub mod proxy;
pub mod test_helpers;
pub mod text;
pub mod text_laws;
pub mod workload;

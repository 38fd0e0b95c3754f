//! The proxy: connection pooling, inbound and outbound traffic, metrics.

pub mod calls;
pub mod counters;
pub mod error;
pub mod inbound_laws;
pub mod inbound_passthrough;
pub mod inbound_steps;
pub mod key;
pub mod label_value;
pub mod labels;
pub mod labels_laws;
pub mod log_laws;
pub mod metrics;
pub mod metrics_laws;
pub mod out_ip;
pub mod out_ip_laws;
pub mod packet;
pub mod pool;
pub mod pool_answers;
pub mod pool_laws;
pub mod util;
pub mod util_laws;

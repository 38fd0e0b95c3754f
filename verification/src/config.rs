//! How the proxy is set up.

use vstd::prelude::*;
use vstd::string::*;

use crate::net::{IpAddr, SocketAddr};

verus! {

/// Whether one proxy serves a node or a single workload.
#[derive(Clone, Copy, Debug, PartialEq, Eq, Structural)]
pub enum ProxyMode {
    Shared,
    Dedicated,
}

/// Where local configuration comes from.
#[derive(Debug, PartialEq, Eq)]
pub enum ConfigSource {
    /// The configuration itself.
    Static(Vec<u8>),
    /// The path of a file.
    File(String),
}

/// The configuration of a proxy. Spans of time are nanoseconds.
#[derive(Debug)]
pub struct Config {
    pub inbound_plaintext_addr: SocketAddr,
    pub inpod_enabled: bool,
    pub illegal_ports: Vec<u16>,
    pub proxy_mode: ProxyMode,
    pub local_ip: Option<IpAddr>,
    pub network: String,
    pub self_termination_deadline: u128,
    pub local_node: Option<String>,
    pub fake_ca: bool,
    pub xds_address: Option<String>,
    pub local_xds_config: Option<ConfigSource>,
}

impl Config {
    /// Whether a call to `dest` would come back to the proxy: inside a pod, on one of the
    /// proxy's own ports; on a shared proxy, at the proxy's own address.
    pub open spec fn illegal_call(self, dest: SocketAddr) -> bool {
        if self.inpod_enabled {
            self.illegal_ports@.contains(dest.port)
        } else {
            self.proxy_mode == ProxyMode::Shared && self.local_ip == Some(dest.ip)
        }
    }

    /// Whether a call to `dest` would come back to the proxy.
    pub fn is_illegal_call(&self, dest: SocketAddr) -> (r: bool)
        ensures
            r == self.illegal_call(dest),
    {
        if self.inpod_enabled {
            let mut i: usize = 0;
            while i < self.illegal_ports.len()
                invariant
                    self.inpod_enabled,
                    i <= self.illegal_ports@.len(),
                    forall|j: int| 0 <= j < i ==> self.illegal_ports@[j] != dest.port,
                decreases self.illegal_ports@.len() - i,
            {
                if self.illegal_ports[i] == dest.port {
                    assert(self.illegal_ports@[i as int] == dest.port);
                    return true;
                }
                i += 1;
            }
            false
        } else {
            match self.local_ip {
                Some(ip) => self.proxy_mode == ProxyMode::Shared && ip == dest.ip,
                None => false,
            }
        }
    }
}

} // verus!

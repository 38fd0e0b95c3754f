//! What can go wrong with a proxied connection.

use vstd::prelude::*;

use crate::net::{IpAddr, SocketAddr};

verus! {

/// Why the proxy did not start, or a connection was refused or failed. What the operating
/// system said comes as text.
#[derive(Debug, PartialEq, Eq)]
pub enum Error {
    /// The listener could not be bound to its address.
    Bind(SocketAddr, String),
    /// The operating system refused something else.
    Io(String),
    /// The destination could not be connected to.
    ConnectionFailed(String),
    /// The call would come back to the proxy itself.
    SelfCall,
    /// No workload has the destination address.
    UnknownDestination(IpAddr),
    /// The peer answered with a status other than success.
    HttpStatus(u16),
}

} // verus!

//! A proxy under test: the requests that are sent to it, and what its answers mean.

use vstd::prelude::*;
use vstd::string::*;

use crate::config::{Config, ConfigSource};
use crate::net::{be_bytes, be_bytes_round_trip, from_be_bytes, to_be_bytes};
use crate::net::{byte_range, to_canonical, with_ip, IpAddr, SocketAddr};
use crate::test_helpers::parsed_metrics::ParsedMetrics;
use crate::test_helpers::scrape::{gathered_last, gathered_samples, plain_samples, scraped};
use crate::test_helpers::status::{describe_status, is_status, status_text};
use crate::text::{decimal, decimal_text, lines_of};

verus! {

/// How often a proxy is asked whether it is ready.
pub const READY_TRIES: u32 = 200;

/// How long to wait between two such requests, in nanoseconds.
pub const READY_PAUSE: u128 = 10_000_000;

/// How many bytes answer a SOCKS5 greeting.
pub const SOCKS5_GREETING_REPLY: usize = 2;

/// How many bytes answer a SOCKS5 command.
pub const SOCKS5_COMMAND_REPLY: usize = 10;

/// The node that a proxy under test runs on.
pub open spec fn local_node() -> Seq<char> {
    "local"@
}

/// `127.0.0.1`.
pub open spec fn loopback() -> IpAddr {
    IpAddr::V4(0x7f00_0001)
}

/// A `GET` request without a body.
#[derive(Debug, PartialEq, Eq)]
pub struct GetRequest {
    pub uri: String,
    pub headers: Vec<(String, String)>,
}

/// A proxy that is running for a test. Addresses come as plain values.
#[derive(Clone, Copy, Debug, PartialEq, Eq, Structural)]
pub struct TestApp {
    pub admin_address: SocketAddr,
    pub readiness_address: SocketAddr,
    pub socks5_address: SocketAddr,
}

/// How to open a connection through the SOCKS5 listener of a proxy.
#[derive(Debug, PartialEq, Eq)]
pub struct Socks5Dialog {
    /// Where the listener is.
    pub proxy: SocketAddr,
    /// Sent first.
    pub greeting: Vec<u8>,
    /// Sent once the greeting was answered.
    pub command: Vec<u8>,
}

/// The bytes that offer no authentication, in version five.
pub open spec fn socks5_greeting() -> Seq<u8> {
    seq![5u8, 1u8, 0u8]
}

/// The address type of `addr`: one for IPv4, four for IPv6.
pub open spec fn socks5_address_type(addr: SocketAddr) -> u8 {
    if addr.ip is V4 {
        1
    } else {
        4
    }
}

/// The bytes that ask for a TCP stream to `addr`: version, command, a reserved byte, the
/// address type, the octets of the address in canonical form, and the port.
pub open spec fn socks5_command(addr: SocketAddr) -> Seq<u8> {
    seq![5u8, 1u8, 0u8, socks5_address_type(addr)] + addr.canonical().ip.octets_spec()
        + be_bytes(addr.port as nat, 2)
}

/// What came of a request whether the proxy is ready.
#[derive(Debug, PartialEq, Eq)]
pub enum ReadyStep {
    /// It is.
    Ready,
    /// Wait and ask again.
    Retry,
    /// Wait once more and give up; this is why the last request failed.
    GiveUp(String),
}

/// What a [`ReadyStep`] says, but for the reason.
pub enum PollView {
    Ready,
    Retry,
    GiveUp,
}

impl View for ReadyStep {
    type V = PollView;

    open spec fn view(&self) -> PollView {
        match self {
            ReadyStep::Ready => PollView::Ready,
            ReadyStep::Retry => PollView::Retry,
            ReadyStep::GiveUp(_) => PollView::GiveUp,
        }
    }
}

/// What to do after an answer, where `failures` requests had failed before.
pub open spec fn poll_step(failures: nat, ready: bool) -> PollView {
    if ready {
        PollView::Ready
    } else if failures + 1 < READY_TRIES {
        PollView::Retry
    } else {
        PollView::GiveUp
    }
}

/// How often a proxy has not been ready.
#[derive(Debug, PartialEq, Eq)]
pub struct ReadyPoll {
    pub failures: u32,
}

impl ReadyPoll {
    /// Before the first request.
    pub fn new() -> (r: ReadyPoll)
        ensures
            r.failures == 0,
    {
        ReadyPoll { failures: 0 }
    }

    /// What to do after a request that ended in `result`.
    pub fn answered(&mut self, result: Result<(), String>) -> (r: ReadyStep)
        requires
            old(self).failures < READY_TRIES,
        ensures
            r@ == poll_step(old(self).failures as nat, result is Ok),
            final(self).failures == old(self).failures + if result is Ok {
                0int
            } else {
                1
            },
            r matches ReadyStep::GiveUp(e) ==> result == Err::<(), String>(e),
    {
        match result {
            Ok(_) => ReadyStep::Ready,
            Err(e) => {
                self.failures = self.failures + 1;
                if self.failures < READY_TRIES {
                    ReadyStep::Retry
                } else {
                    ReadyStep::GiveUp(e)
                }
            },
        }
    }
}

impl TestApp {
    /// The request for `path` on the admin server.
    pub fn admin_request(&self, path: &str) -> (r: GetRequest)
        ensures
            r.uri@ == "http://localhost:"@ + decimal(self.admin_address.port as nat) + "/"@
                + path@,
            r.headers@.len() == 1,
            r.headers@[0].0@ == "content-type"@,
            r.headers@[0].1@ == "application/json"@,
    {
        let port = decimal_text(self.admin_address.port as u128);
        let uri = "http://localhost:".to_owned().concat(port.as_str()).concat("/").concat(path);
        let mut headers: Vec<(String, String)> = Vec::new();
        headers.push(("content-type".to_owned(), "application/json".to_owned()));
        GetRequest { uri, headers }
    }

    /// The request whether the proxy is ready.
    pub fn readiness_request(&self) -> (r: GetRequest)
        ensures
            r.uri@ == "http://localhost:"@ + decimal(self.readiness_address.port as nat)
                + "/healthz/ready"@,
            r.headers@.len() == 0,
    {
        let port = decimal_text(self.readiness_address.port as u128);
        GetRequest {
            uri: "http://localhost:".to_owned().concat(port.as_str()).concat("/healthz/ready"),
            headers: Vec::new(),
        }
    }

    /// What an answer with `status`, which reads `text`, means: ready on status 200 alone.
    pub fn readiness_of(status: u16, text: &str) -> (r: Result<(), String>)
        ensures
            match r {
                Ok(_) => status == 200,
                Err(e) => status != 200 && e@
                    == "non-200 status code from readiness request: received "@ + text@,
            },
    {
        if status == 200 {
            Ok(())
        } else {
            Err("non-200 status code from readiness request: received ".to_owned().concat(text))
        }
    }

    /// What the answer to that request means, by its status.
    pub fn readiness(status: u16) -> (r: Result<(), String>)
        requires
            is_status(status),
        ensures
            match r {
                Ok(_) => status == 200,
                Err(e) => status != 200 && e@
                    == "non-200 status code from readiness request: received "@ + status_text(
                    status,
                ),
            },
    {
        TestApp::readiness_of(status, describe_status(status).as_str())
    }

    /// The metrics on the page `body`.
    pub fn metrics(body: &str) -> (r: ParsedMetrics)
        ensures
            r.wf(),
            r@.docs == scraped(lines_of(body@)).docs,
            plain_samples(r@.samples) == scraped(lines_of(body@)).plain,
            gathered_samples(r@.samples) == scraped(lines_of(body@)).gathered,
            gathered_last(r@.samples),
    {
        ParsedMetrics::parse(body)
    }

    /// How to connect to `addr` through the proxy, whose listener is reached over IPv4.
    pub fn socks5_connect(&self, addr: SocketAddr) -> (r: Socks5Dialog)
        ensures
            r.proxy == (SocketAddr { ip: loopback(), port: self.socks5_address.port }),
            r.greeting@ == socks5_greeting(),
            r.command@ == socks5_command(addr),
    {
        let proxy = with_ip(self.socks5_address, IpAddr::V4(0x7f00_0001));
        let mut greeting: Vec<u8> = Vec::new();
        greeting.push(5);
        greeting.push(1);
        greeting.push(0);
        assert(greeting@ =~= socks5_greeting());
        let mut command: Vec<u8> = Vec::new();
        command.push(5);
        command.push(1);
        command.push(0);
        if addr.ip.is_ipv4() {
            command.push(1);
        } else {
            command.push(4);
        }
        assert(command@ =~= seq![5u8, 1u8, 0u8, socks5_address_type(addr)]);
        let mut octets = to_canonical(addr).ip.octets();
        command.append(&mut octets);
        let mut port = to_be_bytes(addr.port as u128, 2);
        command.append(&mut port);
        assert(command@ =~= socks5_command(addr));
        Socks5Dialog { proxy, greeting, command }
    }
}

/// What a proxy under test is configured with, on top of `base`: a certificate authority of
/// its own, no control plane, the node `local`, and `local_xds_config`.
pub fn local_config(base: Config, local_xds_config: Option<ConfigSource>) -> (r: Config)
    ensures
        r == (Config {
            xds_address: None,
            fake_ca: true,
            local_xds_config,
            local_node: r.local_node,
            ..base
        }),
        r.local_node matches Some(n) && n@ == local_node(),
{
    Config {
        xds_address: None,
        fake_ca: true,
        local_xds_config,
        local_node: Some("local".to_owned()),
        ..base
    }
}

/// A proxy to be run in a network namespace.
#[derive(Debug)]
pub struct Ztunnel {
    pub cfg: Config,
}

impl Ztunnel {
    /// A proxy configured as `base`, but with a certificate authority of its own, without a
    /// control plane and without local configuration, on the node `local`.
    pub fn new(base: Config) -> (r: Ztunnel)
        ensures
            r.cfg == (Config {
                xds_address: None,
                fake_ca: true,
                local_xds_config: None,
                local_node: r.cfg.local_node,
                ..base
            }),
            r.cfg.local_node matches Some(n) && n@ == local_node(),
    {
        Ztunnel { cfg: local_config(base, None) }
    }
}

/// The address and port that a SOCKS5 command with `n` octets of address asks for.
pub open spec fn socks5_target(command: Seq<u8>, n: int) -> (nat, nat) {
    (
        from_be_bytes(command.subrange(4, 4 + n)),
        from_be_bytes(command.subrange(4 + n, 6 + n)),
    )
}

/// A listener reads the address and the port back out of a command, unless the address is
/// an IPv4-mapped IPv6 address.
pub proof fn socks5_command_round_trip(addr: SocketAddr)
    requires
        addr.canonical() == addr,
    ensures
        addr.ip matches IpAddr::V4(a) ==> {
            &&& socks5_command(addr).len() == 10
            &&& socks5_command(addr)[3] == 1
            &&& socks5_target(socks5_command(addr), 4) == (a as nat, addr.port as nat)
        },
        addr.ip matches IpAddr::V6(a) ==> {
            &&& socks5_command(addr).len() == 22
            &&& socks5_command(addr)[3] == 4
            &&& socks5_target(socks5_command(addr), 16) == (a as nat, addr.port as nat)
        },
{
    reveal_with_fuel(byte_range, 17);
    be_bytes_round_trip(addr.port as nat, 2);
    let c = socks5_command(addr);
    let port = be_bytes(addr.port as nat, 2);
    match addr.ip {
        IpAddr::V4(a) => {
            be_bytes_round_trip(a as nat, 4);
            assert(c.subrange(4, 8) =~= be_bytes(a as nat, 4));
            assert(c.subrange(8, 10) =~= port);
        },
        IpAddr::V6(a) => {
            be_bytes_round_trip(a as nat, 16);
            assert(c.subrange(4, 20) =~= be_bytes(a as nat, 16));
            assert(c.subrange(20, 22) =~= port);
        },
    }
}

/// What a client sends for two different targets differs, unless they are one and the same
/// in canonical form and type.
pub proof fn socks5_commands_differ(a: SocketAddr, b: SocketAddr)
    requires
        a.canonical() == a,
        b.canonical() == b,
    ensures
        socks5_command(a) == socks5_command(b) <==> a == b,
{
    socks5_command_round_trip(a);
    socks5_command_round_trip(b);
}

/// How a poll stands after the answers `ready`, where `failures` requests had failed before.
pub open spec fn polled(ready: Seq<bool>, failures: nat) -> PollView
    decreases ready.len(),
{
    if ready.len() == 0 {
        PollView::Retry
    } else if poll_step(failures, ready[0]) is Retry {
        polled(ready.skip(1), failures + 1)
    } else {
        poll_step(failures, ready[0])
    }
}

/// A poll ends after as many requests as there are tries: with success if any of them found
/// the proxy ready, and by giving up if none did.
pub proof fn polls_end(ready: Seq<bool>, failures: nat)
    requires
        failures < READY_TRIES,
        ready.len() + failures == READY_TRIES,
    ensures
        polled(ready, failures) == if ready.contains(true) {
            PollView::Ready
        } else {
            PollView::GiveUp
        },
    decreases ready.len(),
{
    let rest = ready.skip(1);
    if !ready[0] {
        if failures + 1 < READY_TRIES {
            polls_end(rest, failures + 1);
        }
        if ready.contains(true) {
            let i = ready.index_of(true);
            assert(rest[i - 1]);
        }
        if rest.contains(true) {
            assert(ready[rest.index_of(true) + 1]);
        }
    }
}

} // verus!

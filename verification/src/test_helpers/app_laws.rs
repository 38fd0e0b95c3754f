//! What holds of the requests to a proxy under test and of its answers.

use vstd::prelude::*;

use crate::net::{be_bytes, IpAddr, SocketAddr};
use crate::test_helpers::app::{
    local_node, loopback, poll_step, polled, socks5_address_type, socks5_command, socks5_greeting,
    ReadyStep, READY_PAUSE, SOCKS5_COMMAND_REPLY, SOCKS5_GREETING_REPLY,
};
use crate::test_helpers::status::is_status;

verus! {

/// A poll ends with success as soon as the proxy is ready, and otherwise goes on until two
/// hundred requests have failed, ten milliseconds apart.
pub proof fn how_polls_go_on(failures: nat)
    ensures
        poll_step(failures, true) is Ready,
        failures < 199 ==> poll_step(failures, false) is Retry,
        failures >= 199 ==> poll_step(failures, false) is GiveUp,
        READY_PAUSE == 10 * 1_000_000,
{
}

/// A step says what it is.
pub proof fn steps_say_what_they_are(s: ReadyStep)
    ensures
        s is Ready <==> s@ is Ready,
        s is Retry <==> s@ is Retry,
        s is GiveUp <==> s@ is GiveUp,
{
}

/// The first answer that finds the proxy ready, or the last that there is, ends a poll; the
/// answers before it make it go on.
pub proof fn polls_go_answer_by_answer(answer: bool, rest: Seq<bool>, failures: nat)
    ensures
        polled(Seq::empty(), failures) is Retry,
        answer ==> polled(seq![answer] + rest, failures) is Ready,
        !answer && failures >= 199 ==> polled(seq![answer] + rest, failures) is GiveUp,
        !answer && failures < 199 ==> polled(seq![answer] + rest, failures) == polled(
            rest,
            failures + 1,
        ),
{
    let all = seq![answer] + rest;
    assert(all[0] == answer);
    assert(all.skip(1) =~= rest);
}

/// What a SOCKS5 client sends: it offers no authentication, and asks for a stream to an
/// address by its type, its octets in canonical form and its port, most significant byte
/// first.
pub proof fn what_socks5_clients_send(addr: SocketAddr)
    ensures
        socks5_greeting() == seq![5u8, 1u8, 0u8],
        addr.ip is V4 ==> socks5_address_type(addr) == 1,
        addr.ip is V6 ==> socks5_address_type(addr) == 4,
        ({
            let c = socks5_command(addr);
            let octets = addr.ip.canonical().octets_spec();
            let n = octets.len() as int;
            &&& c.len() == 6 + n
            &&& c[0] == 5
            &&& c[1] == 1
            &&& c[2] == 0
            &&& c[3] == if addr.ip is V4 {
                1u8
            } else {
                4u8
            }
            &&& c.subrange(4, 4 + n) == octets
            &&& c[4 + n] == addr.port / 256
            &&& c[5 + n] == addr.port % 256
        }),
        SOCKS5_GREETING_REPLY == 2,
        SOCKS5_COMMAND_REPLY == 10,
{
    reveal_with_fuel(be_bytes, 3);
    let octets = addr.ip.canonical().octets_spec();
    let n = octets.len() as int;
    assert(socks5_command(addr).subrange(4, 4 + n) =~= octets);
}

/// The node `local`, the address `127.0.0.1`, and the statuses of three digits.
pub proof fn where_proxies_are_tested(code: u16)
    ensures
        local_node() == "local"@,
        loopback() == IpAddr::V4((127 * 0x100_0000 + 1) as u32),
        is_status(code) <==> 100 <= code <= 999,
{
}

} // verus!

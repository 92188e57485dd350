//! How the host reaches the agent of a virtual machine, and how addresses are written.

use vstd::prelude::*;

use crate::container::address;
use crate::container::client;
use crate::container::client::{AgentSettings, Place, Received, ReplyStep, VmEndpoint};
use crate::text;
use crate::text_laws;
use crate::vm::BackendKind;

verus! {

/// The agent is reached at the virtual machine itself where QEMU runs it, and else through
/// the socket of the program that does; always at the port that is asked for.
pub proof fn law_agents_are_reached(vm: VmEndpoint, a: AgentSettings, cid: u32, port: u32)
    requires
        vm.agent == Some(a),
        a.enabled,
        vm.guest_cid == Some(cid),
    ensures
        vm.backend is Qemu ==> client::place_of(vm, port) == Ok::<Place, Seq<char>>(
            Place::Native(cid, port),
        ),
        vm.backend is CloudHypervisor || vm.backend is Firecracker || vm.backend is FluxVm ==> (
        vm.vsock_socket matches Some(s) ==> client::place_of(vm, port) == Ok::<Place, Seq<char>>(
            Place::Proxy(s@, port),
        )),
        !(vm.backend is Qemu) && vm.vsock_socket is None ==> client::place_of(vm, port) is Err,
        vm.backend is Auto ==> client::place_of(vm, port) is Err,
        a.token matches Some(t) ==> client::secret_of(vm) == Some(t@),
        a.token is None ==> client::secret_of(vm) is None,
{
}

/// A virtual machine without an agent, or without a number of its own, is not reached.
pub proof fn law_machines_without_agents_are_not_reached(vm: VmEndpoint, port: u32)
    requires
        vm.agent is None || !(vm.agent->0.enabled) || vm.guest_cid is None,
    ensures
        client::place_of(vm, port) is Err,
        vm.agent is None || !(vm.agent->0.enabled) ==> client::secret_of(vm) is None,
{
}

/// The relaying program accepts with a word in any case, whatever follows it; an answer that
/// begins otherwise refuses.
pub proof fn law_proxies_accept_with_a_word(o: char, k: char, rest: Seq<char>)
    requires
        o == 'O' || o == 'o',
        k == 'K' || k == 'k',
        rest.len() > 0 ==> !text::is_space(rest.last()),
    ensures
        client::proxy_accepts(seq![o, k] + rest),
        client::proxy_accepts((seq![o, k] + rest).push('\n')),
{
    let s = seq![o, k] + rest;
    let none = Seq::<char>::empty();
    let nl = seq!['\n'];
    assert(s[0] == o && s[1] == k);
    assert(s.last() == if rest.len() > 0 {
        rest.last()
    } else {
        k
    });
    assert(text_laws::is_blank(none));
    assert(text_laws::is_blank(nl));
    text_laws::law_trimming(none, s, none);
    text_laws::law_trimming(none, s, nl);
    assert(none + s + none =~= s);
    assert(none + s + nl =~= s.push('\n'));
    reveal_strlit("OK");
    let u = text::upper(s);
    assert(u[0] == 'O' && u[1] == 'K');
    assert("OK"@ =~= seq!['O', 'K']);
    assert(u.take(2) =~= seq!['O', 'K']);
}

/// An answer that begins otherwise refuses.
pub proof fn law_other_answers_refuse(s: Seq<char>)
    requires
        s.len() > 0,
        !text::is_space(s[0]),
        !text::is_space(s.last()),
        s[0] != 'O',
        s[0] != 'o',
    ensures
        !client::proxy_accepts(s),
{
    let none = Seq::<char>::empty();
    assert(text_laws::is_blank(none));
    text_laws::law_trimming(none, s, none);
    assert(none + s + none =~= s);
    reveal_strlit("OK");
    let u = text::upper(s);
    text_laws::law_cases(s, 0);
    if text::has_prefix(u, "OK"@) {
        assert(u.take(2)[0] == u[0]);
        assert("OK"@[0] == 'O');
    }
}

/// Connections are tried again after errors that pass, each time a little later, but not
/// after the deadline.
pub proof fn law_attempts_slow_down(errno: i32, attempt: nat, remaining: nat)
    requires
        errno == 11 || errno == 104 || errno == 111,
        remaining > 0,
    ensures
        client::backoff_of(errno, attempt, remaining) matches Some(n) && n <= remaining && n <= 50 * (
        attempt + 1) && (n == remaining || n == 50 * (attempt + 1)),
        client::backoff_of(errno, attempt, remaining)->0 <= client::backoff_of(
            errno,
            attempt + 1,
            remaining,
        )->0,
{
}

/// After other errors, or after the deadline, no connection is tried.
pub proof fn law_lasting_errors_end_attempts(errno: i32, attempt: nat, remaining: nat)
    requires
        (errno != 11 && errno != 104 && errno != 111) || remaining == 0,
    ensures
        client::backoff_of(errno, attempt, remaining) is None,
{
}

/// An answer is received byte by byte up to its line feed, which ends it.
pub proof fn law_answers_are_received(bytes: Seq<u8>, b: u8, remaining: u64)
    ensures
        b != 10 ==> client::reply_bytes(bytes, Received::Byte(b)) == bytes.push(b)
            && client::reply_step(Received::Byte(b), remaining) is More,
        client::reply_bytes(bytes, Received::Byte(10)) == bytes,
        client::reply_step(Received::Byte(10), remaining) is Complete,
        client::reply_step(Received::End, remaining) is Complete,
        client::reply_step(Received::Failure, remaining) is Failed,
        client::reply_step(Received::Nothing, 0) is Failed,
        remaining > 0 ==> client::reply_step(Received::Nothing, remaining) is More,
{
}

/// Addresses of four numbers are written with dots between them, and read so.
pub proof fn law_four_numbers_have_dots(a: nat, b: nat, c: nat, d: nat)
    requires
        a < 256,
        b < 256,
        c < 256,
        d < 256,
    ensures
        ({
            let t = text::decimal_text(a) + seq!['.'] + text::decimal_text(b) + seq!['.']
                + text::decimal_text(c) + seq!['.'] + text::decimal_text(d);
            let n = seq![a as int, b as int, c as int, d as int];
            &&& address::address_text(n) == t
            &&& address::address_of(t) == Some(n)
        }),
{
    let n = seq![a as int, b as int, c as int, d as int];
    address::law_address_round_trip(n);
    reveal_strlit(".");
    assert("."@ =~= seq!['.']);
    let f = |i: int| text::decimal_text(i as nat);
    let p = n.map_values(f);
    let p1 = seq![text::decimal_text(a)];
    let p2 = p1.push(text::decimal_text(b));
    let p3 = p2.push(text::decimal_text(c));
    let p4 = p3.push(text::decimal_text(d));
    assert(p =~= p4);
    assert(p2.drop_last() =~= p1);
    assert(p3.drop_last() =~= p2);
    assert(p4.drop_last() =~= p3);
    reveal_with_fuel(text::joined, 5);
}

} // verus!

//! The loopback address of code-server and what is said over it.

use vstd::prelude::*;

use crate::text;

verus! {

/// The address of a port on the loopback interface.
pub open spec fn address_text(port: u16) -> Seq<char> {
    "127.0.0.1:"@ + text::decimal(port as nat)
}

/// The request that asks code-server for a sign of life.
pub open spec fn health_request_text(port: u16) -> Seq<char> {
    "GET / HTTP/1.1\r\nHost: "@ + address_text(port) + "\r\nConnection: close\r\n\r\n"@
}

/// The script that sends the window to code-server.
pub open spec fn navigation_text(port: u16) -> Seq<char> {
    "window.location.href = 'http://"@ + address_text(port) + "';"@
}

/// The bytes of `HTTP/`, with which every status line begins.
pub open spec fn status_line_head() -> Seq<u8> {
    seq![0x48u8, 0x54u8, 0x54u8, 0x50u8, 0x2Fu8]
}

/// A reply counts as a response exactly if its first five bytes are the characters
/// `HTTP/`. One that is not finished is shorter than those and agrees with them: it is no
/// response yet, but some bytes make it one, which no other reply has.
pub proof fn law_responses_begin_with_http(reply: Seq<u8>)
    ensures
        status_line_head().is_prefix_of(reply) <==> reply.len() >= 5 && reply[0] == 0x48 && reply[1] == 0x54
            && reply[2] == 0x54 && reply[3] == 0x50 && reply[4] == 0x2F,
        is_unfinished(reply) <==> reply.len() < 5 && (reply.len() < 1 || reply[0] == 0x48) && (reply.len() < 2
            || reply[1] == 0x54) && (reply.len() < 3 || reply[2] == 0x54) && (reply.len() < 4 || reply[3] == 0x50),
        is_unfinished(reply) <==> !status_line_head().is_prefix_of(reply) && exists|more: Seq<u8>| #[trigger]
            status_line_head().is_prefix_of(reply + more),
{
    let head = status_line_head();
    let n = reply.len() as int;
    assert(head.len() == 5);
    if head.is_prefix_of(reply) {
        assert forall|i: int| 0 <= i < 5 implies head[i] == reply[i] by {
            assert(reply.subrange(0, 5)[i] == reply[i]);
        }
    }
    if reply.len() >= 5 && reply[0] == 0x48 && reply[1] == 0x54 && reply[2] == 0x54 && reply[3] == 0x50
        && reply[4] == 0x2F {
        assert(reply.subrange(0, 5) =~= head);
    }
    if reply.len() < 5 && reply.is_prefix_of(head) {
        assert forall|i: int| 0 <= i < n implies reply[i] == head[i] by {
            assert(head.subrange(0, n)[i] == head[i]);
        }
    }
    if reply.len() < 5 && (n < 1 || reply[0] == 0x48) && (n < 2 || reply[1] == 0x54) && (n < 3 || reply[2]
        == 0x54) && (n < 4 || reply[3] == 0x50) {
        assert(head.subrange(0, n) =~= reply);
    }
    if is_unfinished(reply) {
        let more = head.skip(n);
        assert(reply + more =~= head);
        assert(head.subrange(0, 5) =~= head);
        assert(head.is_prefix_of(reply + more));
    }
    if !head.is_prefix_of(reply) && exists|more: Seq<u8>| #[trigger] head.is_prefix_of(reply + more) {
        let more = choose|more: Seq<u8>| #[trigger] head.is_prefix_of(reply + more);
        assert forall|i: int| 0 <= i < 5 implies head[i] == (reply + more)[i] by {
            assert((reply + more).subrange(0, 5)[i] == (reply + more)[i]);
        }
        if n >= 5 {
            assert(reply.subrange(0, 5) =~= head);
        } else {
            assert(head.subrange(0, n) =~= reply);
        }
    }
}

/// The address of a port is that of the loopback interface, a colon, and the number of the
/// port: what follows the colon consists of digits, without a leading zero, and reads as
/// that number.
pub proof fn law_address_is_on_the_loopback_interface(port: u16)
    ensures
        address_text(port).take(10) == "127.0.0.1:"@,
        text::decimal_value(address_text(port).skip(10)) == port,
        forall|i: int|
            10 <= i < address_text(port).len() ==> 48 <= (#[trigger] address_text(port)[i]) as int <= 57,
        address_text(port).len() > 10,
        port > 0 ==> address_text(port)[10] != '0',
{
    reveal_strlit("127.0.0.1:");
    let number = text::decimal(port as nat);
    assert(address_text(port).take(10) =~= "127.0.0.1:"@);
    assert(address_text(port).skip(10) =~= number);
    text::law_decimal_reads_back(port as nat);
    text::law_decimal_is_plain(port as nat);
    assert forall|i: int| 10 <= i < address_text(port).len() implies 48 <= (#[trigger] address_text(
        port,
    )[i]) as int <= 57 by {
        assert(address_text(port)[i] == number[i - 10]);
    }
}

/// Whatever the port is, the request for a sign of life is that for `/`, names the address
/// of the port as its host and asks for the connection to be closed; and the window is sent
/// to that same address. The texts of two ports differ in the address only.
pub proof fn law_address_is_asked_and_shown(port: u16)
    ensures
        health_request_text(port) == "GET / HTTP/1.1\r\nHost: 127.0.0.1:"@ + text::decimal(port as nat)
            + "\r\nConnection: close\r\n\r\n"@,
        navigation_text(port) == "window.location.href = 'http://127.0.0.1:"@ + text::decimal(port as nat)
            + "';"@,
{
    reveal_strlit("127.0.0.1:");
    reveal_strlit("GET / HTTP/1.1\r\nHost: ");
    reveal_strlit("GET / HTTP/1.1\r\nHost: 127.0.0.1:");
    reveal_strlit("window.location.href = 'http://");
    reveal_strlit("window.location.href = 'http://127.0.0.1:");
    assert("GET / HTTP/1.1\r\nHost: "@ + "127.0.0.1:"@ =~= "GET / HTTP/1.1\r\nHost: 127.0.0.1:"@);
    assert("window.location.href = 'http://"@ + "127.0.0.1:"@ =~= "window.location.href = 'http://127.0.0.1:"@);
    let number = text::decimal(port as nat);
    assert(health_request_text(port) =~= "GET / HTTP/1.1\r\nHost: "@ + "127.0.0.1:"@ + number
        + "\r\nConnection: close\r\n\r\n"@);
    assert(navigation_text(port) =~= "window.location.href = 'http://"@ + "127.0.0.1:"@ + number + "';"@);
}

/// Different ports have different addresses.
pub proof fn law_addresses_differ(a: u16, b: u16)
    requires
        a != b,
    ensures
        address_text(a) != address_text(b),
{
    if address_text(a) == address_text(b) {
        let n = "127.0.0.1:"@.len() as int;
        assert(address_text(a).skip(n) =~= text::decimal(a as nat));
        assert(address_text(b).skip(n) =~= text::decimal(b as nat));
        text::law_decimal_reads_back(a as nat);
        text::law_decimal_reads_back(b as nat);
    }
}

/// The address of a port on the loopback interface.
pub fn address(port: u16) -> (s: String)
    ensures
        s@ == address_text(port),
{
    text::joined("127.0.0.1:", text::to_decimal(port as u64).as_str())
}

/// The request that asks code-server for a sign of life.
pub fn health_request(port: u16) -> (s: String)
    ensures
        s@ == health_request_text(port),
{
    let mut s = text::joined("GET / HTTP/1.1\r\nHost: ", address(port).as_str());
    s.append("\r\nConnection: close\r\n\r\n");
    s
}

/// The script that sends the window to code-server.
pub fn navigation_script(port: u16) -> (s: String)
    ensures
        s@ == navigation_text(port),
{
    let mut s = text::joined("window.location.href = 'http://", address(port).as_str());
    s.append("';");
    s
}

/// Tells whether a reply begins like an HTTP response.
pub fn is_http_response(reply: &[u8]) -> (b: bool)
    ensures
        b == status_line_head().is_prefix_of(reply@),
{
    let b = reply.len() >= 5 && reply[0] == 0x48 && reply[1] == 0x54 && reply[2] == 0x54
        && reply[3] == 0x50 && reply[4] == 0x2F;
    proof {
        if b {
            assert(reply@.subrange(0, 5) =~= status_line_head());
        } else if status_line_head().is_prefix_of(reply@) {
            assert(forall|i: int| 0 <= i < 5 ==> status_line_head()[i] == reply@.subrange(0, 5)[i]);
            assert(status_line_head()[0] == reply@[0]);
            assert(status_line_head()[1] == reply@[1]);
            assert(status_line_head()[2] == reply@[2]);
            assert(status_line_head()[3] == reply@[3]);
            assert(status_line_head()[4] == reply@[4]);
        }
    }
    b
}

/// Whether more bytes could still make a reply begin like an HTTP response.
pub open spec fn is_unfinished(reply: Seq<u8>) -> bool {
    reply.len() < status_line_head().len() && reply.is_prefix_of(status_line_head())
}

/// Tells whether more bytes could still make a reply begin like an HTTP response.
pub fn may_become_response(reply: &[u8]) -> (b: bool)
    ensures
        b == is_unfinished(reply@),
{
    let n: usize = reply.len();
    let b = n < 5 && (n < 1 || reply[0] == 0x48) && (n < 2 || reply[1] == 0x54) && (n < 3 || reply[2]
        == 0x54) && (n < 4 || reply[3] == 0x50);
    proof {
        let head = status_line_head();
        if b {
            assert(head.subrange(0, n as int) =~= reply@);
        } else if n < 5 && reply@.is_prefix_of(head) {
            assert(forall|i: int| 0 <= i < n ==> reply@[i] == head.subrange(0, n as int)[i]);
            assert(n > 0 ==> reply@[0] == head[0]);
            assert(n > 1 ==> reply@[1] == head[1]);
            assert(n > 2 ==> reply@[2] == head[2]);
            assert(n > 3 ==> reply@[3] == head[3]);
        }
    }
    b
}

} // verus!

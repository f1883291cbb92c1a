//! The exact texts the harness hands to its collaborators: the decimal
//! rendering of a port, the broker's listen arguments and connection URL, and
//! the session-establishment URL for the layered upgrade.

use vstd::prelude::*;

verus! {

/// The character for one decimal digit.
pub open spec fn digit_char(d: nat) -> char {
    if d == 0 {
        '0'
    } else if d == 1 {
        '1'
    } else if d == 2 {
        '2'
    } else if d == 3 {
        '3'
    } else if d == 4 {
        '4'
    } else if d == 5 {
        '5'
    } else if d == 6 {
        '6'
    } else if d == 7 {
        '7'
    } else if d == 8 {
        '8'
    } else {
        '9'
    }
}

/// The decimal rendering of a number: most significant digit first, no sign,
/// no leading zero except for the number zero itself.
pub open spec fn dec_rep(n: nat) -> Seq<char>
    decreases n,
{
    if n < 10 {
        seq![digit_char(n)]
    } else {
        dec_rep(n / 10) + seq![digit_char(n % 10)]
    }
}

/// The one-character string for a decimal digit.
fn digit_str(d: u16) -> (r: &'static str)
    requires
        d < 10,
    ensures
        r@ =~= seq![digit_char(d as nat)],
{
    proof {
        reveal_strlit("0");
        reveal_strlit("1");
        reveal_strlit("2");
        reveal_strlit("3");
        reveal_strlit("4");
        reveal_strlit("5");
        reveal_strlit("6");
        reveal_strlit("7");
        reveal_strlit("8");
        reveal_strlit("9");
    }
    match d {
        0 => "0",
        1 => "1",
        2 => "2",
        3 => "3",
        4 => "4",
        5 => "5",
        6 => "6",
        7 => "7",
        8 => "8",
        _ => "9",
    }
}

/// Appends the decimal rendering of `n` to `out`.
fn push_dec(n: u16, out: &mut String)
    ensures
        final(out)@ == old(out)@ + dec_rep(n as nat),
    decreases n,
{
    if n >= 10 {
        push_dec(n / 10, out);
    }
    out.append(digit_str(n % 10));
    proof {
        assert(final(out)@ =~= old(out)@ + dec_rep(n as nat));
    }
}

/// The decimal text of a port number.
pub fn port_text(port: u16) -> (r: String)
    ensures
        r@ == dec_rep(port as nat),
{
    let mut out = String::new();
    push_dec(port, &mut out);
    proof {
        assert(out@ =~= dec_rep(port as nat));
    }
    out
}

/// The URL the harness connects a broker client to, for a broker listening
/// on the given loopback port.
pub open spec fn broker_url_chars(port: u16) -> Seq<char> {
    "nats://localhost:"@ + dec_rep(port as nat)
}

/// Builds the broker connection URL for a loopback port.
pub fn broker_url(port: u16) -> (r: String)
    ensures
        r@ == broker_url_chars(port),
{
    let mut out = String::from_str("nats://localhost:");
    push_dec(port, &mut out);
    out
}

/// The arguments the broker process is started with: TLS switched off and the
/// listen port given in decimal.
pub open spec fn broker_args_chars(port: u16) -> Seq<Seq<char>> {
    seq!["-T=false"@, "-p"@, dec_rep(port as nat)]
}

/// Builds the broker's argument list for a loopback listen port.
pub fn broker_args(port: u16) -> (r: Vec<String>)
    ensures
        r@.len() == 3,
        r@[0]@ == broker_args_chars(port)[0],
        r@[1]@ == broker_args_chars(port)[1],
        r@[2]@ == broker_args_chars(port)[2],
{
    let mut out: Vec<String> = Vec::new();
    out.push(String::from_str("-T=false"));
    out.push(String::from_str("-p"));
    out.push(port_text(port));
    out
}

/// The session-establishment target for the layered upgrade: an `https` URL
/// naming the server identity and its bound port. The scheme is used purely
/// as a session target identifier, not for HTTP semantics.
pub open spec fn session_url_chars(port: u16) -> Seq<char> {
    "https://localhost:"@ + dec_rep(port as nat)
}

/// Builds the session-establishment URL text for a server bound to the given
/// loopback port.
pub fn session_url_text(port: u16) -> (r: String)
    ensures
        r@ == session_url_chars(port),
{
    let mut out = String::from_str("https://localhost:");
    push_dec(port, &mut out);
    out
}

} // verus!

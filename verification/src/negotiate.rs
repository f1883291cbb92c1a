//! Session negotiation: the both-or-none join over the two sides of the
//! concurrent handshake.
//!
//! The client's connect/handshake and the server's accept/handshake progress
//! independently, in either order; the connecting and accepting itself
//! happens outside this module. Once each side's outcome is known, the join
//! here decides the negotiation: a pair of fully established sessions when
//! both sides succeeded, or the failing side's error with the other side's
//! session discarded — never a half-established pair.

use vstd::prelude::*;

use crate::text;
use crate::Error;

verus! {

#[verifier::external_type_specification]
#[verifier::external_body]
pub struct ExUrl(url::Url);

/// The URL value a text parses to, or nothing when the text is no URL.
/// Parsing is a function of the text alone.
pub uninterp spec fn url_parse_of(s: Seq<char>) -> Option<url::Url>;

/// Relies on url::Url::parse: the given text parsed as a URL — a function of
/// the text alone — or a failure exactly when the text is no URL.
#[verifier::external_body]
fn parse_url(s: &str) -> (r: Result<url::Url, ()>)
    ensures
        r is Ok <==> url_parse_of(s@) is Some,
        r is Ok ==> r->Ok_0 == url_parse_of(s@)->0,
{
    url::Url::parse(s).map_err(|_| ())
}

/// The session-establishment target for the layered upgrade: exactly the
/// parse of the `https` text naming the server identity and its bound port.
pub fn session_url(port: u16) -> (r: Result<url::Url, Error>)
    ensures
        r is Ok <==> url_parse_of(text::session_url_chars(port)) is Some,
        r is Ok ==> r->Ok_0 == url_parse_of(text::session_url_chars(port))->0,
        r is Err ==> r->Err_0 == Error::UrlParse,
{
    let text = text::session_url_text(port);
    match parse_url(text.as_str()) {
        Ok(u) => Ok(u),
        Err(()) => Err(Error::UrlParse),
    }
}

/// What the join decides for a pair of side outcomes: the pair when both
/// succeeded, the client's error when the client failed, else the server's.
pub open spec fn join_spec<C, S>(clt: Result<C, Error>, srv: Result<S, Error>) -> Result<
    (C, S),
    Error,
> {
    match (clt, srv) {
        (Ok(c), Ok(s)) => Ok((c, s)),
        (Err(e), _) => Err(e),
        (_, Err(e)) => Err(e),
    }
}

/// Joins the two sides' outcomes into the negotiation verdict. Succeeds if
/// and only if both sides completed their handshake; on failure neither
/// side's session is handed out.
pub fn join_sides<C, S>(clt: Result<C, Error>, srv: Result<S, Error>) -> (r: Result<(C, S), Error>)
    ensures
        r == join_spec(clt, srv),
        r is Ok <==> (clt is Ok && srv is Ok),
{
    match (clt, srv) {
        (Ok(c), Ok(s)) => Ok((c, s)),
        (Err(e), _) => Err(e),
        (_, Err(e)) => Err(e),
    }
}

/// Both sessions or none: the join hands out a pair exactly when both sides
/// established their session, the pair is those two sessions, and on any
/// failure the verdict is one failing side's own error.
pub proof fn lemma_join_both_or_none<C, S>(clt: Result<C, Error>, srv: Result<S, Error>)
    ensures
        join_spec(clt, srv) is Ok <==> (clt is Ok && srv is Ok),
        clt is Ok && srv is Ok ==> join_spec(clt, srv) == Ok::<(C, S), Error>(
            (clt->Ok_0, srv->Ok_0),
        ),
        join_spec(clt, srv) is Err ==> join_spec::<C, S>(clt, srv)->Err_0 == if clt is Err {
            clt->Err_0
        } else {
            srv->Err_0
        },
{
}

} // verus!

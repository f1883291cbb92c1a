//! Ephemeral port allocation: the decision part.
//!
//! The harness obtains a free port by briefly binding a loopback listener on
//! port 0 and reading back the port the operating system assigned. The
//! fallible socket work happens outside this module; the function here turns
//! the two observed outcomes (did the bind succeed, and what address query
//! result came back) into the harness's verdict. The allocation is advisory
//! only: the socket is released before the port is handed out, so another
//! process may claim it before the caller binds it again.

use vstd::prelude::*;

use crate::Error;

verus! {

/// Turns the observed outcomes of the bind step and the address-query step
/// into the allocation verdict.
///
/// `bound` says whether the listening socket could be opened at all;
/// `queried` carries the port reported for the bound socket, or `None` when
/// the query itself failed. A bound socket always carries a concrete,
/// nonzero port, so a reported port of zero means the query did not yield a
/// usable address and is rejected the same way as a failed query. Every port
/// returned on success is therefore in the range 1..=65535.
pub fn finish_port_allocation(bound: bool, queried: Option<u16>) -> (r: Result<u16, Error>)
    ensures
        !bound ==> r == Err::<u16, Error>(Error::Bind),
        bound && queried is None ==> r == Err::<u16, Error>(Error::QueryAddress),
        bound && queried is Some && queried->0 != 0 ==> r == Ok::<u16, Error>(queried->0),
        bound && queried == Some(0u16) ==> r == Err::<u16, Error>(Error::QueryAddress),
        r is Ok ==> 1 <= r->Ok_0 <= 65535,
{
    if !bound {
        Err(Error::Bind)
    } else {
        match queried {
            None => Err(Error::QueryAddress),
            Some(p) => {
                if p == 0 {
                    Err(Error::QueryAddress)
                } else {
                    Ok(p)
                }
            }
        }
    }
}

} // verus!

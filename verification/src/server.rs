//! Computable decisions of the request-serving support.
//!
//! The bodies, headers and sockets live at the program's edge; the edge
//! reports plain values and the decisions are made here.

use vstd::prelude::*;

verus! {

/// Whether a request body passes the configured size ceiling.
///
/// `size_upper` is the body's declared upper size bound, if it has one;
/// `max_allowed` is the configured ceiling, if any. With no ceiling every
/// body passes; with one, only a body whose upper bound is known and
/// strictly below the ceiling does — an unbounded body is rejected.
pub fn is_content_within_size_range(size_upper: Option<u64>, max_allowed: Option<u64>) -> (r: bool)
    ensures
        max_allowed is None ==> r,
        max_allowed matches Some(m) ==> r == (size_upper matches Some(u) && u < m),
{
    match max_allowed {
        None => true,
        Some(m) => match size_upper {
            Some(u) => u < m,
            None => false,
        },
    }
}

/// Picks the client address from the forwarding headers, in precedence
/// order: `x-forwarded-for` first, then `x-real-ip`, then `forwarded`.
/// The headers themselves are read at the edge; whichever is present
/// first wins, and none present means no client address.
pub fn get_client_ip<T>(forwarded_for: Option<T>, real_ip: Option<T>, forwarded: Option<T>) -> (r:
    Option<T>)
    ensures
        forwarded_for is Some ==> r == forwarded_for,
        forwarded_for is None && real_ip is Some ==> r == real_ip,
        forwarded_for is None && real_ip is None ==> r == forwarded,
{
    match forwarded_for {
        Some(v) => Some(v),
        None => match real_ip {
            Some(v) => Some(v),
            None => forwarded,
        },
    }
}

} // verus!

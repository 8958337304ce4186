//! Routes below the address of follows on the federation surface.

use crate::auth::{read_uuid, uuid_value};
use crate::response::RoutingFailure;
use crate::routes::{at_end, is_method, method_not_allowed, not_found, take_text, text_child};
use crate::text::chars_of;
use vstd::prelude::*;

verus! {

/// An operation on a follow that peers can ask for.
#[derive(Debug, Clone, Copy, PartialEq, Eq, Structural)]
pub enum FollowRoute {
    /// The follow activity published under this number.
    Get { follow: u128 },
}

/// The operation that a method and a path stand for. The path is what
/// follows `follows/` in the request: the UUID of a follow and nothing more.
pub open spec fn follow_route(method: Seq<char>, path: Seq<char>) -> Result<
    FollowRoute,
    RoutingFailure,
> {
    if path.len() == 0 {
        Err(RoutingFailure::MethodNotAllowed)
    } else {
        match text_child(path) {
            Some((text, rest)) => match uuid_value(text) {
                Some(follow) => if rest.len() != 0 {
                    Err(RoutingFailure::NotFound)
                } else if method == "GET"@ {
                    Ok(FollowRoute::Get { follow })
                } else {
                    Err(RoutingFailure::MethodNotAllowed)
                },
                None => Err(RoutingFailure::NotFound),
            },
            None => Err(RoutingFailure::NotFound),
        }
    }
}

/// Finds the operation on a follow that a peer asks for. `path` is what
/// follows `follows/` in the request path; `method` is the request method in
/// capitals.
pub fn route_follows(method: &str, path: &str) -> (r: Result<FollowRoute, RoutingFailure>)
    ensures
        r == follow_route(method@, path@),
{
    let p = chars_of(path);
    assert(p@.skip(0) == p@);
    if at_end(p.as_slice(), 0) {
        return method_not_allowed();
    }
    let (text, next) = match take_text(p.as_slice(), 0) {
        Some(found) => found,
        None => {
            return not_found();
        },
    };
    let follow = match read_uuid(text.as_str()) {
        Some(follow) => follow,
        None => {
            return not_found();
        },
    };
    if !at_end(p.as_slice(), next) {
        return not_found();
    }
    if is_method(method, "GET") {
        Ok(FollowRoute::Get { follow })
    } else {
        method_not_allowed()
    }
}

} // verus!

//! Routes below the address of users on the federation surface.

use crate::response::RoutingFailure;
use crate::routes::{
    at_end, behind_child, is_method, method_not_allowed, not_found, number_child, take_child,
    take_number,
};
use crate::text::chars_of;
use vstd::prelude::*;

verus! {

/// An operation on a user that peers can ask for.
#[derive(Debug, Clone, Copy, PartialEq, Eq, Structural)]
pub enum UserRoute {
    /// The user's actor document.
    Get { user: i64 },
    /// Delivery of an activity to the user's inbox.
    InboxPost { user: i64 },
}

/// Below a user's number: the actor document, and the inbox.
pub open spec fn user_node(method: Seq<char>, path: Seq<char>, user: i64) -> Result<
    UserRoute,
    RoutingFailure,
> {
    if path.len() == 0 {
        if method == "GET"@ {
            Ok(UserRoute::Get { user })
        } else {
            Err(RoutingFailure::MethodNotAllowed)
        }
    } else {
        match behind_child(path, "inbox"@) {
            Some(rest) => if rest.len() == 0 {
                if method == "POST"@ {
                    Ok(UserRoute::InboxPost { user })
                } else {
                    Err(RoutingFailure::MethodNotAllowed)
                }
            } else {
                Err(RoutingFailure::NotFound)
            },
            None => Err(RoutingFailure::NotFound),
        }
    }
}

/// The operation that a method and a path stand for. The path is what
/// follows `users/` in the request.
pub open spec fn user_route(method: Seq<char>, path: Seq<char>) -> Result<
    UserRoute,
    RoutingFailure,
> {
    if path.len() == 0 {
        Err(RoutingFailure::MethodNotAllowed)
    } else {
        match number_child(path) {
            Some((user, rest)) => user_node(method, rest, user),
            None => Err(RoutingFailure::NotFound),
        }
    }
}

/// Finds the operation on a user that a peer asks for. `path` is what
/// follows `users/` in the request path; `method` is the request method in
/// capitals.
pub fn route_users(method: &str, path: &str) -> (r: Result<UserRoute, RoutingFailure>)
    ensures
        r == user_route(method@, path@),
{
    let p = chars_of(path);
    assert(p@.skip(0) == p@);
    if at_end(p.as_slice(), 0) {
        return method_not_allowed();
    }
    let (user, next) = match take_number(p.as_slice(), 0) {
        Some(found) => found,
        None => {
            return not_found();
        },
    };
    if at_end(p.as_slice(), next) {
        if is_method(method, "GET") {
            return Ok(UserRoute::Get { user });
        }
        return method_not_allowed();
    }
    match take_child(p.as_slice(), next, "inbox") {
        Some(end) => {
            if at_end(p.as_slice(), end) {
                if is_method(method, "POST") {
                    Ok(UserRoute::InboxPost { user })
                } else {
                    method_not_allowed()
                }
            } else {
                not_found()
            }
        },
        None => not_found(),
    }
}

} // verus!

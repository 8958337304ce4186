//! Routes below the address of communities on the federation surface.

use crate::response::RoutingFailure;
use crate::routes::{
    at_end, behind_child, is_method, method_not_allowed, not_found, number_child, take_child,
    take_number,
};
use crate::text::chars_of;
use vstd::prelude::*;

verus! {

/// An operation on a community that peers can ask for.
#[derive(Debug, Clone, Copy, PartialEq, Eq, Structural)]
pub enum CommunityRoute {
    /// The community's actor document.
    Get { community: i64 },
    /// The announcement the community makes of a comment.
    CommentAnnounceGet { community: i64, comment: i64 },
    /// The collection of followers.
    FollowersList { community: i64 },
    /// The proof that one user follows the community.
    FollowerGet { community: i64, user: i64 },
    /// Delivery of an activity to the community's inbox.
    InboxPost { community: i64 },
    /// The announcement the community makes of a post.
    PostAnnounceGet { community: i64, post: i64 },
}

/// A node with one handler and no children.
pub open spec fn end_node(method: Seq<char>, path: Seq<char>, verb: Seq<char>, route: CommunityRoute)
    -> Result<CommunityRoute, RoutingFailure> {
    if path.len() == 0 {
        if method == verb {
            Ok(route)
        } else {
            Err(RoutingFailure::MethodNotAllowed)
        }
    } else {
        Err(RoutingFailure::NotFound)
    }
}

/// A node without handlers whose only child is `announce`.
pub open spec fn announce_node(method: Seq<char>, path: Seq<char>, route: CommunityRoute) -> Result<
    CommunityRoute,
    RoutingFailure,
> {
    if path.len() == 0 {
        Err(RoutingFailure::MethodNotAllowed)
    } else {
        match behind_child(path, "announce"@) {
            Some(rest) => end_node(method, rest, "GET"@, route),
            None => Err(RoutingFailure::NotFound),
        }
    }
}

/// Below `comments`: a comment's number, then `announce`.
pub open spec fn comments_node(method: Seq<char>, path: Seq<char>, community: i64) -> Result<
    CommunityRoute,
    RoutingFailure,
> {
    if path.len() == 0 {
        Err(RoutingFailure::MethodNotAllowed)
    } else {
        match number_child(path) {
            Some((comment, rest)) => announce_node(
                method,
                rest,
                CommunityRoute::CommentAnnounceGet { community, comment },
            ),
            None => Err(RoutingFailure::NotFound),
        }
    }
}

/// Below `posts`: a post's number, then `announce`.
pub open spec fn posts_node(method: Seq<char>, path: Seq<char>, community: i64) -> Result<
    CommunityRoute,
    RoutingFailure,
> {
    if path.len() == 0 {
        Err(RoutingFailure::MethodNotAllowed)
    } else {
        match number_child(path) {
            Some((post, rest)) => announce_node(
                method,
                rest,
                CommunityRoute::PostAnnounceGet { community, post },
            ),
            None => Err(RoutingFailure::NotFound),
        }
    }
}

/// Below `followers`: the collection itself, or one follower's number.
pub open spec fn followers_node(method: Seq<char>, path: Seq<char>, community: i64) -> Result<
    CommunityRoute,
    RoutingFailure,
> {
    if path.len() == 0 {
        if method == "GET"@ {
            Ok(CommunityRoute::FollowersList { community })
        } else {
            Err(RoutingFailure::MethodNotAllowed)
        }
    } else {
        match number_child(path) {
            Some((user, rest)) => end_node(
                method,
                rest,
                "GET"@,
                CommunityRoute::FollowerGet { community, user },
            ),
            None => Err(RoutingFailure::NotFound),
        }
    }
}

/// Below a community's number. The children are tried in this order.
pub open spec fn community_node(method: Seq<char>, path: Seq<char>, community: i64) -> Result<
    CommunityRoute,
    RoutingFailure,
> {
    if path.len() == 0 {
        if method == "GET"@ {
            Ok(CommunityRoute::Get { community })
        } else {
            Err(RoutingFailure::MethodNotAllowed)
        }
    } else if behind_child(path, "comments"@) is Some {
        comments_node(method, behind_child(path, "comments"@)->0, community)
    } else if behind_child(path, "followers"@) is Some {
        followers_node(method, behind_child(path, "followers"@)->0, community)
    } else if behind_child(path, "inbox"@) is Some {
        end_node(
            method,
            behind_child(path, "inbox"@)->0,
            "POST"@,
            CommunityRoute::InboxPost { community },
        )
    } else if behind_child(path, "posts"@) is Some {
        posts_node(method, behind_child(path, "posts"@)->0, community)
    } else {
        Err(RoutingFailure::NotFound)
    }
}

/// The operation that a method and a path stand for. The path is what
/// follows `communities/` in the request.
pub open spec fn community_route(method: Seq<char>, path: Seq<char>) -> Result<
    CommunityRoute,
    RoutingFailure,
> {
    if path.len() == 0 {
        Err(RoutingFailure::MethodNotAllowed)
    } else {
        match number_child(path) {
            Some((community, rest)) => community_node(method, rest, community),
            None => Err(RoutingFailure::NotFound),
        }
    }
}

fn route_end(method: &str, path: &[char], at: usize, verb: &str, route: CommunityRoute) -> (r:
    Result<CommunityRoute, RoutingFailure>)
    requires
        at <= path.len(),
    ensures
        r == end_node(method@, path@.skip(at as int), verb@, route),
{
    if at_end(path, at) {
        if is_method(method, verb) {
            Ok(route)
        } else {
            method_not_allowed()
        }
    } else {
        not_found()
    }
}

fn route_announce(method: &str, path: &[char], at: usize, route: CommunityRoute) -> (r: Result<
    CommunityRoute,
    RoutingFailure,
>)
    requires
        at <= path.len(),
    ensures
        r == announce_node(method@, path@.skip(at as int), route),
{
    if at_end(path, at) {
        return method_not_allowed();
    }
    match take_child(path, at, "announce") {
        Some(next) => route_end(method, path, next, "GET", route),
        None => not_found(),
    }
}

fn route_comments(method: &str, path: &[char], at: usize, community: i64) -> (r: Result<
    CommunityRoute,
    RoutingFailure,
>)
    requires
        at <= path.len(),
    ensures
        r == comments_node(method@, path@.skip(at as int), community),
{
    if at_end(path, at) {
        return method_not_allowed();
    }
    match take_number(path, at) {
        Some((comment, next)) => route_announce(
            method,
            path,
            next,
            CommunityRoute::CommentAnnounceGet { community, comment },
        ),
        None => not_found(),
    }
}

fn route_posts(method: &str, path: &[char], at: usize, community: i64) -> (r: Result<
    CommunityRoute,
    RoutingFailure,
>)
    requires
        at <= path.len(),
    ensures
        r == posts_node(method@, path@.skip(at as int), community),
{
    if at_end(path, at) {
        return method_not_allowed();
    }
    match take_number(path, at) {
        Some((post, next)) => route_announce(
            method,
            path,
            next,
            CommunityRoute::PostAnnounceGet { community, post },
        ),
        None => not_found(),
    }
}

fn route_followers(method: &str, path: &[char], at: usize, community: i64) -> (r: Result<
    CommunityRoute,
    RoutingFailure,
>)
    requires
        at <= path.len(),
    ensures
        r == followers_node(method@, path@.skip(at as int), community),
{
    if at_end(path, at) {
        if is_method(method, "GET") {
            return Ok(CommunityRoute::FollowersList { community });
        }
        return method_not_allowed();
    }
    match take_number(path, at) {
        Some((user, next)) => route_end(
            method,
            path,
            next,
            "GET",
            CommunityRoute::FollowerGet { community, user },
        ),
        None => not_found(),
    }
}

fn route_community(method: &str, path: &[char], at: usize, community: i64) -> (r: Result<
    CommunityRoute,
    RoutingFailure,
>)
    requires
        at <= path.len(),
    ensures
        r == community_node(method@, path@.skip(at as int), community),
{
    if at_end(path, at) {
        if is_method(method, "GET") {
            return Ok(CommunityRoute::Get { community });
        }
        return method_not_allowed();
    }
    if let Some(next) = take_child(path, at, "comments") {
        return route_comments(method, path, next, community);
    }
    if let Some(next) = take_child(path, at, "followers") {
        return route_followers(method, path, next, community);
    }
    if let Some(next) = take_child(path, at, "inbox") {
        return route_end(method, path, next, "POST", CommunityRoute::InboxPost { community });
    }
    if let Some(next) = take_child(path, at, "posts") {
        return route_posts(method, path, next, community);
    }
    not_found()
}

/// Finds the operation on a community that a peer asks for. `path` is what
/// follows `communities/` in the request path; `method` is the request
/// method in capitals.
pub fn route_communities(method: &str, path: &str) -> (r: Result<CommunityRoute, RoutingFailure>)
    ensures
        r == community_route(method@, path@),
{
    let p = chars_of(path);
    assert(p@.skip(0) == p@);
    if at_end(p.as_slice(), 0) {
        return method_not_allowed();
    }
    match take_number(p.as_slice(), 0) {
        Some((community, next)) => route_community(method, p.as_slice(), next, community),
        None => not_found(),
    }
}

} // verus!

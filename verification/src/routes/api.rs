//! Routes of the client API: which operation a method and a path stand for.

use crate::response::RoutingFailure;
use crate::routes::{
    at_end, behind_child, is_method, method_not_allowed, not_found, number_child, take_child,
    take_number, take_text, text_child,
};
use crate::text::{chars_of, slice_of, string_of};
use vstd::prelude::*;

verus! {

/// An operation of the client API, with the parameters taken from the path.
#[derive(Debug, Clone, PartialEq, Eq)]
pub enum ApiRoute {
    ActorsLookup { query: String },
    LoginsCreate,
    LoginsCurrentGet,
    NodeInfo20Get,
    /// The path leads into the routes of communities; `path` is what is left
    /// of it.
    Communities { path: String },
    InstanceGet,
    PostsList,
    PostsCreate,
    PostsGet { post: i64 },
    PostsDelete { post: i64 },
    PostsLike { post: i64 },
    PostsUnlike { post: i64 },
    PostsRepliesCreate { post: i64 },
    CommentsGet { comment: i64 },
    CommentsDelete { comment: i64 },
    CommentsLike { comment: i64 },
    CommentsUnlike { comment: i64 },
    CommentsRepliesCreate { comment: i64 },
    UsersCreate,
    UsersMePatch,
    UsersMeFollowingPostsList,
    UsersGet { user: i64 },
    UsersThingsList { user: i64 },
}

/// `ApiRoute` with its strings as sequences of characters.
pub enum ApiRouteView {
    ActorsLookup { query: Seq<char> },
    LoginsCreate,
    LoginsCurrentGet,
    NodeInfo20Get,
    Communities { path: Seq<char> },
    InstanceGet,
    PostsList,
    PostsCreate,
    PostsGet { post: i64 },
    PostsDelete { post: i64 },
    PostsLike { post: i64 },
    PostsUnlike { post: i64 },
    PostsRepliesCreate { post: i64 },
    CommentsGet { comment: i64 },
    CommentsDelete { comment: i64 },
    CommentsLike { comment: i64 },
    CommentsUnlike { comment: i64 },
    CommentsRepliesCreate { comment: i64 },
    UsersCreate,
    UsersMePatch,
    UsersMeFollowingPostsList,
    UsersGet { user: i64 },
    UsersThingsList { user: i64 },
}

impl View for ApiRoute {
    type V = ApiRouteView;

    open spec fn view(&self) -> ApiRouteView {
        match *self {
            ApiRoute::ActorsLookup { query } => ApiRouteView::ActorsLookup { query: query@ },
            ApiRoute::LoginsCreate => ApiRouteView::LoginsCreate,
            ApiRoute::LoginsCurrentGet => ApiRouteView::LoginsCurrentGet,
            ApiRoute::NodeInfo20Get => ApiRouteView::NodeInfo20Get,
            ApiRoute::Communities { path } => ApiRouteView::Communities { path: path@ },
            ApiRoute::InstanceGet => ApiRouteView::InstanceGet,
            ApiRoute::PostsList => ApiRouteView::PostsList,
            ApiRoute::PostsCreate => ApiRouteView::PostsCreate,
            ApiRoute::PostsGet { post } => ApiRouteView::PostsGet { post },
            ApiRoute::PostsDelete { post } => ApiRouteView::PostsDelete { post },
            ApiRoute::PostsLike { post } => ApiRouteView::PostsLike { post },
            ApiRoute::PostsUnlike { post } => ApiRouteView::PostsUnlike { post },
            ApiRoute::PostsRepliesCreate { post } => ApiRouteView::PostsRepliesCreate { post },
            ApiRoute::CommentsGet { comment } => ApiRouteView::CommentsGet { comment },
            ApiRoute::CommentsDelete { comment } => ApiRouteView::CommentsDelete { comment },
            ApiRoute::CommentsLike { comment } => ApiRouteView::CommentsLike { comment },
            ApiRoute::CommentsUnlike { comment } => ApiRouteView::CommentsUnlike { comment },
            ApiRoute::CommentsRepliesCreate { comment } => ApiRouteView::CommentsRepliesCreate {
                comment,
            },
            ApiRoute::UsersCreate => ApiRouteView::UsersCreate,
            ApiRoute::UsersMePatch => ApiRouteView::UsersMePatch,
            ApiRoute::UsersMeFollowingPostsList => ApiRouteView::UsersMeFollowingPostsList,
            ApiRoute::UsersGet { user } => ApiRouteView::UsersGet { user },
            ApiRoute::UsersThingsList { user } => ApiRouteView::UsersThingsList { user },
        }
    }
}

/// The outcome of routing with the strings of the route as sequences.
pub open spec fn outcome_view(r: Result<ApiRoute, RoutingFailure>) -> Result<
    ApiRouteView,
    RoutingFailure,
> {
    match r {
        Ok(route) => Ok(route@),
        Err(e) => Err(e),
    }
}

/// A node with one handler and no children: the path must end here, and the
/// method must be the one handled.
pub open spec fn end_node(method: Seq<char>, path: Seq<char>, verb: Seq<char>, route: ApiRouteView)
    -> Result<ApiRouteView, RoutingFailure> {
    if path.len() == 0 {
        if method == verb {
            Ok(route)
        } else {
            Err(RoutingFailure::MethodNotAllowed)
        }
    } else {
        Err(RoutingFailure::NotFound)
    }
}

/// Below `actors:lookup`: one free segment, the query.
pub open spec fn actors_lookup_node(method: Seq<char>, path: Seq<char>) -> Result<
    ApiRouteView,
    RoutingFailure,
> {
    if path.len() == 0 {
        Err(RoutingFailure::MethodNotAllowed)
    } else {
        match text_child(path) {
            Some((query, rest)) => end_node(
                method,
                rest,
                "GET"@,
                ApiRouteView::ActorsLookup { query },
            ),
            None => Err(RoutingFailure::NotFound),
        }
    }
}

/// Below `logins`.
pub open spec fn logins_node(method: Seq<char>, path: Seq<char>) -> Result<
    ApiRouteView,
    RoutingFailure,
> {
    if path.len() == 0 {
        if method == "POST"@ {
            Ok(ApiRouteView::LoginsCreate)
        } else {
            Err(RoutingFailure::MethodNotAllowed)
        }
    } else {
        match behind_child(path, "~current"@) {
            Some(rest) => end_node(method, rest, "GET"@, ApiRouteView::LoginsCurrentGet),
            None => Err(RoutingFailure::NotFound),
        }
    }
}

/// Below a post's number.
pub open spec fn post_node(method: Seq<char>, path: Seq<char>, post: i64) -> Result<
    ApiRouteView,
    RoutingFailure,
> {
    if path.len() == 0 {
        if method == "GET"@ {
            Ok(ApiRouteView::PostsGet { post })
        } else if method == "DELETE"@ {
            Ok(ApiRouteView::PostsDelete { post })
        } else {
            Err(RoutingFailure::MethodNotAllowed)
        }
    } else if behind_child(path, "like"@) is Some {
        end_node(method, behind_child(path, "like"@)->0, "POST"@, ApiRouteView::PostsLike { post })
    } else if behind_child(path, "unlike"@) is Some {
        end_node(
            method,
            behind_child(path, "unlike"@)->0,
            "POST"@,
            ApiRouteView::PostsUnlike { post },
        )
    } else if behind_child(path, "replies"@) is Some {
        end_node(
            method,
            behind_child(path, "replies"@)->0,
            "POST"@,
            ApiRouteView::PostsRepliesCreate { post },
        )
    } else {
        Err(RoutingFailure::NotFound)
    }
}

/// Below `posts`.
pub open spec fn posts_node(method: Seq<char>, path: Seq<char>) -> Result<
    ApiRouteView,
    RoutingFailure,
> {
    if path.len() == 0 {
        if method == "GET"@ {
            Ok(ApiRouteView::PostsList)
        } else if method == "POST"@ {
            Ok(ApiRouteView::PostsCreate)
        } else {
            Err(RoutingFailure::MethodNotAllowed)
        }
    } else {
        match number_child(path) {
            Some((post, rest)) => post_node(method, rest, post),
            None => Err(RoutingFailure::NotFound),
        }
    }
}

/// Below a comment's number.
pub open spec fn comment_node(method: Seq<char>, path: Seq<char>, comment: i64) -> Result<
    ApiRouteView,
    RoutingFailure,
> {
    if path.len() == 0 {
        if method == "GET"@ {
            Ok(ApiRouteView::CommentsGet { comment })
        } else if method == "DELETE"@ {
            Ok(ApiRouteView::CommentsDelete { comment })
        } else {
            Err(RoutingFailure::MethodNotAllowed)
        }
    } else if behind_child(path, "like"@) is Some {
        end_node(
            method,
            behind_child(path, "like"@)->0,
            "POST"@,
            ApiRouteView::CommentsLike { comment },
        )
    } else if behind_child(path, "unlike"@) is Some {
        end_node(
            method,
            behind_child(path, "unlike"@)->0,
            "POST"@,
            ApiRouteView::CommentsUnlike { comment },
        )
    } else if behind_child(path, "replies"@) is Some {
        end_node(
            method,
            behind_child(path, "replies"@)->0,
            "POST"@,
            ApiRouteView::CommentsRepliesCreate { comment },
        )
    } else {
        Err(RoutingFailure::NotFound)
    }
}

/// Below `comments`.
pub open spec fn comments_node(method: Seq<char>, path: Seq<char>) -> Result<
    ApiRouteView,
    RoutingFailure,
> {
    if path.len() == 0 {
        Err(RoutingFailure::MethodNotAllowed)
    } else {
        match number_child(path) {
            Some((comment, rest)) => comment_node(method, rest, comment),
            None => Err(RoutingFailure::NotFound),
        }
    }
}

/// Below `users/me`.
pub open spec fn users_me_node(method: Seq<char>, path: Seq<char>) -> Result<
    ApiRouteView,
    RoutingFailure,
> {
    if path.len() == 0 {
        if method == "PATCH"@ {
            Ok(ApiRouteView::UsersMePatch)
        } else {
            Err(RoutingFailure::MethodNotAllowed)
        }
    } else {
        match behind_child(path, "following:posts"@) {
            Some(rest) => end_node(
                method,
                rest,
                "GET"@,
                ApiRouteView::UsersMeFollowingPostsList,
            ),
            None => Err(RoutingFailure::NotFound),
        }
    }
}

/// Below a user's number.
pub open spec fn user_node(method: Seq<char>, path: Seq<char>, user: i64) -> Result<
    ApiRouteView,
    RoutingFailure,
> {
    if path.len() == 0 {
        if method == "GET"@ {
            Ok(ApiRouteView::UsersGet { user })
        } else {
            Err(RoutingFailure::MethodNotAllowed)
        }
    } else {
        match behind_child(path, "things"@) {
            Some(rest) => end_node(method, rest, "GET"@, ApiRouteView::UsersThingsList { user }),
            None => Err(RoutingFailure::NotFound),
        }
    }
}

/// Below `users`. The name `me` is tried before a number.
pub open spec fn users_node(method: Seq<char>, path: Seq<char>) -> Result<
    ApiRouteView,
    RoutingFailure,
> {
    if path.len() == 0 {
        if method == "POST"@ {
            Ok(ApiRouteView::UsersCreate)
        } else {
            Err(RoutingFailure::MethodNotAllowed)
        }
    } else if behind_child(path, "me"@) is Some {
        users_me_node(method, behind_child(path, "me"@)->0)
    } else {
        match number_child(path) {
            Some((user, rest)) => user_node(method, rest, user),
            None => Err(RoutingFailure::NotFound),
        }
    }
}

/// Below `unstable`. The children are tried in this order, and the first
/// that takes the path decides.
pub open spec fn unstable_node(method: Seq<char>, path: Seq<char>) -> Result<
    ApiRouteView,
    RoutingFailure,
> {
    if path.len() == 0 {
        Err(RoutingFailure::MethodNotAllowed)
    } else if behind_child(path, "actors:lookup"@) is Some {
        actors_lookup_node(method, behind_child(path, "actors:lookup"@)->0)
    } else if behind_child(path, "logins"@) is Some {
        logins_node(method, behind_child(path, "logins"@)->0)
    } else if behind_child(path, "nodeinfo/2.0"@) is Some {
        end_node(
            method,
            behind_child(path, "nodeinfo/2.0"@)->0,
            "GET"@,
            ApiRouteView::NodeInfo20Get,
        )
    } else if behind_child(path, "communities"@) is Some {
        Ok(ApiRouteView::Communities { path: behind_child(path, "communities"@)->0 })
    } else if behind_child(path, "instance"@) is Some {
        end_node(method, behind_child(path, "instance"@)->0, "GET"@, ApiRouteView::InstanceGet)
    } else if behind_child(path, "posts"@) is Some {
        posts_node(method, behind_child(path, "posts"@)->0)
    } else if behind_child(path, "comments"@) is Some {
        comments_node(method, behind_child(path, "comments"@)->0)
    } else if behind_child(path, "users"@) is Some {
        users_node(method, behind_child(path, "users"@)->0)
    } else {
        Err(RoutingFailure::NotFound)
    }
}

/// The operation that a method and a path stand for. The path is taken
/// without its leading slash and starts at the root of the API, whose only
/// child is `unstable`.
pub open spec fn api_route(method: Seq<char>, path: Seq<char>) -> Result<
    ApiRouteView,
    RoutingFailure,
> {
    if path.len() == 0 {
        Err(RoutingFailure::MethodNotAllowed)
    } else {
        match behind_child(path, "unstable"@) {
            Some(rest) => unstable_node(method, rest),
            None => Err(RoutingFailure::NotFound),
        }
    }
}

fn route_end(method: &str, path: &[char], at: usize, verb: &str, route: ApiRoute) -> (r: Result<
    ApiRoute,
    RoutingFailure,
>)
    requires
        at <= path.len(),
    ensures
        outcome_view(r) == end_node(method@, path@.skip(at as int), verb@, route@),
{
    if at_end(path, at) {
        if is_method(method, verb) {
            Ok(route)
        } else {
            method_not_allowed()
        }
    } else {
        not_found()
    }
}

fn route_actors_lookup(method: &str, path: &[char], at: usize) -> (r: Result<
    ApiRoute,
    RoutingFailure,
>)
    requires
        at <= path.len(),
    ensures
        outcome_view(r) == actors_lookup_node(method@, path@.skip(at as int)),
{
    if at_end(path, at) {
        return method_not_allowed();
    }
    match take_text(path, at) {
        Some((query, next)) => route_end(
            method,
            path,
            next,
            "GET",
            ApiRoute::ActorsLookup { query },
        ),
        None => not_found(),
    }
}

fn route_logins(method: &str, path: &[char], at: usize) -> (r: Result<ApiRoute, RoutingFailure>)
    requires
        at <= path.len(),
    ensures
        outcome_view(r) == logins_node(method@, path@.skip(at as int)),
{
    if at_end(path, at) {
        if is_method(method, "POST") {
            return Ok(ApiRoute::LoginsCreate);
        }
        return method_not_allowed();
    }
    match take_child(path, at, "~current") {
        Some(next) => route_end(method, path, next, "GET", ApiRoute::LoginsCurrentGet),
        None => not_found(),
    }
}

fn route_post(method: &str, path: &[char], at: usize, post: i64) -> (r: Result<
    ApiRoute,
    RoutingFailure,
>)
    requires
        at <= path.len(),
    ensures
        outcome_view(r) == post_node(method@, path@.skip(at as int), post),
{
    if at_end(path, at) {
        if is_method(method, "GET") {
            return Ok(ApiRoute::PostsGet { post });
        }
        if is_method(method, "DELETE") {
            return Ok(ApiRoute::PostsDelete { post });
        }
        return method_not_allowed();
    }
    if let Some(next) = take_child(path, at, "like") {
        return route_end(method, path, next, "POST", ApiRoute::PostsLike { post });
    }
    if let Some(next) = take_child(path, at, "unlike") {
        return route_end(method, path, next, "POST", ApiRoute::PostsUnlike { post });
    }
    if let Some(next) = take_child(path, at, "replies") {
        return route_end(method, path, next, "POST", ApiRoute::PostsRepliesCreate { post });
    }
    not_found()
}

fn route_posts(method: &str, path: &[char], at: usize) -> (r: Result<ApiRoute, RoutingFailure>)
    requires
        at <= path.len(),
    ensures
        outcome_view(r) == posts_node(method@, path@.skip(at as int)),
{
    if at_end(path, at) {
        if is_method(method, "GET") {
            return Ok(ApiRoute::PostsList);
        }
        if is_method(method, "POST") {
            return Ok(ApiRoute::PostsCreate);
        }
        return method_not_allowed();
    }
    match take_number(path, at) {
        Some((post, next)) => route_post(method, path, next, post),
        None => not_found(),
    }
}

fn route_comment(method: &str, path: &[char], at: usize, comment: i64) -> (r: Result<
    ApiRoute,
    RoutingFailure,
>)
    requires
        at <= path.len(),
    ensures
        outcome_view(r) == comment_node(method@, path@.skip(at as int), comment),
{
    if at_end(path, at) {
        if is_method(method, "GET") {
            return Ok(ApiRoute::CommentsGet { comment });
        }
        if is_method(method, "DELETE") {
            return Ok(ApiRoute::CommentsDelete { comment });
        }
        return method_not_allowed();
    }
    if let Some(next) = take_child(path, at, "like") {
        return route_end(method, path, next, "POST", ApiRoute::CommentsLike { comment });
    }
    if let Some(next) = take_child(path, at, "unlike") {
        return route_end(method, path, next, "POST", ApiRoute::CommentsUnlike { comment });
    }
    if let Some(next) = take_child(path, at, "replies") {
        return route_end(
            method,
            path,
            next,
            "POST",
            ApiRoute::CommentsRepliesCreate { comment },
        );
    }
    not_found()
}

fn route_comments(method: &str, path: &[char], at: usize) -> (r: Result<
    ApiRoute,
    RoutingFailure,
>)
    requires
        at <= path.len(),
    ensures
        outcome_view(r) == comments_node(method@, path@.skip(at as int)),
{
    if at_end(path, at) {
        return method_not_allowed();
    }
    match take_number(path, at) {
        Some((comment, next)) => route_comment(method, path, next, comment),
        None => not_found(),
    }
}

fn route_users_me(method: &str, path: &[char], at: usize) -> (r: Result<
    ApiRoute,
    RoutingFailure,
>)
    requires
        at <= path.len(),
    ensures
        outcome_view(r) == users_me_node(method@, path@.skip(at as int)),
{
    if at_end(path, at) {
        if is_method(method, "PATCH") {
            return Ok(ApiRoute::UsersMePatch);
        }
        return method_not_allowed();
    }
    match take_child(path, at, "following:posts") {
        Some(next) => route_end(method, path, next, "GET", ApiRoute::UsersMeFollowingPostsList),
        None => not_found(),
    }
}

fn route_user(method: &str, path: &[char], at: usize, user: i64) -> (r: Result<
    ApiRoute,
    RoutingFailure,
>)
    requires
        at <= path.len(),
    ensures
        outcome_view(r) == user_node(method@, path@.skip(at as int), user),
{
    if at_end(path, at) {
        if is_method(method, "GET") {
            return Ok(ApiRoute::UsersGet { user });
        }
        return method_not_allowed();
    }
    match take_child(path, at, "things") {
        Some(next) => route_end(method, path, next, "GET", ApiRoute::UsersThingsList { user }),
        None => not_found(),
    }
}

fn route_users(method: &str, path: &[char], at: usize) -> (r: Result<ApiRoute, RoutingFailure>)
    requires
        at <= path.len(),
    ensures
        outcome_view(r) == users_node(method@, path@.skip(at as int)),
{
    if at_end(path, at) {
        if is_method(method, "POST") {
            return Ok(ApiRoute::UsersCreate);
        }
        return method_not_allowed();
    }
    if let Some(next) = take_child(path, at, "me") {
        return route_users_me(method, path, next);
    }
    match take_number(path, at) {
        Some((user, next)) => route_user(method, path, next, user),
        None => not_found(),
    }
}

fn route_unstable(method: &str, path: &[char], at: usize) -> (r: Result<
    ApiRoute,
    RoutingFailure,
>)
    requires
        at <= path.len(),
    ensures
        outcome_view(r) == unstable_node(method@, path@.skip(at as int)),
{
    if at_end(path, at) {
        return method_not_allowed();
    }
    if let Some(next) = take_child(path, at, "actors:lookup") {
        return route_actors_lookup(method, path, next);
    }
    if let Some(next) = take_child(path, at, "logins") {
        return route_logins(method, path, next);
    }
    if let Some(next) = take_child(path, at, "nodeinfo/2.0") {
        return route_end(method, path, next, "GET", ApiRoute::NodeInfo20Get);
    }
    if let Some(next) = take_child(path, at, "communities") {
        let rest = slice_of(path, next, path.len());
        assert(rest@ == path@.skip(next as int));
        return Ok(ApiRoute::Communities { path: string_of(rest.as_slice()) });
    }
    if let Some(next) = take_child(path, at, "instance") {
        return route_end(method, path, next, "GET", ApiRoute::InstanceGet);
    }
    if let Some(next) = take_child(path, at, "posts") {
        return route_posts(method, path, next);
    }
    if let Some(next) = take_child(path, at, "comments") {
        return route_comments(method, path, next);
    }
    if let Some(next) = take_child(path, at, "users") {
        return route_users(method, path, next);
    }
    not_found()
}

/// Finds the operation of the client API that a request asks for. `path` is
/// the path of the request below the API's root, without a leading slash;
/// `method` is the request method in capitals.
pub fn route_api(method: &str, path: &str) -> (r: Result<ApiRoute, RoutingFailure>)
    ensures
        outcome_view(r) == api_route(method@, path@),
{
    let p = chars_of(path);
    assert(p@.skip(0) == p@);
    if at_end(p.as_slice(), 0) {
        return method_not_allowed();
    }
    match take_child(p.as_slice(), 0, "unstable") {
        Some(next) => route_unstable(method, p.as_slice(), next),
        None => not_found(),
    }
}

} // verus!

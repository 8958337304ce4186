use lotide::response::RoutingFailure;
use lotide::routes::api::{route_api, ApiRoute};
use lotide::routes::apub::communities::{route_communities, CommunityRoute};
use lotide::routes::apub::users::{route_users, UserRoute};

#[test]
fn api_posts_routes() {
    assert_eq!(route_api("GET", "unstable/posts"), Ok(ApiRoute::PostsList));
    assert_eq!(route_api("POST", "unstable/posts"), Ok(ApiRoute::PostsCreate));
    assert_eq!(route_api("GET", "unstable/posts/"), Ok(ApiRoute::PostsList));
    assert_eq!(route_api("GET", "unstable/posts/5"), Ok(ApiRoute::PostsGet { post: 5 }));
    assert_eq!(route_api("DELETE", "unstable/posts/5"), Ok(ApiRoute::PostsDelete { post: 5 }));
    assert_eq!(route_api("POST", "unstable/posts/5/like"), Ok(ApiRoute::PostsLike { post: 5 }));
    assert_eq!(
        route_api("POST", "unstable/posts/5/unlike"),
        Ok(ApiRoute::PostsUnlike { post: 5 })
    );
    assert_eq!(
        route_api("POST", "unstable/posts/5/replies"),
        Ok(ApiRoute::PostsRepliesCreate { post: 5 })
    );
    assert_eq!(route_api("GET", "unstable/posts/-5"), Ok(ApiRoute::PostsGet { post: -5 }));
}

#[test]
fn api_comments_and_users_routes() {
    assert_eq!(
        route_api("GET", "unstable/comments/8"),
        Ok(ApiRoute::CommentsGet { comment: 8 })
    );
    assert_eq!(
        route_api("DELETE", "unstable/comments/8"),
        Ok(ApiRoute::CommentsDelete { comment: 8 })
    );
    assert_eq!(
        route_api("POST", "unstable/comments/8/like"),
        Ok(ApiRoute::CommentsLike { comment: 8 })
    );
    assert_eq!(
        route_api("POST", "unstable/comments/8/unlike"),
        Ok(ApiRoute::CommentsUnlike { comment: 8 })
    );
    assert_eq!(
        route_api("POST", "unstable/comments/8/replies"),
        Ok(ApiRoute::CommentsRepliesCreate { comment: 8 })
    );
    assert_eq!(route_api("POST", "unstable/users"), Ok(ApiRoute::UsersCreate));
    assert_eq!(route_api("PATCH", "unstable/users/me"), Ok(ApiRoute::UsersMePatch));
    assert_eq!(
        route_api("GET", "unstable/users/me/following:posts"),
        Ok(ApiRoute::UsersMeFollowingPostsList)
    );
    assert_eq!(route_api("GET", "unstable/users/4"), Ok(ApiRoute::UsersGet { user: 4 }));
    assert_eq!(
        route_api("GET", "unstable/users/4/things"),
        Ok(ApiRoute::UsersThingsList { user: 4 })
    );
}

#[test]
fn api_other_routes() {
    assert_eq!(route_api("POST", "unstable/logins"), Ok(ApiRoute::LoginsCreate));
    assert_eq!(route_api("GET", "unstable/logins/~current"), Ok(ApiRoute::LoginsCurrentGet));
    assert_eq!(route_api("GET", "unstable/nodeinfo/2.0"), Ok(ApiRoute::NodeInfo20Get));
    assert_eq!(route_api("GET", "unstable/instance"), Ok(ApiRoute::InstanceGet));
    assert_eq!(
        route_api("GET", "unstable/actors:lookup/acct:alice@peer.example"),
        Ok(ApiRoute::ActorsLookup { query: "acct:alice@peer.example".to_owned() })
    );
    assert_eq!(
        route_api("GET", "unstable/actors:lookup/https%3A%2F%2Fpeer.example%2Fusers%2F1"),
        Ok(ApiRoute::ActorsLookup { query: "https://peer.example/users/1".to_owned() })
    );
    assert_eq!(
        route_api("GET", "unstable/communities/3/follow"),
        Ok(ApiRoute::Communities { path: "3/follow".to_owned() })
    );
    assert_eq!(
        route_api("DELETE", "unstable/communities"),
        Ok(ApiRoute::Communities { path: "".to_owned() })
    );
}

#[test]
fn api_routing_failures() {
    assert_eq!(route_api("GET", ""), Err(RoutingFailure::MethodNotAllowed));
    assert_eq!(route_api("GET", "unstable"), Err(RoutingFailure::MethodNotAllowed));
    assert_eq!(route_api("GET", "stable/posts"), Err(RoutingFailure::NotFound));
    assert_eq!(route_api("GET", "unstable/postsx"), Err(RoutingFailure::NotFound));
    assert_eq!(route_api("PUT", "unstable/posts"), Err(RoutingFailure::MethodNotAllowed));
    assert_eq!(route_api("GET", "unstable/posts/abc"), Err(RoutingFailure::NotFound));
    assert_eq!(route_api("GET", "unstable/posts/5/like"), Err(RoutingFailure::MethodNotAllowed));
    assert_eq!(route_api("POST", "unstable/posts/5/like/more"), Err(RoutingFailure::NotFound));
    assert_eq!(route_api("GET", "unstable/comments"), Err(RoutingFailure::MethodNotAllowed));
    assert_eq!(route_api("GET", "unstable/users/me2"), Err(RoutingFailure::NotFound));
    assert_eq!(route_api("GET", "unstable/actors:lookup"), Err(RoutingFailure::MethodNotAllowed));
    assert_eq!(route_api("get", "unstable/posts"), Err(RoutingFailure::MethodNotAllowed));
    assert_eq!(route_api("GET", "unstable/posts/%FF"), Err(RoutingFailure::NotFound));
}

#[test]
fn escaped_digits_are_a_number() {
    assert_eq!(route_api("GET", "unstable/posts/%35"), Ok(ApiRoute::PostsGet { post: 5 }));
}

#[test]
fn community_routes() {
    assert_eq!(route_communities("GET", "3"), Ok(CommunityRoute::Get { community: 3 }));
    assert_eq!(
        route_communities("POST", "3/inbox"),
        Ok(CommunityRoute::InboxPost { community: 3 })
    );
    assert_eq!(
        route_communities("GET", "3/followers"),
        Ok(CommunityRoute::FollowersList { community: 3 })
    );
    assert_eq!(
        route_communities("GET", "3/followers/7"),
        Ok(CommunityRoute::FollowerGet { community: 3, user: 7 })
    );
    assert_eq!(
        route_communities("GET", "3/posts/9/announce"),
        Ok(CommunityRoute::PostAnnounceGet { community: 3, post: 9 })
    );
    assert_eq!(
        route_communities("GET", "3/comments/12/announce"),
        Ok(CommunityRoute::CommentAnnounceGet { community: 3, comment: 12 })
    );
}

#[test]
fn community_routing_failures() {
    assert_eq!(route_communities("GET", ""), Err(RoutingFailure::MethodNotAllowed));
    assert_eq!(route_communities("GET", "abc"), Err(RoutingFailure::NotFound));
    assert_eq!(route_communities("GET", "3/inbox"), Err(RoutingFailure::MethodNotAllowed));
    assert_eq!(route_communities("GET", "3/posts"), Err(RoutingFailure::MethodNotAllowed));
    assert_eq!(route_communities("GET", "3/posts/9"), Err(RoutingFailure::MethodNotAllowed));
    assert_eq!(route_communities("GET", "3/posts/9/announced"), Err(RoutingFailure::NotFound));
    assert_eq!(route_communities("GET", "3/outbox"), Err(RoutingFailure::NotFound));
    assert_eq!(route_communities("POST", "3"), Err(RoutingFailure::MethodNotAllowed));
}

#[test]
fn user_routes() {
    assert_eq!(route_users("GET", "7"), Ok(UserRoute::Get { user: 7 }));
    assert_eq!(route_users("POST", "7/inbox"), Ok(UserRoute::InboxPost { user: 7 }));
    assert_eq!(route_users("POST", "7/inbox/"), Ok(UserRoute::InboxPost { user: 7 }));
    assert_eq!(route_users("GET", "7/inbox"), Err(RoutingFailure::MethodNotAllowed));
    assert_eq!(route_users("POST", "7"), Err(RoutingFailure::MethodNotAllowed));
    assert_eq!(route_users("GET", ""), Err(RoutingFailure::MethodNotAllowed));
    assert_eq!(route_users("GET", "alice"), Err(RoutingFailure::NotFound));
    assert_eq!(route_users("GET", "7/outbox"), Err(RoutingFailure::NotFound));
    assert_eq!(route_users("POST", "7/inbox/x"), Err(RoutingFailure::NotFound));
}

#[test]
fn follows_are_asked_for_by_their_uuid() {
    let follow = 0x936da01f_9abd_4d9d_80c7_02af85c822a8u128;
    let get = lotide::routes::apub::follows::FollowRoute::Get { follow };
    let route = lotide::routes::apub::follows::route_follows;
    assert_eq!(route("GET", "936da01f-9abd-4d9d-80c7-02af85c822a8"), Ok(get));
    assert_eq!(route("GET", "936da01f9abd4d9d80c702af85c822a8"), Ok(get));
    assert_eq!(route("GET", "936da01f%2D9abd-4d9d-80c7-02af85c822a8"), Ok(get));
    assert_eq!(
        route("POST", "936da01f-9abd-4d9d-80c7-02af85c822a8"),
        Err(lotide::response::RoutingFailure::MethodNotAllowed)
    );
    assert_eq!(route("GET", ""), Err(lotide::response::RoutingFailure::MethodNotAllowed));
    assert_eq!(route("GET", "936da01f-9abd-4d9d-80c7-02af85c822a8/"), Ok(get));
    for path in ["7", "936da01f-9abd-4d9d-80c7-02af85c822a8/x", "%ff"] {
        assert_eq!(route("GET", path), Err(lotide::response::RoutingFailure::NotFound), "{}", path);
    }
    assert_eq!(lotide::auth::read_uuid("936da01f-9abd-4d9d-80c7-02af85c822a8"), Some(follow));
    assert_eq!(lotide::auth::read_uuid("nothing"), None);
}

use lotide::store::{Address, Entity, FollowRow, LikeRow, PostRow, ReplyRow, Store};
use lotide::{CommentLocalID, CommunityLocalID, PostLocalID, ThingLocalRef, UserLocalID};

fn post(author: Option<i64>, community: i64) -> PostRow {
    PostRow {
        author: author.map(UserLocalID),
        community: CommunityLocalID(community),
        local: true,
        title: Some("Title".to_owned()),
        href: Some("https://example.com".to_owned()),
        content_text: Some("text".to_owned()),
        deleted: false,
    }
}

fn reply(author: Option<i64>, on: i64, parent: Option<i64>) -> ReplyRow {
    ReplyRow {
        post: PostLocalID(on),
        parent: parent.map(CommentLocalID),
        author: author.map(UserLocalID),
        local: true,
        content_text: Some("text".to_owned()),
        deleted: false,
    }
}

/// Two persons, one community, the posts 0 and 1, and the comment 0 on post 0.
fn small() -> Store {
    let mut s = Store::new();
    s.add_person(true);
    s.add_person(true);
    s.add_community(true);
    assert_eq!(s.add_post(post(Some(0), 0)), Some(PostLocalID(0)));
    assert_eq!(s.add_post(post(None, 0)), Some(PostLocalID(1)));
    assert_eq!(s.add_reply(reply(Some(1), 0, None)), Some(CommentLocalID(0)));
    s
}

#[test]
fn a_post_needs_its_community_and_its_author() {
    let mut s = small();
    let before = format!("{:?}", s);
    assert_eq!(s.add_post(post(Some(0), 1)), None);
    assert_eq!(s.add_post(post(Some(2), 0)), None);
    assert_eq!(s.add_post(post(Some(-1), 0)), None);
    assert_eq!(format!("{:?}", s), before);
    assert_eq!(s.add_post(post(Some(1), 0)), Some(PostLocalID(2)));
    assert_eq!(s.posts[2], post(Some(1), 0));
    assert!(s.is_wf());
}

#[test]
fn a_comment_needs_its_post_and_a_parent_on_the_same_post() {
    let mut s = small();
    let before = format!("{:?}", s);
    assert_eq!(s.add_reply(reply(Some(0), 2, None)), None);
    assert_eq!(s.add_reply(reply(Some(5), 0, None)), None);
    assert_eq!(s.add_reply(reply(Some(0), 0, Some(1))), None);
    assert_eq!(s.add_reply(reply(Some(0), 1, Some(0))), None);
    assert_eq!(format!("{:?}", s), before);
    assert_eq!(s.add_reply(reply(None, 0, Some(0))), Some(CommentLocalID(1)));
    assert_eq!(s.replies[1], reply(None, 0, Some(0)));
    assert!(s.is_wf());
}

#[test]
fn only_the_author_deletes_and_only_once() {
    let mut s = small();
    let before = format!("{:?}", s);
    assert!(!s.delete_own(UserLocalID(1), ThingLocalRef::Post(PostLocalID(0))));
    assert!(!s.delete_own(UserLocalID(0), ThingLocalRef::Post(PostLocalID(1))));
    assert!(!s.delete_own(UserLocalID(0), ThingLocalRef::Post(PostLocalID(7))));
    assert!(!s.delete_own(UserLocalID(0), ThingLocalRef::Comment(CommentLocalID(0))));
    assert_eq!(format!("{:?}", s), before);
    assert!(s.delete_own(UserLocalID(0), ThingLocalRef::Post(PostLocalID(0))));
    assert_eq!(
        s.posts[0],
        PostRow {
            author: Some(UserLocalID(0)),
            community: CommunityLocalID(0),
            local: true,
            title: None,
            href: None,
            content_text: None,
            deleted: true,
        }
    );
    assert_eq!(s.posts[1], post(None, 0));
    assert!(!s.delete_own(UserLocalID(0), ThingLocalRef::Post(PostLocalID(0))));
    assert!(s.delete_own(UserLocalID(1), ThingLocalRef::Comment(CommentLocalID(0))));
    assert_eq!(s.replies[0].content_text, None);
    assert!(s.replies[0].deleted);
    assert_eq!(s.replies[0].post, PostLocalID(0));
    assert!(s.is_wf());
}

#[test]
fn erasing_keeps_the_row() {
    let mut s = small();
    s.erase(ThingLocalRef::Post(PostLocalID(1)));
    assert_eq!(s.posts.len(), 2);
    assert!(s.posts[1].deleted);
    assert_eq!(s.posts[1].title, None);
    assert_eq!(s.posts[0], post(Some(0), 0));
}

#[test]
fn rows_that_break_the_rules_are_told() {
    assert!(Store::new().is_wf());
    assert!(small().is_wf());
    assert!(Store::new().holds(Entity::Person(UserLocalID(0))) == false);
    assert!(small().holds(Entity::Post(PostLocalID(1))));
    assert!(!small().holds(Entity::Post(PostLocalID(2))));

    let mut s = small();
    s.posts.push(post(Some(0), 4));
    assert!(!s.is_wf());

    let mut s = small();
    s.posts.push(post(Some(9), 0));
    assert!(!s.is_wf());

    let mut s = small();
    s.replies.push(reply(None, 0, Some(1)));
    assert!(!s.is_wf());

    let mut s = small();
    s.replies.push(reply(None, 1, Some(0)));
    assert!(!s.is_wf());

    let mut s = small();
    s.replies.push(reply(None, 5, None));
    assert!(!s.is_wf());

    let address = |target| Address { ap_id: "https://peer.example/x".to_owned(), target };
    let mut s = small();
    s.addresses.push(address(Entity::Person(UserLocalID(0))));
    assert!(s.is_wf());
    s.addresses.push(address(Entity::Person(UserLocalID(1))));
    assert!(!s.is_wf());

    let mut s = small();
    s.addresses.push(address(Entity::Community(CommunityLocalID(1))));
    assert!(!s.is_wf());

    let follow = FollowRow { community: CommunityLocalID(0), follower: UserLocalID(1), accepted: true };
    let mut s = small();
    s.follows.push(follow);
    assert!(s.is_wf());
    s.follows.push(FollowRow { accepted: false, ..follow });
    assert!(!s.is_wf());

    let mut s = small();
    s.follows.push(FollowRow { follower: UserLocalID(2), ..follow });
    assert!(!s.is_wf());

    let like = LikeRow { target: ThingLocalRef::Comment(CommentLocalID(0)), person: UserLocalID(0) };
    let mut s = small();
    s.likes.push(like);
    s.likes.push(LikeRow { target: ThingLocalRef::Post(PostLocalID(0)), person: UserLocalID(0) });
    assert!(s.is_wf());
    s.likes.push(like);
    assert!(!s.is_wf());

    let mut s = small();
    s.likes.push(LikeRow { target: ThingLocalRef::Comment(CommentLocalID(1)), person: UserLocalID(0) });
    assert!(!s.is_wf());
}

#[test]
fn rows_are_added_under_keys_given_out_elsewhere() {
    let mut s = small();
    let before = format!("{:?}", s);
    // The key is taken, or the row is not admitted.
    assert!(!s.add_post_under(PostLocalID(1), post(Some(0), 0)));
    assert!(!s.add_post_under(PostLocalID(-1), post(Some(0), 0)));
    assert!(!s.add_post_under(PostLocalID(5), post(Some(0), 9)));
    assert!(!s.add_reply_under(CommentLocalID(0), reply(None, 0, None)));
    assert!(!s.add_reply_under(CommentLocalID(3), reply(None, 0, Some(2))));
    assert_eq!(format!("{:?}", s), before);

    assert!(s.add_post_under(PostLocalID(2), post(Some(1), 0)));
    assert_eq!(s.posts.len(), 3);
    assert!(s.add_post_under(PostLocalID(5), post(Some(0), 0)));
    assert_eq!(s.posts.len(), 6);
    assert_eq!(s.posts[5], post(Some(0), 0));
    for gap in [3, 4] {
        assert_eq!(
            s.posts[gap],
            PostRow {
                author: None,
                community: CommunityLocalID(0),
                local: false,
                title: None,
                href: None,
                content_text: None,
                deleted: true,
            }
        );
    }
    assert!(s.add_reply_under(CommentLocalID(3), reply(Some(1), 5, None)));
    assert_eq!(s.replies.len(), 4);
    assert_eq!(s.replies[3], reply(Some(1), 5, None));
    assert_eq!(
        s.replies[2],
        ReplyRow {
            post: PostLocalID(5),
            parent: None,
            author: None,
            local: false,
            content_text: None,
            deleted: true,
        }
    );
    assert!(s.is_wf());
}

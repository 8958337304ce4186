use lotide::delivery::{Task, VoteTargetRow};
use lotide::posts::{
    check_delete, like_deliveries, on_community_add_post, on_local_post_created, replied_post,
    unlike_undo_id, vote_target_ap_id, DeleteDecision, DeleteRow, PostFederation,
};
use lotide::{CommentLocalID, CommunityLocalID, Error, PostLocalID, ThingLocalRef, UserLocalID};

const BASE: &str = "https://lotide.example/apub";

#[test]
fn only_the_author_deletes() {
    let row = DeleteRow { author: Some(UserLocalID(2)), community: Some(CommunityLocalID(3)) };
    assert_eq!(
        check_delete(Some(row), UserLocalID(2)).unwrap(),
        DeleteDecision::Delete { community: Some(CommunityLocalID(3)) }
    );
    match check_delete(Some(row), UserLocalID(5)) {
        Err(Error::UserError(res)) => {
            assert_eq!(res.status, 403);
            assert_eq!(res.body, b"That's not your post");
        }
        other => panic!("{:?}", other),
    }
    let orphan = DeleteRow { author: None, community: None };
    assert!(check_delete(Some(orphan), UserLocalID(5)).is_err());
    assert_eq!(check_delete(None, UserLocalID(5)).unwrap(), DeleteDecision::AlreadyGone);
}

#[test]
fn new_post_is_announced_sent_or_kept() {
    let c = CommunityLocalID(3);
    let p = PostLocalID(9);
    assert_eq!(
        on_local_post_created(c, p, Some(true), BASE),
        PostFederation::Announce {
            community: c,
            post: p,
            post_ap_id: "https://lotide.example/apub/posts/9".to_owned(),
        }
    );
    assert_eq!(
        on_local_post_created(c, p, Some(false), BASE),
        PostFederation::SendToCommunity { community: c, post: p }
    );
    assert_eq!(on_local_post_created(c, p, None, BASE), PostFederation::Nothing);
    assert_eq!(
        on_community_add_post(c, p, "https://peer.example/posts/1"),
        PostFederation::Announce {
            community: c,
            post: p,
            post_ap_id: "https://peer.example/posts/1".to_owned(),
        }
    );
}

#[test]
fn vote_targets_are_named_by_their_address() {
    let post = ThingLocalRef::Post(PostLocalID(9));
    assert_eq!(
        vote_target_ap_id(post, true, None, BASE).as_deref(),
        Some("https://lotide.example/apub/posts/9")
    );
    assert_eq!(
        vote_target_ap_id(post, false, Some("https://peer.example/p/1"), BASE).as_deref(),
        Some("https://peer.example/p/1")
    );
    assert_eq!(vote_target_ap_id(post, false, None, BASE), None);
    let comment = ThingLocalRef::Comment(CommentLocalID(4));
    assert_eq!(
        vote_target_ap_id(comment, true, Some("ignored"), BASE).as_deref(),
        Some("https://lotide.example/apub/comments/4")
    );
}

#[test]
fn a_like_is_sent_only_when_it_is_new() {
    let row = VoteTargetRow {
        target_local: true,
        author_inbox: None,
        community: Some(CommunityLocalID(3)),
        community_local: Some(true),
        community_inbox: None,
    };
    let user = UserLocalID(2);
    assert_eq!(
        like_deliveries(1, Some(&row), user, "like"),
        vec![Task::DeliverToFollowers { community: CommunityLocalID(3), object: "like".to_owned() }]
    );
    assert!(like_deliveries(0, Some(&row), user, "like").is_empty());
    assert!(like_deliveries(1, None, user, "like").is_empty());
}

#[test]
fn an_undo_gets_an_identifier_only_when_a_like_was_removed() {
    assert_eq!(unlike_undo_id(0), None);
    let a = unlike_undo_id(1).unwrap();
    let b = unlike_undo_id(3).unwrap();
    assert_ne!(a, b);
    for id in [a, b] {
        assert_eq!((id >> 76) & 0xf, 4);
        assert_eq!((id >> 62) & 0x3, 2);
    }
}

#[test]
fn a_reply_needs_the_comment_it_answers() {
    assert!(matches!(replied_post(Some(PostLocalID(9))), Ok(PostLocalID(9))));
    match replied_post(None) {
        Err(Error::UserError(res)) => {
            assert_eq!((res.status, res.body.as_slice()), (404, &b"No such comment"[..]))
        }
        other => panic!("{:?}", other),
    }
}

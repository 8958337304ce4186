use lotide::activity::{
    local_accept_to_ap, local_comment_to_create_ap, local_community_announce_ap,
    local_delete_to_ap, local_follow_to_ap, local_like_to_ap, local_like_undo_to_ap,
    local_post_to_create_ap, local_post_to_followers_create_ap, ActivityKind, ObjectDoc,
    PostInfoOwned, PUBLIC,
};
use lotide::timestamp::Timestamp;
use lotide::{
    APIDOrLocal, CommentInfo, CommentLocalID, CommunityLocalID, PostLocalID, ThingLocalRef,
    UserLocalID,
};

const BASE: &str = "https://lotide.example/apub";
const UUID: u128 = 0x936da01f_9abd_4d9d_80c7_02af85c822a8;

fn post() -> PostInfoOwned {
    PostInfoOwned {
        id: PostLocalID(9),
        author: Some(UserLocalID(2)),
        href: Some("https://example.com/".to_owned()),
        content_text: Some("plain".to_owned()),
        content_markdown: None,
        content_html: None,
        title: "Title".to_owned(),
        created: Timestamp { secs: 1431648000, nanos: 0, offset: 0 },
        community: CommunityLocalID(3),
    }
}

#[test]
fn like_then_undo_have_stable_ids() {
    let target = ThingLocalRef::Post(PostLocalID(9));
    let target_ap_id = "https://lotide.example/apub/posts/9";
    let like = local_like_to_ap(target, target_ap_id, UserLocalID(2), BASE);
    assert_eq!(like.kind, ActivityKind::Like);
    assert_eq!(like.id, "https://lotide.example/apub/likes/2.p9");
    assert_eq!(like.actor, "https://lotide.example/apub/users/2");
    assert_eq!(like.object, ObjectDoc::Reference(target_ap_id.to_owned()));
    assert_eq!(like, local_like_to_ap(target, target_ap_id, UserLocalID(2), BASE));
    let undo = local_like_undo_to_ap(UUID, target, target_ap_id, UserLocalID(2), BASE);
    assert_eq!(undo.kind, ActivityKind::Undo);
    assert_eq!(undo.id, "https://lotide.example/apub/undos/936da01f-9abd-4d9d-80c7-02af85c822a8");
    assert_eq!(undo.actor, "https://lotide.example/apub/users/2");
    assert_eq!(
        undo.object,
        ObjectDoc::Activity {
            kind: ActivityKind::Like,
            id: like.id.clone(),
            actor: like.actor.clone(),
            object: target_ap_id.to_owned(),
        }
    );
    assert_eq!(undo, local_like_undo_to_ap(UUID, target, target_ap_id, UserLocalID(2), BASE));
    let on_comment = local_like_to_ap(
        ThingLocalRef::Comment(CommentLocalID(9)),
        "https://peer.example/c/1",
        UserLocalID(2),
        BASE,
    );
    assert_eq!(on_comment.id, "https://lotide.example/apub/likes/2.c9");
}

#[test]
fn delete_names_the_local_address() {
    let d = local_delete_to_ap(ThingLocalRef::Comment(CommentLocalID(4)), UserLocalID(2), BASE);
    assert_eq!(d.kind, ActivityKind::Delete);
    assert_eq!(d.id, "https://lotide.example/apub/deletes/c4");
    assert_eq!(d.actor, "https://lotide.example/apub/users/2");
    assert_eq!(
        d.object,
        ObjectDoc::Reference("https://lotide.example/apub/comments/4".to_owned())
    );
}

#[test]
fn local_follow_of_remote_community() {
    let f = local_follow_to_ap(UUID, UserLocalID(7), "https://peer.example/communities/42", BASE);
    assert_eq!(f.kind, ActivityKind::Follow);
    assert_eq!(f.id, "https://lotide.example/apub/follows/936da01f-9abd-4d9d-80c7-02af85c822a8");
    assert_eq!(f.actor, "https://lotide.example/apub/users/7");
    assert_eq!(
        f.object,
        ObjectDoc::Reference("https://peer.example/communities/42".to_owned())
    );
    assert_eq!(f.to, vec!["https://peer.example/communities/42"]);
}

#[test]
fn accept_repeats_the_follow() {
    let a = local_accept_to_ap(
        CommunityLocalID(3),
        UserLocalID(8),
        "https://peer.example/users/alice",
        "https://peer.example/follows/1",
        BASE,
    );
    assert_eq!(a.kind, ActivityKind::Accept);
    assert_eq!(a.id, "https://lotide.example/apub/accepts/3.8");
    assert_eq!(a.actor, "https://lotide.example/apub/communities/3");
    assert_eq!(a.to, vec!["https://peer.example/users/alice"]);
    assert_eq!(
        a.object,
        ObjectDoc::Activity {
            kind: ActivityKind::Follow,
            id: "https://peer.example/follows/1".to_owned(),
            actor: "https://peer.example/users/alice".to_owned(),
            object: "https://lotide.example/apub/communities/3".to_owned(),
        }
    );
}

#[test]
fn announce_is_addressed_to_the_followers() {
    let a = local_community_announce_ap(
        CommunityLocalID(3),
        ThingLocalRef::Post(PostLocalID(9)),
        "https://peer.example/posts/100",
        BASE,
    );
    assert_eq!(a.kind, ActivityKind::Announce);
    assert_eq!(a.id, "https://lotide.example/apub/communities/3/posts/9/announce");
    assert_eq!(a.actor, "https://lotide.example/apub/communities/3");
    assert_eq!(a.object, ObjectDoc::Reference("https://peer.example/posts/100".to_owned()));
    assert_eq!(a.to, vec!["https://lotide.example/apub/communities/3/followers"]);
    assert_eq!(a.cc, vec![PUBLIC]);
    let c = local_community_announce_ap(
        CommunityLocalID(3),
        ThingLocalRef::Comment(CommentLocalID(12)),
        "x",
        BASE,
    );
    assert_eq!(c.id, "https://lotide.example/apub/communities/3/comments/12/announce");
}

#[test]
fn create_of_a_post() {
    let owned = post();
    let info = owned.as_info();
    let doc = local_post_to_create_ap(&info, "https://peer.example/communities/42", BASE).unwrap();
    assert_eq!(doc.kind, ActivityKind::Create);
    assert_eq!(doc.id, "https://lotide.example/apub/posts/9/create");
    assert_eq!(doc.actor, "https://lotide.example/apub/users/2");
    assert_eq!(doc.to, vec!["https://peer.example/communities/42"]);
    assert_eq!(doc.cc, vec![PUBLIC]);
    assert_eq!(
        doc.object,
        ObjectDoc::Page {
            id: "https://lotide.example/apub/posts/9".to_owned(),
            attributed_to: Some("https://lotide.example/apub/users/2".to_owned()),
            name: "Title".to_owned(),
            url: Some("https://example.com/".to_owned()),
            content: Some("plain".to_owned()),
            published: "2015-05-15T00:00:00+00:00".to_owned(),
            to: "https://peer.example/communities/42".to_owned(),
        }
    );
    let mut far = post();
    far.created = Timestamp { secs: i64::MAX, nanos: 0, offset: 0 };
    assert_eq!(local_post_to_create_ap(&far.as_info(), "c", BASE), None);
    let mut rendered = post();
    rendered.content_html = Some("<p>html</p>".to_owned());
    match local_post_to_create_ap(&rendered.as_info(), "c", BASE).unwrap().object {
        ObjectDoc::Page { content, .. } => assert_eq!(content.as_deref(), Some("<p>html</p>")),
        other => panic!("{:?}", other),
    }
}

#[test]
fn create_of_a_post_in_a_local_community_goes_to_its_followers() {
    let owned = post();
    let doc =
        local_post_to_followers_create_ap(&owned.as_info(), CommunityLocalID(3), BASE).unwrap();
    assert_eq!(doc.kind, ActivityKind::Create);
    assert_eq!(doc.id, "https://lotide.example/apub/posts/9/create");
    assert_eq!(doc.actor, "https://lotide.example/apub/users/2");
    assert_eq!(doc.to, vec!["https://lotide.example/apub/communities/3/followers"]);
    assert_eq!(doc.cc, vec![PUBLIC]);
    match doc.object {
        ObjectDoc::Page { id, to, name, .. } => {
            assert_eq!(id, "https://lotide.example/apub/posts/9");
            assert_eq!(to, "https://lotide.example/apub/communities/3/followers");
            assert_eq!(name, "Title");
        }
        other => panic!("{:?}", other),
    }
    let mut far = post();
    far.created = Timestamp { secs: i64::MIN, nanos: 0, offset: 0 };
    assert_eq!(local_post_to_followers_create_ap(&far.as_info(), CommunityLocalID(3), BASE), None);
}

#[test]
fn create_of_a_comment() {
    let comment = CommentInfo {
        id: CommentLocalID(20),
        author: Some(UserLocalID(5)),
        post: PostLocalID(9),
        parent: Some(CommentLocalID(11)),
        content_text: Some("hi".to_owned()),
        content_markdown: None,
        content_html: None,
        created: Timestamp { secs: 1431648000, nanos: 0, offset: 3600 },
        ap_id: APIDOrLocal::Local,
    };
    let doc = local_comment_to_create_ap(
        &comment,
        "https://peer.example/comments/1",
        Some("https://peer.example/users/alice"),
        "https://peer.example/communities/42",
        BASE,
    )
    .unwrap();
    assert_eq!(doc.id, "https://lotide.example/apub/comments/20/create");
    assert_eq!(doc.actor, "https://lotide.example/apub/users/5");
    assert_eq!(
        doc.to,
        vec!["https://peer.example/users/alice", "https://peer.example/communities/42"]
    );
    assert_eq!(
        doc.object,
        ObjectDoc::Note {
            id: "https://lotide.example/apub/comments/20".to_owned(),
            attributed_to: Some("https://lotide.example/apub/users/5".to_owned()),
            content: Some("hi".to_owned()),
            in_reply_to: "https://peer.example/comments/1".to_owned(),
            published: "2015-05-15T01:00:00+01:00".to_owned(),
        }
    );
    let alone = local_comment_to_create_ap(&comment, "p", None, "c", BASE).unwrap();
    assert_eq!(alone.to, vec!["c"]);
}

use lotide::comments::Notification;
use lotide::inbox::{
    acknowledgement, next_step, not_an_activity, Action, Activity, Direct, NextStep, NoteObject,
    Outcome, PageObject, Recipient, MAX_FETCHES,
};
use lotide::response::HttpResponse;
use lotide::store::{Entity, FollowRow, Lookup, Outbound, Store};
use lotide::{CommentLocalID, CommunityLocalID, PostLocalID, ThingLocalRef, UserLocalID};

const BASE: &str = "https://lotide.example/apub";
const ALICE: &str = "https://peer.example/users/alice";
const BOB: &str = "https://other.example/users/bob";

/// A store with local communities 0 to 3, local users 0 to 7, and the remote
/// persons alice (8) and bob (9).
fn world() -> Store {
    let mut s = Store::new();
    for _ in 0..4 {
        s.add_community(true);
    }
    for _ in 0..8 {
        s.add_person(true);
    }
    let alice = s.add_person(false);
    assert!(s.record_address(ALICE, Entity::Person(alice), BASE));
    let bob = s.add_person(false);
    assert!(s.record_address(BOB, Entity::Person(bob), BASE));
    s
}

fn create_page(id: &str, actor: &str, object_id: &str, title: &str) -> Activity {
    Activity::Direct(Direct {
        id: Some(id.to_owned()),
        actor: actor.to_owned(),
        action: Action::CreatePage(PageObject {
            id: Some(object_id.to_owned()),
            to: None,
            name: Some(title.to_owned()),
            url: None,
            content: Some("text".to_owned()),
        }),
    })
}

fn create_note(id: &str, actor: &str, object_id: &str, in_reply_to: &str) -> Activity {
    Activity::Direct(Direct {
        id: Some(id.to_owned()),
        actor: actor.to_owned(),
        action: Action::CreateNote(NoteObject {
            id: Some(object_id.to_owned()),
            in_reply_to: Some(in_reply_to.to_owned()),
            content: Some("a reply".to_owned()),
        }),
    })
}

fn simple(id: &str, actor: &str, action: Action) -> Activity {
    Activity::Direct(Direct { id: Some(id.to_owned()), actor: actor.to_owned(), action })
}

/// The world with a remote post by alice in local community 3, as post 0.
fn world_with_post() -> Store {
    let mut s = world();
    let a = create_page(
        "https://peer.example/activities/1",
        ALICE,
        "https://peer.example/posts/100",
        "Hello",
    );
    let r = s.receive(Recipient::Community(CommunityLocalID(3)), ALICE, &a, "{}", BASE);
    assert_eq!(r, Outcome::Applied);
    s
}

#[test]
fn remote_post_to_local_community() {
    let s = world_with_post();
    assert_eq!(s.posts.len(), 1);
    assert_eq!(s.posts[0].community, CommunityLocalID(3));
    assert_eq!(s.posts[0].author, Some(UserLocalID(8)));
    assert_eq!(s.posts[0].title.as_deref(), Some("Hello"));
    assert!(!s.posts[0].local);
    assert!(!s.posts[0].deleted);
    assert_eq!(
        s.lookup("https://peer.example/posts/100", BASE),
        Lookup::Found(Entity::Post(PostLocalID(0)))
    );
    assert_eq!(
        s.outbound,
        vec![Outbound::Announce {
            community: CommunityLocalID(3),
            object: "https://peer.example/posts/100".to_owned(),
            sender_host: Some("peer.example".to_owned()),
        }]
    );
    assert_eq!(s.seen, vec!["https://peer.example/activities/1".to_owned()]);
}

#[test]
fn replayed_activity_is_a_duplicate_and_changes_nothing() {
    let mut s = world_with_post();
    let before = format!("{:?}", s);
    let a = create_page(
        "https://peer.example/activities/1",
        ALICE,
        "https://peer.example/posts/100",
        "Hello",
    );
    let r = s.receive(Recipient::Community(CommunityLocalID(3)), ALICE, &a, "{}", BASE);
    assert_eq!(r, Outcome::Duplicate);
    assert_eq!(format!("{:?}", s), before);
}

#[test]
fn idempotent_create_replay() {
    let mut s = world();
    // Local post 0 by local user 2 in community 3.
    s.posts.push(lotide::store::PostRow {
        author: Some(UserLocalID(2)),
        community: CommunityLocalID(3),
        local: true,
        title: Some("Local".to_owned()),
        href: None,
        content_text: None,
        deleted: false,
    });
    let note = create_note(
        "https://peer.example/activities/2",
        ALICE,
        "https://peer.example/comments/5",
        "https://lotide.example/apub/posts/0",
    );
    let to = Recipient::Community(CommunityLocalID(3));
    assert_eq!(s.receive(to, ALICE, &note, "{}", BASE), Outcome::Applied);
    assert_eq!(s.receive(to, ALICE, &note, "{}", BASE), Outcome::Duplicate);
    assert_eq!(s.replies.len(), 1);
    assert_eq!(s.replies[0].post, PostLocalID(0));
    assert_eq!(s.replies[0].parent, None);
    assert_eq!(s.replies[0].author, Some(UserLocalID(8)));
    assert_eq!(
        s.notifications,
        vec![Notification::PostReply {
            to_user: UserLocalID(2),
            reply: CommentLocalID(0),
            parent_post: PostLocalID(0),
        }]
    );
    assert_eq!(s.outbound.len(), 1);
}

#[test]
fn reply_to_a_remote_comment_notifies_nobody() {
    let mut s = world_with_post();
    let to = Recipient::Community(CommunityLocalID(3));
    let first = create_note(
        "https://peer.example/activities/3",
        ALICE,
        "https://peer.example/comments/1",
        "https://peer.example/posts/100",
    );
    assert_eq!(s.receive(to, ALICE, &first, "{}", BASE), Outcome::Applied);
    let second = create_note(
        "https://other.example/activities/4",
        BOB,
        "https://other.example/comments/2",
        "https://peer.example/comments/1",
    );
    assert_eq!(s.receive(to, BOB, &second, "{}", BASE), Outcome::Applied);
    assert_eq!(s.replies.len(), 2);
    assert_eq!(s.replies[1].parent, Some(CommentLocalID(0)));
    assert_eq!(s.replies[1].post, PostLocalID(0));
    assert!(s.notifications.is_empty());
}

#[test]
fn commenting_on_ones_own_post_notifies_nobody() {
    let mut s = world_with_post();
    let to = Recipient::Community(CommunityLocalID(3));
    let own = create_note(
        "https://peer.example/activities/5",
        ALICE,
        "https://peer.example/comments/9",
        "https://peer.example/posts/100",
    );
    assert_eq!(s.receive(to, ALICE, &own, "{}", BASE), Outcome::Applied);
    assert!(s.notifications.is_empty());
}

#[test]
fn delete_by_wrong_actor() {
    let mut s = world_with_post();
    let before = format!("{:?}", s);
    let a = simple(
        "https://other.example/activities/6",
        BOB,
        Action::Delete { object: "https://peer.example/posts/100".to_owned() },
    );
    let r = s.receive(Recipient::Community(CommunityLocalID(3)), BOB, &a, "{}", BASE);
    assert_eq!(r, Outcome::Ignored);
    assert_eq!(r.status(), 202);
    assert_eq!(format!("{:?}", s), before);
}

#[test]
fn delete_by_the_author_empties_the_post_and_is_passed_on() {
    let mut s = world_with_post();
    let a = simple(
        "https://peer.example/activities/7",
        ALICE,
        Action::Delete { object: "https://peer.example/posts/100".to_owned() },
    );
    let r = s.receive(Recipient::Community(CommunityLocalID(3)), ALICE, &a, "raw body", BASE);
    assert_eq!(r, Outcome::Applied);
    assert!(s.posts[0].deleted);
    assert_eq!(s.posts[0].title, None);
    assert_eq!(s.posts[0].content_text, None);
    assert_eq!(s.posts[0].href, None);
    assert_eq!(s.posts[0].author, Some(UserLocalID(8)));
    assert_eq!(s.posts.len(), 1);
    assert_eq!(
        s.outbound.last(),
        Some(&Outbound::Forward {
            community: CommunityLocalID(3),
            body: "raw body".to_owned(),
            sender_host: Some("peer.example".to_owned()),
        })
    );
    // Deleting once more changes nothing.
    let again = simple(
        "https://peer.example/activities/8",
        ALICE,
        Action::Delete { object: "https://peer.example/posts/100".to_owned() },
    );
    let before = format!("{:?}", s);
    let r = s.receive(Recipient::Community(CommunityLocalID(3)), ALICE, &again, "x", BASE);
    assert_eq!(r, Outcome::Ignored);
    assert_eq!(format!("{:?}", s), before);
}

#[test]
fn like_then_undo() {
    let mut s = world_with_post();
    let to = Recipient::Community(CommunityLocalID(3));
    let like = simple(
        "https://other.example/likes/1",
        BOB,
        Action::Like { object: "https://peer.example/posts/100".to_owned() },
    );
    assert_eq!(s.receive(to, BOB, &like, "like body", BASE), Outcome::Applied);
    assert_eq!(s.likes.len(), 1);
    assert!(matches!(s.likes[0].target, ThingLocalRef::Post(PostLocalID(0))));
    assert_eq!(s.likes[0].person, UserLocalID(9));
    // The same like under another identifier changes nothing.
    let like_again = simple(
        "https://other.example/likes/2",
        BOB,
        Action::Like { object: "https://peer.example/posts/100".to_owned() },
    );
    assert_eq!(s.receive(to, BOB, &like_again, "like body", BASE), Outcome::Ignored);
    assert_eq!(s.likes.len(), 1);
    let undo = simple(
        "https://other.example/undos/1",
        BOB,
        Action::UndoLike { object: "https://peer.example/posts/100".to_owned() },
    );
    assert_eq!(s.receive(to, BOB, &undo, "undo body", BASE), Outcome::Applied);
    assert!(s.likes.is_empty());
    assert_eq!(
        s.outbound.last(),
        Some(&Outbound::Forward {
            community: CommunityLocalID(3),
            body: "undo body".to_owned(),
            sender_host: Some("other.example".to_owned()),
        })
    );
    // Nothing is left to undo.
    let undo_again = simple(
        "https://other.example/undos/2",
        BOB,
        Action::UndoLike { object: "https://peer.example/posts/100".to_owned() },
    );
    assert_eq!(s.receive(to, BOB, &undo_again, "undo body", BASE), Outcome::Ignored);
}

#[test]
fn follow_of_a_local_community_is_accepted_once() {
    let mut s = world();
    let to = Recipient::Community(CommunityLocalID(3));
    let follow = simple(
        "https://peer.example/follows/1",
        ALICE,
        Action::Follow { object: "https://lotide.example/apub/communities/3".to_owned() },
    );
    assert_eq!(s.receive(to, ALICE, &follow, "{}", BASE), Outcome::Applied);
    assert_eq!(
        s.follows,
        vec![FollowRow {
            community: CommunityLocalID(3),
            follower: UserLocalID(8),
            accepted: true
        }]
    );
    assert_eq!(
        s.outbound,
        vec![Outbound::Accept {
            community: CommunityLocalID(3),
            follower: UserLocalID(8),
            follow: "https://peer.example/follows/1".to_owned(),
        }]
    );
    let again = simple(
        "https://peer.example/follows/2",
        ALICE,
        Action::Follow { object: "https://lotide.example/apub/communities/3".to_owned() },
    );
    assert_eq!(s.receive(to, ALICE, &again, "{}", BASE), Outcome::Ignored);
    assert_eq!(s.follows.len(), 1);
    assert_eq!(s.outbound.len(), 1);
}

#[test]
fn follow_of_another_community_than_the_inbox_owner_is_ignored() {
    let mut s = world();
    let follow = simple(
        "https://peer.example/follows/1",
        ALICE,
        Action::Follow { object: "https://lotide.example/apub/communities/2".to_owned() },
    );
    let r = s.receive(Recipient::Community(CommunityLocalID(3)), ALICE, &follow, "{}", BASE);
    assert_eq!(r, Outcome::Ignored);
    assert!(s.follows.is_empty());
}

#[test]
fn local_follow_of_remote_community_is_marked_accepted() {
    let mut s = world();
    let remote = s.add_community(false);
    assert!(s.record_address(
        "https://peer.example/communities/42",
        Entity::Community(remote),
        BASE
    ));
    s.follows.push(FollowRow { community: remote, follower: UserLocalID(7), accepted: false });
    let accept = simple(
        "https://peer.example/accepts/1",
        "https://peer.example/communities/42",
        Action::AcceptFollow {
            follower: "https://lotide.example/apub/users/7".to_owned(),
            community: "https://peer.example/communities/42".to_owned(),
        },
    );
    let r = s.receive(
        Recipient::User(UserLocalID(7)),
        "https://peer.example/communities/42",
        &accept,
        "{}",
        BASE,
    );
    assert_eq!(r, Outcome::Applied);
    assert!(s.follows[0].accepted);
}

#[test]
fn unknown_sender_and_unknown_object_are_to_be_fetched() {
    let mut s = world();
    let stranger = "https://new.example/users/carol";
    let a = create_page("https://new.example/a/1", stranger, "https://new.example/p/1", "T");
    let r = s.receive(Recipient::Community(CommunityLocalID(3)), stranger, &a, "{}", BASE);
    assert_eq!(r, Outcome::Fetch(stranger.to_owned()));
    let like = simple(
        "https://peer.example/likes/9",
        ALICE,
        Action::Like { object: "https://new.example/p/1".to_owned() },
    );
    let r = s.receive(Recipient::Community(CommunityLocalID(3)), ALICE, &like, "{}", BASE);
    assert_eq!(r, Outcome::Fetch("https://new.example/p/1".to_owned()));
    let reference = simple(
        "https://peer.example/creates/9",
        ALICE,
        Action::CreateReference { object: "https://peer.example/posts/7".to_owned() },
    );
    let r = s.receive(Recipient::Community(CommunityLocalID(3)), ALICE, &reference, "{}", BASE);
    assert_eq!(r, Outcome::Fetch("https://peer.example/posts/7".to_owned()));
    assert!(s.seen.is_empty());
    assert!(s.posts.is_empty());
}

#[test]
fn malformed_and_foreign_activities() {
    let mut s = world();
    let to = Recipient::Community(CommunityLocalID(3));
    let no_id = Activity::Direct(Direct {
        id: None,
        actor: ALICE.to_owned(),
        action: Action::Other,
    });
    let r = s.receive(to, ALICE, &no_id, "{}", BASE);
    assert_eq!(r, Outcome::Ignored);
    assert_eq!(r.status(), 202);
    for action in [
        Action::Follow { object: "https://lotide.example/apub/communities/3".to_owned() },
        Action::CreatePage(PageObject { id: None, to: None, name: None, url: None, content: None }),
        Action::CreateNote(NoteObject { id: None, in_reply_to: None, content: None }),
    ] {
        let a = Activity::Direct(Direct { id: None, actor: ALICE.to_owned(), action });
        let r = s.receive(to, ALICE, &a, "{}", BASE);
        assert_eq!(r, Outcome::Malformed);
        assert_eq!(r.status(), 400);
    }
    let no_object_id = Activity::Direct(Direct {
        id: Some("https://peer.example/a/3".to_owned()),
        actor: ALICE.to_owned(),
        action: Action::CreatePage(PageObject { id: None, to: None, name: None, url: None, content: None }),
    });
    assert_eq!(s.receive(to, ALICE, &no_object_id, "{}", BASE), Outcome::Malformed);
    // Malformed whoever signed it.
    assert_eq!(s.receive(to, BOB, &no_object_id, "{}", BASE), Outcome::Malformed);
    // The actor named in the body is not the one who signed.
    let forged = create_page("https://peer.example/a/4", BOB, "https://peer.example/p/4", "T");
    assert_eq!(s.receive(to, ALICE, &forged, "{}", BASE), Outcome::Ignored);
    let other = simple("https://peer.example/a/5", ALICE, Action::Other);
    assert_eq!(s.receive(to, ALICE, &other, "{}", BASE), Outcome::Ignored);
    assert!(s.seen.is_empty());
    assert!(s.posts.is_empty());
}

#[test]
fn announcement_of_a_followed_community_brings_in_the_post() {
    let mut s = world();
    let remote = s.add_community(false);
    let group = "https://peer.example/communities/42";
    assert!(s.record_address(group, Entity::Community(remote), BASE));
    let inner = Direct {
        id: Some("https://peer.example/a/10".to_owned()),
        actor: ALICE.to_owned(),
        action: Action::CreatePage(PageObject {
            id: Some("https://peer.example/posts/200".to_owned()),
            to: None,
            name: Some("Announced".to_owned()),
            url: Some("https://example.com/".to_owned()),
            content: None,
        }),
    };
    let announce = Activity::Announce {
        id: Some("https://peer.example/announces/1".to_owned()),
        actor: group.to_owned(),
        inner,
    };
    // User 7 does not follow the community: nothing happens.
    let r = s.receive(Recipient::User(UserLocalID(7)), group, &announce, "{}", BASE);
    assert_eq!(r, Outcome::Ignored);
    s.follows.push(FollowRow { community: remote, follower: UserLocalID(7), accepted: true });
    let r = s.receive(Recipient::User(UserLocalID(7)), group, &announce, "{}", BASE);
    assert_eq!(r, Outcome::Applied);
    assert_eq!(s.posts.len(), 1);
    assert_eq!(s.posts[0].community, remote);
    assert_eq!(s.posts[0].href.as_deref(), Some("https://example.com/"));
    // A remote community is not announced by this instance.
    assert!(s.outbound.is_empty());
}

#[test]
fn lookup_tells_local_absent_and_unknown_addresses_apart() {
    let s = world();
    assert_eq!(
        s.lookup("https://lotide.example/apub/users/7", BASE),
        Lookup::Found(Entity::Person(UserLocalID(7)))
    );
    assert_eq!(s.lookup("https://lotide.example/apub/users/8", BASE), Lookup::Absent);
    assert_eq!(s.lookup("https://lotide.example/apub/users/99", BASE), Lookup::Absent);
    assert_eq!(s.lookup("https://lotide.example/apub/posts/0", BASE), Lookup::Absent);
    assert_eq!(s.lookup(ALICE, BASE), Lookup::Found(Entity::Person(UserLocalID(8))));
    assert_eq!(s.lookup("https://peer.example/users/zed", BASE), Lookup::Unknown);
}

#[test]
fn addresses_are_recorded_once() {
    let mut s = world();
    assert!(!s.record_address(ALICE, Entity::Person(UserLocalID(9)), BASE));
    assert!(!s.record_address("https://x.example/u", Entity::Person(UserLocalID(50)), BASE));
    assert!(!s.record_address(
        "https://lotide.example/apub/users/3",
        Entity::Person(UserLocalID(3)),
        BASE
    ));
    assert_eq!(s.addresses.len(), 2);
    assert!(s.seen_before("x") == false);
}

#[test]
fn what_follows_the_handling_of_an_activity() {
    assert_eq!(MAX_FETCHES, 4);
    let url = "https://peer.example/users/alice".to_owned();
    for fetched in 0..4 {
        assert_eq!(
            next_step(Outcome::Fetch(url.clone()), fetched),
            NextStep::FetchAndRetry(url.clone())
        );
    }
    let accepted = NextStep::Answer(HttpResponse { status: 202, content_type: None, body: vec![] });
    assert_eq!(acknowledgement(), HttpResponse { status: 202, content_type: None, body: vec![] });
    assert_eq!(next_step(Outcome::Fetch(url.clone()), 4), accepted);
    assert_eq!(next_step(Outcome::Fetch(url), 255), accepted);
    assert_eq!(next_step(Outcome::Applied, 0), accepted);
    assert_eq!(next_step(Outcome::Duplicate, 0), accepted);
    assert_eq!(next_step(Outcome::Ignored, 0), accepted);
    assert_eq!(
        next_step(Outcome::Malformed, 0),
        NextStep::Answer(HttpResponse {
            status: 400,
            content_type: None,
            body: b"Missing id in object".to_vec(),
        })
    );
    let res = not_an_activity();
    assert_eq!((res.status, res.body.as_slice()), (400, &b"Missing actor"[..]));
    assert_eq!(res.content_type, None);
}

fn unnamed(actor: &str, action: Action) -> Activity {
    Activity::Direct(Direct { id: None, actor: actor.to_owned(), action })
}

#[test]
fn an_activity_without_identifier_is_handled_and_not_recorded() {
    let mut s = world();
    let to = Recipient::Community(CommunityLocalID(3));
    let page = unnamed(
        ALICE,
        Action::CreatePage(PageObject {
            id: Some("https://peer.example/posts/100".to_owned()),
            to: None,
            name: Some("Hello".to_owned()),
            url: None,
            content: Some("text".to_owned()),
        }),
    );
    assert_eq!(s.receive(to, ALICE, &page, "{}", BASE), Outcome::Applied);
    assert_eq!(s.posts.len(), 1);
    assert_eq!(s.posts[0].title.as_deref(), Some("Hello"));
    assert_eq!(s.outbound.len(), 1);
    assert!(s.seen.is_empty());
    // Once more: the post is there already, and nothing is announced again.
    let before = format!("{:?}", s);
    assert_eq!(s.receive(to, ALICE, &page, "{}", BASE), Outcome::Applied);
    assert_eq!(format!("{:?}", s), before);

    let like = unnamed(ALICE, Action::Like { object: "https://peer.example/posts/100".to_owned() });
    assert_eq!(s.receive(to, ALICE, &like, "{}", BASE), Outcome::Applied);
    assert_eq!(s.likes.len(), 1);
    let before = format!("{:?}", s);
    assert_eq!(s.receive(to, ALICE, &like, "{}", BASE), Outcome::Ignored);
    assert_eq!(format!("{:?}", s), before);

    let undo =
        unnamed(ALICE, Action::UndoLike { object: "https://peer.example/posts/100".to_owned() });
    assert_eq!(s.receive(to, ALICE, &undo, "{}", BASE), Outcome::Applied);
    assert!(s.likes.is_empty());
    let before = format!("{:?}", s);
    assert_eq!(s.receive(to, ALICE, &undo, "{}", BASE), Outcome::Ignored);
    assert_eq!(format!("{:?}", s), before);

    let delete =
        unnamed(BOB, Action::Delete { object: "https://peer.example/posts/100".to_owned() });
    let before = format!("{:?}", s);
    assert_eq!(s.receive(to, BOB, &delete, "{}", BASE), Outcome::Ignored);
    assert_eq!(format!("{:?}", s), before);
    let delete =
        unnamed(ALICE, Action::Delete { object: "https://peer.example/posts/100".to_owned() });
    assert_eq!(s.receive(to, ALICE, &delete, "{}", BASE), Outcome::Applied);
    assert!(s.posts[0].deleted);
    let before = format!("{:?}", s);
    assert_eq!(s.receive(to, ALICE, &delete, "{}", BASE), Outcome::Ignored);
    assert_eq!(format!("{:?}", s), before);
    assert!(s.seen.is_empty());

    // Signed by somebody else.
    let forged = unnamed(BOB, Action::Like { object: "https://peer.example/posts/100".to_owned() });
    assert_eq!(s.receive(to, ALICE, &forged, "{}", BASE), Outcome::Ignored);
}

fn page_to(id: &str, object_id: &str, to: Option<&str>) -> Activity {
    Activity::Direct(Direct {
        id: Some(id.to_owned()),
        actor: ALICE.to_owned(),
        action: Action::CreatePage(PageObject {
            id: Some(object_id.to_owned()),
            to: to.map(str::to_owned),
            name: Some("Addressed".to_owned()),
            url: None,
            content: None,
        }),
    })
}

#[test]
fn a_page_goes_to_the_local_community_it_is_addressed_to() {
    let mut s = world();
    let remote = s.add_community(false);
    let group = "https://peer.example/communities/42";
    assert!(s.record_address(group, Entity::Community(remote), BASE));
    let two = "https://lotide.example/apub/communities/2";

    // Addressed to community 2, arriving in the inbox of community 3.
    let a = page_to("https://peer.example/a/1", "https://peer.example/posts/1", Some(two));
    let r = s.receive(Recipient::Community(CommunityLocalID(3)), ALICE, &a, "{}", BASE);
    assert_eq!(r, Outcome::Applied);
    assert_eq!(s.posts[0].community, CommunityLocalID(2));
    assert_eq!(
        s.outbound.last(),
        Some(&Outbound::Announce {
            community: CommunityLocalID(2),
            object: "https://peer.example/posts/1".to_owned(),
            sender_host: Some("peer.example".to_owned()),
        })
    );

    // Addressed to community 2, arriving in the inbox of a user.
    let a = page_to("https://peer.example/a/2", "https://peer.example/posts/2", Some(two));
    let r = s.receive(Recipient::User(UserLocalID(1)), ALICE, &a, "{}", BASE);
    assert_eq!(r, Outcome::Applied);
    assert_eq!(s.posts[1].community, CommunityLocalID(2));

    // Addressed to a remote community, to nobody, or to somebody unknown:
    // the page is for the community whose inbox it arrived in.
    for (n, to) in [(3, Some(group)), (4, None), (5, Some("https://else.example/c/1"))] {
        let a = page_to(
            &format!("https://peer.example/a/{}", n),
            &format!("https://peer.example/posts/{}", n),
            to,
        );
        let r = s.receive(Recipient::Community(CommunityLocalID(3)), ALICE, &a, "{}", BASE);
        assert_eq!(r, Outcome::Applied);
        assert_eq!(s.posts.last().unwrap().community, CommunityLocalID(3));
    }

    // Without a local community to be for, a page is ignored.
    let before = format!("{:?}", s);
    for recipient in [Recipient::User(UserLocalID(1)), Recipient::Community(remote)] {
        let a = page_to("https://peer.example/a/9", "https://peer.example/posts/9", Some(group));
        assert_eq!(s.receive(recipient, ALICE, &a, "{}", BASE), Outcome::Ignored);
        let a = page_to("https://peer.example/a/9", "https://peer.example/posts/9", None);
        assert_eq!(s.receive(recipient, ALICE, &a, "{}", BASE), Outcome::Ignored);
    }
    assert_eq!(format!("{:?}", s), before);
}

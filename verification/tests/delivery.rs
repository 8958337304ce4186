use lotide::delivery::{
    delete_delivery, deliver_to_followers, expand_followers, vote_deliveries, DeleteCommunityRow,
    FollowerInbox, Task, VoteTargetRow, DEFAULT_MAX_ATTEMPTS,
};
use lotide::{ActorLocalRef, CommunityLocalID, UserLocalID};

fn follower(inbox: Option<&str>, shared: Option<&str>) -> FollowerInbox {
    FollowerInbox { inbox: inbox.map(str::to_owned), shared_inbox: shared.map(str::to_owned) }
}

fn to_inbox(inbox: &str, sign_as: ActorLocalRef, object: &str) -> Task {
    Task::DeliverToInbox {
        inbox: inbox.to_owned(),
        sign_as: Some(sign_as),
        object: object.to_owned(),
    }
}

#[test]
fn follower_fanout_coalesces_shared_inboxes() {
    // Five followers on two hosts with shared inboxes, two with an inbox of
    // their own, and one local follower without any.
    let followers = vec![
        follower(Some("https://a.example/users/1/inbox"), Some("https://a.example/inbox")),
        follower(Some("https://b.example/users/1/inbox"), Some("https://b.example/inbox")),
        follower(Some("https://a.example/users/2/inbox"), Some("https://a.example/inbox")),
        follower(Some("https://c.example/users/1/inbox"), None),
        follower(None, None),
        follower(Some("https://a.example/users/3/inbox"), Some("https://a.example/inbox")),
        follower(Some("https://d.example/users/1/inbox"), None),
    ];
    let inboxes = expand_followers(&followers, None);
    assert_eq!(
        inboxes,
        vec![
            "https://a.example/inbox",
            "https://b.example/inbox",
            "https://c.example/users/1/inbox",
            "https://d.example/users/1/inbox",
        ]
    );
    // h = 2 hosts with shared inboxes, 2 followers without shared inbox.
    assert_eq!(inboxes.len(), 2 + 2);
}

#[test]
fn fanout_leaves_out_the_senders_host() {
    let followers = vec![
        follower(Some("https://a.example/users/1/inbox"), Some("https://a.example/inbox")),
        follower(Some("https://b.example/users/1/inbox"), None),
        follower(Some("https://b.example:8443/users/2/inbox"), None),
    ];
    assert_eq!(expand_followers(&followers, Some("a.example")), vec![
        "https://b.example/users/1/inbox",
        "https://b.example:8443/users/2/inbox",
    ]);
    assert_eq!(expand_followers(&followers, Some("b.example")), vec![
        "https://a.example/inbox",
        "https://b.example:8443/users/2/inbox",
    ]);
    assert!(expand_followers(&Vec::new(), None).is_empty());
}

#[test]
fn delivery_to_followers_is_signed_as_the_community() {
    let followers = vec![
        follower(Some("https://a.example/users/1/inbox"), Some("https://a.example/inbox")),
        follower(Some("https://a.example/users/2/inbox"), Some("https://a.example/inbox")),
        follower(Some("https://c.example/users/1/inbox"), None),
    ];
    let c = CommunityLocalID(3);
    let tasks = deliver_to_followers(c, &followers, None, "body");
    assert_eq!(
        tasks,
        vec![
            to_inbox("https://a.example/inbox", ActorLocalRef::Community(c), "body"),
            to_inbox("https://c.example/users/1/inbox", ActorLocalRef::Community(c), "body"),
        ]
    );
}

#[test]
fn vote_on_remote_target_in_remote_community() {
    let row = VoteTargetRow {
        target_local: false,
        author_inbox: Some("https://a.example/inbox".to_owned()),
        community: Some(CommunityLocalID(4)),
        community_local: Some(false),
        community_inbox: Some("https://b.example/inbox".to_owned()),
    };
    let user = UserLocalID(2);
    assert_eq!(
        vote_deliveries(&row, user, "like"),
        vec![
            to_inbox("https://a.example/inbox", ActorLocalRef::Person(user), "like"),
            to_inbox("https://b.example/inbox", ActorLocalRef::Person(user), "like"),
        ]
    );
    // Author and community behind one inbox: one delivery.
    let same = VoteTargetRow { community_inbox: Some("https://a.example/inbox".to_owned()), ..row };
    assert_eq!(
        vote_deliveries(&same, user, "like"),
        vec![to_inbox("https://a.example/inbox", ActorLocalRef::Person(user), "like")]
    );
}

#[test]
fn vote_on_local_post_in_local_community_is_fanned_out() {
    let row = VoteTargetRow {
        target_local: true,
        author_inbox: None,
        community: Some(CommunityLocalID(3)),
        community_local: Some(true),
        community_inbox: None,
    };
    assert_eq!(
        vote_deliveries(&row, UserLocalID(2), "undo"),
        vec![Task::DeliverToFollowers {
            community: CommunityLocalID(3),
            object: "undo".to_owned()
        }]
    );
    // The author's inbox is not used for a local target.
    let row = VoteTargetRow { author_inbox: Some("https://a.example/inbox".to_owned()), ..row };
    assert_eq!(vote_deliveries(&row, UserLocalID(2), "undo").len(), 1);
}

#[test]
fn vote_on_remote_post_in_local_community() {
    let row = VoteTargetRow {
        target_local: false,
        author_inbox: Some("https://a.example/inbox".to_owned()),
        community: Some(CommunityLocalID(3)),
        community_local: Some(true),
        community_inbox: Some("ignored".to_owned()),
    };
    let user = UserLocalID(2);
    assert_eq!(
        vote_deliveries(&row, user, "like"),
        vec![
            to_inbox("https://a.example/inbox", ActorLocalRef::Person(user), "like"),
            Task::DeliverToFollowers { community: CommunityLocalID(3), object: "like".to_owned() },
        ]
    );
    let orphan = VoteTargetRow {
        target_local: true,
        author_inbox: None,
        community: None,
        community_local: None,
        community_inbox: None,
    };
    assert!(vote_deliveries(&orphan, user, "like").is_empty());
}

#[test]
fn deletion_goes_to_followers_or_to_the_remote_community() {
    let user = UserLocalID(2);
    let local = DeleteCommunityRow { community: CommunityLocalID(3), local: true, inbox: None };
    assert_eq!(
        delete_delivery(Some(&local), user, "del"),
        Some(Task::DeliverToFollowers { community: CommunityLocalID(3), object: "del".to_owned() })
    );
    let remote = DeleteCommunityRow {
        community: CommunityLocalID(4),
        local: false,
        inbox: Some("https://b.example/inbox".to_owned()),
    };
    assert_eq!(
        delete_delivery(Some(&remote), user, "del"),
        Some(to_inbox("https://b.example/inbox", ActorLocalRef::Person(user), "del"))
    );
    let silent = DeleteCommunityRow { community: CommunityLocalID(4), local: false, inbox: None };
    assert_eq!(delete_delivery(Some(&silent), user, "del"), None);
    assert_eq!(delete_delivery(None, user, "del"), None);
}

#[test]
fn task_kinds_and_attempts() {
    let t = Task::DeliverToInbox { inbox: "i".to_owned(), sign_as: None, object: "o".to_owned() };
    assert_eq!(t.kind(), "deliver_to_inbox");
    assert_eq!(t.max_attempts(), 8);
    assert_eq!(DEFAULT_MAX_ATTEMPTS, 8);
    let t = Task::DeliverToFollowers { community: CommunityLocalID(1), object: "o".to_owned() };
    assert_eq!(t.kind(), "deliver_to_followers");
    let t = Task::Fetch { url: "u".to_owned(), reason: "r".to_owned() };
    assert_eq!(t.kind(), "fetch");
}

use lotide::listing::{
    apply_comments_replies, author_info, comment_detail, comment_entry, comment_ids,
    community_info, created_text, group_replies, listed_author, mark_has_replies, named_author,
    no_such_user, post_detail, post_list_entry, reply_fetch, thing_entry,
    user_info, your_vote, AuthorColumns, CommentColumns, CommunityColumns, Empty, PostColumns,
    ReplyFetch, RespMinimalPostInfo, RespPostCommentInfo, RespThingInfo, ThingColumns,
    COMMENT_REPLY_DEPTH, POST_REPLY_DEPTH,
};
use lotide::timestamp::Timestamp;
use lotide::Error;
use std::collections::{HashMap, HashSet};

const HOST: &str = "lotide.example";

fn created() -> Timestamp {
    Timestamp { secs: 1431648000, nanos: 0, offset: 0 }
}

fn comment(id: i64) -> RespPostCommentInfo {
    RespPostCommentInfo {
        id,
        author: None,
        created: "2015-05-15T00:00:00+00:00".to_owned(),
        content_text: Some(format!("comment {}", id)),
        content_html: None,
        deleted: false,
        replies: None,
        has_replies: false,
        your_vote: None,
    }
}

fn remote_author() -> AuthorColumns {
    AuthorColumns {
        id: Some(8),
        username: Some("alice".to_owned()),
        local: Some(false),
        ap_id: Some("https://peer.example/users/alice".to_owned()),
    }
}

fn no_author() -> AuthorColumns {
    AuthorColumns { id: None, username: None, local: None, ap_id: None }
}

fn post_row(author: AuthorColumns) -> PostColumns {
    PostColumns {
        id: 9,
        title: "Title".to_owned(),
        href: Some("https://example.com".to_owned()),
        content_text: None,
        content_html: None,
        created: created(),
        community: CommunityColumns {
            id: 3,
            name: "books".to_owned(),
            local: true,
            ap_id: None,
        },
        author,
    }
}

#[test]
fn authors_and_communities_show_their_host() {
    let a = author_info(8, "alice".to_owned(), false, Some("https://peer.example/users/alice"), HOST);
    assert_eq!(a.id, 8);
    assert_eq!(a.username, "alice");
    assert!(!a.local);
    assert_eq!(a.host, "peer.example");
    assert_eq!(a.remote_url.as_deref(), Some("https://peer.example/users/alice"));
    let a = author_info(2, "bob".to_owned(), true, None, HOST);
    assert_eq!(a.host, "lotide.example");
    assert_eq!(a.remote_url, None);
    let a = author_info(2, "ghost".to_owned(), false, None, HOST);
    assert_eq!(a.host, "[unknown]");
    let c = community_info(3, "books".to_owned(), false, Some("https://p.example:81/c/1"), HOST);
    assert_eq!((c.id, c.name.as_str(), c.local, c.host.as_str()), (3, "books", false, "p.example:81"));
    let u = user_info(2, "bob".to_owned(), true, None, "about me".to_owned(), HOST);
    assert_eq!(u.description, "about me");
    assert_eq!(u.base.host, "lotide.example");
}

#[test]
fn times_are_written_after_rfc3339() {
    assert_eq!(created_text(&created()).unwrap(), "2015-05-15T00:00:00+00:00");
    let far = Timestamp { secs: i64::MAX, nanos: 0, offset: 0 };
    assert!(matches!(created_text(&far), Err(Error::InternalStrStatic(_))));
}

#[test]
fn votes_are_reported_only_when_asked_for() {
    assert_eq!(your_vote(false, true), None);
    assert_eq!(your_vote(false, false), None);
    assert_eq!(your_vote(true, true), Some(Some(Empty {})));
    assert_eq!(your_vote(true, false), Some(None));
}

#[test]
fn listed_posts_report_the_author_by_key() {
    let post = post_list_entry(post_row(remote_author()), HOST).unwrap();
    assert_eq!(post.id, 9);
    assert_eq!(post.title, "Title");
    assert_eq!(post.created, "2015-05-15T00:00:00+00:00");
    assert_eq!(post.community.host, "lotide.example");
    let author = post.author.unwrap();
    assert_eq!((author.id, author.host.as_str()), (8, "peer.example"));
    let post = post_list_entry(post_row(no_author()), HOST).unwrap();
    assert_eq!(post.author, None);
    // A key without the rest of the author's columns.
    let broken = AuthorColumns { id: Some(8), username: None, local: None, ap_id: None };
    assert!(post_list_entry(post_row(broken.clone()), HOST).is_err());
    assert!(listed_author(broken.clone(), HOST).is_err());
    // By name, the same columns mean that there is no author.
    assert_eq!(named_author(broken, HOST).unwrap(), None);
}

#[test]
fn single_post_or_404() {
    match post_detail(None, 0, Vec::new(), None, HOST).unwrap() {
        Err(res) => {
            assert_eq!(res.status, 404);
            assert_eq!(res.body, b"No such post");
        }
        Ok(_) => panic!(),
    }
    let info = post_detail(
        Some(post_row(remote_author())),
        5,
        vec![comment(1)],
        Some(Some(Empty {})),
        HOST,
    )
    .unwrap()
    .unwrap();
    assert_eq!(info.score, 5);
    assert_eq!(info.comments.len(), 1);
    assert_eq!(info.your_vote, Some(Some(Empty {})));
    assert_eq!(info.post.author.unwrap().username, "alice");
}

#[test]
fn comments_are_threaded_under_their_parents() {
    let comments = vec![comment(1), comment(2), comment(3)];
    assert_eq!(comment_ids(&comments), vec![1, 2, 3]);
    let rows = vec![(3, comment(10)), (1, comment(11)), (3, comment(12)), (9, comment(13))];
    let threads = apply_comments_replies(comments, group_replies(rows));
    assert_eq!(threads.len(), 3);
    let ids = |c: &RespPostCommentInfo| -> Vec<i64> {
        c.replies.as_ref().unwrap().iter().map(|r| r.id).collect()
    };
    assert_eq!(ids(&threads[0]), vec![11]);
    assert!(threads[0].has_replies);
    assert_eq!(ids(&threads[1]), Vec::<i64>::new());
    assert!(!threads[1].has_replies);
    assert_eq!(ids(&threads[2]), vec![10, 12]);
    assert!(threads[2].has_replies);
    assert_eq!(threads[2].content_text.as_deref(), Some("comment 3"));
}

#[test]
fn of_two_comments_with_one_key_the_first_gets_the_replies() {
    let threads = apply_comments_replies(
        vec![comment(1), comment(1)],
        group_replies(vec![(1, comment(10)), (1, comment(11))]),
    );
    assert_eq!(threads[0].replies.as_ref().unwrap().len(), 2);
    assert_eq!(threads[1].replies.as_ref().unwrap().len(), 0);
    assert!(threads[0].has_replies && !threads[1].has_replies);
}

#[test]
fn replies_are_grouped_in_order() {
    let rows = vec![(3, comment(10)), (1, comment(11)), (3, comment(12))];
    let groups = group_replies(rows);
    assert_eq!(groups.len(), 2);
    assert_eq!(groups[&3].iter().map(|c| c.id).collect::<Vec<_>>(), vec![10, 12]);
    assert_eq!(groups[&1].iter().map(|c| c.id).collect::<Vec<_>>(), vec![11]);
    assert!(!groups.contains_key(&2));
    assert!(group_replies(Vec::new()).is_empty());
    let threads = apply_comments_replies(vec![comment(7)], HashMap::new());
    assert!(threads[0].replies.as_ref().unwrap().is_empty());
    assert!(!threads[0].has_replies);
}

#[test]
fn at_the_bottom_only_existence_is_marked() {
    let with_replies: HashSet<i64> = [2, 7].into_iter().collect();
    let marked = mark_has_replies(vec![comment(1), comment(2)], &with_replies);
    assert!(!marked[0].has_replies);
    assert!(marked[1].has_replies);
    assert!(marked[0].replies.is_none() && marked[1].replies.is_none());
    assert_eq!(reply_fetch(2), ReplyFetch::Replies { depth: 1 });
    assert_eq!(reply_fetch(1), ReplyFetch::Replies { depth: 0 });
    assert_eq!(reply_fetch(0), ReplyFetch::Existence);
    assert_eq!((POST_REPLY_DEPTH, COMMENT_REPLY_DEPTH), (2, 3));
}

#[test]
fn single_comment_or_404() {
    match comment_detail(None, None, HashMap::new(), None, HOST).unwrap() {
        Err(res) => {
            assert_eq!(res.status, 404);
            assert_eq!(res.body, b"No such comment");
        }
        Ok(_) => panic!(),
    }
    let row = CommentColumns {
        id: 4,
        content_text: Some("text".to_owned()),
        content_html: None,
        created: created(),
        deleted: false,
        author: remote_author(),
    };
    let entry = comment_entry(row.clone(), Some(None), HOST).unwrap();
    assert_eq!(entry.id, 4);
    assert_eq!(entry.your_vote, Some(None));
    assert!(entry.replies.is_none() && !entry.has_replies);
    assert_eq!(entry.author.unwrap().host, "peer.example");
    let post = RespMinimalPostInfo { id: 9, title: "Title".to_owned() };
    let info = comment_detail(
        Some(row),
        Some(post.clone()),
        group_replies(vec![(4, comment(10)), (5, comment(11))]),
        None,
        HOST,
    )
    .unwrap()
    .unwrap();
    assert_eq!(info.post, Some(post));
    assert!(info.base.has_replies);
    assert_eq!(info.base.replies.unwrap().iter().map(|c| c.id).collect::<Vec<_>>(), vec![10]);
}

#[test]
fn things_of_a_user() {
    let post = ThingColumns::Post {
        id: 9,
        href: None,
        title: "Title".to_owned(),
        created: created(),
        community: CommunityColumns {
            id: 3,
            name: "books".to_owned(),
            local: false,
            ap_id: Some("https://peer.example/c/3".to_owned()),
        },
    };
    match thing_entry(post, HOST).unwrap() {
        RespThingInfo::Post { id, title, created, community, .. } => {
            assert_eq!((id, title.as_str()), (9, "Title"));
            assert_eq!(created, "2015-05-15T00:00:00+00:00");
            assert_eq!(community.host, "peer.example");
        }
        other => panic!("{:?}", other),
    }
    let comment = ThingColumns::Comment {
        id: 4,
        content_text: Some("t".to_owned()),
        content_html: None,
        created: created(),
        post: RespMinimalPostInfo { id: 9, title: "Title".to_owned() },
    };
    assert!(matches!(thing_entry(comment, HOST).unwrap(), RespThingInfo::Comment { id: 4, .. }));
    match no_such_user() {
        Error::UserError(res) => assert_eq!((res.status, res.body.as_slice()), (404, &b"No such user"[..])),
        other => panic!("{:?}", other),
    }
}

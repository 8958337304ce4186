//! What the read API reports: authors, communities, posts and comments as
//! the client sees them, and the assembly of comments into threads.

use crate::host::{actor_host, get_actor_host_or_unknown, str_text_of};
use crate::auth::{is_user_error, user_error};
use crate::response::{simple_response, Error, HttpResponse, NOT_FOUND};
use vstd::string::StringSliceAdditionalSpecFns;
use crate::text::text_of;
use crate::timestamp::{rfc3339_text, Timestamp};
use std::borrow::Cow;
use std::collections::{HashMap, HashSet};
use vstd::prelude::*;

verus! {

/// The mark of a vote that exists.
#[derive(Debug, Clone, Copy, PartialEq, Eq, Structural)]
pub struct Empty {}

/// An author as the client sees it.
#[derive(Debug, Clone, PartialEq, Eq)]
pub struct RespMinimalAuthorInfo {
    pub id: i64,
    pub username: String,
    pub local: bool,
    pub host: String,
    pub remote_url: Option<String>,
}

/// A community as the client sees it.
#[derive(Debug, Clone, PartialEq, Eq)]
pub struct RespMinimalCommunityInfo {
    pub id: i64,
    pub name: String,
    pub local: bool,
    pub host: String,
    pub remote_url: Option<String>,
}

/// A post as a comment refers to it.
#[derive(Debug, Clone, PartialEq, Eq)]
pub struct RespMinimalPostInfo {
    pub id: i64,
    pub title: String,
}

/// A user's page.
#[derive(Debug, Clone, PartialEq, Eq)]
pub struct RespUserInfo {
    pub base: RespMinimalAuthorInfo,
    pub description: String,
}

/// A post in a listing.
#[derive(Debug, Clone, PartialEq, Eq)]
pub struct RespPostListPost {
    pub id: i64,
    pub title: String,
    pub href: Option<String>,
    pub content_text: Option<String>,
    pub content_html: Option<String>,
    pub author: Option<RespMinimalAuthorInfo>,
    pub created: String,
    pub community: RespMinimalCommunityInfo,
}

/// A comment with the replies below it.
#[derive(Debug)]
pub struct RespPostCommentInfo {
    pub id: i64,
    pub author: Option<RespMinimalAuthorInfo>,
    pub created: String,
    pub content_text: Option<String>,
    pub content_html: Option<String>,
    pub deleted: bool,
    /// The replies, where they were fetched.
    pub replies: Option<Vec<RespPostCommentInfo>>,
    pub has_replies: bool,
    /// Whether the asking user voted, where that was asked for.
    pub your_vote: Option<Option<Empty>>,
}

/// The host shown for an actor: where the actor lives, or `[unknown]`.
pub open spec fn shown_actor_host(local: bool, ap_id: Option<Seq<char>>, local_hostname: Seq<char>)
    -> Seq<char> {
    match actor_host(local, ap_id, local_hostname) {
        Some(host) => host,
        None => "[unknown]"@,
    }
}

fn shown_host(local: bool, ap_id: Option<&str>, local_hostname: &str) -> (r: String)
    ensures
        r@ == shown_actor_host(local, str_text_of(ap_id), local_hostname@),
{
    match get_actor_host_or_unknown(local, ap_id, local_hostname) {
        Cow::Borrowed(s) => s.to_owned(),
        Cow::Owned(s) => s,
    }
}

fn owned(s: Option<&str>) -> (r: Option<String>)
    ensures
        text_of(r) == str_text_of(s),
{
    match s {
        Some(s) => Some(s.to_owned()),
        None => None,
    }
}

/// An author as the client sees it: the host is where the actor lives, and
/// the remote address is the actor's address.
pub fn author_info(id: i64, username: String, local: bool, ap_id: Option<&str>, local_hostname: &str)
    -> (r: RespMinimalAuthorInfo)
    ensures
        r.id == id,
        r.username == username,
        r.local == local,
        r.host@ == shown_actor_host(local, str_text_of(ap_id), local_hostname@),
        text_of(r.remote_url) == str_text_of(ap_id),
{
    RespMinimalAuthorInfo {
        id,
        username,
        local,
        host: shown_host(local, ap_id, local_hostname),
        remote_url: owned(ap_id),
    }
}

/// A community as the client sees it.
pub fn community_info(id: i64, name: String, local: bool, ap_id: Option<&str>, local_hostname: &str)
    -> (r: RespMinimalCommunityInfo)
    ensures
        r.id == id,
        r.name == name,
        r.local == local,
        r.host@ == shown_actor_host(local, str_text_of(ap_id), local_hostname@),
        text_of(r.remote_url) == str_text_of(ap_id),
{
    RespMinimalCommunityInfo {
        id,
        name,
        local,
        host: shown_host(local, ap_id, local_hostname),
        remote_url: owned(ap_id),
    }
}

/// A user's page.
pub fn user_info(
    id: i64,
    username: String,
    local: bool,
    ap_id: Option<&str>,
    description: String,
    local_hostname: &str,
) -> (r: RespUserInfo)
    ensures
        r.base.id == id,
        r.base.username == username,
        r.base.local == local,
        r.base.host@ == shown_actor_host(local, str_text_of(ap_id), local_hostname@),
        text_of(r.base.remote_url) == str_text_of(ap_id),
        r.description == description,
{
    RespUserInfo { base: author_info(id, username, local, ap_id, local_hostname), description }
}

/// The time of creation as the client sees it. A moment that the calendar
/// cannot hold is an internal error.
pub fn created_text(created: &Timestamp) -> (r: Result<String, Error>)
    ensures
        match r {
            Ok(s) => rfc3339_text(
                created.secs as int,
                created.nanos as int,
                created.offset as int,
            ) == Some(s@),
            Err(e) => rfc3339_text(created.secs as int, created.nanos as int, created.offset as int)
                is None && e is InternalStrStatic,
        },
{
    match created.to_rfc3339() {
        Some(s) => Ok(s),
        None => Err(Error::InternalStrStatic("Timestamp out of range")),
    }
}

/// Whether the asking user voted, as the client sees it: nothing where it
/// was not asked for, else the mark or its absence.
pub fn your_vote(asked: bool, voted: bool) -> (r: Option<Option<Empty>>)
    ensures
        r == if !asked {
            None
        } else if voted {
            Some(Some(Empty {  }))
        } else {
            Some(None::<Empty>)
        },
{
    if !asked {
        None
    } else if voted {
        Some(Some(Empty {  }))
    } else {
        Some(None)
    }
}

/// The keys of a list of comments, in order.
pub open spec fn ids_of(comments: Seq<RespPostCommentInfo>) -> Seq<i64> {
    comments.map_values(|c: RespPostCommentInfo| c.id)
}

/// The keys of a list of comments, in order.
pub fn comment_ids(comments: &Vec<RespPostCommentInfo>) -> (ids: Vec<i64>)
    ensures
        ids@ == ids_of(comments@),
{
    let mut ids: Vec<i64> = Vec::new();
    let mut i: usize = 0;
    while i < comments.len()
        invariant
            i <= comments.len(),
            ids@ == ids_of(comments@.take(i as int)),
        decreases comments.len() - i,
    {
        ids.push(comments[i].id);
        assert(ids@ =~= ids_of(comments@.take(i + 1)));
        i = i + 1;
    }
    assert(comments@.take(comments.len() as int) =~= comments@);
    ids
}

/// The comments among `rows` that answer `parent`, in order. A row pairs a
/// comment with the key of what it answers.
pub open spec fn children_of(rows: Seq<(i64, RespPostCommentInfo)>, parent: i64) -> Seq<
    RespPostCommentInfo,
>
    decreases rows.len(),
{
    if rows.len() == 0 {
        Seq::empty()
    } else if rows[0].0 == parent {
        seq![rows[0].1] + children_of(rows.skip(1), parent)
    } else {
        children_of(rows.skip(1), parent)
    }
}

/// A row added at the end adds to the comments that answer its parent, and
/// to no others.
pub proof fn lemma_children_push(
    rows: Seq<(i64, RespPostCommentInfo)>,
    row: (i64, RespPostCommentInfo),
    parent: i64,
)
    ensures
        children_of(rows.push(row), parent) == if row.0 == parent {
            children_of(rows, parent).push(row.1)
        } else {
            children_of(rows, parent)
        },
    decreases rows.len(),
{
    if rows.len() == 0 {
        assert(rows.push(row).skip(1) =~= Seq::<(i64, RespPostCommentInfo)>::empty());
        assert(children_of(rows.push(row).skip(1), parent) =~= Seq::<
            RespPostCommentInfo,
        >::empty());
        assert(seq![row.1] + Seq::<RespPostCommentInfo>::empty() =~= Seq::<
            RespPostCommentInfo,
        >::empty().push(row.1));
    } else {
        lemma_children_push(rows.skip(1), row, parent);
        assert(rows.push(row).skip(1) =~= rows.skip(1).push(row));
        assert(rows.push(row)[0] == rows[0]);
        if rows[0].0 == parent && row.0 == parent {
            assert(seq![rows[0].1] + children_of(rows.skip(1), parent).push(row.1) =~= (
            seq![rows[0].1] + children_of(rows.skip(1), parent)).push(row.1));
        }
    }
}

/// The replies on record under a key: the list that the map holds for it,
/// or none.
pub open spec fn replies_under(replies: Map<i64, Vec<RespPostCommentInfo>>, parent: i64) -> Seq<
    RespPostCommentInfo,
> {
    if replies.contains_key(parent) {
        replies[parent]@
    } else {
        Seq::empty()
    }
}

/// Groups comments by what they answer. A row pairs a comment with the key
/// of what it answers; under each key that some row names stand the
/// comments that answer it, in the order of the rows.
pub fn group_replies(rows: Vec<(i64, RespPostCommentInfo)>) -> (replies: HashMap<
    i64,
    Vec<RespPostCommentInfo>,
>)
    ensures
        forall|parent: i64|
            replies@.contains_key(parent) <==> #[trigger] children_of(rows@, parent).len() > 0,
        forall|parent: i64| #[trigger]
            replies_under(replies@, parent) == children_of(rows@, parent),
{
    let mut replies: HashMap<i64, Vec<RespPostCommentInfo>> = HashMap::new();
    let ghost all = rows@;
    assert(all.take(0) =~= Seq::<(i64, RespPostCommentInfo)>::empty());
    for row in it: rows.into_iter()
        invariant
            it.seq() == all,
            forall|parent: i64|
                replies@.contains_key(parent) <==> #[trigger] children_of(
                    all.take(it.index() as int),
                    parent,
                ).len() > 0,
            forall|parent: i64| #[trigger]
                replies_under(replies@, parent) == children_of(
                    all.take(it.index() as int),
                    parent,
                ),
    {
        let ghost before = replies@;
        let ghost n = it.index() as int;
        let (parent, comment) = row;
        let mut list = match replies.remove(&parent) {
            Some(list) => list,
            None => Vec::new(),
        };
        assert(list@ == replies_under(before, parent));
        list.push(comment);
        replies.insert(parent, list);
        proof {
            assert(all.take(n + 1) =~= all.take(n).push(all[n]));
            assert forall|p: i64|
                (replies@.contains_key(p) <==> #[trigger] children_of(all.take(n + 1), p).len()
                    > 0) && replies_under(replies@, p) == children_of(all.take(n + 1), p) by {
                lemma_children_push(all.take(n), all[n], p);
                assert(replies_under(before, p) == children_of(all.take(n), p));
                assert(before.contains_key(p) <==> children_of(all.take(n), p).len() > 0);
            }
        }
    }
    assert(all.take(all.len() as int) =~= all);
    replies
}

/// Whether one of the first `n` comments has the key `id`.
pub open spec fn claimed(comments: Seq<RespPostCommentInfo>, n: int, id: i64) -> bool {
    exists|j: int| 0 <= j < n && (#[trigger] comments[j]).id == id
}

/// The replies that the comment at `i` gets: those on record under its key,
/// unless an earlier comment has the same key and got them.
pub open spec fn replies_for(
    comments: Seq<RespPostCommentInfo>,
    replies: Map<i64, Vec<RespPostCommentInfo>>,
    i: int,
) -> Seq<RespPostCommentInfo> {
    if claimed(comments, i, comments[i].id) {
        Seq::empty()
    } else {
        replies_under(replies, comments[i].id)
    }
}

/// The comment `c` with `children` as its replies.
pub open spec fn with_replies(c: RespPostCommentInfo, children: Seq<RespPostCommentInfo>)
    -> RespPostCommentInfoShape {
    RespPostCommentInfoShape { comment: c, replies: Some(children), has_replies: children.len() > 0 }
}

/// A comment with what the assembly of a thread sets on it: its replies and
/// whether it has any. Everything else is as in `comment`.
pub struct RespPostCommentInfoShape {
    pub comment: RespPostCommentInfo,
    pub replies: Option<Seq<RespPostCommentInfo>>,
    pub has_replies: bool,
}

/// Whether `c` is `shape.comment` with the replies and the mark of `shape`.
pub open spec fn has_shape(c: RespPostCommentInfo, shape: RespPostCommentInfoShape) -> bool {
    &&& c.id == shape.comment.id
    &&& c.author == shape.comment.author
    &&& c.created == shape.comment.created
    &&& c.content_text == shape.comment.content_text
    &&& c.content_html == shape.comment.content_html
    &&& c.deleted == shape.comment.deleted
    &&& c.your_vote == shape.comment.your_vote
    &&& c.has_replies == shape.has_replies
    &&& match (c.replies, shape.replies) {
        (Some(a), Some(b)) => a@ == b,
        (None, None) => true,
        _ => false,
    }
}

/// Gives each comment its replies: the comments on record under its key,
/// in order. Of two comments with the same key the first gets them. A
/// comment has replies exactly when it got some.
pub fn apply_comments_replies(
    comments: Vec<RespPostCommentInfo>,
    replies: HashMap<i64, Vec<RespPostCommentInfo>>,
) -> (threads: Vec<RespPostCommentInfo>)
    ensures
        threads.len() == comments.len(),
        forall|i: int|
            0 <= i < comments.len() ==> has_shape(
                #[trigger] threads@[i],
                with_replies(comments@[i], replies_for(comments@, replies@, i)),
            ),
{
    let mut threads: Vec<RespPostCommentInfo> = Vec::new();
    let mut left = replies;
    let ghost all = comments@;
    for c in it: comments.into_iter()
        invariant
            it.seq() == all,
            threads.len() == it.index(),
            forall|k: i64|
                #[trigger] left@.contains_key(k) <==> replies@.contains_key(k) && !claimed(
                    all,
                    it.index() as int,
                    k,
                ),
            forall|k: i64| #[trigger] left@.contains_key(k) ==> left@[k] == replies@[k],
            forall|i: int|
                0 <= i < it.index() ==> has_shape(
                    #[trigger] threads@[i],
                    with_replies(all[i], replies_for(all, replies@, i)),
                ),
    {
        let ghost before = left@;
        let ghost n = it.index() as int;
        let children = match left.remove(&c.id) {
            Some(list) => list,
            None => Vec::new(),
        };
        proof {
            assert(c == all[n]);
            assert(children@ == replies_for(all, replies@, n));
            assert forall|k: i64|
                #[trigger] left@.contains_key(k) <==> replies@.contains_key(k) && !claimed(
                    all,
                    n + 1,
                    k,
                ) by {
                if claimed(all, n + 1, k) {
                    let j = choose|j: int| 0 <= j < n + 1 && (#[trigger] all[j]).id == k;
                    if j < n {
                        assert(claimed(all, n, k));
                    }
                }
                if claimed(all, n, k) {
                    let j = choose|j: int| 0 <= j < n && (#[trigger] all[j]).id == k;
                    assert(0 <= j < n + 1 && all[j].id == k);
                }
                if k == c.id {
                    assert(0 <= n < n + 1 && all[n].id == k);
                }
                assert(before.contains_key(k) <==> replies@.contains_key(k) && !claimed(
                    all,
                    n,
                    k,
                ));
            }
        }
        let has_replies = children.len() > 0;
        let mut thread = c;
        thread.replies = Some(children);
        thread.has_replies = has_replies;
        threads.push(thread);
    }
    threads
}

/// Marks each comment that has replies: those whose key is among
/// `with_replies`. The replies themselves are not attached.
pub fn mark_has_replies(comments: Vec<RespPostCommentInfo>, with_replies: &HashSet<i64>) -> (marked:
    Vec<RespPostCommentInfo>)
    ensures
        marked.len() == comments.len(),
        forall|i: int|
            0 <= i < comments.len() ==> has_shape(
                #[trigger] marked@[i],
                RespPostCommentInfoShape {
                    comment: comments@[i],
                    replies: match comments@[i].replies {
                        Some(r) => Some(r@),
                        None => None,
                    },
                    has_replies: with_replies@.contains(comments@[i].id),
                },
            ),
{
    let mut marked: Vec<RespPostCommentInfo> = Vec::new();
    let ghost all = comments@;
    for c in it: comments.into_iter()
        invariant
            it.seq() == all,
            marked.len() == it.index(),
            forall|i: int|
                0 <= i < it.index() ==> has_shape(
                    #[trigger] marked@[i],
                    RespPostCommentInfoShape {
                        comment: all[i],
                        replies: match all[i].replies {
                            Some(r) => Some(r@),
                            None => None,
                        },
                        has_replies: with_replies@.contains(all[i].id),
                    },
                ),
    {
        let found = with_replies.contains(&c.id);
        let mut comment = c;
        comment.has_replies = found;
        marked.push(comment);
    }
    marked
}

/// How the replies below a list of comments are brought in.
#[derive(Debug, Clone, Copy, PartialEq, Eq, Structural)]
pub enum ReplyFetch {
    /// Fetch the replies themselves, and below them with this depth.
    Replies { depth: u8 },
    /// Only find out which comments have replies.
    Existence,
}

/// How deep threads are shown below a post.
pub const POST_REPLY_DEPTH: u8 = 2;

/// How deep threads are shown below a comment.
pub const COMMENT_REPLY_DEPTH: u8 = 3;

/// Decides how the replies below a list of comments are brought in: in
/// full while depth is left, by existence only at the bottom.
pub fn reply_fetch(depth: u8) -> (r: ReplyFetch)
    ensures
        r == if depth > 0 {
            ReplyFetch::Replies { depth: (depth - 1) as u8 }
        } else {
            ReplyFetch::Existence
        },
{
    if depth > 0 {
        ReplyFetch::Replies { depth: depth - 1 }
    } else {
        ReplyFetch::Existence
    }
}

/// The columns of a row that tell of an author. They are all empty where
/// the row has no author.
#[derive(Debug, Clone, PartialEq, Eq)]
pub struct AuthorColumns {
    pub id: Option<i64>,
    pub username: Option<String>,
    pub local: Option<bool>,
    pub ap_id: Option<String>,
}

/// The columns of a row that tell of a community.
#[derive(Debug, Clone, PartialEq, Eq)]
pub struct CommunityColumns {
    pub id: i64,
    pub name: String,
    pub local: bool,
    pub ap_id: Option<String>,
}

/// A row of a listing of posts.
#[derive(Debug, Clone, PartialEq, Eq)]
pub struct PostColumns {
    pub id: i64,
    pub title: String,
    pub href: Option<String>,
    pub content_text: Option<String>,
    pub content_html: Option<String>,
    pub created: Timestamp,
    pub community: CommunityColumns,
    pub author: AuthorColumns,
}

/// A row of a listing of comments.
#[derive(Debug, Clone, PartialEq, Eq)]
pub struct CommentColumns {
    pub id: i64,
    pub content_text: Option<String>,
    pub content_html: Option<String>,
    pub created: Timestamp,
    pub deleted: bool,
    pub author: AuthorColumns,
}

/// Whether the columns of an author are filled in as far as a report of the
/// author needs them.
pub open spec fn author_complete(cols: AuthorColumns) -> bool {
    cols.id is Some && cols.username is Some && cols.local is Some
}

fn as_str_opt(s: &Option<String>) -> (r: Option<&str>)
    ensures
        str_text_of(r) == text_of(*s),
{
    match s {
        Some(s) => Some(s.as_str()),
        None => None,
    }
}

/// Whether an author is reported as the columns have it, where `present`
/// says that the row has an author, and not at all otherwise.
pub open spec fn reports_author(
    author: Option<RespMinimalAuthorInfo>,
    cols: AuthorColumns,
    present: bool,
    local_hostname: Seq<char>,
) -> bool {
    match author {
        None => !present,
        Some(a) => present && author_complete(cols) && a.id == cols.id->0 && a.username
            == cols.username->0 && a.local == cols.local->0 && a.host@ == shown_actor_host(
            cols.local->0,
            text_of(cols.ap_id),
            local_hostname,
        ) && text_of(a.remote_url) == text_of(cols.ap_id),
    }
}

/// The author that a row reports, if `present` says that it has one. A row
/// that has an author but lacks one of the author's columns is an internal
/// error.
fn reported_author(cols: AuthorColumns, present: bool, local_hostname: &str) -> (r: Result<
    Option<RespMinimalAuthorInfo>,
    Error,
>)
    ensures
        match r {
            Ok(author) => reports_author(author, cols, present, local_hostname@),
            Err(e) => present && !author_complete(cols) && e is InternalStrStatic,
        },
{
    if !present {
        return Ok(None);
    }
    match (cols.id, cols.username, cols.local) {
        (Some(id), Some(username), Some(local)) => Ok(
            Some(author_info(id, username, local, as_str_opt(&cols.ap_id), local_hostname)),
        ),
        _ => Err(Error::InternalStrStatic("Missing column of author")),
    }
}

/// The author of a row of a listing of posts: there is one where the row
/// names the author's key.
pub fn listed_author(cols: AuthorColumns, local_hostname: &str) -> (r: Result<
    Option<RespMinimalAuthorInfo>,
    Error,
>)
    ensures
        match r {
            Ok(author) => reports_author(author, cols, cols.id is Some, local_hostname@),
            Err(e) => cols.id is Some && !author_complete(cols) && e is InternalStrStatic,
        },
{
    let present = cols.id.is_some();
    reported_author(cols, present, local_hostname)
}

/// The author of a row of a single post or of a comment: there is one where
/// the row names the author's user name.
pub fn named_author(cols: AuthorColumns, local_hostname: &str) -> (r: Result<
    Option<RespMinimalAuthorInfo>,
    Error,
>)
    ensures
        match r {
            Ok(author) => reports_author(author, cols, cols.username is Some, local_hostname@),
            Err(e) => cols.username is Some && !author_complete(cols) && e is InternalStrStatic,
        },
{
    let present = cols.username.is_some();
    reported_author(cols, present, local_hostname)
}

/// Whether the time of creation of a row can be written.
pub open spec fn time_writable(created: Timestamp) -> bool {
    rfc3339_text(created.secs as int, created.nanos as int, created.offset as int) is Some
}

/// Whether a post is reported as its row has it: the row's own columns as
/// they are, the time written out, the community with its host, and the
/// author, who is present by name where `by_name` says so and by key
/// otherwise.
pub open spec fn reports_post(
    post: RespPostListPost,
    row: PostColumns,
    by_name: bool,
    local_hostname: Seq<char>,
) -> bool {
    &&& post.id == row.id
    &&& post.title == row.title
    &&& post.href == row.href
    &&& post.content_text == row.content_text
    &&& post.content_html == row.content_html
    &&& Some(post.created@) == rfc3339_text(
        row.created.secs as int,
        row.created.nanos as int,
        row.created.offset as int,
    )
    &&& post.community.id == row.community.id
    &&& post.community.name == row.community.name
    &&& post.community.local == row.community.local
    &&& post.community.host@ == shown_actor_host(
        row.community.local,
        text_of(row.community.ap_id),
        local_hostname,
    )
    &&& text_of(post.community.remote_url) == text_of(row.community.ap_id)
    &&& reports_author(post.author, row.author, author_present(row.author, by_name), local_hostname)
}

/// Whether a row has an author: told from the user name where `by_name`
/// says so, from the key otherwise.
pub open spec fn author_present(cols: AuthorColumns, by_name: bool) -> bool {
    if by_name {
        cols.username is Some
    } else {
        cols.id is Some
    }
}

/// Whether a row cannot be reported: its time cannot be written, or it has
/// an author and lacks one of the author's columns.
pub open spec fn unreportable(created: Timestamp, cols: AuthorColumns, by_name: bool) -> bool {
    !time_writable(created) || (author_present(cols, by_name) && !author_complete(cols))
}

fn post_entry(row: PostColumns, by_name: bool, local_hostname: &str) -> (r: Result<
    RespPostListPost,
    Error,
>)
    ensures
        match r {
            Ok(post) => reports_post(post, row, by_name, local_hostname@),
            Err(e) => unreportable(row.created, row.author, by_name) && e is InternalStrStatic,
        },
{
    let author = if by_name {
        named_author(row.author, local_hostname)
    } else {
        listed_author(row.author, local_hostname)
    };
    let author = match author {
        Ok(a) => a,
        Err(e) => {
            return Err(e);
        },
    };
    let created = match created_text(&row.created) {
        Ok(s) => s,
        Err(e) => {
            return Err(e);
        },
    };
    let community = community_info(
        row.community.id,
        row.community.name,
        row.community.local,
        as_str_opt(&row.community.ap_id),
        local_hostname,
    );
    Ok(
        RespPostListPost {
            id: row.id,
            title: row.title,
            href: row.href,
            content_text: row.content_text,
            content_html: row.content_html,
            author,
            created,
            community,
        },
    )
}

/// A post of a listing as the client sees it. A row whose time cannot be
/// written, or that names an author's key without the author's columns, is
/// an internal error.
pub fn post_list_entry(row: PostColumns, local_hostname: &str) -> (r: Result<
    RespPostListPost,
    Error,
>)
    ensures
        match r {
            Ok(post) => reports_post(post, row, false, local_hostname@),
            Err(e) => unreportable(row.created, row.author, false) && e is InternalStrStatic,
        },
{
    post_entry(row, false, local_hostname)
}

/// A post with its comments.
#[derive(Debug)]
pub struct RespPostInfo {
    pub post: RespPostListPost,
    pub score: i64,
    pub comments: Vec<RespPostCommentInfo>,
    pub your_vote: Option<Option<Empty>>,
}

/// The report of a single post, or the answer 404 `No such post` where the
/// store has no such row.
pub fn post_detail(
    row: Option<PostColumns>,
    score: i64,
    comments: Vec<RespPostCommentInfo>,
    your_vote: Option<Option<Empty>>,
    local_hostname: &str,
) -> (r: Result<Result<RespPostInfo, HttpResponse>, Error>)
    ensures
        match r {
            Ok(Err(res)) => row is None && res.status == NOT_FOUND && res.content_type is None
                && res.body@ == "No such post".spec_bytes(),
            Ok(Ok(info)) => row is Some && reports_post(info.post, row->0, true, local_hostname@)
                && info.score == score && info.comments == comments && info.your_vote
                == your_vote,
            Err(e) => row is Some && unreportable(row->0.created, row->0.author, true)
                && e is InternalStrStatic,
        },
{
    match row {
        None => Ok(Err(simple_response(NOT_FOUND, "No such post"))),
        Some(row) => match post_entry(row, true, local_hostname) {
            Ok(post) => Ok(Ok(RespPostInfo { post, score, comments, your_vote })),
            Err(e) => Err(e),
        },
    }
}

/// Whether a comment is reported as its row has it, apart from its replies.
pub open spec fn reports_comment(
    c: RespPostCommentInfo,
    row: CommentColumns,
    your_vote: Option<Option<Empty>>,
    local_hostname: Seq<char>,
) -> bool {
    &&& c.id == row.id
    &&& c.content_text == row.content_text
    &&& c.content_html == row.content_html
    &&& c.deleted == row.deleted
    &&& c.your_vote == your_vote
    &&& Some(c.created@) == rfc3339_text(
        row.created.secs as int,
        row.created.nanos as int,
        row.created.offset as int,
    )
    &&& reports_author(c.author, row.author, row.author.username is Some, local_hostname)
}

/// A comment of a listing as the client sees it, before its replies are
/// attached. A row whose time cannot be written, or that names an author
/// without the author's columns, is an internal error.
pub fn comment_entry(row: CommentColumns, your_vote: Option<Option<Empty>>, local_hostname: &str)
    -> (r: Result<RespPostCommentInfo, Error>)
    ensures
        match r {
            Ok(c) => reports_comment(c, row, your_vote, local_hostname@) && c.replies is None
                && !c.has_replies,
            Err(e) => unreportable(row.created, row.author, true) && e is InternalStrStatic,
        },
{
    let author = match named_author(row.author, local_hostname) {
        Ok(a) => a,
        Err(e) => {
            return Err(e);
        },
    };
    let created = match created_text(&row.created) {
        Ok(s) => s,
        Err(e) => {
            return Err(e);
        },
    };
    Ok(
        RespPostCommentInfo {
            id: row.id,
            author,
            created,
            content_text: row.content_text,
            content_html: row.content_html,
            deleted: row.deleted,
            replies: None,
            has_replies: false,
            your_vote,
        },
    )
}

/// A comment alone, with its replies and the post it was made on.
#[derive(Debug)]
pub struct RespCommentInfo {
    pub base: RespPostCommentInfo,
    pub post: Option<RespMinimalPostInfo>,
}

/// The report of a single comment, or the answer 404 `No such comment`
/// where the store has no such row. The replies are those on record in
/// `replies` under the key of the comment.
pub fn comment_detail(
    row: Option<CommentColumns>,
    post: Option<RespMinimalPostInfo>,
    replies: HashMap<i64, Vec<RespPostCommentInfo>>,
    your_vote: Option<Option<Empty>>,
    local_hostname: &str,
) -> (r: Result<Result<RespCommentInfo, HttpResponse>, Error>)
    ensures
        match r {
            Ok(Err(res)) => row is None && res.status == NOT_FOUND && res.content_type is None
                && res.body@ == "No such comment".spec_bytes(),
            Ok(Ok(info)) => row is Some && info.post == post && reports_comment(
                info.base,
                row->0,
                your_vote,
                local_hostname@,
            ) && (info.base.replies matches Some(found) && found@ == replies_under(
                replies@,
                row->0.id,
            ) && info.base.has_replies == (found@.len() > 0)),
            Err(e) => row is Some && unreportable(row->0.created, row->0.author, true)
                && e is InternalStrStatic,
        },
{
    match row {
        None => Ok(Err(simple_response(NOT_FOUND, "No such comment"))),
        Some(row) => {
            let id = row.id;
            match comment_entry(row, your_vote, local_hostname) {
                Ok(base) => {
                    let mut rows = replies;
                    let found = match rows.remove(&id) {
                        Some(list) => list,
                        None => Vec::new(),
                    };
                    let mut base = base;
                    base.has_replies = found.len() > 0;
                    base.replies = Some(found);
                    Ok(Ok(RespCommentInfo { base, post }))
                },
                Err(e) => Err(e),
            }
        },
    }
}

/// The error for a user that the store does not hold.
pub fn no_such_user() -> (e: Error)
    ensures
        is_user_error(e, NOT_FOUND, "No such user"),
{
    user_error(NOT_FOUND, "No such user")
}

/// Something a user made, as the client sees it.
#[derive(Debug, Clone, PartialEq, Eq)]
pub enum RespThingInfo {
    Post { id: i64, href: Option<String>, title: String, created: String, community: RespMinimalCommunityInfo },
    Comment {
        id: i64,
        content_text: Option<String>,
        content_html: Option<String>,
        created: String,
        post: RespMinimalPostInfo,
    },
}

/// A row of the listing of what a user made.
#[derive(Debug, Clone, PartialEq, Eq)]
pub enum ThingColumns {
    Post { id: i64, href: Option<String>, title: String, created: Timestamp, community: CommunityColumns },
    Comment {
        id: i64,
        content_text: Option<String>,
        content_html: Option<String>,
        created: Timestamp,
        post: RespMinimalPostInfo,
    },
}

/// Something a user made as the client sees it.
pub fn thing_entry(row: ThingColumns, local_hostname: &str) -> (r: Result<RespThingInfo, Error>)
    ensures
        match (row, r) {
            (
                ThingColumns::Post { id, href, title, created, community },
                Ok(RespThingInfo::Post { id: rid, href: rhref, title: rtitle, created: shown, community: c }),
            ) => rid == id && rhref == href && rtitle == title && Some(shown@) == rfc3339_text(
                created.secs as int,
                created.nanos as int,
                created.offset as int,
            ) && c.id == community.id && c.name == community.name && c.local == community.local
                && c.host@ == shown_actor_host(
                community.local,
                text_of(community.ap_id),
                local_hostname@,
            ) && text_of(c.remote_url) == text_of(community.ap_id),
            (
                ThingColumns::Comment { id, content_text, content_html, created, post },
                Ok(
                    RespThingInfo::Comment {
                        id: rid,
                        content_text: rtext,
                        content_html: rhtml,
                        created: shown,
                        post: rpost,
                    },
                ),
            ) => rid == id && rtext == content_text && rhtml == content_html && rpost == post
                && Some(shown@) == rfc3339_text(
                created.secs as int,
                created.nanos as int,
                created.offset as int,
            ),
            (ThingColumns::Post { created, .. }, Err(_)) => rfc3339_text(
                created.secs as int,
                created.nanos as int,
                created.offset as int,
            ) is None,
            (ThingColumns::Comment { created, .. }, Err(_)) => rfc3339_text(
                created.secs as int,
                created.nanos as int,
                created.offset as int,
            ) is None,
            _ => false,
        },
{
    match row {
        ThingColumns::Post { id, href, title, created, community } => {
            match created_text(&created) {
                Ok(shown) => Ok(
                    RespThingInfo::Post {
                        id,
                        href,
                        title,
                        created: shown,
                        community: community_info(
                            community.id,
                            community.name,
                            community.local,
                            as_str_opt(&community.ap_id),
                            local_hostname,
                        ),
                    },
                ),
                Err(e) => Err(e),
            }
        },
        ThingColumns::Comment { id, content_text, content_html, created, post } => {
            match created_text(&created) {
                Ok(shown) => Ok(
                    RespThingInfo::Comment { id, content_text, content_html, created: shown, post },
                ),
                Err(e) => Err(e),
            }
        },
    }
}

} // verus!

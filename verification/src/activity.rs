//! The activities that this instance publishes. Each is built from the local
//! entity and the action alone, so that every delivery of it is the same
//! document under the same identifier.

use crate::addressing::{
    community_apub_id, community_comment_announce_url, community_followers_url,
    community_post_announce_url, get_local_community_apub_id,
    get_local_community_comment_announce, get_local_community_followers,
    get_local_community_post_announce, get_local_person_apub_id, get_local_thing_apub_id,
    person_apub_id, thing_apub_id,
};
use crate::auth::{uuid_text, uuid_to_string};
use crate::delivery::texts_of;
use crate::ids::{CommunityLocalID, PostLocalID, ThingLocalRef, UserLocalID};
use crate::text::{clone_text, int_decimal, push_int_decimal, push_str, text_of};
use crate::timestamp::{rfc3339_text, Timestamp};
use vstd::prelude::*;

verus! {

/// The address that stands for everybody.
pub const PUBLIC: &'static str = "https://www.w3.org/ns/activitystreams#Public";

/// A post as the store holds it, borrowed.
#[derive(Debug, Clone, Copy)]
pub struct PostInfo<'a> {
    pub id: PostLocalID,
    pub author: Option<UserLocalID>,
    pub href: Option<&'a str>,
    pub content_text: Option<&'a str>,
    pub content_markdown: Option<&'a str>,
    pub content_html: Option<&'a str>,
    pub title: &'a str,
    pub created: &'a Timestamp,
    pub community: CommunityLocalID,
}

/// A post as the store holds it.
#[derive(Debug, Clone)]
pub struct PostInfoOwned {
    pub id: PostLocalID,
    pub author: Option<UserLocalID>,
    pub href: Option<String>,
    pub content_text: Option<String>,
    pub content_markdown: Option<String>,
    pub content_html: Option<String>,
    pub title: String,
    pub created: Timestamp,
    pub community: CommunityLocalID,
}

fn borrowed(s: &Option<String>) -> (r: Option<&str>)
    ensures
        crate::host::str_text_of(r) == text_of(*s),
{
    match s {
        Some(s) => Some(s.as_str()),
        None => None,
    }
}

impl PostInfoOwned {
    /// The post, borrowed.
    pub fn as_info(&self) -> (r: PostInfo<'_>)
        ensures
            r.id == self.id,
            r.author == self.author,
            crate::host::str_text_of(r.href) == text_of(self.href),
            crate::host::str_text_of(r.content_text) == text_of(self.content_text),
            crate::host::str_text_of(r.content_markdown) == text_of(self.content_markdown),
            crate::host::str_text_of(r.content_html) == text_of(self.content_html),
            r.title@ == self.title@,
            *r.created == self.created,
            r.community == self.community,
    {
        PostInfo {
            id: self.id,
            author: self.author,
            href: borrowed(&self.href),
            content_text: borrowed(&self.content_text),
            content_markdown: borrowed(&self.content_markdown),
            content_html: borrowed(&self.content_html),
            title: self.title.as_str(),
            created: &self.created,
            community: self.community,
        }
    }
}

/// The kinds of activity that are published.
#[derive(Debug, Clone, Copy, PartialEq, Eq, Structural)]
pub enum ActivityKind {
    Create,
    Like,
    Undo,
    Delete,
    Follow,
    Accept,
    Announce,
}

/// What an activity is about.
#[derive(Debug, Clone, PartialEq, Eq)]
pub enum ObjectDoc {
    /// Something named by its address.
    Reference(String),
    /// A post.
    Page {
        id: String,
        attributed_to: Option<String>,
        name: String,
        url: Option<String>,
        content: Option<String>,
        published: String,
        to: String,
    },
    /// A comment.
    Note {
        id: String,
        attributed_to: Option<String>,
        content: Option<String>,
        in_reply_to: String,
        published: String,
    },
    /// An earlier activity, repeated in short.
    Activity { kind: ActivityKind, id: String, actor: String, object: String },
}

/// An activity as it is published.
#[derive(Debug, Clone, PartialEq, Eq)]
pub struct ActivityDoc {
    pub kind: ActivityKind,
    pub id: String,
    pub actor: String,
    pub object: ObjectDoc,
    pub to: Vec<String>,
    pub cc: Vec<String>,
}

/// The name of a kind of activity in addresses: lower case, in the plural.
pub open spec fn kind_segment(kind: ActivityKind) -> Seq<char> {
    match kind {
        ActivityKind::Create => "creates"@,
        ActivityKind::Like => "likes"@,
        ActivityKind::Undo => "undos"@,
        ActivityKind::Delete => "deletes"@,
        ActivityKind::Follow => "follows"@,
        ActivityKind::Accept => "accepts"@,
        ActivityKind::Announce => "announces"@,
    }
}

/// The address of an activity of a kind: the origin, the kind, and a token
/// that tells the activity from all others of its kind.
pub open spec fn activity_url(base: Seq<char>, kind: ActivityKind, token: Seq<char>) -> Seq<char> {
    base + "/"@ + kind_segment(kind) + "/"@ + token
}

/// The token of a post or comment: `p` or `c` and the key.
pub open spec fn thing_token(thing: ThingLocalRef) -> Seq<char> {
    match thing {
        ThingLocalRef::Post(id) => "p"@ + int_decimal(id.0 as int),
        ThingLocalRef::Comment(id) => "c"@ + int_decimal(id.0 as int),
    }
}

/// The address of the like of `thing` by `user`.
pub open spec fn like_id(base: Seq<char>, user: UserLocalID, thing: ThingLocalRef) -> Seq<char> {
    activity_url(base, ActivityKind::Like, int_decimal(user.0 as int) + "."@ + thing_token(thing))
}

/// The address of the deletion of `thing`.
pub open spec fn delete_id(base: Seq<char>, thing: ThingLocalRef) -> Seq<char> {
    activity_url(base, ActivityKind::Delete, thing_token(thing))
}

/// The address of the activity numbered by the UUID `uuid`.
pub open spec fn uuid_id(base: Seq<char>, kind: ActivityKind, uuid: u128) -> Seq<char> {
    activity_url(base, kind, uuid_text(uuid))
}

/// The address of the acceptance of the follow of `community` by
/// `follower`.
pub open spec fn accept_id(base: Seq<char>, community: CommunityLocalID, follower: UserLocalID)
    -> Seq<char> {
    activity_url(
        base,
        ActivityKind::Accept,
        int_decimal(community.0 as int) + "."@ + int_decimal(follower.0 as int),
    )
}

fn kind_name(kind: ActivityKind) -> (r: &'static str)
    ensures
        r@ == kind_segment(kind),
{
    match kind {
        ActivityKind::Create => "creates",
        ActivityKind::Like => "likes",
        ActivityKind::Undo => "undos",
        ActivityKind::Delete => "deletes",
        ActivityKind::Follow => "follows",
        ActivityKind::Accept => "accepts",
        ActivityKind::Announce => "announces",
    }
}

fn start_url(host_url_apub: &str, kind: ActivityKind) -> (s: String)
    ensures
        s@ == host_url_apub@ + "/"@ + kind_segment(kind) + "/"@,
{
    let mut s = String::new();
    push_str(&mut s, host_url_apub);
    push_str(&mut s, "/");
    push_str(&mut s, kind_name(kind));
    push_str(&mut s, "/");
    s
}

fn push_thing_token(s: &mut String, thing: ThingLocalRef)
    ensures
        final(s)@ == old(s)@ + thing_token(thing),
{
    match thing {
        ThingLocalRef::Post(id) => {
            push_str(s, "p");
            push_int_decimal(s, id.0);
            assert(s@ =~= old(s)@ + ("p"@ + int_decimal(id.0 as int)));
        },
        ThingLocalRef::Comment(id) => {
            push_str(s, "c");
            push_int_decimal(s, id.0);
            assert(s@ =~= old(s)@ + ("c"@ + int_decimal(id.0 as int)));
        },
    }
}

fn one(s: String) -> (v: Vec<String>)
    ensures
        texts_of(v@) == seq![s@],
{
    let mut v: Vec<String> = Vec::new();
    v.push(s);
    assert(texts_of(v@) =~= seq![s@]);
    v
}

/// The like of `target` by the local user `user`: the user is the actor,
/// the target's address the object.
pub fn local_like_to_ap(
    target: ThingLocalRef,
    target_ap_id: &str,
    user: UserLocalID,
    host_url_apub: &str,
) -> (r: ActivityDoc)
    ensures
        r.kind == ActivityKind::Like,
        r.id@ == like_id(host_url_apub@, user, target),
        r.actor@ == person_apub_id(host_url_apub@, user.0 as int),
        r.object matches ObjectDoc::Reference(o) && o@ == target_ap_id@,
        r.to@.len() == 0,
        r.cc@.len() == 0,
{
    let mut id = start_url(host_url_apub, ActivityKind::Like);
    let ghost start = id@;
    push_int_decimal(&mut id, user.0);
    push_str(&mut id, ".");
    push_thing_token(&mut id, target);
    assert(id@ =~= start + (int_decimal(user.0 as int) + "."@ + thing_token(target)));
    ActivityDoc {
        kind: ActivityKind::Like,
        id,
        actor: get_local_person_apub_id(user, host_url_apub),
        object: ObjectDoc::Reference(target_ap_id.to_owned()),
        to: Vec::new(),
        cc: Vec::new(),
    }
}

/// The undoing of the like of `target` by the local user `user`, under the
/// identifier `undo` that was stored when the like was removed. It repeats
/// the like that it takes back.
pub fn local_like_undo_to_ap(
    undo: u128,
    target: ThingLocalRef,
    target_ap_id: &str,
    user: UserLocalID,
    host_url_apub: &str,
) -> (r: ActivityDoc)
    ensures
        r.kind == ActivityKind::Undo,
        r.id@ == uuid_id(host_url_apub@, ActivityKind::Undo, undo),
        r.actor@ == person_apub_id(host_url_apub@, user.0 as int),
        r.object matches ObjectDoc::Activity { kind, id, actor, object } && kind
            == ActivityKind::Like && id@ == like_id(host_url_apub@, user, target) && actor@
            == person_apub_id(host_url_apub@, user.0 as int) && object@ == target_ap_id@,
        r.to@.len() == 0,
        r.cc@.len() == 0,
{
    let like = local_like_to_ap(target, target_ap_id, user, host_url_apub);
    let mut id = start_url(host_url_apub, ActivityKind::Undo);
    push_str(&mut id, uuid_to_string(undo).as_str());
    ActivityDoc {
        kind: ActivityKind::Undo,
        id,
        actor: get_local_person_apub_id(user, host_url_apub),
        object: ObjectDoc::Activity {
            kind: ActivityKind::Like,
            id: like.id,
            actor: like.actor,
            object: target_ap_id.to_owned(),
        },
        to: Vec::new(),
        cc: Vec::new(),
    }
}

/// The deletion of the local post or comment `target` by its author `user`.
pub fn local_delete_to_ap(target: ThingLocalRef, user: UserLocalID, host_url_apub: &str) -> (r:
    ActivityDoc)
    ensures
        r.kind == ActivityKind::Delete,
        r.id@ == delete_id(host_url_apub@, target),
        r.actor@ == person_apub_id(host_url_apub@, user.0 as int),
        r.object matches ObjectDoc::Reference(o) && o@ == thing_apub_id(host_url_apub@, target),
        r.to@.len() == 0,
        r.cc@.len() == 0,
{
    let mut id = start_url(host_url_apub, ActivityKind::Delete);
    push_thing_token(&mut id, target);
    ActivityDoc {
        kind: ActivityKind::Delete,
        id,
        actor: get_local_person_apub_id(user, host_url_apub),
        object: ObjectDoc::Reference(get_local_thing_apub_id(target, host_url_apub)),
        to: Vec::new(),
        cc: Vec::new(),
    }
}

/// The request of the local user `user` to follow the community at
/// `community_ap_id`, under the identifier `follow`.
pub fn local_follow_to_ap(follow: u128, user: UserLocalID, community_ap_id: &str, host_url_apub: &str)
    -> (r: ActivityDoc)
    ensures
        r.kind == ActivityKind::Follow,
        r.id@ == uuid_id(host_url_apub@, ActivityKind::Follow, follow),
        r.actor@ == person_apub_id(host_url_apub@, user.0 as int),
        r.object matches ObjectDoc::Reference(o) && o@ == community_ap_id@,
        texts_of(r.to@) == seq![community_ap_id@],
        r.cc@.len() == 0,
{
    let mut id = start_url(host_url_apub, ActivityKind::Follow);
    push_str(&mut id, uuid_to_string(follow).as_str());
    ActivityDoc {
        kind: ActivityKind::Follow,
        id,
        actor: get_local_person_apub_id(user, host_url_apub),
        object: ObjectDoc::Reference(community_ap_id.to_owned()),
        to: one(community_ap_id.to_owned()),
        cc: Vec::new(),
    }
}

/// The acceptance, by the local community `community`, of the follow
/// `follow_id` that the person at `follower_ap_id`, known here as
/// `follower`, asked for.
pub fn local_accept_to_ap(
    community: CommunityLocalID,
    follower: UserLocalID,
    follower_ap_id: &str,
    follow_id: &str,
    host_url_apub: &str,
) -> (r: ActivityDoc)
    ensures
        r.kind == ActivityKind::Accept,
        r.id@ == accept_id(host_url_apub@, community, follower),
        r.actor@ == community_apub_id(host_url_apub@, community.0 as int),
        r.object matches ObjectDoc::Activity { kind, id, actor, object } && kind
            == ActivityKind::Follow && id@ == follow_id@ && actor@ == follower_ap_id@ && object@
            == community_apub_id(host_url_apub@, community.0 as int),
        texts_of(r.to@) == seq![follower_ap_id@],
        r.cc@.len() == 0,
{
    let mut id = start_url(host_url_apub, ActivityKind::Accept);
    let ghost start = id@;
    push_int_decimal(&mut id, community.0);
    push_str(&mut id, ".");
    push_int_decimal(&mut id, follower.0);
    assert(id@ =~= start + (int_decimal(community.0 as int) + "."@ + int_decimal(
        follower.0 as int,
    )));
    ActivityDoc {
        kind: ActivityKind::Accept,
        id,
        actor: get_local_community_apub_id(community, host_url_apub),
        object: ObjectDoc::Activity {
            kind: ActivityKind::Follow,
            id: follow_id.to_owned(),
            actor: follower_ap_id.to_owned(),
            object: get_local_community_apub_id(community, host_url_apub),
        },
        to: one(follower_ap_id.to_owned()),
        cc: Vec::new(),
    }
}

/// The announcement that the local community `community` makes of the post
/// or comment `thing` at `thing_ap_id`: addressed to the community's
/// followers, with a copy to everybody.
pub fn local_community_announce_ap(
    community: CommunityLocalID,
    thing: ThingLocalRef,
    thing_ap_id: &str,
    host_url_apub: &str,
) -> (r: ActivityDoc)
    ensures
        r.kind == ActivityKind::Announce,
        r.id@ == match thing {
            ThingLocalRef::Post(post) => community_post_announce_url(
                host_url_apub@,
                community.0 as int,
                post.0 as int,
            ),
            ThingLocalRef::Comment(comment) => community_comment_announce_url(
                host_url_apub@,
                community.0 as int,
                comment.0 as int,
            ),
        },
        r.actor@ == community_apub_id(host_url_apub@, community.0 as int),
        r.object matches ObjectDoc::Reference(o) && o@ == thing_ap_id@,
        texts_of(r.to@) == seq![community_followers_url(host_url_apub@, community.0 as int)],
        texts_of(r.cc@) == seq![PUBLIC@],
{
    let id = match thing {
        ThingLocalRef::Post(post) => get_local_community_post_announce(
            community,
            post,
            host_url_apub,
        ),
        ThingLocalRef::Comment(comment) => get_local_community_comment_announce(
            community,
            comment,
            host_url_apub,
        ),
    };
    ActivityDoc {
        kind: ActivityKind::Announce,
        id,
        actor: get_local_community_apub_id(community, host_url_apub),
        object: ObjectDoc::Reference(thing_ap_id.to_owned()),
        to: one(get_local_community_followers(community, host_url_apub)),
        cc: one(PUBLIC.to_owned()),
    }
}

/// The address of the activity that created the thing at `thing_ap_id`.
pub open spec fn create_id(thing_ap_id: Seq<char>) -> Seq<char> {
    thing_ap_id + "/create"@
}

/// Whether `doc` is the publication of the local post `post` to `audience`:
/// a `Create` by the post's author of a page that has the post's address,
/// title, link, content and time of creation, addressed to `audience`, with
/// a copy to everybody.
pub open spec fn publishes_post<'a>(
    doc: ActivityDoc,
    post: PostInfo<'a>,
    audience: Seq<char>,
    base: Seq<char>,
) -> bool {
    let ap_id = thing_apub_id(base, ThingLocalRef::Post(post.id));
    &&& doc.kind == ActivityKind::Create
    &&& doc.id@ == create_id(ap_id)
    &&& texts_of(doc.to@) == seq![audience]
    &&& texts_of(doc.cc@) == seq![PUBLIC@]
    &&& doc.object matches ObjectDoc::Page { id, attributed_to, name, url, content, published, to }
        && id@ == ap_id && name@ == post.title@ && text_of(url) == crate::host::str_text_of(
        post.href,
    ) && to@ == audience && Some(published@) == rfc3339_text(
        post.created.secs as int,
        post.created.nanos as int,
        post.created.offset as int,
    ) && text_of(attributed_to) == match post.author {
        Some(a) => Some(person_apub_id(base, a.0 as int)),
        None => None,
    } && text_of(content) == match post.content_html {
        Some(html) => Some(html@),
        None => crate::host::str_text_of(post.content_text),
    }
    &&& doc.actor@ == match post.author {
        Some(a) => person_apub_id(base, a.0 as int),
        None => Seq::empty(),
    }
}

/// The publication of a post that a local user made in the local community
/// `community`: a page by the post's author, addressed to the followers of
/// the community, with a copy to everybody. `None` where the time of
/// creation cannot be written.
pub fn local_post_to_followers_create_ap(
    post: &PostInfo<'_>,
    community: CommunityLocalID,
    host_url_apub: &str,
) -> (r: Option<ActivityDoc>)
    ensures
        r is Some <==> rfc3339_text(
            post.created.secs as int,
            post.created.nanos as int,
            post.created.offset as int,
        ) is Some,
        r matches Some(doc) ==> publishes_post(
            doc,
            *post,
            community_followers_url(host_url_apub@, community.0 as int),
            host_url_apub@,
        ),
{
    let followers = crate::addressing::get_local_community_followers(community, host_url_apub);
    local_post_to_create_ap(post, followers.as_str(), host_url_apub)
}

/// The publication of the local post `post` in the remote community at
/// `community_ap_id`: a page by the post's author, addressed to the
/// community, with a copy to everybody. `None` where the time of creation
/// cannot be written.
pub fn local_post_to_create_ap(post: &PostInfo<'_>, community_ap_id: &str, host_url_apub: &str)
    -> (r: Option<ActivityDoc>)
    ensures
        r is Some <==> rfc3339_text(
            post.created.secs as int,
            post.created.nanos as int,
            post.created.offset as int,
        ) is Some,
        r matches Some(doc) ==> publishes_post(doc, *post, community_ap_id@, host_url_apub@),
{
    let published = match post.created.to_rfc3339() {
        Some(p) => p,
        None => {
            return None;
        },
    };
    let ap_id = get_local_thing_apub_id(ThingLocalRef::Post(post.id), host_url_apub);
    let mut id = ap_id.clone();
    push_str(&mut id, "/create");
    let author = match post.author {
        Some(a) => Some(get_local_person_apub_id(a, host_url_apub)),
        None => None,
    };
    let actor = match &author {
        Some(a) => a.clone(),
        None => String::new(),
    };
    let content = match post.content_html {
        Some(html) => Some(html.to_owned()),
        None => match post.content_text {
            Some(text) => Some(text.to_owned()),
            None => None,
        },
    };
    Some(
        ActivityDoc {
            kind: ActivityKind::Create,
            id,
            actor,
            object: ObjectDoc::Page {
                id: ap_id,
                attributed_to: author,
                name: post.title.to_owned(),
                url: match post.href {
                    Some(h) => Some(h.to_owned()),
                    None => None,
                },
                content,
                published,
                to: community_ap_id.to_owned(),
            },
            to: one(community_ap_id.to_owned()),
            cc: one(PUBLIC.to_owned()),
        },
    )
}

/// The publication of the local comment `comment`: a note by its author in
/// answer to `in_reply_to`, the address of its parent or else of its post,
/// addressed to the answered author where one is known and to the community.
/// `None` where the time of creation cannot be written.
pub fn local_comment_to_create_ap(
    comment: &crate::comments::CommentInfo,
    in_reply_to: &str,
    answered_author_ap_id: Option<&str>,
    community_ap_id: &str,
    host_url_apub: &str,
) -> (r: Option<ActivityDoc>)
    ensures
        r is Some <==> rfc3339_text(
            comment.created.secs as int,
            comment.created.nanos as int,
            comment.created.offset as int,
        ) is Some,
        r matches Some(doc) ==> {
            let ap_id = thing_apub_id(host_url_apub@, ThingLocalRef::Comment(comment.id));
            &&& doc.kind == ActivityKind::Create
            &&& doc.id@ == create_id(ap_id)
            &&& texts_of(doc.to@) == match answered_author_ap_id {
                Some(a) => seq![a@, community_ap_id@],
                None => seq![community_ap_id@],
            }
            &&& texts_of(doc.cc@) == seq![PUBLIC@]
            &&& doc.object matches ObjectDoc::Note {
                id,
                attributed_to,
                content,
                in_reply_to: parent,
                published,
            } && id@ == ap_id && parent@ == in_reply_to@ && Some(published@) == rfc3339_text(
                comment.created.secs as int,
                comment.created.nanos as int,
                comment.created.offset as int,
            ) && text_of(attributed_to) == match comment.author {
                Some(a) => Some(person_apub_id(host_url_apub@, a.0 as int)),
                None => None,
            } && text_of(content) == match comment.content_html {
                Some(html) => Some(html@),
                None => text_of(comment.content_text),
            }
        },
{
    let published = match comment.created.to_rfc3339() {
        Some(p) => p,
        None => {
            return None;
        },
    };
    let ap_id = get_local_thing_apub_id(ThingLocalRef::Comment(comment.id), host_url_apub);
    let mut id = ap_id.clone();
    push_str(&mut id, "/create");
    let author = match comment.author {
        Some(a) => Some(get_local_person_apub_id(a, host_url_apub)),
        None => None,
    };
    let actor = match &author {
        Some(a) => a.clone(),
        None => String::new(),
    };
    let content = match &comment.content_html {
        Some(html) => Some(html.clone()),
        None => clone_text(&comment.content_text),
    };
    let mut to: Vec<String> = Vec::new();
    match answered_author_ap_id {
        Some(a) => {
            to.push(a.to_owned());
        },
        None => {},
    }
    to.push(community_ap_id.to_owned());
    assert(texts_of(to@) =~= match answered_author_ap_id {
        Some(a) => seq![a@, community_ap_id@],
        None => seq![community_ap_id@],
    });
    Some(
        ActivityDoc {
            kind: ActivityKind::Create,
            id,
            actor,
            object: ObjectDoc::Note {
                id: ap_id,
                attributed_to: author,
                content,
                in_reply_to: in_reply_to.to_owned(),
                published,
            },
            to,
            cc: one(PUBLIC.to_owned()),
        },
    )
}

} // verus!

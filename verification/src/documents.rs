//! The documents that describe a local community to its peers: the actor,
//! the collection of followers, and the proof that somebody follows.

use crate::addressing::{
    community_apub_id, community_followers_url, community_inbox_url,
    get_local_community_apub_id, get_local_community_followers, get_local_community_inbox,
    get_local_person_apub_id, person_apub_id,
};
use crate::auth::{is_user_error, user_error};
use crate::activity::{
    local_community_announce_ap, local_follow_to_ap, uuid_id, ActivityDoc, ActivityKind,
    ObjectDoc,
};
use crate::addressing::{
    community_comment_announce_url, community_post_announce_url, get_local_thing_apub_id,
    thing_apub_id,
};
use crate::delivery::{
    coalesced_inbox, deliver_to_followers, fanout_inboxes, fanout_tasks, lemma_fanout_members,
    lemma_fanout_no_duplicates, on_sender_host, task_views, FollowerInbox, Task, TaskView,
};
use crate::ids::{
    ActorLocalRef, CommentLocalID, CommunityLocalID, PostLocalID, ThingLocalRef, UserLocalID,
};
use crate::lookup::ACTIVITY_TYPE;
use crate::response::{
    simple_response, typed_response, Error, HttpResponse, BAD_REQUEST, NOT_FOUND, OK,
};
use crate::text::{int_decimal, push_int_decimal, push_str, text_of};
use activitystreams::ext::Extensible;
use vstd::prelude::*;
use vstd::string::StringSliceAdditionalSpecFns;

verus! {

/// The actor document of a group, written as JSON: what serde_json writes
/// for a `Group` of the crate activitystreams with this identifier and name,
/// extended by actor properties with this inbox and these followers. `None`
/// where activitystreams refuses one of the values.
pub uninterp spec fn group_json(
    id: Seq<char>,
    name: Seq<char>,
    inbox: Seq<char>,
    followers: Seq<char>,
) -> Option<Seq<u8>>;

/// A follow activity written as JSON: what serde_json writes for a `Follow`
/// of the crate activitystreams with this identifier, actor and object,
/// addressed to `to`. `None` where activitystreams refuses one of the values.
pub uninterp spec fn follow_json(
    id: Seq<char>,
    actor: Seq<char>,
    object: Seq<char>,
    to: Seq<char>,
) -> Option<Seq<u8>>;

/// An announcement written as JSON: what serde_json writes for an
/// `Announce` of the crate activitystreams with this identifier, actor and
/// object, addressed to `to` with a copy to `cc`. `None` where
/// activitystreams refuses one of the values.
pub uninterp spec fn announce_json(
    id: Seq<char>,
    actor: Seq<char>,
    object: Seq<char>,
    to: Seq<char>,
    cc: Seq<char>,
) -> Option<Seq<char>>;

/// The bytes of an optional buffer.
pub open spec fn bytes_of(v: Option<Vec<u8>>) -> Option<Seq<u8>> {
    match v {
        Some(v) => Some(v@),
        None => None,
    }
}

/// Builds a `Group` with activitystreams, sets its identifier and name,
/// extends it by `ApActorProperties` with the inbox and the followers, and
/// writes it with `serde_json::to_vec`. The outcome depends on the four
/// texts alone.
#[verifier::external_body]
fn write_group(id: &str, name: &str, inbox: &str, followers: &str) -> (r: Option<Vec<u8>>)
    ensures
        bytes_of(r) == group_json(id@, name@, inbox@, followers@),
{
    let mut info = activitystreams::actor::Group::new();
    info.as_mut().set_id(id).ok()?.set_name_xsd_string(name).ok()?;
    let mut props = activitystreams::actor::properties::ApActorProperties::default();
    props.set_inbox(inbox).ok()?;
    props.set_followers(followers).ok()?;
    serde_json::to_vec(&info.extend(props)).ok()
}

/// Builds a `Follow` with activitystreams, sets its identifier, actor,
/// object and addressee, and writes it with `serde_json::to_vec`. The outcome
/// depends on the four texts alone.
#[verifier::external_body]
fn write_follow(id: &str, actor: &str, object: &str, to: &str) -> (r: Option<Vec<u8>>)
    ensures
        bytes_of(r) == follow_json(id@, actor@, object@, to@),
{
    let mut follow = activitystreams::activity::Follow::new();
    follow.object_props.set_id(id).ok()?;
    follow.follow_props.set_actor_xsd_any_uri(actor).ok()?;
    follow.follow_props.set_object_xsd_any_uri(object).ok()?;
    follow.object_props.set_to_xsd_any_uri(to).ok()?;
    serde_json::to_vec(&follow).ok()
}

/// Builds an `Announce` with activitystreams, sets its identifier, actor,
/// object, addressee and copy, and writes it with `serde_json::to_string`.
/// The outcome depends on the five texts alone.
#[verifier::external_body]
fn write_announce(id: &str, actor: &str, object: &str, to: &str, cc: &str) -> (r: Option<String>)
    ensures
        text_of(r) == announce_json(id@, actor@, object@, to@, cc@),
{
    let mut announce = activitystreams::activity::Announce::new();
    announce.object_props.set_id(id).ok()?;
    announce.announce_props.set_actor_xsd_any_uri(actor).ok()?;
    announce.announce_props.set_object_xsd_any_uri(object).ok()?;
    announce.object_props.set_to_xsd_any_uri(to).ok()?;
    announce.object_props.set_cc_xsd_any_uri(cc).ok()?;
    serde_json::to_string(&announce).ok()
}

/// What the store holds of a community that somebody asks for.
#[derive(Debug, Clone, PartialEq, Eq)]
pub struct CommunityRow {
    pub name: String,
    pub local: bool,
}

/// The actor document of the local community `community`.
pub open spec fn community_actor_json(community: CommunityLocalID, name: Seq<char>, base: Seq<char>)
    -> Option<Seq<u8>> {
    group_json(
        community_apub_id(base, community.0 as int),
        name,
        community_inbox_url(base, community.0 as int),
        community_followers_url(base, community.0 as int),
    )
}

/// Answers a request for the actor document of a community: 404 where the
/// store has no such community, an error with 400 where the community is
/// remote, and else the document of a group with the community's address,
/// name, inbox and followers.
pub fn community_actor(community: CommunityLocalID, row: Option<&CommunityRow>, host_url_apub: &str)
    -> (r: Result<HttpResponse, Error>)
    ensures
        match row {
            None => r matches Ok(res) && res.status == NOT_FOUND && res.content_type is None
                && res.body@ == "No such community".spec_bytes(),
            Some(row) => if !row.local {
                r matches Err(e) && is_user_error(
                    e,
                    BAD_REQUEST,
                    "Requested community is not owned by this instance",
                )
            } else {
                match community_actor_json(community, row.name@, host_url_apub@) {
                    Some(json) => r matches Ok(res) && res.status == OK && text_of(
                        res.content_type,
                    ) == Some(ACTIVITY_TYPE@) && res.body@ == json,
                    None => r matches Err(e) && e is InternalStrStatic,
                }
            },
        },
{
    let row = match row {
        Some(row) => row,
        None => {
            return Ok(simple_response(NOT_FOUND, "No such community"));
        },
    };
    if !row.local {
        return Err(
            user_error(BAD_REQUEST, "Requested community is not owned by this instance"),
        );
    }
    let id = get_local_community_apub_id(community, host_url_apub);
    let inbox = get_local_community_inbox(community, host_url_apub);
    let followers = get_local_community_followers(community, host_url_apub);
    match write_group(id.as_str(), row.name.as_str(), inbox.as_str(), followers.as_str()) {
        Some(json) => Ok(typed_response(ACTIVITY_TYPE, json)),
        None => Err(Error::InternalStrStatic("Failed to write actor document")),
    }
}

/// The collection of followers as it is reported: its kind and the number
/// of followers.
pub open spec fn followers_collection(count: int) -> Seq<char> {
    "{\"totalItems\":"@ + int_decimal(count) + ",\"type\":\"Collection\"}"@
}

/// Answers a request for the followers of a community with their number.
pub fn community_followers(count: i64) -> (res: HttpResponse)
    ensures
        res.status == OK,
        text_of(res.content_type) == Some(ACTIVITY_TYPE@),
        res.body@ == vstd::utf8::encode_utf8(followers_collection(count as int)),
{
    let mut s = "{\"totalItems\":".to_owned();
    push_int_decimal(&mut s, count);
    push_str(&mut s, ",\"type\":\"Collection\"}");
    typed_response(ACTIVITY_TYPE, s.as_str().as_bytes_vec())
}

/// What the store holds of a follow that somebody asks proof of.
#[derive(Debug, Clone, PartialEq, Eq)]
pub struct FollowProofRow {
    /// The number under which the follow is published.
    pub follow: u128,
    pub follower_local: bool,
    pub community_local: bool,
    pub community_ap_id: Option<String>,
}

/// The address of the community of a follow: the local address of a local
/// community, the recorded address of a remote one.
pub open spec fn followed_community(
    community: CommunityLocalID,
    row: FollowProofRow,
    base: Seq<char>,
) -> Option<Seq<char>> {
    if row.community_local {
        Some(community_apub_id(base, community.0 as int))
    } else {
        text_of(row.community_ap_id)
    }
}

/// The follow activity of the local user `user`, published under the number
/// `follow` and addressed to the community at `target`, written as JSON.
pub open spec fn follow_document(follow: u128, user: UserLocalID, target: Seq<char>, base: Seq<char>)
    -> Option<Seq<u8>> {
    follow_json(
        uuid_id(base, ActivityKind::Follow, follow),
        person_apub_id(base, user.0 as int),
        target,
        target,
    )
}

/// Whether `r` answers a request for the proof that `user` follows
/// `community`: 404 where the store has no such follow, an error with 400
/// where the follower is remote, an internal error where a remote community
/// has no address or the document cannot be written, and else the follow
/// activity of the user, under the address that the follow was published
/// under and addressed to the community.
pub open spec fn proves_follow(
    r: Result<HttpResponse, Error>,
    community: CommunityLocalID,
    user: UserLocalID,
    row: Option<FollowProofRow>,
    base: Seq<char>,
) -> bool {
    match row {
        None => r matches Ok(res) && res.status == NOT_FOUND && res.content_type is None
            && res.body@ == "No such follow".spec_bytes(),
        Some(row) => if !row.follower_local {
            r matches Err(e) && is_user_error(
                e,
                BAD_REQUEST,
                "Requested follow is not owned by this instance",
            )
        } else {
            match followed_community(community, row, base) {
                None => r matches Err(e) && e is InternalStr,
                Some(target) => match follow_document(row.follow, user, target, base) {
                    Some(json) => r matches Ok(res) && res.status == OK && text_of(
                        res.content_type,
                    ) == Some(ACTIVITY_TYPE@) && res.body@ == json,
                    None => r matches Err(e) && e is InternalStrStatic,
                },
            }
        },
    }
}

/// What the store holds of a follow that is asked for by its number.
#[derive(Debug, Clone, PartialEq, Eq)]
pub struct PublishedFollowRow {
    pub community: CommunityLocalID,
    pub follower: UserLocalID,
    pub proof: FollowProofRow,
}

/// Answers a request for the follow that is published under a number, where
/// `row` is what the store holds under that number: the same document as the
/// proof that the follower follows the community, and 404 where the store
/// holds no follow under the number.
pub fn published_follow(row: Option<&PublishedFollowRow>, host_url_apub: &str) -> (r: Result<
    HttpResponse,
    Error,
>)
    ensures
        match row {
            Some(row) => proves_follow(
                r,
                row.community,
                row.follower,
                Some(row.proof),
                host_url_apub@,
            ),
            None => r matches Ok(res) && res.status == NOT_FOUND && res.content_type is None
                && res.body@ == "No such follow".spec_bytes(),
        },
{
    match row {
        Some(row) => community_follower(row.community, row.follower, Some(&row.proof), host_url_apub),
        None => Ok(simple_response(NOT_FOUND, "No such follow")),
    }
}

/// Answers a request for the proof that `user` follows `community`, where
/// `row` is what the store holds of the follow.
pub fn community_follower(
    community: CommunityLocalID,
    user: UserLocalID,
    row: Option<&FollowProofRow>,
    host_url_apub: &str,
) -> (r: Result<HttpResponse, Error>)
    ensures
        proves_follow(
            r,
            community,
            user,
            match row {
                Some(row) => Some(*row),
                None => None,
            },
            host_url_apub@,
        ),
{
    let row = match row {
        Some(row) => row,
        None => {
            return Ok(simple_response(NOT_FOUND, "No such follow"));
        },
    };
    if !row.follower_local {
        return Err(user_error(BAD_REQUEST, "Requested follow is not owned by this instance"));
    }
    let target = if row.community_local {
        get_local_community_apub_id(community, host_url_apub)
    } else {
        match &row.community_ap_id {
            Some(ap_id) => ap_id.clone(),
            None => {
                let mut msg = "Missing ap_id for community ".to_owned();
                push_int_decimal(&mut msg, community.0);
                return Err(Error::InternalStr(msg));
            },
        }
    };
    let doc = local_follow_to_ap(row.follow, user, target.as_str(), host_url_apub);
    match write_follow(doc.id.as_str(), doc.actor.as_str(), target.as_str(), target.as_str()) {
        Some(json) => Ok(typed_response(ACTIVITY_TYPE, json)),
        None => Err(Error::InternalStrStatic("Failed to write follow document")),
    }
}

/// The other media type under which activity documents are exchanged.
pub const LD_JSON_TYPE: &'static str =
    "application/ld+json; profile=\"https://www.w3.org/ns/activitystreams\"";

/// Whether a media type is one of activity documents:
/// `application/activity+json`, or `application/ld+json` with the profile of
/// Activity Streams.
pub fn is_activity_type(media_type: &str) -> (r: bool)
    ensures
        r == (media_type@ == ACTIVITY_TYPE@ || media_type@ == LD_JSON_TYPE@),
{
    crate::text::str_eq(media_type, ACTIVITY_TYPE) || crate::text::str_eq(media_type, LD_JSON_TYPE)
}

/// Whether an announcement is the one that `community` makes of the local
/// post or comment `thing`.
pub open spec fn announces(
    doc: ActivityDoc,
    community: CommunityLocalID,
    thing: ThingLocalRef,
    base: Seq<char>,
) -> bool {
    &&& doc.kind == ActivityKind::Announce
    &&& doc.id@ == match thing {
        ThingLocalRef::Post(post) => community_post_announce_url(
            base,
            community.0 as int,
            post.0 as int,
        ),
        ThingLocalRef::Comment(comment) => community_comment_announce_url(
            base,
            community.0 as int,
            comment.0 as int,
        ),
    }
    &&& doc.actor@ == community_apub_id(base, community.0 as int)
    &&& doc.object matches ObjectDoc::Reference(o) && o@ == thing_apub_id(base, thing)
}

/// Answers a request for the announcement that `community` makes of the
/// comment `comment`. `comment_local` tells whether the comment is local,
/// and is `None` where the community has no such comment: that is answered
/// with 404. A remote comment is an error with 400.
pub fn comment_announce(
    community: CommunityLocalID,
    comment: CommentLocalID,
    comment_local: Option<bool>,
    host_url_apub: &str,
) -> (r: Result<Result<ActivityDoc, HttpResponse>, Error>)
    ensures
        match comment_local {
            None => r matches Ok(Err(res)) && res.status == NOT_FOUND && res.content_type is None
                && res.body@ == "No such publish".spec_bytes(),
            Some(false) => r matches Err(e) && is_user_error(
                e,
                BAD_REQUEST,
                "Requested comment is not owned by this instance",
            ),
            Some(true) => r matches Ok(Ok(doc)) && announces(
                doc,
                community,
                ThingLocalRef::Comment(comment),
                host_url_apub@,
            ),
        },
{
    match comment_local {
        None => Ok(Err(simple_response(NOT_FOUND, "No such publish"))),
        Some(false) => Err(
            user_error(BAD_REQUEST, "Requested comment is not owned by this instance"),
        ),
        Some(true) => {
            let thing = ThingLocalRef::Comment(comment);
            let ap_id = get_local_thing_apub_id(thing, host_url_apub);
            Ok(Ok(local_community_announce_ap(community, thing, ap_id.as_str(), host_url_apub)))
        },
    }
}

/// Answers a request for the announcement that `community` makes of the
/// post `post`. `community_local` tells whether the community of the post is
/// local; the outer `None` stands for a community without such a post, the
/// inner for a post without community: both are answered with 404, and a
/// remote community with 400.
pub fn post_announce(
    community: CommunityLocalID,
    post: PostLocalID,
    community_local: Option<Option<bool>>,
    host_url_apub: &str,
) -> (r: Result<ActivityDoc, HttpResponse>)
    ensures
        match community_local {
            None => r matches Err(res) && res.status == NOT_FOUND && res.content_type is None
                && res.body@ == "No such publish".spec_bytes(),
            Some(None) => r matches Err(res) && res.status == NOT_FOUND && res.content_type
                is None && res.body@ == "No such community".spec_bytes(),
            Some(Some(false)) => r matches Err(res) && res.status == BAD_REQUEST
                && res.content_type is None && res.body@
                == "Requested community is not owned by this instance".spec_bytes(),
            Some(Some(true)) => r matches Ok(doc) && announces(
                doc,
                community,
                ThingLocalRef::Post(post),
                host_url_apub@,
            ),
        },
{
    match community_local {
        None => Err(simple_response(NOT_FOUND, "No such publish")),
        Some(None) => Err(simple_response(NOT_FOUND, "No such community")),
        Some(Some(false)) => Err(
            simple_response(BAD_REQUEST, "Requested community is not owned by this instance"),
        ),
        Some(Some(true)) => {
            let thing = ThingLocalRef::Post(post);
            let ap_id = get_local_thing_apub_id(thing, host_url_apub);
            Ok(local_community_announce_ap(community, thing, ap_id.as_str(), host_url_apub))
        },
    }
}

/// The announcement, written as JSON, that the local community `community`
/// makes of the post or comment `thing`, published at `thing_ap_id`: under
/// the address of the announcement, with the community as its actor and
/// `thing_ap_id` as its object, addressed to the followers of the community
/// with a copy to everybody.
pub open spec fn community_announcement(
    community: CommunityLocalID,
    thing: ThingLocalRef,
    thing_ap_id: Seq<char>,
    base: Seq<char>,
) -> Option<Seq<char>> {
    announce_json(
        match thing {
            ThingLocalRef::Post(post) => community_post_announce_url(
                base,
                community.0 as int,
                post.0 as int,
            ),
            ThingLocalRef::Comment(comment) => community_comment_announce_url(
                base,
                community.0 as int,
                comment.0 as int,
            ),
        },
        community_apub_id(base, community.0 as int),
        thing_ap_id,
        community_followers_url(base, community.0 as int),
        crate::activity::PUBLIC@,
    )
}

/// Writes the announcement that the local community `community` makes of
/// `thing`. `None` where one of the addresses is refused as an address.
pub fn announcement_body(
    community: CommunityLocalID,
    thing: ThingLocalRef,
    thing_ap_id: &str,
    host_url_apub: &str,
) -> (r: Option<String>)
    ensures
        text_of(r) == community_announcement(community, thing, thing_ap_id@, host_url_apub@),
{
    let doc = local_community_announce_ap(community, thing, thing_ap_id, host_url_apub);
    let followers = get_local_community_followers(community, host_url_apub);
    write_announce(
        doc.id.as_str(),
        doc.actor.as_str(),
        thing_ap_id,
        followers.as_str(),
        crate::activity::PUBLIC,
    )
}

/// The task by which the local community `community` announces `thing` to
/// its followers: a delivery of the announcement to the followers of the
/// community. `None` where the announcement cannot be written.
pub fn announcement_task(
    community: CommunityLocalID,
    thing: ThingLocalRef,
    thing_ap_id: &str,
    host_url_apub: &str,
) -> (r: Option<Task>)
    ensures
        match community_announcement(community, thing, thing_ap_id@, host_url_apub@) {
            Some(body) => r matches Some(task) && task@ == (TaskView::DeliverToFollowers {
                community,
                object: body,
            }),
            None => r is None,
        },
{
    match announcement_body(community, thing, thing_ap_id, host_url_apub) {
        Some(object) => Some(Task::DeliverToFollowers { community, object }),
        None => None,
    }
}

/// The deliveries by which the local community `community` announces
/// `thing` to its followers: the announcement goes once to each inbox that
/// the followers share or own, signed as the community; inboxes on the host
/// that `thing` came from are left out. `None` where the announcement cannot
/// be written.
pub fn announce_to_followers(
    community: CommunityLocalID,
    thing: ThingLocalRef,
    thing_ap_id: &str,
    followers: &Vec<FollowerInbox>,
    sender_host: Option<&str>,
    host_url_apub: &str,
) -> (r: Option<Vec<Task>>)
    ensures
        match community_announcement(community, thing, thing_ap_id@, host_url_apub@) {
            Some(body) => r matches Some(tasks) && task_views(tasks@) == fanout_tasks(
                community,
                followers@,
                crate::host::str_text_of(sender_host),
                body,
            ),
            None => r is None,
        },
{
    match announcement_body(community, thing, thing_ap_id, host_url_apub) {
        Some(body) => Some(deliver_to_followers(community, followers, sender_host, body.as_str())),
        None => None,
    }
}

/// A new post or comment in a local community reaches every follower once.
/// The deliveries that announce it are one for each inbox that some
/// follower shares or owns, apart from those on the host that it came from;
/// no inbox is delivered to twice; and each delivery carries the
/// announcement and is signed as the community.
pub proof fn lemma_announcement_reaches_followers(
    community: CommunityLocalID,
    followers: Seq<FollowerInbox>,
    sender_host: Option<Seq<char>>,
    body: Seq<char>,
)
    ensures
        ({
            let inboxes = fanout_inboxes(followers, sender_host);
            let tasks = fanout_tasks(community, followers, sender_host, body);
            &&& inboxes.no_duplicates()
            &&& tasks.len() == inboxes.len()
            &&& forall|i: int|
                0 <= i < tasks.len() ==> #[trigger] tasks[i] == (TaskView::DeliverToInbox {
                    inbox: inboxes[i],
                    sign_as: Some(ActorLocalRef::Community(community)),
                    object: body,
                })
            &&& forall|i: int|
                0 <= i < followers.len() ==> (coalesced_inbox(#[trigger] followers[i]) matches Some(
                    inbox,
                ) ==> inboxes.contains(inbox) || on_sender_host(inbox, sender_host))
        }),
{
    lemma_fanout_no_duplicates(followers, sender_host);
    let inboxes = fanout_inboxes(followers, sender_host);
    assert forall|i: int| 0 <= i < followers.len() implies (coalesced_inbox(
        #[trigger] followers[i],
    ) matches Some(inbox) ==> inboxes.contains(inbox) || on_sender_host(inbox, sender_host)) by {
        if coalesced_inbox(followers[i]) is Some {
            lemma_fanout_members(followers, sender_host, coalesced_inbox(followers[i])->0);
        }
    }
}

} // verus!

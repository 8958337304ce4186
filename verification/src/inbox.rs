//! The inbound handler: what an activity that arrived in an inbox does to
//! the store. Applying an activity a second time changes nothing; one that
//! is not applied leaves the store as it was.

use crate::comments::Notification;
use crate::host::{get_url_host, url_host};
use crate::ids::{CommentLocalID, CommunityLocalID, PostLocalID, ThingLocalRef, UserLocalID};
use crate::store::{
    find_address, find_follow, find_like, lemma_other_addresses_keep,
    lemma_recorded_address_is_found, lookup, Address, AddressView, Entity, FollowRow, LikeRow,
    Lookup, Outbound, OutboundView, PostRow, PostRowView, ReplyRow, ReplyRowView, Store,
    StoreView,
};
use crate::text::{clone_text, str_eq, text_of};
use vstd::prelude::*;
use vstd::string::StringSliceAdditionalSpecFns;

verus! {

/// A page as a `Create` carries it: what becomes a post.
#[derive(Debug, Clone, PartialEq, Eq)]
pub struct PageObject {
    pub id: Option<String>,
    /// Whom the page is addressed to.
    pub to: Option<String>,
    pub name: Option<String>,
    pub url: Option<String>,
    pub content: Option<String>,
}

/// A note as a `Create` carries it: what becomes a comment.
#[derive(Debug, Clone, PartialEq, Eq)]
pub struct NoteObject {
    pub id: Option<String>,
    pub in_reply_to: Option<String>,
    pub content: Option<String>,
}

/// What an activity asks for.
#[derive(Debug, Clone, PartialEq, Eq)]
pub enum Action {
    CreatePage(PageObject),
    CreateNote(NoteObject),
    /// A `Create` that names its object by address only.
    CreateReference { object: String },
    Follow { object: String },
    /// The acceptance of the follow of `community` by `follower`.
    AcceptFollow { follower: String, community: String },
    Like { object: String },
    UndoLike { object: String },
    Delete { object: String },
    /// Any other kind of activity.
    Other,
}

/// An activity of one actor.
#[derive(Debug, Clone, PartialEq, Eq)]
pub struct Direct {
    pub id: Option<String>,
    pub actor: String,
    pub action: Action,
}

/// An activity as it arrives: of the sender itself, or announced by the
/// sender on behalf of the inner activity's actor.
#[derive(Debug, Clone, PartialEq, Eq)]
pub enum Activity {
    Direct(Direct),
    Announce { id: Option<String>, actor: String, inner: Direct },
}

/// The owner of the inbox that an activity arrived in.
#[derive(Debug, Clone, Copy, PartialEq, Eq, Structural)]
pub enum Recipient {
    User(UserLocalID),
    Community(CommunityLocalID),
}

/// What became of an activity.
#[derive(Debug, Clone, PartialEq, Eq)]
pub enum Outcome {
    /// It was applied, and its identifier, where it has one, is on record.
    Applied,
    /// It was applied before.
    Duplicate,
    /// It asks for nothing that can or may be done.
    Ignored,
    /// It lacks an identifier that it needs.
    Malformed,
    /// It refers to something unknown at this address; once that is fetched
    /// and recorded the activity can be handled.
    Fetch(String),
}

/// `Outcome` with its string as a sequence of characters.
pub enum OutcomeView {
    Applied,
    Duplicate,
    Ignored,
    Malformed,
    Fetch(Seq<char>),
}

impl View for Outcome {
    type V = OutcomeView;

    open spec fn view(&self) -> OutcomeView {
        match *self {
            Outcome::Applied => OutcomeView::Applied,
            Outcome::Duplicate => OutcomeView::Duplicate,
            Outcome::Ignored => OutcomeView::Ignored,
            Outcome::Malformed => OutcomeView::Malformed,
            Outcome::Fetch(url) => OutcomeView::Fetch(url@),
        }
    }
}

/// How many things an activity may have fetched for it before it is put
/// aside.
pub const MAX_FETCHES: u8 = 4;

/// The answer to a document that is no activity, as it names no actor: 400
/// and `Missing actor`.
pub fn not_an_activity() -> (res: crate::response::HttpResponse)
    ensures
        res.status == crate::response::BAD_REQUEST,
        res.content_type is None,
        res.body@ == "Missing actor".spec_bytes(),
{
    crate::response::simple_response(crate::response::BAD_REQUEST, "Missing actor")
}

/// What is done about an activity after it was handled.
#[derive(Debug, Clone, PartialEq, Eq)]
pub enum NextStep {
    /// Fetch what is at this address, record it, and handle the activity
    /// again.
    FetchAndRetry(String),
    /// Answer the sender with this.
    Answer(crate::response::HttpResponse),
}

/// Whether a response is the acknowledgement of an activity: 202 and an
/// empty body.
pub open spec fn is_acknowledgement(res: crate::response::HttpResponse) -> bool {
    res.status == crate::response::ACCEPTED && res.content_type is None && res.body@.len() == 0
}

/// Whether a response is the refusal of an activity that lacks an
/// identifier: 400 and `Missing id in object`.
pub open spec fn is_missing_id(res: crate::response::HttpResponse) -> bool {
    res.status == crate::response::BAD_REQUEST && res.content_type is None && res.body@
        == "Missing id in object".spec_bytes()
}

/// The acknowledgement of an activity: 202 and an empty body.
pub fn acknowledgement() -> (res: crate::response::HttpResponse)
    ensures
        is_acknowledgement(res),
{
    crate::response::HttpResponse {
        status: crate::response::ACCEPTED,
        content_type: None,
        body: Vec::new(),
    }
}

/// Decides what is done about an activity after it was handled, given how
/// many things were fetched for it so far. Something unknown is fetched as
/// long as fewer than four things were; every other outcome, and the fifth
/// unknown thing, ends in the answer to the sender: 400 and `Missing id in
/// object` for a malformed activity, 202 and an empty body otherwise.
pub fn next_step(outcome: Outcome, fetched: u8) -> (r: NextStep)
    ensures
        match outcome {
            Outcome::Fetch(url) => if fetched < MAX_FETCHES {
                r matches NextStep::FetchAndRetry(u) && u@ == url@
            } else {
                r matches NextStep::Answer(res) && is_acknowledgement(res)
            },
            Outcome::Malformed => r matches NextStep::Answer(res) && is_missing_id(res),
            _ => r matches NextStep::Answer(res) && is_acknowledgement(res),
        },
{
    match outcome {
        Outcome::Fetch(url) => {
            if fetched < MAX_FETCHES {
                NextStep::FetchAndRetry(url)
            } else {
                NextStep::Answer(acknowledgement())
            }
        },
        Outcome::Malformed => NextStep::Answer(
            crate::response::simple_response(crate::response::BAD_REQUEST, "Missing id in object"),
        ),
        _ => NextStep::Answer(acknowledgement()),
    }
}

impl Outcome {
    /// The status that the sender is answered with: 400 for a malformed
    /// activity, 202 for every other.
    pub fn status(&self) -> (r: u16)
        ensures
            r == if self is Malformed {
                crate::response::BAD_REQUEST
            } else {
                crate::response::ACCEPTED
            },
    {
        match self {
            Outcome::Malformed => crate::response::BAD_REQUEST,
            _ => crate::response::ACCEPTED,
        }
    }
}

/// What handling an activity comes to, before its identifier is recorded.
pub enum Step {
    /// The store changes to this.
    Apply(StoreView),
    Ignore,
    Malformed,
    Fetch(Seq<char>),
}

/// The store with work for the followers of `community` added, where the
/// community is local: the raw activity is passed on.
pub open spec fn forward_if_local(
    s: StoreView,
    community: CommunityLocalID,
    body: Seq<char>,
    sender_host: Option<Seq<char>>,
) -> StoreView {
    if s.communities[community.0 as int].local {
        StoreView {
            outbound: s.outbound.push(OutboundView::Forward { community, body, sender_host }),
            ..s
        }
    } else {
        s
    }
}

/// The store with an announcement to the followers of `community` added,
/// where the community is local.
pub open spec fn announce_if_local(
    s: StoreView,
    community: CommunityLocalID,
    object: Seq<char>,
    sender_host: Option<Seq<char>>,
) -> StoreView {
    if s.communities[community.0 as int].local {
        StoreView {
            outbound: s.outbound.push(OutboundView::Announce { community, object, sender_host }),
            ..s
        }
    } else {
        s
    }
}

/// A page from the person `author`, published under `id`, arrives for
/// `community`. A page that is not on record becomes a new post, and a local
/// community announces it. A page that is on record as a remote post of the
/// same author has its content replaced.
pub open spec fn create_page(
    s: StoreView,
    community: CommunityLocalID,
    author: UserLocalID,
    id: Seq<char>,
    page: PageObject,
    base: Seq<char>,
    sender_host: Option<Seq<char>>,
) -> Step {
    match lookup(s, id, base) {
        Lookup::Found(Entity::Post(post)) => {
            let row = s.posts[post.0 as int];
            if !row.local && row.author == Some(author) && !row.deleted {
                Step::Apply(
                    StoreView {
                        posts: s.posts.update(
                            post.0 as int,
                            PostRowView {
                                title: text_of(page.name),
                                href: text_of(page.url),
                                content_text: text_of(page.content),
                                ..row
                            },
                        ),
                        ..s
                    },
                )
            } else {
                Step::Ignore
            }
        },
        Lookup::Unknown => Step::Apply(
            announce_if_local(
                StoreView {
                    posts: s.posts.push(
                        PostRowView {
                            author: Some(author),
                            community,
                            local: false,
                            title: text_of(page.name),
                            href: text_of(page.url),
                            content_text: text_of(page.content),
                            deleted: false,
                        },
                    ),
                    addresses: s.addresses.push(
                        AddressView {
                            ap_id: id,
                            target: Entity::Post(PostLocalID(s.posts.len() as i64)),
                        },
                    ),
                    ..s
                },
                community,
                id,
                sender_host,
            ),
        ),
        _ => Step::Ignore,
    }
}

/// The notice that a new remote comment gives rise to: the local author of
/// what was answered is told, unless that author is the commenter.
pub open spec fn inbound_notification(
    s: StoreView,
    author: UserLocalID,
    reply: CommentLocalID,
    parent: ThingLocalRef,
) -> Option<Notification> {
    match s.author_of(parent) {
        Some(answered) => if s.persons[answered.0 as int].local && answered != author {
            Some(
                match parent {
                    ThingLocalRef::Post(post) => Notification::PostReply {
                        to_user: answered,
                        reply,
                        parent_post: post,
                    },
                    ThingLocalRef::Comment(comment) => Notification::ReplyReply {
                        to_user: answered,
                        reply,
                        parent_reply: comment,
                    },
                },
            )
        } else {
            None
        },
        None => None,
    }
}

/// A note from the person `author`, published under `id`, arrives in answer
/// to `parent`. A note that is not on record becomes a new comment, the
/// answered author is notified, and a local community announces the comment.
/// A note that is on record as a remote comment of the same author has its
/// content replaced.
pub open spec fn create_note(
    s: StoreView,
    author: UserLocalID,
    id: Seq<char>,
    parent: ThingLocalRef,
    note: NoteObject,
    base: Seq<char>,
    sender_host: Option<Seq<char>>,
) -> Step {
    match lookup(s, id, base) {
        Lookup::Found(Entity::Comment(comment)) => {
            let row = s.replies[comment.0 as int];
            if !row.local && row.author == Some(author) && !row.deleted {
                Step::Apply(
                    StoreView {
                        replies: s.replies.update(
                            comment.0 as int,
                            ReplyRowView { content_text: text_of(note.content), ..row },
                        ),
                        ..s
                    },
                )
            } else {
                Step::Ignore
            }
        },
        Lookup::Unknown => {
            let reply = CommentLocalID(s.replies.len() as i64);
            let added = StoreView {
                replies: s.replies.push(
                    ReplyRowView {
                        post: s.post_of(parent),
                        parent: match parent {
                            ThingLocalRef::Post(_) => None,
                            ThingLocalRef::Comment(comment) => Some(comment),
                        },
                        author: Some(author),
                        local: false,
                        content_text: text_of(note.content),
                        deleted: false,
                    },
                ),
                addresses: s.addresses.push(
                    AddressView { ap_id: id, target: Entity::Comment(reply) },
                ),
                notifications: match inbound_notification(s, author, reply, parent) {
                    Some(n) => s.notifications.push(n),
                    None => s.notifications,
                },
                ..s
            };
            Step::Apply(announce_if_local(added, s.community_of(parent), id, sender_host))
        },
        _ => Step::Ignore,
    }
}

/// The person `follower` asks to follow the local community `community`
/// with the activity `follow`. A new follower is recorded as accepted, and
/// the acceptance is left to be sent; for one who follows already nothing
/// changes.
pub open spec fn follow(
    s: StoreView,
    community: CommunityLocalID,
    follower: UserLocalID,
    follow: Seq<char>,
) -> Step {
    if find_follow(s.follows, community, follower) is Some {
        Step::Ignore
    } else {
        Step::Apply(
            StoreView {
                follows: s.follows.push(FollowRow { community, follower, accepted: true }),
                outbound: s.outbound.push(OutboundView::Accept { community, follower, follow }),
                ..s
            },
        )
    }
}

/// The remote community `community` accepts the follow of the local person
/// `follower`: the follow on record is marked as accepted.
pub open spec fn accept_follow(s: StoreView, community: CommunityLocalID, follower: UserLocalID)
    -> Step {
    match find_follow(s.follows, community, follower) {
        Some(i) => if s.follows[i].accepted {
            Step::Ignore
        } else {
            Step::Apply(
                StoreView {
                    follows: s.follows.update(i, FollowRow { accepted: true, ..s.follows[i] }),
                    ..s
                },
            )
        },
        None => Step::Ignore,
    }
}

/// The person `person` likes `target`. A new like is recorded, and passed on
/// by a local community; a like that is on record changes nothing.
pub open spec fn like(
    s: StoreView,
    person: UserLocalID,
    target: ThingLocalRef,
    body: Seq<char>,
    sender_host: Option<Seq<char>>,
) -> Step {
    if find_like(s.likes, LikeRow { target, person }) is Some {
        Step::Ignore
    } else {
        Step::Apply(
            forward_if_local(
                StoreView { likes: s.likes.push(LikeRow { target, person }), ..s },
                s.community_of(target),
                body,
                sender_host,
            ),
        )
    }
}

/// The person `person` takes back a like of `target`. A like on record is
/// removed, and the undoing passed on by a local community.
pub open spec fn undo_like(
    s: StoreView,
    person: UserLocalID,
    target: ThingLocalRef,
    body: Seq<char>,
    sender_host: Option<Seq<char>>,
) -> Step {
    match find_like(s.likes, LikeRow { target, person }) {
        Some(i) => Step::Apply(
            forward_if_local(
                StoreView { likes: s.likes.remove(i), ..s },
                s.community_of(target),
                body,
                sender_host,
            ),
        ),
        None => Step::Ignore,
    }
}

/// The store with `target` deleted: the row stays and is marked as deleted,
/// and what it carried (title, link and text) is gone.
pub open spec fn erase(s: StoreView, target: ThingLocalRef) -> StoreView {
    match target {
        ThingLocalRef::Post(post) => StoreView {
            posts: s.posts.update(
                post.0 as int,
                PostRowView {
                    title: None,
                    href: None,
                    content_text: None,
                    deleted: true,
                    ..s.posts[post.0 as int]
                },
            ),
            ..s
        },
        ThingLocalRef::Comment(comment) => StoreView {
            replies: s.replies.update(
                comment.0 as int,
                ReplyRowView { content_text: None, deleted: true, ..s.replies[comment.0 as int] },
            ),
            ..s
        },
    }
}

/// The person `person` deletes `target`. Only the author may: the content
/// is removed, the row stays, and a local community passes the deletion on.
/// For anybody else, and for what is deleted already, nothing changes.
pub open spec fn delete(
    s: StoreView,
    person: UserLocalID,
    target: ThingLocalRef,
    body: Seq<char>,
    sender_host: Option<Seq<char>>,
) -> Step {
    if s.author_of(target) == Some(person) && !s.is_deleted(target) {
        Step::Apply(forward_if_local(erase(s, target), s.community_of(target), body, sender_host))
    } else {
        Step::Ignore
    }
}

/// The post or comment that a lookup found, if it found one.
pub open spec fn found_thing(l: Lookup) -> Option<ThingLocalRef> {
    match l {
        Lookup::Found(Entity::Post(post)) => Some(ThingLocalRef::Post(post)),
        Lookup::Found(Entity::Comment(comment)) => Some(ThingLocalRef::Comment(comment)),
        _ => None,
    }
}

/// The community that a lookup found, if it found one.
pub open spec fn found_community(l: Lookup) -> Option<CommunityLocalID> {
    match l {
        Lookup::Found(Entity::Community(community)) => Some(community),
        _ => None,
    }
}

/// The person that a lookup found, if it found one.
pub open spec fn found_person(l: Lookup) -> Option<UserLocalID> {
    match l {
        Lookup::Found(Entity::Person(person)) => Some(person),
        _ => None,
    }
}

/// The community that a page is for: the local community that the page is
/// addressed to, where it is addressed to one, and else the community in
/// whose name the activity arrived.
pub open spec fn page_community(
    s: StoreView,
    arrived_for: Option<CommunityLocalID>,
    page: PageObject,
    base: Seq<char>,
) -> Option<CommunityLocalID> {
    match page.to {
        Some(to) => match lookup(s, to@, base) {
            Lookup::Found(Entity::Community(c)) => if s.communities[c.0 as int].local {
                Some(c)
            } else {
                arrived_for
            },
            _ => arrived_for,
        },
        None => arrived_for,
    }
}

#[verifier::opaque]
/// What the activity `d` of its actor comes to. `community` is the
/// community in whose name the activity arrived: the owner of the inbox, or
/// the announcer. An actor or an object that is unknown is to be fetched
/// where the activity needs it.
pub open spec fn direct_step(
    s: StoreView,
    community: Option<CommunityLocalID>,
    d: Direct,
    body: Seq<char>,
    base: Seq<char>,
) -> Step {
    let actor = lookup(s, d.actor@, base);
    let sender_host = url_host(d.actor@);
    match d.action {
        Action::CreatePage(page) => match (page.id, page_community(s, community, page, base)) {
            (None, _) => Step::Malformed,
            (Some(_), None) => Step::Ignore,
            (Some(id), Some(c)) => if !s.holds(Entity::Community(c)) {
                Step::Ignore
            } else if actor is Unknown {
                Step::Fetch(d.actor@)
            } else {
                match found_person(actor) {
                    Some(author) => create_page(s, c, author, id@, page, base, sender_host),
                    None => Step::Ignore,
                }
            },
        },
        Action::CreateNote(note) => match (note.id, note.in_reply_to) {
            (None, _) => Step::Malformed,
            (Some(_), None) => Step::Ignore,
            (Some(id), Some(target)) => if actor is Unknown {
                Step::Fetch(d.actor@)
            } else {
                match found_person(actor) {
                    Some(author) => {
                        let parent = lookup(s, target@, base);
                        if parent is Unknown {
                            Step::Fetch(target@)
                        } else {
                            match found_thing(parent) {
                                Some(parent) => create_note(
                                    s,
                                    author,
                                    id@,
                                    parent,
                                    note,
                                    base,
                                    sender_host,
                                ),
                                None => Step::Ignore,
                            }
                        }
                    },
                    None => Step::Ignore,
                }
            },
        },
        Action::CreateReference { object } => Step::Fetch(object@),
        Action::Follow { object } => match (d.id, community) {
            (None, _) => Step::Malformed,
            (Some(_), None) => Step::Ignore,
            (Some(id), Some(c)) => if lookup(s, object@, base) != Lookup::Found(
                Entity::Community(c),
            ) || !s.communities[c.0 as int].local {
                Step::Ignore
            } else if actor is Unknown {
                Step::Fetch(d.actor@)
            } else {
                match found_person(actor) {
                    Some(follower) => follow(s, c, follower, id@),
                    None => Step::Ignore,
                }
            },
        },
        Action::AcceptFollow { follower, community: followed } => if followed@ != d.actor@ {
            Step::Ignore
        } else if actor is Unknown {
            Step::Fetch(d.actor@)
        } else {
            match (actor, found_person(lookup(s, follower@, base))) {
                (Lookup::Found(Entity::Community(c)), Some(u)) => if !s.communities[c.0
                    as int].local && s.persons[u.0 as int].local {
                    accept_follow(s, c, u)
                } else {
                    Step::Ignore
                },
                _ => Step::Ignore,
            }
        },
        Action::Like { object } => if actor is Unknown {
            Step::Fetch(d.actor@)
        } else {
            match found_person(actor) {
                Some(person) => {
                    let target = lookup(s, object@, base);
                    if target is Unknown {
                        Step::Fetch(object@)
                    } else {
                        match found_thing(target) {
                            Some(target) => like(s, person, target, body, sender_host),
                            None => Step::Ignore,
                        }
                    }
                },
                None => Step::Ignore,
            }
        },
        Action::UndoLike { object } => match (
            found_person(actor),
            found_thing(lookup(s, object@, base)),
        ) {
            (Some(person), Some(target)) => undo_like(s, person, target, body, sender_host),
            _ => Step::Ignore,
        },
        Action::Delete { object } => match (
            found_person(actor),
            found_thing(lookup(s, object@, base)),
        ) {
            (Some(person), Some(target)) => delete(s, person, target, body, sender_host),
            _ => Step::Ignore,
        },
        Action::Other => Step::Ignore,
    }
}

#[verifier::opaque]
/// What an announcement by `sender` comes to that arrived in the inbox of
/// `recipient`: the inner activity is handled in the name of the announcing
/// community, if that is a remote community that the recipient, a local
/// user, follows. An inner announcement is not looked into.
pub open spec fn announce_step(
    s: StoreView,
    recipient: Recipient,
    sender: Seq<char>,
    inner: Direct,
    body: Seq<char>,
    base: Seq<char>,
) -> Step {
    match recipient {
        Recipient::User(u) => if !s.holds(Entity::Person(u)) || !s.persons[u.0 as int].local {
            Step::Ignore
        } else {
            match lookup(s, sender, base) {
                Lookup::Unknown => Step::Fetch(sender),
                Lookup::Found(Entity::Community(c)) => if !s.communities[c.0 as int].local
                    && find_follow(s.follows, c, u) is Some {
                    direct_step(s, Some(c), inner, body, base)
                } else {
                    Step::Ignore
                },
                _ => Step::Ignore,
            }
        },
        Recipient::Community(_) => Step::Ignore,
    }
}

/// The identifier of an activity.
pub open spec fn activity_id(activity: Activity) -> Option<Seq<char>> {
    match activity {
        Activity::Direct(d) => text_of(d.id),
        Activity::Announce { id, .. } => text_of(id),
    }
}

/// The actor that an activity names as its own.
pub open spec fn activity_actor(activity: Activity) -> Seq<char> {
    match activity {
        Activity::Direct(d) => d.actor@,
        Activity::Announce { actor, .. } => actor@,
    }
}

/// The community in whose name an activity is handled that arrived in the
/// inbox of `recipient`: the owner of the inbox, where that is a local
/// community.
pub open spec fn inbox_community(s: StoreView, recipient: Recipient) -> Option<CommunityLocalID> {
    match recipient {
        Recipient::Community(c) => if s.holds(Entity::Community(c)) && s.communities[c.0
            as int].local {
            Some(c)
        } else {
            None
        },
        Recipient::User(_) => None,
    }
}

/// What an activity comes to before its identifier is looked at.
pub open spec fn activity_step(
    s: StoreView,
    recipient: Recipient,
    sender: Seq<char>,
    activity: Activity,
    body: Seq<char>,
    base: Seq<char>,
) -> Step {
    match activity {
        Activity::Direct(d) => direct_step(s, inbox_community(s, recipient), d, body, base),
        Activity::Announce { inner, .. } => announce_step(s, recipient, sender, inner, body, base),
    }
}

/// Whether an activity lacks an identifier that it cannot do without: a
/// `Follow` has none, or the page or note of a `Create` has none.
pub open spec fn lacks_needed_id(activity: Activity) -> bool {
    activity matches Activity::Direct(d) && match d.action {
        Action::CreatePage(page) => page.id is None,
        Action::CreateNote(note) => note.id is None,
        Action::Follow { .. } => d.id is None,
        _ => false,
    }
}

/// The store with the identifier of an applied activity put on record,
/// where the activity has one.
pub open spec fn recorded(s: StoreView, id: Option<Seq<char>>) -> StoreView {
    match id {
        Some(id) => StoreView { seen: s.seen.push(id), ..s },
        None => s,
    }
}

/// The store after the activity `activity`, sent by the authenticated actor
/// `sender`, arrived in the inbox of `recipient`, and what became of the
/// activity. A `Follow` without identifier, and the `Create` of a page or
/// note without identifier, are malformed. An activity whose identifier is
/// on record is a duplicate. One that names another actor than its sender
/// is ignored. In these cases, and whenever the activity is not applied, the
/// store stays as it is. An activity that is applied leaves its identifier
/// on record; one without identifier is handled like any other, only that
/// nothing is put on record for it.
pub open spec fn receive(
    s: StoreView,
    recipient: Recipient,
    sender: Seq<char>,
    activity: Activity,
    body: Seq<char>,
    base: Seq<char>,
) -> (StoreView, OutcomeView) {
    if lacks_needed_id(activity) {
        (s, OutcomeView::Malformed)
    } else if activity_id(activity) matches Some(id) && s.seen.contains(id) {
        (s, OutcomeView::Duplicate)
    } else if activity_actor(activity) != sender {
        (s, OutcomeView::Ignored)
    } else {
        match activity_step(s, recipient, sender, activity, body, base) {
            Step::Apply(after) => (recorded(after, activity_id(activity)), OutcomeView::Applied),
            Step::Ignore => (s, OutcomeView::Ignored),
            Step::Malformed => (s, OutcomeView::Malformed),
            Step::Fetch(url) => (s, OutcomeView::Fetch(url)),
        }
    }
}

/// A page that was taken in is taken in again without change: the post is
/// found under the address of the page and has the content of the page
/// already. What other addresses name stays as it was.
proof fn lemma_create_page_again(
    s: StoreView,
    community: CommunityLocalID,
    author: UserLocalID,
    id: Seq<char>,
    page: PageObject,
    base: Seq<char>,
    sender_host: Option<Seq<char>>,
)
    requires
        s.wf(),
        s.holds(Entity::Community(community)),
        create_page(s, community, author, id, page, base, sender_host) is Apply,
    ensures
        ({
            let after = create_page(s, community, author, id, page, base, sender_host)->Apply_0;
            &&& create_page(after, community, author, id, page, base, sender_host) == Step::Apply(
                after,
            )
            &&& after.persons == s.persons
            &&& after.communities == s.communities
            &&& after.follows == s.follows
            &&& forall|other: Seq<char>|
                other != id || lookup(s, id, base) is Found ==> #[trigger] lookup(
                    after,
                    other,
                    base,
                ) == lookup(s, other, base)
        }),
{
    let after = create_page(s, community, author, id, page, base, sender_host)->Apply_0;
    match lookup(s, id, base) {
        Lookup::Found(Entity::Post(post)) => {
            assert(after.posts =~= after.posts.update(post.0 as int, after.posts[post.0 as int]));
            assert(after.posts.update(post.0 as int, after.posts[post.0 as int]) == after.posts);
            assert forall|other: Seq<char>| #[trigger]
                lookup(after, other, base) == lookup(s, other, base) by {}
        },
        Lookup::Unknown => {
            let n = PostLocalID(s.posts.len() as i64);
            lemma_recorded_address_is_found(s, after, id, Entity::Post(n), base);
            assert(after.posts[n.0 as int] == after.posts.last());
            assert(after.posts =~= after.posts.update(n.0 as int, after.posts[n.0 as int]));
            assert forall|other: Seq<char>| other != id implies #[trigger] lookup(
                after,
                other,
                base,
            ) == lookup(s, other, base) by {
                lemma_other_addresses_keep(s, after, other, id, Entity::Post(n), base);
            }
        },
        _ => {},
    }
}

/// A note that was taken in is taken in again without change.
proof fn lemma_create_note_again(
    s: StoreView,
    author: UserLocalID,
    id: Seq<char>,
    parent: ThingLocalRef,
    note: NoteObject,
    base: Seq<char>,
    sender_host: Option<Seq<char>>,
)
    requires
        s.wf(),
        s.holds_thing(parent),
        create_note(s, author, id, parent, note, base, sender_host) is Apply,
    ensures
        ({
            let after = create_note(s, author, id, parent, note, base, sender_host)->Apply_0;
            &&& create_note(after, author, id, parent, note, base, sender_host) == Step::Apply(
                after,
            )
            &&& after.persons == s.persons
            &&& after.communities == s.communities
            &&& after.follows == s.follows
            &&& forall|other: Seq<char>|
                other != id || lookup(s, id, base) is Found ==> #[trigger] lookup(
                    after,
                    other,
                    base,
                ) == lookup(s, other, base)
        }),
{
    let after = create_note(s, author, id, parent, note, base, sender_host)->Apply_0;
    match lookup(s, id, base) {
        Lookup::Found(Entity::Comment(comment)) => {
            assert(after.replies =~= after.replies.update(
                comment.0 as int,
                after.replies[comment.0 as int],
            ));
            assert forall|other: Seq<char>| #[trigger]
                lookup(after, other, base) == lookup(s, other, base) by {}
        },
        Lookup::Unknown => {
            let n = CommentLocalID(s.replies.len() as i64);
            lemma_recorded_address_is_found(s, after, id, Entity::Comment(n), base);
            assert(after.replies[n.0 as int] == after.replies.last());
            assert(after.replies =~= after.replies.update(n.0 as int, after.replies[n.0 as int]));
            assert forall|other: Seq<char>| other != id implies #[trigger] lookup(
                after,
                other,
                base,
            ) == lookup(s, other, base) by {
                lemma_other_addresses_keep(s, after, other, id, Entity::Comment(n), base);
            }
        },
        _ => {},
    }
}

/// What a lookup finds, a well-formed store holds.
proof fn lemma_found_is_held(s: StoreView, url: Seq<char>, base: Seq<char>)
    requires
        s.wf(),
    ensures
        lookup(s, url, base) matches Lookup::Found(e) ==> s.holds(e),
{
    if find_address(s.addresses, url) is Some {
        let i = find_address(s.addresses, url)->0;
        assert(crate::store::address_at(s.addresses, url, i));
        assert(s.holds(s.addresses[i].target));
    }
}

/// A like that was recorded is on record: recording it again changes
/// nothing.
proof fn lemma_like_again(
    s: StoreView,
    person: UserLocalID,
    target: ThingLocalRef,
    body: Seq<char>,
    sender_host: Option<Seq<char>>,
)
    requires
        like(s, person, target, body, sender_host) is Apply,
    ensures
        like(
            like(s, person, target, body, sender_host)->Apply_0,
            person,
            target,
            body,
            sender_host,
        ) is Ignore,
{
    let after = like(s, person, target, body, sender_host)->Apply_0;
    assert(after.likes == s.likes.push(LikeRow { target, person }));
    lemma_some_like(after.likes, LikeRow { target, person }, s.likes.len() as int);
}

/// A like that was taken back is gone: taking it back again changes
/// nothing.
proof fn lemma_undo_like_again(
    s: StoreView,
    person: UserLocalID,
    target: ThingLocalRef,
    body: Seq<char>,
    sender_host: Option<Seq<char>>,
)
    requires
        s.wf(),
        undo_like(s, person, target, body, sender_host) is Apply,
    ensures
        undo_like(
            undo_like(s, person, target, body, sender_host)->Apply_0,
            person,
            target,
            body,
            sender_host,
        ) is Ignore,
{
    let l = LikeRow { target, person };
    let after = undo_like(s, person, target, body, sender_host)->Apply_0;
    let i = find_like(s.likes, l)->0;
    assert(crate::store::like_at(s.likes, l, i));
    assert(after.likes == s.likes.remove(i));
    if find_like(after.likes, l) is Some {
        let k = find_like(after.likes, l)->0;
        assert(crate::store::like_at(after.likes, l, k));
        if k < i {
            assert(s.likes[k] == l);
            assert(s.likes[k] != s.likes[i]);
        } else {
            assert(s.likes[k + 1] == l);
            assert(s.likes[i] != s.likes[k + 1]);
        }
    }
}

/// A follow that was marked as accepted is accepted: marking it again
/// changes nothing.
proof fn lemma_accept_follow_again(s: StoreView, community: CommunityLocalID, follower: UserLocalID)
    requires
        accept_follow(s, community, follower) is Apply,
    ensures
        accept_follow(accept_follow(s, community, follower)->Apply_0, community, follower)
            is Ignore,
{
    let after = accept_follow(s, community, follower)->Apply_0;
    let i = find_follow(s.follows, community, follower)->0;
    assert(crate::store::follow_at(s.follows, community, follower, i));
    assert(crate::store::follow_at(after.follows, community, follower, i)) by {
        assert forall|j: int| 0 <= j < i implies !(after.follows[j].community == community
            && after.follows[j].follower == follower) by {
            assert(after.follows[j] == s.follows[j]);
        }
    }
    let k = find_follow(after.follows, community, follower)->0;
    assert(crate::store::follow_at(after.follows, community, follower, k));
    if k < i {
        assert(!(after.follows[k].community == community && after.follows[k].follower
            == follower));
    } else if i < k {
        assert(!(after.follows[i].community == community && after.follows[i].follower
            == follower));
    }
}

/// Whether the rows that a step reads before it acts are the same in two
/// stores: the persons, the communities, who follows whom, and what the
/// address `url` names.
spec fn same_footing(s: StoreView, after: StoreView, url: Seq<char>, base: Seq<char>) -> bool {
    &&& after.persons == s.persons
    &&& after.communities == s.communities
    &&& lookup(after, url, base) == lookup(s, url, base)
    &&& forall|c: CommunityLocalID, u: UserLocalID|
        find_follow(s.follows, c, u) is Some ==> #[trigger] find_follow(after.follows, c, u)
            is Some
}

/// An activity of its actor that was applied is applied again without
/// change: the second time it is ignored, or it brings about what is there
/// already. What an address names that the activity did not introduce stays
/// as it was.
proof fn lemma_direct_again(
    s: StoreView,
    community: Option<CommunityLocalID>,
    d: Direct,
    body: Seq<char>,
    base: Seq<char>,
    url: Seq<char>,
)
    requires
        s.wf(),
        direct_step(s, community, d, body, base) is Apply,
        !(lookup(s, url, base) is Unknown),
    ensures
        ({
            let after = direct_step(s, community, d, body, base)->Apply_0;
            &&& direct_step(after, community, d, body, base) is Ignore || direct_step(
                after,
                community,
                d,
                body,
                base,
            ) == Step::Apply(after)
            &&& same_footing(s, after, url, base)
        }),
{
    reveal(direct_step);
    let after = direct_step(s, community, d, body, base)->Apply_0;
    let actor = lookup(s, d.actor@, base);
    let sender_host = url_host(d.actor@);
    match d.action {
        Action::CreatePage(page) => {
            let author = found_person(actor)->0;
            let id = page.id->0@;
            let c = page_community(s, community, page, base)->0;
            lemma_create_page_again(s, c, author, id, page, base, sender_host);
            assert(lookup(after, d.actor@, base) == actor);
            assert(lookup(after, url, base) == lookup(s, url, base));
            if page.to is Some {
                let to = page.to->0@;
                lemma_found_is_held(s, to, base);
                if to != id || lookup(s, id, base) is Found {
                    assert(lookup(after, to, base) == lookup(s, to, base));
                } else {
                    assert(lookup(after, to, base) == Lookup::Found(
                        Entity::Post(PostLocalID(s.posts.len() as i64)),
                    )) by {
                        lemma_recorded_address_is_found(
                            s,
                            after,
                            id,
                            Entity::Post(PostLocalID(s.posts.len() as i64)),
                            base,
                        );
                    }
                }
            }
            assert(page_community(after, community, page, base) == Some(c));
        },
        Action::CreateNote(note) => {
            let author = found_person(actor)->0;
            let id = note.id->0@;
            let target = note.in_reply_to->0@;
            lemma_found_is_held(s, target, base);
            let parent = found_thing(lookup(s, target, base))->0;
            lemma_create_note_again(s, author, id, parent, note, base, sender_host);
            assert(lookup(after, d.actor@, base) == actor);
            assert(lookup(after, target, base) == lookup(s, target, base));
            assert(lookup(after, url, base) == lookup(s, url, base));
        },
        Action::Follow { object } => {
            let follower = found_person(actor)->0;
            let c = community->0;
            assert(after.follows == s.follows.push(
                FollowRow { community: c, follower, accepted: true },
            ));
            lemma_some_follow(after.follows, c, follower, s.follows.len() as int);
            assert forall|c2: CommunityLocalID, u2: UserLocalID|
                find_follow(s.follows, c2, u2) is Some implies #[trigger] find_follow(
                after.follows,
                c2,
                u2,
            ) is Some by {
                let i = find_follow(s.follows, c2, u2)->0;
                assert(crate::store::follow_at(s.follows, c2, u2, i));
                lemma_some_follow(after.follows, c2, u2, i);
            }
        },
        Action::AcceptFollow { follower, community: followed } => {
            let c = found_community(actor)->0;
            let u = found_person(lookup(s, follower@, base))->0;
            lemma_accept_follow_again(s, c, u);
            let at = find_follow(s.follows, c, u)->0;
            assert(crate::store::follow_at(s.follows, c, u, at));
            assert forall|c2: CommunityLocalID, u2: UserLocalID|
                find_follow(s.follows, c2, u2) is Some implies #[trigger] find_follow(
                after.follows,
                c2,
                u2,
            ) is Some by {
                let i = find_follow(s.follows, c2, u2)->0;
                assert(crate::store::follow_at(s.follows, c2, u2, i));
                lemma_some_follow(after.follows, c2, u2, i);
            }
        },
        Action::Like { object } => {
            let person = found_person(actor)->0;
            lemma_found_is_held(s, object@, base);
            let target = found_thing(lookup(s, object@, base))->0;
            lemma_like_again(s, person, target, body, sender_host);
        },
        Action::UndoLike { object } => {
            let person = found_person(actor)->0;
            lemma_found_is_held(s, object@, base);
            let target = found_thing(lookup(s, object@, base))->0;
            lemma_undo_like_again(s, person, target, body, sender_host);
        },
        Action::Delete { object } => {
            let person = found_person(actor)->0;
            lemma_found_is_held(s, object@, base);
            let target = found_thing(lookup(s, object@, base))->0;
            assert(after.is_deleted(target));
            assert(lookup(after, d.actor@, base) == actor);
            assert(lookup(after, object@, base) == lookup(s, object@, base));
        },
        _ => {},
    }
}

/// No step touches the record of applied activities.
pub proof fn lemma_step_keeps_seen(
    s: StoreView,
    recipient: Recipient,
    sender: Seq<char>,
    activity: Activity,
    body: Seq<char>,
    base: Seq<char>,
)
    ensures
        activity_step(s, recipient, sender, activity, body, base) matches Step::Apply(after)
            ==> after.seen == s.seen,
{
    reveal(direct_step);
    reveal(announce_step);
}

/// An activity that was applied is applied again without change: the
/// second time it is ignored, or it brings about what is there already.
proof fn lemma_step_again(
    s: StoreView,
    recipient: Recipient,
    sender: Seq<char>,
    activity: Activity,
    body: Seq<char>,
    base: Seq<char>,
)
    requires
        s.wf(),
        activity_actor(activity) == sender,
        activity_step(s, recipient, sender, activity, body, base) is Apply,
    ensures
        ({
            let after = activity_step(s, recipient, sender, activity, body, base)->Apply_0;
            activity_step(after, recipient, sender, activity, body, base) is Ignore
                || activity_step(after, recipient, sender, activity, body, base) == Step::Apply(
                after,
            )
        }),
{
    match activity {
        Activity::Direct(d) => {
            assert(!(lookup(s, d.actor@, base) is Unknown)) by {
                reveal(direct_step);
            }
            lemma_direct_again(s, inbox_community(s, recipient), d, body, base, d.actor@);
        },
        Activity::Announce { inner, .. } => {
            reveal(announce_step);
            let c = found_community(lookup(s, sender, base))->0;
            lemma_direct_again(s, Some(c), inner, body, base, sender);
        },
    }
}

/// Replaying an activity changes nothing: handling it once more, in the
/// store that the first handling left, leaves that store as it is, and adds
/// no notice and no outbound work. Where the activity has an identifier the
/// replay is told as a duplicate; where it has none, the replay finds what
/// the activity asks for done already.
pub proof fn lemma_replay_changes_nothing(
    s: StoreView,
    recipient: Recipient,
    sender: Seq<char>,
    activity: Activity,
    body: Seq<char>,
    base: Seq<char>,
)
    requires
        s.wf(),
    ensures
        ({
            let first = receive(s, recipient, sender, activity, body, base);
            let second = receive(first.0, recipient, sender, activity, body, base);
            &&& second.0 == first.0
            &&& second.0.notifications == first.0.notifications
            &&& second.0.outbound == first.0.outbound
            &&& first.1 is Applied ==> if activity_id(activity) is Some {
                second.1 is Duplicate
            } else {
                second.1 is Applied || second.1 is Ignored
            }
            &&& !(first.1 is Applied) ==> second.1 == first.1
        }),
{
    lemma_step_keeps_seen(s, recipient, sender, activity, body, base);
    let first = receive(s, recipient, sender, activity, body, base);
    if first.1 is Applied {
        let after = activity_step(s, recipient, sender, activity, body, base)->Apply_0;
        match activity_id(activity) {
            Some(id) => {
                assert(first.0.seen == after.seen.push(id));
                assert(first.0.seen[after.seen.len() as int] == id);
            },
            None => {
                lemma_step_again(s, recipient, sender, activity, body, base);
            },
        }
    }
}

/// Whether the store has `actor` on record as the author of `object`.
pub open spec fn is_author_of(s: StoreView, actor: Seq<char>, object: Seq<char>, base: Seq<char>)
    -> bool {
    found_person(lookup(s, actor, base)) matches Some(person) && found_thing(
        lookup(s, object, base),
    ) matches Some(target) && s.author_of(target) == Some(person)
}

/// A deletion by anybody but the author changes nothing: where the actor of
/// a `Delete` is not on record as the author of its object, the store stays
/// as it is, whoever receives the activity, and the sender is answered with
/// 202 like any other.
pub proof fn lemma_delete_needs_author(
    s: StoreView,
    recipient: Recipient,
    sender: Seq<char>,
    d: Direct,
    body: Seq<char>,
    base: Seq<char>,
)
    requires
        d.action matches Action::Delete { object } && !is_author_of(s, d.actor@, object@, base),
    ensures
        receive(s, recipient, sender, Activity::Direct(d), body, base).0 == s,
        receive(s, recipient, sender, Activity::Direct(d), body, base).1 is Ignored || receive(
            s,
            recipient,
            sender,
            Activity::Direct(d),
            body,
            base,
        ).1 is Duplicate,
{
    reveal(direct_step);
}

/// The same holds of a deletion that a community announces: where the actor
/// of the announced `Delete` is not on record as the author of its object,
/// the store stays as it is.
pub proof fn lemma_announced_delete_needs_author(
    s: StoreView,
    recipient: Recipient,
    sender: Seq<char>,
    id: Option<String>,
    actor: String,
    inner: Direct,
    body: Seq<char>,
    base: Seq<char>,
)
    requires
        inner.action matches Action::Delete { object } && !is_author_of(
            s,
            inner.actor@,
            object@,
            base,
        ),
    ensures
        receive(s, recipient, sender, Activity::Announce { id, actor, inner }, body, base).0 == s,
{
    reveal(direct_step);
    reveal(announce_step);
}

/// A page from a known person arrives in the inbox of a local community,
/// addressed to no other local community, under an address that is not on
/// record: the page becomes a new remote post of that person in that
/// community, its address is recorded for it,
/// the community is left to announce it to its followers, and the identifier
/// of the activity, where it has one, is on record.
pub proof fn lemma_remote_post_arrives(
    s: StoreView,
    community: CommunityLocalID,
    author: UserLocalID,
    d: Direct,
    page: PageObject,
    body: Seq<char>,
    base: Seq<char>,
)
    requires
        s.holds(Entity::Community(community)),
        s.communities[community.0 as int].local,
        d.action == Action::CreatePage(page),
        page.id is Some,
        page_community(s, Some(community), page, base) == Some(community),
        d.id matches Some(id) ==> !s.seen.contains(id@),
        lookup(s, d.actor@, base) == Lookup::Found(Entity::Person(author)),
        lookup(s, page.id->0@, base) is Unknown,
    ensures
        receive(s, Recipient::Community(community), d.actor@, Activity::Direct(d), body, base) == (
            recorded(
                StoreView {
                    posts: s.posts.push(
                        PostRowView {
                            author: Some(author),
                            community,
                            local: false,
                            title: text_of(page.name),
                            href: text_of(page.url),
                            content_text: text_of(page.content),
                            deleted: false,
                        },
                    ),
                    addresses: s.addresses.push(
                        AddressView {
                            ap_id: page.id->0@,
                            target: Entity::Post(PostLocalID(s.posts.len() as i64)),
                        },
                    ),
                    outbound: s.outbound.push(
                        OutboundView::Announce {
                            community,
                            object: page.id->0@,
                            sender_host: url_host(d.actor@),
                        },
                    ),
                    ..s
                },
                text_of(d.id),
            ),
            OutcomeView::Applied,
        ),
{
    reveal(direct_step);
}

/// A remote comment never notifies its own author.
pub proof fn lemma_no_self_notice(
    s: StoreView,
    author: UserLocalID,
    reply: CommentLocalID,
    parent: ThingLocalRef,
)
    ensures
        inbound_notification(s, author, reply, parent) matches Some(n) ==> n.recipient()
            != author,
{
}

/// How a step ended, as the code reports it.
enum StepKind {
    Applied,
    Ignore,
    Malformed,
    Fetch(String),
}

/// Whether a step that the code took is the step that was to be taken.
spec fn step_taken(kind: StepKind, before: StoreView, after: StoreView, step: Step) -> bool {
    match kind {
        StepKind::Applied => step == Step::Apply(after),
        StepKind::Ignore => step is Ignore && after == before,
        StepKind::Malformed => step is Malformed && after == before,
        StepKind::Fetch(url) => step == Step::Fetch(url@) && after == before,
    }
}

/// The position of the row with key `id` in a table of `len` rows.
fn index_of(id: i64, len: usize) -> (i: usize)
    requires
        0 <= id < len,
    ensures
        i == id,
{
    id as usize
}

fn same_person(a: Option<UserLocalID>, b: UserLocalID) -> (r: bool)
    ensures
        r == (a == Some(b)),
{
    match a {
        Some(x) => x.0 == b.0,
        None => false,
    }
}

impl Store {
    fn push_forward(&mut self, community: CommunityLocalID, body: &str, sender_host: &Option<String>)
        requires
            old(self)@.wf(),
            old(self)@.holds(Entity::Community(community)),
        ensures
            final(self)@.wf(),
            final(self)@ == forward_if_local(old(self)@, community, body@, text_of(*sender_host)),
    {
        if self.communities[index_of(community.0, self.communities.len())].local {
            let ghost before = self@.outbound;
            self.outbound.push(
                Outbound::Forward {
                    community,
                    body: body.to_owned(),
                    sender_host: clone_text(sender_host),
                },
            );
            assert(self@.outbound =~= before.push(
                OutboundView::Forward { community, body: body@, sender_host: text_of(*sender_host) },
            ));
            proof {
                lemma_wf_frame(old(self)@, self@);
            }
        }
    }

    fn push_announce(
        &mut self,
        community: CommunityLocalID,
        object: &str,
        sender_host: &Option<String>,
    )
        requires
            old(self)@.wf(),
            old(self)@.holds(Entity::Community(community)),
        ensures
            final(self)@.wf(),
            final(self)@ == announce_if_local(
                old(self)@,
                community,
                object@,
                text_of(*sender_host),
            ),
    {
        if self.communities[index_of(community.0, self.communities.len())].local {
            let ghost before = self@.outbound;
            self.outbound.push(
                Outbound::Announce {
                    community,
                    object: object.to_owned(),
                    sender_host: clone_text(sender_host),
                },
            );
            assert(self@.outbound =~= before.push(
                OutboundView::Announce {
                    community,
                    object: object@,
                    sender_host: text_of(*sender_host),
                },
            ));
            proof {
                lemma_wf_frame(old(self)@, self@);
            }
        }
    }

    /// The post that a post or comment belongs to.
    fn thing_post(&self, target: ThingLocalRef) -> (r: PostLocalID)
        requires
            self@.wf(),
            self@.holds_thing(target),
        ensures
            r == self@.post_of(target),
            self@.holds(Entity::Post(r)),
    {
        match target {
            ThingLocalRef::Post(post) => post,
            ThingLocalRef::Comment(comment) => {
                assert(self@.replies[comment.0 as int] == self.replies@[comment.0 as int]@);
                self.replies[index_of(comment.0, self.replies.len())].post
            },
        }
    }

    /// The community that a post or comment sits in.
    fn thing_community(&self, target: ThingLocalRef) -> (r: CommunityLocalID)
        requires
            self@.wf(),
            self@.holds_thing(target),
        ensures
            r == self@.community_of(target),
            self@.holds(Entity::Community(r)),
    {
        let post = self.thing_post(target);
        assert(self@.posts[post.0 as int] == self.posts@[post.0 as int]@);
        self.posts[index_of(post.0, self.posts.len())].community
    }

    /// The author of a post or comment.
    fn thing_author(&self, target: ThingLocalRef) -> (r: Option<UserLocalID>)
        requires
            self@.wf(),
            self@.holds_thing(target),
        ensures
            r == self@.author_of(target),
            r matches Some(a) ==> self@.holds(Entity::Person(a)),
    {
        match target {
            ThingLocalRef::Post(post) => {
                assert(self@.posts[post.0 as int] == self.posts@[post.0 as int]@);
                self.posts[index_of(post.0, self.posts.len())].author
            },
            ThingLocalRef::Comment(comment) => {
                assert(self@.replies[comment.0 as int] == self.replies@[comment.0 as int]@);
                self.replies[index_of(comment.0, self.replies.len())].author
            },
        }
    }

    /// Whether a post or comment is marked as deleted.
    fn thing_deleted(&self, target: ThingLocalRef) -> (r: bool)
        requires
            self@.wf(),
            self@.holds_thing(target),
        ensures
            r == self@.is_deleted(target),
    {
        match target {
            ThingLocalRef::Post(post) => {
                assert(self@.posts[post.0 as int] == self.posts@[post.0 as int]@);
                self.posts[index_of(post.0, self.posts.len())].deleted
            },
            ThingLocalRef::Comment(comment) => {
                assert(self@.replies[comment.0 as int] == self.replies@[comment.0 as int]@);
                self.replies[index_of(comment.0, self.replies.len())].deleted
            },
        }
    }

    fn step_create_page(
        &mut self,
        community: CommunityLocalID,
        author: UserLocalID,
        id: &str,
        page: &PageObject,
        host_url_apub: &str,
        sender_host: &Option<String>,
    ) -> (r: StepKind)
        requires
            old(self)@.wf(),
            old(self)@.has_room(),
            old(self)@.holds(Entity::Community(community)),
            old(self)@.holds(Entity::Person(author)),
        ensures
            final(self)@.wf(),
            step_taken(
                r,
                old(self)@,
                final(self)@,
                create_page(
                    old(self)@,
                    community,
                    author,
                    id@,
                    *page,
                    host_url_apub@,
                    text_of(*sender_host),
                ),
            ),
    {
        match self.lookup(id, host_url_apub) {
            Lookup::Found(Entity::Post(post)) => {
                let i = index_of(post.0, self.posts.len());
                assert(self@.posts[i as int] == self.posts@[i as int]@);
                let local = self.posts[i].local;
                let deleted = self.posts[i].deleted;
                let row_author = self.posts[i].author;
                let row_community = self.posts[i].community;
                if !local && same_person(row_author, author) && !deleted {
                    let row = PostRow {
                        author: row_author,
                        community: row_community,
                        local,
                        title: clone_text(&page.name),
                        href: clone_text(&page.url),
                        content_text: clone_text(&page.content),
                        deleted,
                    };
                    let ghost before = self@;
                    self.posts.set(i, row);
                    proof {
                        assert(self@.posts =~= before.posts.update(i as int, row@));
                        assert(self@.wf());
                    }
                    StepKind::Applied
                } else {
                    StepKind::Ignore
                }
            },
            Lookup::Unknown => {
                let ghost before = self@;
                let post = PostLocalID(self.posts.len() as i64);
                let row = PostRow {
                    author: Some(author),
                    community,
                    local: false,
                    title: clone_text(&page.name),
                    href: clone_text(&page.url),
                    content_text: clone_text(&page.content),
                    deleted: false,
                };
                self.posts.push(row);
                self.addresses.push(Address { ap_id: id.to_owned(), target: Entity::Post(post) });
                proof {
                    assert(self@.posts =~= before.posts.push(row@));
                    assert(self@.addresses =~= before.addresses.push(
                        AddressView { ap_id: id@, target: Entity::Post(post) },
                    ));
                    assert(self@.wf());
                }
                self.push_announce(community, id, sender_host);
                StepKind::Applied
            },
            _ => StepKind::Ignore,
        }
    }

    fn step_create_note(
        &mut self,
        author: UserLocalID,
        id: &str,
        parent: ThingLocalRef,
        note: &NoteObject,
        host_url_apub: &str,
        sender_host: &Option<String>,
    ) -> (r: StepKind)
        requires
            old(self)@.wf(),
            old(self)@.has_room(),
            old(self)@.holds_thing(parent),
            old(self)@.holds(Entity::Person(author)),
        ensures
            final(self)@.wf(),
            step_taken(
                r,
                old(self)@,
                final(self)@,
                create_note(
                    old(self)@,
                    author,
                    id@,
                    parent,
                    *note,
                    host_url_apub@,
                    text_of(*sender_host),
                ),
            ),
    {
        match self.lookup(id, host_url_apub) {
            Lookup::Found(Entity::Comment(comment)) => {
                let i = index_of(comment.0, self.replies.len());
                assert(self@.replies[i as int] == self.replies@[i as int]@);
                let local = self.replies[i].local;
                let deleted = self.replies[i].deleted;
                let row_author = self.replies[i].author;
                if !local && same_person(row_author, author) && !deleted {
                    let row = ReplyRow {
                        post: self.replies[i].post,
                        parent: self.replies[i].parent,
                        author: row_author,
                        local,
                        content_text: clone_text(&note.content),
                        deleted,
                    };
                    let ghost before = self@;
                    self.replies.set(i, row);
                    proof {
                        assert(self@.replies =~= before.replies.update(i as int, row@));
                        assert(self@.wf());
                    }
                    StepKind::Applied
                } else {
                    StepKind::Ignore
                }
            },
            Lookup::Unknown => {
                let ghost before = self@;
                let reply = CommentLocalID(self.replies.len() as i64);
                let post = self.thing_post(parent);
                let community = self.thing_community(parent);
                let answered = self.thing_author(parent);
                let notification = match answered {
                    Some(a) => {
                        if self.persons[index_of(a.0, self.persons.len())].local && a.0 != author.0 {
                            Some(
                                match parent {
                                    ThingLocalRef::Post(p) => Notification::PostReply {
                                        to_user: a,
                                        reply,
                                        parent_post: p,
                                    },
                                    ThingLocalRef::Comment(c) => Notification::ReplyReply {
                                        to_user: a,
                                        reply,
                                        parent_reply: c,
                                    },
                                },
                            )
                        } else {
                            None
                        }
                    },
                    None => None,
                };
                assert(notification == inbound_notification(before, author, reply, parent));
                let row = ReplyRow {
                    post,
                    parent: match parent {
                        ThingLocalRef::Post(_) => None,
                        ThingLocalRef::Comment(c) => Some(c),
                    },
                    author: Some(author),
                    local: false,
                    content_text: clone_text(&note.content),
                    deleted: false,
                };
                self.replies.push(row);
                self.addresses.push(
                    Address { ap_id: id.to_owned(), target: Entity::Comment(reply) },
                );
                match notification {
                    Some(n) => {
                        self.notifications.push(n);
                    },
                    None => {},
                }
                proof {
                    assert(self@.replies =~= before.replies.push(row@));
                    assert(self@.addresses =~= before.addresses.push(
                        AddressView { ap_id: id@, target: Entity::Comment(reply) },
                    ));
                    assert(self@.wf());
                }
                self.push_announce(community, id, sender_host);
                StepKind::Applied
            },
            _ => StepKind::Ignore,
        }
    }

    fn step_follow(&mut self, community: CommunityLocalID, follower: UserLocalID, follow_id: &str)
        -> (r: StepKind)
        requires
            old(self)@.wf(),
            old(self)@.holds(Entity::Community(community)),
            old(self)@.holds(Entity::Person(follower)),
        ensures
            final(self)@.wf(),
            step_taken(
                r,
                old(self)@,
                final(self)@,
                follow(old(self)@, community, follower, follow_id@),
            ),
    {
        match self.follow_index(community, follower) {
            Some(_) => StepKind::Ignore,
            None => {
                let ghost before = self@;
                self.follows.push(FollowRow { community, follower, accepted: true });
                self.outbound.push(
                    Outbound::Accept { community, follower, follow: follow_id.to_owned() },
                );
                proof {
                    assert(self@.outbound =~= before.outbound.push(
                        OutboundView::Accept { community, follower, follow: follow_id@ },
                    ));
                    assert forall|i: int, j: int|
                        0 <= i < j < self@.follows.len() implies !crate::store::same_follow(
                        #[trigger] self@.follows[i],
                        #[trigger] self@.follows[j],
                    ) by {
                        if j == before.follows.len() && crate::store::same_follow(
                            self@.follows[i],
                            self@.follows[j],
                        ) {
                            lemma_some_follow(before.follows, community, follower, i);
                        }
                    }
                    assert(self@.wf());
                }
                StepKind::Applied
            },
        }
    }

    fn step_accept_follow(&mut self, community: CommunityLocalID, follower: UserLocalID) -> (r:
        StepKind)
        requires
            old(self)@.wf(),
        ensures
            final(self)@.wf(),
            step_taken(r, old(self)@, final(self)@, accept_follow(old(self)@, community, follower)),
    {
        match self.follow_index(community, follower) {
            Some(i) => {
                if self.follows[i].accepted {
                    StepKind::Ignore
                } else {
                    let row = FollowRow { community, follower, accepted: true };
                    self.follows.set(i, row);
                    proof {
                        assert(self@.wf());
                    }
                    StepKind::Applied
                }
            },
            None => StepKind::Ignore,
        }
    }

    fn step_like(
        &mut self,
        person: UserLocalID,
        target: ThingLocalRef,
        body: &str,
        sender_host: &Option<String>,
    ) -> (r: StepKind)
        requires
            old(self)@.wf(),
            old(self)@.holds_thing(target),
            old(self)@.holds(Entity::Person(person)),
        ensures
            final(self)@.wf(),
            step_taken(
                r,
                old(self)@,
                final(self)@,
                like(old(self)@, person, target, body@, text_of(*sender_host)),
            ),
    {
        let row = LikeRow { target, person };
        match self.like_index(row) {
            Some(_) => StepKind::Ignore,
            None => {
                let ghost before = self@;
                let community = self.thing_community(target);
                self.likes.push(row);
                proof {
                    assert forall|i: int, j: int|
                        0 <= i < j < self@.likes.len() implies #[trigger] self@.likes[i]
                        != #[trigger] self@.likes[j] by {
                        if j == before.likes.len() && self@.likes[i] == self@.likes[j] {
                            lemma_some_like(before.likes, row, i);
                        }
                    }
                    assert(self@.wf());
                }
                self.push_forward(community, body, sender_host);
                StepKind::Applied
            },
        }
    }

    fn step_undo_like(
        &mut self,
        person: UserLocalID,
        target: ThingLocalRef,
        body: &str,
        sender_host: &Option<String>,
    ) -> (r: StepKind)
        requires
            old(self)@.wf(),
            old(self)@.holds_thing(target),
        ensures
            final(self)@.wf(),
            step_taken(
                r,
                old(self)@,
                final(self)@,
                undo_like(old(self)@, person, target, body@, text_of(*sender_host)),
            ),
    {
        let row = LikeRow { target, person };
        match self.like_index(row) {
            Some(i) => {
                let community = self.thing_community(target);
                self.likes.remove(i);
                proof {
                    assert(self@.wf());
                }
                self.push_forward(community, body, sender_host);
                StepKind::Applied
            },
            None => StepKind::Ignore,
        }
    }

    /// Deletes a post or comment: the row stays and is marked as deleted,
    /// and its title, link and text are gone.
    pub fn erase(&mut self, target: ThingLocalRef)
        requires
            old(self)@.wf(),
            old(self)@.holds_thing(target),
        ensures
            final(self)@.wf(),
            final(self)@ == erase(old(self)@, target),
    {
        let ghost before = self@;
        match target {
            ThingLocalRef::Post(post) => {
                let i = index_of(post.0, self.posts.len());
                assert(self@.posts[i as int] == self.posts@[i as int]@);
                let row = PostRow {
                    author: self.posts[i].author,
                    community: self.posts[i].community,
                    local: self.posts[i].local,
                    title: None,
                    href: None,
                    content_text: None,
                    deleted: true,
                };
                self.posts.set(i, row);
                proof {
                    assert(self@.posts =~= before.posts.update(i as int, row@));
                }
            },
            ThingLocalRef::Comment(comment) => {
                let i = index_of(comment.0, self.replies.len());
                assert(self@.replies[i as int] == self.replies@[i as int]@);
                let row = ReplyRow {
                    post: self.replies[i].post,
                    parent: self.replies[i].parent,
                    author: self.replies[i].author,
                    local: self.replies[i].local,
                    content_text: None,
                    deleted: true,
                };
                self.replies.set(i, row);
                proof {
                    assert(self@.replies =~= before.replies.update(i as int, row@));
                }
            },
        }
        proof {
            assert(self@ =~= erase(before, target));
            assert(self@.wf());
        }
    }

    /// The local user `user` deletes `target`. Only the author may, and
    /// only once: where the store holds `target`, `user` is its author and
    /// it is not deleted yet, it is deleted and `true` is returned.
    /// Otherwise nothing changes.
    pub fn delete_own(&mut self, user: UserLocalID, target: ThingLocalRef) -> (r: bool)
        requires
            old(self)@.wf(),
        ensures
            final(self)@.wf(),
            r == (old(self)@.holds_thing(target) && old(self)@.author_of(target) == Some(user)
                && !old(self)@.is_deleted(target)),
            final(self)@ == if r {
                erase(old(self)@, target)
            } else {
                old(self)@
            },
    {
        let held = match target {
            ThingLocalRef::Post(id) => self.holds(Entity::Post(id)),
            ThingLocalRef::Comment(id) => self.holds(Entity::Comment(id)),
        };
        if !held {
            return false;
        }
        let author = self.thing_author(target);
        let deleted = self.thing_deleted(target);
        if same_person(author, user) && !deleted {
            self.erase(target);
            true
        } else {
            false
        }
    }

    fn step_delete(
        &mut self,
        person: UserLocalID,
        target: ThingLocalRef,
        body: &str,
        sender_host: &Option<String>,
    ) -> (r: StepKind)
        requires
            old(self)@.wf(),
            old(self)@.holds_thing(target),
        ensures
            final(self)@.wf(),
            step_taken(
                r,
                old(self)@,
                final(self)@,
                delete(old(self)@, person, target, body@, text_of(*sender_host)),
            ),
    {
        let author = self.thing_author(target);
        let deleted = self.thing_deleted(target);
        if same_person(author, person) && !deleted {
            let community = self.thing_community(target);
            self.erase(target);
            self.push_forward(community, body, sender_host);
            StepKind::Applied
        } else {
            StepKind::Ignore
        }
    }

    fn take_direct_step(
        &mut self,
        community: Option<CommunityLocalID>,
        d: &Direct,
        body: &str,
        host_url_apub: &str,
    ) -> (r: StepKind)
        requires
            old(self)@.wf(),
            old(self)@.has_room(),
        ensures
            final(self)@.wf(),
            step_taken(
                r,
                old(self)@,
                final(self)@,
                direct_step(old(self)@, community, *d, body@, host_url_apub@),
            ),
    {
        reveal(direct_step);
        let actor = self.lookup(d.actor.as_str(), host_url_apub);
        let sender_host = get_url_host(d.actor.as_str());
        let person = match actor {
            Lookup::Found(Entity::Person(p)) => Some(p),
            _ => None,
        };
        match &d.action {
            Action::CreatePage(page) => {
                let id = match &page.id {
                    Some(id) => id,
                    None => {
                        return StepKind::Malformed;
                    },
                };
                let addressed = match &page.to {
                    Some(to) => match self.lookup(to.as_str(), host_url_apub) {
                        Lookup::Found(Entity::Community(c)) => {
                            if self.communities[index_of(c.0, self.communities.len())].local {
                                Some(c)
                            } else {
                                community
                            }
                        },
                        _ => community,
                    },
                    None => community,
                };
                let c = match addressed {
                    Some(c) => c,
                    None => {
                        return StepKind::Ignore;
                    },
                };
                if !(0 <= c.0 && (c.0 as u64) < (self.communities.len() as u64)) {
                    return StepKind::Ignore;
                }
                if let Lookup::Unknown = actor {
                    return StepKind::Fetch(d.actor.clone());
                }
                match person {
                    Some(author) => self.step_create_page(
                        c,
                        author,
                        id.as_str(),
                        page,
                        host_url_apub,
                        &sender_host,
                    ),
                    None => StepKind::Ignore,
                }
            },
            Action::CreateNote(note) => {
                let id = match &note.id {
                    Some(id) => id,
                    None => {
                        return StepKind::Malformed;
                    },
                };
                let target = match &note.in_reply_to {
                    Some(target) => target,
                    None => {
                        return StepKind::Ignore;
                    },
                };
                if let Lookup::Unknown = actor {
                    return StepKind::Fetch(d.actor.clone());
                }
                let author = match person {
                    Some(author) => author,
                    None => {
                        return StepKind::Ignore;
                    },
                };
                match self.lookup(target.as_str(), host_url_apub) {
                    Lookup::Unknown => StepKind::Fetch(target.clone()),
                    Lookup::Found(Entity::Post(p)) => self.step_create_note(
                        author,
                        id.as_str(),
                        ThingLocalRef::Post(p),
                        note,
                        host_url_apub,
                        &sender_host,
                    ),
                    Lookup::Found(Entity::Comment(c)) => self.step_create_note(
                        author,
                        id.as_str(),
                        ThingLocalRef::Comment(c),
                        note,
                        host_url_apub,
                        &sender_host,
                    ),
                    _ => StepKind::Ignore,
                }
            },
            Action::CreateReference { object } => StepKind::Fetch(object.clone()),
            Action::Follow { object } => {
                let id = match &d.id {
                    Some(id) => id,
                    None => {
                        return StepKind::Malformed;
                    },
                };
                let c = match community {
                    Some(c) => c,
                    None => {
                        return StepKind::Ignore;
                    },
                };
                match self.lookup(object.as_str(), host_url_apub) {
                    Lookup::Found(Entity::Community(found)) => {
                        if found.0 != c.0 || !self.communities[index_of(c.0, self.communities.len())].local {
                            return StepKind::Ignore;
                        }
                    },
                    _ => {
                        return StepKind::Ignore;
                    },
                }
                if let Lookup::Unknown = actor {
                    return StepKind::Fetch(d.actor.clone());
                }
                match person {
                    Some(follower) => self.step_follow(c, follower, id.as_str()),
                    None => StepKind::Ignore,
                }
            },
            Action::AcceptFollow { follower, community: followed } => {
                if !str_eq(followed.as_str(), d.actor.as_str()) {
                    return StepKind::Ignore;
                }
                if let Lookup::Unknown = actor {
                    return StepKind::Fetch(d.actor.clone());
                }
                match (actor, self.lookup(follower.as_str(), host_url_apub)) {
                    (Lookup::Found(Entity::Community(c)), Lookup::Found(Entity::Person(u))) => {
                        if !self.communities[index_of(c.0, self.communities.len())].local && self.persons[index_of(u.0, self.persons.len())].local {
                            self.step_accept_follow(c, u)
                        } else {
                            StepKind::Ignore
                        }
                    },
                    _ => StepKind::Ignore,
                }
            },
            Action::Like { object } => {
                if let Lookup::Unknown = actor {
                    return StepKind::Fetch(d.actor.clone());
                }
                let liker = match person {
                    Some(p) => p,
                    None => {
                        return StepKind::Ignore;
                    },
                };
                match self.lookup(object.as_str(), host_url_apub) {
                    Lookup::Unknown => StepKind::Fetch(object.clone()),
                    Lookup::Found(Entity::Post(p)) => self.step_like(
                        liker,
                        ThingLocalRef::Post(p),
                        body,
                        &sender_host,
                    ),
                    Lookup::Found(Entity::Comment(c)) => self.step_like(
                        liker,
                        ThingLocalRef::Comment(c),
                        body,
                        &sender_host,
                    ),
                    _ => StepKind::Ignore,
                }
            },
            Action::UndoLike { object } => {
                let liker = match person {
                    Some(p) => p,
                    None => {
                        return StepKind::Ignore;
                    },
                };
                match self.lookup(object.as_str(), host_url_apub) {
                    Lookup::Found(Entity::Post(p)) => self.step_undo_like(
                        liker,
                        ThingLocalRef::Post(p),
                        body,
                        &sender_host,
                    ),
                    Lookup::Found(Entity::Comment(c)) => self.step_undo_like(
                        liker,
                        ThingLocalRef::Comment(c),
                        body,
                        &sender_host,
                    ),
                    _ => StepKind::Ignore,
                }
            },
            Action::Delete { object } => {
                let deleter = match person {
                    Some(p) => p,
                    None => {
                        return StepKind::Ignore;
                    },
                };
                match self.lookup(object.as_str(), host_url_apub) {
                    Lookup::Found(Entity::Post(p)) => self.step_delete(
                        deleter,
                        ThingLocalRef::Post(p),
                        body,
                        &sender_host,
                    ),
                    Lookup::Found(Entity::Comment(c)) => self.step_delete(
                        deleter,
                        ThingLocalRef::Comment(c),
                        body,
                        &sender_host,
                    ),
                    _ => StepKind::Ignore,
                }
            },
            Action::Other => StepKind::Ignore,
        }
    }

    fn take_announce_step(
        &mut self,
        recipient: Recipient,
        sender: &str,
        inner: &Direct,
        body: &str,
        host_url_apub: &str,
    ) -> (r: StepKind)
        requires
            old(self)@.wf(),
            old(self)@.has_room(),
        ensures
            final(self)@.wf(),
            step_taken(
                r,
                old(self)@,
                final(self)@,
                announce_step(old(self)@, recipient, sender@, *inner, body@, host_url_apub@),
            ),
    {
        reveal(announce_step);
        match recipient {
            Recipient::User(u) => {
                if !(0 <= u.0 && (u.0 as u64) < (self.persons.len() as u64))
                    || !self.persons[index_of(u.0, self.persons.len())].local {
                    return StepKind::Ignore;
                }
                match self.lookup(sender, host_url_apub) {
                    Lookup::Unknown => StepKind::Fetch(sender.to_owned()),
                    Lookup::Found(Entity::Community(c)) => {
                        if !self.communities[index_of(c.0, self.communities.len())].local && self.follow_index(
                            c,
                            u,
                        ).is_some() {
                            self.take_direct_step(Some(c), inner, body, host_url_apub)
                        } else {
                            StepKind::Ignore
                        }
                    },
                    _ => StepKind::Ignore,
                }
            },
            Recipient::Community(_) => StepKind::Ignore,
        }
    }

    /// Handles an activity that arrived in the inbox of `recipient`. `sender`
    /// is the actor whose signature on the request was verified, `body` the
    /// request body as it came, `host_url_apub` this instance's origin.
    pub fn receive(
        &mut self,
        recipient: Recipient,
        sender: &str,
        activity: &Activity,
        body: &str,
        host_url_apub: &str,
    ) -> (r: Outcome)
        requires
            old(self)@.wf(),
            old(self)@.has_room(),
        ensures
            final(self)@.wf(),
            final(self)@ == receive(
                old(self)@,
                recipient,
                sender@,
                *activity,
                body@,
                host_url_apub@,
            ).0,
            r@ == receive(old(self)@, recipient, sender@, *activity, body@, host_url_apub@).1,
    {
        let (id, actor) = match activity {
            Activity::Direct(d) => (&d.id, &d.actor),
            Activity::Announce { id, actor, .. } => (id, actor),
        };
        let needed = match activity {
            Activity::Direct(d) => match &d.action {
                Action::CreatePage(page) => page.id.is_none(),
                Action::CreateNote(note) => note.id.is_none(),
                Action::Follow { .. } => d.id.is_none(),
                _ => false,
            },
            Activity::Announce { .. } => false,
        };
        if needed {
            return Outcome::Malformed;
        }
        match id {
            Some(id) => {
                if self.seen_before(id.as_str()) {
                    return Outcome::Duplicate;
                }
            },
            None => {},
        }
        if !str_eq(actor.as_str(), sender) {
            return Outcome::Ignored;
        }
        let kind = match activity {
            Activity::Direct(d) => {
                let community = match recipient {
                    Recipient::Community(c) => {
                        if self.holds(Entity::Community(c)) && self.communities[index_of(
                            c.0,
                            self.communities.len(),
                        )].local {
                            Some(c)
                        } else {
                            None
                        }
                    },
                    Recipient::User(_) => None,
                };
                self.take_direct_step(community, d, body, host_url_apub)
            },
            Activity::Announce { inner, .. } => self.take_announce_step(
                recipient,
                sender,
                inner,
                body,
                host_url_apub,
            ),
        };
        match kind {
            StepKind::Applied => {
                match id {
                    Some(id) => {
                        let ghost before = self@;
                        self.seen.push(id.clone());
                        assert(self@.seen =~= before.seen.push(id@));
                        proof {
                            lemma_wf_frame(before, self@);
                        }
                    },
                    None => {},
                }
                Outcome::Applied
            },
            StepKind::Ignore => Outcome::Ignored,
            StepKind::Malformed => Outcome::Malformed,
            StepKind::Fetch(url) => Outcome::Fetch(url),
        }
    }
}

/// Well-formedness depends on the rows alone: not on the record of applied
/// activities, on the notices or on the outbound work.
proof fn lemma_wf_frame(a: StoreView, b: StoreView)
    requires
        a.wf(),
        b.persons == a.persons,
        b.communities == a.communities,
        b.posts == a.posts,
        b.replies == a.replies,
        b.addresses == a.addresses,
        b.follows == a.follows,
        b.likes == a.likes,
    ensures
        b.wf(),
{
}

/// A follow that is recorded somewhere is found.
proof fn lemma_some_follow(
    follows: Seq<FollowRow>,
    community: CommunityLocalID,
    follower: UserLocalID,
    i: int,
)
    requires
        0 <= i < follows.len(),
        follows[i].community == community,
        follows[i].follower == follower,
    ensures
        find_follow(follows, community, follower) is Some,
    decreases i,
{
    if forall|j: int|
        0 <= j < i ==> !(follows[j].community == community && follows[j].follower == follower) {
        assert(crate::store::follow_at(follows, community, follower, i));
    } else {
        let j = choose|j: int|
            0 <= j < i && follows[j].community == community && follows[j].follower == follower;
        lemma_some_follow(follows, community, follower, j);
    }
}

/// A like that is recorded somewhere is found.
proof fn lemma_some_like(likes: Seq<LikeRow>, like: LikeRow, i: int)
    requires
        0 <= i < likes.len(),
        likes[i] == like,
    ensures
        find_like(likes, like) is Some,
    decreases i,
{
    if forall|j: int| 0 <= j < i ==> likes[j] != like {
        assert(crate::store::like_at(likes, like, i));
    } else {
        let j = choose|j: int| 0 <= j < i && likes[j] == like;
        lemma_some_like(likes, like, j);
    }
}

} // verus!

//! A model of the relational store, as far as federation reads and writes
//! it. Rows are numbered from zero in the order they were added, and the
//! number of a row is its local key.

use crate::addressing::{
    actor_apub_id, lemma_actor_apub_id_injective, lemma_thing_apub_id_injective,
    parse_local_actor, parse_local_thing, thing_apub_id,
};
use crate::comments::Notification;
use crate::delivery::texts_of;
use crate::ids::{
    ActorLocalRef, CommentLocalID, CommunityLocalID, PostLocalID, ThingLocalRef, UserLocalID,
};
use crate::text::{str_eq, text_of};
use vstd::prelude::*;

verus! {

/// Something the store holds: an actor or a piece of content.
#[derive(Debug, Clone, Copy, PartialEq, Eq, Structural)]
pub enum Entity {
    Person(UserLocalID),
    Community(CommunityLocalID),
    Post(PostLocalID),
    Comment(CommentLocalID),
}

/// A person.
#[derive(Debug, Clone, Copy, PartialEq, Eq, Structural)]
pub struct PersonRow {
    pub local: bool,
}

/// A community.
#[derive(Debug, Clone, Copy, PartialEq, Eq, Structural)]
pub struct CommunityRow {
    pub local: bool,
}

/// The address that a remote entity was published under.
#[derive(Debug, Clone, PartialEq, Eq)]
pub struct Address {
    pub ap_id: String,
    pub target: Entity,
}

/// `Address` with its string as a sequence of characters.
pub struct AddressView {
    pub ap_id: Seq<char>,
    pub target: Entity,
}

impl View for Address {
    type V = AddressView;

    open spec fn view(&self) -> AddressView {
        AddressView { ap_id: self.ap_id@, target: self.target }
    }
}

/// A post.
#[derive(Debug, Clone, PartialEq, Eq)]
pub struct PostRow {
    pub author: Option<UserLocalID>,
    pub community: CommunityLocalID,
    pub local: bool,
    pub title: Option<String>,
    pub href: Option<String>,
    pub content_text: Option<String>,
    pub deleted: bool,
}

/// `PostRow` with its strings as sequences of characters.
pub struct PostRowView {
    pub author: Option<UserLocalID>,
    pub community: CommunityLocalID,
    pub local: bool,
    pub title: Option<Seq<char>>,
    pub href: Option<Seq<char>>,
    pub content_text: Option<Seq<char>>,
    pub deleted: bool,
}

impl View for PostRow {
    type V = PostRowView;

    open spec fn view(&self) -> PostRowView {
        PostRowView {
            author: self.author,
            community: self.community,
            local: self.local,
            title: text_of(self.title),
            href: text_of(self.href),
            content_text: text_of(self.content_text),
            deleted: self.deleted,
        }
    }
}

/// A comment.
#[derive(Debug, Clone, PartialEq, Eq)]
pub struct ReplyRow {
    pub post: PostLocalID,
    pub parent: Option<CommentLocalID>,
    pub author: Option<UserLocalID>,
    pub local: bool,
    pub content_text: Option<String>,
    pub deleted: bool,
}

/// `ReplyRow` with its strings as sequences of characters.
pub struct ReplyRowView {
    pub post: PostLocalID,
    pub parent: Option<CommentLocalID>,
    pub author: Option<UserLocalID>,
    pub local: bool,
    pub content_text: Option<Seq<char>>,
    pub deleted: bool,
}

impl View for ReplyRow {
    type V = ReplyRowView;

    open spec fn view(&self) -> ReplyRowView {
        ReplyRowView {
            post: self.post,
            parent: self.parent,
            author: self.author,
            local: self.local,
            content_text: text_of(self.content_text),
            deleted: self.deleted,
        }
    }
}

/// A person follows a community.
#[derive(Debug, Clone, Copy, PartialEq, Eq, Structural)]
pub struct FollowRow {
    pub community: CommunityLocalID,
    pub follower: UserLocalID,
    pub accepted: bool,
}

/// A person likes a post or a comment.
#[derive(Debug, Clone, Copy, PartialEq, Eq, Structural)]
pub struct LikeRow {
    pub target: ThingLocalRef,
    pub person: UserLocalID,
}

/// Work that an inbound activity leaves for the outbound side.
#[derive(Debug, Clone, PartialEq, Eq)]
pub enum Outbound {
    /// The community announces the object at `object` to its followers.
    Announce { community: CommunityLocalID, object: String, sender_host: Option<String> },
    /// The community passes the activity on to its followers as it came.
    Forward { community: CommunityLocalID, body: String, sender_host: Option<String> },
    /// The community accepts the follow request `follow` of `follower`.
    Accept { community: CommunityLocalID, follower: UserLocalID, follow: String },
}

/// `Outbound` with its strings as sequences of characters.
pub enum OutboundView {
    Announce { community: CommunityLocalID, object: Seq<char>, sender_host: Option<Seq<char>> },
    Forward { community: CommunityLocalID, body: Seq<char>, sender_host: Option<Seq<char>> },
    Accept { community: CommunityLocalID, follower: UserLocalID, follow: Seq<char> },
}

impl View for Outbound {
    type V = OutboundView;

    open spec fn view(&self) -> OutboundView {
        match *self {
            Outbound::Announce { community, object, sender_host } => OutboundView::Announce {
                community,
                object: object@,
                sender_host: text_of(sender_host),
            },
            Outbound::Forward { community, body, sender_host } => OutboundView::Forward {
                community,
                body: body@,
                sender_host: text_of(sender_host),
            },
            Outbound::Accept { community, follower, follow } => OutboundView::Accept {
                community,
                follower,
                follow: follow@,
            },
        }
    }
}

/// The store.
#[derive(Debug, Clone)]
pub struct Store {
    pub persons: Vec<PersonRow>,
    pub communities: Vec<CommunityRow>,
    pub posts: Vec<PostRow>,
    pub replies: Vec<ReplyRow>,
    pub addresses: Vec<Address>,
    pub follows: Vec<FollowRow>,
    pub likes: Vec<LikeRow>,
    /// The identifiers of the activities that were applied.
    pub seen: Vec<String>,
    pub notifications: Vec<Notification>,
    pub outbound: Vec<Outbound>,
}

/// The store as sequences of rows.
#[verifier::ext_equal]
pub struct StoreView {
    pub persons: Seq<PersonRow>,
    pub communities: Seq<CommunityRow>,
    pub posts: Seq<PostRowView>,
    pub replies: Seq<ReplyRowView>,
    pub addresses: Seq<AddressView>,
    pub follows: Seq<FollowRow>,
    pub likes: Seq<LikeRow>,
    pub seen: Seq<Seq<char>>,
    pub notifications: Seq<Notification>,
    pub outbound: Seq<OutboundView>,
}

/// The views of a list of posts.
pub open spec fn post_views(rows: Seq<PostRow>) -> Seq<PostRowView> {
    rows.map_values(|r: PostRow| r@)
}

/// The views of a list of comments.
pub open spec fn reply_views(rows: Seq<ReplyRow>) -> Seq<ReplyRowView> {
    rows.map_values(|r: ReplyRow| r@)
}

/// The views of a list of addresses.
pub open spec fn address_views(rows: Seq<Address>) -> Seq<AddressView> {
    rows.map_values(|r: Address| r@)
}

/// The views of a list of outbound work.
pub open spec fn outbound_views(rows: Seq<Outbound>) -> Seq<OutboundView> {
    rows.map_values(|r: Outbound| r@)
}

impl View for Store {
    type V = StoreView;

    open spec fn view(&self) -> StoreView {
        StoreView {
            persons: self.persons@,
            communities: self.communities@,
            posts: post_views(self.posts@),
            replies: reply_views(self.replies@),
            addresses: address_views(self.addresses@),
            follows: self.follows@,
            likes: self.likes@,
            seen: texts_of(self.seen@),
            notifications: self.notifications@,
            outbound: outbound_views(self.outbound@),
        }
    }
}

impl StoreView {
    /// Whether the store holds the entity.
    pub open spec fn holds(self, e: Entity) -> bool {
        match e {
            Entity::Person(id) => 0 <= id.0 < self.persons.len(),
            Entity::Community(id) => 0 <= id.0 < self.communities.len(),
            Entity::Post(id) => 0 <= id.0 < self.posts.len(),
            Entity::Comment(id) => 0 <= id.0 < self.replies.len(),
        }
    }

    /// Whether the store holds the post or comment.
    pub open spec fn holds_thing(self, t: ThingLocalRef) -> bool {
        match t {
            ThingLocalRef::Post(id) => self.holds(Entity::Post(id)),
            ThingLocalRef::Comment(id) => self.holds(Entity::Comment(id)),
        }
    }

    /// The post that a post or comment belongs to: the post itself, or the
    /// post that the comment was made on.
    pub open spec fn post_of(self, t: ThingLocalRef) -> PostLocalID {
        match t {
            ThingLocalRef::Post(id) => id,
            ThingLocalRef::Comment(id) => self.replies[id.0 as int].post,
        }
    }

    /// The community that a post or comment sits in.
    pub open spec fn community_of(self, t: ThingLocalRef) -> CommunityLocalID {
        self.posts[self.post_of(t).0 as int].community
    }

    /// The author of a post or comment.
    pub open spec fn author_of(self, t: ThingLocalRef) -> Option<UserLocalID> {
        match t {
            ThingLocalRef::Post(id) => self.posts[id.0 as int].author,
            ThingLocalRef::Comment(id) => self.replies[id.0 as int].author,
        }
    }

    /// Whether a post or comment is marked as deleted.
    pub open spec fn is_deleted(self, t: ThingLocalRef) -> bool {
        match t {
            ThingLocalRef::Post(id) => self.posts[id.0 as int].deleted,
            ThingLocalRef::Comment(id) => self.replies[id.0 as int].deleted,
        }
    }

    /// The store is well formed: every key that a row names is the key of a
    /// row, a comment answers an older comment of the same post, no address
    /// is recorded twice, and nobody follows or likes the same thing twice.
    pub open spec fn wf(self) -> bool {
        &&& self.persons.len() <= i64::MAX
        &&& self.communities.len() <= i64::MAX
        &&& self.posts.len() <= i64::MAX
        &&& self.replies.len() <= i64::MAX
        &&& forall|i: int|
            0 <= i < self.posts.len() ==> {
                &&& self.holds(Entity::Community((#[trigger] self.posts[i]).community))
                &&& self.posts[i].author matches Some(a) ==> self.holds(Entity::Person(a))
            }
        &&& forall|i: int|
            0 <= i < self.replies.len() ==> {
                &&& self.holds(Entity::Post((#[trigger] self.replies[i]).post))
                &&& self.replies[i].author matches Some(a) ==> self.holds(Entity::Person(a))
                &&& self.replies[i].parent matches Some(p) ==> 0 <= p.0 < i
                    && self.replies[p.0 as int].post == self.replies[i].post
            }
        &&& forall|i: int|
            0 <= i < self.addresses.len() ==> self.holds((#[trigger] self.addresses[i]).target)
        &&& forall|i: int, j: int|
            0 <= i < j < self.addresses.len() ==> (#[trigger] self.addresses[i]).ap_id != (
            #[trigger] self.addresses[j]).ap_id
        &&& forall|i: int|
            0 <= i < self.follows.len() ==> self.holds(
                Entity::Community((#[trigger] self.follows[i]).community),
            ) && self.holds(Entity::Person(self.follows[i].follower))
        &&& forall|i: int, j: int|
            0 <= i < j < self.follows.len() ==> !same_follow(
                #[trigger] self.follows[i],
                #[trigger] self.follows[j],
            )
        &&& forall|i: int|
            0 <= i < self.likes.len() ==> self.holds_thing((#[trigger] self.likes[i]).target)
                && self.holds(Entity::Person(self.likes[i].person))
        &&& forall|i: int, j: int|
            0 <= i < j < self.likes.len() ==> #[trigger] self.likes[i] != #[trigger] self.likes[j]
    }

    /// Whether a post can be added: the store holds its community, and its
    /// author where it has one.
    pub open spec fn admits_post(self, row: PostRowView) -> bool {
        &&& self.holds(Entity::Community(row.community))
        &&& row.author matches Some(a) ==> self.holds(Entity::Person(a))
    }

    /// Whether a comment can be added: the store holds its post, its author
    /// where it has one, and its parent where it has one, which is a comment
    /// on the same post.
    pub open spec fn admits_reply(self, row: ReplyRowView) -> bool {
        &&& self.holds(Entity::Post(row.post))
        &&& row.author matches Some(a) ==> self.holds(Entity::Person(a))
        &&& row.parent matches Some(p) ==> self.holds(Entity::Comment(p)) && self.replies[p.0
            as int].post == row.post
    }

    /// Whether every table has room for one more row.
    pub open spec fn has_room(self) -> bool {
        &&& self.persons.len() < i64::MAX
        &&& self.communities.len() < i64::MAX
        &&& self.posts.len() < i64::MAX
        &&& self.replies.len() < i64::MAX
    }
}

/// The row that fills a key of posts under which the store has nothing: a
/// deleted remote post of nobody.
pub open spec fn gap_post(community: CommunityLocalID) -> PostRowView {
    PostRowView {
        author: None,
        community,
        local: false,
        title: None,
        href: None,
        content_text: None,
        deleted: true,
    }
}

/// The row that fills a key of comments under which the store has nothing:
/// a deleted remote comment of nobody.
pub open spec fn gap_reply(post: PostLocalID) -> ReplyRowView {
    ReplyRowView {
        post,
        parent: None,
        author: None,
        local: false,
        content_text: None,
        deleted: true,
    }
}

/// Whether two rows record the same person following the same community.
pub open spec fn same_follow(a: FollowRow, b: FollowRow) -> bool {
    a.community == b.community && a.follower == b.follower
}

/// The position of the address `ap_id` in the list of addresses.
pub open spec fn find_address(addresses: Seq<AddressView>, ap_id: Seq<char>) -> Option<int> {
    if exists|i: int| address_at(addresses, ap_id, i) {
        Some(choose|i: int| address_at(addresses, ap_id, i))
    } else {
        None
    }
}

/// Whether the first record of `ap_id` stands at `i`.
pub open spec fn address_at(addresses: Seq<AddressView>, ap_id: Seq<char>, i: int) -> bool {
    0 <= i < addresses.len() && addresses[i].ap_id == ap_id && forall|j: int|
        0 <= j < i ==> addresses[j].ap_id != ap_id
}

/// The position of the follow of `community` by `follower`.
pub open spec fn find_follow(
    follows: Seq<FollowRow>,
    community: CommunityLocalID,
    follower: UserLocalID,
) -> Option<int> {
    if exists|i: int| follow_at(follows, community, follower, i) {
        Some(choose|i: int| follow_at(follows, community, follower, i))
    } else {
        None
    }
}

/// Whether the first follow of `community` by `follower` stands at `i`.
pub open spec fn follow_at(
    follows: Seq<FollowRow>,
    community: CommunityLocalID,
    follower: UserLocalID,
    i: int,
) -> bool {
    0 <= i < follows.len() && follows[i].community == community && follows[i].follower
        == follower && forall|j: int|
        0 <= j < i ==> !(follows[j].community == community && follows[j].follower == follower)
}

/// The position of a like.
pub open spec fn find_like(likes: Seq<LikeRow>, like: LikeRow) -> Option<int> {
    if exists|i: int| like_at(likes, like, i) {
        Some(choose|i: int| like_at(likes, like, i))
    } else {
        None
    }
}

/// Whether the first record of `like` stands at `i`.
pub open spec fn like_at(likes: Seq<LikeRow>, like: LikeRow, i: int) -> bool {
    0 <= i < likes.len() && likes[i] == like && forall|j: int| 0 <= j < i ==> likes[j] != like
}

/// The local actor with the address `url`, if `url` is the address of one.
pub open spec fn local_actor_of(url: Seq<char>, base: Seq<char>) -> Option<ActorLocalRef> {
    if exists|a: ActorLocalRef| url == actor_apub_id(base, a) {
        Some(choose|a: ActorLocalRef| url == actor_apub_id(base, a))
    } else {
        None
    }
}

/// The local post or comment with the address `url`, if `url` is the
/// address of one.
pub open spec fn local_thing_of(url: Seq<char>, base: Seq<char>) -> Option<ThingLocalRef> {
    if exists|t: ThingLocalRef| url == thing_apub_id(base, t) {
        Some(choose|t: ThingLocalRef| url == thing_apub_id(base, t))
    } else {
        None
    }
}

/// What the store says of an address.
#[derive(Debug, Clone, Copy, PartialEq, Eq, Structural)]
pub enum Lookup {
    /// The address names this entity.
    Found(Entity),
    /// The address lies under this instance's origin and names nothing that
    /// the store holds as its own.
    Absent,
    /// The address lies elsewhere and is not on record.
    Unknown,
}

/// What the store says of an address. An address under this instance's
/// origin names the local entity with that key, if the store holds it as a
/// local one; any other address names what was recorded under it.
pub open spec fn lookup(s: StoreView, url: Seq<char>, base: Seq<char>) -> Lookup {
    match local_actor_of(url, base) {
        Some(ActorLocalRef::Person(id)) => if s.holds(Entity::Person(id))
            && s.persons[id.0 as int].local {
            Lookup::Found(Entity::Person(id))
        } else {
            Lookup::Absent
        },
        Some(ActorLocalRef::Community(id)) => if s.holds(Entity::Community(id))
            && s.communities[id.0 as int].local {
            Lookup::Found(Entity::Community(id))
        } else {
            Lookup::Absent
        },
        None => match local_thing_of(url, base) {
            Some(ThingLocalRef::Post(id)) => if s.holds(Entity::Post(id))
                && s.posts[id.0 as int].local {
                Lookup::Found(Entity::Post(id))
            } else {
                Lookup::Absent
            },
            Some(ThingLocalRef::Comment(id)) => if s.holds(Entity::Comment(id))
                && s.replies[id.0 as int].local {
                Lookup::Found(Entity::Comment(id))
            } else {
                Lookup::Absent
            },
            None => match find_address(s.addresses, url) {
                Some(i) => Lookup::Found(s.addresses[i].target),
                None => Lookup::Unknown,
            },
        },
    }
}

impl Store {
    /// An empty store.
    pub fn new() -> (s: Store)
        ensures
            s@.wf(),
            s@.has_room(),
            s@.persons.len() == 0,
            s@.communities.len() == 0,
            s@.posts.len() == 0,
            s@.replies.len() == 0,
            s@.addresses.len() == 0,
            s@.follows.len() == 0,
            s@.likes.len() == 0,
            s@.seen.len() == 0,
            s@.notifications.len() == 0,
            s@.outbound.len() == 0,
    {
        Store {
            persons: Vec::new(),
            communities: Vec::new(),
            posts: Vec::new(),
            replies: Vec::new(),
            addresses: Vec::new(),
            follows: Vec::new(),
            likes: Vec::new(),
            seen: Vec::new(),
            notifications: Vec::new(),
            outbound: Vec::new(),
        }
    }

    /// Where the address `ap_id` is recorded.
    pub fn address_index(&self, ap_id: &str) -> (r: Option<usize>)
        ensures
            match r {
                Some(i) => find_address(self@.addresses, ap_id@) == Some(i as int) && i
                    < self.addresses.len(),
                None => find_address(self@.addresses, ap_id@) is None,
            },
    {
        let ghost addresses = self@.addresses;
        let mut i: usize = 0;
        while i < self.addresses.len()
            invariant
                i <= self.addresses.len(),
                addresses == address_views(self.addresses@),
                forall|j: int| 0 <= j < i ==> addresses[j].ap_id != ap_id@,
            decreases self.addresses.len() - i,
        {
            if str_eq(self.addresses[i].ap_id.as_str(), ap_id) {
                proof {
                    assert(address_at(addresses, ap_id@, i as int));
                    let k = choose|k: int| address_at(addresses, ap_id@, k);
                    if k < i {
                        assert(addresses[k].ap_id != ap_id@);
                    } else if i < k {
                        assert(addresses[i as int].ap_id != ap_id@);
                    }
                }
                return Some(i);
            }
            i = i + 1;
        }
        None
    }

    /// Where the follow of `community` by `follower` is recorded.
    pub fn follow_index(&self, community: CommunityLocalID, follower: UserLocalID) -> (r: Option<
        usize,
    >)
        ensures
            match r {
                Some(i) => find_follow(self@.follows, community, follower) == Some(i as int) && i
                    < self.follows.len(),
                None => find_follow(self@.follows, community, follower) is None,
            },
    {
        let mut i: usize = 0;
        while i < self.follows.len()
            invariant
                i <= self.follows.len(),
                forall|j: int|
                    0 <= j < i ==> !(self.follows@[j].community == community
                        && self.follows@[j].follower == follower),
            decreases self.follows.len() - i,
        {
            if self.follows[i].community.0 == community.0 && self.follows[i].follower.0
                == follower.0 {
                proof {
                    assert(follow_at(self@.follows, community, follower, i as int));
                    let k = choose|k: int| follow_at(self@.follows, community, follower, k);
                    if k < i {
                        assert(!(self.follows@[k].community == community
                            && self.follows@[k].follower == follower));
                    } else if i < k {
                        assert(!(self.follows@[i as int].community == community
                            && self.follows@[i as int].follower == follower));
                    }
                }
                return Some(i);
            }
            i = i + 1;
        }
        None
    }

    /// Where a like is recorded.
    pub fn like_index(&self, like: LikeRow) -> (r: Option<usize>)
        ensures
            match r {
                Some(i) => find_like(self@.likes, like) == Some(i as int) && i < self.likes.len(),
                None => find_like(self@.likes, like) is None,
            },
    {
        let mut i: usize = 0;
        while i < self.likes.len()
            invariant
                i <= self.likes.len(),
                forall|j: int| 0 <= j < i ==> self.likes@[j] != like,
            decreases self.likes.len() - i,
        {
            let row = self.likes[i];
            let same_target = match (row.target, like.target) {
                (ThingLocalRef::Post(a), ThingLocalRef::Post(b)) => a.0 == b.0,
                (ThingLocalRef::Comment(a), ThingLocalRef::Comment(b)) => a.0 == b.0,
                _ => false,
            };
            if same_target && row.person.0 == like.person.0 {
                proof {
                    assert(like_at(self@.likes, like, i as int));
                    let k = choose|k: int| like_at(self@.likes, like, k);
                    if k < i {
                        assert(self.likes@[k] != like);
                    } else if i < k {
                        assert(self.likes@[i as int] != like);
                    }
                }
                return Some(i);
            }
            i = i + 1;
        }
        None
    }

    /// Whether the activity `id` was applied before.
    pub fn seen_before(&self, id: &str) -> (r: bool)
        ensures
            r == self@.seen.contains(id@),
    {
        crate::delivery::holds(&self.seen, id)
    }

    /// What the store says of the address `url`.
    pub fn lookup(&self, url: &str, host_url_apub: &str) -> (r: Lookup)
        requires
            self@.wf(),
        ensures
            r == lookup(self@, url@, host_url_apub@),
            r matches Lookup::Found(e) ==> self@.holds(e),
            r is Unknown ==> forall|i: int|
                0 <= i < self@.addresses.len() ==> (#[trigger] self@.addresses[i]).ap_id != url@,
    {
        let ghost base = host_url_apub@;
        match parse_local_actor(url, host_url_apub) {
            Some(actor) => {
                proof {
                    let a = choose|a: ActorLocalRef| url@ == actor_apub_id(base, a);
                    lemma_actor_apub_id_injective(base, a, actor);
                }
                match actor {
                    ActorLocalRef::Person(id) => {
                        if 0 <= id.0 && (id.0 as u64) < (self.persons.len() as u64)
                            && self.persons[id.0 as usize].local {
                            Lookup::Found(Entity::Person(id))
                        } else {
                            Lookup::Absent
                        }
                    },
                    ActorLocalRef::Community(id) => {
                        if 0 <= id.0 && (id.0 as u64) < (self.communities.len() as u64)
                            && self.communities[id.0 as usize].local {
                            Lookup::Found(Entity::Community(id))
                        } else {
                            Lookup::Absent
                        }
                    },
                }
            },
            None => match parse_local_thing(url, host_url_apub) {
                Some(thing) => {
                    proof {
                        let t = choose|t: ThingLocalRef| url@ == thing_apub_id(base, t);
                        lemma_thing_apub_id_injective(base, t, thing);
                    }
                    match thing {
                        ThingLocalRef::Post(id) => {
                            if 0 <= id.0 && (id.0 as u64) < (self.posts.len() as u64)
                                && self.posts[id.0 as usize].local {
                                assert(self@.posts[id.0 as int] == self.posts@[id.0 as int]@);
                                Lookup::Found(Entity::Post(id))
                            } else {
                                proof {
                                    if 0 <= id.0 < self.posts.len() {
                                        assert(self@.posts[id.0 as int] == self.posts@[id.0
                                            as int]@);
                                    }
                                }
                                Lookup::Absent
                            }
                        },
                        ThingLocalRef::Comment(id) => {
                            if 0 <= id.0 && (id.0 as u64) < (self.replies.len() as u64)
                                && self.replies[id.0 as usize].local {
                                assert(self@.replies[id.0 as int] == self.replies@[id.0 as int]@);
                                Lookup::Found(Entity::Comment(id))
                            } else {
                                proof {
                                    if 0 <= id.0 < self.replies.len() {
                                        assert(self@.replies[id.0 as int] == self.replies@[id.0
                                            as int]@);
                                    }
                                }
                                Lookup::Absent
                            }
                        },
                    }
                },
                None => match self.address_index(url) {
                    Some(i) => {
                        assert(self@.addresses[i as int] == self.addresses@[i as int]@);
                        Lookup::Found(self.addresses[i].target)
                    },
                    None => {
                        proof {
                            assert forall|i: int| 0 <= i < self@.addresses.len() implies (
                            #[trigger] self@.addresses[i]).ap_id != url@ by {
                                if self@.addresses[i].ap_id == url@ {
                                    lemma_some_address(self@.addresses, url@, i);
                                }
                            }
                        }
                        Lookup::Unknown
                    },
                },
            },
        }
    }

    /// Whether the store holds the entity.
    pub fn holds(&self, e: Entity) -> (r: bool)
        ensures
            r == self@.holds(e),
    {
        match e {
            Entity::Person(id) => 0 <= id.0 && (id.0 as u64) < (self.persons.len() as u64),
            Entity::Community(id) => 0 <= id.0 && (id.0 as u64) < (self.communities.len() as u64),
            Entity::Post(id) => 0 <= id.0 && (id.0 as u64) < (self.posts.len() as u64),
            Entity::Comment(id) => 0 <= id.0 && (id.0 as u64) < (self.replies.len() as u64),
        }
    }

    fn posts_fit(&self) -> (r: bool)
        ensures
            r == (forall|i: int|
                0 <= i < self@.posts.len() ==> {
                    &&& self@.holds(Entity::Community((#[trigger] self@.posts[i]).community))
                    &&& self@.posts[i].author matches Some(a) ==> self@.holds(Entity::Person(a))
                }),
    {
        let mut i: usize = 0;
        while i < self.posts.len()
            invariant
                i <= self.posts.len(),
                forall|j: int|
                    0 <= j < i ==> {
                        &&& self@.holds(Entity::Community((#[trigger] self@.posts[j]).community))
                        &&& self@.posts[j].author matches Some(a) ==> self@.holds(
                            Entity::Person(a),
                        )
                    },
            decreases self.posts.len() - i,
        {
            assert(self@.posts[i as int] == self.posts@[i as int]@);
            let author_held = match self.posts[i].author {
                Some(a) => self.holds(Entity::Person(a)),
                None => true,
            };
            if !self.holds(Entity::Community(self.posts[i].community)) || !author_held {
                return false;
            }
            i = i + 1;
        }
        true
    }

    fn replies_fit(&self) -> (r: bool)
        ensures
            r == (forall|i: int|
                0 <= i < self@.replies.len() ==> {
                    &&& self@.holds(Entity::Post((#[trigger] self@.replies[i]).post))
                    &&& self@.replies[i].author matches Some(a) ==> self@.holds(Entity::Person(a))
                    &&& self@.replies[i].parent matches Some(p) ==> 0 <= p.0 < i
                        && self@.replies[p.0 as int].post == self@.replies[i].post
                }),
    {
        let mut i: usize = 0;
        while i < self.replies.len()
            invariant
                i <= self.replies.len(),
                forall|j: int|
                    0 <= j < i ==> {
                        &&& self@.holds(Entity::Post((#[trigger] self@.replies[j]).post))
                        &&& self@.replies[j].author matches Some(a) ==> self@.holds(
                            Entity::Person(a),
                        )
                        &&& self@.replies[j].parent matches Some(p) ==> 0 <= p.0 < j
                            && self@.replies[p.0 as int].post == self@.replies[j].post
                    },
            decreases self.replies.len() - i,
        {
            assert(self@.replies[i as int] == self.replies@[i as int]@);
            let author_held = match self.replies[i].author {
                Some(a) => self.holds(Entity::Person(a)),
                None => true,
            };
            let parent_fits = match self.replies[i].parent {
                Some(p) => {
                    if 0 <= p.0 && (p.0 as u64) < (i as u64) {
                        assert(self@.replies[p.0 as int] == self.replies@[p.0 as int]@);
                        self.replies[p.0 as usize].post.0 == self.replies[i].post.0
                    } else {
                        false
                    }
                },
                None => true,
            };
            if !self.holds(Entity::Post(self.replies[i].post)) || !author_held || !parent_fits {
                return false;
            }
            i = i + 1;
        }
        true
    }

    fn addresses_fit(&self) -> (r: bool)
        ensures
            r == (forall|i: int|
                0 <= i < self@.addresses.len() ==> self@.holds(
                    (#[trigger] self@.addresses[i]).target,
                )),
    {
        let mut i: usize = 0;
        while i < self.addresses.len()
            invariant
                i <= self.addresses.len(),
                forall|j: int|
                    0 <= j < i ==> self@.holds((#[trigger] self@.addresses[j]).target),
            decreases self.addresses.len() - i,
        {
            assert(self@.addresses[i as int] == self.addresses@[i as int]@);
            if !self.holds(self.addresses[i].target) {
                return false;
            }
            i = i + 1;
        }
        true
    }

    fn addresses_differ(&self) -> (r: bool)
        ensures
            r == (forall|i: int, j: int|
                0 <= i < j < self@.addresses.len() ==> (#[trigger] self@.addresses[i]).ap_id != (
                #[trigger] self@.addresses[j]).ap_id),
    {
        let mut j: usize = 0;
        while j < self.addresses.len()
            invariant
                j <= self.addresses.len(),
                forall|a: int, b: int|
                    0 <= a < b < j ==> (#[trigger] self@.addresses[a]).ap_id != (
                    #[trigger] self@.addresses[b]).ap_id,
            decreases self.addresses.len() - j,
        {
            let mut i: usize = 0;
            while i < j
                invariant
                    i <= j,
                    j < self.addresses.len(),
                    forall|a: int|
                        0 <= a < i ==> (#[trigger] self@.addresses[a]).ap_id
                            != self@.addresses[j as int].ap_id,
                decreases j - i,
            {
                assert(self@.addresses[i as int] == self.addresses@[i as int]@);
                assert(self@.addresses[j as int] == self.addresses@[j as int]@);
                if str_eq(self.addresses[i].ap_id.as_str(), self.addresses[j].ap_id.as_str()) {
                    return false;
                }
                i = i + 1;
            }
            j = j + 1;
        }
        true
    }

    fn follows_fit(&self) -> (r: bool)
        ensures
            r == (forall|i: int|
                0 <= i < self@.follows.len() ==> self@.holds(
                    Entity::Community((#[trigger] self@.follows[i]).community),
                ) && self@.holds(Entity::Person(self@.follows[i].follower))),
    {
        let mut i: usize = 0;
        while i < self.follows.len()
            invariant
                i <= self.follows.len(),
                forall|j: int|
                    0 <= j < i ==> self@.holds(
                        Entity::Community((#[trigger] self@.follows[j]).community),
                    ) && self@.holds(Entity::Person(self@.follows[j].follower)),
            decreases self.follows.len() - i,
        {
            assert(self@.follows[i as int] == self.follows@[i as int]);
            if !self.holds(Entity::Community(self.follows[i].community)) || !self.holds(
                Entity::Person(self.follows[i].follower),
            ) {
                return false;
            }
            i = i + 1;
        }
        true
    }

    fn follows_differ(&self) -> (r: bool)
        ensures
            r == (forall|i: int, j: int|
                0 <= i < j < self@.follows.len() ==> !same_follow(
                    #[trigger] self@.follows[i],
                    #[trigger] self@.follows[j],
                )),
    {
        let mut j: usize = 0;
        while j < self.follows.len()
            invariant
                j <= self.follows.len(),
                forall|a: int, b: int|
                    0 <= a < b < j ==> !same_follow(
                        #[trigger] self@.follows[a],
                        #[trigger] self@.follows[b],
                    ),
            decreases self.follows.len() - j,
        {
            let mut i: usize = 0;
            while i < j
                invariant
                    i <= j,
                    j < self.follows.len(),
                    forall|a: int|
                        0 <= a < i ==> !same_follow(
                            #[trigger] self@.follows[a],
                            self@.follows[j as int],
                        ),
                decreases j - i,
            {
                if self.follows[i].community.0 == self.follows[j].community.0
                    && self.follows[i].follower.0 == self.follows[j].follower.0 {
                    assert(same_follow(self@.follows[i as int], self@.follows[j as int]));
                    return false;
                }
                i = i + 1;
            }
            j = j + 1;
        }
        true
    }

    fn likes_fit(&self) -> (r: bool)
        ensures
            r == (forall|i: int|
                0 <= i < self@.likes.len() ==> self@.holds_thing((#[trigger] self@.likes[i]).target)
                    && self@.holds(Entity::Person(self@.likes[i].person))),
    {
        let mut i: usize = 0;
        while i < self.likes.len()
            invariant
                i <= self.likes.len(),
                forall|j: int|
                    0 <= j < i ==> self@.holds_thing((#[trigger] self@.likes[j]).target)
                        && self@.holds(Entity::Person(self@.likes[j].person)),
            decreases self.likes.len() - i,
        {
            let target_held = match self.likes[i].target {
                ThingLocalRef::Post(id) => self.holds(Entity::Post(id)),
                ThingLocalRef::Comment(id) => self.holds(Entity::Comment(id)),
            };
            if !target_held || !self.holds(Entity::Person(self.likes[i].person)) {
                return false;
            }
            i = i + 1;
        }
        true
    }

    fn likes_differ(&self) -> (r: bool)
        ensures
            r == (forall|i: int, j: int|
                0 <= i < j < self@.likes.len() ==> #[trigger] self@.likes[i]
                    != #[trigger] self@.likes[j]),
    {
        let mut j: usize = 0;
        while j < self.likes.len()
            invariant
                j <= self.likes.len(),
                forall|a: int, b: int|
                    0 <= a < b < j ==> #[trigger] self@.likes[a] != #[trigger] self@.likes[b],
            decreases self.likes.len() - j,
        {
            let mut i: usize = 0;
            while i < j
                invariant
                    i <= j,
                    j < self.likes.len(),
                    forall|a: int| 0 <= a < i ==> #[trigger] self@.likes[a] != self@.likes[j as int],
                decreases j - i,
            {
                let same_target = match (self.likes[i].target, self.likes[j].target) {
                    (ThingLocalRef::Post(a), ThingLocalRef::Post(b)) => a.0 == b.0,
                    (ThingLocalRef::Comment(a), ThingLocalRef::Comment(b)) => a.0 == b.0,
                    _ => false,
                };
                if same_target && self.likes[i].person.0 == self.likes[j].person.0 {
                    assert(self@.likes[i as int] == self@.likes[j as int]);
                    return false;
                }
                i = i + 1;
            }
            j = j + 1;
        }
        true
    }

    /// Whether the store is well formed. Rows that were put together by
    /// hand, as when the store is read from disk, are checked with this
    /// before anything else is done with them.
    pub fn is_wf(&self) -> (r: bool)
        ensures
            r == self@.wf(),
    {
        (self.persons.len() as u64) <= (i64::MAX as u64) && (self.communities.len() as u64) <= (
        i64::MAX as u64) && (self.posts.len() as u64) <= (i64::MAX as u64) && (
        self.replies.len() as u64) <= (i64::MAX as u64) && self.posts_fit() && self.replies_fit()
            && self.addresses_fit() && self.addresses_differ() && self.follows_fit()
            && self.follows_differ() && self.likes_fit() && self.likes_differ()
    }

    /// Adds a post and returns its key. A post whose community or author
    /// the store does not hold is not added.
    pub fn add_post(&mut self, row: PostRow) -> (r: Option<PostLocalID>)
        requires
            old(self)@.wf(),
            old(self)@.posts.len() < i64::MAX,
        ensures
            final(self)@.wf(),
            match r {
                Some(id) => old(self)@.admits_post(row@) && id.0 == old(self)@.posts.len()
                    && final(self)@ == (StoreView {
                    posts: old(self)@.posts.push(row@),
                    ..old(self)@
                }),
                None => !old(self)@.admits_post(row@) && final(self)@ == old(self)@,
            },
    {
        let author_held = match row.author {
            Some(a) => self.holds(Entity::Person(a)),
            None => true,
        };
        if !self.holds(Entity::Community(row.community)) || !author_held {
            return None;
        }
        let ghost before = self@;
        let id = PostLocalID(self.posts.len() as i64);
        self.posts.push(row);
        proof {
            assert(self@.posts =~= before.posts.push(row@));
        }
        Some(id)
    }

    /// Adds a comment and returns its key. A comment whose post, author or
    /// parent the store does not hold, or whose parent belongs to another
    /// post, is not added.
    pub fn add_reply(&mut self, row: ReplyRow) -> (r: Option<CommentLocalID>)
        requires
            old(self)@.wf(),
            old(self)@.replies.len() < i64::MAX,
        ensures
            final(self)@.wf(),
            match r {
                Some(id) => old(self)@.admits_reply(row@) && id.0 == old(self)@.replies.len()
                    && final(self)@ == (StoreView {
                    replies: old(self)@.replies.push(row@),
                    ..old(self)@
                }),
                None => !old(self)@.admits_reply(row@) && final(self)@ == old(self)@,
            },
    {
        let author_held = match row.author {
            Some(a) => self.holds(Entity::Person(a)),
            None => true,
        };
        let parent_fits = match row.parent {
            Some(p) => {
                if 0 <= p.0 && (p.0 as u64) < (self.replies.len() as u64) {
                    assert(self@.replies[p.0 as int] == self.replies@[p.0 as int]@);
                    self.replies[p.0 as usize].post.0 == row.post.0
                } else {
                    false
                }
            },
            None => true,
        };
        if !self.holds(Entity::Post(row.post)) || !author_held || !parent_fits {
            return None;
        }
        let ghost before = self@;
        let id = CommentLocalID(self.replies.len() as i64);
        self.replies.push(row);
        proof {
            assert(self@.replies =~= before.replies.push(row@));
        }
        Some(id)
    }

    /// Adds a post under a key that was given out elsewhere. The keys
    /// between the last post and `key` are filled with rows that stand for
    /// nothing: deleted remote posts of nobody, in the same community. The
    /// post is not added, and nothing changes, where `key` is taken or the
    /// store does not hold the post's community or author.
    pub fn add_post_under(&mut self, key: PostLocalID, row: PostRow) -> (r: bool)
        requires
            old(self)@.wf(),
            key.0 < i64::MAX,
        ensures
            final(self)@.wf(),
            r == (old(self)@.posts.len() <= key.0 && old(self)@.admits_post(row@)),
            final(self)@ == if r {
                StoreView {
                    posts: (old(self)@.posts + Seq::new(
                        (key.0 - old(self)@.posts.len()) as nat,
                        |i: int| gap_post(row.community),
                    )).push(row@),
                    ..old(self)@
                }
            } else {
                old(self)@
            },
    {
        let author_held = match row.author {
            Some(a) => self.holds(Entity::Person(a)),
            None => true,
        };
        if key.0 < 0 || (self.posts.len() as u64) > (key.0 as u64) || !self.holds(
            Entity::Community(row.community),
        ) || !author_held {
            return false;
        }
        let ghost before = self@;
        let ghost start = self@.posts.len();
        assert(before.posts + Seq::new(0nat, |i: int| gap_post(row.community)) =~= before.posts);
        while (self.posts.len() as u64) < (key.0 as u64)
            invariant
                self@.wf(),
                start <= self@.posts.len() <= key.0 < i64::MAX,
                self@.posts.len() == self.posts.len(),
                self@ == (StoreView {
                    posts: before.posts + Seq::new(
                        (self@.posts.len() - start) as nat,
                        |i: int| gap_post(row.community),
                    ),
                    ..before
                }),
                before.admits_post(row@),
            decreases key.0 - self.posts.len(),
        {
            let gap = PostRow {
                author: None,
                community: row.community,
                local: false,
                title: None,
                href: None,
                content_text: None,
                deleted: true,
            };
            let added = self.add_post(gap);
            assert(added is Some);
            assert(self@.posts =~= before.posts + Seq::new(
                (self@.posts.len() - start) as nat,
                |i: int| gap_post(row.community),
            ));
        }
        let added = self.add_post(row);
        assert(added is Some);
        true
    }

    /// Adds a comment under a key that was given out elsewhere. The keys
    /// between the last comment and `key` are filled with rows that stand
    /// for nothing: deleted remote comments of nobody, on the same post. The
    /// comment is not added, and nothing changes, where `key` is taken or the
    /// store does not admit the comment.
    pub fn add_reply_under(&mut self, key: CommentLocalID, row: ReplyRow) -> (r: bool)
        requires
            old(self)@.wf(),
            key.0 < i64::MAX,
        ensures
            final(self)@.wf(),
            r == (old(self)@.replies.len() <= key.0 && old(self)@.admits_reply(row@)),
            final(self)@ == if r {
                StoreView {
                    replies: (old(self)@.replies + Seq::new(
                        (key.0 - old(self)@.replies.len()) as nat,
                        |i: int| gap_reply(row.post),
                    )).push(row@),
                    ..old(self)@
                }
            } else {
                old(self)@
            },
    {
        let author_held = match row.author {
            Some(a) => self.holds(Entity::Person(a)),
            None => true,
        };
        let parent_fits = match row.parent {
            Some(p) => {
                if 0 <= p.0 && (p.0 as u64) < (self.replies.len() as u64) {
                    assert(self@.replies[p.0 as int] == self.replies@[p.0 as int]@);
                    self.replies[p.0 as usize].post.0 == row.post.0
                } else {
                    false
                }
            },
            None => true,
        };
        if key.0 < 0 || (self.replies.len() as u64) > (key.0 as u64) || !self.holds(
            Entity::Post(row.post),
        ) || !author_held || !parent_fits {
            return false;
        }
        let ghost before = self@;
        let ghost start = self@.replies.len();
        assert(before.replies + Seq::new(0nat, |i: int| gap_reply(row.post)) =~= before.replies);
        while (self.replies.len() as u64) < (key.0 as u64)
            invariant
                self@.wf(),
                start <= self@.replies.len() <= key.0 < i64::MAX,
                self@.replies.len() == self.replies.len(),
                self@ == (StoreView {
                    replies: before.replies + Seq::new(
                        (self@.replies.len() - start) as nat,
                        |i: int| gap_reply(row.post),
                    ),
                    ..before
                }),
                before.admits_reply(row@),
            decreases key.0 - self.replies.len(),
        {
            let gap = ReplyRow {
                post: row.post,
                parent: None,
                author: None,
                local: false,
                content_text: None,
                deleted: true,
            };
            let added = self.add_reply(gap);
            assert(added is Some);
            assert(self@.replies =~= before.replies + Seq::new(
                (self@.replies.len() - start) as nat,
                |i: int| gap_reply(row.post),
            ));
        }
        assert(self@.admits_reply(row@)) by {
            if row@.parent is Some {
                let p = row@.parent->0;
                assert(self@.replies[p.0 as int] == before.replies[p.0 as int]);
            }
        }
        let added = self.add_reply(row);
        assert(added is Some);
        true
    }

    /// Adds a person and returns the key.
    pub fn add_person(&mut self, local: bool) -> (id: UserLocalID)
        requires
            old(self)@.wf(),
            old(self)@.persons.len() < i64::MAX,
        ensures
            final(self)@ == (StoreView {
                persons: old(self)@.persons.push(PersonRow { local }),
                ..old(self)@
            }),
            id.0 == old(self)@.persons.len(),
            final(self)@.wf(),
    {
        let id = UserLocalID(self.persons.len() as i64);
        self.persons.push(PersonRow { local });
        id
    }

    /// Adds a community and returns the key.
    pub fn add_community(&mut self, local: bool) -> (id: CommunityLocalID)
        requires
            old(self)@.wf(),
            old(self)@.communities.len() < i64::MAX,
        ensures
            final(self)@ == (StoreView {
                communities: old(self)@.communities.push(CommunityRow { local }),
                ..old(self)@
            }),
            id.0 == old(self)@.communities.len(),
            final(self)@.wf(),
    {
        let id = CommunityLocalID(self.communities.len() as i64);
        self.communities.push(CommunityRow { local });
        id
    }

    /// Records the address of a remote entity. Nothing changes, and `false`
    /// is returned, unless the address is unknown so far and the store holds
    /// the entity.
    pub fn record_address(&mut self, ap_id: &str, target: Entity, host_url_apub: &str) -> (r:
        bool)
        requires
            old(self)@.wf(),
        ensures
            final(self)@.wf(),
            r == (lookup(old(self)@, ap_id@, host_url_apub@) is Unknown && old(self)@.holds(
                target,
            )),
            r ==> final(self)@ == (StoreView {
                addresses: old(self)@.addresses.push(AddressView { ap_id: ap_id@, target }),
                ..old(self)@
            }),
            !r ==> final(self)@ == old(self)@,
    {
        if !self.holds(target) {
            return false;
        }
        match self.lookup(ap_id, host_url_apub) {
            Lookup::Unknown => {
                let ghost before = self@.addresses;
                self.addresses.push(Address { ap_id: ap_id.to_owned(), target });
                assert(self@.addresses =~= before.push(AddressView { ap_id: ap_id@, target }));
                true
            },
            _ => false,
        }
    }
}

/// The first record of an address stands at one place only.
pub proof fn lemma_address_at_one_place(
    addresses: Seq<AddressView>,
    ap_id: Seq<char>,
    i: int,
    j: int,
)
    requires
        address_at(addresses, ap_id, i),
        address_at(addresses, ap_id, j),
    ensures
        i == j,
{
    if i < j {
        assert(addresses[i].ap_id != ap_id);
    } else if j < i {
        assert(addresses[j].ap_id != ap_id);
    }
}

/// An address that was just recorded, and was unknown before, names what it
/// was recorded for.
pub proof fn lemma_recorded_address_is_found(
    s: StoreView,
    after: StoreView,
    url: Seq<char>,
    target: Entity,
    base: Seq<char>,
)
    requires
        lookup(s, url, base) is Unknown,
        after.addresses == s.addresses.push(AddressView { ap_id: url, target }),
    ensures
        lookup(after, url, base) == Lookup::Found(target),
{
    let n = s.addresses.len() as int;
    assert forall|j: int| 0 <= j < n implies s.addresses[j].ap_id != url by {
        if s.addresses[j].ap_id == url {
            lemma_some_address(s.addresses, url, j);
        }
    }
    assert(address_at(after.addresses, url, n));
    let k = choose|k: int| address_at(after.addresses, url, k);
    lemma_address_at_one_place(after.addresses, url, k, n);
}

/// What an address names does not change when another address is recorded
/// and remote posts or comments are added: as long as persons and
/// communities stay as they are and every local post and comment stays one.
pub proof fn lemma_other_addresses_keep(
    s: StoreView,
    after: StoreView,
    other: Seq<char>,
    url: Seq<char>,
    target: Entity,
    base: Seq<char>,
)
    requires
        other != url,
        after.persons == s.persons,
        after.communities == s.communities,
        after.addresses == s.addresses.push(AddressView { ap_id: url, target }),
        forall|id: PostLocalID|
            (after.holds(Entity::Post(id)) && after.posts[id.0 as int].local) == (s.holds(
                Entity::Post(id),
            ) && s.posts[id.0 as int].local),
        forall|id: CommentLocalID|
            (after.holds(Entity::Comment(id)) && after.replies[id.0 as int].local) == (s.holds(
                Entity::Comment(id),
            ) && s.replies[id.0 as int].local),
    ensures
        lookup(after, other, base) == lookup(s, other, base),
{
    let n = s.addresses.len() as int;
    if exists|i: int| address_at(s.addresses, other, i) {
        let i = choose|i: int| address_at(s.addresses, other, i);
        assert(address_at(after.addresses, other, i)) by {
            assert forall|j: int| 0 <= j < i implies after.addresses[j].ap_id != other by {
                assert(after.addresses[j] == s.addresses[j]);
            }
            assert(after.addresses[i] == s.addresses[i]);
        }
        let k = choose|k: int| address_at(after.addresses, other, k);
        lemma_address_at_one_place(after.addresses, other, k, i);
    } else {
        if exists|k: int| address_at(after.addresses, other, k) {
            let k = choose|k: int| address_at(after.addresses, other, k);
            if k < n {
                assert(after.addresses[k] == s.addresses[k]);
                lemma_some_address(s.addresses, other, k);
                assert(false);
            }
        }
    }
    assert(find_address(after.addresses, other) == find_address(s.addresses, other));
    if find_address(s.addresses, other) is Some {
        let i = find_address(s.addresses, other)->0;
        assert(address_at(s.addresses, other, i));
        assert(after.addresses[i] == s.addresses[i]);
    }
}

/// An address that is recorded somewhere is found.
pub proof fn lemma_some_address(addresses: Seq<AddressView>, ap_id: Seq<char>, i: int)
    requires
        0 <= i < addresses.len(),
        addresses[i].ap_id == ap_id,
    ensures
        find_address(addresses, ap_id) is Some,
    decreases i,
{
    if forall|j: int| 0 <= j < i ==> addresses[j].ap_id != ap_id {
        assert(address_at(addresses, ap_id, i));
    } else {
        let j = choose|j: int| 0 <= j < i && addresses[j].ap_id == ap_id;
        lemma_some_address(addresses, ap_id, j);
    }
}

} // verus!

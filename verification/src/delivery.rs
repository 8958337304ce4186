//! Outbound deliveries: the tasks that carry an activity to remote inboxes,
//! the inboxes a vote or a deletion is sent to, and the expansion of a
//! delivery to a community's followers.

use crate::host::{get_url_host, url_host};
use crate::ids::{ActorLocalRef, CommunityLocalID, UserLocalID};
use crate::text::{clone_text, str_eq, text_of};
use vstd::prelude::*;
use vstd::string::StringSliceAdditionalSpecFns;

verus! {

/// The longest body, in bytes, that a delivery sends.
pub const MAX_DELIVERY_BYTES: usize = 1048576;

/// How often a task is tried before it is given up, unless the task says
/// otherwise.
pub const DEFAULT_MAX_ATTEMPTS: i32 = 8;

/// A unit of outbound work.
#[derive(Debug, Clone, PartialEq, Eq)]
pub enum Task {
    /// Post `object` to `inbox`, signed as `sign_as`.
    DeliverToInbox { inbox: String, sign_as: Option<ActorLocalRef>, object: String },
    /// Post `object` to every follower of `community`, signed as the
    /// community.
    DeliverToFollowers { community: CommunityLocalID, object: String },
    /// Fetch the object at `url` ahead of need.
    Fetch { url: String, reason: String },
}

/// `Task` with its strings as sequences of characters.
pub enum TaskView {
    DeliverToInbox { inbox: Seq<char>, sign_as: Option<ActorLocalRef>, object: Seq<char> },
    DeliverToFollowers { community: CommunityLocalID, object: Seq<char> },
    Fetch { url: Seq<char>, reason: Seq<char> },
}

impl View for Task {
    type V = TaskView;

    open spec fn view(&self) -> TaskView {
        match *self {
            Task::DeliverToInbox { inbox, sign_as, object } => TaskView::DeliverToInbox {
                inbox: inbox@,
                sign_as,
                object: object@,
            },
            Task::DeliverToFollowers { community, object } => TaskView::DeliverToFollowers {
                community,
                object: object@,
            },
            Task::Fetch { url, reason } => TaskView::Fetch { url: url@, reason: reason@ },
        }
    }
}

/// The views of a list of tasks.
pub open spec fn task_views(tasks: Seq<Task>) -> Seq<TaskView> {
    tasks.map_values(|t: Task| t@)
}

impl Task {
    /// The name under which the queue files a task of this kind.
    pub open spec fn kind_name(self) -> Seq<char> {
        match self {
            Task::DeliverToInbox { .. } => "deliver_to_inbox"@,
            Task::DeliverToFollowers { .. } => "deliver_to_followers"@,
            Task::Fetch { .. } => "fetch"@,
        }
    }

    /// The name under which the queue files a task of this kind.
    pub fn kind(&self) -> (r: &'static str)
        ensures
            r@ == self.kind_name(),
    {
        match self {
            Task::DeliverToInbox { .. } => "deliver_to_inbox",
            Task::DeliverToFollowers { .. } => "deliver_to_followers",
            Task::Fetch { .. } => "fetch",
        }
    }

    /// How often a task of this kind is tried.
    pub fn max_attempts(&self) -> (r: i32)
        ensures
            r == DEFAULT_MAX_ATTEMPTS,
    {
        DEFAULT_MAX_ATTEMPTS
    }

    /// The body that a task sends: the activity of a delivery, nothing for a
    /// fetch.
    pub open spec fn body(self) -> Seq<char> {
        match self {
            Task::DeliverToInbox { object, .. } => object@,
            Task::DeliverToFollowers { object, .. } => object@,
            Task::Fetch { .. } => Seq::empty(),
        }
    }

    /// Whether the body of the task may be sent: it has at most 1 MiB. A
    /// task with a longer body is dropped without an attempt.
    pub fn within_limit(&self) -> (r: bool)
        ensures
            r == (vstd::utf8::encode_utf8(self.body()).len() <= MAX_DELIVERY_BYTES),
    {
        match self {
            Task::DeliverToInbox { object, .. } => object.as_str().as_bytes().len()
                <= MAX_DELIVERY_BYTES,
            Task::DeliverToFollowers { object, .. } => object.as_str().as_bytes().len()
                <= MAX_DELIVERY_BYTES,
            Task::Fetch { .. } => {
                proof {
                    reveal_strlit("");
                    assert(""@ =~= Seq::<char>::empty());
                    vstd::string::is_ascii_spec_bytes("");
                }
                true
            },
        }
    }
}

/// What the store holds of the target of a vote: whether the post or comment
/// is local, the inbox of its author, and the community it sits in with that
/// community's inbox. An inbox is the shared one where the actor has one.
#[derive(Debug, Clone)]
pub struct VoteTargetRow {
    pub target_local: bool,
    pub author_inbox: Option<String>,
    pub community: Option<CommunityLocalID>,
    pub community_local: Option<bool>,
    pub community_inbox: Option<String>,
}

/// The inbox of the author of a remote target.
pub open spec fn vote_author_inbox(row: VoteTargetRow) -> Option<Seq<char>> {
    if !row.target_local {
        text_of(row.author_inbox)
    } else {
        None
    }
}

/// The inbox of the community of the target, where that community is remote.
pub open spec fn vote_community_inbox(row: VoteTargetRow) -> Option<Seq<char>> {
    if row.community_local == Some(false) {
        text_of(row.community_inbox)
    } else {
        None
    }
}

/// The inboxes that a vote is sent to directly: the author's for a remote
/// target and the community's for a remote community, once where both are
/// the same.
pub open spec fn vote_inboxes(row: VoteTargetRow) -> Seq<Seq<char>> {
    match (vote_author_inbox(row), vote_community_inbox(row)) {
        (Some(a), Some(c)) => if a == c {
            seq![a]
        } else {
            seq![a, c]
        },
        (Some(a), None) => seq![a],
        (None, Some(c)) => seq![c],
        (None, None) => Seq::empty(),
    }
}

/// The community whose followers a vote is passed on to: the target's
/// community, where it is local.
pub open spec fn vote_forward(row: VoteTargetRow) -> Option<CommunityLocalID> {
    if row.community_local == Some(true) {
        row.community
    } else {
        None
    }
}

/// The tasks that carry the vote of `user`, written out in `body`, to where
/// it belongs: one delivery for each inbox of `vote_inboxes`, signed as the
/// user, then the delivery to the followers of a local community.
pub open spec fn vote_tasks(row: VoteTargetRow, user: UserLocalID, body: Seq<char>) -> Seq<
    TaskView,
> {
    vote_inboxes(row).map_values(
        |inbox: Seq<char>|
            TaskView::DeliverToInbox {
                inbox,
                sign_as: Some(ActorLocalRef::Person(user)),
                object: body,
            },
    ) + match vote_forward(row) {
        Some(community) => seq![TaskView::DeliverToFollowers { community, object: body }],
        None => Seq::empty(),
    }
}

/// The deliveries for a like, or for the undoing of one, by the local user
/// `user`. `body` is the activity, written out.
pub fn vote_deliveries(row: &VoteTargetRow, user: UserLocalID, body: &str) -> (tasks: Vec<Task>)
    ensures
        task_views(tasks@) == vote_tasks(*row, user, body@),
{
    let mut tasks: Vec<Task> = Vec::new();
    let sign_as = Some(ActorLocalRef::Person(user));
    let author: Option<String> = if !row.target_local {
        clone_text(&row.author_inbox)
    } else {
        None
    };
    let community: Option<String> = match row.community_local {
        Some(false) => clone_text(&row.community_inbox),
        _ => None,
    };
    match (author, community) {
        (Some(a), Some(c)) => {
            let same = str_eq(a.as_str(), c.as_str());
            tasks.push(Task::DeliverToInbox { inbox: a, sign_as, object: body.to_owned() });
            if !same {
                tasks.push(Task::DeliverToInbox { inbox: c, sign_as, object: body.to_owned() });
            }
        },
        (Some(a), None) => {
            tasks.push(Task::DeliverToInbox { inbox: a, sign_as, object: body.to_owned() });
        },
        (None, Some(c)) => {
            tasks.push(Task::DeliverToInbox { inbox: c, sign_as, object: body.to_owned() });
        },
        (None, None) => {},
    }
    match row.community_local {
        Some(true) => match row.community {
            Some(community) => {
                tasks.push(Task::DeliverToFollowers { community, object: body.to_owned() });
            },
            None => {},
        },
        _ => {},
    }
    assert(task_views(tasks@) =~= vote_tasks(*row, user, body@));
    tasks
}

/// What the store holds of the community that a deleted post or comment sat
/// in.
#[derive(Debug, Clone)]
pub struct DeleteCommunityRow {
    pub community: CommunityLocalID,
    pub local: bool,
    pub inbox: Option<String>,
}

/// The task that tells of a deletion by `user`: to the followers of a local
/// community, to the inbox of a remote one, and none where the content had no
/// community or the community no inbox.
pub open spec fn delete_task(row: Option<DeleteCommunityRow>, user: UserLocalID, body: Seq<char>)
    -> Option<TaskView> {
    match row {
        Some(row) => if row.local {
            Some(TaskView::DeliverToFollowers { community: row.community, object: body })
        } else {
            match row.inbox {
                Some(inbox) => Some(
                    TaskView::DeliverToInbox {
                        inbox: inbox@,
                        sign_as: Some(ActorLocalRef::Person(user)),
                        object: body,
                    },
                ),
                None => None,
            }
        },
        None => None,
    }
}

/// The view of an optional task.
pub open spec fn task_view_of(task: Option<Task>) -> Option<TaskView> {
    match task {
        Some(t) => Some(t@),
        None => None,
    }
}

/// The delivery that tells of a deletion by the local user `user`. `body` is
/// the activity, written out.
pub fn delete_delivery(row: Option<&DeleteCommunityRow>, user: UserLocalID, body: &str) -> (task:
    Option<Task>)
    ensures
        task_view_of(task) == delete_task(
            match row {
                Some(r) => Some(*r),
                None => None,
            },
            user,
            body@,
        ),
{
    match row {
        Some(row) => {
            if row.local {
                Some(Task::DeliverToFollowers { community: row.community, object: body.to_owned() })
            } else {
                match &row.inbox {
                    Some(inbox) => Some(
                        Task::DeliverToInbox {
                            inbox: inbox.clone(),
                            sign_as: Some(ActorLocalRef::Person(user)),
                            object: body.to_owned(),
                        },
                    ),
                    None => None,
                }
            }
        },
        None => None,
    }
}

/// Where a follower receives activities.
#[derive(Debug, Clone)]
pub struct FollowerInbox {
    pub inbox: Option<String>,
    pub shared_inbox: Option<String>,
}

/// The inbox that a delivery to a follower goes to: the shared inbox of the
/// follower's host where there is one, else the follower's own. A local
/// follower has neither.
pub open spec fn coalesced_inbox(follower: FollowerInbox) -> Option<Seq<char>> {
    match follower.shared_inbox {
        Some(shared) => Some(shared@),
        None => text_of(follower.inbox),
    }
}

/// Whether a delivery to `inbox` is left out because the inbox is on the
/// host that the activity came from.
pub open spec fn on_sender_host(inbox: Seq<char>, sender_host: Option<Seq<char>>) -> bool {
    sender_host is Some && url_host(inbox) == sender_host
}

/// The inboxes that a delivery to followers goes to, in the order of the
/// followers: each coalesced inbox once, without those on the sender's host.
pub open spec fn fanout_inboxes(followers: Seq<FollowerInbox>, sender_host: Option<Seq<char>>)
    -> Seq<Seq<char>>
    decreases followers.len(),
{
    if followers.len() == 0 {
        Seq::empty()
    } else {
        let before = fanout_inboxes(followers.drop_last(), sender_host);
        match coalesced_inbox(followers.last()) {
            Some(inbox) => if before.contains(inbox) || on_sender_host(inbox, sender_host) {
                before
            } else {
                before.push(inbox)
            },
            None => before,
        }
    }
}

/// The characters of each string of a list.
pub open spec fn texts_of(v: Seq<String>) -> Seq<Seq<char>> {
    v.map_values(|s: String| s@)
}

/// Whether `v` holds a string with the characters of `s`.
pub(crate) fn holds(v: &Vec<String>, s: &str) -> (r: bool)
    ensures
        r == texts_of(v@).contains(s@),
{
    let mut i: usize = 0;
    while i < v.len()
        invariant
            i <= v.len(),
            forall|j: int| 0 <= j < i ==> texts_of(v@)[j] != s@,
        decreases v.len() - i,
    {
        if str_eq(v[i].as_str(), s) {
            assert(texts_of(v@)[i as int] == s@);
            return true;
        }
        i = i + 1;
    }
    false
}

/// The inboxes that a delivery to the given followers goes to: one for each
/// distinct coalesced inbox, so that a host with a shared inbox gets one copy;
/// inboxes on the host the activity came from are left out.
pub fn expand_followers(followers: &Vec<FollowerInbox>, sender_host: Option<&str>) -> (inboxes:
    Vec<String>)
    ensures
        texts_of(inboxes@) == fanout_inboxes(
            followers@,
            match sender_host {
                Some(h) => Some(h@),
                None => None,
            },
        ),
{
    let ghost host: Option<Seq<char>> = match sender_host {
        Some(h) => Some(h@),
        None => None,
    };
    let mut inboxes: Vec<String> = Vec::new();
    let mut i: usize = 0;
    assert(followers@.take(0) =~= Seq::<FollowerInbox>::empty());
    assert(texts_of(inboxes@) =~= Seq::<Seq<char>>::empty());
    while i < followers.len()
        invariant
            i <= followers.len(),
            host == match sender_host {
                Some(h) => Some(h@),
                None => None,
            },
            texts_of(inboxes@) == fanout_inboxes(followers@.take(i as int), host),
        decreases followers.len() - i,
    {
        let follower = &followers[i];
        proof {
            assert(followers@.take(i + 1).drop_last() =~= followers@.take(i as int));
            assert(followers@.take(i + 1).last() == followers@[i as int]);
        }
        let target: Option<String> = match &follower.shared_inbox {
            Some(shared) => Some(shared.clone()),
            None => clone_text(&follower.inbox),
        };
        match target {
            Some(inbox) => {
                let known = holds(&inboxes, inbox.as_str());
                let skipped = match sender_host {
                    Some(h) => match get_url_host(inbox.as_str()) {
                        Some(ih) => str_eq(ih.as_str(), h),
                        None => false,
                    },
                    None => false,
                };
                assert(skipped == on_sender_host(inbox@, host));
                if !known && !skipped {
                    let ghost before = texts_of(inboxes@);
                    inboxes.push(inbox);
                    assert(texts_of(inboxes@) =~= before.push(inbox@));
                }
            },
            None => {},
        }
        i = i + 1;
    }
    assert(followers@.take(followers.len() as int) =~= followers@);
    inboxes
}

/// The tasks that a delivery to a community's followers expands into: one
/// delivery per inbox of `fanout_inboxes`, signed as the community.
pub open spec fn fanout_tasks(
    community: CommunityLocalID,
    followers: Seq<FollowerInbox>,
    sender_host: Option<Seq<char>>,
    body: Seq<char>,
) -> Seq<TaskView> {
    fanout_inboxes(followers, sender_host).map_values(
        |inbox: Seq<char>|
            TaskView::DeliverToInbox {
                inbox,
                sign_as: Some(ActorLocalRef::Community(community)),
                object: body,
            },
    )
}

/// Expands a delivery to the followers of `community` into deliveries to
/// inboxes.
pub fn deliver_to_followers(
    community: CommunityLocalID,
    followers: &Vec<FollowerInbox>,
    sender_host: Option<&str>,
    body: &str,
) -> (tasks: Vec<Task>)
    ensures
        task_views(tasks@) == fanout_tasks(
            community,
            followers@,
            match sender_host {
                Some(h) => Some(h@),
                None => None,
            },
            body@,
        ),
{
    let inboxes = expand_followers(followers, sender_host);
    let mut tasks: Vec<Task> = Vec::new();
    let mut i: usize = 0;
    while i < inboxes.len()
        invariant
            i <= inboxes.len(),
            tasks.len() == i,
            forall|j: int|
                0 <= j < i ==> (#[trigger] tasks@[j])@ == (TaskView::DeliverToInbox {
                    inbox: inboxes@[j]@,
                    sign_as: Some(ActorLocalRef::Community(community)),
                    object: body@,
                }),
        decreases inboxes.len() - i,
    {
        tasks.push(
            Task::DeliverToInbox {
                inbox: inboxes[i].clone(),
                sign_as: Some(ActorLocalRef::Community(community)),
                object: body.to_owned(),
            },
        );
        i = i + 1;
    }
    assert(task_views(tasks@) =~= texts_of(inboxes@).map_values(
        |inbox: Seq<char>|
            TaskView::DeliverToInbox {
                inbox,
                sign_as: Some(ActorLocalRef::Community(community)),
                object: body@,
            },
    ));
    tasks
}

/// No inbox is delivered to twice.
pub proof fn lemma_fanout_no_duplicates(
    followers: Seq<FollowerInbox>,
    sender_host: Option<Seq<char>>,
)
    ensures
        fanout_inboxes(followers, sender_host).no_duplicates(),
    decreases followers.len(),
{
    if followers.len() > 0 {
        lemma_fanout_no_duplicates(followers.drop_last(), sender_host);
    }
}

/// An inbox is delivered to exactly when it is the coalesced inbox of some
/// follower and does not lie on the sender's host.
pub proof fn lemma_fanout_members(
    followers: Seq<FollowerInbox>,
    sender_host: Option<Seq<char>>,
    inbox: Seq<char>,
)
    ensures
        fanout_inboxes(followers, sender_host).contains(inbox) <==> (exists|i: int|
            0 <= i < followers.len() && coalesced_inbox(#[trigger] followers[i]) == Some(inbox))
            && !on_sender_host(inbox, sender_host),
    decreases followers.len(),
{
    if followers.len() > 0 {
        let front = followers.drop_last();
        lemma_fanout_members(front, sender_host, inbox);
        let before = fanout_inboxes(front, sender_host);
        let all = fanout_inboxes(followers, sender_host);
        if all.contains(inbox) {
            if before.contains(inbox) {
                let i = choose|i: int|
                    0 <= i < front.len() && coalesced_inbox(#[trigger] front[i]) == Some(inbox);
                assert(followers[i] == front[i]);
            } else {
                assert(all == before.push(inbox));
                assert(coalesced_inbox(followers[followers.len() - 1]) == Some(inbox));
            }
        }
        if (exists|i: int|
            0 <= i < followers.len() && coalesced_inbox(#[trigger] followers[i]) == Some(inbox))
            && !on_sender_host(inbox, sender_host) {
            let i = choose|i: int|
                0 <= i < followers.len() && coalesced_inbox(#[trigger] followers[i]) == Some(
                    inbox,
                );
            if i < front.len() {
                assert(front[i] == followers[i]);
                assert(before.contains(inbox));
                if all != before {
                    assert(all[all.len() - 1] == coalesced_inbox(followers.last())->0);
                    assert(all[before.index_of(inbox)] == inbox);
                }
            } else {
                if !before.contains(inbox) {
                    assert(all == before.push(inbox));
                    assert(all[all.len() - 1] == inbox);
                }
            }
        }
    }
}

/// The shared inboxes that the followers name.
pub open spec fn shared_inboxes(followers: Seq<FollowerInbox>) -> Set<Seq<char>>
    decreases followers.len(),
{
    if followers.len() == 0 {
        Set::empty()
    } else {
        let before = shared_inboxes(followers.drop_last());
        match followers.last().shared_inbox {
            Some(shared) => before.insert(shared@),
            None => before,
        }
    }
}

/// The number of followers that are reached at an inbox of their own.
pub open spec fn own_inbox_count(followers: Seq<FollowerInbox>) -> nat
    decreases followers.len(),
{
    if followers.len() == 0 {
        0
    } else {
        let before = own_inbox_count(followers.drop_last());
        if followers.last().shared_inbox is None && followers.last().inbox is Some {
            before + 1
        } else {
            before
        }
    }
}

/// Whether every follower that is reached at an inbox of its own is the only
/// one reached there.
pub open spec fn own_inboxes_apart(followers: Seq<FollowerInbox>) -> bool {
    forall|i: int, j: int|
        0 <= i < followers.len() && 0 <= j < followers.len() && i != j
            && followers[i].shared_inbox is None ==> coalesced_inbox(#[trigger] followers[i])
            is None || coalesced_inbox(followers[i]) != coalesced_inbox(#[trigger] followers[j])
}

proof fn lemma_shared_inboxes(followers: Seq<FollowerInbox>, inbox: Seq<char>)
    ensures
        shared_inboxes(followers).finite(),
        shared_inboxes(followers).contains(inbox) <==> exists|i: int|
            0 <= i < followers.len() && (#[trigger] followers[i]).shared_inbox is Some
                && followers[i].shared_inbox->0@ == inbox,
    decreases followers.len(),
{
    if followers.len() > 0 {
        let front = followers.drop_last();
        lemma_shared_inboxes(front, inbox);
        if shared_inboxes(followers).contains(inbox) {
            if shared_inboxes(front).contains(inbox) {
                let i = choose|i: int|
                    0 <= i < front.len() && (#[trigger] front[i]).shared_inbox is Some
                        && front[i].shared_inbox->0@ == inbox;
                assert(followers[i] == front[i]);
            } else {
                assert(followers[followers.len() - 1].shared_inbox is Some);
            }
        }
        if exists|i: int|
            0 <= i < followers.len() && (#[trigger] followers[i]).shared_inbox is Some
                && followers[i].shared_inbox->0@ == inbox {
            let i = choose|i: int|
                0 <= i < followers.len() && (#[trigger] followers[i]).shared_inbox is Some
                    && followers[i].shared_inbox->0@ == inbox;
            if i < front.len() {
                assert(front[i] == followers[i]);
            }
        }
    }
}

/// With nobody left out, and with every follower that has no shared inbox
/// alone at its own inbox, a delivery to followers goes to as many inboxes
/// as there are distinct shared inboxes plus followers with an inbox of their
/// own.
pub proof fn lemma_fanout_count(followers: Seq<FollowerInbox>)
    requires
        own_inboxes_apart(followers),
    ensures
        shared_inboxes(followers).finite(),
        fanout_inboxes(followers, None).len() == shared_inboxes(followers).len()
            + own_inbox_count(followers),
    decreases followers.len(),
{
    if followers.len() == 0 {
        return ;
    }
    let front = followers.drop_last();
    let last = followers.last();
    let n = followers.len() - 1;
    assert(own_inboxes_apart(front)) by {
        assert forall|i: int, j: int|
            0 <= i < front.len() && 0 <= j < front.len() && i != j
                && front[i].shared_inbox is None implies coalesced_inbox(#[trigger] front[i])
            is None || coalesced_inbox(front[i]) != coalesced_inbox(#[trigger] front[j]) by {
            assert(front[i] == followers[i]);
            assert(front[j] == followers[j]);
        }
    }
    lemma_fanout_count(front);
    let before = fanout_inboxes(front, None);
    match coalesced_inbox(last) {
        None => {},
        Some(inbox) => {
            lemma_fanout_members(front, None, inbox);
            lemma_shared_inboxes(front, inbox);
            if last.shared_inbox is Some {
                if before.contains(inbox) {
                    let i = choose|i: int|
                        0 <= i < front.len() && coalesced_inbox(#[trigger] front[i]) == Some(
                            inbox,
                        );
                    assert(front[i] == followers[i]);
                    assert(coalesced_inbox(followers[n]) == Some(inbox));
                    assert(followers[i].shared_inbox is Some);
                    assert(shared_inboxes(front).contains(inbox));
                    assert(shared_inboxes(followers) =~= shared_inboxes(front));
                } else {
                    if shared_inboxes(front).contains(inbox) {
                        let i = choose|i: int|
                            0 <= i < front.len() && (#[trigger] front[i]).shared_inbox is Some
                                && front[i].shared_inbox->0@ == inbox;
                        assert(coalesced_inbox(front[i]) == Some(inbox));
                    }
                }
            } else {
                if before.contains(inbox) {
                    let i = choose|i: int|
                        0 <= i < front.len() && coalesced_inbox(#[trigger] front[i]) == Some(
                            inbox,
                        );
                    assert(front[i] == followers[i]);
                    assert(coalesced_inbox(followers[n]) == coalesced_inbox(followers[i]));
                }
            }
        },
    }
}

} // verus!

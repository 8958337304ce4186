//! What follows from what local users do to posts and comments: deleting,
//! liking, and where a new post is sent.

use crate::addressing::{get_local_thing_apub_id, thing_apub_id};
use crate::auth::{is_random_uuid, is_user_error, new_uuid, user_error};
use crate::delivery::{task_views, vote_deliveries, vote_tasks, Task, TaskView, VoteTargetRow};
use crate::ids::{CommunityLocalID, PostLocalID, ThingLocalRef, UserLocalID};
use crate::response::{Error, FORBIDDEN, NOT_FOUND};
use crate::text::text_of;
use vstd::prelude::*;

verus! {

/// What the store holds of a post or comment that is to be deleted and is
/// not deleted yet.
#[derive(Debug, Clone, Copy, PartialEq, Eq, Structural)]
pub struct DeleteRow {
    pub author: Option<UserLocalID>,
    pub community: Option<CommunityLocalID>,
}

/// What is done about a request to delete.
#[derive(Debug, Clone, Copy, PartialEq, Eq, Structural)]
pub enum DeleteDecision {
    /// There is nothing to delete; the request succeeds all the same.
    AlreadyGone,
    /// The content is removed, and the deletion is told to `community`.
    Delete { community: Option<CommunityLocalID> },
}

/// Decides a request of `user` to delete a post or comment. Only the author
/// may delete: anybody else is refused with 403.
pub fn check_delete(row: Option<DeleteRow>, user: UserLocalID) -> (r: Result<DeleteDecision, Error>)
    ensures
        match row {
            None => r matches Ok(d) && d == DeleteDecision::AlreadyGone,
            Some(row) => if row.author == Some(user) {
                r matches Ok(d) && d == (DeleteDecision::Delete { community: row.community })
            } else {
                r matches Err(e) && is_user_error(e, FORBIDDEN, "That's not your post")
            },
        },
{
    match row {
        None => Ok(DeleteDecision::AlreadyGone),
        Some(row) => {
            let own = match row.author {
                Some(author) => author.0 == user.0,
                None => false,
            };
            if own {
                Ok(DeleteDecision::Delete { community: row.community })
            } else {
                Err(user_error(FORBIDDEN, "That's not your post"))
            }
        },
    }
}

/// Where a new local post goes.
#[derive(Debug, Clone, PartialEq, Eq)]
pub enum PostFederation {
    /// Nowhere: the community is not on record.
    Nothing,
    /// The community is local: it announces the post to its followers.
    Announce { community: CommunityLocalID, post: PostLocalID, post_ap_id: String },
    /// The community is remote: the post is sent to it.
    SendToCommunity { community: CommunityLocalID, post: PostLocalID },
}

/// `PostFederation` with its string as a sequence of characters.
pub enum PostFederationView {
    Nothing,
    Announce { community: CommunityLocalID, post: PostLocalID, post_ap_id: Seq<char> },
    SendToCommunity { community: CommunityLocalID, post: PostLocalID },
}

impl View for PostFederation {
    type V = PostFederationView;

    open spec fn view(&self) -> PostFederationView {
        match *self {
            PostFederation::Nothing => PostFederationView::Nothing,
            PostFederation::Announce { community, post, post_ap_id } => {
                PostFederationView::Announce { community, post, post_ap_id: post_ap_id@ }
            },
            PostFederation::SendToCommunity { community, post } => {
                PostFederationView::SendToCommunity { community, post }
            },
        }
    }
}

/// A post arrived in a local community: the community announces it to its
/// followers.
pub fn on_community_add_post(community: CommunityLocalID, post_local_id: PostLocalID, post_ap_id: &str)
    -> (r: PostFederation)
    ensures
        r@ == (PostFederationView::Announce {
            community,
            post: post_local_id,
            post_ap_id: post_ap_id@,
        }),
{
    PostFederation::Announce {
        community,
        post: post_local_id,
        post_ap_id: post_ap_id.to_owned(),
    }
}

/// Where a post that a local user just made goes: a local community
/// announces it under its local address, a remote community is sent it, and
/// nothing happens where the community is not on record.
pub fn on_local_post_created(
    community: CommunityLocalID,
    post: PostLocalID,
    community_local: Option<bool>,
    host_url_apub: &str,
) -> (r: PostFederation)
    ensures
        r@ == match community_local {
            Some(true) => PostFederationView::Announce {
                community,
                post,
                post_ap_id: thing_apub_id(host_url_apub@, ThingLocalRef::Post(post)),
            },
            Some(false) => PostFederationView::SendToCommunity { community, post },
            None => PostFederationView::Nothing,
        },
{
    match community_local {
        Some(true) => {
            let ap_id = get_local_thing_apub_id(ThingLocalRef::Post(post), host_url_apub);
            on_community_add_post(community, post, ap_id.as_str())
        },
        Some(false) => PostFederation::SendToCommunity { community, post },
        None => PostFederation::Nothing,
    }
}

/// The address of the target of a vote: the local address of a local post
/// or comment, the recorded address of a remote one.
pub fn vote_target_ap_id(
    target: ThingLocalRef,
    local: bool,
    ap_id: Option<&str>,
    host_url_apub: &str,
) -> (r: Option<String>)
    ensures
        text_of(r) == if local {
            Some(thing_apub_id(host_url_apub@, target))
        } else {
            crate::host::str_text_of(ap_id)
        },
{
    if local {
        Some(get_local_thing_apub_id(target, host_url_apub))
    } else {
        match ap_id {
            Some(s) => Some(s.to_owned()),
            None => None,
        }
    }
}

/// The deliveries for a like that `user` just placed. A like that was on
/// record already (`row_count` is zero) is not sent again, and nothing is
/// sent for a target that the store does not hold.
pub fn like_deliveries(row_count: u64, row: Option<&VoteTargetRow>, user: UserLocalID, body: &str)
    -> (tasks: Vec<Task>)
    ensures
        task_views(tasks@) == match row {
            Some(row) => if row_count > 0 {
                vote_tasks(*row, user, body@)
            } else {
                Seq::<TaskView>::empty()
            },
            None => Seq::<TaskView>::empty(),
        },
{
    match row {
        Some(row) => {
            if row_count > 0 {
                return vote_deliveries(row, user, body);
            }
        },
        None => {},
    }
    let tasks: Vec<Task> = Vec::new();
    assert(task_views(tasks@) =~= Seq::<TaskView>::empty());
    tasks
}

/// The identifier under which the removal of a like is published: a fresh
/// one where a like was removed (`row_count` is not zero), none otherwise.
/// It is stored with the removal, so that every delivery carries the same.
pub fn unlike_undo_id(row_count: u64) -> (r: Option<u128>)
    ensures
        r is Some <==> row_count > 0,
        r matches Some(id) ==> is_random_uuid(id),
{
    if row_count > 0 {
        Some(new_uuid())
    } else {
        None
    }
}

/// The post that a reply to a comment belongs to: the post of the comment
/// that is answered. A comment that the store does not hold is refused with
/// 404.
pub fn replied_post(parent_post: Option<PostLocalID>) -> (r: Result<PostLocalID, Error>)
    ensures
        match parent_post {
            Some(post) => r matches Ok(p) && p == post,
            None => r matches Err(e) && is_user_error(e, NOT_FOUND, "No such comment"),
        },
{
    match parent_post {
        Some(post) => Ok(post),
        None => Err(user_error(NOT_FOUND, "No such comment")),
    }
}

} // verus!

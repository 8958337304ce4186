//! What follows from a new comment: whom to notify, and where the comment is
//! sent.

use crate::addressing::{
    comment_apub_id, get_local_comment_apub_id, get_local_person_apub_id, get_local_post_apub_id,
    person_apub_id, post_apub_id,
};
use crate::ids::{APIDOrLocal, CommentLocalID, CommunityLocalID, PostLocalID, UserLocalID};
use crate::text::{clone_text, text_of};
use crate::timestamp::Timestamp;
use vstd::prelude::*;

verus! {

/// A comment as the store holds it.
#[derive(Debug, Clone)]
pub struct CommentInfo {
    pub id: CommentLocalID,
    pub author: Option<UserLocalID>,
    pub post: PostLocalID,
    pub parent: Option<CommentLocalID>,
    pub content_text: Option<String>,
    pub content_markdown: Option<String>,
    pub content_html: Option<String>,
    pub created: Timestamp,
    pub ap_id: APIDOrLocal,
}

/// What the store knows of the post a comment was made on, and of the
/// community and the author of that post.
#[derive(Debug, Clone)]
pub struct CommentPostRow {
    pub community: CommunityLocalID,
    pub community_local: bool,
    pub community_ap_id: Option<String>,
    pub community_ap_inbox: Option<String>,
    pub post_local: bool,
    pub post_ap_id: Option<String>,
    pub post_author: Option<UserLocalID>,
    pub post_author_ap_id: Option<String>,
}

/// What the store knows of the comment that a reply answers, and of its
/// author.
#[derive(Debug, Clone)]
pub struct CommentParentRow {
    pub local: bool,
    pub ap_id: Option<String>,
    pub author: Option<UserLocalID>,
    pub author_ap_id: Option<String>,
}

/// A notice to a local user that somebody answered them.
#[derive(Debug, Clone, Copy, PartialEq, Eq, Structural)]
pub enum Notification {
    /// A comment was made on the user's post.
    PostReply { to_user: UserLocalID, reply: CommentLocalID, parent_post: PostLocalID },
    /// A reply was made to the user's comment.
    ReplyReply { to_user: UserLocalID, reply: CommentLocalID, parent_reply: CommentLocalID },
}

impl Notification {
    /// The user who is notified.
    pub open spec fn recipient(self) -> UserLocalID {
        match self {
            Notification::PostReply { to_user, .. } => to_user,
            Notification::ReplyReply { to_user, .. } => to_user,
        }
    }

    /// The user who is notified.
    pub fn to_user(&self) -> (r: UserLocalID)
        ensures
            r == self.recipient(),
    {
        match self {
            Notification::PostReply { to_user, .. } => *to_user,
            Notification::ReplyReply { to_user, .. } => *to_user,
        }
    }
}

/// Where a new comment goes.
#[derive(Debug, Clone, PartialEq)]
pub enum CommentFederation {
    /// Nowhere.
    Nothing,
    /// The community is local: it announces the comment to its followers.
    Announce { community: CommunityLocalID, comment: CommentLocalID, comment_ap_id: String },
    /// The community is remote and the comment is local: the comment is sent
    /// to the community, in reply to `in_reply_to`: the address of its
    /// parent where that can be told, of its post otherwise.
    SendToCommunity {
        community_ap_id: Option<String>,
        community_ap_inbox: Option<String>,
        post_ap_id: String,
        parent_ap_id: Option<String>,
        in_reply_to: String,
        post_or_parent_author_ap_id: Option<String>,
    },
}

/// `CommentFederation` with its strings as sequences of characters.
pub enum CommentFederationView {
    Nothing,
    Announce { community: CommunityLocalID, comment: CommentLocalID, comment_ap_id: Seq<char> },
    SendToCommunity {
        community_ap_id: Option<Seq<char>>,
        community_ap_inbox: Option<Seq<char>>,
        post_ap_id: Seq<char>,
        parent_ap_id: Option<Seq<char>>,
        in_reply_to: Seq<char>,
        post_or_parent_author_ap_id: Option<Seq<char>>,
    },
}

impl View for CommentFederation {
    type V = CommentFederationView;

    open spec fn view(&self) -> CommentFederationView {
        match *self {
            CommentFederation::Nothing => CommentFederationView::Nothing,
            CommentFederation::Announce { community, comment, comment_ap_id } => {
                CommentFederationView::Announce {
                    community,
                    comment,
                    comment_ap_id: comment_ap_id@,
                }
            },
            CommentFederation::SendToCommunity {
                community_ap_id,
                community_ap_inbox,
                post_ap_id,
                parent_ap_id,
                in_reply_to,
                post_or_parent_author_ap_id,
            } => CommentFederationView::SendToCommunity {
                community_ap_id: text_of(community_ap_id),
                community_ap_inbox: text_of(community_ap_inbox),
                post_ap_id: post_ap_id@,
                parent_ap_id: text_of(parent_ap_id),
                in_reply_to: in_reply_to@,
                post_or_parent_author_ap_id: text_of(post_or_parent_author_ap_id),
            },
        }
    }
}

/// What a new comment brings about.
#[derive(Debug, Clone)]
pub struct CommentEffects {
    pub notification: Option<Notification>,
    pub federation: CommentFederation,
}

/// Whether the store's answers are enough to go on: it holds the post, and
/// the parent where the comment has one. Nothing more is needed; a post or
/// a parent without author is answered like any other, only that nobody is
/// notified.
pub open spec fn comment_context_complete(
    comment: CommentInfo,
    post: Option<CommentPostRow>,
    parent: Option<CommentParentRow>,
) -> bool {
    post is Some && (comment.parent is Some ==> parent is Some)
}

/// Whether the parent of a reply could be told: it is local, or the store
/// holds the address it was published under.
pub open spec fn parent_resolved(parent: CommentParentRow) -> bool {
    parent.local || parent.ap_id is Some
}

/// The address of the parent of a reply, where it could be told.
pub open spec fn parent_ap_id(
    comment: CommentInfo,
    parent: Option<CommentParentRow>,
    base: Seq<char>,
) -> Option<Seq<char>> {
    match (comment.parent, parent) {
        (Some(id), Some(row)) => if row.local {
            Some(comment_apub_id(base, id.0 as int))
        } else {
            text_of(row.ap_id)
        },
        _ => None,
    }
}

/// The address of the author who is answered.
pub open spec fn answered_author_ap_id(
    comment: CommentInfo,
    post: CommentPostRow,
    parent: Option<CommentParentRow>,
    base: Seq<char>,
) -> Option<Seq<char>> {
    match (comment.parent, parent) {
        (None, _) => if post.post_local {
            match post.post_author {
                Some(author) => Some(person_apub_id(base, author.0 as int)),
                None => None,
            }
        } else {
            text_of(post.post_author_ap_id)
        },
        (Some(_), Some(row)) => if row.local {
            match row.author {
                Some(author) => Some(person_apub_id(base, author.0 as int)),
                None => None,
            }
        } else if row.ap_id is Some {
            text_of(row.author_ap_id)
        } else {
            None
        },
        (Some(_), None) => None,
    }
}

/// The notice that a new comment gives rise to. A reply to a local comment
/// notifies that comment's author, a comment on a local post notifies the
/// post's author; nobody is notified of their own comment.
pub open spec fn comment_notification(
    comment: CommentInfo,
    post: Option<CommentPostRow>,
    parent: Option<CommentParentRow>,
) -> Option<Notification> {
    if !comment_context_complete(comment, post, parent) {
        None
    } else {
        match comment.parent {
            Some(parent_id) => {
                let row = parent->0;
                if parent_resolved(row) && row.local && row.author != comment.author
                    && row.author is Some {
                    Some(
                        Notification::ReplyReply {
                            to_user: row.author->0,
                            reply: comment.id,
                            parent_reply: parent_id,
                        },
                    )
                } else {
                    None
                }
            },
            None => {
                let row = post->0;
                if row.post_local && row.post_author != comment.author && row.post_author
                    is Some {
                    Some(
                        Notification::PostReply {
                            to_user: row.post_author->0,
                            reply: comment.id,
                            parent_post: comment.post,
                        },
                    )
                } else {
                    None
                }
            },
        }
    }
}

/// The address of the post a comment was made on, where it can be told.
pub open spec fn commented_post_ap_id(comment: CommentInfo, post: CommentPostRow, base: Seq<char>)
    -> Option<Seq<char>> {
    if post.post_local {
        Some(post_apub_id(base, comment.post.0 as int))
    } else {
        text_of(post.post_ap_id)
    }
}

/// The address of a comment: the one it was published under, or the local
/// one.
pub open spec fn comment_ap_id(comment: CommentInfo, base: Seq<char>) -> Seq<char> {
    match comment.ap_id {
        APIDOrLocal::APID(apid) => apid@,
        APIDOrLocal::Local => comment_apub_id(base, comment.id.0 as int),
    }
}

/// Where a new comment goes. A local community announces it; a local
/// comment in a remote community is sent to that community; a remote comment
/// in a remote community goes nowhere, and so does a comment on a post whose
/// address cannot be told. Whether the post or the parent has an author on
/// record makes no difference to this.
pub open spec fn comment_federation(
    comment: CommentInfo,
    post: Option<CommentPostRow>,
    parent: Option<CommentParentRow>,
    base: Seq<char>,
) -> CommentFederationView {
    if !comment_context_complete(comment, post, parent) {
        CommentFederationView::Nothing
    } else {
        let row = post->0;
        match commented_post_ap_id(comment, row, base) {
            None => CommentFederationView::Nothing,
            Some(post_ap_id) => if row.community_local {
                CommentFederationView::Announce {
                    community: row.community,
                    comment: comment.id,
                    comment_ap_id: comment_ap_id(comment, base),
                }
            } else if comment.ap_id is Local {
                CommentFederationView::SendToCommunity {
                    community_ap_id: text_of(row.community_ap_id),
                    community_ap_inbox: text_of(row.community_ap_inbox),
                    post_ap_id,
                    parent_ap_id: parent_ap_id(comment, parent, base),
                    in_reply_to: match parent_ap_id(comment, parent, base) {
                        Some(parent) => parent,
                        None => post_ap_id,
                    },
                    post_or_parent_author_ap_id: answered_author_ap_id(
                        comment,
                        row,
                        parent,
                        base,
                    ),
                }
            } else {
                CommentFederationView::Nothing
            },
        }
    }
}

/// Whether two optional users are the same.
fn same_user(a: Option<UserLocalID>, b: Option<UserLocalID>) -> (r: bool)
    ensures
        r == (a == b),
{
    match (a, b) {
        (Some(x), Some(y)) => x.0 == y.0,
        (None, None) => true,
        _ => false,
    }
}

/// Decides what a new comment brings about, from the comment and from what
/// the store holds of its post and of its parent: at most one notice, to the
/// local author who was answered and never to the commenter, and the place
/// the comment is sent to.
pub fn on_post_add_comment(
    comment: &CommentInfo,
    post: Option<&CommentPostRow>,
    parent: Option<&CommentParentRow>,
    host_url_apub: &str,
) -> (r: CommentEffects)
    ensures
        r.notification == comment_notification(
            *comment,
            match post {
                Some(p) => Some(*p),
                None => None,
            },
            match parent {
                Some(p) => Some(*p),
                None => None,
            },
        ),
        r.federation@ == comment_federation(
            *comment,
            match post {
                Some(p) => Some(*p),
                None => None,
            },
            match parent {
                Some(p) => Some(*p),
                None => None,
            },
            host_url_apub@,
        ),
        r.notification matches Some(n) ==> Some(n.recipient()) != comment.author,
{
    let nothing = CommentEffects { notification: None, federation: CommentFederation::Nothing };
    let row = match post {
        Some(row) => row,
        None => {
            return nothing;
        },
    };
    // The parent's address and its author's address.
    let mut parent_ap_id: Option<String> = None;
    let mut target_author_ap_id: Option<String> = None;
    let mut notification: Option<Notification> = None;
    match comment.parent {
        Some(parent_id) => {
            let parent_row = match parent {
                Some(parent_row) => parent_row,
                None => {
                    return nothing;
                },
            };
            if parent_row.local {
                parent_ap_id = Some(get_local_comment_apub_id(parent_id, host_url_apub));
                match parent_row.author {
                    Some(author) => {
                        target_author_ap_id = Some(
                            get_local_person_apub_id(author, host_url_apub),
                        );
                        if !same_user(Some(author), comment.author) {
                            notification = Some(
                                Notification::ReplyReply {
                                    to_user: author,
                                    reply: comment.id,
                                    parent_reply: parent_id,
                                },
                            );
                        }
                    },
                    None => {},
                }
            } else {
                match &parent_row.ap_id {
                    Some(ap_id) => {
                        parent_ap_id = Some(ap_id.clone());
                        target_author_ap_id = clone_text(&parent_row.author_ap_id);
                    },
                    None => {},
                }
            }
        },
        None => {
            if row.post_local {
                match row.post_author {
                    Some(author) => {
                        target_author_ap_id = Some(
                            get_local_person_apub_id(author, host_url_apub),
                        );
                        if !same_user(Some(author), comment.author) {
                            notification = Some(
                                Notification::PostReply {
                                    to_user: author,
                                    reply: comment.id,
                                    parent_post: comment.post,
                                },
                            );
                        }
                    },
                    None => {},
                }
            } else {
                target_author_ap_id = clone_text(&row.post_author_ap_id);
            }
        },
    }
    let post_ap_id = if row.post_local {
        Some(get_local_post_apub_id(comment.post, host_url_apub))
    } else {
        clone_text(&row.post_ap_id)
    };
    let federation = match post_ap_id {
        None => CommentFederation::Nothing,
        Some(post_ap_id) => {
            if row.community_local {
                let comment_ap_id = match &comment.ap_id {
                    APIDOrLocal::APID(apid) => apid.clone(),
                    APIDOrLocal::Local => get_local_comment_apub_id(comment.id, host_url_apub),
                };
                on_community_add_comment(row.community, comment.id, comment_ap_id.as_str())
            } else {
                match &comment.ap_id {
                    APIDOrLocal::Local => {
                        let in_reply_to = match &parent_ap_id {
                            Some(parent) => parent.clone(),
                            None => post_ap_id.clone(),
                        };
                        CommentFederation::SendToCommunity {
                            community_ap_id: clone_text(&row.community_ap_id),
                            community_ap_inbox: clone_text(&row.community_ap_inbox),
                            post_ap_id,
                            parent_ap_id,
                            in_reply_to,
                            post_or_parent_author_ap_id: target_author_ap_id,
                        }
                    },
                    APIDOrLocal::APID(_) => CommentFederation::Nothing,
                }
            }
        },
    };
    CommentEffects { notification, federation }
}

/// A comment arrived in a local community: the community announces it to
/// its followers.
pub fn on_community_add_comment(
    community: CommunityLocalID,
    comment_local_id: CommentLocalID,
    comment_ap_id: &str,
) -> (r: CommentFederation)
    ensures
        r@ == (CommentFederationView::Announce {
            community,
            comment: comment_local_id,
            comment_ap_id: comment_ap_id@,
        }),
{
    CommentFederation::Announce {
        community,
        comment: comment_local_id,
        comment_ap_id: comment_ap_id.to_owned(),
    }
}

} // verus!

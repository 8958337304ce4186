//! Reading activities: from the fields of a received document to the
//! activity that the inbound handler acts on. The kind of the activity and
//! the kind of its object together decide what is asked for.

use crate::inbox::{Action, Activity, Direct, NoteObject, PageObject};
use crate::text::{clone_text, str_eq, text_of};
use vstd::prelude::*;

verus! {

/// A field that names an object: absent, an address, an object written out,
/// or several of either.
#[derive(Debug, Clone, PartialEq, Eq)]
pub enum ObjectField<T> {
    Missing,
    Reference(String),
    Embedded(T),
    Several,
}

/// An object written out inside an activity, as far as it is read. Its own
/// object is read by address only.
#[derive(Debug, Clone, PartialEq, Eq)]
pub struct ObjectDocument {
    pub kind: Option<String>,
    pub id: Option<String>,
    pub actor: Option<String>,
    pub object: Option<String>,
    /// The first addressee.
    pub to: Option<String>,
    pub name: Option<String>,
    pub url: Option<String>,
    pub content: Option<String>,
    pub in_reply_to: Option<String>,
}

/// An activity written out inside an announcement.
#[derive(Debug, Clone, PartialEq, Eq)]
pub struct InnerDocument {
    pub kind: Option<String>,
    pub id: Option<String>,
    pub actor: Option<String>,
    pub object: ObjectField<ObjectDocument>,
}

/// A received document.
#[derive(Debug, Clone, PartialEq, Eq)]
pub struct ActivityDocument {
    pub kind: Option<String>,
    pub id: Option<String>,
    pub actor: Option<String>,
    /// The object, read as an activity where it is written out.
    pub object: ObjectField<InnerDocument>,
    /// The object, read as an object where it is written out.
    pub object_as_object: ObjectField<ObjectDocument>,
}

/// What an activity asks for, without its details.
#[derive(Debug, Clone, Copy, PartialEq, Eq, Structural)]
pub enum ActionTag {
    CreatePage,
    CreateNote,
    CreateReference,
    Follow,
    AcceptFollow,
    Like,
    UndoLike,
    Delete,
    Other,
}

/// The address by which a field names its object: the address itself, or
/// the identifier of the object written out.
pub open spec fn named_object(object: ObjectField<ObjectDocument>) -> Option<Seq<char>> {
    match object {
        ObjectField::Reference(url) => Some(url@),
        ObjectField::Embedded(o) => text_of(o.id),
        _ => None,
    }
}

/// Whether a field holds an object of the kind `kind`, written out.
pub open spec fn embeds(object: ObjectField<ObjectDocument>, kind: Seq<char>) -> bool {
    object matches ObjectField::Embedded(o) && text_of(o.kind) == Some(kind)
}

/// What an activity of the kind `kind` with the object `object` asks for.
/// A `Create` asks for a page or a note that is written out, or names what
/// it creates by address. `Follow`, `Like` and `Delete` ask for what they
/// say of the object they name. An `Accept` counts for a follow that is
/// written out with its actor and object, an `Undo` for a like that is
/// written out with its object. Everything else asks for nothing.
pub open spec fn action_tag(kind: Option<Seq<char>>, object: ObjectField<ObjectDocument>)
    -> ActionTag {
    if kind == Some("Create"@) {
        if embeds(object, "Page"@) {
            ActionTag::CreatePage
        } else if embeds(object, "Note"@) {
            ActionTag::CreateNote
        } else if object is Reference {
            ActionTag::CreateReference
        } else {
            ActionTag::Other
        }
    } else if kind == Some("Follow"@) && named_object(object) is Some {
        ActionTag::Follow
    } else if kind == Some("Like"@) && named_object(object) is Some {
        ActionTag::Like
    } else if kind == Some("Delete"@) && named_object(object) is Some {
        ActionTag::Delete
    } else if kind == Some("Accept"@) && embeds(object, "Follow"@) && object->Embedded_0.actor
        is Some && object->Embedded_0.object is Some {
        ActionTag::AcceptFollow
    } else if kind == Some("Undo"@) && embeds(object, "Like"@) && object->Embedded_0.object
        is Some {
        ActionTag::UndoLike
    } else {
        ActionTag::Other
    }
}

/// The tag of an action.
pub open spec fn tag_of(action: Action) -> ActionTag {
    match action {
        Action::CreatePage(_) => ActionTag::CreatePage,
        Action::CreateNote(_) => ActionTag::CreateNote,
        Action::CreateReference { .. } => ActionTag::CreateReference,
        Action::Follow { .. } => ActionTag::Follow,
        Action::AcceptFollow { .. } => ActionTag::AcceptFollow,
        Action::Like { .. } => ActionTag::Like,
        Action::UndoLike { .. } => ActionTag::UndoLike,
        Action::Delete { .. } => ActionTag::Delete,
        Action::Other => ActionTag::Other,
    }
}

/// Whether an action carries what the document says: the fields of the
/// page or note, or the address of the object.
pub open spec fn action_from(action: Action, object: ObjectField<ObjectDocument>) -> bool {
    match action {
        Action::CreatePage(page) => object matches ObjectField::Embedded(o) && text_of(page.id)
            == text_of(o.id) && text_of(page.to) == text_of(o.to) && text_of(page.name) == text_of(
            o.name,
        ) && text_of(page.url) == text_of(o.url) && text_of(page.content) == text_of(o.content),
        Action::CreateNote(note) => object matches ObjectField::Embedded(o) && text_of(note.id)
            == text_of(o.id) && text_of(note.in_reply_to) == text_of(o.in_reply_to) && text_of(
            note.content,
        ) == text_of(o.content),
        Action::CreateReference { object: url } => Some(url@) == named_object(object),
        Action::Follow { object: url } => Some(url@) == named_object(object),
        Action::Like { object: url } => Some(url@) == named_object(object),
        Action::Delete { object: url } => Some(url@) == named_object(object),
        Action::AcceptFollow { follower, community } => object matches ObjectField::Embedded(o)
            && Some(follower@) == text_of(o.actor) && Some(community@) == text_of(o.object),
        Action::UndoLike { object: url } => object matches ObjectField::Embedded(o) && Some(url@)
            == text_of(o.object),
        Action::Other => true,
    }
}

fn is_kind(kind: &Option<String>, name: &str) -> (r: bool)
    ensures
        r == (text_of(*kind) == Some(name@)),
{
    match kind {
        Some(k) => str_eq(k.as_str(), name),
        None => false,
    }
}

fn object_name(object: &ObjectField<ObjectDocument>) -> (r: Option<String>)
    ensures
        text_of(r) == named_object(*object),
{
    match object {
        ObjectField::Reference(url) => Some(url.clone()),
        ObjectField::Embedded(o) => clone_text(&o.id),
        _ => None,
    }
}

/// Reads what an activity asks for from its kind and its object.
pub fn read_action(kind: &Option<String>, object: &ObjectField<ObjectDocument>) -> (r: Action)
    ensures
        tag_of(r) == action_tag(text_of(*kind), *object),
        action_from(r, *object),
{
    proof {
        reveal_strlit("Create");
        reveal_strlit("Follow");
        reveal_strlit("Like");
        reveal_strlit("Delete");
        reveal_strlit("Accept");
        reveal_strlit("Undo");
        reveal_strlit("Page");
        reveal_strlit("Note");
        assert("Create"@.len() == 6 && "Follow"@.len() == 6 && "Like"@.len() == 4
            && "Delete"@.len() == 6 && "Accept"@.len() == 6 && "Undo"@.len() == 4);
        assert("Create"@[0] == 'C' && "Follow"@[0] == 'F' && "Delete"@[0] == 'D' && "Accept"@[0]
            == 'A' && "Like"@[0] == 'L' && "Undo"@[0] == 'U');
        assert("Page"@[0] == 'P' && "Note"@[0] == 'N');
    }
    if is_kind(kind, "Create") {
        return match object {
            ObjectField::Embedded(o) => {
                if is_kind(&o.kind, "Page") {
                    Action::CreatePage(
                        PageObject {
                            id: clone_text(&o.id),
                            to: clone_text(&o.to),
                            name: clone_text(&o.name),
                            url: clone_text(&o.url),
                            content: clone_text(&o.content),
                        },
                    )
                } else if is_kind(&o.kind, "Note") {
                    Action::CreateNote(
                        NoteObject {
                            id: clone_text(&o.id),
                            in_reply_to: clone_text(&o.in_reply_to),
                            content: clone_text(&o.content),
                        },
                    )
                } else {
                    Action::Other
                }
            },
            ObjectField::Reference(url) => Action::CreateReference { object: url.clone() },
            _ => Action::Other,
        };
    }
    let named = object_name(object);
    if is_kind(kind, "Follow") {
        if let Some(url) = named {
            return Action::Follow { object: url };
        }
        return Action::Other;
    }
    if is_kind(kind, "Like") {
        if let Some(url) = named {
            return Action::Like { object: url };
        }
        return Action::Other;
    }
    if is_kind(kind, "Delete") {
        if let Some(url) = named {
            return Action::Delete { object: url };
        }
        return Action::Other;
    }
    if is_kind(kind, "Accept") {
        if let ObjectField::Embedded(o) = object {
            if is_kind(&o.kind, "Follow") {
                if let (Some(follower), Some(community)) = (&o.actor, &o.object) {
                    return Action::AcceptFollow {
                        follower: follower.clone(),
                        community: community.clone(),
                    };
                }
            }
        }
        return Action::Other;
    }
    if is_kind(kind, "Undo") {
        if let ObjectField::Embedded(o) = object {
            if is_kind(&o.kind, "Like") {
                if let Some(url) = &o.object {
                    return Action::UndoLike { object: url.clone() };
                }
            }
        }
        return Action::Other;
    }
    Action::Other
}

/// Reads a received document. A document without an actor is no activity.
/// An `Announce` that writes out an activity with an actor is an
/// announcement of that activity; every other document is an activity of its
/// own actor, read from its kind and its object.
pub fn read_activity(doc: &ActivityDocument) -> (r: Option<Activity>)
    ensures
        r is Some <==> doc.actor is Some,
        r matches Some(Activity::Announce { id, actor, inner }) ==> text_of(doc.kind) == Some(
            "Announce"@,
        ) && text_of(id) == text_of(doc.id) && Some(actor@) == text_of(doc.actor) && (
        doc.object matches ObjectField::Embedded(i) && text_of(inner.id) == text_of(i.id) && Some(
            inner.actor@,
        ) == text_of(i.actor) && tag_of(inner.action) == action_tag(text_of(i.kind), i.object)
            && action_from(inner.action, i.object)),
        r matches Some(Activity::Direct(d)) ==> text_of(d.id) == text_of(doc.id) && Some(d.actor@)
            == text_of(doc.actor) && !(text_of(doc.kind) == Some("Announce"@) && (
        doc.object matches ObjectField::Embedded(i) && i.actor is Some)) && tag_of(d.action)
            == action_tag(text_of(doc.kind), doc.object_as_object) && action_from(
            d.action,
            doc.object_as_object,
        ),
{
    let actor = match &doc.actor {
        Some(actor) => actor.clone(),
        None => {
            return None;
        },
    };
    if is_kind(&doc.kind, "Announce") {
        if let ObjectField::Embedded(inner) = &doc.object {
            if let Some(inner_actor) = &inner.actor {
                return Some(
                    Activity::Announce {
                        id: clone_text(&doc.id),
                        actor,
                        inner: Direct {
                            id: clone_text(&inner.id),
                            actor: inner_actor.clone(),
                            action: read_action(&inner.kind, &inner.object),
                        },
                    },
                );
            }
        }
    }
    Some(
        Activity::Direct(
            Direct {
                id: clone_text(&doc.id),
                actor,
                action: read_action(&doc.kind, &doc.object_as_object),
            },
        ),
    )
}

} // verus!

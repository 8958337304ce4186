//! Fetching remote actors and objects: how a fetch goes on after each
//! response, what kinds of document are taken in, and the bookkeeping that
//! keeps one address from being fetched twice at a time.

use crate::delivery::{holds, texts_of};
use crate::ids::{CommunityLocalID, UserLocalID};
use crate::store::{Entity, Lookup, Store, StoreView, lookup, AddressView, PersonRow, CommunityRow};
use crate::text::str_eq;
use vstd::prelude::*;

verus! {

/// How many redirects a fetch follows.
pub const MAX_REDIRECTS: u8 = 3;

/// The largest body that is taken in, in bytes.
pub const MAX_BODY_BYTES: usize = 1048576;

/// Why a fetch is given up.
#[derive(Debug, Clone, Copy, PartialEq, Eq, Structural)]
pub enum FetchFailure {
    TooManyRedirects,
    /// A redirect that does not say where to.
    NoLocation,
    BodyTooLarge,
    /// The remote answered with this status.
    Status(u16),
}

/// What a fetch does after a response.
#[derive(Debug, Clone, PartialEq, Eq)]
pub enum FetchStep {
    /// Ask again at this address.
    Follow(String),
    /// Take the body in.
    Accept,
    Fail(FetchFailure),
}

/// Whether a status is a redirect: 300 to 399.
pub open spec fn is_redirect(status: u16) -> bool {
    300 <= status < 400
}

/// Decides how a fetch goes on after a response, given how many redirects
/// it has followed so far. A redirect is followed up to three times; a
/// success is taken in if its body has at most 1 MiB; anything else ends the
/// fetch.
pub fn fetch_step(redirects: u8, status: u16, location: Option<&str>, body_len: usize) -> (r:
    FetchStep)
    ensures
        match r {
            FetchStep::Follow(url) => is_redirect(status) && redirects < MAX_REDIRECTS && (
            location matches Some(l) && url@ == l@),
            FetchStep::Accept => crate::response::is_success(status) && body_len
                <= MAX_BODY_BYTES,
            FetchStep::Fail(FetchFailure::TooManyRedirects) => is_redirect(status) && redirects
                >= MAX_REDIRECTS,
            FetchStep::Fail(FetchFailure::NoLocation) => is_redirect(status) && redirects
                < MAX_REDIRECTS && location is None,
            FetchStep::Fail(FetchFailure::BodyTooLarge) => crate::response::is_success(status)
                && body_len > MAX_BODY_BYTES,
            FetchStep::Fail(FetchFailure::Status(s)) => s == status && !is_redirect(status)
                && !crate::response::is_success(status),
        },
{
    if 300 <= status && status < 400 {
        if redirects >= MAX_REDIRECTS {
            FetchStep::Fail(FetchFailure::TooManyRedirects)
        } else {
            match location {
                Some(l) => FetchStep::Follow(l.to_owned()),
                None => FetchStep::Fail(FetchFailure::NoLocation),
            }
        }
    } else if 200 <= status && status < 300 {
        if body_len <= MAX_BODY_BYTES {
            FetchStep::Accept
        } else {
            FetchStep::Fail(FetchFailure::BodyTooLarge)
        }
    } else {
        FetchStep::Fail(FetchFailure::Status(status))
    }
}

/// The kinds of document that a fetch takes in.
#[derive(Debug, Clone, Copy, PartialEq, Eq, Structural)]
pub enum FetchedKind {
    Person,
    /// A group: a community.
    Group,
    /// A page: a post.
    Page,
    /// A note: a comment.
    Note,
    Activity,
}

/// The kind of document that a type name stands for. Any other name is
/// unknown, and the document is refused.
pub open spec fn kind_of(name: Seq<char>) -> Option<FetchedKind> {
    if name == "Person"@ {
        Some(FetchedKind::Person)
    } else if name == "Group"@ {
        Some(FetchedKind::Group)
    } else if name == "Page"@ {
        Some(FetchedKind::Page)
    } else if name == "Note"@ {
        Some(FetchedKind::Note)
    } else if name == "Create"@ || name == "Follow"@ || name == "Accept"@ || name == "Like"@
        || name == "Undo"@ || name == "Delete"@ || name == "Announce"@ {
        Some(FetchedKind::Activity)
    } else {
        None
    }
}

/// Tells the kind of a fetched document from its type name.
pub fn fetched_kind(name: &str) -> (r: Option<FetchedKind>)
    ensures
        r == kind_of(name@),
{
    if str_eq(name, "Person") {
        Some(FetchedKind::Person)
    } else if str_eq(name, "Group") {
        Some(FetchedKind::Group)
    } else if str_eq(name, "Page") {
        Some(FetchedKind::Page)
    } else if str_eq(name, "Note") {
        Some(FetchedKind::Note)
    } else if str_eq(name, "Create") || str_eq(name, "Follow") || str_eq(name, "Accept")
        || str_eq(name, "Like") || str_eq(name, "Undo") || str_eq(name, "Delete") || str_eq(
        name,
        "Announce",
    ) {
        Some(FetchedKind::Activity)
    } else {
        None
    }
}

impl Store {
    /// Takes a fetched person in: the person on record under the address,
    /// or a new remote person recorded under it. `None`, with nothing
    /// changed, where the address names something else or lies under this
    /// instance's origin without naming a local person.
    pub fn upsert_person(&mut self, ap_id: &str, host_url_apub: &str) -> (r: Option<UserLocalID>)
        requires
            old(self)@.wf(),
            old(self)@.has_room(),
        ensures
            final(self)@.wf(),
            match lookup(old(self)@, ap_id@, host_url_apub@) {
                Lookup::Found(Entity::Person(id)) => r == Some(id) && final(self)@ == old(self)@,
                Lookup::Unknown => r == Some(UserLocalID(old(self)@.persons.len() as i64))
                    && final(self)@ == (StoreView {
                    persons: old(self)@.persons.push(PersonRow { local: false }),
                    addresses: old(self)@.addresses.push(
                        AddressView { ap_id: ap_id@, target: Entity::Person(r->0) },
                    ),
                    ..old(self)@
                }),
                _ => r is None && final(self)@ == old(self)@,
            },
    {
        match self.lookup(ap_id, host_url_apub) {
            Lookup::Found(Entity::Person(id)) => Some(id),
            Lookup::Unknown => {
                let ghost before = self@;
                let id = self.add_person(false);
                proof {
                    assert(lookup(self@, ap_id@, host_url_apub@) is Unknown);
                }
                let recorded = self.record_address(ap_id, Entity::Person(id), host_url_apub);
                assert(recorded);
                Some(id)
            },
            _ => None,
        }
    }

    /// Takes a fetched group in: the community on record under the address,
    /// or a new remote community recorded under it. `None`, with nothing
    /// changed, where the address names something else or lies under this
    /// instance's origin without naming a local community.
    pub fn upsert_community(&mut self, ap_id: &str, host_url_apub: &str) -> (r: Option<
        CommunityLocalID,
    >)
        requires
            old(self)@.wf(),
            old(self)@.has_room(),
        ensures
            final(self)@.wf(),
            match lookup(old(self)@, ap_id@, host_url_apub@) {
                Lookup::Found(Entity::Community(id)) => r == Some(id) && final(self)@ == old(
                    self,
                )@,
                Lookup::Unknown => r == Some(CommunityLocalID(old(self)@.communities.len() as i64))
                    && final(self)@ == (StoreView {
                    communities: old(self)@.communities.push(CommunityRow { local: false }),
                    addresses: old(self)@.addresses.push(
                        AddressView { ap_id: ap_id@, target: Entity::Community(r->0) },
                    ),
                    ..old(self)@
                }),
                _ => r is None && final(self)@ == old(self)@,
            },
    {
        match self.lookup(ap_id, host_url_apub) {
            Lookup::Found(Entity::Community(id)) => Some(id),
            Lookup::Unknown => {
                let id = self.add_community(false);
                proof {
                    assert(lookup(self@, ap_id@, host_url_apub@) is Unknown);
                }
                let recorded = self.record_address(ap_id, Entity::Community(id), host_url_apub);
                assert(recorded);
                Some(id)
            },
            _ => None,
        }
    }
}

/// The addresses that are being fetched right now. A second request for an
/// address that is in flight waits for the first instead of fetching again.
#[derive(Debug, Clone)]
pub struct SingleFlight {
    pub in_flight: Vec<String>,
}

impl SingleFlight {
    /// No address is listed twice.
    pub open spec fn wf(self) -> bool {
        texts_of(self.in_flight@).no_duplicates()
    }

    /// Whether `url` is being fetched.
    pub open spec fn flying(self, url: Seq<char>) -> bool {
        texts_of(self.in_flight@).contains(url)
    }

    /// Nothing is being fetched.
    pub fn new() -> (r: SingleFlight)
        ensures
            r.wf(),
            forall|url: Seq<char>| !r.flying(url),
    {
        let r = SingleFlight { in_flight: Vec::new() };
        assert(texts_of(r.in_flight@) =~= Seq::<Seq<char>>::empty());
        r
    }

    /// Asks to fetch `url`. The first to ask is told `true` and fetches;
    /// whoever asks while that fetch is in flight is told `false` and waits
    /// for its result.
    pub fn begin(&mut self, url: &str) -> (lead: bool)
        requires
            old(self).wf(),
        ensures
            final(self).wf(),
            lead == !old(self).flying(url@),
            final(self).flying(url@),
            forall|other: Seq<char>| other != url@ ==> final(self).flying(other) == old(
                self,
            ).flying(other),
    {
        if holds(&self.in_flight, url) {
            false
        } else {
            let ghost before = texts_of(self.in_flight@);
            self.in_flight.push(url.to_owned());
            proof {
                let after = texts_of(self.in_flight@);
                assert(after =~= before.push(url@));
                assert(after[after.len() - 1] == url@);
                assert forall|other: Seq<char>| other != url@ implies after.contains(other)
                    == before.contains(other) by {
                    if before.contains(other) {
                        let i = choose|i: int| 0 <= i < before.len() && before[i] == other;
                        assert(after[i] == other);
                    }
                }
            }
            true
        }
    }

    /// Records that the fetch of `url` has ended.
    pub fn finish(&mut self, url: &str)
        requires
            old(self).wf(),
        ensures
            final(self).wf(),
            !final(self).flying(url@),
            forall|other: Seq<char>| other != url@ ==> final(self).flying(other) == old(
                self,
            ).flying(other),
    {
        let ghost before = texts_of(self.in_flight@);
        let mut i: usize = 0;
        while i < self.in_flight.len()
            invariant
                i <= self.in_flight.len(),
                self.in_flight@ == old(self).in_flight@,
                forall|j: int| 0 <= j < i ==> before[j] != url@,
                before == texts_of(self.in_flight@),
                before.no_duplicates(),
            decreases self.in_flight.len() - i,
        {
            if str_eq(self.in_flight[i].as_str(), url) {
                assert(before[i as int] == url@);
                self.in_flight.remove(i);
                proof {
                    let after = texts_of(self.in_flight@);
                    assert(after =~= before.remove(i as int));
                    assert forall|j: int| 0 <= j < after.len() implies after[j] != url@ by {
                        if j < i {
                            assert(after[j] == before[j]);
                        } else {
                            assert(after[j] == before[j + 1]);
                            assert(before[j + 1] != before[i as int]);
                        }
                    }
                    assert forall|other: Seq<char>| other != url@ implies after.contains(other)
                        == before.contains(other) by {
                        if before.contains(other) {
                            let k = choose|k: int| 0 <= k < before.len() && before[k] == other;
                            if k < i {
                                assert(after[k] == other);
                            } else {
                                assert(after[k - 1] == other);
                            }
                        }
                        if after.contains(other) {
                            let k = choose|k: int| 0 <= k < after.len() && after[k] == other;
                            if k < i {
                                assert(before[k] == other);
                            } else {
                                assert(before[k + 1] == other);
                            }
                        }
                    }
                    assert(after.no_duplicates()) by {
                        assert forall|a: int, b: int|
                            0 <= a < after.len() && 0 <= b < after.len() && a != b implies after[a]
                            != after[b] by {
                            let a2 = if a < i { a } else { a + 1 };
                            let b2 = if b < i { b } else { b + 1 };
                            assert(after[a] == before[a2]);
                            assert(after[b] == before[b2]);
                            assert(before[a2] != before[b2]);
                        }
                    }
                }
                return ;
            }
            i = i + 1;
        }
    }
}

} // verus!

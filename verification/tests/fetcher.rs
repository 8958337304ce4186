use lotide::fetcher::{
    fetch_step, fetched_kind, FetchFailure, FetchStep, FetchedKind, SingleFlight, MAX_BODY_BYTES,
    MAX_REDIRECTS,
};
use lotide::inbox::{Action, Activity, Direct, Outcome, PageObject, Recipient};
use lotide::store::{Entity, Lookup, Store};
use lotide::{CommunityLocalID, UserLocalID};

const BASE: &str = "https://lotide.example/apub";

#[test]
fn at_most_three_redirects_are_followed() {
    assert_eq!(MAX_REDIRECTS, 3);
    for followed in 0..3 {
        assert_eq!(
            fetch_step(followed, 302, Some("https://peer.example/next"), 0),
            FetchStep::Follow("https://peer.example/next".to_owned())
        );
    }
    assert_eq!(
        fetch_step(3, 302, Some("https://peer.example/next"), 0),
        FetchStep::Fail(FetchFailure::TooManyRedirects)
    );
    assert_eq!(fetch_step(0, 301, None, 0), FetchStep::Fail(FetchFailure::NoLocation));
}

#[test]
fn bodies_of_up_to_a_mebibyte_are_taken_in() {
    assert_eq!(MAX_BODY_BYTES, 1024 * 1024);
    assert_eq!(fetch_step(0, 200, None, 0), FetchStep::Accept);
    assert_eq!(fetch_step(3, 200, None, 1024 * 1024), FetchStep::Accept);
    assert_eq!(
        fetch_step(0, 200, None, 1024 * 1024 + 1),
        FetchStep::Fail(FetchFailure::BodyTooLarge)
    );
    assert_eq!(fetch_step(0, 404, None, 10), FetchStep::Fail(FetchFailure::Status(404)));
    assert_eq!(fetch_step(0, 500, Some("x"), 10), FetchStep::Fail(FetchFailure::Status(500)));
}

#[test]
fn unknown_kinds_are_refused() {
    assert_eq!(fetched_kind("Person"), Some(FetchedKind::Person));
    assert_eq!(fetched_kind("Group"), Some(FetchedKind::Group));
    assert_eq!(fetched_kind("Page"), Some(FetchedKind::Page));
    assert_eq!(fetched_kind("Note"), Some(FetchedKind::Note));
    for kind in ["Create", "Follow", "Accept", "Like", "Undo", "Delete", "Announce"] {
        assert_eq!(fetched_kind(kind), Some(FetchedKind::Activity));
    }
    for kind in ["Video", "person", "", "Service", "Article"] {
        assert_eq!(fetched_kind(kind), None);
    }
}

#[test]
fn fetched_actors_are_recorded_once() {
    let mut s = Store::new();
    s.add_person(true);
    let alice = s.upsert_person("https://peer.example/users/alice", BASE);
    assert_eq!(alice, Some(UserLocalID(1)));
    assert_eq!(s.upsert_person("https://peer.example/users/alice", BASE), alice);
    assert_eq!(s.persons.len(), 2);
    assert!(!s.persons[1].local);
    assert_eq!(
        s.lookup("https://peer.example/users/alice", BASE),
        Lookup::Found(Entity::Person(UserLocalID(1)))
    );
    let group = s.upsert_community("https://peer.example/communities/42", BASE);
    assert_eq!(group, Some(CommunityLocalID(0)));
    assert_eq!(s.upsert_community("https://peer.example/communities/42", BASE), group);
    // An address names one thing.
    assert_eq!(s.upsert_person("https://peer.example/communities/42", BASE), None);
    assert_eq!(s.upsert_community("https://peer.example/users/alice", BASE), None);
    // Local addresses are not fetched.
    assert_eq!(s.upsert_person("https://lotide.example/apub/users/0", BASE), Some(UserLocalID(0)));
    assert_eq!(s.upsert_person("https://lotide.example/apub/users/5", BASE), None);
    assert_eq!(s.persons.len(), 2);
    assert_eq!(s.addresses.len(), 2);
}

#[test]
fn an_activity_goes_through_once_its_sender_was_fetched() {
    let mut s = Store::new();
    s.add_community(true);
    let sender = "https://peer.example/users/alice";
    let a = Activity::Direct(Direct {
        id: Some("https://peer.example/a/1".to_owned()),
        actor: sender.to_owned(),
        action: Action::CreatePage(PageObject {
            id: Some("https://peer.example/posts/1".to_owned()),
            to: None,
            name: None,
            url: None,
            content: None,
        }),
    });
    let to = Recipient::Community(CommunityLocalID(0));
    assert_eq!(s.receive(to, sender, &a, "{}", BASE), Outcome::Fetch(sender.to_owned()));
    s.upsert_person(sender, BASE);
    assert_eq!(s.receive(to, sender, &a, "{}", BASE), Outcome::Applied);
    assert_eq!(s.posts.len(), 1);
}

#[test]
fn one_fetch_per_address_at_a_time() {
    let mut flights = SingleFlight::new();
    assert!(flights.begin("https://peer.example/users/alice"));
    assert!(!flights.begin("https://peer.example/users/alice"));
    assert!(flights.begin("https://peer.example/users/bob"));
    flights.finish("https://peer.example/users/alice");
    assert!(!flights.begin("https://peer.example/users/bob"));
    assert!(flights.begin("https://peer.example/users/alice"));
    flights.finish("https://peer.example/users/unknown");
    assert_eq!(flights.in_flight.len(), 2);
}

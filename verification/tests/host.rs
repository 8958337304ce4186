use lotide::host::{path_and_query_of, shown_host_of, UrlParts};
use lotide::{get_actor_host, get_actor_host_or_unknown, get_path_and_query, get_url_host};

#[test]
fn url_host_keeps_a_named_port() {
    assert_eq!(get_url_host("https://peer.example/users/1"), Some("peer.example".to_owned()));
    assert_eq!(
        get_url_host("http://peer.example:8080/users/1"),
        Some("peer.example:8080".to_owned())
    );
    assert_eq!(get_url_host("https://peer.example:443/"), Some("peer.example".to_owned()));
    assert_eq!(get_url_host("not a url"), None);
    assert_eq!(get_url_host("mailto:someone@example.com"), None);
}

#[test]
fn actor_host_of_local_and_remote_actors() {
    assert_eq!(
        get_actor_host(true, None, "lotide.example").as_deref(),
        Some("lotide.example")
    );
    assert_eq!(
        get_actor_host(true, Some("https://peer.example/users/1"), "lotide.example").as_deref(),
        Some("lotide.example")
    );
    assert_eq!(
        get_actor_host(false, Some("https://peer.example/users/1"), "lotide.example").as_deref(),
        Some("peer.example")
    );
    assert_eq!(get_actor_host(false, None, "lotide.example"), None);
    assert_eq!(get_actor_host(false, Some("nonsense"), "lotide.example"), None);
}

#[test]
fn unknown_host_is_shown_as_unknown() {
    assert_eq!(get_actor_host_or_unknown(false, None, "lotide.example"), "[unknown]");
    assert_eq!(
        get_actor_host_or_unknown(false, Some("https://peer.example:81/u"), "lotide.example"),
        "peer.example:81"
    );
    assert_eq!(get_actor_host_or_unknown(true, None, "lotide.example"), "lotide.example");
}

#[test]
fn parsed_address_gives_host_and_request_target() {
    let parts = UrlParts {
        host: Some("peer.example".to_owned()),
        port: Some(8080),
        path: "/x".to_owned(),
        query: Some("y=1".to_owned()),
    };
    assert_eq!(shown_host_of(&parts), Some("peer.example:8080".to_owned()));
    assert_eq!(path_and_query_of(&parts), "/x?y=1");
    let bare = UrlParts { host: None, port: None, path: "/".to_owned(), query: None };
    assert_eq!(shown_host_of(&bare), None);
    assert_eq!(path_and_query_of(&bare), "/");
    let empty_query =
        UrlParts { host: None, port: Some(1), path: "/p".to_owned(), query: Some(String::new()) };
    assert_eq!(shown_host_of(&empty_query), None);
    assert_eq!(path_and_query_of(&empty_query), "/p?");
}

#[test]
fn path_and_query_are_joined_by_a_question_mark() {
    assert_eq!(
        get_path_and_query("https://peer.example/inbox").unwrap(),
        "/inbox"
    );
    assert_eq!(
        get_path_and_query("https://peer.example/inbox?a=1&b=2").unwrap(),
        "/inbox?a=1&b=2"
    );
    assert_eq!(get_path_and_query("https://peer.example/x?y=1").unwrap(), "/x?y=1");
    assert_eq!(get_path_and_query("https://peer.example").unwrap(), "/");
    assert_eq!(
        get_path_and_query("relative/path"),
        Err(url::ParseError::RelativeUrlWithoutBase)
    );
}

use lotide::content::{post_content, render_markdown, reply_content, Content};
use lotide::Error;

fn user_error(e: Error) -> (u16, String) {
    match e {
        Error::UserError(res) => (res.status, String::from_utf8(res.body).unwrap()),
        other => panic!("{:?}", other),
    }
}

fn s(text: &str) -> Option<String> {
    Some(text.to_owned())
}

#[test]
fn markdown_is_rendered_to_html() {
    assert_eq!(render_markdown("**bold**"), "<p><strong>bold</strong></p>\n");
    assert_eq!(render_markdown("# Title"), "<h1>Title</h1>\n");
    assert_eq!(render_markdown(""), "");
    assert_eq!(render_markdown("a < b"), "<p>a &lt; b</p>\n");
}

#[test]
fn post_with_markdown_stores_markdown_and_html() {
    let c = post_content(&None, None, s("*hi*")).unwrap();
    assert_eq!(
        c,
        Content { text: None, markdown: s("*hi*"), html: s("<p><em>hi</em></p>\n") }
    );
}

#[test]
fn post_with_text_or_link_only() {
    let c = post_content(&None, s("plain"), None).unwrap();
    assert_eq!(c, Content { text: s("plain"), markdown: None, html: None });
    let c = post_content(&s("https://example.com"), None, None).unwrap();
    assert_eq!(c, Content { text: None, markdown: None, html: None });
}

#[test]
fn post_carries_exactly_one_of_link_text_and_markdown() {
    for (h, t, m) in [
        (s("https://example.com"), s("plain"), None),
        (s("https://example.com"), None, s("*hi*")),
    ] {
        let (status, body) = user_error(post_content(&h, t, m).unwrap_err());
        assert_eq!(
            (status, body.as_str()),
            (400, "Post must contain only one of href, content_text, or content_markdown")
        );
    }
    assert!(post_content(&s("https://example.com"), None, None).is_ok());
    assert!(post_content(&None, s("plain"), None).is_ok());
    assert!(post_content(&None, None, s("*hi*")).is_ok());
}

#[test]
fn post_needs_some_content_and_not_two_texts() {
    let (status, body) = user_error(post_content(&None, None, None).unwrap_err());
    assert_eq!(
        (status, body.as_str()),
        (400, "Post must contain one of href, content_text, or content_markdown")
    );
    let (status, body) = user_error(post_content(&None, s("a"), s("b")).unwrap_err());
    assert_eq!(
        (status, body.as_str()),
        (400, "content_markdown and content_text are mutually exclusive")
    );
    let (status, body) = user_error(post_content(&s("h"), s("a"), s("b")).unwrap_err());
    assert_eq!(
        (status, body.as_str()),
        (400, "content_markdown and content_text are mutually exclusive")
    );
}

#[test]
fn reply_has_exactly_one_of_text_and_markdown() {
    let c = reply_content(s("plain"), None).unwrap();
    assert_eq!(c, Content { text: s("plain"), markdown: None, html: None });
    let c = reply_content(None, s("`x`")).unwrap();
    assert_eq!(c, Content { text: None, markdown: s("`x`"), html: s("<p><code>x</code></p>\n") });
    for (t, m) in [(None, None), (s("a"), s("b"))] {
        let (status, body) = user_error(reply_content(t, m).unwrap_err());
        assert_eq!(
            (status, body.as_str()),
            (400, "Exactly one of content_markdown and content_text must be specified")
        );
    }
}

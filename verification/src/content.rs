//! The content of posts and comments: which of plain text, markdown and a
//! link a submission may carry, and what is stored for it.

use crate::auth::{is_user_error, user_error};
use crate::response::{Error, BAD_REQUEST};
use crate::text::text_of;
use vstd::prelude::*;

verus! {

/// The HTML that a markdown text renders to: what `html::push_html` of the
/// crate pulldown-cmark writes for the events of `Parser::new`.
pub uninterp spec fn markdown_html(src: Seq<char>) -> Seq<char>;

/// Renders markdown with `pulldown_cmark::Parser::new` and
/// `pulldown_cmark::html::push_html`. The HTML depends on the text alone.
#[verifier::external_body]
fn push_markdown_html(src: &str) -> (html: String)
    ensures
        html@ == markdown_html(src@),
{
    let parser = pulldown_cmark::Parser::new(src);
    let mut output = String::new();
    pulldown_cmark::html::push_html(&mut output, parser);
    output
}

/// Renders markdown to HTML.
pub fn render_markdown(src: &str) -> (html: String)
    ensures
        html@ == markdown_html(src@),
{
    push_markdown_html(src)
}

/// What is stored of the content of a post or comment.
#[derive(Debug, Clone, PartialEq, Eq)]
pub struct Content {
    pub text: Option<String>,
    pub markdown: Option<String>,
    pub html: Option<String>,
}

/// `Content` with its strings as sequences of characters.
pub struct ContentView {
    pub text: Option<Seq<char>>,
    pub markdown: Option<Seq<char>>,
    pub html: Option<Seq<char>>,
}

impl View for Content {
    type V = ContentView;

    open spec fn view(&self) -> ContentView {
        ContentView {
            text: text_of(self.text),
            markdown: text_of(self.markdown),
            html: text_of(self.html),
        }
    }
}

/// What is stored for a submission: markdown is kept and rendered, plain
/// text is kept as it is.
pub open spec fn stored_content(text: Option<Seq<char>>, markdown: Option<Seq<char>>)
    -> ContentView {
    match markdown {
        Some(md) => ContentView { text: None, markdown: Some(md), html: Some(markdown_html(md)) },
        None => ContentView { text, markdown: None, html: None },
    }
}

fn store_content(content_text: Option<String>, content_markdown: Option<String>) -> (r: Content)
    ensures
        r@ == stored_content(text_of(content_text), text_of(content_markdown)),
{
    match content_markdown {
        Some(md) => {
            let html = render_markdown(md.as_str());
            Content { text: None, markdown: Some(md), html: Some(html) }
        },
        None => Content { text: content_text, markdown: None, html: None },
    }
}

/// One for what is given, nothing for what is not.
pub open spec fn counted(given: bool) -> nat {
    if given {
        1
    } else {
        0
    }
}

/// How many of the three are given.
pub open spec fn given_count(href: bool, text: bool, markdown: bool) -> nat {
    counted(href) + counted(text) + counted(markdown)
}

/// What is stored for the content of a new post. A post carries exactly one
/// of a link, plain text and markdown: a submission with none of them, with
/// both plain text and markdown, or with a link beside either is refused
/// with 400.
pub fn post_content(
    href: &Option<String>,
    content_text: Option<String>,
    content_markdown: Option<String>,
) -> (r: Result<Content, Error>)
    ensures
        r is Ok <==> given_count(href is Some, content_text is Some, content_markdown is Some)
            == 1,
        match r {
            Ok(content) => content@ == stored_content(
                text_of(content_text),
                text_of(content_markdown),
            ),
            Err(e) => if href is None && content_text is None && content_markdown is None {
                is_user_error(
                    e,
                    BAD_REQUEST,
                    "Post must contain one of href, content_text, or content_markdown",
                )
            } else if content_text is Some && content_markdown is Some {
                is_user_error(
                    e,
                    BAD_REQUEST,
                    "content_markdown and content_text are mutually exclusive",
                )
            } else {
                is_user_error(
                    e,
                    BAD_REQUEST,
                    "Post must contain only one of href, content_text, or content_markdown",
                )
            },
        },
{
    if href.is_none() && content_text.is_none() && content_markdown.is_none() {
        return Err(
            user_error(
                BAD_REQUEST,
                "Post must contain one of href, content_text, or content_markdown",
            ),
        );
    }
    if content_markdown.is_some() && content_text.is_some() {
        return Err(
            user_error(BAD_REQUEST, "content_markdown and content_text are mutually exclusive"),
        );
    }
    if href.is_some() && (content_markdown.is_some() || content_text.is_some()) {
        return Err(
            user_error(
                BAD_REQUEST,
                "Post must contain only one of href, content_text, or content_markdown",
            ),
        );
    }
    Ok(store_content(content_text, content_markdown))
}

/// What is stored for the content of a new comment. A comment has plain
/// text or markdown, and not both: any other submission is refused with 400.
pub fn reply_content(content_text: Option<String>, content_markdown: Option<String>) -> (r: Result<
    Content,
    Error,
>)
    ensures
        match r {
            Ok(content) => (content_text is Some) != (content_markdown is Some) && content@
                == stored_content(text_of(content_text), text_of(content_markdown)),
            Err(e) => (content_text is Some) == (content_markdown is Some) && is_user_error(
                e,
                BAD_REQUEST,
                "Exactly one of content_markdown and content_text must be specified",
            ),
        },
{
    if content_markdown.is_some() == content_text.is_some() {
        return Err(
            user_error(
                BAD_REQUEST,
                "Exactly one of content_markdown and content_text must be specified",
            ),
        );
    }
    Ok(store_content(content_text, content_markdown))
}

} // verus!

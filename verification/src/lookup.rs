//! Looking up a remote actor by address or by `user@host`.

use crate::ids::ActorLocalRef;
use crate::response::{
    res_to_error, simple_response, typed_response, Error, HttpResponse, BAD_REQUEST, NOT_FOUND,
    OK,
};
use crate::text::{
    chars_of, has_at, int_decimal, matches_at, push_int_decimal, push_str, rfind_char, slice_of,
    str_eq, string_of, text_of,
};
use vstd::prelude::*;
use vstd::string::StringSliceAdditionalSpecFns;

verus! {

/// The media type of activity documents.
pub const ACTIVITY_TYPE: &'static str = "application/activity+json";

/// The address written in `src` as `hyper::Uri` writes it back, where `src`
/// is an address that `hyper::Uri` can read.
pub uninterp spec fn uri_text(src: Seq<char>) -> Option<Seq<char>>;

/// Pairs of names and values in the form `application/x-www-form-urlencoded`:
/// what `serde_urlencoded::to_string` writes for them.
pub uninterp spec fn form_urlencoded(pairs: Seq<(Seq<char>, Seq<char>)>) -> Option<Seq<char>>;

/// Reads an address with the `FromStr` of `hyper::Uri` and writes it back
/// with its `Display`; `None` where `hyper::Uri` refuses the text. The
/// outcome depends on the text alone.
#[verifier::external_body]
fn parse_uri(src: &str) -> (r: Option<String>)
    ensures
        text_of(r) == uri_text(src@),
{
    src.parse::<hyper::Uri>().ok().map(|uri| uri.to_string())
}

/// The characters of the names and values of a list of pairs.
pub open spec fn pair_texts(pairs: Seq<(String, String)>) -> Seq<(Seq<char>, Seq<char>)> {
    pairs.map_values(|p: (String, String)| (p.0@, p.1@))
}

/// Writes pairs with `serde_urlencoded::to_string`; `None` where it reports
/// an error. The outcome depends on the pairs alone.
#[verifier::external_body]
fn urlencode(pairs: &Vec<(String, String)>) -> (r: Option<String>)
    ensures
        text_of(r) == form_urlencoded(pair_texts(pairs@)),
{
    serde_urlencoded::to_string(pairs).ok()
}

/// What a lookup asks for.
#[derive(Debug, Clone, PartialEq, Eq)]
pub enum LookupQuery {
    /// The actor at this address.
    URI(String),
    /// The actor that `host` knows as `user`.
    WebFinger { user: String, host: String },
}

/// `LookupQuery` with its strings as sequences of characters.
pub enum LookupQueryView {
    URI(Seq<char>),
    WebFinger { user: Seq<char>, host: Seq<char> },
}

impl View for LookupQuery {
    type V = LookupQueryView;

    open spec fn view(&self) -> LookupQueryView {
        match *self {
            LookupQuery::URI(uri) => LookupQueryView::URI(uri@),
            LookupQuery::WebFinger { user, host } => LookupQueryView::WebFinger {
                user: user@,
                host: host@,
            },
        }
    }
}

/// Whether the last `@` of `src` stands at `i`.
pub open spec fn is_last_at(src: Seq<char>, i: int) -> bool {
    0 <= i < src.len() && src[i] == '@' && forall|j: int| i < j < src.len() ==> src[j] != '@'
}

/// A user name without the prefix `acct:`, or else without a leading `@`.
pub open spec fn bare_user(user: Seq<char>) -> Seq<char> {
    if has_at(user, 0, "acct:"@) {
        user.skip(5)
    } else if user.len() > 0 && user[0] == '@' {
        user.skip(1)
    } else {
        user
    }
}

/// What a query text asks for. A text that starts with `http` is an
/// address. Any other text with an `@` is a user and a host, parted at the
/// last `@`, the user without a prefix `acct:` or a leading `@`.
pub open spec fn lookup_query(src: Seq<char>) -> Option<LookupQueryView> {
    if has_at(src, 0, "http"@) {
        match uri_text(src) {
            Some(uri) => Some(LookupQueryView::URI(uri)),
            None => None,
        }
    } else if exists|i: int| is_last_at(src, i) {
        let at = choose|i: int| is_last_at(src, i);
        Some(LookupQueryView::WebFinger { user: bare_user(src.take(at)), host: src.skip(at + 1) })
    } else {
        None
    }
}

/// Reads a query. An address that cannot be read is an internal error, and
/// so is a text that is neither an address nor has an `@`.
pub fn parse_lookup(src: &str) -> (r: Result<LookupQuery, Error>)
    ensures
        match r {
            Ok(q) => lookup_query(src@) == Some(q@),
            Err(e) => lookup_query(src@) is None && if has_at(src@, 0, "http"@) {
                e is Internal
            } else {
                e matches Error::InternalStrStatic(msg) && msg@ == "Unrecognized lookup format"@
            },
        },
{
    let s = chars_of(src);
    let http = chars_of("http");
    if matches_at(s.as_slice(), 0, http.as_slice()) {
        return match parse_uri(src) {
            Some(uri) => Ok(LookupQuery::URI(uri)),
            None => Err(Error::Internal("Invalid URI".to_owned())),
        };
    }
    match rfind_char(s.as_slice(), '@') {
        Some(at) => {
            proof {
                assert(is_last_at(src@, at as int));
                let k = choose|k: int| is_last_at(src@, k);
                if k < at {
                    assert(src@[at as int] != '@');
                } else if at < k {
                    assert(src@[k] != '@');
                }
                reveal_strlit("acct:");
                assert(src@.take(at as int) =~= s@.subrange(0, at as int));
                assert(src@.skip(at + 1) =~= s@.subrange(at + 1, s@.len() as int));
            }
            let user = slice_of(s.as_slice(), 0, at);
            let host = slice_of(s.as_slice(), at + 1, s.len());
            let acct = chars_of("acct:");
            let bare = if matches_at(user.as_slice(), 0, acct.as_slice()) {
                assert(user@.skip(5) =~= user@.subrange(5, user@.len() as int));
                slice_of(user.as_slice(), 5, user.len())
            } else if user.len() > 0 && user[0] == '@' {
                assert(user@.skip(1) =~= user@.subrange(1, user@.len() as int));
                slice_of(user.as_slice(), 1, user.len())
            } else {
                user
            };
            Ok(
                LookupQuery::WebFinger {
                    user: string_of(bare.as_slice()),
                    host: string_of(host.as_slice()),
                },
            )
        },
        None => {
            proof {
                assert forall|i: int| !is_last_at(src@, i) by {}
            }
            Err(Error::InternalStrStatic("Unrecognized lookup format"))
        },
    }
}

/// The account that a WebFinger request asks about: `acct:`, the user, `@`,
/// the host.
pub open spec fn acct_resource(user: Seq<char>, host: Seq<char>) -> Seq<char> {
    "acct:"@ + user + "@"@ + host
}

/// The address of the WebFinger request for `user` at `host`, where the
/// query can be written.
pub open spec fn webfinger_uri(user: Seq<char>, host: Seq<char>) -> Option<Seq<char>> {
    match form_urlencoded(
        seq![("resource"@, acct_resource(user, host)), ("rel"@, "self"@)],
    ) {
        Some(query) => Some("https://"@ + host + "/.well-known/webfinger?"@ + query),
        None => None,
    }
}

/// The address to ask for the actor that `host` knows as `user`. A query
/// that cannot be written is an internal error.
pub fn webfinger_request_uri(user: &str, host: &str) -> (r: Result<String, Error>)
    ensures
        match r {
            Ok(uri) => webfinger_uri(user@, host@) == Some(uri@),
            Err(e) => webfinger_uri(user@, host@) is None && e is Internal,
        },
{
    let mut resource = "acct:".to_owned();
    push_str(&mut resource, user);
    push_str(&mut resource, "@");
    push_str(&mut resource, host);
    let mut pairs: Vec<(String, String)> = Vec::new();
    pairs.push(("resource".to_owned(), resource));
    pairs.push(("rel".to_owned(), "self".to_owned()));
    assert(pair_texts(pairs@) =~= seq![
        ("resource"@, acct_resource(user@, host@)),
        ("rel"@, "self"@),
    ]);
    match urlencode(&pairs) {
        Some(query) => {
            let mut uri = "https://".to_owned();
            push_str(&mut uri, host);
            push_str(&mut uri, "/.well-known/webfinger?");
            push_str(&mut uri, query.as_str());
            Ok(uri)
        },
        None => Err(Error::Internal("Failed to write WebFinger query".to_owned())),
    }
}

/// A link of a WebFinger answer.
#[derive(Debug, Clone, PartialEq, Eq)]
pub struct FingerLink {
    pub rel: String,
    pub type_: Option<String>,
    pub href: Option<String>,
}

/// Whether a link leads to the actor itself: its relation is `self`, its
/// type is that of activity documents, and it has an address.
pub open spec fn is_self_link(link: FingerLink) -> bool {
    link.rel@ == "self"@ && text_of(link.type_) == Some(ACTIVITY_TYPE@) && link.href is Some
}

/// The position of the first link that leads to the actor itself.
pub fn find_self_link(links: &Vec<FingerLink>) -> (r: Option<usize>)
    ensures
        match r {
            Some(i) => i < links.len() && is_self_link(links@[i as int]) && forall|j: int|
                0 <= j < i ==> !is_self_link(links@[j]),
            None => forall|j: int| 0 <= j < links.len() ==> !is_self_link(links@[j]),
        },
{
    let mut i: usize = 0;
    while i < links.len()
        invariant
            i <= links.len(),
            forall|j: int| 0 <= j < i ==> !is_self_link(links@[j]),
        decreases links.len() - i,
    {
        let link = &links[i];
        let typed = match &link.type_ {
            Some(t) => str_eq(t.as_str(), ACTIVITY_TYPE),
            None => false,
        };
        if str_eq(link.rel.as_str(), "self") && typed && link.href.is_some() {
            return Some(i);
        }
        i = i + 1;
    }
    None
}

/// The next thing to do for a lookup.
#[derive(Debug)]
pub enum LookupStep {
    /// Fetch the actor at `uri`, then answer with `lookup_response`.
    FetchActor { uri: String },
    /// Ask `uri` for the actor's links, then go on with
    /// `lookup_after_webfinger`.
    WebFinger { uri: String },
    /// Answer with this.
    Respond(HttpResponse),
}

/// The list of found actors as the client gets it: the key of the
/// community, or nothing.
pub open spec fn found_list(id: Option<int>) -> Seq<char> {
    match id {
        Some(id) => "[{\"id\":"@ + int_decimal(id) + "}]"@,
        None => "[]"@,
    }
}

/// Whether a response is the answer to a lookup that found nothing: 200,
/// the media type of JSON, and an empty list.
pub open spec fn is_nothing_found(res: HttpResponse) -> bool {
    res.status == OK && text_of(res.content_type) == Some("application/json"@) && res.body@
        == "[]".spec_bytes()
}

/// The answer to a lookup that found nothing: an empty list.
pub fn nothing_found() -> (res: HttpResponse)
    ensures
        is_nothing_found(res),
{
    typed_response("application/json", "[]".as_bytes_vec())
}

/// The first step of a lookup: an address is fetched, a user at a host is
/// asked for by WebFinger.
pub fn lookup_start(query: &str) -> (r: Result<LookupStep, Error>)
    ensures
        match lookup_query(query@) {
            None => r matches Err(e) && if has_at(query@, 0, "http"@) {
                e is Internal
            } else {
                e matches Error::InternalStrStatic(msg) && msg@ == "Unrecognized lookup format"@
            },
            Some(LookupQueryView::URI(uri)) => r matches Ok(LookupStep::FetchActor { uri: u })
                && u@ == uri,
            Some(LookupQueryView::WebFinger { user, host }) => match webfinger_uri(user, host) {
                Some(uri) => r matches Ok(LookupStep::WebFinger { uri: u }) && u@ == uri,
                None => r matches Err(e) && e is Internal,
            },
        },
{
    match parse_lookup(query) {
        Ok(LookupQuery::URI(uri)) => Ok(LookupStep::FetchActor { uri }),
        Ok(LookupQuery::WebFinger { user, host }) => {
            match webfinger_request_uri(user.as_str(), host.as_str()) {
                Ok(uri) => Ok(LookupStep::WebFinger { uri }),
                Err(e) => Err(e),
            }
        },
        Err(e) => Err(e),
    }
}

/// What to make of the answer to the WebFinger request, before its body is
/// read: a host that does not know the user ends the lookup with an empty
/// list, any other failure is an error, and a success is handed back to be
/// read.
pub fn webfinger_answer(res: HttpResponse) -> (r: Result<Result<HttpResponse, HttpResponse>, Error>)
    ensures
        match r {
            Ok(Err(done)) => res.status == NOT_FOUND && is_nothing_found(done),
            Ok(Ok(answer)) => crate::response::is_success(res.status) && answer == res,
            Err(e) => res.status != NOT_FOUND && !crate::response::is_success(res.status) && (
            e matches Error::InternalStr(msg) && msg@ == "Error in remote response: "@
                + crate::response::utf8_lossy(res.body@)),
        },
{
    if res.status == NOT_FOUND {
        return Ok(Err(nothing_found()));
    }
    match res_to_error(res) {
        Ok(res) => Ok(Ok(res)),
        Err(e) => Err(e),
    }
}

/// The step after the links of the WebFinger answer were read: the actor at
/// the first link to the actor itself is fetched; without such a link the
/// lookup ends with an empty list. A link whose address cannot be read is an
/// internal error.
pub fn lookup_after_webfinger(links: &Vec<FingerLink>) -> (r: Result<LookupStep, Error>)
    ensures
        match r {
            Ok(LookupStep::FetchActor { uri }) => exists|i: int|
                0 <= i < links.len() && is_self_link(#[trigger] links@[i]) && (forall|j: int|
                    0 <= j < i ==> !is_self_link(links@[j])) && uri_text(links@[i].href->0@)
                    == Some(uri@),
            Ok(LookupStep::Respond(res)) => (forall|j: int|
                0 <= j < links.len() ==> !is_self_link(links@[j])) && is_nothing_found(res),
            Ok(LookupStep::WebFinger { .. }) => false,
            Err(e) => e is Internal && exists|i: int|
                0 <= i < links.len() && is_self_link(#[trigger] links@[i]) && (forall|j: int|
                    0 <= j < i ==> !is_self_link(links@[j])) && uri_text(links@[i].href->0@)
                    is None,
        },
{
    match find_self_link(links) {
        Some(i) => match &links[i].href {
            Some(href) => match parse_uri(href.as_str()) {
                Some(uri) => Ok(LookupStep::FetchActor { uri }),
                None => Err(Error::Internal("Invalid URI".to_owned())),
            },
            None => Ok(LookupStep::Respond(nothing_found())),
        },
        None => Ok(LookupStep::Respond(nothing_found())),
    }
}

/// The answer to a lookup once the actor is known: a community is reported
/// by its key, anything else is refused with 400 and `Not a group`.
pub fn lookup_response(actor: ActorLocalRef) -> (res: HttpResponse)
    ensures
        match actor {
            ActorLocalRef::Community(id) => res.status == OK && text_of(res.content_type) == Some(
                "application/json"@,
            ) && res.body@ == vstd::utf8::encode_utf8(found_list(Some(id.0 as int))),
            ActorLocalRef::Person(_) => res.status == BAD_REQUEST && res.content_type is None
                && res.body@ == "Not a group".spec_bytes(),
        },
{
    match actor {
        ActorLocalRef::Community(id) => {
            let mut s = "[{\"id\":".to_owned();
            push_int_decimal(&mut s, id.0);
            push_str(&mut s, "}]");
            let body = s.as_str().as_bytes_vec();
            typed_response("application/json", body)
        },
        ActorLocalRef::Person(_) => simple_response(BAD_REQUEST, "Not a group"),
    }
}

} // verus!

//! Hosts and paths of addresses.

use crate::text::{nat_decimal, push_nat_decimal, push_str, text_of};
use std::borrow::Cow;
use vstd::prelude::*;

verus! {

#[verifier::external_type_specification]
#[verifier::external_body]
pub struct ExUrlParseError(url::ParseError);

/// The parts of an address that the library reads.
#[derive(Debug, Clone, PartialEq, Eq)]
pub struct UrlParts {
    pub host: Option<String>,
    pub port: Option<u16>,
    pub path: String,
    pub query: Option<String>,
}

/// `UrlParts` with its strings as sequences of characters.
pub struct UrlPartsView {
    pub host: Option<Seq<char>>,
    pub port: Option<u16>,
    pub path: Seq<char>,
    pub query: Option<Seq<char>>,
}

impl View for UrlParts {
    type V = UrlPartsView;

    open spec fn view(&self) -> UrlPartsView {
        UrlPartsView {
            host: text_of(self.host),
            port: self.port,
            path: self.path@,
            query: text_of(self.query),
        }
    }
}

/// The parts of the address written in `input`, where `input` is an
/// absolute address: what `Url::parse` of the crate url makes of it, read
/// through `host_str`, `port`, `path` and `query`.
pub uninterp spec fn url_parts(input: Seq<char>) -> Option<UrlPartsView>;

/// Parses an address with `url::Url::parse` and reads its host, its port,
/// its path and its query. The outcome depends on the text alone; the error
/// is the one that `Url::parse` gave.
#[verifier::external_body]
fn parse_url(input: &str) -> (r: Result<UrlParts, url::ParseError>)
    ensures
        match r {
            Ok(parts) => url_parts(input@) == Some(parts@),
            Err(_) => url_parts(input@) is None,
        },
{
    let url = url::Url::parse(input)?;
    Ok(
        UrlParts {
            host: url.host_str().map(|h| h.to_owned()),
            port: url.port(),
            path: url.path().to_owned(),
            query: url.query().map(|q| q.to_owned()),
        },
    )
}

/// The host of an address as it is shown: the host name, followed by a colon
/// and the port where the address names a port.
pub open spec fn shown_host(parts: UrlPartsView) -> Option<Seq<char>> {
    match parts.host {
        Some(host) => Some(
            match parts.port {
                Some(port) => host + ":"@ + nat_decimal(port as nat),
                None => host,
            },
        ),
        None => None,
    }
}

/// The shown host of the address written in `url`, where it is an address
/// with a host.
pub open spec fn url_host(url: Seq<char>) -> Option<Seq<char>> {
    match url_parts(url) {
        Some(parts) => shown_host(parts),
        None => None,
    }
}

/// The host of a parsed address as it is shown: the host name, followed by
/// a colon and the port where the address names a port. `None` where the
/// address has no host.
pub fn shown_host_of(parts: &UrlParts) -> (r: Option<String>)
    ensures
        text_of(r) == shown_host(parts@),
{
    match &parts.host {
        Some(host) => {
            let mut shown = host.clone();
            match parts.port {
                Some(port) => {
                    push_str(&mut shown, ":");
                    push_nat_decimal(&mut shown, port as u64);
                },
                None => {},
            }
            Some(shown)
        },
        None => None,
    }
}

/// The host of the address written in `url`, with the port where one is
/// named. `None` where `url` is no absolute address or has no host.
pub fn get_url_host(url: &str) -> (r: Option<String>)
    ensures
        text_of(r) == url_host(url@),
{
    match parse_url(url) {
        Ok(parts) => shown_host_of(&parts),
        Err(_) => None,
    }
}

/// The host of an actor: this instance's host name for a local actor, the
/// host of its address for a remote one.
pub open spec fn actor_host(local: bool, ap_id: Option<Seq<char>>, local_hostname: Seq<char>)
    -> Option<Seq<char>> {
    if local {
        Some(local_hostname)
    } else {
        match ap_id {
            Some(ap_id) => url_host(ap_id),
            None => None,
        }
    }
}

/// The characters of an optional string slice.
pub open spec fn str_text_of(s: Option<&str>) -> Option<Seq<char>> {
    match s {
        Some(s) => Some(s@),
        None => None,
    }
}

/// The characters of an optional borrowed or owned string.
pub open spec fn cow_text_of(s: Option<Cow<'_, str>>) -> Option<Seq<char>> {
    match s {
        Some(s) => Some(s@),
        None => None,
    }
}

/// The host that an actor lives on: the local host name for a local actor,
/// the host of the actor's address for a remote one. `None` for a remote
/// actor without an address, or with one that has no host.
pub fn get_actor_host<'a>(local: bool, ap_id: Option<&str>, local_hostname: &'a str) -> (r: Option<
    Cow<'a, str>,
>)
    ensures
        cow_text_of(r) == actor_host(local, str_text_of(ap_id), local_hostname@),
{
    if local {
        Some(Cow::Borrowed(local_hostname))
    } else {
        match ap_id {
            Some(ap_id) => match get_url_host(ap_id) {
                Some(host) => Some(Cow::Owned(host)),
                None => None,
            },
            None => None,
        }
    }
}

/// The host that an actor lives on, or `[unknown]` where it cannot be told.
pub fn get_actor_host_or_unknown<'a>(local: bool, ap_id: Option<&str>, local_hostname: &'a str)
    -> (r: Cow<'a, str>)
    ensures
        r@ == match actor_host(local, str_text_of(ap_id), local_hostname@) {
            Some(host) => host,
            None => "[unknown]"@,
        },
{
    match get_actor_host(local, ap_id, local_hostname) {
        Some(host) => host,
        None => Cow::Borrowed("[unknown]"),
    }
}

/// The target of a request for an address: its path, followed by a question
/// mark and its query where it has one.
pub open spec fn path_and_query(parts: UrlPartsView) -> Seq<char> {
    match parts.query {
        Some(query) => parts.path + "?"@ + query,
        None => parts.path,
    }
}

/// The target of a request for a parsed address: its path, followed by a
/// question mark and its query where it has one.
pub fn path_and_query_of(parts: &UrlParts) -> (s: String)
    ensures
        s@ == path_and_query(parts@),
{
    let mut s = parts.path.clone();
    match &parts.query {
        Some(query) => {
            push_str(&mut s, "?");
            push_str(&mut s, query.as_str());
        },
        None => {},
    }
    s
}

/// The target of a request for the address written in `url`: its path,
/// followed by a question mark and its query where it has one. An error
/// where `url` is no absolute address.
pub fn get_path_and_query(url: &str) -> (r: Result<String, url::ParseError>)
    ensures
        match r {
            Ok(s) => url_parts(url@) matches Some(parts) && s@ == path_and_query(parts),
            Err(_) => url_parts(url@) is None,
        },
{
    match parse_url(url) {
        Ok(parts) => Ok(path_and_query_of(&parts)),
        Err(e) => Err(e),
    }
}

} // verus!

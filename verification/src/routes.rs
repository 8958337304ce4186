//! Routing of request paths. A path is matched from its front: a named child
//! takes a path that starts with its name, a numbered or free child takes the
//! first segment. The first child that takes the path decides, whatever its
//! own children then make of the rest.

pub mod api;
pub mod apub;

use crate::response::RoutingFailure;
use crate::text::{
    find_char, has_at, matches_at, parse_i64, parse_i64_spec, slice_of, str_eq, string_of,
    text_of, chars_of,
};
use vstd::prelude::*;

verus! {

/// The text that a path segment stands for once its percent escapes are
/// resolved, where the result is valid UTF-8: what `percent_decode` followed
/// by `decode_utf8`, both of the crate percent-encoding, return.
pub uninterp spec fn percent_decoded(seg: Seq<char>) -> Option<Seq<char>>;

/// Resolves the percent escapes of a segment with `percent_encoding::percent_decode`
/// and reads the bytes as UTF-8 with `PercentDecode::decode_utf8`. The result
/// depends on the segment alone; a segment without a percent sign is handed
/// back as it is, since only a percent sign starts an escape.
#[verifier::external_body]
fn percent_decode_utf8(seg: &str) -> (r: Option<String>)
    ensures
        text_of(r) == percent_decoded(seg@),
        !seg@.contains('%') ==> text_of(r) == Some(seg@),
{
    percent_encoding::percent_decode(seg.as_bytes()).decode_utf8().ok().map(|s| s.into_owned())
}

/// What is left of `path` behind the child named `name`, if that child takes
/// the path: the path starts with the name, and ends there or goes on with a
/// slash.
pub open spec fn behind_child(path: Seq<char>, name: Seq<char>) -> Option<Seq<char>> {
    if has_at(path, 0, name) {
        let rest = path.skip(name.len() as int);
        if rest.len() == 0 {
            Some(rest)
        } else if rest[0] == '/' {
            Some(rest.skip(1))
        } else {
            None
        }
    } else {
        None
    }
}

/// Whether the first slash of `path` stands at `i`.
pub open spec fn is_first_slash(path: Seq<char>, i: int) -> bool {
    0 <= i < path.len() && path[i] == '/' && forall|j: int| 0 <= j < i ==> path[j] != '/'
}

/// Where the first segment of `path` ends: at the first slash, or at the end
/// of the path.
pub open spec fn segment_end(path: Seq<char>) -> int {
    if exists|i: int| is_first_slash(path, i) {
        choose|i: int| is_first_slash(path, i)
    } else {
        path.len() as int
    }
}

/// The first segment of `path`.
pub open spec fn first_segment(path: Seq<char>) -> Seq<char> {
    path.take(segment_end(path))
}

/// What is left of `path` behind its first segment and the slash that ends
/// it.
pub open spec fn behind_segment(path: Seq<char>) -> Seq<char> {
    if segment_end(path) < path.len() {
        path.skip(segment_end(path) + 1)
    } else {
        Seq::empty()
    }
}

/// The number in the first segment and what is left behind it, if a numbered
/// child takes the path: the segment, with its escapes resolved, is the
/// numeral of a 64-bit signed integer.
pub open spec fn number_child(path: Seq<char>) -> Option<(i64, Seq<char>)> {
    match percent_decoded(first_segment(path)) {
        Some(text) => match parse_i64_spec(text) {
            Some(v) => Some((v, behind_segment(path))),
            None => None,
        },
        None => None,
    }
}

/// The text of the first segment and what is left behind it, if a free child
/// takes the path: the segment's escapes resolve to valid UTF-8.
pub open spec fn text_child(path: Seq<char>) -> Option<(Seq<char>, Seq<char>)> {
    match percent_decoded(first_segment(path)) {
        Some(text) => Some((text, behind_segment(path))),
        None => None,
    }
}

/// Two positions that are both the first slash are one position.
proof fn lemma_first_slash_unique(path: Seq<char>, i: int, j: int)
    requires
        is_first_slash(path, i),
        is_first_slash(path, j),
    ensures
        i == j,
{
    if i < j {
        assert(path[i] != '/');
    } else if j < i {
        assert(path[j] != '/');
    }
}

/// Tries the child named `name` on the path from `at` on. Returns where the
/// rest begins if the child takes the path.
pub(crate) fn take_child(path: &[char], at: usize, name: &str) -> (r: Option<usize>)
    requires
        at <= path.len(),
    ensures
        match r {
            Some(next) => at <= next <= path.len() && behind_child(path@.skip(at as int), name@)
                == Some(path@.skip(next as int)),
            None => behind_child(path@.skip(at as int), name@) is None,
        },
{
    let n = chars_of(name);
    let ghost rest = path@.skip(at as int);
    proof {
        if has_at(rest, 0, name@) {
            assert(path@.subrange(at as int, at + name@.len()) =~= rest.subrange(
                0,
                name@.len() as int,
            ));
        }
        if has_at(path@, at as int, name@) {
            assert(path@.subrange(at as int, at + name@.len()) =~= rest.subrange(
                0,
                name@.len() as int,
            ));
        }
    }
    if !matches_at(path, at, n.as_slice()) {
        return None;
    }
    let next = at + n.len();
    assert(rest.skip(name@.len() as int) =~= path@.skip(next as int));
    if next == path.len() {
        Some(next)
    } else if path[next] == '/' {
        assert(path@.skip(next as int).skip(1) =~= path@.skip(next + 1));
        Some(next + 1)
    } else {
        None
    }
}

/// Cuts the first segment off the path from `at` on. Returns the segment and
/// where the rest begins.
pub(crate) fn take_segment(path: &[char], at: usize) -> (r: (String, usize))
    requires
        at <= path.len(),
    ensures
        r.0@ == first_segment(path@.skip(at as int)),
        at <= r.1 <= path.len(),
        path@.skip(r.1 as int) == behind_segment(path@.skip(at as int)),
{
    let ghost rest = path@.skip(at as int);
    match find_char(path, at, '/') {
        Some(i) => {
            proof {
                assert(is_first_slash(rest, i - at)) by {
                    assert(rest[i - at] == path@[i as int]);
                    assert forall|j: int| 0 <= j < i - at implies rest[j] != '/' by {
                        assert(rest[j] == path@[at + j]);
                    }
                }
                lemma_first_slash_unique(rest, i - at, segment_end(rest));
                assert(rest.take(i - at) =~= path@.subrange(at as int, i as int));
                assert(rest.skip(i - at + 1) =~= path@.skip(i + 1));
            }
            let seg = slice_of(path, at, i);
            (string_of(seg.as_slice()), i + 1)
        },
        None => {
            proof {
                assert forall|k: int| !is_first_slash(rest, k) by {
                    if 0 <= k < rest.len() {
                        assert(rest[k] == path@[at + k]);
                    }
                }
                assert(rest.take(rest.len() as int) =~= path@.subrange(
                    at as int,
                    path@.len() as int,
                ));
                assert(path@.skip(path@.len() as int) =~= Seq::<char>::empty());
            }
            let seg = slice_of(path, at, path.len());
            (string_of(seg.as_slice()), path.len())
        },
    }
}

/// Tries a numbered child on the path from `at` on. Returns the number and
/// where the rest begins if the child takes the path.
pub(crate) fn take_number(path: &[char], at: usize) -> (r: Option<(i64, usize)>)
    requires
        at <= path.len(),
    ensures
        match r {
            Some((v, next)) => at <= next <= path.len() && number_child(path@.skip(at as int))
                == Some((v, path@.skip(next as int))),
            None => number_child(path@.skip(at as int)) is None,
        },
{
    let (seg, next) = take_segment(path, at);
    match percent_decode_utf8(seg.as_str()) {
        Some(text) => {
            let digits = chars_of(text.as_str());
            match parse_i64(digits.as_slice()) {
                Some(v) => Some((v, next)),
                None => None,
            }
        },
        None => None,
    }
}

/// Tries a free child on the path from `at` on. Returns the text of the
/// segment and where the rest begins if the child takes the path.
pub(crate) fn take_text(path: &[char], at: usize) -> (r: Option<(String, usize)>)
    requires
        at <= path.len(),
    ensures
        match r {
            Some((text, next)) => at <= next <= path.len() && text_child(path@.skip(at as int))
                == Some((text@, path@.skip(next as int))),
            None => text_child(path@.skip(at as int)) is None,
        },
{
    let (seg, next) = take_segment(path, at);
    match percent_decode_utf8(seg.as_str()) {
        Some(text) => Some((text, next)),
        None => None,
    }
}

/// Whether the request method is `name`.
pub(crate) fn is_method(method: &str, name: &str) -> (r: bool)
    ensures
        r == (method@ == name@),
{
    str_eq(method, name)
}

/// Whether nothing is left of the path from `at` on.
pub(crate) fn at_end(path: &[char], at: usize) -> (r: bool)
    requires
        at <= path.len(),
    ensures
        r == (path@.skip(at as int).len() == 0),
{
    at == path.len()
}

/// The answer of a node that has no handler for the method.
pub(crate) fn method_not_allowed<T>() -> (r: Result<T, RoutingFailure>)
    ensures
        r == Err::<T, RoutingFailure>(RoutingFailure::MethodNotAllowed),
{
    Err(RoutingFailure::MethodNotAllowed)
}

/// The answer of a node none of whose children takes the path.
pub(crate) fn not_found<T>() -> (r: Result<T, RoutingFailure>)
    ensures
        r == Err::<T, RoutingFailure>(RoutingFailure::NotFound),
{
    Err(RoutingFailure::NotFound)
}

} // verus!

//! HTTP signatures: the `Signature` header as this instance writes and
//! reads it, the text that is signed, and the decision on an inbound
//! request once the signature itself was checked.

use crate::response::{simple_response, HttpResponse, UNAUTHORIZED};
use crate::lookup::pair_texts;
use crate::text::{chars_eq, chars_of, push_char, push_str, slice_of, string_of};
use vstd::prelude::*;
use vstd::string::StringSliceAdditionalSpecFns;

verus! {

/// The algorithm of every signature that is written or accepted.
pub const ALGORITHM: &'static str = "rsa-sha256";

/// The headers that every signature covers, in the order in which this
/// instance signs them.
pub const SIGNED_HEADERS: &'static str = "(request-target) host date digest";

/// How far the date of a request may lie from the time of its arrival, in
/// seconds.
pub const MAX_SKEW_SECS: i64 = 300;

/// The position of the first `c` in `s` at or after `at`, or the length of
/// `s` where there is none.
pub open spec fn find_from(s: Seq<char>, at: int, c: char) -> int
    decreases s.len() - at,
{
    if at < 0 || at >= s.len() {
        s.len() as int
    } else if s[at] == c {
        at
    } else {
        find_from(s, at + 1, c)
    }
}

/// One parameter as it is written: the name, an equals sign, and the value
/// in double quotes.
pub open spec fn param_text(param: (Seq<char>, Seq<char>)) -> Seq<char> {
    param.0 + seq!['=', '"'] + param.1 + seq!['"']
}

/// Parameters as they are written: one after the other, with commas in
/// between.
pub open spec fn params_text(params: Seq<(Seq<char>, Seq<char>)>) -> Seq<char>
    decreases params.len(),
{
    if params.len() == 0 {
        Seq::empty()
    } else if params.len() == 1 {
        param_text(params[0])
    } else {
        param_text(params[0]) + seq![','] + params_text(params.skip(1))
    }
}

/// The parameters that are written in `s` from `at` on: each a name up to an
/// equals sign and a value in double quotes, with a comma between one and
/// the next. `None` where the text is not of that form.
pub open spec fn params_from(s: Seq<char>, at: int) -> Option<Seq<(Seq<char>, Seq<char>)>>
    decreases s.len() - at,
{
    let eq = find_from(s, at, '=');
    if at < 0 || eq + 1 >= s.len() || s[eq + 1] != '"' {
        None
    } else {
        let close = find_from(s, eq + 2, '"');
        if close >= s.len() {
            None
        } else {
            let param = (s.subrange(at, eq), s.subrange(eq + 2, close));
            if close + 1 == s.len() {
                Some(seq![param])
            } else if s[close + 1] != ',' || close + 2 <= at {
                None
            } else {
                match params_from(s, close + 2) {
                    Some(rest) => Some(seq![param] + rest),
                    None => None,
                }
            }
        }
    }
}

/// The value of the first parameter named `name`.
pub open spec fn value_of(params: Seq<(Seq<char>, Seq<char>)>, name: Seq<char>) -> Option<
    Seq<char>,
>
    decreases params.len(),
{
    if params.len() == 0 {
        None
    } else if params[0].0 == name {
        Some(params[0].1)
    } else {
        value_of(params.skip(1), name)
    }
}

/// What a `Signature` header says.
#[derive(Debug, Clone, PartialEq, Eq)]
pub struct SignatureParams {
    pub key_id: String,
    /// The names of the signed headers, with spaces in between.
    pub headers: String,
    pub signature: String,
}

/// `SignatureParams` with its strings as sequences of characters.
pub struct SignatureParamsView {
    pub key_id: Seq<char>,
    pub headers: Seq<char>,
    pub signature: Seq<char>,
}

impl View for SignatureParams {
    type V = SignatureParamsView;

    open spec fn view(&self) -> SignatureParamsView {
        SignatureParamsView {
            key_id: self.key_id@,
            headers: self.headers@,
            signature: self.signature@,
        }
    }
}

/// What a `Signature` header says: its parameters `keyId`, `headers` and
/// `signature`. `None` where the header is not a list of parameters, lacks
/// one of the three, or names an algorithm other than `rsa-sha256`.
pub open spec fn signature_params(header: Seq<char>) -> Option<SignatureParamsView> {
    match params_from(header, 0) {
        Some(params) => match (
            value_of(params, "keyId"@),
            value_of(params, "headers"@),
            value_of(params, "signature"@),
        ) {
            (Some(key_id), Some(headers), Some(signature)) => if value_of(params, "algorithm"@)
                is None || value_of(params, "algorithm"@) == Some(ALGORITHM@) {
                Some(SignatureParamsView { key_id, headers, signature })
            } else {
                None
            },
            _ => None,
        },
        None => None,
    }
}

/// The `Signature` header for the signature `signature` made with the key
/// `key_id`.
pub open spec fn signature_header(key_id: Seq<char>, signature: Seq<char>) -> Seq<char> {
    params_text(
        seq![
            ("keyId"@, key_id),
            ("algorithm"@, ALGORITHM@),
            ("headers"@, SIGNED_HEADERS@),
            ("signature"@, signature),
        ],
    )
}

fn push_param(s: &mut String, name: &str, value: &str)
    ensures
        final(s)@ == old(s)@ + param_text((name@, value@)),
{
    push_str(s, name);
    push_char(s, '=');
    push_char(s, '"');
    push_str(s, value);
    push_char(s, '"');
    assert(s@ =~= old(s)@ + param_text((name@, value@)));
}

/// Writes the `Signature` header for a signature made with the key `key_id`.
pub fn write_signature_header(key_id: &str, signature: &str) -> (s: String)
    ensures
        s@ == signature_header(key_id@, signature@),
{
    let mut s = String::new();
    push_param(&mut s, "keyId", key_id);
    push_char(&mut s, ',');
    push_param(&mut s, "algorithm", ALGORITHM);
    push_char(&mut s, ',');
    push_param(&mut s, "headers", SIGNED_HEADERS);
    push_char(&mut s, ',');
    push_param(&mut s, "signature", signature);
    proof {
        let p = seq![
            ("keyId"@, key_id@),
            ("algorithm"@, ALGORITHM@),
            ("headers"@, SIGNED_HEADERS@),
            ("signature"@, signature@),
        ];
        let r1 = p.skip(1);
        let r2 = r1.skip(1);
        let r3 = r2.skip(1);
        assert(r1.len() == 3 && r2.len() == 2 && r3.len() == 1);
        assert(r1[0] == p[1] && r2[0] == p[2] && r3[0] == p[3]);
        assert(params_text(r3) == param_text(p[3]));
        assert(params_text(r2) == param_text(p[2]) + seq![','] + params_text(r3));
        assert(params_text(r1) == param_text(p[1]) + seq![','] + params_text(r2));
        assert(params_text(p) == param_text(p[0]) + seq![','] + params_text(r1));
        assert(s@ =~= params_text(p));
    }
    s
}

/// The position found is the first: nothing before it is `c`, and it holds
/// `c` unless it is the end.
pub proof fn lemma_find_from(s: Seq<char>, at: int, c: char)
    requires
        0 <= at <= s.len(),
    ensures
        at <= find_from(s, at, c) <= s.len(),
        find_from(s, at, c) < s.len() ==> s[find_from(s, at, c)] == c,
        forall|i: int| at <= i < find_from(s, at, c) ==> s[i] != c,
    decreases s.len() - at,
{
    if at < s.len() && s[at] != c {
        lemma_find_from(s, at + 1, c);
    }
}

/// A position that holds `c` and has no `c` before it is the one found.
pub proof fn lemma_found_at(s: Seq<char>, at: int, k: int, c: char)
    requires
        0 <= at <= k < s.len(),
        s[k] == c,
        forall|i: int| at <= i < k ==> s[i] != c,
    ensures
        find_from(s, at, c) == k,
    decreases k - at,
{
    if at < k {
        lemma_found_at(s, at + 1, k, c);
    }
}

/// Whether a list of parameters can be written and read back: there is at
/// least one, no name holds an equals sign, and no value a double quote.
pub open spec fn params_plain(params: Seq<(Seq<char>, Seq<char>)>) -> bool {
    &&& params.len() > 0
    &&& forall|i: int|
        0 <= i < params.len() ==> free_of((#[trigger] params[i]).0, '=') && free_of(
            params[i].1,
            '"',
        )
}

/// Whether `c` does not occur in `s`.
pub open spec fn free_of(s: Seq<char>, c: char) -> bool {
    forall|j: int| 0 <= j < s.len() ==> s[j] != c
}

/// Whether `c` does not occur in `s`.
pub fn is_free_of(s: &str, c: char) -> (r: bool)
    ensures
        r == free_of(s@, c),
{
    let text = chars_of(s);
    crate::text::find_char(text.as_slice(), 0, c).is_none()
}

/// Parameters that are written after any text are read back from where they
/// start.
pub proof fn lemma_params_round_trip(front: Seq<char>, params: Seq<(Seq<char>, Seq<char>)>)
    requires
        params_plain(params),
    ensures
        params_from(front + params_text(params), front.len() as int) == Some(params),
    decreases params.len(),
{
    let s = front + params_text(params);
    let at = front.len() as int;
    let p = params[0];
    let eq = at + p.0.len();
    let close = eq + 2 + p.1.len();
    let text = param_text(p);
    assert(text.len() == p.0.len() + 3 + p.1.len());
    assert(free_of(params[0].0, '=') && free_of(params[0].1, '"'));
    if params.len() == 1 {
        assert(s =~= front + text);
    } else {
        assert(s =~= front + text + seq![','] + params_text(params.skip(1)));
    }
    assert forall|i: int| 0 <= i < text.len() implies s[at + i] == text[i] by {}
    assert(s[eq] == '=') by {
        assert(text[eq - at] == '=');
    }
    assert forall|i: int| at <= i < eq implies s[i] != '=' by {
        assert(s[i] == text[i - at]);
        assert(text[i - at] == p.0[i - at]);
    }
    lemma_found_at(s, at, eq, '=');
    assert(s[eq + 1] == '"') by {
        assert(text[eq - at + 1] == '"');
    }
    assert(s[close] == '"') by {
        assert(text[close - at] == '"');
    }
    assert forall|i: int| eq + 2 <= i < close implies s[i] != '"' by {
        assert(s[i] == text[i - at]);
        assert(text[i - at] == p.1[i - eq - 2]);
    }
    lemma_found_at(s, eq + 2, close, '"');
    assert(s.subrange(at, eq) =~= p.0) by {
        assert forall|i: int| 0 <= i < p.0.len() implies s.subrange(at, eq)[i] == p.0[i] by {
            assert(s[at + i] == text[i]);
        }
    }
    assert(s.subrange(eq + 2, close) =~= p.1) by {
        assert forall|i: int| 0 <= i < p.1.len() implies s.subrange(eq + 2, close)[i]
            == p.1[i] by {
            assert(s[eq + 2 + i] == text[eq - at + 2 + i]);
        }
    }
    if params.len() == 1 {
        assert(close + 1 == s.len());
        assert(params =~= seq![p]);
    } else {
        let rest = params.skip(1);
        assert(params_plain(rest)) by {
            assert forall|i: int| 0 <= i < rest.len() implies free_of(
                (#[trigger] rest[i]).0,
                '=',
            ) && free_of(rest[i].1, '"') by {
                assert(rest[i] == params[i + 1]);
            }
        }
        let front2 = front + text + seq![','];
        assert(s =~= front2 + params_text(rest));
        assert(front2.len() == close + 2);
        assert(s[close + 1] == ',');
        lemma_params_round_trip(front2, rest);
        assert(params =~= seq![p] + rest);
    }
}

/// A header that this instance wrote is read back as what was written: the
/// key and the signature are the ones given, and the signed headers are the
/// ones that this instance signs. This holds for every key identifier and
/// signature without a double quote.
pub proof fn lemma_signature_header_round_trip(key_id: Seq<char>, signature: Seq<char>)
    requires
        free_of(key_id, '"'),
        free_of(signature, '"'),
    ensures
        signature_params(signature_header(key_id, signature)) == Some(
            SignatureParamsView { key_id, headers: SIGNED_HEADERS@, signature },
        ),
{
    reveal_strlit("keyId");
    reveal_strlit("algorithm");
    reveal_strlit("headers");
    reveal_strlit("signature");
    reveal_strlit("rsa-sha256");
    reveal_strlit("(request-target) host date digest");
    let params = seq![
        ("keyId"@, key_id),
        ("algorithm"@, ALGORITHM@),
        ("headers"@, SIGNED_HEADERS@),
        ("signature"@, signature),
    ];
    assert(params_plain(params));
    lemma_params_round_trip(Seq::empty(), params);
    assert(Seq::<char>::empty() + params_text(params) =~= params_text(params));
    let r1 = params.skip(1);
    let r2 = r1.skip(1);
    let r3 = r2.skip(1);
    assert(r1[0] == params[1]);
    assert(r2[0] == params[2]);
    assert(r3[0] == params[3]);
    assert("keyId"@[0] != "algorithm"@[0]);
    assert("keyId"@[0] != "headers"@[0]);
    assert("keyId"@[0] != "signature"@[0]);
    assert("algorithm"@[0] != "headers"@[0]);
    assert("algorithm"@[0] != "signature"@[0]);
    assert("headers"@[0] != "signature"@[0]);
    assert(value_of(params, "keyId"@) == Some(key_id));
    assert(value_of(r1, "algorithm"@) == Some(ALGORITHM@));
    assert(value_of(params, "algorithm"@) == Some(ALGORITHM@));
    assert(value_of(r2, "headers"@) == Some(SIGNED_HEADERS@));
    assert(value_of(r1, "headers"@) == Some(SIGNED_HEADERS@));
    assert(value_of(params, "headers"@) == Some(SIGNED_HEADERS@));
    assert(value_of(r3, "signature"@) == Some(signature));
    assert(value_of(r2, "signature"@) == Some(signature));
    assert(value_of(r1, "signature"@) == Some(signature));
    assert(value_of(params, "signature"@) == Some(signature));
}

/// The position of the first `c` in `s` at or after `at`, or the length of
/// `s`.
fn find_or_end(s: &[char], at: usize, c: char) -> (r: usize)
    requires
        at <= s.len(),
    ensures
        r == find_from(s@, at as int, c),
        at <= r <= s.len(),
{
    let mut i: usize = at;
    while i < s.len() && s[i] != c
        invariant
            at <= i <= s.len(),
            find_from(s@, at as int, c) == find_from(s@, i as int, c),
        decreases s.len() - i,
    {
        i = i + 1;
    }
    i
}

/// Reads a list of parameters.
pub fn read_params(text: &str) -> (r: Option<Vec<(String, String)>>)
    ensures
        match r {
            Some(params) => params_from(text@, 0) == Some(pair_texts(params@)),
            None => params_from(text@, 0) is None,
        },
{
    let s = chars_of(text);
    let mut params: Vec<(String, String)> = Vec::new();
    let mut at: usize = 0;
    assert(pair_texts(params@) =~= Seq::empty());
    loop
        invariant
            at <= s.len(),
            s@ == text@,
            params_from(s@, 0) == match params_from(s@, at as int) {
                Some(rest) => Some(pair_texts(params@) + rest),
                None => None,
            },
        decreases s.len() - at,
    {
        let eq = find_or_end(s.as_slice(), at, '=');
        if eq >= s.len() || eq + 1 >= s.len() || s[eq + 1] != '"' {
            return None;
        }
        let close = find_or_end(s.as_slice(), eq + 2, '"');
        if close >= s.len() {
            return None;
        }
        let name = string_of(slice_of(s.as_slice(), at, eq).as_slice());
        let value = string_of(slice_of(s.as_slice(), eq + 2, close).as_slice());
        let ghost before = pair_texts(params@);
        let ghost param = (name@, value@);
        params.push((name, value));
        assert(pair_texts(params@) =~= before.push(param));
        if close + 1 == s.len() {
            assert(before + seq![param] =~= before.push(param));
            return Some(params);
        }
        if s[close + 1] != ',' {
            return None;
        }
        proof {
            match params_from(s@, close + 2) {
                Some(rest) => {
                    assert(before + (seq![param] + rest) =~= before.push(param) + rest);
                },
                None => {},
            }
        }
        at = close + 2;
    }
}

/// The value that a list of pairs gives for a name: that of the first pair
/// with the name.
pub fn find_value(params: &Vec<(String, String)>, name: &str) -> (r: Option<String>)
    ensures
        crate::text::text_of(r) == value_of(pair_texts(params@), name@),
{
    let ghost all = pair_texts(params@);
    let n = chars_of(name);
    let mut i: usize = 0;
    assert(all.skip(0) =~= all);
    while i < params.len()
        invariant
            i <= params.len(),
            all == pair_texts(params@),
            n@ == name@,
            value_of(all, name@) == value_of(all.skip(i as int), name@),
        decreases params.len() - i,
    {
        let ghost rest = all.skip(i as int);
        assert(rest[0] == all[i as int]);
        assert(rest.skip(1) =~= all.skip(i + 1));
        let k = chars_of(params[i].0.as_str());
        if chars_eq(k.as_slice(), n.as_slice()) {
            return Some(params[i].1.clone());
        }
        i = i + 1;
    }
    None
}

/// Reads a `Signature` header.
pub fn parse_signature_header(header: &str) -> (r: Option<SignatureParams>)
    ensures
        match r {
            Some(params) => signature_params(header@) == Some(params@),
            None => signature_params(header@) is None,
        },
{
    let params = match read_params(header) {
        Some(params) => params,
        None => {
            return None;
        },
    };
    let key_id = find_value(&params, "keyId");
    let headers = find_value(&params, "headers");
    let signature = find_value(&params, "signature");
    let algorithm = find_value(&params, "algorithm");
    let algorithm_fits = match &algorithm {
        Some(a) => crate::text::str_eq(a.as_str(), ALGORITHM),
        None => true,
    };
    match (key_id, headers, signature) {
        (Some(key_id), Some(headers), Some(signature)) => {
            if algorithm_fits {
                Some(SignatureParams { key_id, headers, signature })
            } else {
                None
            }
        },
        _ => None,
    }
}

/// A letter of the basic Latin alphabet in lower case; any other character
/// as it is.
pub open spec fn lower(c: char) -> char {
    if 'A' <= c <= 'Z' {
        ((c as u8) + 32) as char
    } else {
        c
    }
}

/// A text with its basic Latin letters in lower case.
pub open spec fn lowered(s: Seq<char>) -> Seq<char> {
    s.map_values(|c: char| lower(c))
}

fn push_lowered(out: &mut String, s: &str)
    ensures
        final(out)@ == old(out)@ + lowered(s@),
{
    for c in it: s.chars()
        invariant
            it.seq() == s@,
            out@ == old(out)@ + lowered(s@.take(it.index() as int)),
    {
        let l = if 'A' <= c && c <= 'Z' {
            ((c as u8) + 32) as char
        } else {
            c
        };
        push_char(out, l);
        assert(lowered(s@.take(it.index() + 1)) =~= lowered(s@.take(it.index() as int)).push(
            lower(c),
        ));
    }
    assert(s@.take(s@.len() as int) =~= s@);
}

/// The line that is signed for the target of a request: the method in lower
/// case, a space, and the path with its query.
pub open spec fn target_line(method: Seq<char>, target: Seq<char>) -> Seq<char> {
    "(request-target): "@ + lowered(method) + " "@ + target
}

/// The line that is signed for a header.
pub open spec fn header_line(name: Seq<char>, value: Seq<char>) -> Seq<char> {
    name + ": "@ + value
}

/// The text that this instance signs for a request: the lines for the
/// target, the host, the date and the digest of the body, each on its own
/// line.
pub open spec fn signing_string(
    method: Seq<char>,
    target: Seq<char>,
    host: Seq<char>,
    date: Seq<char>,
    digest: Seq<char>,
) -> Seq<char> {
    target_line(method, target) + "\n"@ + header_line("host"@, host) + "\n"@ + header_line(
        "date"@,
        date,
    ) + "\n"@ + header_line("digest"@, digest)
}

/// Builds the text to sign for an outbound request.
pub fn build_signing_string(method: &str, target: &str, host: &str, date: &str, digest: &str)
    -> (s: String)
    ensures
        s@ == signing_string(method@, target@, host@, date@, digest@),
{
    let mut s = String::new();
    push_str(&mut s, "(request-target): ");
    push_lowered(&mut s, method);
    push_str(&mut s, " ");
    push_str(&mut s, target);
    push_str(&mut s, "\nhost: ");
    push_str(&mut s, host);
    push_str(&mut s, "\ndate: ");
    push_str(&mut s, date);
    push_str(&mut s, "\ndigest: ");
    push_str(&mut s, digest);
    proof {
        reveal_strlit("\nhost: ");
        reveal_strlit("\ndate: ");
        reveal_strlit("\ndigest: ");
        reveal_strlit("\n");
        reveal_strlit(": ");
        reveal_strlit("host");
        reveal_strlit("date");
        reveal_strlit("digest");
        assert("\nhost: "@ =~= "\n"@ + "host"@ + ": "@);
        assert("\ndate: "@ =~= "\n"@ + "date"@ + ": "@);
        assert("\ndigest: "@ =~= "\n"@ + "digest"@ + ": "@);
        assert(s@ =~= signing_string(method@, target@, host@, date@, digest@));
    }
    s
}

/// The names in a list with single spaces in between, from `at` on.
pub open spec fn names_from(list: Seq<char>, at: int) -> Seq<Seq<char>>
    decreases list.len() - at,
{
    let end = find_from(list, at, ' ');
    if at < 0 || at > list.len() {
        Seq::empty()
    } else if end >= list.len() || end < at {
        seq![list.subrange(at, list.len() as int)]
    } else {
        seq![list.subrange(at, end)] + names_from(list, end + 1)
    }
}

/// The text that a signature covers, for the signed names `names`: one line
/// for each name, the target's for `(request-target)` and the header's of
/// that name otherwise. `None` where a named header is missing.
pub open spec fn covered_text(
    names: Seq<Seq<char>>,
    method: Seq<char>,
    target: Seq<char>,
    headers: Seq<(Seq<char>, Seq<char>)>,
) -> Option<Seq<char>>
    decreases names.len(),
{
    if names.len() == 0 {
        None
    } else {
        let line = if names[0] == "(request-target)"@ {
            Some(target_line(method, target))
        } else {
            match value_of(headers, names[0]) {
                Some(value) => Some(header_line(names[0], value)),
                None => None,
            }
        };
        match line {
            None => None,
            Some(line) => if names.len() == 1 {
                Some(line)
            } else {
                match covered_text(names.skip(1), method, target, headers) {
                    Some(rest) => Some(line + "\n"@ + rest),
                    None => None,
                }
            },
        }
    }
}

/// Splits a list of names at its spaces.
pub fn split_names(list: &str) -> (names: Vec<String>)
    ensures
        crate::delivery::texts_of(names@) == names_from(list@, 0),
{
    let s = chars_of(list);
    let mut names: Vec<String> = Vec::new();
    let mut at: usize = 0;
    assert(crate::delivery::texts_of(names@) =~= Seq::empty());
    loop
        invariant
            at <= s.len(),
            s@ == list@,
            names_from(s@, 0) == crate::delivery::texts_of(names@) + names_from(s@, at as int),
        decreases s.len() - at,
    {
        let end = find_or_end(s.as_slice(), at, ' ');
        let ghost before = crate::delivery::texts_of(names@);
        if end >= s.len() {
            let name = string_of(slice_of(s.as_slice(), at, s.len()).as_slice());
            let ghost n = name@;
            names.push(name);
            assert(crate::delivery::texts_of(names@) =~= before + seq![n]);
            return names;
        }
        let name = string_of(slice_of(s.as_slice(), at, end).as_slice());
        let ghost n = name@;
        names.push(name);
        proof {
            assert(crate::delivery::texts_of(names@) =~= before.push(n));
            assert(before + (seq![n] + names_from(s@, end + 1)) =~= before.push(n) + names_from(
                s@,
                end + 1,
            ));
        }
        at = end + 1;
    }
}

/// Builds the text that the signature of an inbound request covers, from the
/// list of signed names in its `Signature` header. `headers` are the headers
/// of the request, their names in lower case.
pub fn build_covered_text(
    signed: &str,
    method: &str,
    target: &str,
    headers: &Vec<(String, String)>,
) -> (r: Option<String>)
    ensures
        crate::text::text_of(r) == covered_text(
            names_from(signed@, 0),
            method@,
            target@,
            pair_texts(headers@),
        ),
{
    let names = split_names(signed);
    let ghost all = crate::delivery::texts_of(names@);
    let ghost heads = pair_texts(headers@);
    if names.len() == 0 {
        return None;
    }
    // Built from the last name to the first, each line put in front.
    let mut text: Option<String> = None;
    let mut i: usize = names.len();
    while i > 0
        invariant
            i <= names.len(),
            names.len() > 0,
            all == crate::delivery::texts_of(names@),
            all == names_from(signed@, 0),
            heads == pair_texts(headers@),
            i == names.len() ==> text is None,
            i < names.len() ==> crate::text::text_of(text) == covered_text(
                all.skip(i as int),
                method@,
                target@,
                heads,
            ) && text is Some,
        decreases i,
    {
        i = i - 1;
        let name = names[i].as_str();
        let ghost tail = all.skip(i as int);
        proof {
            assert(tail[0] == all[i as int]);
            assert(all[i as int] == name@);
            assert(tail.skip(1) =~= all.skip(i + 1));
            assert(tail.len() == names.len() - i);
        }
        let mut line = String::new();
        if crate::text::str_eq(name, "(request-target)") {
            push_str(&mut line, "(request-target): ");
            push_lowered(&mut line, method);
            push_str(&mut line, " ");
            push_str(&mut line, target);
            assert(line@ =~= target_line(method@, target@));
        } else {
            match find_value(headers, name) {
                Some(value) => {
                    push_str(&mut line, name);
                    push_str(&mut line, ": ");
                    push_str(&mut line, value.as_str());
                    assert(line@ =~= header_line(name@, value@));
                },
                None => {
                    proof {
                        lemma_missing_header(all, i as int, method@, target@, heads);
                    }
                    return None;
                },
            }
        }
        match text {
            Some(rest) => {
                push_str(&mut line, "\n");
                push_str(&mut line, rest.as_str());
                text = Some(line);
            },
            None => {
                text = Some(line);
            },
        }
    }
    assert(all.skip(0) =~= all);
    text
}

/// Where the line for one of the names cannot be written, neither can the
/// text for all of them.
proof fn lemma_missing_header(
    names: Seq<Seq<char>>,
    i: int,
    method: Seq<char>,
    target: Seq<char>,
    headers: Seq<(Seq<char>, Seq<char>)>,
)
    requires
        0 <= i < names.len(),
        names[i] != "(request-target)"@,
        value_of(headers, names[i]) is None,
    ensures
        covered_text(names, method, target, headers) is None,
    decreases i,
{
    if i > 0 {
        let rest = names.skip(1);
        assert(rest[i - 1] == names[i]);
        lemma_missing_header(rest, i - 1, method, target, headers);
    }
}

/// Whether a list of signed names covers what must be signed: the target,
/// the host, the date and the digest.
pub open spec fn covers_required(names: Seq<Seq<char>>) -> bool {
    names.contains("(request-target)"@) && names.contains("host"@) && names.contains("date"@)
        && names.contains("digest"@)
}

/// Whether a request is accepted, given what its `Signature` header says,
/// the identifier of the public key of the actor that owns the named key,
/// the date of the request, the time of its arrival, and whether the
/// signature is valid for the covered text.
pub open spec fn request_accepted(
    params: SignatureParamsView,
    public_key_id: Seq<char>,
    date: i64,
    now: i64,
    signature_ok: bool,
) -> bool {
    &&& covers_required(names_from(params.headers, 0))
    &&& public_key_id == params.key_id
    &&& -300 <= now - date <= 300
    &&& signature_ok
}

fn holds_name(names: &Vec<String>, name: &str) -> (r: bool)
    ensures
        r == crate::delivery::texts_of(names@).contains(name@),
{
    crate::delivery::holds(names, name)
}

/// Decides on an inbound request once its signature was checked. A request
/// is accepted only if its signature covers the target, the host, the date
/// and the digest, the key it names is the key of the actor that owns it,
/// its date lies within five minutes of its arrival, and the signature is
/// valid. The sender of an accepted request is that actor; any other request
/// is answered with 401 and `Invalid signature`.
pub fn accept_request(
    params: &SignatureParams,
    key_owner: &str,
    public_key_id: &str,
    date: i64,
    now: i64,
    signature_ok: bool,
) -> (r: Result<String, HttpResponse>)
    ensures
        match r {
            Ok(sender) => request_accepted(params@, public_key_id@, date, now, signature_ok)
                && sender@ == key_owner@,
            Err(res) => !request_accepted(params@, public_key_id@, date, now, signature_ok)
                && res.status == UNAUTHORIZED && res.content_type is None && res.body@
                == "Invalid signature".spec_bytes(),
        },
{
    let names = split_names(params.headers.as_str());
    let covered = holds_name(&names, "(request-target)") && holds_name(&names, "host")
        && holds_name(&names, "date") && holds_name(&names, "digest");
    let same_key = crate::text::str_eq(public_key_id, params.key_id.as_str());
    let skew: i128 = now as i128 - date as i128;
    let in_time = -(MAX_SKEW_SECS as i128) <= skew && skew <= MAX_SKEW_SECS as i128;
    if covered && same_key && in_time && signature_ok {
        Ok(key_owner.to_owned())
    } else {
        Err(simple_response(UNAUTHORIZED, "Invalid signature"))
    }
}

/// The answer to a request without a readable `Signature` header: 401 and
/// `Missing signature`.
pub fn missing_signature() -> (res: HttpResponse)
    ensures
        res.status == UNAUTHORIZED,
        res.content_type is None,
        res.body@ == "Missing signature".spec_bytes(),
{
    simple_response(UNAUTHORIZED, "Missing signature")
}

/// The names that this instance signs are the target, the host, the date
/// and the digest.
pub proof fn lemma_signed_names()
    ensures
        names_from(SIGNED_HEADERS@, 0) == seq!["(request-target)"@, "host"@, "date"@, "digest"@],
        covers_required(names_from(SIGNED_HEADERS@, 0)),
{
    reveal_strlit("(request-target) host date digest");
    reveal_strlit("(request-target)");
    reveal_strlit("host");
    reveal_strlit("date");
    reveal_strlit("digest");
    let list = SIGNED_HEADERS@;
    lemma_found_at(list, 0, 16, ' ');
    lemma_found_at(list, 17, 21, ' ');
    lemma_found_at(list, 22, 26, ' ');
    lemma_find_from(list, 27, ' ');
    assert(find_from(list, 27, ' ') == 33) by {
        let k = find_from(list, 27, ' ');
        if k < 33 {
            assert(list[k] == ' ');
        }
    }
    assert(list.subrange(0, 16) =~= "(request-target)"@);
    assert(list.subrange(17, 21) =~= "host"@);
    assert(list.subrange(22, 26) =~= "date"@);
    assert(list.subrange(27, 33) =~= "digest"@);
    assert(names_from(list, 27) =~= seq!["digest"@]);
    assert(names_from(list, 22) =~= seq!["date"@] + names_from(list, 27));
    assert(names_from(list, 17) =~= seq!["host"@] + names_from(list, 22));
    assert(names_from(list, 0) =~= seq!["(request-target)"@] + names_from(list, 17));
    let names = seq!["(request-target)"@, "host"@, "date"@, "digest"@];
    assert(names_from(list, 0) =~= names);
    assert(names[0] == "(request-target)"@);
    assert(names[1] == "host"@);
    assert(names[2] == "date"@);
    assert(names[3] == "digest"@);
}

/// The receiving side rebuilds the text that the sending side signed: for a
/// request that carries the host, the date and the digest that went into the
/// signed text, the text covered by the names that this instance signs is
/// the text that this instance signed.
pub proof fn lemma_covered_text_is_signed_text(
    method: Seq<char>,
    target: Seq<char>,
    host: Seq<char>,
    date: Seq<char>,
    digest: Seq<char>,
    headers: Seq<(Seq<char>, Seq<char>)>,
)
    requires
        value_of(headers, "host"@) == Some(host),
        value_of(headers, "date"@) == Some(date),
        value_of(headers, "digest"@) == Some(digest),
    ensures
        covered_text(names_from(SIGNED_HEADERS@, 0), method, target, headers) == Some(
            signing_string(method, target, host, date, digest),
        ),
{
    lemma_signed_names();
    reveal_strlit("(request-target)");
    reveal_strlit("host");
    reveal_strlit("date");
    reveal_strlit("digest");
    let names = names_from(SIGNED_HEADERS@, 0);
    let r1 = names.skip(1);
    let r2 = r1.skip(1);
    let r3 = r2.skip(1);
    assert(r1[0] == "host"@ && r2[0] == "date"@ && r3[0] == "digest"@);
    assert(r1.len() == 3 && r2.len() == 2 && r3.len() == 1);
    assert("host"@[0] != "(request-target)"@[0]);
    assert("date"@[0] != "(request-target)"@[0]);
    assert("digest"@[1] != "(request-target)"@[1]);
    let l3 = header_line("digest"@, digest);
    let l2 = header_line("date"@, date);
    let l1 = header_line("host"@, host);
    let l0 = target_line(method, target);
    assert(covered_text(r3, method, target, headers) == Some(l3));
    assert(covered_text(r2, method, target, headers) == Some(l2 + "\n"@ + l3));
    assert(covered_text(r1, method, target, headers) == Some(l1 + "\n"@ + (l2 + "\n"@ + l3)));
    assert(covered_text(names, method, target, headers) == Some(
        l0 + "\n"@ + (l1 + "\n"@ + (l2 + "\n"@ + l3)),
    ));
    assert(l0 + "\n"@ + (l1 + "\n"@ + (l2 + "\n"@ + l3)) =~= signing_string(
        method,
        target,
        host,
        date,
        digest,
    ));
}

/// What this instance signs, it accepts: a header that it wrote for its own
/// key is read back with that key and that signature and covers what must be
/// signed, so that the request is accepted whenever the signature is valid
/// for the covered text, the key is the one published, and the date is
/// current.
pub proof fn lemma_own_signature_accepted(
    key_id: Seq<char>,
    signature: Seq<char>,
    date: i64,
    now: i64,
)
    requires
        free_of(key_id, '"'),
        free_of(signature, '"'),
        -300 <= now - date <= 300,
    ensures
        signature_params(signature_header(key_id, signature)) matches Some(params)
            && request_accepted(params, key_id, date, now, true),
{
    lemma_signature_header_round_trip(key_id, signature);
    lemma_signed_names();
}

/// The address of the actor that owns a key: the identifier of the key up
/// to its fragment.
pub open spec fn key_owner(key_id: Seq<char>) -> Seq<char> {
    key_id.take(find_from(key_id, 0, '#'))
}

/// The address at which the owner of the key `key_id` is found.
pub fn key_owner_url(key_id: &str) -> (url: String)
    ensures
        url@ == key_owner(key_id@),
{
    let s = chars_of(key_id);
    let end = find_or_end(s.as_slice(), 0, '#');
    assert(s@.take(end as int) =~= s@.subrange(0, end as int));
    string_of(slice_of(s.as_slice(), 0, end).as_slice())
}

/// The owner of the key of a local actor is the actor, as long as the
/// actor's address holds no fragment sign itself.
pub proof fn lemma_key_owner_of_main_key(actor: Seq<char>)
    requires
        free_of(actor, '#'),
    ensures
        key_owner(crate::addressing::main_key_id(actor)) == actor,
{
    reveal_strlit("#main-key");
    let key_id = crate::addressing::main_key_id(actor);
    assert(key_id[actor.len() as int] == '#');
    assert forall|i: int| 0 <= i < actor.len() implies key_id[i] != '#' by {
        assert(key_id[i] == actor[i]);
    }
    lemma_found_at(key_id, 0, actor.len() as int, '#');
    assert(key_id.take(actor.len() as int) =~= actor);
}

} // verus!

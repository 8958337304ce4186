//! Digests and RSA signatures, computed by OpenSSL, and the signing and
//! checking of requests with them.

use crate::lookup::pair_texts;
use crate::response::{simple_response, HttpResponse, UNAUTHORIZED};
use crate::addressing::main_key_id;
use crate::signature::{
    accept_request, build_covered_text, build_signing_string, covered_text, find_value, free_of,
    is_free_of, key_owner, key_owner_url, lemma_covered_text_is_signed_text,
    lemma_key_owner_of_main_key, lemma_signature_header_round_trip, lemma_signed_names,
    names_from, request_accepted, signature_header, signature_params, signing_string, value_of,
    write_signature_header, SignatureParams, SignatureParamsView,
};
use crate::text::{contains_text, occurs_in, push_str, str_eq, text_of};
use crate::timestamp::{read_http_date, rfc2822_seconds};
use vstd::prelude::*;
use vstd::string::StringSliceAdditionalSpecFns;

verus! {

/// The longest input, in bytes, that OpenSSL takes in one piece.
pub const MAX_INPUT: usize = 0x7fff_ffff;

/// Whether a text is short enough for OpenSSL.
pub open spec fn fits(text: Seq<char>) -> bool {
    vstd::utf8::encode_utf8(text).len() <= MAX_INPUT
}

/// The SHA-256 digest of `body`, written in base64: what
/// `openssl::sha::sha256` and `openssl::base64::encode_block` give.
pub uninterp spec fn sha256_base64(body: Seq<u8>) -> Seq<char>;

/// The public key, written as PEM, of the RSA private key written as PEM in
/// `private_pem`: what `Rsa::private_key_from_pem_passphrase` with an empty
/// passphrase and `public_key_to_pem` of the crate openssl give. `None`
/// where `private_pem` holds no such key.
pub uninterp spec fn public_key_of(private_pem: Seq<u8>) -> Option<Seq<char>>;

/// The signature of `text` with the RSA private key written as PEM in
/// `private_pem`, after PKCS #1 v1.5 with SHA-256, written in base64: what a
/// `Signer` of the crate openssl and `openssl::base64::encode_block` give.
/// `None` where `private_pem` holds no such key or OpenSSL reports an error.
pub uninterp spec fn rsa_signature(private_pem: Seq<u8>, text: Seq<char>) -> Option<Seq<char>>;

/// Whether `signature`, in base64, is a signature of `text` with SHA-256
/// under the public key written as PEM in `public_pem`: what a `Verifier`
/// of the crate openssl finds. `None` where the key or the signature cannot
/// be read.
pub uninterp spec fn signature_holds(
    public_pem: Seq<char>,
    text: Seq<char>,
    signature: Seq<char>,
) -> Option<bool>;

/// Whether a PEM text says of itself that it is encrypted: the word stands
/// in the header of an encrypted block and in the name of an encrypted
/// private key.
pub open spec fn marked_encrypted(pem: Seq<char>) -> bool {
    occurs_in(pem, "ENCRYPTED"@)
}

/// Digests a body with `openssl::sha::sha256` and writes the digest with
/// `openssl::base64::encode_block`. The text depends on the body alone.
#[verifier::external_body]
fn openssl_digest(body: &[u8]) -> (r: String)
    ensures
        r@ == sha256_base64(body@),
{
    openssl::base64::encode_block(&openssl::sha::sha256(body))
}

/// Reads an RSA private key with `Rsa::private_key_from_pem_passphrase` and
/// writes its public half with `public_key_to_pem`. The passphrase handed
/// over is the empty one, so that nothing is asked of anybody: an encrypted
/// key is read only if that is its passphrase. The outcome depends on the
/// key alone. OpenSSL takes no more than `MAX_INPUT` bytes.
#[verifier::external_body]
fn openssl_public_pem(private_pem: &[u8]) -> (r: Option<String>)
    requires
        private_pem@.len() <= MAX_INPUT,
    ensures
        text_of(r) == public_key_of(private_pem@),
{
    let rsa = openssl::rsa::Rsa::private_key_from_pem_passphrase(private_pem, b"").ok()?;
    String::from_utf8(rsa.public_key_to_pem().ok()?).ok()
}

/// Signs a text with an RSA private key and SHA-256, with a `Signer` of the
/// crate openssl, and writes the signature with
/// `openssl::base64::encode_block`. The key is read with
/// `Rsa::private_key_from_pem_passphrase` and the empty passphrase, so it is
/// an RSA key and nothing is asked of anybody; an RSA signature after
/// PKCS #1 v1.5 depends on the key and the text alone. `None` where the key
/// cannot be read or OpenSSL reports an error. Nothing is claimed of the
/// signature but that it is the same for the same key and text.
#[verifier::external_body]
fn openssl_sign(private_pem: &[u8], text: &str) -> (r: Option<String>)
    requires
        private_pem@.len() <= MAX_INPUT,
    ensures
        text_of(r) == rsa_signature(private_pem@, text@),
{
    let rsa = openssl::rsa::Rsa::private_key_from_pem_passphrase(private_pem, b"").ok()?;
    let key = openssl::pkey::PKey::from_rsa(rsa).ok()?;
    let digest = openssl::hash::MessageDigest::sha256();
    let mut signer = openssl::sign::Signer::new(digest, &key).ok()?;
    signer.update(text.as_bytes()).ok()?;
    Some(openssl::base64::encode_block(&signer.sign_to_vec().ok()?))
}

/// Checks a signature in base64 against a text, with the public key in
/// `public_pem`, SHA-256 and a `Verifier` of the crate openssl. `None` where
/// the key or the signature cannot be read. The outcome depends on the
/// three texts alone. OpenSSL takes no more than `MAX_INPUT` bytes of each.
/// `PKey::public_key_from_pem` has no way to refuse a passphrase, and
/// OpenSSL asks the terminal for one where a block is marked as encrypted:
/// such a text is kept out.
#[verifier::external_body]
fn openssl_verify(public_pem: &str, text: &str, signature: &str) -> (r: Option<bool>)
    requires
        fits(public_pem@),
        fits(signature@),
        !marked_encrypted(public_pem@),
    ensures
        r == signature_holds(public_pem@, text@, signature@),
{
    let key = openssl::pkey::PKey::public_key_from_pem(public_pem.as_bytes()).ok()?;
    let signature = openssl::base64::decode_block(signature).ok()?;
    let digest = openssl::hash::MessageDigest::sha256();
    let mut verifier = openssl::sign::Verifier::new(digest, &key).ok()?;
    verifier.update(text.as_bytes()).ok()?;
    verifier.verify(&signature).ok()
}

/// Whether `signature` is a valid signature of `text` under the key
/// `public_pem`. A key or a signature that is too long for OpenSSL, and a
/// key that is marked as encrypted, is not looked at and counts as invalid,
/// like one that cannot be read.
pub open spec fn signature_valid(public_pem: Seq<char>, text: Seq<char>, signature: Seq<char>)
    -> bool {
    fits(public_pem) && fits(signature) && !marked_encrypted(public_pem) && signature_holds(
        public_pem,
        text,
        signature,
    ) == Some(true)
}

/// The value of the `Digest` header for a body: `SHA-256=` and the digest in
/// base64.
pub open spec fn digest_of(body: Seq<u8>) -> Seq<char> {
    "SHA-256="@ + sha256_base64(body)
}

/// The value of the `Digest` header for a body.
pub fn digest_header(body: &[u8]) -> (s: String)
    ensures
        s@ == digest_of(body@),
{
    let mut s = "SHA-256=".to_owned();
    let digest = openssl_digest(body);
    push_str(&mut s, digest.as_str());
    s
}

/// Whether the `Digest` header of a request is the digest of its body.
pub fn digest_matches(headers: &Vec<(String, String)>, body: &[u8]) -> (r: bool)
    ensures
        r == (value_of(pair_texts(headers@), "digest"@) == Some(digest_of(body@))),
{
    match find_value(headers, "digest") {
        Some(given) => {
            let digest = digest_header(body);
            str_eq(given.as_str(), digest.as_str())
        },
        None => false,
    }
}

/// The public key that belongs to a private key, both written as PEM.
/// `None` where `private_pem` holds no RSA private key, or is too long for
/// OpenSSL.
pub fn public_key_pem(private_pem: &[u8]) -> (r: Option<String>)
    ensures
        text_of(r) == if private_pem@.len() <= MAX_INPUT {
            public_key_of(private_pem@)
        } else {
            None
        },
{
    if private_pem.len() <= MAX_INPUT {
        openssl_public_pem(private_pem)
    } else {
        None
    }
}

/// Whether `signature` is a valid signature of `text` under the key
/// `public_pem`.
pub fn verify_signature(public_pem: &str, text: &str, signature: &str) -> (r: bool)
    ensures
        r == signature_valid(public_pem@, text@, signature@),
{
    if public_pem.as_bytes().len() <= MAX_INPUT && signature.as_bytes().len() <= MAX_INPUT
        && !contains_text(public_pem, "ENCRYPTED") {
        match openssl_verify(public_pem, text, signature) {
            Some(valid) => valid,
            None => false,
        }
    } else {
        false
    }
}

/// The `Signature` header that the key `private_pem` gives for `text` under
/// the name `key_id`. There is none where the key is too long for OpenSSL
/// or cannot be read, where the name of the key or the signature holds a
/// double quote, which a header cannot carry, and where the signature does
/// not hold under the public half of the key, as with a key whose numbers do
/// not fit together.
pub open spec fn signed_header(private_pem: Seq<u8>, key_id: Seq<char>, text: Seq<char>)
    -> Option<Seq<char>> {
    if private_pem.len() > MAX_INPUT || !free_of(key_id, '"') {
        None
    } else {
        match (rsa_signature(private_pem, text), public_key_of(private_pem)) {
            (Some(signature), Some(public_pem)) => if free_of(signature, '"')
                && signature_valid(public_pem, text, signature) {
                Some(signature_header(key_id, signature))
            } else {
                None
            },
            _ => None,
        }
    }
}

/// The `Signature` header for an outbound request, signed with the key
/// `private_pem` under the name `key_id`: the header names the key and the
/// four signed names, and carries the signature of the text that is built
/// for the request. The signature is checked against the public half of the
/// key before it is handed out.
pub fn sign_request(
    private_pem: &[u8],
    key_id: &str,
    method: &str,
    target: &str,
    host: &str,
    date: &str,
    digest: &str,
) -> (r: Option<String>)
    ensures
        text_of(r) == signed_header(
            private_pem@,
            key_id@,
            signing_string(method@, target@, host@, date@, digest@),
        ),
{
    if private_pem.len() > MAX_INPUT || !is_free_of(key_id, '"') {
        return None;
    }
    let text = build_signing_string(method, target, host, date, digest);
    let signature = match openssl_sign(private_pem, text.as_str()) {
        Some(signature) => signature,
        None => {
            return None;
        },
    };
    let public_pem = match openssl_public_pem(private_pem) {
        Some(public_pem) => public_pem,
        None => {
            return None;
        },
    };
    if is_free_of(signature.as_str(), '"') && verify_signature(
        public_pem.as_str(),
        text.as_str(),
        signature.as_str(),
    ) {
        Some(write_signature_header(key_id, signature.as_str()))
    } else {
        None
    }
}

/// What is read from a signed request before anything is checked: the
/// moment that its `Date` header names, and the text that the names in its
/// `Signature` header cover. `None` where the date is missing or cannot be
/// read, and where a named header is missing.
pub open spec fn request_read(
    params: SignatureParamsView,
    method: Seq<char>,
    target: Seq<char>,
    headers: Seq<(Seq<char>, Seq<char>)>,
) -> Option<(i64, Seq<char>)> {
    match value_of(headers, "date"@) {
        Some(date_text) => match (
            rfc2822_seconds(date_text),
            covered_text(names_from(params.headers, 0), method, target, headers),
        ) {
            (Some(date), Some(text)) => Some((date, text)),
            _ => None,
        },
        None => None,
    }
}

/// What is known of the key that a request names, once the document at the
/// address of its owner was fetched: the address that the document gives
/// itself, and the identifier and the PEM of the public key that it
/// publishes.
#[derive(Debug, Clone, PartialEq, Eq)]
pub struct PublishedKey {
    pub owner: String,
    pub key_id: String,
    pub pem: Option<String>,
}

/// `PublishedKey` with its strings as sequences of characters.
pub struct PublishedKeyView {
    pub owner: Seq<char>,
    pub key_id: Seq<char>,
    pub pem: Option<Seq<char>>,
}

impl View for PublishedKey {
    type V = PublishedKeyView;

    open spec fn view(&self) -> PublishedKeyView {
        PublishedKeyView { owner: self.owner@, key_id: self.key_id@, pem: text_of(self.pem) }
    }
}

/// Whether an inbound request is accepted: it carries a date that can be
/// read and every header that its signature names; its `Digest` header is
/// the digest of its body; the document that was fetched at the address of
/// the key's owner is the document of that owner; the signature is valid for
/// the covered text under the key that the owner publishes; and the request
/// passes `request_accepted`.
pub open spec fn request_verdict(
    params: SignatureParamsView,
    method: Seq<char>,
    target: Seq<char>,
    headers: Seq<(Seq<char>, Seq<char>)>,
    body: Seq<u8>,
    key: PublishedKeyView,
    now: i64,
) -> bool {
    &&& request_read(params, method, target, headers) matches Some((date, text))
        && request_accepted(
        params,
        key.key_id,
        date,
        now,
        key.pem matches Some(pem) && signature_valid(pem, text, params.signature),
    )
    &&& value_of(headers, "digest"@) == Some(digest_of(body))
    &&& key.owner == key_owner(params.key_id)
}

/// Decides on an inbound request. `params` is what its `Signature` header
/// says, `headers` its headers with their names in lower case, `body` its
/// body, `key` what the document fetched at the address of the key's owner
/// says, and `now` the time of arrival. The sender of an accepted request is
/// the owner of the key: the address that the key's identifier gives, which
/// the fetched document has to give itself. A request without a date that
/// can be read, or without a header that its signature names, is answered
/// with 401 and `Missing signature`, any other that is not accepted with 401
/// and `Invalid signature`.
pub fn check_request(
    params: &SignatureParams,
    method: &str,
    target: &str,
    headers: &Vec<(String, String)>,
    body: &[u8],
    key: &PublishedKey,
    now: i64,
) -> (r: Result<String, HttpResponse>)
    ensures
        match r {
            Ok(sender) => sender@ == key_owner(params@.key_id) && request_verdict(
                params@,
                method@,
                target@,
                pair_texts(headers@),
                body@,
                key@,
                now,
            ),
            Err(res) => !request_verdict(
                params@,
                method@,
                target@,
                pair_texts(headers@),
                body@,
                key@,
                now,
            ) && res.status == UNAUTHORIZED && res.content_type is None && res.body@ == (
            if request_read(params@, method@, target@, pair_texts(headers@)) is None {
                "Missing signature".spec_bytes()
            } else {
                "Invalid signature".spec_bytes()
            }),
        },
{
    let date = match find_value(headers, "date") {
        Some(text) => match read_http_date(text.as_str()) {
            Some(date) => date,
            None => {
                return Err(simple_response(UNAUTHORIZED, "Missing signature"));
            },
        },
        None => {
            return Err(simple_response(UNAUTHORIZED, "Missing signature"));
        },
    };
    let text = match build_covered_text(params.headers.as_str(), method, target, headers) {
        Some(text) => text,
        None => {
            return Err(simple_response(UNAUTHORIZED, "Missing signature"));
        },
    };
    let owner = key_owner_url(params.key_id.as_str());
    if !digest_matches(headers, body) || !str_eq(key.owner.as_str(), owner.as_str()) {
        return Err(simple_response(UNAUTHORIZED, "Invalid signature"));
    }
    let signature_ok = match &key.pem {
        Some(pem) => verify_signature(pem.as_str(), text.as_str(), params.signature.as_str()),
        None => false,
    };
    accept_request(params, owner.as_str(), key.key_id.as_str(), date, now, signature_ok)
}

/// What this instance signs, it accepts. Take the `Signature` header that
/// `sign_request` gives for the local actor `actor`, under the name of the
/// actor's main key, and for a request with the given method, target, host,
/// date and body. A request that carries this header, that host and date,
/// the digest of that body and that body, is accepted when it arrives within
/// five minutes of its date and the document of the actor publishes the
/// public half of the signing key under the name of the main key; and its
/// sender is the actor.
pub proof fn lemma_signature_round_trip(
    private_pem: Seq<u8>,
    actor: Seq<char>,
    method: Seq<char>,
    target: Seq<char>,
    host: Seq<char>,
    date_text: Seq<char>,
    body: Seq<u8>,
    headers: Seq<(Seq<char>, Seq<char>)>,
    now: i64,
)
    requires
        free_of(actor, '#'),
        signed_header(
            private_pem,
            main_key_id(actor),
            signing_string(method, target, host, date_text, digest_of(body)),
        ) is Some,
        value_of(headers, "host"@) == Some(host),
        value_of(headers, "date"@) == Some(date_text),
        value_of(headers, "digest"@) == Some(digest_of(body)),
        rfc2822_seconds(date_text) matches Some(date) && -300 <= now - date <= 300,
    ensures
        ({
            let header = signed_header(
                private_pem,
                main_key_id(actor),
                signing_string(method, target, host, date_text, digest_of(body)),
            )->0;
            let key = PublishedKeyView {
                owner: actor,
                key_id: main_key_id(actor),
                pem: public_key_of(private_pem),
            };
            signature_params(header) matches Some(params) && key_owner(params.key_id) == actor
                && request_verdict(params, method, target, headers, body, key, now)
        }),
{
    let key_id = main_key_id(actor);
    let text = signing_string(method, target, host, date_text, digest_of(body));
    let signature = rsa_signature(private_pem, text)->0;
    lemma_signature_header_round_trip(key_id, signature);
    lemma_signed_names();
    lemma_covered_text_is_signed_text(method, target, host, date_text, digest_of(body), headers);
    lemma_key_owner_of_main_key(actor);
}

} // verus!

//! Who is asking: bearer tokens, passwords and user names.

use crate::ids::UserLocalID;
use crate::response::{simple_response, Error, HttpResponse, BAD_REQUEST, FORBIDDEN, UNAUTHORIZED};
use crate::text::text_of;
use headers::Header;
use vstd::prelude::*;
use vstd::string::StringSliceAdditionalSpecFns;
use vstd::utf8::is_ascii_chars;

verus! {

#[verifier::external_type_specification]
#[verifier::external_body]
pub struct ExBcryptError(bcrypt::BcryptError);

/// Whether a byte may stand in a header value that is read as text: a
/// visible ASCII character, a space or a tab.
pub open spec fn header_text_byte(b: u8) -> bool {
    32 <= b < 127 || b == 9
}

/// The bytes of `Bearer` and a space, which bearer credentials start with.
pub const BEARER_PREFIX: [u8; 7] = [66, 101, 97, 114, 101, 114, 32];

/// The token of an `Authorization` header value with bearer credentials:
/// what follows `Bearer` and a space, in a value that is text throughout.
/// `None` for any other value.
pub open spec fn bearer_token(value: Seq<u8>) -> Option<Seq<char>> {
    if value.len() >= 7 && value.subrange(0, 7) == BEARER_PREFIX@ && (forall|i: int|
        0 <= i < value.len() ==> header_text_byte(#[trigger] value[i])) {
        Some(Seq::new((value.len() - 7) as nat, |i: int| value[i + 7] as char))
    } else {
        None
    }
}

/// The number of a UUID written in `text`, in one of the forms that
/// `Uuid::parse_str` of the crate uuid reads.
pub uninterp spec fn uuid_value(text: Seq<char>) -> Option<u128>;

/// A UUID written with hyphens and in lower case, as `Uuid`'s `Display`
/// writes it.
pub uninterp spec fn uuid_text(value: u128) -> Seq<char>;

/// Whether a password matches a bcrypt hash: what `bcrypt::verify` returns.
/// `None` where the hash cannot be read or the password cannot be hashed.
pub uninterp spec fn bcrypt_matches(password: Seq<char>, hash: Seq<char>) -> Option<bool>;

/// Reads bearer credentials from a header value with `HeaderValue::from_bytes`
/// and `Authorization::<Bearer>::decode` of the crate headers, and returns the
/// token. The crate accepts a value that starts with `Bearer` and a space and
/// holds only visible ASCII, spaces and tabs, and hands back what follows the
/// space.
#[verifier::external_body]
fn decode_bearer(value: &[u8]) -> (r: Option<String>)
    ensures
        text_of(r) == bearer_token(value@),
{
    let value = headers::HeaderValue::from_bytes(value).ok()?;
    let mut values = std::iter::once(&value);
    let auth = headers::Authorization::<headers::authorization::Bearer>::decode(&mut values).ok()?;
    Some(auth.0.token().to_owned())
}

/// Reads a UUID with `Uuid::parse_str` of the crate uuid and returns its
/// number. The outcome depends on the text alone.
#[verifier::external_body]
fn parse_uuid(text: &str) -> (r: Option<u128>)
    ensures
        r == uuid_value(text@),
{
    uuid::Uuid::parse_str(text).ok().map(|u| u.as_u128())
}

/// Writes a UUID as `Uuid`'s `Display` does. The text depends on the number
/// alone.
#[verifier::external_body]
fn format_uuid(value: u128) -> (s: String)
    ensures
        s@ == uuid_text(value),
{
    uuid::Uuid::from_u128(value).to_string()
}

/// Whether a number is a UUID of version 4 and of the RFC 4122 variant: the
/// high half of its seventh byte holds 4, and the two highest bits of its
/// ninth byte are 1 and 0. The other 122 bits are free.
pub open spec fn is_random_uuid(value: u128) -> bool {
    (value >> 76u128) & 0xfu128 == 4u128 && (value >> 62u128) & 0x3u128 == 2u128
}

/// Draws a random UUID with `Uuid::new_v4` of the crate uuid, which fills
/// sixteen bytes at random and then sets the variant to RFC 4122 and the
/// version to 4. Only those six bits are known of the number.
#[verifier::external_body]
fn random_uuid() -> (r: u128)
    ensures
        is_random_uuid(r),
{
    uuid::Uuid::new_v4().as_u128()
}

/// Checks a password against a bcrypt hash with `bcrypt::verify`. The
/// outcome depends on the two texts alone. `bcrypt::verify` cuts the hash at
/// a fixed byte, which fails inside a character of several bytes, so the hash
/// has to be ASCII.
#[verifier::external_body]
fn bcrypt_verify(password: &str, hash: &str) -> (r: Result<bool, bcrypt::BcryptError>)
    requires
        is_ascii_chars(hash@),
    ensures
        match r {
            Ok(b) => bcrypt_matches(password@, hash@) == Some(b),
            Err(_) => bcrypt_matches(password@, hash@) is None,
        },
{
    bcrypt::verify(password, hash)
}

/// Hashes a password with `bcrypt::hash` at the default cost. The salt is
/// drawn at random, so the hash has no name. Two things hold whatever the
/// salt: a password with a NUL character in it is refused, and a hash that is
/// handed out is written in ASCII (`$2b$`, the cost, `$`, then salt and hash
/// in bcrypt's base64 alphabet) and holds its salt and cost, so that
/// `bcrypt::verify` computes the same hash again from the same password and
/// accepts it.
#[verifier::external_body]
fn bcrypt_hash(password: &str) -> (r: Result<String, bcrypt::BcryptError>)
    ensures
        password@.contains('\0') ==> r is Err,
        r matches Ok(hash) ==> is_ascii_chars(hash@) && bcrypt_matches(password@, hash@) == Some(
            true,
        ),
{
    bcrypt::hash(password, bcrypt::DEFAULT_COST)
}

/// The number of the UUID written in `text`. `None` where `text` is no
/// UUID.
pub fn read_uuid(text: &str) -> (r: Option<u128>)
    ensures
        r == uuid_value(text@),
{
    parse_uuid(text)
}

/// A UUID, written with hyphens.
pub fn uuid_to_string(value: u128) -> (s: String)
    ensures
        s@ == uuid_text(value),
{
    format_uuid(value)
}

/// A fresh random UUID: of version 4 and of the RFC 4122 variant, its other
/// bits drawn at random.
pub fn new_uuid() -> (r: u128)
    ensures
        is_random_uuid(r),
{
    random_uuid()
}

/// The login token that a request presents: the bearer token of its
/// `Authorization` header, read as a UUID.
pub open spec fn presented_token(authorization: Option<Seq<u8>>) -> Option<u128> {
    match authorization {
        Some(value) => match bearer_token(value) {
            Some(token) => uuid_value(token),
            None => None,
        },
        None => None,
    }
}

/// The login token that a request presents. `None` where the request has no
/// `Authorization` header, where the header holds no bearer credentials, and
/// where the token is no UUID. `authorization` is the value of the header.
pub fn authenticate(authorization: Option<&[u8]>) -> (r: Option<u128>)
    ensures
        r == presented_token(
            match authorization {
                Some(v) => Some(v@),
                None => None,
            },
        ),
{
    match authorization {
        Some(value) => match decode_bearer(value) {
            Some(token) => parse_uuid(token.as_str()),
            None => None,
        },
        None => None,
    }
}

/// Whether an error is a response for the client with the given status and
/// text.
pub open spec fn is_user_error(e: Error, status: u16, text: &str) -> bool {
    e matches Error::UserError(res) && res.status == status && res.content_type is None
        && res.body@ == text.spec_bytes()
}

/// The error for the client: a response with the given status and text.
pub fn user_error(status: u16, text: &str) -> (e: Error)
    ensures
        is_user_error(e, status, text),
{
    Error::UserError(simple_response(status, text))
}

/// The user of a request that must be logged in. A request without a valid
/// login is refused with 401 and `Login Required`.
pub fn require_login(user: Option<UserLocalID>) -> (r: Result<UserLocalID, Error>)
    ensures
        match r {
            Ok(id) => user == Some(id),
            Err(e) => user is None && is_user_error(e, UNAUTHORIZED, "Login Required"),
        },
{
    match user {
        Some(id) => Ok(id),
        None => Err(user_error(UNAUTHORIZED, "Login Required")),
    }
}

/// Whether a character may stand in a user name: a letter of the basic
/// Latin alphabet, a digit, or the underscore.
pub open spec fn username_char(c: char) -> bool {
    ('a' <= c <= 'z') || ('A' <= c <= 'Z') || ('0' <= c <= '9') || c == '_'
}

/// Whether every character of a name may stand in a user name.
pub open spec fn username_allowed(name: Seq<char>) -> bool {
    forall|i: int| 0 <= i < name.len() ==> username_char(#[trigger] name[i])
}

/// Checks a user name. A name with a character other than a basic Latin
/// letter, a digit or the underscore is refused with 400.
pub fn check_username(username: &str) -> (r: Result<(), Error>)
    ensures
        r is Ok <==> username_allowed(username@),
        r matches Err(e) ==> is_user_error(
            e,
            BAD_REQUEST,
            "Username contains disallowed characters",
        ),
{
    for c in it: username.chars()
        invariant
            it.seq() == username@,
            username_allowed(username@.take(it.index() as int)),
    {
        let allowed = ('a' <= c && c <= 'z') || ('A' <= c && c <= 'Z') || ('0' <= c && c <= '9')
            || c == '_';
        if !allowed {
            assert(!username_char(username@[it.index() as int]));
            return Err(user_error(BAD_REQUEST, "Username contains disallowed characters"));
        }
        assert(username@.take(it.index() + 1) =~= username@.take(it.index() as int).push(c));
    }
    assert(username@.take(username@.len() as int) =~= username@);
    Ok(())
}

/// The error for a user name that is taken.
pub fn name_in_use() -> (e: Error)
    ensures
        is_user_error(e, BAD_REQUEST, "That name is already in use"),
{
    user_error(BAD_REQUEST, "That name is already in use")
}

/// What the hashing of a password comes to: the hash, or an internal error
/// where bcrypt reported one.
pub fn hashing_result(hashed: Result<String, bcrypt::BcryptError>) -> (r: Result<String, Error>)
    ensures
        match hashed {
            Ok(hash) => r == Ok::<String, Error>(hash),
            Err(_) => r matches Err(e) && e matches Error::InternalStrStatic(msg) && msg@
                == "Failed to hash password"@,
        },
{
    match hashed {
        Ok(hash) => Ok(hash),
        Err(_) => Err(Error::InternalStrStatic("Failed to hash password")),
    }
}

/// Hashes the password of a new user at bcrypt's default cost. The hash is
/// salted at random, so it differs from call to call, but each one matches
/// the password it was made from. A password with a NUL character has no
/// hash; an error is an internal one.
pub fn hash_password(password: &str) -> (r: Result<String, Error>)
    ensures
        password@.contains('\0') ==> r is Err,
        match r {
            Ok(hash) => checked_password(password@, hash@) == Some(true),
            Err(e) => e matches Error::InternalStrStatic(msg) && msg@
                == "Failed to hash password"@,
        },
{
    hashing_result(bcrypt_hash(password))
}

/// Whether a password matches a stored hash. `None` where the hash cannot
/// be checked: a hash with a character outside ASCII is not looked at, and
/// bcrypt refuses the others that it cannot read.
pub open spec fn checked_password(password: Seq<char>, hash: Seq<char>) -> Option<bool> {
    if is_ascii_chars(hash) {
        bcrypt_matches(password, hash)
    } else {
        None
    }
}

/// What the store holds of the local user that a login names.
#[derive(Debug, Clone)]
pub struct LoginRow {
    pub id: UserLocalID,
    pub passhash: Option<String>,
}

/// How an attempt to log in ends.
#[derive(Debug)]
pub enum LoginOutcome {
    /// The password is right: a token is to be issued to this user.
    Granted(UserLocalID),
    /// The password is wrong; this is the answer.
    Denied(HttpResponse),
}

/// Decides an attempt to log in from the row of the named user and the
/// password given. An unknown name and a user without password are refused
/// with 400, a wrong password is answered with 403, and a hash that cannot
/// be checked, as one with a character outside ASCII, is an internal error.
pub fn check_login(row: Option<&LoginRow>, password: &str) -> (r: Result<LoginOutcome, Error>)
    ensures
        match row {
            None => r matches Err(e) && is_user_error(
                e,
                BAD_REQUEST,
                "No local user found by that name",
            ),
            Some(row) => match row.passhash {
                None => r matches Err(e) && is_user_error(
                    e,
                    BAD_REQUEST,
                    "No password set for this user",
                ),
                Some(hash) => match checked_password(password@, hash@) {
                    Some(true) => r matches Ok(LoginOutcome::Granted(id)) && id == row.id,
                    Some(false) => r matches Ok(LoginOutcome::Denied(res)) && res.status
                        == FORBIDDEN && res.content_type is None && res.body@
                        == "Incorrect password".spec_bytes(),
                    None => r matches Err(Error::InternalStrStatic(msg)) && msg@
                        == "Failed to check password"@,
                },
            },
        },
{
    let row = match row {
        Some(row) => row,
        None => {
            return Err(user_error(BAD_REQUEST, "No local user found by that name"));
        },
    };
    let hash = match &row.passhash {
        Some(hash) => hash,
        None => {
            return Err(user_error(BAD_REQUEST, "No password set for this user"));
        },
    };
    if !hash.as_str().is_ascii() {
        return Err(Error::InternalStrStatic("Failed to check password"));
    }
    match bcrypt_verify(password, hash.as_str()) {
        Ok(true) => Ok(LoginOutcome::Granted(row.id)),
        Ok(false) => Ok(LoginOutcome::Denied(simple_response(FORBIDDEN, "Incorrect password"))),
        Err(_) => Err(Error::InternalStrStatic("Failed to check password")),
    }
}

} // verus!

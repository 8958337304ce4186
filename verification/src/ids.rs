//! Local identifiers: the numeric keys of persons, communities, posts and
//! comments, and the references built from them.

use crate::text::{format_i64, int_decimal, parse_i64_spec};
use vstd::prelude::*;

verus! {

#[verifier::external_type_specification]
#[verifier::external_body]
pub struct ExParseIntError(std::num::ParseIntError);

/// Reads a 64-bit signed integer with `str::parse` of the standard library.
/// It accepts an optional sign followed by decimal digits and nothing else,
/// and fails when the number does not fit.
#[verifier::external_body]
pub(crate) fn parse_i64_std(src: &str) -> (r: Result<i64, std::num::ParseIntError>)
    ensures
        r matches Ok(v) ==> parse_i64_spec(src@) == Some(v),
        r is Err ==> parse_i64_spec(src@) is None,
{
    src.parse::<i64>()
}

/// Key of a comment in the local store.
#[derive(Debug, Clone, Copy, PartialEq, Eq, Structural, Hash)]
pub struct CommentLocalID(pub i64);

/// Key of a community in the local store.
#[derive(Debug, Clone, Copy, PartialEq, Eq, Structural, Hash)]
pub struct CommunityLocalID(pub i64);

/// Key of a post in the local store.
#[derive(Debug, Clone, Copy, PartialEq, Eq, Structural, Hash)]
pub struct PostLocalID(pub i64);

/// Key of a person in the local store.
#[derive(Debug, Clone, Copy, PartialEq, Eq, Structural, Hash)]
pub struct UserLocalID(pub i64);

impl CommentLocalID {
    /// The number itself.
    pub fn raw(&self) -> (r: i64)
        ensures
            r == self.0,
    {
        self.0
    }

    /// The decimal numeral of the key.
    pub fn to_string(&self) -> (s: String)
        ensures
            s@ == int_decimal(self.0 as int),
    {
        format_i64(self.0)
    }

    /// Reads a key from its decimal numeral.
    pub fn from_str(src: &str) -> (r: Result<Self, std::num::ParseIntError>)
        ensures
            r matches Ok(id) ==> parse_i64_spec(src@) == Some(id.0),
            r is Err ==> parse_i64_spec(src@) is None,
    {
        match parse_i64_std(src) {
            Ok(v) => Ok(CommentLocalID(v)),
            Err(e) => Err(e),
        }
    }
}

impl CommunityLocalID {
    /// The number itself.
    pub fn raw(&self) -> (r: i64)
        ensures
            r == self.0,
    {
        self.0
    }

    /// The decimal numeral of the key.
    pub fn to_string(&self) -> (s: String)
        ensures
            s@ == int_decimal(self.0 as int),
    {
        format_i64(self.0)
    }

    /// Reads a key from its decimal numeral.
    pub fn from_str(src: &str) -> (r: Result<Self, std::num::ParseIntError>)
        ensures
            r matches Ok(id) ==> parse_i64_spec(src@) == Some(id.0),
            r is Err ==> parse_i64_spec(src@) is None,
    {
        match parse_i64_std(src) {
            Ok(v) => Ok(CommunityLocalID(v)),
            Err(e) => Err(e),
        }
    }
}

impl PostLocalID {
    /// The number itself.
    pub fn raw(&self) -> (r: i64)
        ensures
            r == self.0,
    {
        self.0
    }

    /// The decimal numeral of the key.
    pub fn to_string(&self) -> (s: String)
        ensures
            s@ == int_decimal(self.0 as int),
    {
        format_i64(self.0)
    }

    /// Reads a key from its decimal numeral.
    pub fn from_str(src: &str) -> (r: Result<Self, std::num::ParseIntError>)
        ensures
            r matches Ok(id) ==> parse_i64_spec(src@) == Some(id.0),
            r is Err ==> parse_i64_spec(src@) is None,
    {
        match parse_i64_std(src) {
            Ok(v) => Ok(PostLocalID(v)),
            Err(e) => Err(e),
        }
    }
}

impl UserLocalID {
    /// The number itself.
    pub fn raw(&self) -> (r: i64)
        ensures
            r == self.0,
    {
        self.0
    }

    /// The decimal numeral of the key.
    pub fn to_string(&self) -> (s: String)
        ensures
            s@ == int_decimal(self.0 as int),
    {
        format_i64(self.0)
    }

    /// Reads a key from its decimal numeral.
    pub fn from_str(src: &str) -> (r: Result<Self, std::num::ParseIntError>)
        ensures
            r matches Ok(id) ==> parse_i64_spec(src@) == Some(id.0),
            r is Err ==> parse_i64_spec(src@) is None,
    {
        match parse_i64_std(src) {
            Ok(v) => Ok(UserLocalID(v)),
            Err(e) => Err(e),
        }
    }
}

/// Where an object comes from: this instance, or a remote one under the
/// identifier it was published with.
#[derive(Debug, Clone, PartialEq)]
pub enum APIDOrLocal {
    Local,
    APID(String),
}

/// A local actor: a person or a community.
#[derive(Clone, Copy, Debug, PartialEq, Eq, Structural)]
pub enum ActorLocalRef {
    Person(UserLocalID),
    Community(CommunityLocalID),
}

/// A local piece of content: a post or a comment.
#[derive(Clone, Copy, Debug, PartialEq, Eq, Structural)]
pub enum ThingLocalRef {
    Post(PostLocalID),
    Comment(CommentLocalID),
}

} // verus!

//! The parts of index retrieval that are computed rather than sent: where a
//! repository publishes its index, and how a response body becomes text.

use crate::error::AdelieError;
use std::string::FromUtf8Error;
use url::ParseError;
use url::Url;
use vstd::prelude::*;
use vstd::utf8::*;

verus! {

/// `url::ParseError`, carried through and never looked into.
#[verifier::external_type_specification]
#[verifier::external_body]
pub struct ExParseError(ParseError);

/// `std::string::FromUtf8Error`, carried through and never looked into.
#[verifier::external_type_specification]
#[verifier::external_body]
pub struct ExFromUtf8Error(FromUtf8Error);

/// The serialization of the URL that `reference` resolves to against the
/// URL written as `base`, or `None` where either is rejected.
pub uninterp spec fn joined_url(base: Seq<char>, reference: Seq<char>) -> Option<Seq<char>>;

/// `Url::join`, called on the URL that `Url::parse` reads from `base`, with the
/// result handed back as its serialization.
///
/// Trusted: the outcome depends on the two texts alone, and it is `Ok` exactly
/// when both the base and the reference were accepted.
#[verifier::external_body]
fn join_url(base: &str, reference: &str) -> (r: Result<String, ParseError>)
    ensures
        match r {
            Ok(location) => joined_url(base@, reference@) == Some(location@),
            Err(_) => joined_url(base@, reference@) is None,
        },
{
    match Url::parse(base) {
        Ok(parsed) => match parsed.join(reference) {
            Ok(joined) => Ok(String::from(joined)),
            Err(e) => Err(e),
        },
        Err(e) => Err(e),
    }
}

/// `String::from_utf8` succeeds exactly on well-formed UTF-8 and then holds
/// the characters that the bytes encode.
pub assume_specification[ String::from_utf8 ](bytes: Vec<u8>) -> (r: Result<String, FromUtf8Error>)
    ensures
        r is Ok <==> valid_utf8(bytes@),
        r matches Ok(text) ==> text@ == decode_utf8(bytes@),
;

/// Name of the index document below a repository's base URL.
pub open spec fn index_file() -> Seq<char> {
    "index.yaml"@
}

/// Where the repository at `repo` publishes its index, if `repo` is a usable
/// base URL: the index file resolved against `repo` taken as a directory.
pub open spec fn index_location(repo: Seq<char>) -> Option<Seq<char>> {
    joined_url(repo + "/"@, index_file())
}

/// Computes the URL of a repository's index.
///
/// A repository URL from which no index location can be formed counts as a
/// failed retrieval.
pub fn index_url(repo: &str) -> (r: Result<String, AdelieError>)
    ensures
        match r {
            Ok(location) => index_location(repo@) == Some(location@),
            Err(e) => e == AdelieError::Fetch && index_location(repo@) is None,
        },
{
    let mut base = String::from_str(repo);
    base.append("/");
    match join_url(base.as_str(), "index.yaml") {
        Ok(location) => Ok(location),
        Err(_) => Err(AdelieError::Fetch),
    }
}

/// Reads a response body as text.
///
/// The body must be well-formed UTF-8; anything else is a decode error.
pub fn decode_text(body: Vec<u8>) -> (r: Result<String, AdelieError>)
    ensures
        match r {
            Ok(text) => valid_utf8(body@) && text@ == decode_utf8(body@),
            Err(e) => e == AdelieError::Decode && !valid_utf8(body@),
        },
{
    match String::from_utf8(body) {
        Ok(text) => Ok(text),
        Err(_) => Err(AdelieError::Decode),
    }
}

} // verus!

//! Addresses: resolving a path against a base address, and the paths under
//! which an experience is found on the experiences server.

use vstd::prelude::*;

verus! {

/// The error type of the `url` crate, carried through as it is.
#[verifier::external_type_specification]
#[verifier::external_body]
pub struct ExParseError(url::ParseError);

/// What `url::Url::parse` makes of `text`: the address in its normal form, or
/// nothing where `text` is no absolute address.
pub uninterp spec fn parsed_url(text: Seq<char>) -> Option<Seq<char>>;

/// What `url::Url::parse(base)` followed by `url::Url::join(reference)` gives:
/// the resolved address in its normal form, or nothing where `base` is no
/// absolute address or `reference` cannot be resolved against it.
pub uninterp spec fn resolved_url(base: Seq<char>, reference: Seq<char>) -> Option<Seq<char>>;

/// Calls `url::Url::parse` and hands back the address as text.
///
/// Trusted, not proved: the result is what [`parsed_url`] names.
#[verifier::external_body]
fn parse_url(text: &str) -> (r: Result<String, url::ParseError>)
    ensures
        r matches Ok(address) ==> parsed_url(text@) == Some(address@),
        r is Err ==> parsed_url(text@) is None,
{
    url::Url::parse(text).map(String::from)
}

/// Calls `url::Url::parse` on `base` and `url::Url::join` with `reference`,
/// and hands back the resolved address as text.
///
/// Trusted, not proved: the result is what [`resolved_url`] names.
#[verifier::external_body]
fn resolve_url(base: &str, reference: &str) -> (r: Result<String, url::ParseError>)
    ensures
        r matches Ok(address) ==> resolved_url(base@, reference@) == Some(address@),
        r is Err ==> resolved_url(base@, reference@) is None,
{
    url::Url::parse(base)?.join(reference).map(String::from)
}

/// The message of a `url::ParseError`, from its `Display`. Nothing is claimed
/// of the text.
#[verifier::external_body]
fn url_error_text(error: &url::ParseError) -> String {
    error.to_string()
}

/// Why a text is no address, or a path could not be resolved.
#[derive(Clone, Debug, PartialEq, Eq)]
pub struct UrlError {
    pub message: String,
}

/// The path of the large cover picture of the experience `id`.
pub open spec fn spec_cover_path(id: Seq<char>) -> Seq<char> {
    "/api/experience/"@ + id + "/cover/big"@
}

/// The path of the page of the experience `id`.
pub open spec fn spec_experience_path(id: Seq<char>) -> Seq<char> {
    "/experience/"@ + id
}

/// Checks that `text` is an absolute address.
pub fn validate_url(text: &str) -> (r: Result<(), UrlError>)
    ensures
        r is Ok <==> parsed_url(text@) is Some,
{
    match parse_url(text) {
        Ok(_) => Ok(()),
        Err(error) => Err(UrlError { message: url_error_text(&error) }),
    }
}

/// The address of `path` on the experiences server whose address is `host`.
pub fn relative_url(host: &str, path: &str) -> (r: Result<String, UrlError>)
    ensures
        r matches Ok(address) ==> resolved_url(host@, path@) == Some(address@),
        r is Err ==> resolved_url(host@, path@) is None,
{
    match resolve_url(host, path) {
        Ok(address) => Ok(address),
        Err(error) => Err(UrlError { message: url_error_text(&error) }),
    }
}

/// The path of the large cover picture of the experience `id`.
pub fn cover_path(id: &str) -> (r: String)
    ensures
        r@ == spec_cover_path(id@),
{
    String::from_str("/api/experience/").concat(id).concat("/cover/big")
}

/// The path of the page of the experience `id`.
pub fn experience_path(id: &str) -> (r: String)
    ensures
        r@ == spec_experience_path(id@),
{
    String::from_str("/experience/").concat(id)
}

} // verus!

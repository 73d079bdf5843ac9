//! The call to the experiences server: where it goes, what it carries, and
//! how the answer is read.

use vstd::prelude::*;
use crate::event::{CreateExperienceRequest, CreateExperienceRequestView};
use crate::web::{relative_url, resolved_url, UrlError};

verus! {

/// What `serde_json::from_str` reads from `body` as a `Result<String, String>`:
/// the id of the new experience, or the server's complaint; or, where `body`
/// is not the JSON form of either, the message of serde_json's error.
pub uninterp spec fn decoded_envelope(body: Seq<char>) -> Result<
    Result<Seq<char>, Seq<char>>,
    Seq<char>,
>;

/// A decoded body with its texts as sequences of characters.
pub open spec fn envelope_view(decoded: Result<Result<String, String>, String>) -> Result<
    Result<Seq<char>, Seq<char>>,
    Seq<char>,
> {
    match decoded {
        Ok(Ok(id)) => Ok(Ok(id@)),
        Ok(Err(complaint)) => Ok(Err(complaint@)),
        Err(reason) => Err(reason@),
    }
}

/// Calls `serde_json::from_str::<Result<String, String>>`, and takes the
/// message of its error from the error's `Display`.
///
/// Trusted, not proved: the result is what [`decoded_envelope`] names.
#[verifier::external_body]
fn decode_envelope(body: &str) -> (r: Result<Result<String, String>, String>)
    ensures
        envelope_view(r) == decoded_envelope(body@),
{
    match serde_json::from_str::<Result<String, String>>(body) {
        Ok(envelope) => Ok(envelope),
        Err(error) => Err(error.to_string()),
    }
}

/// The path on the experiences server that creates an experience.
pub open spec fn spec_create_path() -> Seq<char> {
    "/api/experience/create"@
}

/// The credential that the plugin shows to the experiences server: the
/// shared password, as a cookie.
pub open spec fn spec_cookie(password: Seq<char>) -> Seq<char> {
    "pwd="@ + password
}

/// A call to the experiences server that asks it to create an experience.
#[derive(Clone, Debug, PartialEq, Eq)]
pub struct UpstreamCall {
    /// The address of the experiences server.
    pub base_url: String,
    /// The value of the `Cookie` header.
    pub cookie: String,
    /// What the body carries.
    pub request: CreateExperienceRequest,
}

/// An [`UpstreamCall`] with its texts as sequences of characters.
pub struct UpstreamCallView {
    pub base_url: Seq<char>,
    pub cookie: Seq<char>,
    pub request: CreateExperienceRequestView,
}

impl View for UpstreamCall {
    type V = UpstreamCallView;

    open spec fn view(&self) -> UpstreamCallView {
        UpstreamCallView { base_url: self.base_url@, cookie: self.cookie@, request: self.request@ }
    }
}

/// What the experiences server answered.
#[derive(Clone, Debug, PartialEq, Eq)]
pub enum UpstreamReply {
    /// It created the experience, under this id.
    Created(String),
    /// It refused, with this complaint.
    Rejected(String),
    /// Its answer could not be understood, for this reason.
    Unreadable(String),
}

/// An [`UpstreamReply`] with its texts as sequences of characters.
pub enum UpstreamReplyView {
    Created(Seq<char>),
    Rejected(Seq<char>),
    Unreadable(Seq<char>),
}

impl View for UpstreamReply {
    type V = UpstreamReplyView;

    open spec fn view(&self) -> UpstreamReplyView {
        match self {
            UpstreamReply::Created(id) => UpstreamReplyView::Created(id@),
            UpstreamReply::Rejected(complaint) => UpstreamReplyView::Rejected(complaint@),
            UpstreamReply::Unreadable(reason) => UpstreamReplyView::Unreadable(reason@),
        }
    }
}

impl UpstreamCall {
    /// The address that the call is sent to: the path that creates an
    /// experience, on the experiences server.
    pub fn endpoint(&self) -> (r: Result<String, UrlError>)
        ensures
            r matches Ok(address) ==> resolved_url(self.base_url@, spec_create_path()) == Some(
                address@,
            ),
            r is Err ==> resolved_url(self.base_url@, spec_create_path()) is None,
    {
        relative_url(self.base_url.as_str(), "/api/experience/create")
    }
}

/// The cookie that carries `password` to the experiences server.
pub fn cookie_for(password: &str) -> (r: String)
    ensures
        r@ == spec_cookie(password@),
{
    String::from_str("pwd=").concat(password)
}

/// The answer that a decoded body stands for.
pub open spec fn spec_reply(
    decoded: Result<Result<Seq<char>, Seq<char>>, Seq<char>>,
) -> UpstreamReplyView {
    match decoded {
        Ok(Ok(id)) => UpstreamReplyView::Created(id),
        Ok(Err(complaint)) => UpstreamReplyView::Rejected(complaint),
        Err(reason) => UpstreamReplyView::Unreadable(reason),
    }
}

/// The answer that a decoded body stands for: the id of the experience
/// that was created, the complaint of the server that refused, or the reason
/// why the body could not be understood.
pub fn reply_of(decoded: Result<Result<String, String>, String>) -> (r: UpstreamReply)
    ensures
        r@ == spec_reply(envelope_view(decoded)),
{
    match decoded {
        Ok(Ok(id)) => UpstreamReply::Created(id),
        Ok(Err(complaint)) => UpstreamReply::Rejected(complaint),
        Err(reason) => UpstreamReply::Unreadable(reason),
    }
}

/// Reads the body of the experiences server's answer.
pub fn decode_reply(body: &str) -> (r: UpstreamReply)
    ensures
        r@ == spec_reply(decoded_envelope(body@)),
{
    reply_of(decode_envelope(body))
}

} // verus!

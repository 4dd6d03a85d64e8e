//! What is asked of the host, and what is made of its answer.
//!
//! The request itself is sent by the caller. A body may hold up to 100 MiB: driver
//! archives run to tens of megabytes, and a host must not be able to exhaust memory.

use vstd::prelude::*;
use vstd::string::StringExecFns;

use crate::error::Error;
use crate::error::ErrorView;

verus! {

/// The most bytes that a response body may hold: 100 MiB.
pub const MAX_BODY_BYTES: u64 = 104_857_600;

/// The name under which requests are sent.
pub open spec fn tool_name() -> Seq<char> {
    "msedgedriver_tool"@
}

/// The version under which requests are sent.
pub open spec fn tool_version() -> Seq<char> {
    "0.1.0"@
}

/// The `User-Agent` header of every request: name, a space, version.
pub open spec fn user_agent_text() -> Seq<char> {
    tool_name() + " "@ + tool_version()
}

/// The `User-Agent` header of every request: name, a space, version.
pub fn user_agent() -> (agent: String)
    ensures
        agent@ == user_agent_text(),
{
    let mut agent = String::from_str("msedgedriver_tool");
    agent.append(" ");
    agent.append("0.1.0");
    agent
}

/// A single `GET` request.
#[derive(Debug, PartialEq, Eq)]
pub struct Request {
    /// The address to get.
    pub url: String,
    /// The value of the `User-Agent` header.
    pub user_agent: String,
    /// How many bytes of the body are read at most. It is one more than a body may
    /// hold, so that a body of exactly the most allowed is told from a longer one.
    pub read_limit: u64,
}

/// A [`Request`] with its texts as sequences of characters.
pub struct RequestView {
    pub url: Seq<char>,
    pub user_agent: Seq<char>,
    pub read_limit: int,
}

impl View for Request {
    type V = RequestView;

    open spec fn view(&self) -> RequestView {
        RequestView {
            url: self.url@,
            user_agent: self.user_agent@,
            read_limit: self.read_limit as int,
        }
    }
}

/// The request that fetches `url`.
pub open spec fn request_of(url: Seq<char>) -> RequestView {
    RequestView { url, user_agent: user_agent_text(), read_limit: MAX_BODY_BYTES + 1 }
}

/// The request that fetches `url`: a single `GET`, sent under this tool's name,
/// whose body is read up to one byte past the most that a body may hold.
pub fn request_for(url: &str) -> (request: Request)
    ensures
        request@ == request_of(url@),
{
    Request { url: String::from_str(url), user_agent: user_agent(), read_limit: MAX_BODY_BYTES + 1 }
}

/// How a request ended.
#[derive(Debug, PartialEq, Eq)]
pub enum Response {
    /// The host answered with success; these are the bytes of the body.
    Body(Vec<u8>),
    /// The host answered with success, and the body ran past the read limit.
    TooLarge,
    /// The request failed in transport, or the host answered with an error status;
    /// the text says why.
    Failed(String),
}

/// A [`Response`] with its contents as sequences.
pub enum ResponseView {
    Body(Seq<u8>),
    TooLarge,
    Failed(Seq<char>),
}

impl View for Response {
    type V = ResponseView;

    open spec fn view(&self) -> ResponseView {
        match self {
            Response::Body(bytes) => ResponseView::Body(bytes@),
            Response::TooLarge => ResponseView::TooLarge,
            Response::Failed(cause) => ResponseView::Failed(cause@),
        }
    }
}

/// The body that a response delivers, or the error in its place.
pub open spec fn delivered(response: ResponseView) -> Result<Seq<u8>, ErrorView> {
    match response {
        ResponseView::Body(bytes) => if bytes.len() <= MAX_BODY_BYTES {
            Ok(bytes)
        } else {
            Err(ErrorView::BodyTooLarge)
        },
        ResponseView::TooLarge => Err(ErrorView::BodyTooLarge),
        ResponseView::Failed(cause) => Err(ErrorView::NetworkError(cause)),
    }
}

/// The view of a body or of the error in its place.
pub open spec fn fetched_view(fetched: Result<Vec<u8>, Error>) -> Result<Seq<u8>, ErrorView> {
    match fetched {
        Ok(bytes) => Ok(bytes@),
        Err(error) => Err(error@),
    }
}

/// The body of a response, unchanged, where it holds at most `MAX_BODY_BYTES`
/// bytes. A longer body fails with `BodyTooLarge`, a request that failed with
/// `NetworkError` and its cause. Nothing is tried again.
pub fn fetch(response: Response) -> (fetched: Result<Vec<u8>, Error>)
    ensures
        fetched_view(fetched) == delivered(response@),
{
    match response {
        Response::Body(bytes) => {
            if bytes.len() as u64 <= MAX_BODY_BYTES {
                Ok(bytes)
            } else {
                Err(Error::BodyTooLarge)
            }
        },
        Response::TooLarge => Err(Error::BodyTooLarge),
        Response::Failed(cause) => Err(Error::NetworkError(cause)),
    }
}

/// A body of exactly the most that is allowed is delivered as it is, and a body of
/// one byte more fails with `BodyTooLarge`, as every longer one does.
pub proof fn lemma_body_ceiling(body: Seq<u8>)
    ensures
        body.len() <= MAX_BODY_BYTES ==> delivered(ResponseView::Body(body)) == Ok::<
            Seq<u8>,
            ErrorView,
        >(body),
        body.len() > MAX_BODY_BYTES ==> delivered(ResponseView::Body(body)) == Err::<
            Seq<u8>,
            ErrorView,
        >(ErrorView::BodyTooLarge),
{
}

} // verus!

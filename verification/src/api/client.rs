//! The client's side of one HTTP exchange: the call to send and the reply
//! that came back. Nothing here touches the network.

use super::json::{json_of, Json};
use super::PostHogApiError;
use serde_json::Value;
use vstd::prelude::*;

verus! {

/// The HTTP methods that the API uses.
#[derive(Clone, Copy, Debug, PartialEq, Eq, Structural)]
pub enum HttpMethod {
    Get,
    Post,
    Delete,
}

/// One call, ready to be sent: the method, the path below the service's base
/// URL, and the JSON body if the call has one.
#[derive(Debug)]
pub struct ApiCall {
    pub method: HttpMethod,
    pub endpoint: String,
    pub body: Option<Value>,
}

/// What an `ApiCall` holds, as mathematical values.
pub struct ApiCallView {
    pub method: HttpMethod,
    pub endpoint: Seq<char>,
    pub body: Option<Json>,
}

impl View for ApiCall {
    type V = ApiCallView;

    open spec fn view(&self) -> ApiCallView {
        ApiCallView {
            method: self.method,
            endpoint: self.endpoint@,
            body: match self.body {
                Some(body) => Some(json_of(body)),
                None => None,
            },
        }
    }
}

/// What came back for a call.
#[derive(Debug)]
pub enum ApiReply {
    /// Nothing came back: the connection failed or timed out.
    Failed,
    /// The service answered.
    Received { status: u16, body: String },
}

/// The statuses that count as success: 200 to 299.
pub open spec fn is_success(status: u16) -> bool {
    200 <= status <= 299
}

impl ApiReply {
    /// The body of a reply that succeeded, and otherwise why it did not:
    /// `Transport` where nothing came back, `Status` with the status where
    /// it is no success.
    pub open spec fn checked(self) -> Result<Seq<char>, PostHogApiError> {
        match self {
            ApiReply::Failed => Err(PostHogApiError::Transport),
            ApiReply::Received { status, body } => if is_success(status) {
                Ok(body@)
            } else {
                Err(PostHogApiError::Status(status))
            },
        }
    }

    /// What a reply amounts to for a call that answers with no content: the
    /// failure of the exchange if it failed, else success, whatever the body
    /// holds.
    pub open spec fn acknowledged(self) -> Result<(), PostHogApiError> {
        match self.checked() {
            Ok(_) => Ok(()),
            Err(error) => Err(error),
        }
    }

    /// The body of a reply that succeeded, or the failure.
    pub fn body_on_success(&self) -> (body: Result<&str, PostHogApiError>)
        ensures
            match self.checked() {
                Ok(text) => body is Ok && body->Ok_0@ == text,
                Err(error) => body is Err && body->Err_0 == error,
            },
    {
        match self {
            ApiReply::Failed => Err(PostHogApiError::Transport),
            ApiReply::Received { status, body } => {
                if 200 <= *status && *status <= 299 {
                    Ok(body.as_str())
                } else {
                    Err(PostHogApiError::Status(*status))
                }
            },
        }
    }

    /// Reads the reply to a call that answers with no content: it succeeds
    /// exactly where the service answered with a success status, whatever
    /// the body holds.
    pub fn no_content(&self) -> (outcome: Result<(), PostHogApiError>)
        ensures
            outcome == self.acknowledged(),
    {
        match self.body_on_success() {
            Ok(_) => Ok(()),
            Err(error) => Err(error),
        }
    }
}

/// A reply reads as a success exactly where the service answered with a
/// success status. A call that the service turns down, such as one that names
/// a query it does not know, therefore fails, and so does one that never got
/// an answer.
pub proof fn lemma_only_a_success_status_succeeds(reply: ApiReply)
    ensures
        reply.checked() is Ok <==> reply is Received && is_success(reply->status),
        reply.acknowledged() is Ok <==> reply is Received && is_success(reply->status),
        reply is Failed ==> reply.checked() is Err && reply.checked()->Err_0
            == PostHogApiError::Transport,
        reply is Received && !is_success(reply->status) ==> reply.checked() is Err
            && reply.checked()->Err_0 == PostHogApiError::Status(reply->status),
{
}

/// The handle that the operations of the API are bound to. It holds no
/// state: each operation plans one call from its arguments alone.
#[derive(Clone, Copy, Debug)]
pub struct PostHogAPIClient;

} // verus!

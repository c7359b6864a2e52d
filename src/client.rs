use vstd::prelude::*;
use crate::types::{SyncAction, SyncResponse, SyncStoryPreview};

verus! {

/// Seconds a client waits for the answer to a listing.
pub const LIST_TIMEOUT_SECS: u64 = 10;

/// Seconds a client waits for the answer to a pull or a push.
pub const TRANSFER_TIMEOUT_SECS: u64 = 30;

/// The message of an answer whose kind does not fit the request.
pub open spec fn unexpected_text() -> Seq<char> {
    "Unexpected response type"@
}

/// The message of a request that could not be delivered.
pub open spec fn connection_failed_text(detail: Seq<char>) -> Seq<char> {
    "Connection failed: "@ + detail
}

/// The message of an answer that could not be read.
pub open spec fn invalid_response_text(detail: Seq<char>) -> Seq<char> {
    "Invalid response: "@ + detail
}

/// How long a client waits for the answer to `action`.
pub fn timeout_secs(action: &SyncAction) -> (r: u64)
    ensures
        r == (if action is ListStories { LIST_TIMEOUT_SECS } else { TRANSFER_TIMEOUT_SECS }),
{
    match action {
        SyncAction::ListStories => LIST_TIMEOUT_SECS,
        _ => TRANSFER_TIMEOUT_SECS,
    }
}

/// The failure of a request that could not be delivered.
pub fn connection_failed(detail: &str) -> (r: String)
    ensures
        r@ == connection_failed_text(detail@),
{
    String::from_str("Connection failed: ").concat(detail)
}

/// The failure of an answer that could not be read.
pub fn invalid_response(detail: &str) -> (r: String)
    ensures
        r@ == invalid_response_text(detail@),
{
    String::from_str("Invalid response: ").concat(detail)
}

/// The outcome of a listing: the previews of a `StoriesList`, the message of
/// an `Error`, and a failure for any other answer.
pub fn connect_outcome(response: SyncResponse) -> (r: Result<Vec<SyncStoryPreview>, String>)
    ensures
        match response {
            SyncResponse::StoriesList { stories } => r == Ok::<Vec<SyncStoryPreview>, String>(stories),
            SyncResponse::Error { message } => r == Err::<Vec<SyncStoryPreview>, String>(message),
            _ => r matches Err(m) && m@ == unexpected_text(),
        },
{
    match response {
        SyncResponse::StoriesList { stories } => Ok(stories),
        SyncResponse::Error { message } => Err(message),
        _ => Err(String::from_str("Unexpected response type")),
    }
}

/// The outcome of a pull: the data of a `StoryData`, the message of an
/// `Error`, and a failure for any other answer.
pub fn pull_outcome(response: SyncResponse) -> (r: Result<String, String>)
    ensures
        match response {
            SyncResponse::StoryData { data } => r == Ok::<String, String>(data),
            SyncResponse::Error { message } => r == Err::<String, String>(message),
            _ => r matches Err(m) && m@ == unexpected_text(),
        },
{
    match response {
        SyncResponse::StoryData { data } => Ok(data),
        SyncResponse::Error { message } => Err(message),
        _ => Err(String::from_str("Unexpected response type")),
    }
}

/// The outcome of a push: success on a `Success`, the message of an
/// `Error`, and a failure for any other answer.
pub fn push_outcome(response: SyncResponse) -> (r: Result<(), String>)
    ensures
        match response {
            SyncResponse::Success { .. } => r is Ok,
            SyncResponse::Error { message } => r == Err::<(), String>(message),
            _ => r matches Err(m) && m@ == unexpected_text(),
        },
{
    match response {
        SyncResponse::Success { .. } => Ok(()),
        SyncResponse::Error { message } => Err(message),
        _ => Err(String::from_str("Unexpected response type")),
    }
}

} // verus!

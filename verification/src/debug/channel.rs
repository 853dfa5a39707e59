//! What can go wrong when a request on a channel waits for its answer.

use vstd::prelude::*;

verus! {

/// Why a request was not answered as it should be.
#[derive(Debug)]
pub enum ChannelError {
    /// The channel was closed before an answer came.
    Closed,
    /// A message came that does not answer the request.
    Unexpected,
    /// The other side refused, for the reason given.
    Rejected(String),
}

impl ChannelError {
    /// What went wrong, in words.
    pub open spec fn text(self) -> Seq<char> {
        match self {
            ChannelError::Closed => "Channel closed"@,
            ChannelError::Unexpected => "Unexpected message type"@,
            ChannelError::Rejected(reason) => reason@,
        }
    }

    /// What went wrong, in words.
    pub fn message(&self) -> (r: String)
        ensures
            r@ == self.text(),
    {
        match self {
            ChannelError::Closed => "Channel closed".to_owned(),
            ChannelError::Unexpected => "Unexpected message type".to_owned(),
            ChannelError::Rejected(reason) => reason.clone(),
        }
    }
}

/// What the result in an answer means for the request.
pub open spec fn granted<T>(result: Result<T, String>) -> Result<T, ChannelError> {
    match result {
        Ok(value) => Ok(value),
        Err(reason) => Err(ChannelError::Rejected(reason)),
    }
}

/// What the result in an answer means for the request.
pub fn grant<T>(result: Result<T, String>) -> (r: Result<T, ChannelError>)
    ensures
        r == granted(result),
{
    match result {
        Ok(value) => Ok(value),
        Err(reason) => Err(ChannelError::Rejected(reason)),
    }
}

/// A request is granted if and only if the answer says success, with what the answer holds,
/// and refused for the reason that the answer gives.
pub proof fn answers_are_taken_at_their_word<T>(value: T, reason: String)
    ensures
        granted(Ok::<T, String>(value)) == Ok::<T, ChannelError>(value),
        granted(Err::<T, String>(reason)) == Err::<T, ChannelError>(ChannelError::Rejected(reason)),
{
}

/// What went wrong, in words.
pub proof fn channel_errors_in_words(reason: String)
    ensures
        ChannelError::Closed.text() == "Channel closed"@,
        ChannelError::Unexpected.text() == "Unexpected message type"@,
        ChannelError::Rejected(reason).text() == reason@,
{
}

} // verus!

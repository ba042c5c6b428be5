use vstd::prelude::*;
use vstd::string::to_string_from_display_ensures;

use crate::text::owned;

verus! {

/// `redis::RedisError`, carried through as it is; nothing inside it is read.
#[verifier::external_type_specification]
#[verifier::external_body]
pub struct ExRedisError(redis::RedisError);

/// `bb8::RunError`, carried through as it is; nothing inside it is read.
#[verifier::external_type_specification]
#[verifier::external_body]
#[verifier::reject_recursive_types(E)]
pub struct ExRunError<E>(bb8::RunError<E>);

/// Failures of setting up a channel to the request queues.
pub enum RedisWindowErr {
    RedisErr(redis::RedisError),
    RunErr(bb8::RunError<redis::RedisError>),
    RequestLoopOutErr,
}

/// Failures of one exchange with the scraping workers.
#[derive(Debug, Clone, Copy, PartialEq, Eq, Structural)]
pub enum RedisHandleErr {
    Timeout,
    ConnectionDrop,
    RedisNoneConnection,
    RequestSenderErr,
    IDSenderErr,
    OverRetry,
}

/// Whether `m` is the text of the failure: what the wrapped error's `Display` writes, or
/// `Request Loop out err`.
pub open spec fn window_message_is(e: &RedisWindowErr, m: Seq<char>) -> bool {
    match e {
        RedisWindowErr::RedisErr(r) => exists|t: String|
            to_string_from_display_ensures::<redis::RedisError>(r, t) && m == t@,
        RedisWindowErr::RunErr(r) => exists|t: String|
            to_string_from_display_ensures::<bb8::RunError<redis::RedisError>>(r, t) && m == t@,
        RedisWindowErr::RequestLoopOutErr => m == "Request Loop out err"@,
    }
}

impl RedisWindowErr {
    /// The text of the failure.
    pub fn message(&self) -> (r: String)
        ensures
            window_message_is(self, r@),
    {
        match self {
            RedisWindowErr::RedisErr(e) => e.to_string(),
            RedisWindowErr::RunErr(e) => e.to_string(),
            RedisWindowErr::RequestLoopOutErr => owned("Request Loop out err"),
        }
    }
}

/// The text of a failed exchange: `RedisHandleErr ` and the name of the failure.
pub open spec fn handle_message(e: RedisHandleErr) -> Seq<char> {
    match e {
        RedisHandleErr::Timeout => "RedisHandleErr Timeout"@,
        RedisHandleErr::ConnectionDrop => "RedisHandleErr ConnectionDrop"@,
        RedisHandleErr::RedisNoneConnection => "RedisHandleErr RedisNoneConnection"@,
        RedisHandleErr::RequestSenderErr => "RedisHandleErr RequestSenderErr"@,
        RedisHandleErr::IDSenderErr => "RedisHandleErr IDSenderErr"@,
        RedisHandleErr::OverRetry => "RedisHandleErr OverRetry"@,
    }
}

impl RedisHandleErr {
    /// The text of the failure.
    pub fn message(&self) -> (r: String)
        ensures
            r@ == handle_message(*self),
    {
        match self {
            RedisHandleErr::Timeout => owned("RedisHandleErr Timeout"),
            RedisHandleErr::ConnectionDrop => owned("RedisHandleErr ConnectionDrop"),
            RedisHandleErr::RedisNoneConnection => owned("RedisHandleErr RedisNoneConnection"),
            RedisHandleErr::RequestSenderErr => owned("RedisHandleErr RequestSenderErr"),
            RedisHandleErr::IDSenderErr => owned("RedisHandleErr IDSenderErr"),
            RedisHandleErr::OverRetry => owned("RedisHandleErr OverRetry"),
        }
    }
}

} // verus!

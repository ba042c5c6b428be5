use vstd::prelude::*;

use crate::engine::err::EngineErr;
use crate::redis_communication::RedisResponse;
use crate::redis_window::RedisHandleErr;
use crate::text::{parse_i32, parsed_i32};

verus! {

/// The text of a worker's answer, or the failure of the exchange as an engine error.
pub fn received_text(received: Result<String, RedisHandleErr>) -> (r: Result<String, EngineErr>)
    ensures
        match received {
            Ok(t) => r == Ok::<String, EngineErr>(t),
            Err(e) => r == Err::<String, EngineErr>(EngineErr::RedisHandleErr(e)),
        },
{
    match received {
        Ok(t) => Ok(t),
        Err(e) => Err(EngineErr::RedisHandleErr(e)),
    }
}

/// The payload of a worker's answer `raw`, given what decoding it as an answer gave:
/// an answer that did not decode, or that holds neither error nor payload, is invalid
/// and reported with its text; an answer with an error is a server error.
pub fn response_payload(raw: String, decoded: Option<RedisResponse>) -> (r: Result<String, EngineErr>)
    ensures
        r == (match decoded {
            None => Err(EngineErr::InvalidReponseErr(raw)),
            Some(resp) => match resp.error {
                Some(e) => Err(EngineErr::RedisServerErr(e)),
                None => match resp.payload {
                    None => Err(EngineErr::InvalidReponseErr(raw)),
                    Some(p) => Ok(p),
                },
            },
        }),
{
    match decoded {
        None => Err(EngineErr::InvalidReponseErr(raw)),
        Some(resp) => match resp.error {
            Some(e) => Err(EngineErr::RedisServerErr(e)),
            None => match resp.payload {
                None => Err(EngineErr::InvalidReponseErr(raw)),
                Some(p) => Ok(p),
            },
        },
    }
}

/// The value that a payload decoded to; a payload that did not decode makes the answer
/// `raw` invalid.
pub fn payload_value<P>(raw: String, decoded: Option<P>) -> (r: Result<P, EngineErr>)
    ensures
        r == (match decoded {
            None => Err(EngineErr::InvalidReponseErr(raw)),
            Some(v) => Ok(v),
        }),
{
    match decoded {
        None => Err(EngineErr::InvalidReponseErr(raw)),
        Some(v) => Ok(v),
    }
}

/// The number of listing pages that a worker's answer `raw` reports, given what
/// decoding it as an answer gave: an error in it is a communication error, an answer
/// without payload a missing response, and a payload that is no decimal `i32` makes the
/// answer invalid.
pub fn idx_from_response(raw: String, decoded: Option<RedisResponse>) -> (r: Result<i32, EngineErr>)
    ensures
        r == (match decoded {
            None => Err(EngineErr::InvalidReponseErr(raw)),
            Some(resp) => match resp.error {
                Some(e) => Err(EngineErr::RedisCommunicationErr(e)),
                None => match resp.payload {
                    None => Err(EngineErr::ResponseNoneErr),
                    Some(p) => match parsed_i32(p@) {
                        Some(n) => Ok(n),
                        None => Err(EngineErr::InvalidReponseErr(raw)),
                    },
                },
            },
        }),
{
    match decoded {
        None => Err(EngineErr::InvalidReponseErr(raw)),
        Some(resp) => match resp.error {
            Some(e) => Err(EngineErr::RedisCommunicationErr(e)),
            None => match resp.payload {
                None => Err(EngineErr::ResponseNoneErr),
                Some(p) => match parse_i32(p.as_str()) {
                    Some(n) => Ok(n),
                    None => Err(EngineErr::InvalidReponseErr(raw)),
                },
            },
        },
    }
}

} // verus!

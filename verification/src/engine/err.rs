use vstd::prelude::*;

use crate::db_executor::err::db_message_is;
use crate::db_executor::DBExecutorErr;
use crate::engine::process_meta::ScrapeConvertErr;
use crate::redis_window::err::{handle_message, window_message_is};
use crate::redis_window::{RedisHandleErr, RedisWindowErr};
use crate::text::{join, owned};

verus! {

/// Failures of the engine's handling of a request.
pub enum EngineErr {
    RedisWindowErr(RedisWindowErr),
    RedisCommunicationErr(String),
    RedisHandleErr(RedisHandleErr),
    ResponseNoneErr,
    InvalidReponseErr(String),
    RedisServerErr(String),
    DBExecutorErr(DBExecutorErr),
    ScrapeConvertErr(ScrapeConvertErr),
}

/// Whether `m` is the text shown for the failure: the wrapped failure's own text, the
/// message of the workers, or `EngineErr ` and the failure's name with its detail.
/// An invalid answer is shown without the answer's text.
pub open spec fn engine_message_is(e: &EngineErr, m: Seq<char>) -> bool {
    match e {
        EngineErr::RedisWindowErr(w) => window_message_is(w, m),
        EngineErr::RedisCommunicationErr(s) => m == s@,
        EngineErr::RedisHandleErr(h) => m == handle_message(*h),
        EngineErr::ResponseNoneErr => m == "EngineErr ResponseNoneErr"@,
        EngineErr::InvalidReponseErr(_) => m == "EngineErr InvalidReponseErr"@,
        EngineErr::RedisServerErr(s) => m == "EngineErr RedisServerErr "@ + s@,
        EngineErr::DBExecutorErr(d) => exists|t: Seq<char>|
            db_message_is(d, t) && m == "EngineErr DBExecutorErr "@ + t,
        EngineErr::ScrapeConvertErr(_) => m == "EngineErr ScrapeConvertErr Not found"@,
    }
}

impl EngineErr {
    /// The text shown for the failure.
    pub fn message(&self) -> (r: String)
        ensures
            engine_message_is(self, r@),
    {
        match self {
            EngineErr::RedisWindowErr(w) => w.message(),
            EngineErr::RedisCommunicationErr(s) => s.clone(),
            EngineErr::RedisHandleErr(h) => h.message(),
            EngineErr::ResponseNoneErr => owned("EngineErr ResponseNoneErr"),
            EngineErr::InvalidReponseErr(_) => owned("EngineErr InvalidReponseErr"),
            EngineErr::RedisServerErr(s) => join(owned("EngineErr RedisServerErr "), s.as_str()),
            EngineErr::DBExecutorErr(d) => {
                let t = d.message();
                join(owned("EngineErr DBExecutorErr "), t.as_str())
            },
            EngineErr::ScrapeConvertErr(_) => owned("EngineErr ScrapeConvertErr Not found"),
        }
    }
}

} // verus!

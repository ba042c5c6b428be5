pub mod err;
pub mod find_detail;
pub mod find_roughs;
pub mod handlers;
pub mod library;
pub mod process_meta;
pub mod state;
pub mod update_tag;

pub use err::EngineErr;
pub use state::EngineConfig;

use vstd::prelude::*;

verus! {

/// The body of an answer to a client: a payload or an error message.
pub struct FindResultResponse<T> {
    pub payload: Option<T>,
    pub error: Option<String>,
}

/// Whether an answer's error field holds the message `m`.
pub open spec fn error_is(error: Option<String>, m: Seq<char>) -> bool {
    match error {
        Some(e) => e@ == m,
        None => false,
    }
}

} // verus!

use vstd::prelude::*;

use crate::engine::{error_is, FindResultResponse};
use crate::text::owned;

verus! {

/// The query of a request for one work.
pub struct FindDetailQuery {
    pub id: String,
}

/// The status and body of the answer to a request for one work: the work with status
/// 200; `not found` with status 200 where there is no such work; an empty message with
/// status 500 where the store failed.
pub fn detail_response<T, E>(found: Result<Option<T>, E>) -> (r: (u16, FindResultResponse<T>))
    ensures
        match found {
            Ok(Some(d)) => r.0 == 200 && r.1.payload == Some(d) && r.1.error is None,
            Ok(None) => r.0 == 200 && r.1.payload is None && error_is(r.1.error, "not found"@),
            Err(_) => r.0 == 500 && r.1.payload is None && error_is(r.1.error, ""@),
        },
{
    match found {
        Ok(Some(d)) => (200, FindResultResponse { payload: Some(d), error: None }),
        Ok(None) => (200, FindResultResponse { payload: None, error: Some(owned("not found")) }),
        Err(_) => (500, FindResultResponse { payload: None, error: Some(owned("")) }),
    }
}

} // verus!

use vstd::prelude::*;

use crate::db_executor::TagFinderStruct;
use crate::engine::{error_is, FindResultResponse};
use crate::text::owned;

verus! {

/// The query of a request for a page of works.
pub struct FindRoughsQuery {
    pub index: Option<i32>,
    pub size: Option<i32>,
    pub cvs: Option<Vec<String>>,
    pub illusts: Option<Vec<String>>,
    pub series: Option<Vec<String>>,
    pub circles: Option<Vec<String>>,
    pub genres: Option<Vec<String>>,
}

impl From<FindRoughsQuery> for TagFinderStruct {
    fn from(value: FindRoughsQuery) -> (r: Self)
        ensures
            r.index == value.index,
            r.size == value.size,
            r.cvs == value.cvs,
            r.illusts == value.illusts,
            r.series == value.series,
            r.circles == value.circles,
            r.genres == value.genres,
    {
        TagFinderStruct {
            index: value.index,
            size: value.size,
            cvs: value.cvs,
            illusts: value.illusts,
            series: value.series,
            circles: value.circles,
            genres: value.genres,
        }
    }
}

impl vstd::std_specs::convert::FromSpecImpl<FindRoughsQuery> for TagFinderStruct {
    open spec fn obeys_from_spec() -> bool {
        true
    }

    open spec fn from_spec(value: FindRoughsQuery) -> TagFinderStruct {
        TagFinderStruct {
            index: value.index,
            size: value.size,
            cvs: value.cvs,
            illusts: value.illusts,
            series: value.series,
            circles: value.circles,
            genres: value.genres,
        }
    }
}

/// Turning a page query into what the store is asked keeps every field in its place: the
/// page, its size, and the names asked for among voices, illustrators, series, circles
/// and genres each stay with their own kind.
pub proof fn law_query_fields_kept(q: FindRoughsQuery)
    ensures
        ({
            let t = <TagFinderStruct as vstd::std_specs::convert::FromSpec<FindRoughsQuery>>::from_spec(q);
            &&& t.index == q.index
            &&& t.size == q.size
            &&& t.cvs == q.cvs
            &&& t.illusts == q.illusts
            &&& t.series == q.series
            &&& t.circles == q.circles
            &&& t.genres == q.genres
        }),
{
}

/// The status and body of the answer to a request for a page of works: the page with
/// status 200, or an empty message with status 500 where the store failed.
pub fn roughs_response<T, E>(found: Result<T, E>) -> (r: (u16, FindResultResponse<T>))
    ensures
        match found {
            Ok(p) => r.0 == 200 && r.1.payload == Some(p) && r.1.error is None,
            Err(_) => r.0 == 500 && r.1.payload is None && error_is(r.1.error, ""@),
        },
{
    match found {
        Ok(p) => (200, FindResultResponse { payload: Some(p), error: None }),
        Err(_) => (500, FindResultResponse { payload: None, error: Some(owned("")) }),
    }
}

} // verus!

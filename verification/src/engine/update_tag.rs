use vstd::prelude::*;

use crate::engine::process_meta::is_kind_keyword;
use crate::engine::process_meta::{scrape_src_of, ScrapeMetaSrc};
use crate::engine::{error_is, FindResultResponse};
use crate::text::{owned, str_eq};

verus! {

/// The kind of tag whose whole list is to be refreshed.
#[derive(Debug, Clone, Copy, PartialEq, Eq, Structural)]
pub enum UpdateSrc {
    CV,
    Circle,
    Scenario,
    Illust,
    Series,
    Genre,
}

/// The target named in a refresh request is none of the known kinds.
#[derive(Debug, PartialEq, Eq, Structural)]
pub enum UpdateConvertErr {
    NotFound,
}

/// The query of a refresh request.
pub struct UpdateQuery {
    pub target: String,
}

/// The kind that a target keyword names, checked in this order.
pub open spec fn update_src_of(s: Seq<char>) -> Result<UpdateSrc, UpdateConvertErr> {
    if s == "cv"@ {
        Ok(UpdateSrc::CV)
    } else if s == "circle"@ {
        Ok(UpdateSrc::Circle)
    } else if s == "scenario"@ {
        Ok(UpdateSrc::Scenario)
    } else if s == "illust"@ {
        Ok(UpdateSrc::Illust)
    } else if s == "series"@ {
        Ok(UpdateSrc::Series)
    } else if s == "genre"@ {
        Ok(UpdateSrc::Genre)
    } else {
        Err(UpdateConvertErr::NotFound)
    }
}

impl UpdateSrc {
    /// The kind named by a target keyword; `NotFound` for any other text.
    pub fn from_target(s: &str) -> (r: Result<UpdateSrc, UpdateConvertErr>)
        ensures
            r == update_src_of(s@),
            r is Ok <==> is_kind_keyword(s@),
    {
        if str_eq(s, "cv") {
            Ok(UpdateSrc::CV)
        } else if str_eq(s, "circle") {
            Ok(UpdateSrc::Circle)
        } else if str_eq(s, "scenario") {
            Ok(UpdateSrc::Scenario)
        } else if str_eq(s, "illust") {
            Ok(UpdateSrc::Illust)
        } else if str_eq(s, "series") {
            Ok(UpdateSrc::Series)
        } else if str_eq(s, "genre") {
            Ok(UpdateSrc::Genre)
        } else {
            Err(UpdateConvertErr::NotFound)
        }
    }
}

impl std::str::FromStr for UpdateSrc {
    type Err = UpdateConvertErr;

    fn from_str(s: &str) -> (r: Result<UpdateSrc, UpdateConvertErr>)
        ensures
            r == update_src_of(s@),
    {
        UpdateSrc::from_target(s)
    }
}

/// The kind of listing that corresponds to a kind of tag.
pub open spec fn same_kind(u: UpdateSrc, src: ScrapeMetaSrc) -> bool {
    match (u, src) {
        (UpdateSrc::CV, ScrapeMetaSrc::CV(_)) => true,
        (UpdateSrc::Circle, ScrapeMetaSrc::Circle(_)) => true,
        (UpdateSrc::Scenario, ScrapeMetaSrc::Scenario(_)) => true,
        (UpdateSrc::Illust, ScrapeMetaSrc::Illust(_)) => true,
        (UpdateSrc::Series, ScrapeMetaSrc::Series(_)) => true,
        (UpdateSrc::Genre, ScrapeMetaSrc::Genre(_)) => true,
        _ => false,
    }
}

/// A refresh request and a scraping request accept the same keywords, and a keyword
/// names the same kind in both.
pub proof fn law_refresh_and_scrape_agree<'b>(s: &'b str, content: &'b str)
    ensures
        (update_src_of(s@) is Ok) == (scrape_src_of(s, content) is Ok),
        update_src_of(s@) is Ok ==> same_kind(update_src_of(s@)->Ok_0, scrape_src_of(s, content)->Ok_0),
{
}

/// The status and body of the answer to a refresh request: the refreshed tags with
/// status 200, or an empty message with status 400 whatever the failure was.
pub fn update_response<T, E>(outcome: Result<T, E>) -> (r: (u16, FindResultResponse<T>))
    ensures
        match outcome {
            Ok(c) => r.0 == 200 && r.1.payload == Some(c) && r.1.error is None,
            Err(_) => r.0 == 400 && r.1.payload is None && error_is(r.1.error, ""@),
        },
{
    match outcome {
        Ok(c) => (200, FindResultResponse { payload: Some(c), error: None }),
        Err(_) => (400, FindResultResponse { payload: None, error: Some(owned("")) }),
    }
}

} // verus!

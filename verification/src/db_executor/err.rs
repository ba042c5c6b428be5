use vstd::prelude::*;
use vstd::string::to_string_from_display_ensures;

use crate::text::{join, owned};

verus! {

/// `sea_orm::DbErr`, carried through as it is; nothing inside it is read.
#[verifier::external_type_specification]
#[verifier::external_body]
pub struct ExDbErr(sea_orm::DbErr);

/// `reqwest::Error`, carried through as it is; nothing inside it is read.
#[verifier::external_type_specification]
#[verifier::external_body]
pub struct ExReqwestError(reqwest::Error);

/// Failures of the store and of the lookups it makes on the way.
pub enum DBExecutorErr {
    DBErr(sea_orm::DbErr),
    ReqwestErr(reqwest::Error),
}

/// Whether `m` is the text of the failure: `DBErr ` or `ReqwestErr ` followed by what the
/// wrapped error's `Display` writes.
pub open spec fn db_message_is(e: &DBExecutorErr, m: Seq<char>) -> bool {
    match e {
        DBExecutorErr::DBErr(d) => exists|t: String|
            to_string_from_display_ensures::<sea_orm::DbErr>(d, t) && m == "DBErr "@ + t@,
        DBExecutorErr::ReqwestErr(q) => exists|t: String|
            to_string_from_display_ensures::<reqwest::Error>(q, t) && m == "ReqwestErr "@ + t@,
    }
}

impl DBExecutorErr {
    /// The text of the failure.
    pub fn message(&self) -> (r: String)
        ensures
            db_message_is(self, r@),
    {
        match self {
            DBExecutorErr::DBErr(d) => {
                let t = d.to_string();
                join(owned("DBErr "), t.as_str())
            },
            DBExecutorErr::ReqwestErr(q) => {
                let t = q.to_string();
                join(owned("ReqwestErr "), t.as_str())
            },
        }
    }
}

} // verus!

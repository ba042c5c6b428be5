use vstd::prelude::*;

verus! {

/// Whether `c` is a lower-case hexadecimal digit.
pub open spec fn is_lower_hex(c: char) -> bool {
    ('0' <= c && c <= '9') || ('a' <= c && c <= 'f')
}

/// Whether `s` is the lower-case hyphenated text of a random (version 4) UUID:
/// 36 characters in groups of 8-4-4-4-12 hexadecimal digits, the version digit `4`
/// and a variant digit among `8`, `9`, `a`, `b`.
pub open spec fn is_v4_uuid_text(s: Seq<char>) -> bool {
    &&& s.len() == 36
    &&& forall|i: int|
        0 <= i < 36 ==> if i == 8 || i == 13 || i == 18 || i == 23 {
            s[i] == '-'
        } else {
            is_lower_hex(#[trigger] s[i])
        }
    &&& s[14] == '4'
    &&& (s[19] == '8' || s[19] == '9' || s[19] == 'a' || s[19] == 'b')
}

/// Calls `uuid::Uuid::new_v4` and writes the result with its `Display`, which is the
/// hyphenated lower-case form. The value is random: nothing but its form is claimed.
/// `new_v4` panics only where the operating system gives no random bytes.
#[verifier::external_body]
pub(crate) fn new_uuid_text() -> (s: String)
    ensures
        is_v4_uuid_text(s@),
{
    uuid::Uuid::new_v4().to_string()
}

/// A request that is queued for the scraping workers.
pub trait RedisRequest: Sized {
    /// The address to scrape.
    spec fn spec_url(&self) -> Seq<char>;

    /// The identifier of this request: a fresh random UUID.
    spec fn spec_id(&self) -> Seq<char>;

    /// The identifier of the job that the request belongs to.
    spec fn spec_job_id(&self) -> Seq<char>;

    /// The position of the request in its job.
    spec fn spec_index(&self) -> i32;

    /// Whether the worker is asked to scrape again what it already holds.
    spec fn spec_force(&self) -> Option<bool>;

    fn get_url(&self) -> (r: String)
        ensures
            r@ == self.spec_url(),
    ;

    fn get_id(&self) -> (r: String)
        ensures
            r@ == self.spec_id(),
    ;

    fn get_job_id(&self) -> (r: String)
        ensures
            r@ == self.spec_job_id(),
    ;

    fn index(&self) -> (r: i32)
        ensures
            r == self.spec_index(),
    ;

    fn is_forced(&self) -> (r: bool)
        ensures
            r == (self.spec_force() == Some(true)),
    ;

    fn new(url: String, job_id: String, index: i32, force: Option<bool>) -> (r: Self)
        ensures
            r.spec_url() == url@,
            r.spec_job_id() == job_id@,
            r.spec_index() == index,
            r.spec_force() == force,
            is_v4_uuid_text(r.spec_id()),
    ;
}

/// The request that the workers read: its address, its own random identifier, its job,
/// its position in the job and whether to scrape again.
pub struct BasicRedisReq {
    pub url: String,
    pub id: String,
    pub job_id: String,
    pub index: i32,
    pub force: Option<bool>,
}

/// A worker's answer: an error message or a payload, and the position of the request.
pub struct RedisResponse {
    pub error: Option<String>,
    pub payload: Option<String>,
    pub index: i32,
}

impl RedisRequest for BasicRedisReq {
    closed spec fn spec_url(&self) -> Seq<char> {
        self.url@
    }

    closed spec fn spec_id(&self) -> Seq<char> {
        self.id@
    }

    closed spec fn spec_job_id(&self) -> Seq<char> {
        self.job_id@
    }

    closed spec fn spec_index(&self) -> i32 {
        self.index
    }

    closed spec fn spec_force(&self) -> Option<bool> {
        self.force
    }

    fn get_url(&self) -> (r: String)
        ensures
            r@ == self.url@,
    {
        self.url.clone()
    }

    fn get_id(&self) -> (r: String)
        ensures
            r@ == self.id@,
    {
        self.id.clone()
    }

    fn get_job_id(&self) -> (r: String)
        ensures
            r@ == self.job_id@,
    {
        self.job_id.clone()
    }

    fn index(&self) -> (r: i32)
        ensures
            r == self.index,
    {
        self.index
    }

    fn is_forced(&self) -> (r: bool)
        ensures
            r == (self.force == Some(true)),
    {
        match self.force {
            Some(f) => f,
            None => false,
        }
    }

    fn new(url: String, job_id: String, index: i32, force: Option<bool>) -> (r: Self)
        ensures
            r.url@ == url@,
            r.job_id@ == job_id@,
            r.index == index,
            r.force == force,
            is_v4_uuid_text(r.id@),
    {
        let id = new_uuid_text();
        BasicRedisReq { url, id, job_id, index, force }
    }
}

/// What the workers are told of a request is what it answers of itself: its address, its
/// identifier, its job, its position and whether it is forced are its public fields.
pub proof fn law_basic_request_fields(r: BasicRedisReq)
    ensures
        r.spec_url() == r.url@,
        r.spec_id() == r.id@,
        r.spec_job_id() == r.job_id@,
        r.spec_index() == r.index,
        r.spec_force() == r.force,
{
}

} // verus!

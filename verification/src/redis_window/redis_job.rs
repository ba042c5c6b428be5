use vstd::prelude::*;

use crate::redis_communication::{is_v4_uuid_text, new_uuid_text, RedisRequest};

verus! {

/// A job: a run of requests that share one random identifier and are numbered from 1.
pub struct RedisJob {
    id: String,
    idx: i32,
}

impl RedisJob {
    /// The identifier that every request of the job carries.
    pub closed spec fn job_id(&self) -> Seq<char> {
        self.id@
    }

    /// How many requests the job has issued.
    pub closed spec fn issued(&self) -> i32 {
        self.idx
    }

    /// A job with a fresh random identifier that has issued no request.
    pub fn new() -> (j: Self)
        ensures
            is_v4_uuid_text(j.job_id()),
            j.issued() == 0,
    {
        RedisJob { id: new_uuid_text(), idx: 0 }
    }

    /// The next request of the job, for `url`: it carries the job's identifier and the
    /// next number.
    pub fn generate_redis_request<RR: RedisRequest>(&mut self, url: String, force: Option<bool>) -> (r: RR)
        requires
            old(self).issued() < i32::MAX,
        ensures
            final(self).job_id() == old(self).job_id(),
            final(self).issued() == old(self).issued() + 1,
            r.spec_url() == url@,
            r.spec_job_id() == old(self).job_id(),
            r.spec_index() == final(self).issued(),
            r.spec_force() == force,
            is_v4_uuid_text(r.spec_id()),
    {
        self.idx = self.idx + 1;
        RR::new(url, self.id.clone(), self.idx, force)
    }

    /// The job's identifier.
    pub fn get_id(&self) -> (r: String)
        ensures
            r@ == self.job_id(),
    {
        self.id.clone()
    }

    /// How many requests the job has issued; a caller tests it against `i32::MAX`
    /// before asking for the next request.
    pub fn issued_count(&self) -> (r: i32)
        ensures
            r == self.issued(),
    {
        self.idx
    }
}

proof fn lemma_job_run(jobs: Seq<RedisJob>)
    requires
        jobs.len() > 0,
        jobs[0].issued() == 0,
        forall|k: int|
            0 <= k < jobs.len() - 1 ==> (#[trigger] jobs[k + 1]).job_id() == jobs[k].job_id()
                && jobs[k + 1].issued() == jobs[k].issued() + 1,
    ensures
        forall|k: int|
            0 <= k < jobs.len() ==> (#[trigger] jobs[k]).issued() == k && jobs[k].job_id()
                == jobs[0].job_id(),
    decreases jobs.len(),
{
    if jobs.len() > 1 {
        let n = jobs.len() - 1;
        let p = jobs.take(n);
        assert forall|k: int| 0 <= k < p.len() - 1 implies (#[trigger] p[k + 1]).job_id()
            == p[k].job_id() && p[k + 1].issued() == p[k].issued() + 1 by {
            assert(p[k + 1] == jobs[k + 1]);
            assert(p[k] == jobs[k]);
        }
        lemma_job_run(p);
        assert forall|k: int| 0 <= k < jobs.len() implies (#[trigger] jobs[k]).issued() == k
            && jobs[k].job_id() == jobs[0].job_id() by {
            assert(p[0] == jobs[0]);
            if k < n {
                assert(p[k] == jobs[k]);
            } else {
                assert(p[k - 1] == jobs[k - 1]);
                let j = k - 1;
                assert(jobs[j + 1].job_id() == jobs[j].job_id());
            }
        }
    }
}

/// A job keeps the identifier it was made with over any run of requests: `jobs[k]` is
/// the job after `k` requests, so `get_id` gives the same random UUID text every time.
pub proof fn law_job_id_stable(jobs: Seq<RedisJob>)
    requires
        jobs.len() > 0,
        is_v4_uuid_text(jobs[0].job_id()),
        forall|k: int|
            0 <= k < jobs.len() - 1 ==> (#[trigger] jobs[k + 1]).job_id() == jobs[k].job_id(),
    ensures
        forall|k: int|
            0 <= k < jobs.len() ==> (#[trigger] jobs[k]).job_id() == jobs[0].job_id()
                && is_v4_uuid_text(jobs[k].job_id()),
{
    assert forall|k: int| 0 <= k < jobs.len() implies (#[trigger] jobs[k]).job_id()
        == jobs[0].job_id() && is_v4_uuid_text(jobs[k].job_id()) by {
        lemma_job_id_at(jobs, k);
    }
}

proof fn lemma_job_id_at(jobs: Seq<RedisJob>, k: int)
    requires
        0 <= k < jobs.len(),
        forall|j: int|
            0 <= j < jobs.len() - 1 ==> (#[trigger] jobs[j + 1]).job_id() == jobs[j].job_id(),
    ensures
        jobs[k].job_id() == jobs[0].job_id(),
    decreases k,
{
    if k > 0 {
        lemma_job_id_at(jobs, k - 1);
        let j = k - 1;
        assert(jobs[j + 1].job_id() == jobs[j].job_id());
    }
}

/// The requests of a job are numbered 1, 2, 3, ... in the order in which they are made,
/// and all carry the identifier of the job: `jobs[k]` is the job after `k` requests,
/// `nums[k]` the number and `ids[k]` the job identifier of request `k + 1`.
pub proof fn law_job_numbering(jobs: Seq<RedisJob>, nums: Seq<i32>, ids: Seq<Seq<char>>)
    requires
        jobs.len() > 0,
        nums.len() == jobs.len() - 1,
        ids.len() == jobs.len() - 1,
        jobs[0].issued() == 0,
        forall|k: int|
            0 <= k < jobs.len() - 1 ==> {
                &&& (#[trigger] jobs[k + 1]).job_id() == jobs[k].job_id()
                &&& jobs[k + 1].issued() == jobs[k].issued() + 1
                &&& nums[k] == jobs[k + 1].issued()
                &&& ids[k] == jobs[k].job_id()
            },
    ensures
        forall|k: int| 0 <= k < nums.len() ==> #[trigger] nums[k] == k + 1,
        forall|k: int| 0 <= k < ids.len() ==> #[trigger] ids[k] == jobs[0].job_id(),
{
    lemma_job_run(jobs);
    assert forall|k: int| 0 <= k < nums.len() implies #[trigger] nums[k] == k + 1 by {
        assert(jobs[k + 1].issued() == k + 1);
    }
    assert forall|k: int| 0 <= k < ids.len() implies #[trigger] ids[k] == jobs[0].job_id() by {
        assert(jobs[k + 1].job_id() == jobs[k].job_id());
        assert(jobs[k].job_id() == jobs[0].job_id());
    }
}

} // verus!

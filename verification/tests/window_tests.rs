use meta_engine::db_executor::{collect_found_ids, roughs_filters, RoughsPage, TagKind};
use meta_engine::redis_communication::{BasicRedisReq, RedisRequest};
use meta_engine::redis_window::retry::{
    fetch_step, onetime_start, onetime_step, AttemptCounter, FetchAction, FetchOutcome,
    OnetimeAction, OnetimeOutcome, PushAction, PushEvent, PushRetry,
};
use meta_engine::redis_window::{
    id_reader_step, IdReadAction, IdReadOutcome, RedisHandleErr, RedisJob, StreamState,
};

fn is_v4_uuid(s: &str) -> bool {
    let b: Vec<char> = s.chars().collect();
    b.len() == 36
        && b.iter().enumerate().all(|(i, c)| {
            if [8, 13, 18, 23].contains(&i) {
                *c == '-'
            } else {
                c.is_ascii_hexdigit() && !c.is_ascii_uppercase()
            }
        })
        && b[14] == '4'
        && "89ab".contains(b[19])
}

#[test]
fn job_numbers_its_requests() {
    let mut job = RedisJob::new();
    let id = job.get_id();
    assert!(is_v4_uuid(&id));
    for k in 1..=5 {
        let r: BasicRedisReq = job.generate_redis_request(format!("u{k}"), Some(k % 2 == 0));
        assert_eq!(r.index(), k);
        assert_eq!(r.get_job_id(), id);
        assert_eq!(r.get_url(), format!("u{k}"));
        assert_eq!(r.is_forced(), k % 2 == 0);
        assert!(is_v4_uuid(&r.get_id()));
        assert_ne!(r.get_id(), id);
    }
    assert_eq!(job.issued_count(), 5);
}

#[test]
fn basic_request_fields() {
    let r = BasicRedisReq::new("url".into(), "job".into(), 3, None);
    assert_eq!(r.get_url(), "url");
    assert_eq!(r.get_job_id(), "job");
    assert_eq!(r.index(), 3);
    assert!(!r.is_forced());
    let r2 = BasicRedisReq::new("url".into(), "job".into(), 3, Some(false));
    assert!(!r2.is_forced());
    assert_ne!(r.get_id(), r2.get_id());
}

#[test]
fn stream_done_when_all_returned() {
    let mut s = StreamState::new();
    assert!(!s.finished());
    s.inflight_add(1);
    s.inflight_add(1);
    s.store_finished_state(true);
    assert!(!s.finished());
    s.inflight_sub(1);
    assert!(!s.finished());
    s.inflight_sub(1);
    assert!(s.finished());
}

#[test]
fn stream_not_done_before_input_closes() {
    let mut s = StreamState::new();
    s.inflight_add(3);
    s.inflight_sub(3);
    assert!(!s.finished());
    s.store_finished_state(true);
    assert!(s.finished());
    s.store_finished_state(false);
    assert!(!s.finished());
}

#[test]
fn stream_abort_is_final() {
    let mut s = StreamState::new();
    s.inflight_add(4);
    s.abort();
    assert!(s.finished());
    s.inflight_add(1);
    s.store_finished_state(false);
    assert!(s.finished());
}

#[test]
fn stream_counter_wraps() {
    let mut s = StreamState::new();
    s.store_finished_state(true);
    s.inflight_sub(1);
    assert!(!s.finished());
    s.inflight_add(1);
    assert!(s.finished());
}

#[test]
fn attempts_end_at_limit() {
    let mut c = AttemptCounter::from_i32(3);
    let mut n = 0;
    while c.may_attempt() {
        c.record_failure();
        n += 1;
    }
    assert_eq!(n, 3);
    assert!(!AttemptCounter::from_i32(0).may_attempt());
    assert!(!AttemptCounter::from_i32(-5).may_attempt());
    assert!(AttemptCounter::from_usize(1).may_attempt());
}

#[test]
fn result_reader_steps() {
    let mut c = AttemptCounter::from_usize(2);
    assert_eq!(fetch_step(&mut c, FetchOutcome::Got), FetchAction::ForwardAndRead);
    assert_eq!(fetch_step(&mut c, FetchOutcome::Failed { reconnected: true }), FetchAction::Retry);
    assert_eq!(fetch_step(&mut c, FetchOutcome::Failed { reconnected: true }), FetchAction::NextKey);
    let mut c = AttemptCounter::from_usize(2);
    assert_eq!(
        fetch_step(&mut c, FetchOutcome::Failed { reconnected: false }),
        FetchAction::StopNoConnection
    );
}

#[test]
fn single_exchange_steps() {
    assert_eq!(onetime_start(&AttemptCounter::from_usize(0)), Some(RedisHandleErr::OverRetry));
    let mut c = AttemptCounter::from_usize(2);
    assert_eq!(onetime_start(&c), None);
    assert!(matches!(onetime_step(&mut c, OnetimeOutcome::Failed), OnetimeAction::Retry));
    assert!(matches!(
        onetime_step(&mut c, OnetimeOutcome::Failed),
        OnetimeAction::Finish(Err(RedisHandleErr::OverRetry))
    ));
    let mut c = AttemptCounter::from_usize(2);
    assert!(matches!(
        onetime_step(&mut c, OnetimeOutcome::Got("v".into())),
        OnetimeAction::Finish(Ok(v)) if v == "v"
    ));
    let mut c = AttemptCounter::from_usize(2);
    assert!(matches!(
        onetime_step(&mut c, OnetimeOutcome::NoConnection),
        OnetimeAction::Finish(Err(RedisHandleErr::RedisNoneConnection))
    ));
}

#[test]
fn pusher_steps() {
    let (_, a) = PushRetry::start(0);
    assert_eq!(a, PushAction::GiveUp);
    let (mut p, a) = PushRetry::start(1);
    assert_eq!(a, PushAction::Push);
    assert_eq!(p.step(PushEvent::PushFailed), PushAction::Reacquire);
    assert_eq!(p.step(PushEvent::ReacquireFailed), PushAction::Push);
    assert_eq!(p.step(PushEvent::PushFailed), PushAction::Reacquire);
    assert_eq!(p.step(PushEvent::Reacquired), PushAction::Push);
    assert_eq!(p.tempt_count(), 1);
    assert_eq!(p.step(PushEvent::Cancelled), PushAction::Push);
    assert_eq!(p.step(PushEvent::PushFailed), PushAction::Reacquire);
    assert_eq!(p.step(PushEvent::ReacquireFailed), PushAction::GiveUp);
    assert_eq!(p.step(PushEvent::Pushed), PushAction::Succeed);
}

#[test]
fn pages_of_works() {
    let p = RoughsPage::of_request(None, None).expect("default page");
    assert_eq!((p.index, p.size, p.offset, p.limit), (0, 25, 0, 25));
    let p = RoughsPage::of_request(Some(3), Some(10)).expect("page");
    assert_eq!((p.index, p.size, p.offset, p.limit), (3, 10, 30, 10));
    assert!(RoughsPage::of_request(Some(-1), None).is_none());
    assert!(RoughsPage::of_request(Some(0), Some(-1)).is_none());
    assert!(RoughsPage::of_request(Some(i32::MAX), Some(2)).is_none());
    assert!(RoughsPage::of_request(Some(-2), Some(-3)).is_none());
}

#[test]
fn found_tag_ids() {
    assert_eq!(collect_found_ids(None), None);
    assert_eq!(collect_found_ids(Some(vec![])), None);
    assert_eq!(collect_found_ids(Some(vec![None, None])), None);
    assert_eq!(collect_found_ids(Some(vec![Some(4), None, Some(2)])), Some(vec![4, 2]));
}

#[test]
fn add_then_sub_restores_record() {
    let mut s = StreamState::new();
    s.store_finished_state(true);
    s.inflight_add(7);
    assert!(!s.finished());
    s.inflight_sub(7);
    assert!(s.finished());
    s.inflight_add(usize::MAX);
    s.inflight_sub(usize::MAX);
    assert!(s.finished());
}

#[test]
fn id_reader_steps() {
    let mut s = StreamState::new();
    s.inflight_add(2);
    s.store_finished_state(true);
    assert_eq!(id_reader_step(&mut s, IdReadOutcome::Popped), IdReadAction::ForwardId);
    assert!(!s.finished());
    assert_eq!(
        id_reader_step(&mut s, IdReadOutcome::PopFailed { reconnected: true }),
        IdReadAction::ReadAgain
    );
    assert_eq!(
        id_reader_step(&mut s, IdReadOutcome::PopFailed { reconnected: false }),
        IdReadAction::ReportNoConnection
    );
    assert!(!s.finished());
    assert_eq!(id_reader_step(&mut s, IdReadOutcome::Popped), IdReadAction::ForwardId);
    assert!(s.finished());
}

#[test]
fn page_query_filters() {
    let f = roughs_filters(Some(vec![1, 2]), None, Some(vec![3]), None, Some(vec![4]));
    let got: Vec<(TagKind, Vec<i32>)> = f.into_iter().map(|k| (k.kind, k.ids)).collect();
    assert_eq!(
        got,
        vec![(TagKind::Cv, vec![1, 2]), (TagKind::Series, vec![3]), (TagKind::Genre, vec![4])]
    );
    assert!(roughs_filters(None, None, None, None, None).is_empty());
}

#[test]
fn pusher_counts_only_reconnections() {
    let (mut p, _) = PushRetry::start(3);
    for _ in 0..5 {
        assert_eq!(p.step(PushEvent::Cancelled), PushAction::Push);
        assert_eq!(p.step(PushEvent::PushFailed), PushAction::Reacquire);
    }
    assert_eq!(p.tempt_count(), 0);
}

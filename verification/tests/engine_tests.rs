use meta_engine::db_executor::{choose_file_path, head_target, HeadOutcome, TagFinderStruct};
use meta_engine::engine::find_detail::detail_response;
use meta_engine::engine::find_roughs::{roughs_response, FindRoughsQuery};
use meta_engine::engine::handlers::page_url_for;

fn page_urls(base: &str, idx: i32) -> Vec<String> {
    (0..idx.max(0)).map(|k| page_url_for(base, k)).collect()
}
use meta_engine::engine::library::{idx_from_response, payload_value, received_text, response_payload};
use meta_engine::engine::process_meta::{ProgressCounter, ScrapeConvertErr, ScrapeMetaSrc};
use meta_engine::engine::update_tag::{update_response, UpdateConvertErr, UpdateSrc};
use meta_engine::engine::EngineErr;
use meta_engine::redis_communication::RedisResponse;
use meta_engine::redis_window::RedisHandleErr;

#[test]
fn scrape_source_urls() {
    let cases = [
        ("cv", "https://asmr18.fans/cv/someone/"),
        ("circle", "https://asmr18.fans/circle/someone/"),
        ("scenario", "https://asmr18.fans/scenario/someone/"),
        ("illust", "https://asmr18.fans/illust/someone/"),
        ("series", "https://asmr18.fans/series/someone/"),
        ("genre", "https://asmr18.fans/genre/someone/"),
    ];
    for (kind, url) in cases {
        let src = ScrapeMetaSrc::from_str_to_src(kind, "someone").ok().expect("known kind");
        assert_eq!(src.to_url(), url);
    }
}

#[test]
fn scrape_source_rejects_unknown_kind() {
    assert!(matches!(ScrapeMetaSrc::from_str_to_src("music", "x"), Err(ScrapeConvertErr::NotFound)));
    assert!(matches!(ScrapeMetaSrc::from_str_to_src("CV", "x"), Err(ScrapeConvertErr::NotFound)));
    assert!(matches!(ScrapeMetaSrc::from_str_to_src("", "x"), Err(ScrapeConvertErr::NotFound)));
}

#[test]
fn update_source_keywords() {
    assert_eq!("cv".parse::<UpdateSrc>(), Ok(UpdateSrc::CV));
    assert_eq!("circle".parse::<UpdateSrc>(), Ok(UpdateSrc::Circle));
    assert_eq!("scenario".parse::<UpdateSrc>(), Ok(UpdateSrc::Scenario));
    assert_eq!("illust".parse::<UpdateSrc>(), Ok(UpdateSrc::Illust));
    assert_eq!("series".parse::<UpdateSrc>(), Ok(UpdateSrc::Series));
    assert_eq!("genre".parse::<UpdateSrc>(), Ok(UpdateSrc::Genre));
    assert_eq!("music".parse::<UpdateSrc>(), Err(UpdateConvertErr::NotFound));
    assert_eq!(UpdateSrc::from_target("genre"), Ok(UpdateSrc::Genre));
}

#[test]
fn refresh_and_scrape_accept_the_same_keywords() {
    for kind in ["cv", "circle", "scenario", "illust", "series", "genre", "music", "Cv", ""] {
        assert_eq!(
            UpdateSrc::from_target(kind).is_ok(),
            ScrapeMetaSrc::from_str_to_src(kind, "n").is_ok()
        );
    }
}

#[test]
fn page_urls_of_a_listing() {
    let urls = page_urls("https://asmr18.fans/cv/a/", 3);
    assert_eq!(
        urls,
        vec![
            "https://asmr18.fans/cv/a/".to_string(),
            "https://asmr18.fans/cv/a//page/2".to_string(),
            "https://asmr18.fans/cv/a//page/3".to_string(),
        ]
    );
    assert!(page_urls("base", 0).is_empty());
    assert!(page_urls("base", -4).is_empty());
    assert_eq!(page_urls("b", 12)[11], "b/page/12");
}

fn resp(error: Option<&str>, payload: Option<&str>) -> Option<RedisResponse> {
    Some(RedisResponse {
        error: error.map(|s| s.to_string()),
        payload: payload.map(|s| s.to_string()),
        index: 1,
    })
}

#[test]
fn idx_from_answers() {
    assert!(matches!(idx_from_response("r".into(), resp(None, Some("42"))), Ok(42)));
    assert!(matches!(idx_from_response("r".into(), resp(None, Some("+7"))), Ok(7)));
    match idx_from_response("raw".into(), resp(None, Some("4x"))) {
        Err(EngineErr::InvalidReponseErr(s)) => assert_eq!(s, "raw"),
        _ => panic!("expected an invalid answer"),
    }
    match idx_from_response("raw".into(), resp(Some("boom"), Some("1"))) {
        Err(EngineErr::RedisCommunicationErr(s)) => assert_eq!(s, "boom"),
        _ => panic!("expected a communication error"),
    }
    assert!(matches!(idx_from_response("raw".into(), resp(None, None)), Err(EngineErr::ResponseNoneErr)));
    match idx_from_response("garbage".into(), None) {
        Err(EngineErr::InvalidReponseErr(s)) => assert_eq!(s, "garbage"),
        _ => panic!("expected an invalid answer"),
    }
}

#[test]
fn payload_of_answers() {
    assert!(matches!(response_payload("r".into(), resp(None, Some("[\"u\"]"))), Ok(p) if p == "[\"u\"]"));
    match response_payload("r".into(), resp(Some("down"), Some("x"))) {
        Err(EngineErr::RedisServerErr(s)) => assert_eq!(s, "down"),
        _ => panic!("expected a server error"),
    }
    match response_payload("r".into(), resp(None, None)) {
        Err(EngineErr::InvalidReponseErr(s)) => assert_eq!(s, "r"),
        _ => panic!("expected an invalid answer"),
    }
    match response_payload("not json".into(), None) {
        Err(EngineErr::InvalidReponseErr(s)) => assert_eq!(s, "not json"),
        _ => panic!("expected an invalid answer"),
    }
    assert!(matches!(payload_value::<i32>("r".into(), Some(3)), Ok(3)));
    assert!(matches!(payload_value::<i32>("r".into(), None), Err(EngineErr::InvalidReponseErr(_))));
    assert!(matches!(received_text(Ok("t".into())), Ok(t) if t == "t"));
    assert!(matches!(
        received_text(Err(RedisHandleErr::Timeout)),
        Err(EngineErr::RedisHandleErr(RedisHandleErr::Timeout))
    ));
}

#[test]
fn answers_to_clients() {
    let (code, body) = detail_response::<i32, ()>(Ok(Some(5)));
    assert_eq!((code, body.payload, body.error), (200, Some(5), None));
    let (code, body) = detail_response::<i32, ()>(Ok(None));
    assert_eq!((code, body.payload, body.error), (200, None, Some("not found".to_string())));
    let (code, body) = detail_response::<i32, ()>(Err(()));
    assert_eq!((code, body.payload, body.error), (500, None, Some(String::new())));
    let (code, body) = roughs_response::<i32, ()>(Ok(1));
    assert_eq!((code, body.payload, body.error), (200, Some(1), None));
    let (code, body) = roughs_response::<i32, ()>(Err(()));
    assert_eq!((code, body.payload, body.error), (500, None, Some(String::new())));
    let (code, body) = update_response::<i32, ()>(Ok(2));
    assert_eq!((code, body.payload, body.error), (200, Some(2), None));
    let (code, body) = update_response::<i32, ()>(Err(()));
    assert_eq!((code, body.payload, body.error), (400, None, Some(String::new())));
}

#[test]
fn progress_reported_every_tenth() {
    let mut c = ProgressCounter::new();
    let mut reports = Vec::new();
    for _ in 0..35 {
        if let Some(r) = c.record_saved() {
            reports.push(r);
        }
    }
    assert_eq!(reports, vec![10, 20, 30]);
    assert_eq!(c.total(), 35);
}

#[test]
fn file_path_choice() {
    assert_eq!(head_target("rj0123"), "https://cdn3.cloudintech.net/file/RJ0123/RJ0123.m3u8");
    assert_eq!(
        choose_file_path::<()>("rj0123", HeadOutcome::Reached),
        Ok("https://cdn3.cloudintech.net/file/RJ0123/RJ0123.m3u8".to_string())
    );
    assert_eq!(
        choose_file_path::<()>("rj0123", HeadOutcome::ErrorStatus),
        Ok("https://cdn3.cloudintech.net/file1/RJ0123/RJ0123.m3u8".to_string())
    );
    assert_eq!(
        choose_file_path::<()>("Rj9", HeadOutcome::TimedOut),
        Ok("https://cdn3.cloudintech.net/file1/RJ9/RJ9.m3u8".to_string())
    );
    assert_eq!(choose_file_path::<u8>("x", HeadOutcome::Failed(7)), Err(7));
}

#[test]
fn roughs_query_becomes_finder() {
    let q = FindRoughsQuery {
        index: Some(2),
        size: None,
        cvs: Some(vec!["a".to_string()]),
        illusts: None,
        series: None,
        circles: Some(vec![]),
        genres: None,
    };
    let f: TagFinderStruct = q.into();
    assert_eq!(f.index, Some(2));
    assert_eq!(f.size, None);
    assert_eq!(f.cvs, Some(vec!["a".to_string()]));
    assert_eq!(f.circles, Some(vec![]));
    assert_eq!(f.genres, None);
}

#[test]
fn page_urls_are_distinct() {
    let urls = page_urls("https://asmr18.fans/genre/x/", 40);
    for j in 0..urls.len() {
        for k in (j + 1)..urls.len() {
            assert_ne!(urls[j], urls[k]);
        }
    }
}

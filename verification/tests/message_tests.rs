use meta_engine::db_executor::DBExecutorErr;
use meta_engine::engine::process_meta::ScrapeConvertErr;
use meta_engine::engine::EngineErr;
use meta_engine::redis_window::{RedisHandleErr, RedisWindowErr};

#[test]
fn handle_error_texts() {
    assert_eq!(RedisHandleErr::Timeout.message(), "RedisHandleErr Timeout");
    assert_eq!(RedisHandleErr::ConnectionDrop.message(), "RedisHandleErr ConnectionDrop");
    assert_eq!(RedisHandleErr::RedisNoneConnection.message(), "RedisHandleErr RedisNoneConnection");
    assert_eq!(RedisHandleErr::RequestSenderErr.message(), "RedisHandleErr RequestSenderErr");
    assert_eq!(RedisHandleErr::IDSenderErr.message(), "RedisHandleErr IDSenderErr");
    assert_eq!(RedisHandleErr::OverRetry.message(), "RedisHandleErr OverRetry");
}

#[test]
fn engine_error_texts() {
    assert_eq!(EngineErr::ResponseNoneErr.message(), "EngineErr ResponseNoneErr");
    assert_eq!(EngineErr::InvalidReponseErr("raw".into()).message(), "EngineErr InvalidReponseErr");
    assert_eq!(EngineErr::RedisServerErr("down".into()).message(), "EngineErr RedisServerErr down");
    assert_eq!(EngineErr::RedisCommunicationErr("boom".into()).message(), "boom");
    assert_eq!(
        EngineErr::RedisHandleErr(RedisHandleErr::Timeout).message(),
        "RedisHandleErr Timeout"
    );
    assert_eq!(
        EngineErr::ScrapeConvertErr(ScrapeConvertErr::NotFound).message(),
        "EngineErr ScrapeConvertErr Not found"
    );
    assert_eq!(
        EngineErr::RedisWindowErr(RedisWindowErr::RequestLoopOutErr).message(),
        "Request Loop out err"
    );
}

#[test]
fn wrapped_error_texts() {
    let d = sea_orm::DbErr::Custom("no table".into());
    let shown = format!("{}", d);
    let e = DBExecutorErr::DBErr(sea_orm::DbErr::Custom("no table".into()));
    assert_eq!(e.message(), format!("DBErr {}", shown));
    assert_eq!(
        EngineErr::DBExecutorErr(e).message(),
        format!("EngineErr DBExecutorErr DBErr {}", shown)
    );
    let r = redis::RedisError::from((redis::ErrorKind::Io, "gone"));
    let shown = format!("{}", r);
    assert_eq!(RedisWindowErr::RedisErr(r).message(), shown);
    let run: bb8::RunError<redis::RedisError> = bb8::RunError::TimedOut;
    let shown = format!("{}", run);
    assert_eq!(RedisWindowErr::RunErr(run).message(), shown);
}

pub mod err;
pub mod redis_job;
pub mod retry;
pub mod stream;

pub use err::{RedisHandleErr, RedisWindowErr};
pub use redis_job::RedisJob;
pub use stream::{id_reader_step, IdReadAction, IdReadOutcome, StreamState};

pub mod db_executor;
pub mod engine;
pub mod model;
pub mod redis_communication;
pub mod redis_window;
pub mod text;

//! Device-side security agent core: decision caching, session-token
//! handling, the control-channel protocol state machine, and the
//! timeout-bounded remote-call decision logic, all verified.

pub mod cache;
pub mod cache_key;
pub mod commands;
pub mod config;
pub mod context;
pub mod error;
pub mod heartbeat;
pub mod http;
pub mod kv;
pub mod messages;
pub mod policy;
pub mod remote;
pub mod request_flow;
pub mod secrets;
pub mod session;
pub mod token;
pub mod token_wrapper;

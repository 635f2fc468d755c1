//! Core of a translation gateway: the rules that decide how a browser-targeted
//! translation module is hosted, how model artifacts are resolved and placed,
//! and how requests are spread over a pool of engine instances.

pub mod artifacts;
pub mod backend;
pub mod bridge;
pub mod buffer;
pub mod dispatch;
pub mod engine;
pub mod error;
pub mod gateway;
pub mod interop;
pub mod language;
pub mod pool;
pub mod text;

//! A configurable HTTP fault-injection responder: the decisions behind each
//! endpoint (status resolution, random faults, a counter that fails until a
//! threshold, redirects) and the dispatch of request paths onto them.

pub mod status;
pub mod counter;
pub mod fault;
pub mod redirect;
pub mod parse;
pub mod router;

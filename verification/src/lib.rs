//! A deterministic simulation of a request pipeline: a generator feeds a
//! bounded shared queue that two services drain, with backpressure, bounded
//! retries, overload and failure tracking, and a rolling history.

pub mod simulation;
pub mod text;
pub mod scenario;
pub mod app;
pub mod rpc;
pub mod dashboard;
pub mod cli;

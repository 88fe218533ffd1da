//! A resumable, parallel, chunked downloader: the chunk plan, the status
//! aggregation over persisted chunks, and the decisions that drive a download.

pub mod aggregate;
pub mod config;
pub mod coordinator;
pub mod files;
pub mod planner;
pub mod storage;
pub mod text;

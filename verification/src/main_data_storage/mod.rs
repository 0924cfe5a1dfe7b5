pub mod backend;
pub mod geometry;
pub mod mapper;
pub mod meta;
pub mod types;
pub mod storage_core;
pub mod runtime;
pub mod api;
pub mod diff_writer;

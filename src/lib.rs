//! A small traced HTTP service: the reply of its one route, and the plain
//! configuration of its tracing pipeline and listener.
pub mod config;
pub mod handler;

//! A small library for running one SQL query against an embedded database
//! file and materializing the result as column names plus stringified rows.
pub mod digits;
pub mod dispatch;
pub mod engine;
pub mod table;

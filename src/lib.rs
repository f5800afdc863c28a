//! A file copier with two interchangeable copy engines: one issuing blocking
//! reads and writes, one driving an asynchronous submission/completion ring.
//! Both run the same read-then-write protocol, kept here as a verified state
//! machine; the engines hand its requests to the operating system.
pub mod cursor;
pub mod memory;
pub mod engine;
pub mod sizing;
pub mod laws;


//! Bounds the number of file descriptors a process holds open at once.
//!
//! The library discovers the process's descriptor ceiling, derives a safe
//! usable capacity from it, and models a process-wide counting permit pool
//! sized by that capacity. Callers acquire a permit before opening a file
//! and release it when done. On platforms without a descriptor-limit
//! concept, an inert stand-in offers the same vocabulary without ever
//! constraining anyone.

pub mod fallback;
pub mod limits;
pub mod pool;

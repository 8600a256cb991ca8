//! Safe, ownership-checked model of a handle-based ZIP archive engine.
//!
//! The native engine hands out opaque handles for archives, data sources and
//! open entries, reports failures through two-level error records, and takes
//! ownership of a source handle only when a call succeeds.  This crate holds
//! the verified core of a binding to such an engine: the exact rules for how
//! handles are created, transferred, borrowed and released, how flag sets
//! become bit masks, and how raw error codes become structured errors.  The
//! raw calls themselves live outside this crate; every decision about their
//! arguments and their results is made here, under contract.

pub mod archive;
pub mod error;
pub mod file;
pub mod source;

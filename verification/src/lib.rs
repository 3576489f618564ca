//! Resumable chunked transfers of very large objects to and from an object
//! store.
//!
//! The crate holds the decisions of a transfer and proves them: how an object
//! is cut into parts, how often a part is tried, what the durable record of a
//! transfer holds, and which step follows which. It performs no input or
//! output itself. A driver owns the network client and the files, carries out
//! each [`signal::Action`] and reports what came of it as a
//! [`signal::Event`].

pub mod admission;
pub mod arith;
pub mod descriptor;
pub mod engine;
pub mod failure;
pub mod history;
pub mod limits;
pub mod machine;
pub mod part;
pub mod plan;
pub mod report;
pub mod retry;
pub mod signal;
pub mod text;

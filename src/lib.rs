//! Decision logic of a browser-automation run that fills in and submits one
//! job-application form: the selector table, the bounded wait used to find a
//! displayed element, the retry-with-fallback combinator, the two recovery
//! procedures, the connection retry and the top-level workflow.
//!
//! Every operation that touches the browser is described here as an action
//! that the caller performs; its outcome is handed back as a plain value.

pub mod selectors;
pub mod error;
pub mod redundancy;
pub mod locate;
pub mod connect;
pub mod recovery;
pub mod workflow;
pub mod scripts;

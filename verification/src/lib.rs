//! Turning a bursty stream of native "input method changed" events into a
//! clean sequence of state reports.
//!
//! The crate holds the rules only: a single-slot mailbox that coalesces
//! notifications, the worker that settles, queries and reports, and the
//! decisions of the platform adapters and drivers. Everything that talks to
//! an operating system performs the requests these types hand out and feeds
//! the answers back in.

pub mod mailbox;
pub mod worker;
pub mod history;
pub mod probe;
pub mod raw_input;
pub mod driver;
pub mod error;
pub mod locale;
pub mod query;
pub mod adapter;
pub mod variant;
pub mod status_item;
pub mod system;

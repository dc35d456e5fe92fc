//! Pure decision logic behind the command handlers of a desktop application
//! shell: what a greeting says, how a failed filesystem call is reported, which
//! removal a path calls for, and what a directory listing shows.
//!
//! Nothing here touches the filesystem. A host performs the calls and hands the
//! outcomes over as plain values; every function states exactly what it returns.

pub mod failure;
pub mod greeting;
pub mod listing;
pub mod removal;

pub use failure::{failure_message, report, Operation};
pub use greeting::greet;
pub use listing::{list_entries, Probe};
pub use removal::{plan_removal, Removal};

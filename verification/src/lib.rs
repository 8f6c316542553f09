//! Scans directory trees for version-controlled working trees and reports
//! how far each one has drifted from its remote.
//!
//! The library holds the decisions: how a status report is classified, how
//! the bounded walk proceeds, how outcomes fold into one verdict, and what
//! each printed line holds. Reading directories, running the client and
//! printing are left to the caller.

pub mod argparse;
pub mod colors;
pub mod config;
pub mod entry;
pub mod indicators;
pub mod invariants;
pub mod options;
pub mod progress;
pub mod protocol;
pub mod provider;
pub mod render;
pub mod status;
pub mod text;
pub mod walk;

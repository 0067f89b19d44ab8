//! Audits NTFS access control lists for risk.
//!
//! The crate holds the rules of the auditor: how what was read from a security
//! descriptor becomes findings, how findings are ranked and summed up, and how
//! the HTML report and the dry-run PowerShell script are written out. Reading
//! descriptors, walking directories and writing files is left to the caller.

pub mod cli;
pub mod clock;
pub mod errors;
pub mod laws;
pub mod lines;
pub mod order;
pub mod remediation;
pub mod reporter;
pub mod scanner;
pub mod simulator;
pub mod text;

use vstd::prelude::*;

verus! {

/// The version of the auditor.
pub const VERSION: &'static str = "1.2.0";

} // verus!

//! What the library promises, said of all inputs.
//!
//! Each law says what a result must satisfy, or how the results of two calls relate,
//! in terms of the inputs alone.

pub mod texts;
pub mod risk;
pub mod sid;
pub mod acl;
pub mod scan;
pub mod script;
pub mod block;
pub mod whole;
pub mod simulation;
pub mod report;

//! De-identification of medical imaging datasets: pseudonymous identifiers
//! derived deterministically from identifying attributes, a fixed tag policy,
//! and a canonical output naming scheme.

pub mod text;
pub mod policy;
pub mod identifiers;
pub mod naming;
pub mod dataset;
pub mod anonymize;
pub mod laws;

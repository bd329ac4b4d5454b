//! Package search for a software supply-chain gateway.
//!
//! A package query is answered in three steps: the rows that the package
//! index returns are collapsed into one record per package, each record is
//! enriched with the vulnerabilities that the advisory index knows for it,
//! and the records are wrapped for the caller.  This crate holds the rules
//! of those steps; the network calls themselves are left to the caller.

pub mod model;
pub mod dedup;
pub mod enrich;
pub mod endpoint;
pub mod response;
pub mod sbom;
pub mod schema;

//! Catalog acquisition and normalization for a game addon manager.
//!
//! Several independently operated remote catalog sources publish addon
//! metadata in slightly different shapes; this crate normalizes their
//! records into one canonical, strongly typed catalog.  The fallible
//! edges (HTTP transport, JSON field extraction) live outside this
//! library; everything here is pure logic with proved contracts.

pub mod aggregate;
pub mod datetime;
pub mod decode;
pub mod model;
pub mod numeric;

//! Authorization bridge and credential lifecycle store.
//!
//! The bridge drives an OAuth-style authorization flow through an embedded
//! browsing surface: it validates the authorization URL, watches the surface's
//! navigation for a registered callback pattern, extracts the authorization
//! result from the callback URL, and races {callback delivered, surface closed
//! by the user, deadline elapsed} to exactly one terminal outcome.
//!
//! The store persists per-provider token records, stamps each save with the
//! write time, and answers expiry queries with a fixed safety buffer.
//!
//! The host-dependent parts (window creation, the poll loop's sleeping, the
//! durable file write) live outside this crate; everything here is pure logic
//! over plain values.

pub mod api_types;
pub mod bridge;
pub mod channel;
pub mod errors;
pub mod matcher;
pub mod outcome;
pub mod session;
pub mod store;
pub mod strutil;
pub mod voices;

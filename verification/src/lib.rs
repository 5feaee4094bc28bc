//! A "smart link" redirector core: short opaque paths map to records that
//! carry per-platform destinations and social-preview metadata. The library
//! classifies an inbound request (crawler or platform), resolves a stored
//! link record to a concrete action (redirect or preview page), generates
//! collision-resistant short paths, and keeps the link records in a store
//! whose uniqueness guarantees are stated and proved.

use vstd::prelude::*;

pub mod crawler;
pub mod dao;
pub mod link_router;
pub mod management;
pub mod pattern;
pub mod urls;

verus! {

/// The error taxonomy of the library.
///
/// `NotFound` stands for an absent link path or id; `BadLinkConfiguration`
/// for a stored record that cannot be turned into a valid response (an
/// empty redirect target, or a path that does not join with the base URL);
/// `StoreError` for an underlying persistence failure; `ExhaustedPathSpace`
/// for a creation whose bounded retry budget ran out; `Unauthorized` for a
/// missing or mismatched management API key.
#[derive(Clone, Copy, Debug, PartialEq, Eq, Structural)]
pub enum Error {
    NotFound,
    BadLinkConfiguration,
    StoreError,
    ExhaustedPathSpace,
    Unauthorized,
}

} // verus!

//! The creation request as it leaves the transport layer: plain values
//! only. The submitted asset is resolved once, at this boundary, into an
//! explicit tagged source instead of duck-typed "may or may not be on disk"
//! branching.

use crate::hexcolor::HexColor;
use vstd::prelude::*;

verus! {

/// Where the submitted asset's bytes live when the pipeline starts.
#[derive(Debug)]
pub enum AssetSource {
    /// Already addressable as a readable file at this path; used directly.
    AlreadyOnDisk(String),
    /// Staged in memory by the transport; must be persisted to a temporary
    /// file before the upload, and that file cleaned up afterwards.
    InMemory,
}

/// A creation request: a non-empty display name, free-text description, a
/// validated color tag, and the submitted asset.
pub struct Creation {
    pub name: String,
    pub description: String,
    pub color: HexColor,
    pub image: AssetSource,
}

} // verus!

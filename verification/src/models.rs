//! The persisted record. Its creation timestamp is carried as plain Unix
//! seconds so that the pipeline's reasoning does not depend on any store
//! type; the storage layer may convert it to its own date representation.

use vstd::prelude::*;

verus! {

/// A record as the pipeline persists it. The slug is unique across the
/// store and immutable once assigned; `image` is derived deterministically
/// from the configured fetch base and the slug; `likes` starts at zero and
/// is mutated only by collaborators outside this pipeline.
#[derive(Debug)]
pub struct Goose {
    pub name: String,
    pub description: String,
    pub image: String,
    pub color: String,
    pub likes: i64,
    pub slug: String,
    pub timestamp: u64,
}

} // verus!

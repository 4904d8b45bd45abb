//! Pagination and streaming support structures.

use crate::api::bounds::{Cursor, PageSize};
use vstd::prelude::*;

verus! {

/// Pagination parameters for list endpoints.
#[derive(Debug, Clone)]
pub struct Paging {
    /// Maximum number of items to return
    pub page_size: PageSize,
    /// Cursor for resuming pagination
    pub cursor: Cursor,
}

/// A chunk in a streaming response.
#[derive(Debug, Clone)]
pub struct StreamingChunk<T> {
    /// Sequence number for ordering chunks
    pub sequence: u64,
    /// Whether this is the final chunk
    pub is_final: bool,
    /// The chunk data
    pub data: T,
}

} // verus!

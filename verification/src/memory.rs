//! Memory-related helpers shared with SoftEther: string conversion between Rust
//! strings and SoftEther's wide-character buffers.

pub mod strings;

use vstd::prelude::*;

verus! {

/// Marker for SoftEther's allocator (`Malloc`/`Free`), which the application
/// installs as an allocator.
#[derive(Debug)]
pub struct SoftEtherAlloc;

} // verus!

//! Physical and virtual memory: addresses and pages, the early frame
//! allocators, and buffers that are handed to hardware.

use vstd::prelude::*;

pub mod addr;
pub mod dma;
pub mod frame_alloc;
pub mod paging;
mod sealed;
pub mod virt;

verus! {

/// Size of a page and of a frame in bytes.
pub const PAGE_SIZE: usize = 4096;

} // verus!

//! Kernel-side abstractions that the drivers build on: time, pages, I/O
//! memory and DMA memory.

pub mod dma;
pub mod io;
pub mod io_mem;
pub mod page;
pub mod time;

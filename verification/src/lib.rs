//! Core logic of a GPU driver for Apple AGX hardware: address-space
//! management, command submission and the coprocessor transports it relies on.

pub mod aop;
pub mod buffer;
pub mod error;
pub mod file;
pub mod fw;
pub mod gem;
pub mod heap;
pub mod hw;
pub mod initdata;
pub mod kernel;
pub mod microseq;
pub mod mmu;
pub mod place;
pub mod queue;
pub mod sensors;
pub mod sep;
pub mod slotalloc;
pub mod sync;
pub mod util;
pub mod wire;
pub mod workqueue;
pub mod xarray;

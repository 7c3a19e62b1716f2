//! Direct memory access (DMA).

use crate::error::{Error, Result};
use vstd::prelude::*;

verus! {

/// An allocation of memory that a device and the CPU both see the same way.
///
/// The allocation holds `count` items. The device knows it by its DMA
/// handle, the CPU by its address.
pub struct CoherentAllocation<T> {
    dma_handle: u64,
    cpu_addr: usize,
    items: Vec<T>,
}

impl<T: Copy> CoherentAllocation<T> {
    /// The items of the allocation.
    pub closed spec fn view(&self) -> Seq<T> {
        self.items@
    }

    /// The address of the allocation as the device sees it.
    pub closed spec fn spec_dma_handle(&self) -> u64 {
        self.dma_handle
    }

    /// Returns the address of the allocation as the device sees it.
    pub fn dma_handle(&self) -> (r: u64)
        ensures
            r == self.spec_dma_handle(),
    {
        self.dma_handle
    }

    /// The address of the allocation as the CPU sees it.
    pub closed spec fn spec_cpu_addr(&self) -> usize {
        self.cpu_addr
    }

    /// Describes an allocation of `count` items that all hold `fill`.
    pub fn new(cpu_addr: usize, dma_handle: u64, count: usize, fill: T) -> (r: Self)
        ensures
            r@ == Seq::new(count as nat, |i: int| fill),
            r.spec_dma_handle() == dma_handle,
            r.spec_cpu_addr() == cpu_addr,
    {
        let mut items: Vec<T> = Vec::new();
        let mut i: usize = 0;
        while i < count
            invariant
                i <= count,
                items@ == Seq::new(i as nat, |i: int| fill),
            decreases count - i,
        {
            items.push(fill);
            i = i + 1;
            assert(items@ =~= Seq::new(i as nat, |i: int| fill));
        }
        Self { dma_handle, cpu_addr, items }
    }

    /// Reads the item at `index`; `None` when the index is out of bounds.
    pub fn read(&self, index: usize) -> (r: Option<T>)
        ensures
            r == (if index < self@.len() {
                Some(self@[index as int])
            } else {
                None
            }),
    {
        if index >= self.items.len() {
            return None;
        }
        Some(self.items[index])
    }

    /// Stores `value` at `index`. Returns `false`, changing nothing, when
    /// the index is out of bounds.
    pub fn write(&mut self, index: usize, value: &T) -> (r: bool)
        ensures
            r == (index < old(self)@.len()),
            final(self)@ == (if r {
                old(self)@.update(index as int, *value)
            } else {
                old(self)@
            }),
            final(self).spec_dma_handle() == old(self).spec_dma_handle(),
            final(self).spec_cpu_addr() == old(self).spec_cpu_addr(),
    {
        if index >= self.items.len() {
            return false;
        }
        self.items.set(index, *value);
        true
    }

    /// Stores `value` at `index` and returns the item that was there;
    /// `None`, changing nothing, when the index is out of bounds.
    pub fn read_write(&mut self, index: usize, value: T) -> (r: Option<T>)
        ensures
            r == (if index < old(self)@.len() {
                Some(old(self)@[index as int])
            } else {
                None
            }),
            final(self)@ == (if index < old(self)@.len() {
                old(self)@.update(index as int, value)
            } else {
                old(self)@
            }),
            final(self).spec_dma_handle() == old(self).spec_dma_handle(),
            final(self).spec_cpu_addr() == old(self).spec_cpu_addr(),
    {
        if index >= self.items.len() {
            return None;
        }
        let ret = self.items[index];
        self.items.set(index, value);
        Some(ret)
    }

    /// Gives up the allocation and returns its CPU address and its DMA
    /// handle.
    pub fn into_parts(self) -> (r: (usize, u64))
        ensures
            r.0 == self.spec_cpu_addr(),
            r.1 == self.spec_dma_handle(),
    {
        (self.cpu_addr, self.dma_handle)
    }

    /// Returns the number of items of the allocation.
    pub fn count(&self) -> (r: usize)
        ensures
            r == self@.len(),
    {
        self.items.len()
    }
}

/// Computes the size in bytes of an allocation of `count` items of
/// `item_size` bytes each.
///
/// Fails with `ENOMEM` when the size does not fit.
pub fn coherent_size(count: usize, item_size: usize) -> (r: Result<usize>)
    ensures
        r is Ok <==> count * item_size <= usize::MAX,
        r matches Ok(size) ==> size == count * item_size,
        r matches Err(e) ==> e == Error::ENOMEM,
{
    match count.checked_mul(item_size) {
        Some(size) => Ok(size),
        None => Err(Error::ENOMEM),
    }
}

} // verus!

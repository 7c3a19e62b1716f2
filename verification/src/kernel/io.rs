//! Memory-mapped IO.

use crate::error::{Error, Result};
use vstd::prelude::*;

verus! {

/// IO-mapped memory, starting at the base address `addr` and spanning
/// `maxsize` bytes, of which at least `SIZE` are known to exist when the code
/// is written.
///
/// The creator (usually a subsystem or a bus) is responsible for creating the
/// mapping.
pub struct Io<const SIZE: usize> {
    addr: usize,
    maxsize: usize,
}

/// Whether an access of `type_size` bytes at `offset` lies inside a region
/// of `size` bytes and is aligned to its own size.
pub open spec fn spec_offset_valid(offset: int, size: int, type_size: int) -> bool {
    offset + type_size <= usize::MAX && offset + type_size <= size && offset % type_size == 0
}

impl<const SIZE: usize> Io<SIZE> {
    /// The base address of the mapping.
    pub closed spec fn spec_base_addr(&self) -> usize {
        self.addr
    }

    /// The size of the mapping.
    pub closed spec fn spec_maxsize(&self) -> usize {
        self.maxsize
    }

    /// Whether the mapping has the size that its type promises.
    pub open spec fn wf(&self) -> bool {
        self.spec_maxsize() >= SIZE
    }

    /// Describes the mapping of `maxsize` bytes at `addr`.
    ///
    /// Fails with `EINVAL` when the mapping is smaller than `SIZE`.
    pub fn new(addr: usize, maxsize: usize) -> (r: Result<Self>)
        ensures
            r is Ok <==> maxsize >= SIZE,
            r matches Ok(io) ==> io.wf() && io.spec_base_addr() == addr && io.spec_maxsize()
                == maxsize,
            r matches Err(e) ==> e == Error::EINVAL,
    {
        if maxsize < SIZE {
            return Err(Error::EINVAL);
        }
        Ok(Self { addr, maxsize })
    }

    /// Returns the base address of this mapping.
    pub fn base_addr(&self) -> (r: usize)
        ensures
            r == self.spec_base_addr(),
    {
        self.addr
    }

    /// Returns the size of this mapping.
    pub fn maxsize(&self) -> (r: usize)
        ensures
            r == self.spec_maxsize(),
    {
        self.maxsize
    }

    /// Returns whether an access of `type_size` bytes at `offset` is inside
    /// a region of `size` bytes and aligned.
    pub fn offset_valid(offset: usize, size: usize, type_size: usize) -> (r: bool)
        requires
            type_size > 0,
        ensures
            r == spec_offset_valid(offset as int, size as int, type_size as int),
    {
        match offset.checked_add(type_size) {
            Some(end) => end <= size && offset % type_size == 0,
            None => false,
        }
    }

    /// Returns the address of an access of `type_size` bytes at `offset`.
    ///
    /// Fails with `EINVAL` when the access is not inside the mapping, is
    /// not aligned, or its address does not fit.
    pub fn io_addr(&self, offset: usize, type_size: usize) -> (r: Result<usize>)
        requires
            type_size > 0,
        ensures
            r is Ok <==> spec_offset_valid(
                offset as int,
                self.spec_maxsize() as int,
                type_size as int,
            ) && self.spec_base_addr() + offset <= usize::MAX,
            r matches Ok(a) ==> a == self.spec_base_addr() + offset,
            r matches Err(e) ==> e == Error::EINVAL,
    {
        if !Self::offset_valid(offset, self.maxsize(), type_size) {
            return Err(Error::EINVAL);
        }
        match self.base_addr().checked_add(offset) {
            Some(a) => Ok(a),
            None => Err(Error::EINVAL),
        }
    }

    /// Returns the address of an access of `type_size` bytes at an `offset`
    /// that is known to be inside the first `SIZE` bytes.
    pub fn io_addr_assert(&self, offset: usize, type_size: usize) -> (r: usize)
        requires
            type_size > 0,
            spec_offset_valid(offset as int, SIZE as int, type_size as int),
            self.spec_base_addr() + offset <= usize::MAX,
        ensures
            r == self.spec_base_addr() + offset,
    {
        self.base_addr() + offset
    }
}

} // verus!

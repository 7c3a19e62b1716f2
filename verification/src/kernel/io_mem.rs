//! Memory-mapped IO regions described by resources.

use crate::error::{Error, Result};
use vstd::prelude::*;

verus! {

/// The type of `Resource`.
#[derive(Clone, Copy, Debug, PartialEq, Eq, Structural)]
pub enum IoResource {
    /// i/o memory
    Mem,
}

/// Resource flag: the region is memory.
pub const IORESOURCE_MEM: u64 = 0x200;

/// Resource flag: the region has to be mapped non-posted.
pub const IORESOURCE_MEM_NONPOSTED: u64 = 0x20;

impl IoResource {
    /// Returns the resource flag that stands for this type.
    pub fn flags(self) -> (r: u64)
        ensures
            r == IORESOURCE_MEM,
    {
        match self {
            IoResource::Mem => IORESOURCE_MEM,
        }
    }
}

/// Represents a memory resource.
#[derive(Clone, Copy, Debug, PartialEq, Eq, Structural)]
pub struct Resource {
    offset: u64,
    size: u64,
    flags: u64,
}

impl Resource {
    /// The start of the resource.
    pub closed spec fn spec_start(&self) -> u64 {
        self.offset
    }

    /// The size of the resource in bytes.
    pub closed spec fn spec_size(&self) -> u64 {
        self.size
    }

    /// The flags of the resource.
    pub closed spec fn spec_flags(&self) -> u64 {
        self.flags
    }

    /// Describes the resource that spans the addresses `start` to `end`,
    /// both included.
    ///
    /// Returns `None` when `start` is zero, `end` is below `start`, or the
    /// size does not fit.
    pub fn new(start: u64, end: u64, flags: u64) -> (r: Option<Self>)
        ensures
            r is Some <==> start != 0 && start <= end && end - start + 1 <= u64::MAX,
            r matches Some(res) ==> res.spec_start() == start && res.spec_size() == end - start
                + 1 && res.spec_flags() == flags,
    {
        if start == 0 {
            return None;
        }
        let span = match end.checked_sub(start) {
            Some(s) => s,
            None => {
                return None;
            },
        };
        let size = match span.checked_add(1) {
            Some(s) => s,
            None => {
                return None;
            },
        };
        Some(Self { offset: start, size, flags })
    }

    /// Returns the start of this memory resource.
    pub fn start(&self) -> (r: u64)
        ensures
            r == self.spec_start(),
    {
        self.offset
    }

    /// Returns the size of this memory resource.
    pub fn size(&self) -> (r: u64)
        ensures
            r == self.spec_size(),
    {
        self.size
    }
}

/// Whether an access of `size` bytes with alignment `align` at `offset` lies
/// inside a block of `block` bytes.
pub open spec fn spec_offset_ok(offset: int, size: int, align: int, block: int) -> bool {
    offset + size <= usize::MAX && offset + size <= block && offset % align == 0
}

/// How a resource has to be mapped.
#[derive(Clone, Copy, Debug, PartialEq, Eq, Structural)]
pub enum MapKind {
    /// An ordinary device mapping.
    Posted,
    /// A mapping with non-posted writes.
    NonPosted,
}

/// Represents an MMIO memory block of at least `SIZE` bytes.
pub struct IoMem<const SIZE: usize> {
    ptr: usize,
}

impl<const SIZE: usize> IoMem<SIZE> {
    /// The address that the block is mapped at.
    pub closed spec fn spec_ptr(&self) -> usize {
        self.ptr
    }

    /// Decides how to map a resource as a block of at least `SIZE` bytes.
    ///
    /// Fails with `EINVAL` when the resource is smaller than `SIZE`, and
    /// with `EDOM` when its start is not aligned to 8 bytes.
    pub fn check_resource(res: &Resource) -> (r: Result<MapKind>)
        ensures
            res.spec_size() < SIZE ==> r == Err::<MapKind, Error>(Error::EINVAL),
            res.spec_size() >= SIZE && res.spec_start() % 8 != 0 ==> r == Err::<MapKind, Error>(
                Error::EDOM,
            ),
            res.spec_size() >= SIZE && res.spec_start() % 8 == 0 ==> r == Ok::<MapKind, Error>(
                if res.spec_flags() & IORESOURCE_MEM_NONPOSTED != 0 {
                    MapKind::NonPosted
                } else {
                    MapKind::Posted
                },
            ),
    {
        // Check that the resource has at least `SIZE` bytes in it.
        if res.size < SIZE as u64 {
            return Err(Error::EINVAL);
        }
        // To be able to check accesses based only on offsets, the base has
        // to be minimally aligned.
        if res.offset % 8 != 0 {
            return Err(Error::EDOM);
        }
        if res.flags & IORESOURCE_MEM_NONPOSTED != 0 {
            Ok(MapKind::NonPosted)
        } else {
            Ok(MapKind::Posted)
        }
    }

    /// Tries to create a new instance of a memory block from the resource
    /// and the address `addr` that it was mapped at; zero says that the
    /// mapping failed.
    ///
    /// Fails as `check_resource` does, and with `ENOMEM` when the mapping
    /// failed.
    pub fn try_new(res: Resource, addr: usize) -> (r: Result<Self>)
        ensures
            r is Ok <==> res.spec_size() >= SIZE && res.spec_start() % 8 == 0 && addr != 0,
            r matches Ok(m) ==> m.spec_ptr() == addr,
            r matches Err(e) ==> e == (if res.spec_size() < SIZE {
                Error::EINVAL
            } else if res.spec_start() % 8 != 0 {
                Error::EDOM
            } else {
                Error::ENOMEM
            }),
    {
        match Self::check_resource(&res) {
            Ok(_) => {},
            Err(e) => {
                return Err(e);
            },
        }
        if addr == 0 {
            Err(Error::ENOMEM)
        } else {
            Ok(Self { ptr: addr })
        }
    }

    /// Returns whether a naturally aligned access of `type_size` bytes at
    /// `offset` lies inside the block.
    pub fn offset_ok(offset: usize, type_size: usize) -> (r: bool)
        requires
            type_size > 0,
        ensures
            r == spec_offset_ok(offset as int, type_size as int, type_size as int, SIZE as int),
    {
        match offset.checked_add(type_size) {
            Some(end) => end <= SIZE && offset % type_size == 0,
            None => false,
        }
    }

    /// Returns whether an access of `value_size` bytes with alignment
    /// `value_alignment` at `offset` lies inside the block.
    pub fn offset_ok_of_val(offset: usize, value_size: usize, value_alignment: usize) -> (r: bool)
        requires
            value_alignment > 0,
        ensures
            r == spec_offset_ok(
                offset as int,
                value_size as int,
                value_alignment as int,
                SIZE as int,
            ),
    {
        match offset.checked_add(value_size) {
            Some(end) => end <= SIZE && offset % value_alignment == 0,
            None => false,
        }
    }

    /// Returns the address of a naturally aligned access of `type_size`
    /// bytes at an `offset` that is known to lie inside the block. The
    /// address wraps around like the pointer arithmetic it stands for.
    pub fn check_offset(&self, offset: usize, type_size: usize) -> (r: usize)
        requires
            type_size > 0,
            spec_offset_ok(offset as int, type_size as int, type_size as int, SIZE as int),
        ensures
            r == self.spec_ptr().wrapping_add(offset),
    {
        self.ptr.wrapping_add(offset)
    }
}

/// Represents a non-MMIO memory block. This is like `IoMem`, but for cases
/// where it is known that the resource being mapped does not have I/O side
/// effects.
pub struct Mem {
    ptr: usize,
    size: usize,
}

impl Mem {
    /// The address that the block is mapped at.
    pub closed spec fn spec_ptr(&self) -> usize {
        self.ptr
    }

    /// The size of the block in bytes.
    pub closed spec fn spec_size(&self) -> usize {
        self.size
    }

    /// Tries to create a new instance of a memory block from a resource and
    /// the address `addr` that it was mapped at; zero says that the mapping
    /// failed.
    ///
    /// Fails with `EINVAL` when the size of the resource does not fit the
    /// address space, and with `ENOMEM` when the mapping failed.
    pub fn try_new(res: Resource, addr: usize) -> (r: Result<Self>)
        ensures
            r is Ok <==> res.spec_size() <= usize::MAX && addr != 0,
            r matches Ok(m) ==> m.spec_ptr() == addr && m.spec_size() == res.spec_size(),
            r matches Err(e) ==> e == (if res.spec_size() > usize::MAX {
                Error::EINVAL
            } else {
                Error::ENOMEM
            }),
    {
        if res.size > usize::MAX as u64 {
            return Err(Error::EINVAL);
        }
        let size: usize = res.size as usize;
        if addr == 0 {
            return Err(Error::ENOMEM);
        }
        Ok(Self { ptr: addr, size })
    }

    /// Returns the base address of the memory mapping.
    pub fn ptr(&self) -> (r: usize)
        ensures
            r == self.spec_ptr(),
    {
        self.ptr
    }

    /// Returns the size of this mapped memory block.
    pub fn size(&self) -> (r: usize)
        ensures
            r == self.spec_size(),
    {
        self.size
    }
}

} // verus!

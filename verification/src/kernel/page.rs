//! Kernel page allocation and management.

use crate::error::{Error, Result};
use crate::util::spec_align;
use vstd::prelude::*;

verus! {

/// A bitwise shift for the page size.
pub const PAGE_SHIFT: usize = 14;

/// The number of bytes in a page.
pub const PAGE_SIZE: usize = 0x4000;

/// Round up the given number to the next multiple of `PAGE_SIZE`.
///
/// It is incorrect to pass an address where the next multiple of
/// `PAGE_SIZE` doesn't fit in a `usize`.
pub fn page_align(addr: usize) -> (r: usize)
    requires
        addr + PAGE_SIZE - 1 <= usize::MAX,
    ensures
        r == spec_align(addr as int, PAGE_SIZE as int),
        r % PAGE_SIZE == 0,
        addr <= r < addr + PAGE_SIZE,
{
    proof {
        crate::util::lemma_align_bounds(addr as int, PAGE_SIZE as int);
    }
    ((addr + (PAGE_SIZE - 1)) / PAGE_SIZE) * PAGE_SIZE
}

/// A page of memory.
pub struct Page {
    data: Vec<u8>,
}

/// Whether `len` bytes at `off` lie inside a page.
pub open spec fn page_bounds_ok(off: int, len: int) -> bool {
    0 <= off && 0 <= len && off + len <= PAGE_SIZE
}

impl Page {
    /// The bytes of the page.
    pub closed spec fn view(&self) -> Seq<u8> {
        self.data@
    }

    /// Whether the page has its size.
    pub closed spec fn wf(&self) -> bool {
        self.data@.len() == PAGE_SIZE
    }

    /// Allocates a page filled with zero bytes.
    pub fn alloc_page() -> (r: Self)
        ensures
            r.wf(),
            r@ == Seq::new(PAGE_SIZE as nat, |i: int| 0u8),
    {
        let mut data: Vec<u8> = Vec::new();
        let mut i: usize = 0;
        while i < PAGE_SIZE
            invariant
                i <= PAGE_SIZE,
                data@ == Seq::new(i as nat, |i: int| 0u8),
            decreases PAGE_SIZE - i,
        {
            data.push(0);
            i = i + 1;
            assert(data@ =~= Seq::new(i as nat, |i: int| 0u8));
        }
        Page { data }
    }

    /// Copies `len` bytes at `offset` out of the page.
    ///
    /// Fails with `EINVAL` when the range does not lie inside the page.
    pub fn read_raw(&self, offset: usize, len: usize) -> (r: Result<Vec<u8>>)
        requires
            self.wf(),
        ensures
            r is Ok <==> page_bounds_ok(offset as int, len as int),
            r matches Ok(v) ==> v@ == self@.subrange(offset as int, offset + len),
            r matches Err(e) ==> e == Error::EINVAL,
    {
        let bounds_ok = offset <= PAGE_SIZE && len <= PAGE_SIZE && (offset + len) <= PAGE_SIZE;
        if bounds_ok {
            Ok(crate::wire::read_bytes(self.data.as_slice(), offset, len))
        } else {
            Err(Error::EINVAL)
        }
    }

    /// Copies `src` into the page at `offset`.
    ///
    /// Fails with `EINVAL`, leaving the page as it was, when the range does
    /// not lie inside the page.
    pub fn write_raw(&mut self, src: &[u8], offset: usize) -> (r: Result<()>)
        requires
            old(self).wf(),
        ensures
            final(self).wf(),
            r is Ok <==> page_bounds_ok(offset as int, src@.len() as int),
            r is Ok ==> final(self)@ == crate::wire::spec_overwrite(
                old(self)@,
                offset as int,
                src@,
            ),
            r matches Err(e) ==> e == Error::EINVAL && final(self)@ == old(self)@,
    {
        let len: usize = src.len();
        let bounds_ok = offset <= PAGE_SIZE && len <= PAGE_SIZE && (offset + len) <= PAGE_SIZE;
        if bounds_ok {
            crate::wire::write_bytes(&mut self.data, offset, src);
            Ok(())
        } else {
            Err(Error::EINVAL)
        }
    }

    /// Fills `len` bytes at `offset` with zero.
    ///
    /// Fails with `EINVAL`, leaving the page as it was, when the range does
    /// not lie inside the page.
    pub fn fill_zero_raw(&mut self, offset: usize, len: usize) -> (r: Result<()>)
        requires
            old(self).wf(),
        ensures
            final(self).wf(),
            r is Ok <==> page_bounds_ok(offset as int, len as int),
            r is Ok ==> final(self)@ == crate::wire::spec_overwrite(
                old(self)@,
                offset as int,
                Seq::new(len as nat, |i: int| 0u8),
            ),
            r matches Err(e) ==> e == Error::EINVAL && final(self)@ == old(self)@,
    {
        let bounds_ok = offset <= PAGE_SIZE && len <= PAGE_SIZE && (offset + len) <= PAGE_SIZE;
        if !bounds_ok {
            return Err(Error::EINVAL);
        }
        let mut i: usize = 0;
        while i < len
            invariant
                i <= len,
                offset + len <= PAGE_SIZE,
                self.data@.len() == PAGE_SIZE,
                self.data@ == crate::wire::spec_overwrite(
                    old(self)@,
                    offset as int,
                    Seq::new(i as nat, |i: int| 0u8),
                ),
            decreases len - i,
        {
            self.data.set(offset + i, 0);
            i = i + 1;
            assert(self.data@ =~= crate::wire::spec_overwrite(
                old(self)@,
                offset as int,
                Seq::new(i as nat, |i: int| 0u8),
            ));
        }
        Ok(())
    }
}

} // verus!

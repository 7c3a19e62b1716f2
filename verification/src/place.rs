//! Construction of large structures in place.
//!
//! The firmware configuration structures are too large to be built on a
//! kernel stack and copied. A `Placer` takes the memory block that a
//! structure will live in and initializes it field by field: every field
//! value is written straight to the address of its field. Nested structures
//! are initialized in place in the same way, inside the bytes of the field
//! that holds them. A structure may be opened with a default tail, which
//! zero-fills all of it before the fields that are named are written.
//!
//! Callers must not build the aggregate elsewhere and copy it in.

use crate::error::{Error, Result};
use crate::wire::{spec_overwrite, write_bytes};
use vstd::prelude::*;

verus! {

/// `len` zero bytes.
pub open spec fn spec_zeros(len: nat) -> Seq<u8> {
    Seq::new(len, |i: int| 0u8)
}

/// Initializes a memory block field by field.
pub struct Placer {
    mem: Vec<u8>,
    bases: Vec<usize>,
    sizes: Vec<usize>,
}

impl Placer {
    /// The bytes of the block.
    pub closed spec fn spec_mem(&self) -> Seq<u8> {
        self.mem@
    }

    /// Number of structures that are open.
    pub closed spec fn spec_depth(&self) -> nat {
        self.bases@.len()
    }

    /// Offset in the block of the innermost open structure; zero when none
    /// is open.
    pub closed spec fn spec_base(&self) -> int {
        if self.bases@.len() == 0 {
            0
        } else {
            self.bases@.last() as int
        }
    }

    /// Size of the innermost open structure; the size of the block when
    /// none is open.
    pub closed spec fn spec_size(&self) -> int {
        if self.sizes@.len() == 0 {
            self.mem@.len() as int
        } else {
            self.sizes@.last() as int
        }
    }

    /// Offset in the block of the structure that encloses the innermost open
    /// one.
    pub closed spec fn spec_outer_base(&self) -> int {
        if self.bases@.len() <= 1 {
            0
        } else {
            self.bases@[self.bases@.len() - 2] as int
        }
    }

    /// Size of the structure that encloses the innermost open one.
    pub closed spec fn spec_outer_size(&self) -> int {
        if self.sizes@.len() <= 1 {
            self.mem@.len() as int
        } else {
            self.sizes@[self.sizes@.len() - 2] as int
        }
    }

    /// Whether every open structure lies inside the block.
    pub closed spec fn wf(&self) -> bool {
        &&& self.bases@.len() == self.sizes@.len()
        &&& forall|i: int|
            0 <= i < self.bases@.len() ==> #[trigger] self.bases@[i] + self.sizes@[i]
                <= self.mem@.len()
    }

    /// An open structure lies inside the block.
    pub proof fn lemma_inside(&self)
        requires
            self.wf(),
        ensures
            0 <= self.spec_base(),
            0 <= self.spec_size(),
            self.spec_base() + self.spec_size() <= self.spec_mem().len(),
    {
        if self.bases@.len() > 0 {
            let i = self.bases@.len() - 1;
            assert(self.bases@[i] + self.sizes@[i] <= self.mem@.len());
        }
    }

    /// Takes the block to initialize. Its contents stand for uninitialized
    /// memory.
    pub fn new(mem: Vec<u8>) -> (r: Self)
        ensures
            r.wf(),
            r.spec_mem() == mem@,
            r.spec_depth() == 0,
            r.spec_base() == 0,
            r.spec_size() == mem@.len(),
    {
        Placer { mem, bases: Vec::new(), sizes: Vec::new() }
    }

    /// Opens the structure of `size` bytes that is the field at `offset` of
    /// the innermost open structure. At the top level the block itself is
    /// the enclosing structure. With `default_tail` the whole structure is
    /// zero-filled first.
    ///
    /// Fails with `EINVAL`, changing nothing, when the structure does not
    /// lie inside the enclosing one.
    pub fn begin_struct(&mut self, offset: usize, size: usize, default_tail: bool) -> (r: Result<
        (),
    >)
        requires
            old(self).wf(),
        ensures
            final(self).wf(),
            r is Ok <==> offset + size <= old(self).spec_size(),
            r is Ok ==> {
                &&& final(self).spec_depth() == old(self).spec_depth() + 1
                &&& final(self).spec_base() == old(self).spec_base() + offset
                &&& final(self).spec_size() == size
                &&& final(self).spec_outer_base() == old(self).spec_base()
                &&& final(self).spec_outer_size() == old(self).spec_size()
                &&& final(self).spec_mem() == (if default_tail {
                    spec_overwrite(
                        old(self).spec_mem(),
                        old(self).spec_base() + offset,
                        spec_zeros(size as nat),
                    )
                } else {
                    old(self).spec_mem()
                })
            },
            r matches Err(e) ==> e == Error::EINVAL && *final(self) == *old(self),
    {
        proof {
            self.lemma_inside();
        }
        let depth: usize = self.bases.len();
        let total: usize = self.mem.len();
        let (cur_base, cur_size): (usize, usize) = if depth == 0 {
            (0, total)
        } else {
            (self.bases[depth - 1], self.sizes[depth - 1])
        };
        if offset > cur_size || size > cur_size - offset {
            return Err(Error::EINVAL);
        }
        let base: usize = cur_base + offset;
        if default_tail {
            let mut i: usize = 0;
            while i < size
                invariant
                    i <= size,
                    base + size <= total,
                    self.mem@.len() == total,
                    self.bases == old(self).bases,
                    self.sizes == old(self).sizes,
                    self.mem@ == spec_overwrite(old(self).mem@, base as int, spec_zeros(i as nat)),
                decreases size - i,
            {
                self.mem.set(base + i, 0);
                i = i + 1;
                assert(self.mem@ =~= spec_overwrite(
                    old(self).mem@,
                    base as int,
                    spec_zeros(i as nat),
                ));
            }
        }
        self.bases.push(base);
        self.sizes.push(size);
        Ok(())
    }

    /// Writes the value `bytes` of the scalar field at `offset` of the
    /// innermost open structure.
    ///
    /// Fails with `EINVAL`, changing nothing, when the field does not lie
    /// inside the structure.
    pub fn scalar(&mut self, offset: usize, bytes: &[u8]) -> (r: Result<()>)
        requires
            old(self).wf(),
        ensures
            final(self).wf(),
            r is Ok <==> offset + bytes@.len() <= old(self).spec_size(),
            r is Ok ==> {
                &&& final(self).spec_depth() == old(self).spec_depth()
                &&& final(self).spec_base() == old(self).spec_base()
                &&& final(self).spec_size() == old(self).spec_size()
                &&& final(self).spec_outer_base() == old(self).spec_outer_base()
                &&& final(self).spec_outer_size() == old(self).spec_outer_size()
                &&& final(self).spec_mem() == spec_overwrite(
                    old(self).spec_mem(),
                    old(self).spec_base() + offset,
                    bytes@,
                )
            },
            r matches Err(e) ==> e == Error::EINVAL && *final(self) == *old(self),
    {
        proof {
            self.lemma_inside();
        }
        let depth: usize = self.bases.len();
        let total: usize = self.mem.len();
        let (cur_base, cur_size): (usize, usize) = if depth == 0 {
            (0, total)
        } else {
            (self.bases[depth - 1], self.sizes[depth - 1])
        };
        if offset > cur_size || bytes.len() > cur_size - offset {
            return Err(Error::EINVAL);
        }
        write_bytes(&mut self.mem, cur_base + offset, bytes);
        Ok(())
    }

    /// Closes the innermost open structure.
    ///
    /// Fails with `EINVAL`, changing nothing, when no structure is open.
    pub fn end_struct(&mut self) -> (r: Result<()>)
        requires
            old(self).wf(),
        ensures
            final(self).wf(),
            r is Ok <==> old(self).spec_depth() > 0,
            r is Ok ==> {
                &&& final(self).spec_depth() == old(self).spec_depth() - 1
                &&& final(self).spec_base() == old(self).spec_outer_base()
                &&& final(self).spec_size() == old(self).spec_outer_size()
                &&& final(self).spec_mem() == old(self).spec_mem()
            },
            r matches Err(e) ==> e == Error::EINVAL && *final(self) == *old(self),
    {
        if self.bases.len() == 0 {
            return Err(Error::EINVAL);
        }
        self.bases.pop();
        self.sizes.pop();
        Ok(())
    }

    /// Hands out the initialized block.
    ///
    /// Fails with `EINVAL` when a structure is still open.
    pub fn finish(self) -> (r: Result<Vec<u8>>)
        requires
            self.wf(),
        ensures
            r is Ok <==> self.spec_depth() == 0,
            r matches Ok(mem) ==> mem@ == self.spec_mem(),
            r matches Err(e) ==> e == Error::EINVAL,
    {
        if self.bases.len() != 0 {
            return Err(Error::EINVAL);
        }
        Ok(self.mem)
    }
}

/// Writes a scalar value to the start of a block, as one would initialize a
/// block that holds nothing but the scalar.
pub fn place_scalar(mem: Vec<u8>, bytes: &[u8]) -> (r: Result<Vec<u8>>)
    ensures
        r is Ok <==> bytes@.len() <= mem@.len(),
        r matches Ok(m) ==> m@ == spec_overwrite(mem@, 0, bytes@),
        r matches Err(e) ==> e == Error::EINVAL,
{
    let mut placer = Placer::new(mem);
    match placer.scalar(0, bytes) {
        Ok(()) => {},
        Err(e) => {
            return Err(e);
        },
    }
    placer.finish()
}

} // verus!

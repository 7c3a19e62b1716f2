//! The page table of one address space.
//!
//! The table records, for each mapped page, the physical address and the
//! protection that the page was mapped with. Like the hardware walker's
//! tables it is made of leaf tables of `UAT_NPTE` entries, and one call maps
//! or unmaps pages of one leaf table only: callers loop until their whole
//! range is done.

use crate::error::{Error, Result};
use crate::mmu::{PROT_READ, PROT_WRITE, UAT_NPTE, UAT_PGSZ};
use std::collections::HashMap;
use vstd::prelude::*;

verus! {

broadcast use vstd::std_specs::hash::group_hash_axioms;

/// Largest number of address bits that a table translates.
pub const MAX_ADDRESS_BITS: usize = 48;

/// One translation: where a page goes and how it may be accessed.
#[derive(Clone, Copy, Debug, PartialEq, Eq, Structural)]
pub struct Pte {
    pub paddr: u64,
    pub prot: u32,
}

/// Configuration of a page table.
#[derive(Clone, Copy, Debug, PartialEq, Eq, Structural)]
pub struct Config {
    /// Page sizes that the table supports, as a mask.
    pub pgsize_bitmap: u64,
    /// Number of input address bits.
    pub ias: usize,
    /// Number of output address bits.
    pub oas: usize,
    /// Whether the walker snoops the CPU caches.
    pub coherent_walk: bool,
    pub quirks: u64,
}

/// Whether `iova` lies in the first `n` pages from `start`.
pub open spec fn in_pages(iova: u64, start: u64, n: int) -> bool {
    start <= iova < start + n * UAT_PGSZ
}

/// The table `m` with `n` more pages from `iova` on, mapped to the physical
/// pages from `paddr` on.
pub open spec fn spec_map(m: Map<u64, Pte>, iova: u64, paddr: u64, n: int, prot: u32) -> Map<
    u64,
    Pte,
> {
    Map::new(
        |k: u64| m.contains_key(k) || (in_pages(k, iova, n) && (k - iova) % (UAT_PGSZ as int) == 0),
        |k: u64|
            if in_pages(k, iova, n) && (k - iova) % (UAT_PGSZ as int) == 0 {
                Pte { paddr: (paddr + (k - iova)) as u64, prot }
            } else {
                m[k]
            },
    )
}

/// The table `m` without the `n` pages from `iova` on.
pub open spec fn spec_unmap(m: Map<u64, Pte>, iova: u64, n: int) -> Map<u64, Pte> {
    Map::new(|k: u64| m.contains_key(k) && !in_pages(k, iova, n), |k: u64| m[k])
}

/// Whether none of the `n` pages from `iova` on is mapped.
pub open spec fn pages_free(m: Map<u64, Pte>, iova: u64, n: int) -> bool {
    forall|k: u64| in_pages(k, iova, n) ==> !#[trigger] m.contains_key(k)
}

/// The number of consecutive mapped pages from `iova` on, up to `limit`.
pub open spec fn spec_run(m: Map<u64, Pte>, iova: u64, limit: int) -> int
    decreases limit,
{
    if limit <= 0 || !m.contains_key(iova) || iova + UAT_PGSZ > u64::MAX {
        0
    } else {
        1 + spec_run(m, (iova + UAT_PGSZ) as u64, limit - 1)
    }
}

/// A run of mapped pages is no longer than its limit.
pub proof fn lemma_run_bound(m: Map<u64, Pte>, iova: u64, limit: int)
    ensures
        0 <= spec_run(m, iova, limit),
        spec_run(m, iova, limit) <= limit || limit < 0,
    decreases limit,
{
    if !(limit <= 0 || !m.contains_key(iova) || iova + UAT_PGSZ > u64::MAX) {
        lemma_run_bound(m, (iova + UAT_PGSZ) as u64, limit - 1);
    }
}

/// The number of pages among the `n` pages from `iova` on that are not
/// mapped.
pub open spec fn spec_holes(m: Map<u64, Pte>, iova: u64, n: int) -> int
    decreases n,
{
    if n <= 0 {
        0
    } else {
        (if m.contains_key(iova) {
            0int
        } else {
            1int
        }) + spec_holes(m, (iova + UAT_PGSZ) as u64, n - 1)
    }
}

/// The pages of a run of mapped pages are not holes: they do not count.
pub proof fn lemma_holes_skip_run(m: Map<u64, Pte>, iova: u64, limit: int, n: int)
    requires
        0 <= limit <= n,
        iova + n * UAT_PGSZ <= u64::MAX,
    ensures
        0 <= spec_run(m, iova, limit) <= limit,
        spec_holes(m, iova, n) == spec_holes(
            m,
            (iova + spec_run(m, iova, limit) * UAT_PGSZ) as u64,
            n - spec_run(m, iova, limit),
        ),
    decreases limit,
{
    if !(limit <= 0 || !m.contains_key(iova) || iova + UAT_PGSZ > u64::MAX) {
        lemma_holes_skip_run(m, (iova + UAT_PGSZ) as u64, limit - 1, n - 1);
    }
}

/// The number of holes depends on the pages of the range only.
pub proof fn lemma_holes_same(m1: Map<u64, Pte>, m2: Map<u64, Pte>, iova: u64, n: int)
    requires
        iova + n * UAT_PGSZ <= u64::MAX,
        forall|k: u64| in_pages(k, iova, n) ==> m1.contains_key(k) == m2.contains_key(k),
    ensures
        spec_holes(m1, iova, n) == spec_holes(m2, iova, n),
        0 <= spec_holes(m1, iova, n),
        spec_holes(m1, iova, n) <= n || n < 0,
    decreases n,
{
    if n > 0 {
        assert(in_pages(iova, iova, n));
        assert forall|k: u64| in_pages(k, (iova + UAT_PGSZ) as u64, n - 1) implies m1.contains_key(
            k,
        ) == m2.contains_key(k) by {
            assert(in_pages(k, iova, n));
        }
        lemma_holes_same(m1, m2, (iova + UAT_PGSZ) as u64, n - 1);
    }
}

/// The number of pages that one call handles of `pgcount` pages from
/// `iova` on: those that lie in the leaf table of the first page.
pub open spec fn spec_chunk(iova: u64, pgcount: int) -> int {
    let room = UAT_NPTE - (iova / UAT_PGSZ) % (UAT_NPTE as u64);
    if pgcount < room {
        pgcount
    } else {
        room
    }
}

/// Whether a request to map pages is well-formed for a table with the given
/// configuration.
pub open spec fn map_request_valid(
    cfg: Config,
    iova: u64,
    paddr: u64,
    pgsize: u64,
    pgcount: u64,
    prot: u32,
) -> bool {
    &&& pgsize == UAT_PGSZ
    &&& pgcount > 0
    &&& iova % UAT_PGSZ == 0
    &&& paddr % UAT_PGSZ == 0
    &&& prot & (PROT_READ | PROT_WRITE) != 0
    &&& iova + pgcount * UAT_PGSZ <= vstd::arithmetic::power2::pow2(cfg.ias as nat)
    &&& paddr + pgcount * UAT_PGSZ <= vstd::arithmetic::power2::pow2(cfg.oas as nat)
}

/// The page table of one address space.
pub struct PageTable {
    entries: HashMap<u64, Pte>,
    cfg: Config,
    ttbr: u64,
}

/// Returns the first address that `bits` address bits cannot express, for
/// at most `MAX_ADDRESS_BITS` bits.
pub fn address_limit(bits: usize) -> (r: u64)
    requires
        bits <= MAX_ADDRESS_BITS,
    ensures
        r == vstd::arithmetic::power2::pow2(bits as nat),
        r <= 0x1_0000_0000_0000,
{
    let mut r: u64 = 1;
    let mut i: usize = 0;
    proof {
        vstd::arithmetic::power2::lemma2_to64();
        vstd::arithmetic::power2::lemma2_to64_rest();
    }
    while i < bits
        invariant
            i <= bits,
            bits <= MAX_ADDRESS_BITS,
            r == vstd::arithmetic::power2::pow2(i as nat),
            r <= vstd::arithmetic::power2::pow2(48),
            vstd::arithmetic::power2::pow2(48) == 0x1_0000_0000_0000,
        decreases bits - i,
    {
        proof {
            vstd::arithmetic::power2::lemma_pow2_unfold((i + 1) as nat);
            if i + 1 < 48 {
                vstd::arithmetic::power2::lemma_pow2_strictly_increases((i + 1) as nat, 48);
            }
            assert(2 * vstd::arithmetic::power2::pow2(i as nat) <= vstd::arithmetic::power2::pow2(
                48,
            ));
        }
        r = r * 2;
        i = i + 1;
    }
    r
}

/// Checks a request to map pages.
fn check_map_request(cfg: &Config, iova: u64, paddr: u64, pgsize: u64, pgcount: u64, prot: u32)
    -> (r: bool)
    requires
        cfg.ias <= MAX_ADDRESS_BITS,
        cfg.oas <= MAX_ADDRESS_BITS,
    ensures
        r == map_request_valid(*cfg, iova, paddr, pgsize, pgcount, prot),
{
    if pgsize != UAT_PGSZ || pgcount == 0 || iova % UAT_PGSZ != 0 || paddr % UAT_PGSZ != 0 || prot
        & (PROT_READ | PROT_WRITE) == 0 {
        return false;
    }
    let in_limit: u64 = address_limit(cfg.ias);
    let out_limit: u64 = address_limit(cfg.oas);
    if iova > in_limit || paddr > out_limit {
        return false;
    }
    let in_room: u64 = (in_limit - iova) / UAT_PGSZ;
    let out_room: u64 = (out_limit - paddr) / UAT_PGSZ;
    pgcount <= in_room && pgcount <= out_room
}

impl PageTable {
    /// The translations of the table, by page address.
    pub closed spec fn view(&self) -> Map<u64, Pte> {
        self.entries@
    }

    /// The configuration of the table.
    pub closed spec fn spec_cfg(&self) -> Config {
        self.cfg
    }

    /// The physical address of the root of the table.
    pub closed spec fn spec_ttbr(&self) -> u64 {
        self.ttbr
    }

    /// Whether every mapped address is the address of a page.
    pub open spec fn keys_aligned(&self) -> bool {
        forall|k: u64| #[trigger] self@.contains_key(k) ==> k % UAT_PGSZ == 0
    }

    /// Whether the configuration is one that the table supports and the
    /// table maps whole pages.
    pub open spec fn wf(&self) -> bool {
        &&& self.keys_aligned()
        &&& self.spec_cfg().ias <= MAX_ADDRESS_BITS
        &&& self.spec_cfg().oas <= MAX_ADDRESS_BITS
        &&& self.spec_cfg().pgsize_bitmap == UAT_PGSZ
    }

    /// Creates an empty table whose root lies at the physical address
    /// `ttbr`.
    ///
    /// Fails with `EINVAL` when the configuration asks for other page sizes
    /// than the UAT's or for more than `MAX_ADDRESS_BITS` address bits.
    pub fn new(cfg: Config, ttbr: u64) -> (r: Result<Self>)
        ensures
            r is Ok <==> cfg.pgsize_bitmap == UAT_PGSZ && cfg.ias <= MAX_ADDRESS_BITS && cfg.oas
                <= MAX_ADDRESS_BITS,
            r matches Ok(t) ==> t.wf() && t@ == Map::<u64, Pte>::empty() && t.spec_cfg() == cfg
                && t.spec_ttbr() == ttbr,
            r matches Err(e) ==> e == Error::EINVAL,
    {
        if cfg.pgsize_bitmap != UAT_PGSZ || cfg.ias > MAX_ADDRESS_BITS || cfg.oas
            > MAX_ADDRESS_BITS {
            return Err(Error::EINVAL);
        }
        Ok(PageTable { entries: HashMap::new(), cfg, ttbr })
    }

    /// Returns the configuration of the table.
    pub fn cfg(&self) -> (r: Config)
        ensures
            r == self.spec_cfg(),
    {
        self.cfg
    }

    /// Returns the physical address of the root of the table.
    pub fn ttbr(&self) -> (r: u64)
        ensures
            r == self.spec_ttbr(),
    {
        self.ttbr
    }

    /// Returns the translation of the page at `iova`, if it is mapped.
    pub fn lookup(&self, iova: u64) -> (r: Option<Pte>)
        ensures
            r == (if self@.contains_key(iova) {
                Some(self@[iova])
            } else {
                None
            }),
    {
        match self.entries.get(&iova) {
            Some(pte) => Some(*pte),
            None => None,
        }
    }

    /// Maps pages from `iova` on to the physical pages from `paddr` on, as
    /// many of `pgcount` as lie in the leaf table of the first. Returns the
    /// number of bytes mapped.
    ///
    /// Fails with `EINVAL` when the request is not well-formed, and with
    /// `EEXIST` when one of the pages is mapped already. A failed call
    /// changes nothing.
    pub fn map_pages(&mut self, iova: u64, paddr: u64, pgsize: u64, pgcount: u64, prot: u32)
        -> (r: Result<u64>)
        requires
            old(self).wf(),
        ensures
            final(self).wf(),
            final(self).spec_cfg() == old(self).spec_cfg(),
            final(self).spec_ttbr() == old(self).spec_ttbr(),
            r is Ok <==> map_request_valid(old(self).spec_cfg(), iova, paddr, pgsize, pgcount, prot)
                && pages_free(old(self)@, iova, spec_chunk(iova, pgcount as int)),
            r matches Ok(mapped) ==> mapped == spec_chunk(iova, pgcount as int) * UAT_PGSZ
                && final(self)@ == spec_map(
                old(self)@,
                iova,
                paddr,
                spec_chunk(iova, pgcount as int),
                prot,
            ),
            r matches Err(e) ==> final(self)@ == old(self)@ && e == (if map_request_valid(
                old(self).spec_cfg(),
                iova,
                paddr,
                pgsize,
                pgcount,
                prot,
            ) {
                Error::EEXIST
            } else {
                Error::EINVAL
            }),
    {
        if !check_map_request(&self.cfg, iova, paddr, pgsize, pgcount, prot) {
            return Err(Error::EINVAL);
        }
        proof {
            vstd::arithmetic::power2::lemma2_to64_rest();
            vstd::arithmetic::power2::lemma_pow2_strictly_increases(0, 1);
            if self.cfg.ias < 48 {
                vstd::arithmetic::power2::lemma_pow2_strictly_increases(self.cfg.ias as nat, 48);
            }
            if self.cfg.oas < 48 {
                vstd::arithmetic::power2::lemma_pow2_strictly_increases(self.cfg.oas as nat, 48);
            }
        }
        let room: u64 = (UAT_NPTE as u64) - (iova / UAT_PGSZ) % (UAT_NPTE as u64);
        let chunk: u64 = if pgcount < room {
            pgcount
        } else {
            room
        };
        // Check that the pages are free before touching the table.
        let mut i: u64 = 0;
        while i < chunk
            invariant
                i <= chunk,
                chunk <= pgcount,
                chunk == spec_chunk(iova, pgcount as int),
                iova + pgcount * UAT_PGSZ <= 0x1_0000_0000_0000,
                iova % UAT_PGSZ == 0,
                *self == *old(self),
                self.wf(),
                map_request_valid(self.cfg, iova, paddr, pgsize, pgcount, prot),
                forall|k: u64|
                    in_pages(k, iova, i as int) && (k - iova) % (UAT_PGSZ as int) == 0
                        ==> !#[trigger] self.entries@.contains_key(k),
            decreases chunk - i,
        {
            let page: u64 = iova + i * UAT_PGSZ;
            if self.entries.contains_key(&page) {
                proof {
                    assert(in_pages(page, iova, chunk as int));
                }
                return Err(Error::EEXIST);
            }
            i = i + 1;
        }
        let mut i: u64 = 0;
        while i < chunk
            invariant
                i <= chunk,
                chunk <= pgcount,
                iova + pgcount * UAT_PGSZ <= 0x1_0000_0000_0000,
                paddr + pgcount * UAT_PGSZ <= 0x1_0000_0000_0000,
                self.cfg == old(self).cfg,
                self.ttbr == old(self).ttbr,
                iova % UAT_PGSZ == 0,
                self.entries@ == spec_map(old(self).entries@, iova, paddr, i as int, prot),
            decreases chunk - i,
        {
            let page: u64 = iova + i * UAT_PGSZ;
            self.entries.insert(page, Pte { paddr: paddr + i * UAT_PGSZ, prot });
            i = i + 1;
            assert(self.entries@ =~= spec_map(old(self).entries@, iova, paddr, i as int, prot));
        }
        proof {
            // Misaligned addresses are never keys of the table, so the pages
            // found free are all the addresses of the range.
            assert forall|k: u64| in_pages(k, iova, chunk as int) implies !#[trigger] old(
                self,
            )@.contains_key(k) by {
                if old(self)@.contains_key(k) {
                    assert(k % UAT_PGSZ == 0);
                    assert((k - iova) % (UAT_PGSZ as int) == 0);
                }
            }
            assert forall|k: u64| #[trigger] self@.contains_key(k) implies k % UAT_PGSZ == 0 by {
                if !old(self)@.contains_key(k) {
                    assert((k - iova) % (UAT_PGSZ as int) == 0);
                }
            }
        }
        Ok(chunk * UAT_PGSZ)
    }

    /// Unmaps the mapped pages from `iova` on, up to the first page that is
    /// not mapped and to as many of `pgcount` as lie in the leaf table of
    /// the first. Returns the number of bytes unmapped; zero, changing
    /// nothing, when the request is not well-formed.
    pub fn unmap_pages(&mut self, iova: u64, pgsize: u64, pgcount: u64) -> (r: u64)
        requires
            old(self).wf(),
        ensures
            final(self).wf(),
            final(self).spec_cfg() == old(self).spec_cfg(),
            final(self).spec_ttbr() == old(self).spec_ttbr(),
            !unmap_request_valid(old(self).spec_cfg(), iova, pgsize, pgcount) ==> r == 0
                && final(self)@ == old(self)@,
            unmap_request_valid(old(self).spec_cfg(), iova, pgsize, pgcount) ==> {
                &&& r == spec_run(old(self)@, iova, spec_chunk(iova, pgcount as int)) * UAT_PGSZ
                &&& final(self)@ == spec_unmap(
                    old(self)@,
                    iova,
                    spec_run(old(self)@, iova, spec_chunk(iova, pgcount as int)),
                )
            },
    {
        if pgsize != UAT_PGSZ || pgcount == 0 || iova % UAT_PGSZ != 0 {
            return 0;
        }
        let in_limit: u64 = address_limit(self.cfg.ias);
        if iova > in_limit || pgcount > (in_limit - iova) / UAT_PGSZ {
            return 0;
        }
        let room: u64 = (UAT_NPTE as u64) - (iova / UAT_PGSZ) % (UAT_NPTE as u64);
        let chunk: u64 = if pgcount < room {
            pgcount
        } else {
            room
        };
        let mut i: u64 = 0;
        let mut going: bool = true;
        while going && i < chunk
            invariant
                i <= chunk,
                chunk <= pgcount,
                iova + pgcount * UAT_PGSZ <= 0x1_0000_0000_0000,
                iova % UAT_PGSZ == 0,
                self.cfg == old(self).cfg,
                self.ttbr == old(self).ttbr,
                self.entries@ == spec_unmap(old(self).entries@, iova, i as int),
                old(self).keys_aligned(),
                going ==> spec_run(old(self).entries@, iova, chunk as int) == i + spec_run(
                    old(self).entries@,
                    (iova + i * UAT_PGSZ) as u64,
                    chunk - i,
                ),
                !going ==> spec_run(old(self).entries@, iova, chunk as int) == i,
            decreases chunk - i + (if going { 1int } else { 0int }),
        {
            let page: u64 = iova + i * UAT_PGSZ;
            if self.entries.contains_key(&page) {
                self.entries.remove(&page);
                i = i + 1;
                assert forall|k: u64|
                    self.entries@.contains_key(k) == spec_unmap(
                        old(self).entries@,
                        iova,
                        i as int,
                    ).contains_key(k) by {
                    if old(self).entries@.contains_key(k) && in_pages(k, iova, i as int)
                        && !in_pages(k, iova, i - 1) {
                        assert(old(self)@.contains_key(k));
                        assert(k % UAT_PGSZ == 0);
                        assert(k == page);
                    }
                }
                assert(self.entries@ =~= spec_unmap(old(self).entries@, iova, i as int));
            } else {
                going = false;
            }
        }
        assert forall|k: u64| #[trigger] self@.contains_key(k) implies k % UAT_PGSZ == 0 by {
            assert(old(self)@.contains_key(k));
        }
        i * UAT_PGSZ
    }
}

/// Whether a request to unmap pages is well-formed for a table with the
/// given configuration.
pub open spec fn unmap_request_valid(cfg: Config, iova: u64, pgsize: u64, pgcount: u64)
    -> bool {
    &&& pgsize == UAT_PGSZ
    &&& pgcount > 0
    &&& iova % UAT_PGSZ == 0
    &&& iova + pgcount * UAT_PGSZ <= vstd::arithmetic::power2::pow2(cfg.ias as nat)
}

} // verus!

//! Synchronization objects of a submission.
//!
//! A submission waits for the fences of its input sync objects and signals
//! its output sync objects. Userspace names them in arrays of packed
//! records.

use crate::error::{Error, Result};
use crate::wire::{read_u32, read_u64, spec_le_u32, spec_le_u64};
use crate::xarray::IdTable;
use vstd::prelude::*;

verus! {

/// Sync object type: a regular sync object.
pub const DRM_ASAHI_SYNC_SYNCOBJ: u32 = 0;

/// Sync object type: a timeline sync object.
pub const DRM_ASAHI_SYNC_TIMELINE_SYNCOBJ: u32 = 1;

/// Size in bytes of one sync record in userspace memory.
pub const SYNC_STRIDE: usize = 24;

/// A fence: a point on the timeline of a fence context.
#[derive(Clone, Copy, Debug, PartialEq, Eq, Structural)]
pub struct Fence {
    /// The fence context.
    pub context: u64,
    /// The point on the timeline.
    pub seqno: u64,
}

/// A sync object: a container for the fence that was attached to it last.
#[derive(Clone, Copy, Debug, PartialEq, Eq, Structural)]
pub struct SyncObj {
    pub fence: Option<Fence>,
}

/// One sync record as userspace lays it out.
#[derive(Clone, Copy, Debug, PartialEq, Eq, Structural)]
pub struct SyncRecord {
    pub extensions: u64,
    pub sync_type: u32,
    pub handle: u32,
    pub timeline_value: u64,
}

/// Sync object from userspace.
#[derive(Clone, Copy, Debug, PartialEq, Eq, Structural)]
pub struct SyncItem {
    /// Handle of the sync object.
    pub syncobj: u32,
    /// The fence to wait for, of an input.
    pub fence: Option<Fence>,
    /// Whether a chain fence was set aside, for an output on a timeline.
    pub chain_fence: bool,
    /// The point on the timeline, of a timeline sync object.
    pub timeline_value: u64,
}

/// The fence of the point `seqno` on the timeline that ends in `fence`:
/// the fence itself for point 0; no fence for a point behind the end.
pub open spec fn spec_chain_find_seqno(fence: Fence, seqno: u64) -> Option<Fence> {
    if seqno == 0 {
        Some(fence)
    } else if fence.seqno < seqno {
        None
    } else {
        Some(Fence { context: fence.context, seqno })
    }
}

/// What a sync record stands for; its fence is looked up now, so that later
/// changes of the sync object do not matter.
///
/// A record is refused with `EINVAL` when its reserved field is not zero,
/// its type is not known, it is regular and names a point, or it is an
/// input whose sync object has no fence or no fence for its point; and with
/// `ENOENT` when there is no sync object of its handle.
#[verifier::opaque]
pub open spec fn spec_parse_sync(syncobjs: &IdTable<SyncObj>, data: SyncRecord, out: bool)
    -> Result<SyncItem> {
    if data.extensions != 0 {
        Err(Error::EINVAL)
    } else if data.sync_type == DRM_ASAHI_SYNC_SYNCOBJ {
        if data.timeline_value != 0 {
            Err(Error::EINVAL)
        } else if !syncobjs.spec_contains(data.handle) {
            Err(Error::ENOENT)
        } else if out {
            Ok(SyncItem { syncobj: data.handle, fence: None, chain_fence: false, timeline_value: 0 })
        } else {
            match syncobjs.spec_get(data.handle).fence {
                Some(f) => Ok(
                    SyncItem {
                        syncobj: data.handle,
                        fence: Some(f),
                        chain_fence: false,
                        timeline_value: 0,
                    },
                ),
                None => Err(Error::EINVAL),
            }
        }
    } else if data.sync_type == DRM_ASAHI_SYNC_TIMELINE_SYNCOBJ {
        if !syncobjs.spec_contains(data.handle) {
            Err(Error::ENOENT)
        } else if out {
            Ok(
                SyncItem {
                    syncobj: data.handle,
                    fence: None,
                    chain_fence: true,
                    timeline_value: data.timeline_value,
                },
            )
        } else {
            match syncobjs.spec_get(data.handle).fence {
                Some(f) => match spec_chain_find_seqno(f, data.timeline_value) {
                    Some(found) => Ok(
                        SyncItem {
                            syncobj: data.handle,
                            fence: Some(found),
                            chain_fence: false,
                            timeline_value: data.timeline_value,
                        },
                    ),
                    None => Err(Error::EINVAL),
                },
                None => Err(Error::EINVAL),
            }
        }
    } else {
        Err(Error::EINVAL)
    }
}

/// The record stored at byte `off` of `data`.
pub open spec fn spec_sync_record(data: Seq<u8>, off: int) -> SyncRecord {
    SyncRecord {
        extensions: spec_le_u64(data, off) as u64,
        sync_type: spec_le_u32(data, off + 8) as u32,
        handle: spec_le_u32(data, off + 12) as u32,
        timeline_value: spec_le_u64(data, off + 16) as u64,
    }
}

/// The number of records at the start of the first `n` that are accepted.
pub open spec fn spec_sync_prefix(syncobjs: &IdTable<SyncObj>, data: Seq<u8>, n: int, out: bool)
    -> int
    decreases n,
{
    if n <= 0 {
        0
    } else {
        let before = spec_sync_prefix(syncobjs, data, n - 1, out);
        if before == n - 1 && spec_parse_sync(
            syncobjs,
            spec_sync_record(data, (n - 1) * 24),
            out,
        ) is Ok {
            n
        } else {
            before
        }
    }
}

impl SyncItem {
    /// Reads one sync record and looks up what it stands for.
    pub fn parse_one(syncobjs: &IdTable<SyncObj>, data: SyncRecord, out: bool) -> (r: Result<
        SyncItem,
    >)
        ensures
            r == spec_parse_sync(syncobjs, data, out),
    {
        reveal(spec_parse_sync);
        if data.extensions != 0 {
            return Err(Error::EINVAL);
        }
        if data.sync_type == DRM_ASAHI_SYNC_SYNCOBJ {
            if data.timeline_value != 0 {
                return Err(Error::EINVAL);
            }
            let syncobj = match syncobjs.get(data.handle) {
                Some(s) => s,
                None => {
                    return Err(Error::ENOENT);
                },
            };
            let fence = if out {
                None
            } else {
                match syncobj.fence {
                    Some(f) => Some(f),
                    None => {
                        return Err(Error::EINVAL);
                    },
                }
            };
            Ok(
                SyncItem {
                    syncobj: data.handle,
                    fence,
                    chain_fence: false,
                    timeline_value: data.timeline_value,
                },
            )
        } else if data.sync_type == DRM_ASAHI_SYNC_TIMELINE_SYNCOBJ {
            let syncobj = match syncobjs.get(data.handle) {
                Some(s) => s,
                None => {
                    return Err(Error::ENOENT);
                },
            };
            let fence = if out {
                None
            } else {
                let f = match syncobj.fence {
                    Some(f) => f,
                    None => {
                        return Err(Error::EINVAL);
                    },
                };
                if data.timeline_value == 0 {
                    Some(f)
                } else if f.seqno < data.timeline_value {
                    return Err(Error::EINVAL);
                } else {
                    Some(Fence { context: f.context, seqno: data.timeline_value })
                }
            };
            Ok(
                SyncItem {
                    syncobj: data.handle,
                    fence,
                    chain_fence: out,
                    timeline_value: data.timeline_value,
                },
            )
        } else {
            Err(Error::EINVAL)
        }
    }

    /// Reads an array of `count` sync records from userspace memory.
    ///
    /// Fails with `EFAULT` when `data` is too short for `count` records,
    /// and with the error of the first record that is refused, see
    /// `spec_parse_sync`.
    pub fn parse_array(syncobjs: &IdTable<SyncObj>, data: &[u8], count: u32, out: bool) -> (r:
        Result<Vec<SyncItem>>)
        ensures
            r is Ok <==> data@.len() >= count * SYNC_STRIDE && spec_sync_prefix(
                syncobjs,
                data@,
                count as int,
                out,
            ) == count,
            r matches Ok(items) ==> items@.len() == count && forall|i: int|
                0 <= i < count ==> Ok::<SyncItem, Error>(#[trigger] items@[i]) == spec_parse_sync(
                    syncobjs,
                    spec_sync_record(data@, i * 24),
                    out,
                ),
            r matches Err(e) ==> data@.len() < count * SYNC_STRIDE ==> e == Error::EFAULT,
            r matches Err(e) ==> data@.len() >= count * SYNC_STRIDE ==> Err::<SyncItem, Error>(e)
                == spec_parse_sync(
                syncobjs,
                spec_sync_record(
                    data@,
                    spec_sync_prefix(syncobjs, data@, count as int, out) * 24,
                ),
                out,
            ),
    {
        let n: usize = count as usize;
        let total: usize = data.len();
        if n > usize::MAX / SYNC_STRIDE {
            assert(count * SYNC_STRIDE > total);
            return Err(Error::EFAULT);
        }
        if total < n * SYNC_STRIDE {
            return Err(Error::EFAULT);
        }
        let mut vec: Vec<SyncItem> = Vec::new();
        let mut i: usize = 0;
        while i < n
            invariant
                i <= n,
                n == count,
                n * SYNC_STRIDE <= data@.len(),
                data@.len() == total,
                vec@.len() == i,
                spec_sync_prefix(syncobjs, data@, i as int, out) == i,
                forall|j: int|
                    0 <= j < i ==> Ok::<SyncItem, Error>(#[trigger] vec@[j]) == spec_parse_sync(
                        syncobjs,
                        spec_sync_record(data@, j * 24),
                        out,
                    ),
            decreases n - i,
        {
            let off: usize = i * SYNC_STRIDE;
            let record = SyncRecord {
                extensions: read_u64(data, off),
                sync_type: read_u32(data, off + 8),
                handle: read_u32(data, off + 12),
                timeline_value: read_u64(data, off + 16),
            };
            assert(record == spec_sync_record(data@, i * 24));
            match SyncItem::parse_one(syncobjs, record, out) {
                Ok(item) => {
                    vec.push(item);
                },
                Err(e) => {
                    proof {
                        lemma_sync_prefix_stops(syncobjs, data@, i as int, n as int, out);
                    }
                    return Err(e);
                },
            }
            i = i + 1;
        }
        Ok(vec)
    }
}

/// Behind a record that is refused no record counts as accepted.
pub proof fn lemma_sync_prefix_stops(
    syncobjs: &IdTable<SyncObj>,
    data: Seq<u8>,
    i: int,
    n: int,
    out: bool,
)
    requires
        0 <= i < n,
        spec_sync_prefix(syncobjs, data, i, out) == i,
        spec_parse_sync(syncobjs, spec_sync_record(data, i * 24), out) is Err,
    ensures
        spec_sync_prefix(syncobjs, data, n, out) == i,
    decreases n - i,
{
    if n > i + 1 {
        lemma_sync_prefix_stops(syncobjs, data, i, n - 1, out);
    }
}

} // verus!

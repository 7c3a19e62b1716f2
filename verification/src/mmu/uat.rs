//! The top-level UAT manager: the TTBAT and the binding of address spaces
//! to context slots.

use crate::error::{Error, Result};
use crate::mmu::handoff::{current_slot, spec_current_slot};
use crate::mmu::vm::{Vm, VmBinding};
use crate::mmu::{
    spec_iova_user_range, HwOp, Warning, PTE_TABLE, TTBR_VALID, UAT_NUM_CTX,
    UAT_USER_CTX, UAT_USER_CTX_START,
};
use crate::slotalloc::{
    spec_after_get, spec_after_release, spec_get, spec_token_matches, Guard, SlotAllocator,
    SlotModel,
};
use core::ops::Range;
use vstd::prelude::*;

verus! {

/// Largest physical address of the root of a page table.
pub const MAX_TTB: u64 = 0xffff_ffff_ffff;

/// One VM slot in the TTBAT.
#[derive(Clone, Copy, Debug, PartialEq, Eq, Structural)]
pub struct SlotTtbs {
    pub ttb0: u64,
    pub ttb1: u64,
}

/// A pre-allocated memory region for UAT management.
#[derive(Clone, Copy, Debug, PartialEq, Eq, Structural)]
pub struct UatRegion {
    /// Physical address of the region.
    pub base: u64,
    /// Address that the region is mapped at.
    pub map: usize,
}

/// Describes a bootloader-preallocated memory region of `rgn_size` bytes
/// at the physical address `base`, of which `size` bytes are needed, that
/// was mapped at `map`; zero says that the mapping failed.
///
/// Fails with `ENOMEM` when the region is too small or could not be
/// mapped.
pub fn map_region(base: u64, rgn_size: usize, size: usize, map: usize) -> (r: Result<UatRegion>)
    ensures
        r is Ok <==> size <= rgn_size && map != 0,
        r matches Ok(rgn) ==> rgn == (UatRegion { base, map }),
        r matches Err(e) ==> e == Error::ENOMEM,
{
    if size > rgn_size {
        return Err(Error::ENOMEM);
    }
    if map == 0 {
        return Err(Error::ENOMEM);
    }
    Ok(UatRegion { base, map })
}

/// The value of a base register of slot `idx` for the page table at `ttb`.
pub open spec fn spec_ttbr(ttb: u64, idx: u32) -> u64 {
    ttb | TTBR_VALID | ((idx as u64) << 48)
}

/// Computes the value of a base register of slot `idx` for the page table
/// at `ttb`.
pub fn ttbr(ttb: u64, idx: u32) -> (r: u64)
    ensures
        r == spec_ttbr(ttb, idx),
{
    ttb | TTBR_VALID | ((idx as u64) << 48)
}

/// Whether `value` is a base register value that names slot `idx`: it is
/// valid and carries the context number `idx`.
pub open spec fn ttbr_names(value: u64, idx: int) -> bool {
    value & 1 == 1 && (value >> 48) == idx
}

/// The base register value of slot `idx` for a page table below `MAX_TTB`
/// names the slot.
pub proof fn lemma_ttbr_names(ttb: u64, idx: u32)
    requires
        ttb <= MAX_TTB,
        idx < 0x10000,
    ensures
        ttbr_names(spec_ttbr(ttb, idx), idx as int),
{
    let i = idx as u64;
    assert((ttb | 1u64 | (i << 48)) & 1 == 1 && ((ttb | 1u64 | (i << 48)) >> 48) == i)
        by (bit_vector)
        requires
            ttb <= 0xffff_ffff_ffffu64,
            i < 0x10000u64,
    ;
}

/// A single user of a binding of an address space to a slot.
///
/// The number of users is counted, and the slot is given back when it
/// drops to 0.
#[derive(Clone, Copy, Debug, PartialEq, Eq, Structural)]
pub struct VmBind {
    /// Identifier of the address space.
    pub vm_id: u64,
    /// Context number of the slot.
    pub slot: u32,
}

impl VmBind {
    /// Returns the slot that the address space is bound to.
    pub fn slot(&self) -> (r: u32)
        ensures
            r == self.slot,
    {
        self.slot
    }
}

/// Top-level UAT manager object.
pub struct Uat {
    /// The TTBAT: two base registers per context slot.
    ttbs: Vec<SlotTtbs>,
    /// The pool of user context slots.
    slots: SlotAllocator,
    /// Physical address of the TTBAT.
    ttb_base: u64,
    /// Physical address of the root of the kernel's upper half page table.
    kernel_ttb1: u64,
    /// Whether user contexts see the kernel's upper half.
    map_kernel_to_user: bool,
}

impl Uat {
    /// The TTBAT.
    pub closed spec fn spec_ttbs(&self) -> Seq<SlotTtbs> {
        self.ttbs@
    }

    /// The pool of user context slots.
    pub closed spec fn spec_slots(&self) -> SlotModel {
        self.slots@
    }

    /// Physical address of the TTBAT.
    pub closed spec fn spec_ttb_base(&self) -> u64 {
        self.ttb_base
    }

    /// Physical address of the root of the kernel's upper half page table.
    pub closed spec fn spec_kernel_ttb1(&self) -> u64 {
        self.kernel_ttb1
    }

    /// Whether user contexts see the kernel's upper half.
    pub closed spec fn spec_map_kernel_to_user(&self) -> bool {
        self.map_kernel_to_user
    }

    /// Whether the slot pool is in working order.
    pub closed spec fn slots_wf(&self) -> bool {
        self.slots.wf()
    }

    /// Whether the TTBAT has its slots, the pool has the user slots, and
    /// every user slot of the TTBAT is empty or names itself.
    pub open spec fn wf(&self) -> bool {
        &&& self.slots_wf()
        &&& self.spec_ttbs().len() == UAT_NUM_CTX
        &&& self.spec_slots().slots.len() == UAT_USER_CTX
        &&& self.spec_kernel_ttb1() <= MAX_TTB
        &&& forall|i: int|
            UAT_USER_CTX_START <= i < UAT_NUM_CTX ==> (#[trigger] self.spec_ttbs()[i]).ttb0 == 0
                || ttbr_names(self.spec_ttbs()[i].ttb0, i)
    }

    /// Whether the slot that `vm` is bound to holds the page table of
    /// `vm`; and, for an address space that is not bound, whether the slot
    /// that it would get back unchanged does.
    pub open spec fn slot_holds(&self, vm: &Vm) -> bool {
        match vm.binding.binding {
            Some(g) => self.spec_slot_set_up(g.slot + UAT_USER_CTX_START, vm.binding.ttb),
            None => spec_token_matches(self.spec_slots(), vm.binding.bind_token)
                ==> self.spec_slot_set_up(
                vm.binding.bind_token->0.slot + UAT_USER_CTX_START,
                vm.binding.ttb,
            ),
        }
    }

    /// Whether the manager is set up as `other` is: the same TTBAT address
    /// and the same kernel's upper half, seen by user contexts or not.
    pub open spec fn same_setup(&self, other: &Uat) -> bool {
        &&& self.spec_ttb_base() == other.spec_ttb_base()
        &&& self.spec_kernel_ttb1() == other.spec_kernel_ttb1()
        &&& self.spec_map_kernel_to_user() == other.spec_map_kernel_to_user()
    }

    /// Whether the slot `idx` of the TTBAT is set up for the page table at
    /// `ttb`: its first base register holds the page table under the
    /// number of the slot, and its second the kernel's upper half, if user
    /// contexts see it.
    pub open spec fn spec_slot_set_up(&self, idx: int, ttb: u64) -> bool {
        self.spec_ttbs()[idx] == (SlotTtbs {
            ttb0: spec_ttbr(ttb, idx as u32),
            ttb1: self.spec_user_ttb1(idx as u32),
        })
    }

    /// The second base register of the user slot `idx`: the kernel's upper
    /// half if user contexts see it, else nothing.
    pub open spec fn spec_user_ttb1(&self, idx: u32) -> u64 {
        if self.spec_map_kernel_to_user() {
            spec_ttbr(self.spec_kernel_ttb1(), idx)
        } else {
            0
        }
    }

    /// Creates a new `Uat` instance.
    ///
    /// `ttb0` and `ttb1` are the roots of the page tables of the kernel's
    /// lower and upper address space, `pagetables_base` is the root of the
    /// kernel's upper half, and `ttb_base` the physical address of the
    /// TTBAT.
    ///
    /// The first slot of the TTBAT is set up for the kernel, all other
    /// slots are cleared, and the kernel's upper address space is hooked
    /// into the upper half.
    ///
    /// Fails with `EINVAL` when `pagetables_base` is above `MAX_TTB`.
    pub fn new(
        ttb0: u64,
        ttb1: u64,
        pagetables_base: u64,
        ttb_base: u64,
        map_kernel_to_user: bool,
        hw: &mut Vec<HwOp>,
    ) -> (r: Result<Uat>)
        ensures
            r is Ok <==> pagetables_base <= MAX_TTB,
            r matches Ok(uat) ==> {
                &&& uat.wf()
                &&& uat.spec_ttbs()[0] == (SlotTtbs {
                    ttb0: ttb0 | TTBR_VALID,
                    ttb1: pagetables_base | TTBR_VALID,
                })
                &&& forall|i: int|
                    1 <= i < UAT_NUM_CTX ==> #[trigger] uat.spec_ttbs()[i] == (SlotTtbs {
                        ttb0: 0,
                        ttb1: 0,
                    })
                &&& uat.spec_slots() == (SlotModel {
                    slots: Seq::new(
                        UAT_USER_CTX as nat,
                        |i: int| Some(crate::slotalloc::Entry { get_time: 0, drop_time: 0 }),
                    ),
                    get_count: 0,
                    drop_count: 0,
                })
                &&& uat.spec_ttb_base() == ttb_base
                &&& uat.spec_kernel_ttb1() == pagetables_base
                &&& uat.spec_map_kernel_to_user() == map_kernel_to_user
                &&& final(hw)@ == old(hw)@ + spec_init_ops(ttb0, ttb1, pagetables_base)
            },
            r matches Err(e) ==> e == Error::EINVAL && final(hw)@ == old(hw)@,
    {
        if pagetables_base > MAX_TTB {
            return Err(Error::EINVAL);
        }
        let first = SlotTtbs { ttb0: ttb0 | TTBR_VALID, ttb1: pagetables_base | TTBR_VALID };
        let mut ttbs: Vec<SlotTtbs> = Vec::new();
        ttbs.push(first);
        hw.push(HwOp::HandoffLock);
        hw.push(HwOp::WriteTtb { slot: 0, ttb0: first.ttb0, ttb1: first.ttb1 });
        let mut i: usize = 1;
        while i < UAT_NUM_CTX
            invariant
                1 <= i <= UAT_NUM_CTX,
                ttbs@.len() == i,
                ttbs@[0] == first,
                forall|j: int| 1 <= j < i ==> #[trigger] ttbs@[j] == (SlotTtbs { ttb0: 0, ttb1: 0 }),
                hw@ == old(hw)@ + seq![
                    HwOp::HandoffLock,
                    HwOp::WriteTtb { slot: 0, ttb0: first.ttb0, ttb1: first.ttb1 },
                ] + Seq::new((i - 1) as nat, |j: int| spec_clear_op(j + 1)),
            decreases UAT_NUM_CTX - i,
        {
            ttbs.push(SlotTtbs { ttb0: 0, ttb1: 0 });
            hw.push(HwOp::WriteTtb { slot: i as u32, ttb0: 0, ttb1: 0 });
            i = i + 1;
            assert(hw@ =~= old(hw)@ + seq![
                HwOp::HandoffLock,
                HwOp::WriteTtb { slot: 0, ttb0: first.ttb0, ttb1: first.ttb1 },
            ] + Seq::new((i - 1) as nat, |j: int| spec_clear_op(j + 1)));
        }
        hw.push(HwOp::HandoffUnlock);
        hw.push(HwOp::WriteKernelPte { index: 2, pte: ttb1 | PTE_TABLE });
        assert(hw@ =~= old(hw)@ + spec_init_ops(ttb0, ttb1, pagetables_base));
        Ok(
            Uat {
                ttbs,
                slots: SlotAllocator::new(UAT_USER_CTX as u32),
                ttb_base,
                kernel_ttb1: pagetables_base,
                map_kernel_to_user,
            },
        )
    }

    /// Returns the base physical address of the TTBAT region.
    pub fn ttb_base(&self) -> (r: u64)
        ensures
            r == self.spec_ttb_base(),
    {
        self.ttb_base
    }

    /// Returns both base registers of the context slot `idx`.
    pub fn ttbs(&self, idx: u32) -> (r: SlotTtbs)
        requires
            self.wf(),
            idx < UAT_NUM_CTX,
        ensures
            r == self.spec_ttbs()[idx as int],
    {
        self.ttbs[idx as usize]
    }

    /// Creates a new address space linked to this UAT, whose page table
    /// root lies at `ttbr` and translates to `oas` output address bits.
    pub fn new_vm(&self, id: u64, kernel_range: Range<u64>, oas: usize, ttbr: u64) -> (r: Result<
        Vm,
    >)
        ensures
            r is Ok <==> oas <= crate::mmu::pgtable::MAX_ADDRESS_BITS && ttbr <= MAX_TTB,
            r matches Ok(vm) ==> {
                &&& vm.wf()
                &&& vm.id == id
                &&& !vm.is_kernel
                &&& vm.kernel_range == kernel_range
                &&& vm.va_range == spec_iova_user_range()
                &&& vm.gpuvm_range == crate::mmu::spec_iova_user_usable_range()
                &&& vm.page_table@ == Map::<u64, crate::mmu::pgtable::Pte>::empty()
                &&& vm.nodes@ == Seq::<crate::mmu::vm::Node>::empty()
                &&& vm.vas@ == Seq::<crate::mmu::vm::GpuVa>::empty()
                &&& vm.page_table.spec_cfg().oas == oas
                &&& vm.binding == (VmBinding {
                    active_users: 0,
                    binding: None,
                    bind_token: None,
                    ttb: ttbr,
                })
            },
            r matches Err(e) ==> e == Error::EINVAL,
    {
        Vm::new(kernel_range, oas, false, id, ttbr)
    }

    /// What binding to a slot that changed hands asks of the hardware:
    /// under the handoff lock, both base registers of the slot are written,
    /// with a warning first if the firmware is using the slot; then all TLB
    /// entries of the slot's previous owner are invalidated.
    pub open spec fn spec_bind_ops(&self, ttb: u64, idx: u32, cur_slot: u32) -> Seq<HwOp> {
        seq![HwOp::HandoffLock] + (if spec_current_slot(cur_slot) == Some(idx) {
            seq![HwOp::Warn { what: Warning::SlotInUse }]
        } else {
            Seq::empty()
        }) + seq![
            HwOp::WriteTtb { slot: idx, ttb0: spec_ttbr(ttb, idx), ttb1: self.spec_user_ttb1(idx) },
            HwOp::HandoffUnlock,
            HwOp::TlbiAsid { asid: idx as u8 },
            HwOp::Sync,
        ]
    }

    /// Whether a binding of `vm` gets a slot: it has one already and its
    /// user count has room, or the pool hands one out.
    pub open spec fn spec_can_bind(&self, vm: &Vm) -> bool {
        match vm.binding.binding {
            Some(_) => vm.binding.active_users < usize::MAX,
            None => spec_get(self.spec_slots(), vm.binding.bind_token) is Some,
        }
    }

    /// Binds an address space to a slot, preferring the last used one.
    ///
    /// An address space that is bound gets another user. One that is not
    /// gets a slot from the pool; if that is not its last slot, unused
    /// since, the slot's base registers are set up for the address space.
    ///
    /// `cur_slot` is the current-slot word of the handoff region, which the
    /// embedding reads under the handoff lock.
    ///
    /// Fails with `EBUSY`, changing nothing, when no slot is free.
    pub fn bind(&mut self, vm: &mut Vm, cur_slot: u32, hw: &mut Vec<HwOp>) -> (r: Result<VmBind>)
        requires
            old(self).wf(),
            old(vm).wf(),
        ensures
            final(self).wf(),
            final(vm).wf(),
            final(vm).same_but_binding(old(vm)),
            final(self).spec_ttb_base() == old(self).spec_ttb_base(),
            final(self).spec_kernel_ttb1() == old(self).spec_kernel_ttb1(),
            final(self).spec_map_kernel_to_user() == old(self).spec_map_kernel_to_user(),
            r is Ok <==> old(self).spec_can_bind(old(vm)),
            r is Ok ==> bind_step(old(self), final(self), old(vm), final(vm)),
            old(self).slot_holds(old(vm)) ==> final(self).slot_holds(final(vm)),
            r matches Err(e) ==> {
                &&& e == Error::EBUSY
                &&& final(vm).binding == old(vm).binding
                &&& final(self).spec_ttbs() == old(self).spec_ttbs()
                &&& final(self).spec_slots() == old(self).spec_slots()
                &&& final(hw)@ == old(hw)@
            },
            // Another user of a binding that exists.
            r is Ok && old(vm).binding.binding is Some ==> {
                &&& r->Ok_0 == (VmBind {
                    vm_id: old(vm).id,
                    slot: (old(vm).binding.binding->0.slot + UAT_USER_CTX_START) as u32,
                })
                &&& final(vm).binding == (VmBinding {
                    active_users: (old(vm).binding.active_users + 1) as usize,
                    ..old(vm).binding
                })
                &&& final(self).spec_ttbs() == old(self).spec_ttbs()
                &&& final(self).spec_slots() == old(self).spec_slots()
                &&& final(hw)@ == old(hw)@
            },
            // A new binding.
            r is Ok && old(vm).binding.binding is None ==> {
                let g = spec_get(old(self).spec_slots(), old(vm).binding.bind_token)->0;
                let idx = (g.slot + UAT_USER_CTX_START) as u32;
                &&& r->Ok_0 == (VmBind { vm_id: old(vm).id, slot: idx })
                &&& final(vm).binding == (VmBinding {
                    active_users: 1,
                    binding: Some(g),
                    bind_token: Some(g.token),
                    ttb: old(vm).binding.ttb,
                })
                &&& final(self).spec_slots() == spec_after_get(old(self).spec_slots(), g)
                &&& final(self).spec_ttbs() == (if g.changed {
                    old(self).spec_ttbs().update(
                        idx as int,
                        SlotTtbs {
                            ttb0: spec_ttbr(old(vm).binding.ttb, idx),
                            ttb1: old(self).spec_user_ttb1(idx),
                        },
                    )
                } else {
                    old(self).spec_ttbs()
                })
                &&& final(hw)@ == old(hw)@ + (if g.changed {
                    old(self).spec_bind_ops(old(vm).binding.ttb, idx, cur_slot)
                } else {
                    Seq::empty()
                })
            },
    {
        proof {
            assert(hw@ =~= old(hw)@ + Seq::<HwOp>::empty());
        }
        match vm.binding.binding {
            Some(g) => {
                if vm.binding.active_users == usize::MAX {
                    return Err(Error::EBUSY);
                }
                vm.binding.active_users = vm.binding.active_users + 1;
                Ok(VmBind { vm_id: vm.id, slot: g.slot + UAT_USER_CTX_START as u32 })
            },
            None => {
                proof {
                    crate::slotalloc::lemma_get_same_or_changed(
                        self.slots@,
                        vm.binding.bind_token,
                    );
                }
                let slot = match self.slots.get(vm.binding.bind_token) {
                    Ok(g) => g,
                    Err(e) => {
                        return Err(e);
                    },
                };
                let idx: u32 = slot.slot + UAT_USER_CTX_START as u32;
                if slot.changed {
                    let ttb = ttbr(vm.binding.ttb, idx);
                    let ttb1 = if self.map_kernel_to_user {
                        ttbr(self.kernel_ttb1, idx)
                    } else {
                        0
                    };
                    hw.push(HwOp::HandoffLock);
                    if current_slot(cur_slot) == Some(idx) {
                        hw.push(HwOp::Warn { what: Warning::SlotInUse });
                    }
                    self.ttbs.set(idx as usize, SlotTtbs { ttb0: ttb, ttb1 });
                    hw.push(HwOp::WriteTtb { slot: idx, ttb0: ttb, ttb1 });
                    hw.push(HwOp::HandoffUnlock);
                    // Make sure all TLB entries from the previous owner of
                    // this ASID are gone
                    hw.push(HwOp::TlbiAsid { asid: idx as u8 });
                    hw.push(HwOp::Sync);
                    proof {
                        lemma_ttbr_names(vm.binding.ttb, idx);
                        assert(hw@ =~= old(hw)@ + old(self).spec_bind_ops(
                            old(vm).binding.ttb,
                            idx,
                            cur_slot,
                        ));
                    }
                }
                vm.binding.bind_token = Some(slot.token);
                vm.binding.binding = Some(slot);
                vm.binding.active_users = 1;
                Ok(VmBind { vm_id: vm.id, slot: idx })
            },
        }
    }

    /// Counts one more user of a binding.
    ///
    /// Fails with `EINVAL`, changing nothing, when the address space is not
    /// bound, and with `EBUSY` when its user count has no room.
    pub fn clone_bind(&self, vm: &mut Vm, bind: &VmBind) -> (r: Result<VmBind>)
        requires
            old(vm).wf(),
        ensures
            final(vm).wf(),
            final(vm).same_but_binding(old(vm)),
            r is Ok <==> old(vm).binding.binding is Some && old(vm).binding.active_users
                < usize::MAX,
            r matches Ok(b) ==> b == *bind && final(vm).binding == (VmBinding {
                active_users: (old(vm).binding.active_users + 1) as usize,
                ..old(vm).binding
            }),
            r matches Err(e) ==> final(vm).binding == old(vm).binding && e == (if old(
                vm,
            ).binding.binding is None {
                Error::EINVAL
            } else {
                Error::EBUSY
            }),
    {
        if vm.binding.binding.is_none() {
            return Err(Error::EINVAL);
        }
        if vm.binding.active_users == usize::MAX {
            return Err(Error::EBUSY);
        }
        vm.binding.active_users = vm.binding.active_users + 1;
        Ok(*bind)
    }

    /// Gives up one user of the binding of an address space. When the last
    /// user is gone the slot goes back to the pool, which keeps it for the
    /// address space until another needs it.
    pub fn unbind(&mut self, vm: &mut Vm, bind: VmBind)
        requires
            old(self).wf(),
            old(vm).wf(),
            old(vm).binding.active_users > 0,
        ensures
            final(self).wf(),
            final(vm).wf(),
            final(vm).same_but_binding(old(vm)),
            unbind_step(old(self), final(self), old(vm), final(vm)),
            old(self).slot_holds(old(vm)) ==> final(self).slot_holds(final(vm)),
            final(self).spec_ttbs() == old(self).spec_ttbs(),
            final(self).spec_ttb_base() == old(self).spec_ttb_base(),
            final(self).spec_kernel_ttb1() == old(self).spec_kernel_ttb1(),
            final(self).spec_map_kernel_to_user() == old(self).spec_map_kernel_to_user(),
            final(vm).binding == (VmBinding {
                active_users: (old(vm).binding.active_users - 1) as usize,
                binding: if old(vm).binding.active_users == 1 {
                    None
                } else {
                    old(vm).binding.binding
                },
                ..old(vm).binding
            }),
            final(self).spec_slots() == (if old(vm).binding.active_users == 1
                && Self::spec_can_release(old(self).spec_slots(), old(vm).binding.binding->0) {
                spec_after_release(old(self).spec_slots(), old(vm).binding.binding->0)
            } else {
                old(self).spec_slots()
            }),
    {
        vm.binding.active_users = vm.binding.active_users - 1;
        if vm.binding.active_users == 0 {
            match vm.binding.binding {
                Some(g) => {
                    let _ = self.slots.release(g);
                },
                None => {},
            }
            vm.binding.binding = None;
        }
    }

    /// Whether the pool can take `guard` back: its slot is out and the
    /// release counter has room.
    pub open spec fn spec_can_release(m: SlotModel, guard: Guard) -> bool {
        guard.slot < m.slots.len() && m.slots[guard.slot as int] is None && m.drop_count + 2
            <= u64::MAX
    }

    /// What dropping an address space asks of the hardware, for the slot
    /// `idx` that it was last bound to: under the handoff lock the slot is
    /// cleared if it still holds the page table of the address space, and
    /// then its TLB entries are invalidated. A slot that the firmware is
    /// using is not touched: that is reported and nothing else is done.
    pub open spec fn spec_drop_vm_ops(idx: u32, owned: bool, cur_slot: u32) -> Seq<HwOp> {
        if !owned {
            seq![HwOp::HandoffLock, HwOp::HandoffUnlock]
        } else if spec_current_slot(cur_slot) == Some(idx) {
            seq![HwOp::HandoffLock, HwOp::Warn { what: Warning::SlotInUse }, HwOp::HandoffUnlock]
        } else {
            seq![
                HwOp::HandoffLock,
                HwOp::WriteTtb { slot: idx, ttb0: 0, ttb1: 0 },
                HwOp::HandoffUnlock,
                HwOp::TlbiAsid { asid: idx as u8 },
                HwOp::Sync,
            ]
        }
    }

    /// Whether the slot that `vm` was last bound to still holds its page
    /// table.
    pub open spec fn spec_owns_slot(&self, vm: &Vm) -> bool {
        spec_owns_slot_on(self.spec_ttbs(), vm)
    }

    /// The TTBAT after `vm` was dropped: the slot that it was last bound
    /// to is cleared if it still holds its page table and the firmware is
    /// not using it.
    pub open spec fn spec_ttbs_after_drop(&self, vm: &Vm, cur_slot: u32) -> Seq<SlotTtbs> {
        spec_ttbs_after_drop_on(self.spec_ttbs(), vm, cur_slot)
    }

    /// What dropping `vm` asks of the hardware: nothing, if it was never
    /// bound to a slot; else see `spec_drop_vm_ops`.
    pub open spec fn spec_drop_ops(&self, vm: &Vm, cur_slot: u32) -> Seq<HwOp> {
        spec_drop_ops_on(self.spec_ttbs(), vm, cur_slot)
    }

    /// Makes sure that an address space that is going away is not mapped to
    /// a TTBAT slot: if the slot that it was last bound to still holds its
    /// page table, the slot is cleared and invalidated in the TLB.
    ///
    /// `cur_slot` is the current-slot word of the handoff region, which the
    /// embedding reads under the handoff lock. If the firmware is using the
    /// slot, that is reported and the slot is left as it is: it is not
    /// cleared while the firmware holds it.
    pub fn drop_vm(&mut self, vm: &mut Vm, cur_slot: u32, hw: &mut Vec<HwOp>)
        requires
            old(self).wf(),
            old(vm).wf(),
            old(vm).binding.active_users == 0,
        ensures
            final(self).wf(),
            final(vm).wf(),
            final(vm).same_but_binding(old(vm)),
            final(vm).binding == (VmBinding { bind_token: None, ..old(vm).binding }),
            final(self).slot_holds(final(vm)),
            final(self).spec_slots() == old(self).spec_slots(),
            final(self).spec_ttb_base() == old(self).spec_ttb_base(),
            final(self).spec_kernel_ttb1() == old(self).spec_kernel_ttb1(),
            final(self).spec_map_kernel_to_user() == old(self).spec_map_kernel_to_user(),
            final(self).spec_ttbs() == old(self).spec_ttbs_after_drop(old(vm), cur_slot),
            final(hw)@ == old(hw)@ + old(self).spec_drop_ops(old(vm), cur_slot),
            drop_step(old(self), final(self), old(vm), final(vm), cur_slot),
    {
        let token = vm.binding.bind_token;
        vm.binding.bind_token = None;
        // Make sure this VM is not mapped to a TTB if it was
        match token {
            Some(token) => {
                let idx: u32 = token.last_slot() + UAT_USER_CTX_START as u32;
                let ttb = ttbr(vm.binding.ttb, idx);
                hw.push(HwOp::HandoffLock);
                let owned = self.ttbs[idx as usize].ttb0 == ttb;
                let in_use = match current_slot(cur_slot) {
                    Some(s) => s == idx,
                    None => false,
                };
                if owned {
                    if in_use {
                        hw.push(HwOp::Warn { what: Warning::SlotInUse });
                    } else {
                        self.ttbs.set(idx as usize, SlotTtbs { ttb0: 0, ttb1: 0 });
                        hw.push(HwOp::WriteTtb { slot: idx, ttb0: 0, ttb1: 0 });
                    }
                }
                hw.push(HwOp::HandoffUnlock);
                // In principle we dropped all the KernelMappings already, but
                // we might as well play it safe and invalidate the whole ASID.
                if owned && !in_use {
                    hw.push(HwOp::TlbiAsid { asid: idx as u8 });
                    hw.push(HwOp::Sync);
                }
                assert(hw@ =~= old(hw)@ + Self::spec_drop_vm_ops(idx, owned, cur_slot));
            },
            None => {
                assert(hw@ =~= old(hw)@ + Seq::<HwOp>::empty());
            },
        }
    }
}

/// Whether the slot of the TTBAT `ttbs` that `vm` was last bound to still
/// holds its page table.
pub open spec fn spec_owns_slot_on(ttbs: Seq<SlotTtbs>, vm: &Vm) -> bool {
    vm.binding.bind_token matches Some(t) && ttbs[t.slot + UAT_USER_CTX_START].ttb0 == spec_ttbr(
        vm.binding.ttb,
        (t.slot + UAT_USER_CTX_START) as u32,
    )
}

/// The TTBAT `ttbs` after `vm` was dropped, see `Uat::spec_ttbs_after_drop`.
pub open spec fn spec_ttbs_after_drop_on(ttbs: Seq<SlotTtbs>, vm: &Vm, cur_slot: u32) -> Seq<
    SlotTtbs,
> {
    match vm.binding.bind_token {
        Some(t) => {
            let idx = (t.slot + UAT_USER_CTX_START) as u32;
            if spec_owns_slot_on(ttbs, vm) && spec_current_slot(cur_slot) != Some(idx) {
                ttbs.update(idx as int, SlotTtbs { ttb0: 0, ttb1: 0 })
            } else {
                ttbs
            }
        },
        None => ttbs,
    }
}

/// What dropping `vm` asks of the hardware when the TTBAT holds `ttbs`, see
/// `Uat::spec_drop_ops`.
pub open spec fn spec_drop_ops_on(ttbs: Seq<SlotTtbs>, vm: &Vm, cur_slot: u32) -> Seq<HwOp> {
    match vm.binding.bind_token {
        Some(t) => Uat::spec_drop_vm_ops(
            (t.slot + UAT_USER_CTX_START) as u32,
            spec_owns_slot_on(ttbs, vm),
            cur_slot,
        ),
        None => Seq::empty(),
    }
}

/// The operation that clears the TTBAT slot `idx`.
pub open spec fn spec_clear_op(idx: int) -> HwOp {
    HwOp::WriteTtb { slot: idx as u32, ttb0: 0, ttb1: 0 }
}

/// What setting up the TTBAT asks of the hardware: under the handoff lock,
/// the kernel's slot is written and every other slot cleared; then the
/// kernel's upper address space is hooked into the third entry of the root
/// of the upper half.
pub open spec fn spec_init_ops(ttb0: u64, ttb1: u64, pagetables_base: u64) -> Seq<HwOp> {
    seq![
        HwOp::HandoffLock,
        HwOp::WriteTtb {
            slot: 0,
            ttb0: ttb0 | TTBR_VALID,
            ttb1: pagetables_base | TTBR_VALID,
        },
    ] + Seq::new((UAT_NUM_CTX - 1) as nat, |j: int| spec_clear_op(j + 1)) + seq![
        HwOp::HandoffUnlock,
        HwOp::WriteKernelPte { index: 2, pte: ttb1 | PTE_TABLE },
    ]
}


/// The slot of a bound address space holds its page table, under the
/// number of the slot, and no other user slot of the TTBAT holds the same
/// value: each of the others is empty or names itself.
pub proof fn lemma_bound_slot(uat: &Uat, vm: &Vm, other: int)
    requires
        uat.wf(),
        vm.binding.wf(),
        vm.binding.ttb <= MAX_TTB,
        vm.binding.binding is Some,
        uat.slot_holds(vm),
        UAT_USER_CTX_START <= other < UAT_NUM_CTX,
        other != vm.binding.binding->0.slot + UAT_USER_CTX_START,
    ensures
        ({
            let idx = vm.binding.binding->0.slot + UAT_USER_CTX_START;
            &&& uat.spec_ttbs()[idx].ttb0 == spec_ttbr(vm.binding.ttb, idx as u32)
            &&& ttbr_names(uat.spec_ttbs()[idx].ttb0, idx)
            &&& uat.spec_ttbs()[other].ttb0 != uat.spec_ttbs()[idx].ttb0
            &&& uat.spec_ttbs()[other].ttb0 == 0 || ttbr_names(uat.spec_ttbs()[other].ttb0, other)
        }),
{
    let idx = vm.binding.binding->0.slot + UAT_USER_CTX_START;
    lemma_ttbr_names(vm.binding.ttb, idx as u32);
    lemma_ttb_unique(uat, idx, other);
}

/// Binding an address space leaves the slots of the other address spaces
/// alone: what held of `other` before, see `Uat::slot_holds`, holds after
/// `vm` has got its slot. `before` and `after` are the manager before and
/// after the binding, as `Uat::bind` describes them.
///
/// An address space that is bound has its slot out of the pool.
pub proof fn lemma_bind_spares_others(before: &Uat, after: &Uat, vm: &Vm, other: &Vm)
    requires
        before.wf(),
        after.same_setup(before),
        vm.binding.wf(),
        other.binding.wf(),
        vm.binding.binding is None,
        spec_get(before.spec_slots(), vm.binding.bind_token) is Some,
        after.spec_slots() == spec_after_get(
            before.spec_slots(),
            spec_get(before.spec_slots(), vm.binding.bind_token)->0,
        ),
        after.spec_ttbs().len() == before.spec_ttbs().len(),
        forall|i: int|
            0 <= i < UAT_NUM_CTX && i != spec_get(
                before.spec_slots(),
                vm.binding.bind_token,
            )->0.slot + UAT_USER_CTX_START ==> #[trigger] after.spec_ttbs()[i]
                == before.spec_ttbs()[i],
        other.binding.binding matches Some(g) ==> before.spec_slots().slots[g.slot as int]
            is None,
        before.slot_holds(other),
    ensures
        after.slot_holds(other),
{
    let g = spec_get(before.spec_slots(), vm.binding.bind_token)->0;
    crate::slotalloc::lemma_get_same_or_changed(before.spec_slots(), vm.binding.bind_token);
    match other.binding.binding {
        Some(go) => {
            assert(go.slot != g.slot);
            assert(after.spec_ttbs()[go.slot + UAT_USER_CTX_START] == before.spec_ttbs()[go.slot
                + UAT_USER_CTX_START]);
        },
        None => {
            if spec_token_matches(after.spec_slots(), other.binding.bind_token) {
                let t = other.binding.bind_token->0;
                assert(t.slot != g.slot);
                assert(spec_token_matches(before.spec_slots(), other.binding.bind_token));
                assert(after.spec_ttbs()[t.slot + UAT_USER_CTX_START] == before.spec_ttbs()[t.slot
                    + UAT_USER_CTX_START]);
            }
        },
    }
}

/// Giving the slot of an address space back leaves the slots of the other
/// address spaces alone, see `Uat::slot_holds`. `before` and `after` are the
/// manager before and after the last user of the binding of `vm` went, as
/// `Uat::unbind` describes them.
///
/// The other address space has a token of its own.
pub proof fn lemma_unbind_spares_others(before: &Uat, after: &Uat, vm: &Vm, other: &Vm)
    requires
        before.wf(),
        after.same_setup(before),
        vm.binding.wf(),
        other.binding.wf(),
        vm.binding.binding is Some,
        after.spec_slots() == spec_after_release(before.spec_slots(), vm.binding.binding->0)
            || after.spec_slots() == before.spec_slots(),
        after.spec_ttbs() == before.spec_ttbs(),
        other.binding.bind_token != vm.binding.bind_token,
        before.slot_holds(other),
    ensures
        after.slot_holds(other),
{
    let g = vm.binding.binding->0;
    match other.binding.binding {
        Some(go) => {},
        None => {
            if spec_token_matches(after.spec_slots(), other.binding.bind_token) {
                let t = other.binding.bind_token->0;
                if after.spec_slots() != before.spec_slots() {
                    assert(t.slot != g.slot);
                }
                assert(spec_token_matches(before.spec_slots(), other.binding.bind_token));
            }
        },
    }
}

/// Dropping an address space leaves the slots of the other address spaces
/// alone, see `Uat::slot_holds`: a slot is cleared only while it holds the
/// page table of the address space that goes. `before` and `after` are the
/// manager before and after, as `Uat::drop_vm` describes them.
///
/// The other address space has a page table of its own.
pub proof fn lemma_drop_spares_others(
    before: &Uat,
    after: &Uat,
    vm: &Vm,
    other: &Vm,
    cur_slot: u32,
)
    requires
        before.wf(),
        after.same_setup(before),
        vm.binding.wf(),
        other.binding.wf(),
        vm.binding.bind_token is Some,
        after.spec_slots() == before.spec_slots(),
        after.spec_ttbs() == before.spec_ttbs_after_drop(vm, cur_slot),
        spec_ttbr(
            other.binding.ttb,
            (vm.binding.bind_token->0.slot + UAT_USER_CTX_START) as u32,
        ) != spec_ttbr(
            vm.binding.ttb,
            (vm.binding.bind_token->0.slot + UAT_USER_CTX_START) as u32,
        ),
        before.slot_holds(other),
    ensures
        after.slot_holds(other),
{
}

/// A slot that the firmware is using is not cleared: dropping an address
/// space whose slot the current-slot word names reports that, under the
/// handoff lock, and writes and invalidates nothing; the TTBAT stays as it
/// is.
pub proof fn lemma_slot_in_use_kept(uat: &Uat, vm: &Vm, cur_slot: u32)
    requires
        vm.binding.bind_token is Some,
        spec_current_slot(cur_slot) == Some(
            (vm.binding.bind_token->0.slot + UAT_USER_CTX_START) as u32,
        ),
    ensures
        uat.spec_ttbs_after_drop(vm, cur_slot) == uat.spec_ttbs(),
        uat.spec_drop_ops(vm, cur_slot) == (if uat.spec_owns_slot(vm) {
            seq![HwOp::HandoffLock, HwOp::Warn { what: Warning::SlotInUse }, HwOp::HandoffUnlock]
        } else {
            seq![HwOp::HandoffLock, HwOp::HandoffUnlock]
        }),
        forall|i: int|
            0 <= i < uat.spec_drop_ops(vm, cur_slot).len() ==> !(#[trigger] uat.spec_drop_ops(
                vm,
                cur_slot,
            )[i] is WriteTtb),
{
}

/// What binding an address space does to its binding, to the TTBAT and to
/// the slot pool. An address space that is bound gets another user. One
/// that is not gets a slot from the pool, and the slot is set up for it
/// unless it is the slot of its token, unused since.
pub open spec fn bind_step(before: &Uat, after: &Uat, vm0: &Vm, vm1: &Vm) -> bool {
    &&& after.same_setup(before)
    &&& match vm0.binding.binding {
        Some(_) => {
            &&& vm1.binding == (VmBinding {
                active_users: (vm0.binding.active_users + 1) as usize,
                ..vm0.binding
            })
            &&& vm0.binding.active_users < usize::MAX
            &&& after.spec_ttbs() == before.spec_ttbs()
            &&& after.spec_slots() == before.spec_slots()
        },
        None => {
            let g = spec_get(before.spec_slots(), vm0.binding.bind_token)->0;
            let idx = (g.slot + UAT_USER_CTX_START) as u32;
            &&& spec_get(before.spec_slots(), vm0.binding.bind_token) is Some
            &&& vm1.binding == (VmBinding {
                active_users: 1,
                binding: Some(g),
                bind_token: Some(g.token),
                ttb: vm0.binding.ttb,
            })
            &&& after.spec_slots() == spec_after_get(before.spec_slots(), g)
            &&& after.spec_ttbs() == (if g.changed {
                before.spec_ttbs().update(
                    idx as int,
                    SlotTtbs {
                        ttb0: spec_ttbr(vm0.binding.ttb, idx),
                        ttb1: before.spec_user_ttb1(idx),
                    },
                )
            } else {
                before.spec_ttbs()
            })
        },
    }
}

/// What giving up a user of a binding does: with the last user the slot
/// goes back to the pool, if the pool can take it; the TTBAT stays as it
/// is, and the address space keeps the token of its slot.
pub open spec fn unbind_step(before: &Uat, after: &Uat, vm0: &Vm, vm1: &Vm) -> bool {
    &&& after.same_setup(before)
    &&& vm0.binding.active_users > 0
    &&& after.spec_ttbs() == before.spec_ttbs()
    &&& vm1.binding == (VmBinding {
        active_users: (vm0.binding.active_users - 1) as usize,
        binding: if vm0.binding.active_users == 1 {
            None
        } else {
            vm0.binding.binding
        },
        ..vm0.binding
    })
    &&& after.spec_slots() == (if vm0.binding.active_users == 1 && Uat::spec_can_release(
        before.spec_slots(),
        vm0.binding.binding->0,
    ) {
        spec_after_release(before.spec_slots(), vm0.binding.binding->0)
    } else {
        before.spec_slots()
    })
}

/// What dropping an address space does: it forgets its token, and its
/// slot is cleared if it still holds its page table and the firmware is
/// not using it.
pub open spec fn drop_step(before: &Uat, after: &Uat, vm0: &Vm, vm1: &Vm, cur_slot: u32) -> bool {
    &&& after.same_setup(before)
    &&& vm0.binding.active_users == 0
    &&& vm1.binding == (VmBinding { bind_token: None, ..vm0.binding })
    &&& after.spec_slots() == before.spec_slots()
    &&& after.spec_ttbs() == before.spec_ttbs_after_drop(vm0, cur_slot)
}

/// Whether the binding of an address space is in order with the manager:
/// the slot that it is bound to, or would get back unchanged, is set up
/// for it; a slot that it is bound to is out of the pool; and its token is
/// one that the pool has handed out.
pub open spec fn binding_in_order(uat: &Uat, vm: &Vm) -> bool {
    &&& vm.binding.wf()
    &&& vm.binding.ttb <= MAX_TTB
    &&& uat.slot_holds(vm)
    &&& vm.binding.binding matches Some(g) ==> uat.spec_slots().slots[g.slot as int] is None
    &&& vm.binding.bind_token matches Some(t) ==> t.time <= uat.spec_slots().get_count
}

/// Whether two address spaces are apart: they are not bound to the same
/// slot, they do not hold the same token, and they have page tables of
/// their own.
pub open spec fn bindings_apart(a: &Vm, b: &Vm) -> bool {
    &&& a.binding.binding is Some && b.binding.binding is Some ==> a.binding.binding->0.slot
        != b.binding.binding->0.slot
    &&& a.binding.bind_token is Some ==> a.binding.bind_token != b.binding.bind_token
    &&& forall|idx: u32| #[trigger] spec_ttbr(a.binding.ttb, idx) != spec_ttbr(b.binding.ttb, idx)
}

/// Whether the manager and all address spaces are in order together.
pub open spec fn system_wf(uat: &Uat, vms: Seq<Vm>) -> bool {
    &&& uat.wf()
    &&& forall|i: int| 0 <= i < vms.len() ==> #[trigger] binding_in_order(uat, &vms[i])
    &&& forall|i: int, j: int|
        0 <= i < vms.len() && 0 <= j < vms.len() && i != j ==> #[trigger] bindings_apart(
            &vms[i],
            &vms[j],
        )
}

/// A step of an address space: it is bound, a user of its binding goes, or
/// it is dropped.
pub open spec fn binding_step(before: &Uat, after: &Uat, vm0: &Vm, vm1: &Vm, cur_slot: u32)
    -> bool {
    ||| bind_step(before, after, vm0, vm1)
    ||| unbind_step(before, after, vm0, vm1)
    ||| drop_step(before, after, vm0, vm1, cur_slot)
}

/// A step of an address space leaves its own binding in order.
pub proof fn lemma_step_keeps_own(before: &Uat, after: &Uat, vm0: &Vm, vm1: &Vm, cur_slot: u32)
    requires
        before.wf(),
        after.wf(),
        binding_in_order(before, vm0),
        binding_step(before, after, vm0, vm1, cur_slot),
    ensures
        binding_in_order(after, vm1),
{
    crate::slotalloc::lemma_get_same_or_changed(before.spec_slots(), vm0.binding.bind_token);
}

/// A step of an address space leaves every other address space in order
/// and apart from it.
pub proof fn lemma_step_spares_other(
    before: &Uat,
    after: &Uat,
    vm0: &Vm,
    vm1: &Vm,
    other: &Vm,
    cur_slot: u32,
)
    requires
        before.wf(),
        after.wf(),
        binding_in_order(before, vm0),
        binding_in_order(before, other),
        bindings_apart(vm0, other),
        bindings_apart(other, vm0),
        binding_step(before, after, vm0, vm1, cur_slot),
    ensures
        binding_in_order(after, other),
        bindings_apart(vm1, other),
        bindings_apart(other, vm1),
{
    crate::slotalloc::lemma_get_same_or_changed(before.spec_slots(), vm0.binding.bind_token);
    assert forall|idx: u32| #[trigger]
        spec_ttbr(vm1.binding.ttb, idx) != spec_ttbr(other.binding.ttb, idx) by {
        assert(spec_ttbr(vm0.binding.ttb, idx) != spec_ttbr(other.binding.ttb, idx));
    }
    assert forall|idx: u32| #[trigger]
        spec_ttbr(other.binding.ttb, idx) != spec_ttbr(vm1.binding.ttb, idx) by {
        assert(spec_ttbr(other.binding.ttb, idx) != spec_ttbr(vm0.binding.ttb, idx));
    }
    if bind_step(before, after, vm0, vm1) {
        if vm0.binding.binding is None {
            lemma_bind_spares_others(before, after, vm0, other);
        }
    } else if unbind_step(before, after, vm0, vm1) {
        lemma_unbind_spares_others(before, after, vm0, other);
    } else {
        if vm0.binding.bind_token is Some {
            let idx = (vm0.binding.bind_token->0.slot + UAT_USER_CTX_START) as u32;
            assert(spec_ttbr(other.binding.ttb, idx) != spec_ttbr(vm0.binding.ttb, idx));
            lemma_drop_spares_others(before, after, vm0, other, cur_slot);
        }
    }
}

/// The manager and the address spaces stay in order together through every
/// step of an address space: what holds once the manager is set up, with no
/// address space, holds ever after.
pub proof fn lemma_system_step(
    before: &Uat,
    after: &Uat,
    vms: Seq<Vm>,
    k: int,
    vm1: &Vm,
    cur_slot: u32,
)
    requires
        system_wf(before, vms),
        after.wf(),
        0 <= k < vms.len(),
        binding_step(before, after, &vms[k], vm1, cur_slot),
    ensures
        system_wf(after, vms.update(k, *vm1)),
{
    let next = vms.update(k, *vm1);
    assert(binding_in_order(before, &vms[k]));
    lemma_step_keeps_own(before, after, &vms[k], vm1, cur_slot);
    assert forall|i: int| 0 <= i < next.len() implies #[trigger] binding_in_order(
        after,
        &next[i],
    ) by {
        if i != k {
            assert(binding_in_order(before, &vms[i]));
            assert(bindings_apart(&vms[k], &vms[i]));
            assert(bindings_apart(&vms[i], &vms[k]));
            lemma_step_spares_other(before, after, &vms[k], vm1, &vms[i], cur_slot);
        }
    }
    assert forall|i: int, j: int|
        0 <= i < next.len() && 0 <= j < next.len() && i != j implies #[trigger] bindings_apart(
        &next[i],
        &next[j],
    ) by {
        if i == k {
            assert(binding_in_order(before, &vms[j]));
            assert(bindings_apart(&vms[k], &vms[j]));
            assert(bindings_apart(&vms[j], &vms[k]));
            lemma_step_spares_other(before, after, &vms[k], vm1, &vms[j], cur_slot);
        } else if j == k {
            assert(binding_in_order(before, &vms[i]));
            assert(bindings_apart(&vms[k], &vms[i]));
            assert(bindings_apart(&vms[i], &vms[k]));
            lemma_step_spares_other(before, after, &vms[k], vm1, &vms[i], cur_slot);
        } else {
            assert(bindings_apart(&vms[i], &vms[j]));
        }
    }
}

/// A manager that was just set up is in order with no address space, and
/// stays in order with one more address space that has never been bound
/// and has a page table of its own.
pub proof fn lemma_system_grows(uat: &Uat, vms: Seq<Vm>, vm: &Vm)
    requires
        system_wf(uat, vms),
        vm.binding == (VmBinding {
            active_users: 0,
            binding: None,
            bind_token: None,
            ttb: vm.binding.ttb,
        }),
        vm.binding.ttb <= MAX_TTB,
        forall|i: int, idx: u32|
            0 <= i < vms.len() ==> #[trigger] spec_ttbr(vms[i].binding.ttb, idx) != spec_ttbr(
                vm.binding.ttb,
                idx,
            ),
    ensures
        system_wf(uat, vms.push(*vm)),
        uat.wf() ==> system_wf(uat, Seq::<Vm>::empty()),
{
    let next = vms.push(*vm);
    assert forall|i: int| 0 <= i < next.len() implies #[trigger] binding_in_order(
        uat,
        &next[i],
    ) by {
        if i < vms.len() {
            assert(binding_in_order(uat, &vms[i]));
        }
    }
    assert forall|i: int, j: int|
        0 <= i < next.len() && 0 <= j < next.len() && i != j implies #[trigger] bindings_apart(
        &next[i],
        &next[j],
    ) by {
        if i < vms.len() && j < vms.len() {
            assert(bindings_apart(&vms[i], &vms[j]));
        } else if i < vms.len() {
            assert forall|idx: u32| #[trigger]
                spec_ttbr(vms[i].binding.ttb, idx) != spec_ttbr(vm.binding.ttb, idx) by {}
            assert(binding_in_order(uat, &vms[i]));
        } else {
            assert forall|idx: u32| #[trigger]
                spec_ttbr(vm.binding.ttb, idx) != spec_ttbr(vms[j].binding.ttb, idx) by {
                assert(spec_ttbr(vms[j].binding.ttb, idx) != spec_ttbr(vm.binding.ttb, idx));
            }
        }
    }
}

/// While the manager and the address spaces are in order together, the
/// slot of every bound address space is set up for it: its first base
/// register holds the page table of the address space under the number of
/// the slot, its second the kernel's upper half if user contexts see it.
/// No other user slot holds the same value, and no other address space is
/// bound to the slot.
pub proof fn lemma_system_bound(uat: &Uat, vms: Seq<Vm>, i: int, j: int, other_slot: int)
    requires
        system_wf(uat, vms),
        0 <= i < vms.len(),
        0 <= j < vms.len(),
        i != j,
        vms[i].binding.binding is Some,
        UAT_USER_CTX_START <= other_slot < UAT_NUM_CTX,
        other_slot != vms[i].binding.binding->0.slot + UAT_USER_CTX_START,
    ensures
        ({
            let idx = vms[i].binding.binding->0.slot + UAT_USER_CTX_START;
            &&& UAT_USER_CTX_START <= idx < UAT_NUM_CTX
            &&& uat.spec_ttbs()[idx].ttb0 == spec_ttbr(vms[i].binding.ttb, idx as u32)
            &&& uat.spec_ttbs()[idx].ttb1 == uat.spec_user_ttb1(idx as u32)
            &&& uat.spec_ttbs()[other_slot].ttb0 != uat.spec_ttbs()[idx].ttb0
            &&& vms[j].binding.binding matches Some(g) ==> g.slot + UAT_USER_CTX_START != idx
        }),
{
    assert(binding_in_order(uat, &vms[i]));
    assert(bindings_apart(&vms[i], &vms[j]));
    lemma_bound_slot(uat, &vms[i], other_slot);
}

/// Binding an address space that has no user gives it one user and a slot
/// that is set up for it: the slot of its token with nothing written, if
/// nobody has used that slot since, or a slot that is written for it.
pub proof fn lemma_rebind(before: &Uat, after: &Uat, vm0: &Vm, vm1: &Vm)
    requires
        before.wf(),
        after.wf(),
        binding_in_order(before, vm0),
        vm0.binding.binding is None,
        bind_step(before, after, vm0, vm1),
    ensures
        ({
            let g = vm1.binding.binding->0;
            let idx = g.slot + UAT_USER_CTX_START;
            &&& vm1.binding.binding is Some
            &&& vm1.binding.active_users == 1
            &&& UAT_USER_CTX_START <= idx < UAT_NUM_CTX
            &&& after.spec_slot_set_up(idx, vm1.binding.ttb)
            &&& !g.changed ==> vm0.binding.bind_token == Some(g.token) && after.spec_ttbs()
                == before.spec_ttbs()
            &&& g.changed ==> after.spec_ttbs() == before.spec_ttbs().update(
                idx,
                SlotTtbs {
                    ttb0: spec_ttbr(vm1.binding.ttb, idx as u32),
                    ttb1: after.spec_user_ttb1(idx as u32),
                },
            )
        }),
{
    crate::slotalloc::lemma_get_same_or_changed(before.spec_slots(), vm0.binding.bind_token);
    lemma_step_keeps_own(before, after, vm0, vm1, 0);
}

/// At most one slot of the TTBAT holds a given base register value that
/// names a user slot: the value of any other user slot is zero or names
/// that other slot.
pub proof fn lemma_ttb_unique(uat: &Uat, idx: int, other: int)
    requires
        uat.wf(),
        UAT_USER_CTX_START <= idx < UAT_NUM_CTX,
        UAT_USER_CTX_START <= other < UAT_NUM_CTX,
        idx != other,
        ttbr_names(uat.spec_ttbs()[idx].ttb0, idx),
    ensures
        uat.spec_ttbs()[other].ttb0 != uat.spec_ttbs()[idx].ttb0,
        uat.spec_ttbs()[other].ttb0 == 0 || ttbr_names(uat.spec_ttbs()[other].ttb0, other),
{
    assert(0u64 & 1 != 1) by (bit_vector);
}

} // verus!

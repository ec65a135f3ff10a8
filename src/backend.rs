//! The instruction variants and fences that each architecture family uses to
//! give a load, a store or a read-modify-write the ordering asked of it.
use vstd::prelude::*;
use crate::ordering::Ordering;

verus! {

/// A barrier instruction placed before or after the access.
#[derive(Clone, Copy, Debug, PartialEq, Eq, Structural)]
pub enum Fence {
    /// `dmb ish` on ARM: a full barrier.
    DmbIsh,
    /// `dmb ishld` on ARM: orders earlier loads before later accesses.
    DmbIshld,
    /// `sync` on MIPS: a full barrier.
    Sync,
    /// `fence rw, rw` on RISC-V: a full barrier.
    FenceRwRw,
    /// `fence r, rw` on RISC-V: orders earlier loads before later accesses.
    FenceRRw,
    /// `fence rw, w` on RISC-V: orders earlier accesses before later stores.
    FenceRwW,
    /// `bcr 14, 0` on z/Architecture: fast serialization.
    BcrFast,
    /// `bcr 15, 0` on z/Architecture: full serialization.
    BcrFull,
}

impl Fence {
    /// A fence after a load that keeps later accesses after it.
    pub open spec fn spec_orders_later(self) -> bool {
        self != Fence::FenceRwW
    }

    /// A fence before a store that keeps earlier accesses before it.
    pub open spec fn spec_orders_earlier(self) -> bool {
        self != Fence::DmbIshld && self != Fence::FenceRRw
    }

    /// A full barrier: it orders stores before it against loads after it.
    pub open spec fn spec_is_full(self) -> bool {
        self == Fence::DmbIsh || self == Fence::Sync || self == Fence::FenceRwRw || self
            == Fence::BcrFast || self == Fence::BcrFull
    }
}

/// How one access is emitted: an optional fence before it, the acquire and
/// release forms of the instruction, and an optional fence after it.
#[derive(Clone, Copy, Debug, PartialEq, Eq, Structural)]
pub struct Plan {
    pub leading: Option<Fence>,
    pub acquire: bool,
    pub release: bool,
    pub trailing: Option<Fence>,
}

/// The plan gives the acquire side of `order`: the instruction acquires, or a
/// fence after it keeps later accesses behind it.
pub open spec fn gives_acquire(p: Plan, order: Ordering) -> bool {
    order.spec_has_acquire() ==> (p.acquire || (p.trailing.is_some()
        && p.trailing.unwrap().spec_orders_later()))
}

/// The plan gives the release side of `order`: the instruction releases, or a
/// fence before it keeps earlier accesses ahead of it.
pub open spec fn gives_release(p: Plan, order: Ordering) -> bool {
    order.spec_has_release() ==> (p.release || (p.leading.is_some()
        && p.leading.unwrap().spec_orders_earlier()))
}

/// The plan gives every guarantee that `order` asks for.
pub open spec fn gives(p: Plan, order: Ordering) -> bool {
    gives_acquire(p, order) && gives_release(p, order)
}

/// A plan with no fence: only the instruction's own acquire and release forms.
pub open spec fn bare(acquire: bool, release: bool) -> Plan {
    Plan { leading: None, acquire, release, trailing: None }
}

/// The plan with only a fence after a plain access.
pub open spec fn fenced_after(f: Fence) -> Plan {
    Plan { leading: None, acquire: false, release: false, trailing: Some(f) }
}

/// The load instructions of 64-bit ARM.
#[derive(Clone, Copy, Debug, PartialEq, Eq, Structural)]
pub enum LoadInstr {
    /// `ldr`: a plain load.
    Ldr,
    /// `ldapr`: a load-acquire with the weaker processor-consistent ordering.
    Ldapr,
    /// `ldar`: a load-acquire that is also ordered after earlier releases.
    Ldar,
}

/// 64-bit ARM: the load instruction for `order`. `ldapr` serves Acquire where
/// the processor has it; SeqCst always takes `ldar`, which no earlier
/// store-release can pass.
pub fn aarch64_load(order: Ordering, rcpc: bool) -> (r: LoadInstr)
    requires
        order.spec_valid_for_load(),
    ensures
        r == (if order == Ordering::Relaxed {
            LoadInstr::Ldr
        } else if order == Ordering::Acquire && rcpc {
            LoadInstr::Ldapr
        } else {
            LoadInstr::Ldar
        }),
        order.spec_has_acquire() <==> r != LoadInstr::Ldr,
        order == Ordering::SeqCst ==> r == LoadInstr::Ldar,
{
    match order {
        Ordering::Relaxed => LoadInstr::Ldr,
        Ordering::Acquire => {
            if rcpc {
                LoadInstr::Ldapr
            } else {
                LoadInstr::Ldar
            }
        },
        _ => LoadInstr::Ldar,
    }
}

/// The instruction forms of a read-modify-write on ARM: AcqRel and SeqCst
/// are the same.
pub open spec fn arm_rmw_forms(order: Ordering) -> Plan {
    bare(order.spec_has_acquire(), order.spec_has_release())
}

/// 64-bit ARM: the store for `order`. Under the MSVC calling convention a
/// SeqCst store is followed by a full barrier.
pub fn aarch64_store(order: Ordering, msvc: bool) -> (r: Plan)
    requires
        order.spec_valid_for_store(),
    ensures
        r == (if msvc && order == Ordering::SeqCst {
            Plan { trailing: Some(Fence::DmbIsh), ..bare(false, true) }
        } else {
            bare(false, order.spec_has_release())
        }),
        gives_release(r, order),
{
    let release = order.has_release();
    let trailing = if msvc && order == Ordering::SeqCst {
        Some(Fence::DmbIsh)
    } else {
        None
    };
    Plan { leading: None, acquire: false, release, trailing }
}

/// 64-bit ARM: the instruction forms of a swap or compare-exchange for
/// `order`. Under the MSVC calling convention a SeqCst one is followed by a
/// full barrier.
pub fn aarch64_rmw(order: Ordering, msvc: bool) -> (r: Plan)
    ensures
        r == (if msvc && order == Ordering::SeqCst {
            Plan { trailing: Some(Fence::DmbIsh), ..arm_rmw_forms(order) }
        } else {
            arm_rmw_forms(order)
        }),
        gives(r, order),
{
    let acquire = order.has_acquire();
    let release = order.has_release();
    let trailing = if msvc && order == Ordering::SeqCst {
        Some(Fence::DmbIsh)
    } else {
        None
    };
    Plan { leading: None, acquire, release, trailing }
}

/// 32-bit ARMv8: the load for `order`: `lda` where it acquires, `ldr` where not.
pub fn armv8_load(order: Ordering) -> (r: Plan)
    requires
        order.spec_valid_for_load(),
    ensures
        r == bare(order.spec_has_acquire(), false),
        gives_acquire(r, order),
{
    Plan { leading: None, acquire: order.has_acquire(), release: false, trailing: None }
}

/// 32-bit ARMv8: the store for `order`: `stl` where it releases, `str` where not.
pub fn armv8_store(order: Ordering) -> (r: Plan)
    requires
        order.spec_valid_for_store(),
    ensures
        r == bare(false, order.spec_has_release()),
        gives_release(r, order),
{
    Plan { leading: None, acquire: false, release: order.has_release(), trailing: None }
}

/// 32-bit ARMv8: the exclusive load and store forms of a read-modify-write.
pub fn armv8_rmw(order: Ordering) -> (r: Plan)
    ensures
        r == arm_rmw_forms(order),
        gives(r, order),
{
    Plan {
        leading: None,
        acquire: order.has_acquire(),
        release: order.has_release(),
        trailing: None,
    }
}

/// The `sync` barriers that MIPS places around an access: one before it to
/// release, one after it to acquire. Its instructions have no ordered forms.
pub open spec fn mips_fences(order: Ordering) -> Plan {
    Plan {
        leading: if order.spec_has_release() {
            Some(Fence::Sync)
        } else {
            None
        },
        acquire: false,
        release: false,
        trailing: if order.spec_has_acquire() {
            Some(Fence::Sync)
        } else {
            None
        },
    }
}

/// MIPS: the barriers around a load, a store, a swap or a compare-exchange.
pub fn mips_plan(order: Ordering) -> (r: Plan)
    ensures
        r == mips_fences(order),
        gives(r, order),
{
    let leading = if order.has_release() {
        Some(Fence::Sync)
    } else {
        None
    };
    let trailing = if order.has_acquire() {
        Some(Fence::Sync)
    } else {
        None
    };
    Plan { leading, acquire: false, release: false, trailing }
}

/// RISC-V: the fences around a plain load. An Acquire load is followed by
/// `fence r, rw`; a SeqCst one is also preceded by a full fence.
pub fn riscv_load(order: Ordering) -> (r: Plan)
    requires
        order.spec_valid_for_load(),
    ensures
        r == (if order == Ordering::Relaxed {
            bare(false, false)
        } else if order == Ordering::Acquire {
            fenced_after(Fence::FenceRRw)
        } else {
            Plan { leading: Some(Fence::FenceRwRw), ..fenced_after(Fence::FenceRRw) }
        }),
        gives_acquire(r, order),
{
    match order {
        Ordering::Relaxed => Plan { leading: None, acquire: false, release: false, trailing: None },
        Ordering::Acquire => Plan {
            leading: None,
            acquire: false,
            release: false,
            trailing: Some(Fence::FenceRRw),
        },
        _ => Plan {
            leading: Some(Fence::FenceRwRw),
            acquire: false,
            release: false,
            trailing: Some(Fence::FenceRRw),
        },
    }
}

/// RISC-V: the fence before a plain store. Release and SeqCst stores are both
/// preceded by `fence rw, w`.
pub fn riscv_store(order: Ordering) -> (r: Plan)
    requires
        order.spec_valid_for_store(),
    ensures
        r == (if order == Ordering::Relaxed {
            bare(false, false)
        } else {
            Plan { leading: Some(Fence::FenceRwW), ..bare(false, false) }
        }),
        gives_release(r, order),
{
    let leading = if order.has_release() {
        Some(Fence::FenceRwW)
    } else {
        None
    };
    Plan { leading, acquire: false, release: false, trailing: None }
}

/// RISC-V: the `.aq` and `.rl` bits of an atomic memory operation.
pub fn riscv_amo(order: Ordering) -> (r: Plan)
    ensures
        r == bare(order.spec_has_acquire(), order.spec_has_release()),
        gives(r, order),
{
    Plan {
        leading: None,
        acquire: order.has_acquire(),
        release: order.has_release(),
        trailing: None,
    }
}

/// z/Architecture: the fence after a store. Loads, swaps and compare-exchanges
/// are sequentially consistent as they stand, and so are Relaxed and Release
/// stores but for ordering against later loads; a SeqCst store is followed by
/// a serialization, the fast form where the processor has it.
pub fn s390x_store(order: Ordering, fast_serialization: bool) -> (r: Option<Fence>)
    requires
        order.spec_valid_for_store(),
    ensures
        r == (if order != Ordering::SeqCst {
            None
        } else if fast_serialization {
            Some(Fence::BcrFast)
        } else {
            Some(Fence::BcrFull)
        }),
        order == Ordering::SeqCst ==> r.is_some() && r.unwrap().spec_is_full(),
{
    match order {
        Ordering::SeqCst => {
            if fast_serialization {
                Some(Fence::BcrFast)
            } else {
                Some(Fence::BcrFull)
            }
        },
        _ => None,
    }
}

} // verus!

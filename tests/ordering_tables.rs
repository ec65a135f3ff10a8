use atomic_maybe_uninit::backend::{
    aarch64_load, aarch64_rmw, aarch64_store, armv8_load, armv8_rmw, armv8_store, mips_plan,
    riscv_amo, riscv_load, riscv_store, s390x_store, Fence, LoadInstr, Plan,
};
use atomic_maybe_uninit::ordering::{upgrade_success_ordering, Ordering};

fn plan(leading: Option<Fence>, acquire: bool, release: bool, trailing: Option<Fence>) -> Plan {
    Plan { leading, acquire, release, trailing }
}

#[test]
fn ordering_classification() {
    assert!(Ordering::SeqCst.has_acquire() && Ordering::SeqCst.has_release());
    assert!(Ordering::AcqRel.has_acquire() && Ordering::AcqRel.has_release());
    assert!(!Ordering::Release.has_acquire() && Ordering::Release.has_release());
    assert!(Ordering::Acquire.has_acquire() && !Ordering::Acquire.has_release());
    assert!(!Ordering::Relaxed.has_acquire() && !Ordering::Relaxed.has_release());
    assert!(!Ordering::Release.is_valid_for_load());
    assert!(!Ordering::AcqRel.is_valid_for_load());
    assert!(Ordering::SeqCst.is_valid_for_load());
    assert!(!Ordering::Acquire.is_valid_for_store());
    assert!(!Ordering::AcqRel.is_valid_for_store());
    assert!(Ordering::Release.is_valid_for_store());
}

#[test]
fn upgrade_of_success_ordering() {
    assert_eq!(upgrade_success_ordering(Ordering::Relaxed, Ordering::Acquire), Ordering::Acquire);
    assert_eq!(upgrade_success_ordering(Ordering::Release, Ordering::Acquire), Ordering::AcqRel);
    assert_eq!(upgrade_success_ordering(Ordering::Relaxed, Ordering::SeqCst), Ordering::SeqCst);
    assert_eq!(upgrade_success_ordering(Ordering::AcqRel, Ordering::SeqCst), Ordering::SeqCst);
    assert_eq!(upgrade_success_ordering(Ordering::Release, Ordering::Relaxed), Ordering::Release);
    assert_eq!(upgrade_success_ordering(Ordering::AcqRel, Ordering::Acquire), Ordering::AcqRel);
    assert_eq!(upgrade_success_ordering(Ordering::SeqCst, Ordering::Relaxed), Ordering::SeqCst);
}

#[test]
fn aarch64_tables() {
    assert_eq!(aarch64_load(Ordering::Relaxed, true), LoadInstr::Ldr);
    assert_eq!(aarch64_load(Ordering::Acquire, true), LoadInstr::Ldapr);
    assert_eq!(aarch64_load(Ordering::Acquire, false), LoadInstr::Ldar);
    assert_eq!(aarch64_load(Ordering::SeqCst, true), LoadInstr::Ldar);
    assert_eq!(aarch64_store(Ordering::Relaxed, true), plan(None, false, false, None));
    assert_eq!(aarch64_store(Ordering::SeqCst, false), plan(None, false, true, None));
    assert_eq!(
        aarch64_store(Ordering::SeqCst, true),
        plan(None, false, true, Some(Fence::DmbIsh))
    );
    assert_eq!(aarch64_rmw(Ordering::Acquire, true), plan(None, true, false, None));
    assert_eq!(aarch64_rmw(Ordering::AcqRel, true), plan(None, true, true, None));
    assert_eq!(aarch64_rmw(Ordering::SeqCst, false), plan(None, true, true, None));
    assert_eq!(
        aarch64_rmw(Ordering::SeqCst, true),
        plan(None, true, true, Some(Fence::DmbIsh))
    );
}

#[test]
fn armv8_tables() {
    assert_eq!(armv8_load(Ordering::SeqCst), plan(None, true, false, None));
    assert_eq!(armv8_load(Ordering::Relaxed), plan(None, false, false, None));
    assert_eq!(armv8_store(Ordering::Release), plan(None, false, true, None));
    assert_eq!(armv8_rmw(Ordering::Release), plan(None, false, true, None));
    assert_eq!(armv8_rmw(Ordering::SeqCst), plan(None, true, true, None));
}

#[test]
fn mips_tables() {
    assert_eq!(mips_plan(Ordering::Relaxed), plan(None, false, false, None));
    assert_eq!(mips_plan(Ordering::Acquire), plan(None, false, false, Some(Fence::Sync)));
    assert_eq!(mips_plan(Ordering::Release), plan(Some(Fence::Sync), false, false, None));
    assert_eq!(
        mips_plan(Ordering::SeqCst),
        plan(Some(Fence::Sync), false, false, Some(Fence::Sync))
    );
}

#[test]
fn riscv_tables() {
    assert_eq!(riscv_load(Ordering::Relaxed), plan(None, false, false, None));
    assert_eq!(riscv_load(Ordering::Acquire), plan(None, false, false, Some(Fence::FenceRRw)));
    assert_eq!(
        riscv_load(Ordering::SeqCst),
        plan(Some(Fence::FenceRwRw), false, false, Some(Fence::FenceRRw))
    );
    assert_eq!(riscv_store(Ordering::Relaxed), plan(None, false, false, None));
    assert_eq!(riscv_store(Ordering::Release), plan(Some(Fence::FenceRwW), false, false, None));
    assert_eq!(riscv_store(Ordering::SeqCst), plan(Some(Fence::FenceRwW), false, false, None));
    assert_eq!(riscv_amo(Ordering::Acquire), plan(None, true, false, None));
    assert_eq!(riscv_amo(Ordering::Release), plan(None, false, true, None));
    assert_eq!(riscv_amo(Ordering::AcqRel), plan(None, true, true, None));
}

#[test]
fn s390x_store_fences() {
    assert_eq!(s390x_store(Ordering::Relaxed, true), None);
    assert_eq!(s390x_store(Ordering::Release, false), None);
    assert_eq!(s390x_store(Ordering::SeqCst, true), Some(Fence::BcrFast));
    assert_eq!(s390x_store(Ordering::SeqCst, false), Some(Fence::BcrFull));
}

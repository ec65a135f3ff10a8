use atomic_maybe_uninit::memory::Width;
use atomic_maybe_uninit::partword::{
    create_mask_values, extract, insert, sign_extend, MaskValues,
};
use atomic_maybe_uninit::retry::{begin, step, LoopAction, LoopEvent, LoopOp, LoopState};
use atomic_maybe_uninit::s390x::{complement, extract_cc};
use atomic_maybe_uninit::strategy::{select, Arch, Caps, OpKind, Strategy};

#[test]
fn condition_code_after_ipm() {
    // ipm leaves the condition code in bits 28 and 29, the program mask below it
    assert!(extract_cc(0x0000_0000));
    assert!(extract_cc(0x0f00_0000));
    assert!(extract_cc(0x1234_5678_0000_0000u64 as i64));
    assert!(!extract_cc(0x1000_0000));
    assert!(!extract_cc(0x2000_0000));
    assert!(!extract_cc(0x3f00_0000));
    assert!(!extract_cc(0xffff_ffff_1000_0000u64 as i64));
}

#[test]
fn complement_negates_modulo_word() {
    assert_eq!(complement(0), 0);
    assert_eq!(complement(1), 0xffff_ffff);
    assert_eq!(complement(8), 0xffff_fff8);
    assert_eq!(complement(24), 0u32.wrapping_sub(24));
    assert_eq!(complement(0x8000_0000), 0x8000_0000);
}

#[test]
fn mask_values_in_both_byte_orders() {
    assert_eq!(
        create_mask_values(0x1003, 1, false),
        MaskValues { aligned: 0x1000, shift: 24, mask: 0xff00_0000 }
    );
    assert_eq!(
        create_mask_values(0x1003, 1, true),
        MaskValues { aligned: 0x1000, shift: 0, mask: 0xff }
    );
    assert_eq!(
        create_mask_values(0x1001, 1, true),
        MaskValues { aligned: 0x1000, shift: 16, mask: 0x00ff_0000 }
    );
    assert_eq!(
        create_mask_values(0x2002, 2, false),
        MaskValues { aligned: 0x2000, shift: 16, mask: 0xffff_0000 }
    );
    assert_eq!(
        create_mask_values(0x2002, 2, true),
        MaskValues { aligned: 0x2000, shift: 0, mask: 0xffff }
    );
    assert_eq!(
        create_mask_values(0x2000, 2, true),
        MaskValues { aligned: 0x2000, shift: 16, mask: 0xffff_0000 }
    );
}

#[test]
fn field_insert_and_extract() {
    let w = 0x1122_3344u32;
    for shift in [0u32, 8, 16, 24] {
        let x = insert(w, shift, 1, 0x1ab);
        assert_eq!(extract(x, shift, 1), 0xab);
        assert_eq!(x & !(0xff << shift), w & !(0xff << shift));
    }
    assert_eq!(insert(w, 16, 2, 0xbeef), 0xbeef_3344);
    assert_eq!(extract(0xbeef_3344, 16, 2), 0xbeef);
    assert_eq!(extract(0xbeef_3344, 8, 1), 0x33);
}

#[test]
fn sign_extension_of_sub_words() {
    assert_eq!(sign_extend(0x7f, 1), 127);
    assert_eq!(sign_extend(0x80, 1), -128);
    assert_eq!(sign_extend(0xff, 1), -1);
    assert_eq!(sign_extend(0x7fff, 2), 32767);
    assert_eq!(sign_extend(0x8000, 2), -32768);
    assert_eq!(sign_extend(0xfffe, 2), -2);
}

#[test]
fn swap_loop_retries_until_the_store_commits() {
    let op = LoopOp::Swap { new: 9 };
    let (mut state, mut action) = begin();
    assert_eq!(action, LoopAction::LoadExclusive);
    let mut attempts = 0;
    for committed in [false, false, true] {
        assert_eq!(action, LoopAction::LoadExclusive);
        (state, action) = step(op, state, LoopEvent::Loaded { value: 4 });
        assert_eq!(action, LoopAction::StoreConditional { value: 9 });
        (state, action) = step(op, state, LoopEvent::Stored { committed });
        attempts += 1;
    }
    assert_eq!(attempts, 3);
    assert_eq!(state, LoopState::Done { prior: 4 });
    assert_eq!(action, LoopAction::Finish);
}

#[test]
fn compare_exchange_loop_aborts_on_mismatch() {
    let op = LoopOp::CompareExchange { expected: 1, new: 2 };
    let (state, _) = begin();
    let (state, action) = step(op, state, LoopEvent::Loaded { value: 5 });
    assert_eq!(state, LoopState::Aborted { prior: 5 });
    assert_eq!(action, LoopAction::ClearReservation);

    let (state, _) = begin();
    let (state, action) = step(op, state, LoopEvent::Loaded { value: 1 });
    assert_eq!(action, LoopAction::StoreConditional { value: 2 });
    let (state, action) = step(op, state, LoopEvent::Stored { committed: true });
    assert_eq!(state, LoopState::Done { prior: 1 });
    assert_eq!(action, LoopAction::Finish);
}

#[test]
fn capability_dispatch() {
    let none = Caps { wide: true, lse: false, lse2: false };
    let lse = Caps { wide: true, lse: true, lse2: false };
    let lse2 = Caps { wide: true, lse: true, lse2: true };
    let narrow = Caps { wide: false, lse: false, lse2: false };
    assert_eq!(select(Arch::Aarch64, none, Width::W32, OpKind::Swap), Strategy::ExclusiveLoop);
    assert_eq!(select(Arch::Aarch64, lse, Width::W32, OpKind::Swap), Strategy::Single);
    assert_eq!(
        select(Arch::Aarch64, none, Width::W8, OpKind::CompareExchangeWeak),
        Strategy::ExclusiveAttempt
    );
    assert_eq!(select(Arch::Aarch64, lse2, Width::W128, OpKind::Load), Strategy::PlainPair);
    assert_eq!(select(Arch::Aarch64, lse, Width::W128, OpKind::Load), Strategy::SinglePair);
    assert_eq!(
        select(Arch::Aarch64, none, Width::W128, OpKind::Load),
        Strategy::ExclusivePairLoop
    );
    assert_eq!(
        select(Arch::Aarch64, lse2, Width::W128, OpKind::Swap),
        Strategy::ExclusivePairLoop
    );
    assert_eq!(
        select(Arch::Aarch64, lse, Width::W128, OpKind::CompareExchange),
        Strategy::SinglePair
    );
    assert_eq!(select(Arch::Armv8, none, Width::W64, OpKind::Load), Strategy::SinglePair);
    assert_eq!(select(Arch::Armv8, none, Width::W128, OpKind::Load), Strategy::Unsupported);
    assert_eq!(select(Arch::Mips, narrow, Width::W16, OpKind::Swap), Strategy::SubWord);
    assert_eq!(select(Arch::Mips, narrow, Width::W64, OpKind::Load), Strategy::Unsupported);
    assert_eq!(select(Arch::Mips, none, Width::W64, OpKind::Swap), Strategy::ExclusiveLoop);
    assert_eq!(select(Arch::RiscV, none, Width::W64, OpKind::Swap), Strategy::Single);
    assert_eq!(select(Arch::RiscV, none, Width::W8, OpKind::Load), Strategy::Plain);
    assert_eq!(select(Arch::S390x, none, Width::W8, OpKind::Swap), Strategy::SubWord);
    assert_eq!(select(Arch::S390x, none, Width::W64, OpKind::Swap), Strategy::CasLoop);
    assert_eq!(select(Arch::S390x, none, Width::W32, OpKind::CompareExchange), Strategy::Single);
    assert_eq!(select(Arch::S390x, none, Width::W128, OpKind::Swap), Strategy::CasPairLoop);
    assert_eq!(select(Arch::S390x, none, Width::W128, OpKind::Store), Strategy::SinglePair);
}

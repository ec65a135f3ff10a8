//! Capability dispatch: which instruction sequence each architecture uses for
//! an operation of a given width, from the capabilities fixed when it is built.
use vstd::prelude::*;
use crate::memory::Width;

verus! {

/// A supported architecture family.
#[derive(Clone, Copy, Debug, PartialEq, Eq, Structural)]
pub enum Arch {
    /// 64-bit ARM.
    Aarch64,
    /// 32-bit ARM, version 8.
    Armv8,
    /// MIPS, 32- or 64-bit.
    Mips,
    /// RISC-V, 32- or 64-bit.
    RiscV,
    /// z/Architecture.
    S390x,
}

/// The capabilities that select among instruction variants.
#[derive(Clone, Copy, Debug, PartialEq, Eq, Structural)]
pub struct Caps {
    /// 64-bit general registers (the 64-bit forms of MIPS and RISC-V).
    pub wide: bool,
    /// ARM's large-system extension: single swap and compare-and-swap instructions.
    pub lse: bool,
    /// ARM's second large-system extension: an aligned plain pair access is atomic.
    pub lse2: bool,
}

/// An operation kind.
#[derive(Clone, Copy, Debug, PartialEq, Eq, Structural)]
pub enum OpKind {
    Load,
    Store,
    Swap,
    CompareExchange,
    CompareExchangeWeak,
}

/// An instruction sequence that realises an operation.
#[derive(Clone, Copy, Debug, PartialEq, Eq, Structural)]
pub enum Strategy {
    /// One plain (or ordered) load or store.
    Plain,
    /// One plain paired load or store, atomic because it is aligned.
    PlainPair,
    /// One atomic instruction: swap, compare-and-swap, or an atomic memory operation.
    Single,
    /// One atomic instruction on a register pair.
    SinglePair,
    /// A load-exclusive / store-conditional retry loop.
    ExclusiveLoop,
    /// One load-exclusive / store-conditional attempt, which may fail spuriously.
    ExclusiveAttempt,
    /// A load-exclusive / store-conditional retry loop on a register pair.
    ExclusivePairLoop,
    /// One load-exclusive / store-conditional attempt on a register pair.
    ExclusivePairAttempt,
    /// A compare-and-swap retry loop.
    CasLoop,
    /// A compare-and-swap retry loop on a register pair.
    CasPairLoop,
    /// A word-wide loop that replaces the operand's bits of the containing word.
    SubWord,
    /// The architecture offers no sequence for this width and operation.
    Unsupported,
}

/// The widest operand that the architecture handles in one general register.
pub open spec fn register_bytes(arch: Arch, caps: Caps) -> nat {
    match arch {
        Arch::Aarch64 | Arch::S390x => 8,
        Arch::Armv8 => 4,
        Arch::Mips | Arch::RiscV => if caps.wide {
            8
        } else {
            4
        },
    }
}

/// The architecture handles operands of twice its register width.
pub open spec fn has_double_width(arch: Arch) -> bool {
    arch == Arch::Aarch64 || arch == Arch::Armv8 || arch == Arch::S390x
}

pub open spec fn is_rmw(op: OpKind) -> bool {
    op != OpKind::Load && op != OpKind::Store
}

/// What each architecture does.
pub open spec fn spec_select(arch: Arch, caps: Caps, width: Width, op: OpKind) -> Strategy {
    let n = width.spec_size();
    let reg = register_bytes(arch, caps);
    if n > 2 * reg || (n == 2 * reg && !has_double_width(arch)) {
        Strategy::Unsupported
    } else if n == 2 * reg {
        match arch {
            Arch::Aarch64 => match op {
                OpKind::Load => if caps.lse2 {
                    Strategy::PlainPair
                } else if caps.lse {
                    Strategy::SinglePair
                } else {
                    Strategy::ExclusivePairLoop
                },
                OpKind::Store => if caps.lse2 {
                    Strategy::PlainPair
                } else {
                    Strategy::ExclusivePairLoop
                },
                OpKind::Swap => Strategy::ExclusivePairLoop,
                _ => if caps.lse {
                    Strategy::SinglePair
                } else {
                    Strategy::ExclusivePairLoop
                },
            },
            Arch::Armv8 => match op {
                OpKind::Load => Strategy::SinglePair,
                OpKind::CompareExchangeWeak => Strategy::ExclusivePairAttempt,
                _ => Strategy::ExclusivePairLoop,
            },
            _ => match op {
                OpKind::Load | OpKind::Store => Strategy::SinglePair,
                OpKind::Swap => Strategy::CasPairLoop,
                _ => Strategy::SinglePair,
            },
        }
    } else if !is_rmw(op) {
        Strategy::Plain
    } else {
        match arch {
            Arch::Aarch64 => if caps.lse {
                Strategy::Single
            } else if op == OpKind::CompareExchangeWeak {
                Strategy::ExclusiveAttempt
            } else {
                Strategy::ExclusiveLoop
            },
            Arch::Armv8 => if op == OpKind::CompareExchangeWeak {
                Strategy::ExclusiveAttempt
            } else {
                Strategy::ExclusiveLoop
            },
            Arch::Mips => if n < 4 {
                Strategy::SubWord
            } else {
                Strategy::ExclusiveLoop
            },
            Arch::RiscV => if n >= 4 && op == OpKind::Swap {
                Strategy::Single
            } else {
                Strategy::Unsupported
            },
            Arch::S390x => if n < 4 {
                Strategy::SubWord
            } else if op == OpKind::Swap {
                Strategy::CasLoop
            } else {
                Strategy::Single
            },
        }
    }
}

/// The instruction sequence for `op` on operands of `width`. Operands wider
/// than a register pair, and double-width ones where the architecture has no
/// pair instructions, are unsupported. Loads and stores up to the register
/// width are single plain accesses; read-modify-writes take the
/// architecture's atomic instruction where it has one, and otherwise a retry
/// loop, or the word-wide loop for 8- and 16-bit operands.
pub fn select(arch: Arch, caps: Caps, width: Width, op: OpKind) -> (r: Strategy)
    ensures
        r == spec_select(arch, caps, width, op),
        r == Strategy::SubWord ==> (width == Width::W8 || width == Width::W16) && is_rmw(op),
        r == Strategy::ExclusiveAttempt || r == Strategy::ExclusivePairAttempt ==> op
            == OpKind::CompareExchangeWeak,
        (width == Width::W32 && arch != Arch::RiscV) ==> r != Strategy::Unsupported,
{
    let n = width.size();
    let reg: usize = match arch {
        Arch::Aarch64 | Arch::S390x => 8,
        Arch::Armv8 => 4,
        Arch::Mips | Arch::RiscV => if caps.wide {
            8
        } else {
            4
        },
    };
    let double = match arch {
        Arch::Aarch64 | Arch::Armv8 | Arch::S390x => true,
        _ => false,
    };
    let rmw = match op {
        OpKind::Load | OpKind::Store => false,
        _ => true,
    };
    if n > 2 * reg || (n == 2 * reg && !double) {
        Strategy::Unsupported
    } else if n == 2 * reg {
        match arch {
            Arch::Aarch64 => match op {
                OpKind::Load => if caps.lse2 {
                    Strategy::PlainPair
                } else if caps.lse {
                    Strategy::SinglePair
                } else {
                    Strategy::ExclusivePairLoop
                },
                OpKind::Store => if caps.lse2 {
                    Strategy::PlainPair
                } else {
                    Strategy::ExclusivePairLoop
                },
                OpKind::Swap => Strategy::ExclusivePairLoop,
                _ => if caps.lse {
                    Strategy::SinglePair
                } else {
                    Strategy::ExclusivePairLoop
                },
            },
            Arch::Armv8 => match op {
                OpKind::Load => Strategy::SinglePair,
                OpKind::CompareExchangeWeak => Strategy::ExclusivePairAttempt,
                _ => Strategy::ExclusivePairLoop,
            },
            _ => match op {
                OpKind::Load | OpKind::Store => Strategy::SinglePair,
                OpKind::Swap => Strategy::CasPairLoop,
                _ => Strategy::SinglePair,
            },
        }
    } else if !rmw {
        Strategy::Plain
    } else {
        let weak = op == OpKind::CompareExchangeWeak;
        match arch {
            Arch::Aarch64 => if caps.lse {
                Strategy::Single
            } else if weak {
                Strategy::ExclusiveAttempt
            } else {
                Strategy::ExclusiveLoop
            },
            Arch::Armv8 => if weak {
                Strategy::ExclusiveAttempt
            } else {
                Strategy::ExclusiveLoop
            },
            Arch::Mips => if n < 4 {
                Strategy::SubWord
            } else {
                Strategy::ExclusiveLoop
            },
            Arch::RiscV => if n >= 4 && op == OpKind::Swap {
                Strategy::Single
            } else {
                Strategy::Unsupported
            },
            Arch::S390x => if n < 4 {
                Strategy::SubWord
            } else if op == OpKind::Swap {
                Strategy::CasLoop
            } else {
                Strategy::Single
            },
        }
    }
}

} // verus!

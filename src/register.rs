use vstd::prelude::*;

verus! {

/// The CPU registers that a session can read: general-purpose registers, the
/// instruction pointer and flags, control registers, segment selectors, and
/// the base and limit of the descriptor tables.
#[allow(non_camel_case_types)]
#[derive(Clone, Copy, Debug, PartialEq, Eq, Structural)]
pub enum RegisterType {
    RAX,
    RBX,
    RCX,
    RDX,
    RSI,
    RDI,
    RSP,
    RBP,
    RIP,
    RFLAGS,
    CR0,
    CR2,
    CR3,
    CR4,
    CR8,
    R8,
    R9,
    R10,
    R11,
    R12,
    R13,
    R14,
    R15,
    CS,
    DS,
    ES,
    FS,
    GS,
    SS,
    GDTR_BASE,
    GDTR_LIMIT,
    IDTR_BASE,
    IDTR_LIMIT,
    LDTR,
    LDTR_BASE,
    LDTR_LIMIT,
}

} // verus!

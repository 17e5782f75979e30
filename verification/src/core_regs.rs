//! AArch64 core-register identifiers and the bulk snapshot/restore plan.
//!
//! A register identifier is built bit-exactly for the host kernel's
//! one-register access interface: `class_tag | width_tag | group_tag |
//! (byte_offset / 4)`, where the byte offset is the field's position inside
//! the canonical machine register-file layout
//!
//! ```text
//! struct kvm_regs {
//!     struct user_pt_regs { __u64 regs[31]; __u64 sp; __u64 pc; __u64 pstate; } regs;
//!     __u64 sp_el1;
//!     __u64 elr_el1;
//!     __u64 spsr[KVM_NR_SPSR];
//!     struct user_fpsimd_state { __uint128_t vregs[32]; __u32 fpsr; __u32 fpcr; } fp_regs;
//! }
//! ```
//!
//! indexed as if it were an array of 32-bit words.  The floating-point block
//! is aligned to 16 bytes, which puts it at byte offset 336.
//!
//! Bulk capture reads one value per register in a fixed canonical order, and
//! bulk restore writes the same registers in the identical order, so that the
//! two operations are reciprocal.  The actual one-register reads and writes
//! are host calls issued by the embedding program; this module produces the
//! exact identifier sequence and converts between the read values and the
//! `RegisterFile` snapshot.

use vstd::prelude::*;

verus! {

/// Architecture class tag of every AArch64 register identifier.
pub const KVM_REG_ARM64: u64 = 0x6000_0000_0000_0000;

/// Width tag: the register is accessed as a 32-bit value.
pub const KVM_REG_SIZE_U32: u64 = 0x0020_0000_0000_0000;

/// Width tag: the register is accessed as a 64-bit value.
pub const KVM_REG_SIZE_U64: u64 = 0x0030_0000_0000_0000;

/// Width tag: the register is accessed as a 128-bit value.
pub const KVM_REG_SIZE_U128: u64 = 0x0040_0000_0000_0000;

/// Group tag of the core register block.
pub const KVM_REG_ARM_CORE: u64 = 0x0010_0000;

/// Count of general-purpose registers.
pub const KVM_NR_REGS: usize = 31;

/// Count of saved-program-status registers.
pub const KVM_NR_SPSR: usize = 5;

/// Count of SIMD vector registers.
pub const KVM_NR_FP_REGS: usize = 32;

/// Byte offset of the general-purpose register array.
pub const OFF_REGS: usize = 0;

/// Byte offset of the stack pointer.
pub const OFF_SP: usize = 248;

/// Byte offset of the program counter.
pub const OFF_PC: usize = 256;

/// Byte offset of the processor state.
pub const OFF_PSTATE: usize = 264;

/// Byte offset of the exception-level-1 stack pointer.
pub const OFF_SP_EL1: usize = 272;

/// Byte offset of the exception-level-1 link register.
pub const OFF_ELR_EL1: usize = 280;

/// Byte offset of the saved-program-status register array.
pub const OFF_SPSR: usize = 288;

/// Byte offset of the SIMD vector register array.
pub const OFF_VREGS: usize = 336;

/// Byte offset of the floating-point status register.
pub const OFF_FPSR: usize = 848;

/// Byte offset of the floating-point control register.
pub const OFF_FPCR: usize = 852;

/// AArch64 cpu core register.
///
/// Index-bearing variants are only meaningful below their class's fixed
/// count; an out-of-range index is a caller error, rejected by
/// [`Arm64CoreRegs::try_register_id`] and excluded by the precondition of
/// [`Arm64CoreRegs::register_id`].
#[derive(Clone, Copy, Debug, PartialEq, Eq, Structural)]
pub enum Arm64CoreRegs {
    KvmSpEl1,
    KvmElrEl1,
    KvmSpsr(usize),
    UserPTRegRegs(usize),
    UserPTRegSp,
    UserPTRegPc,
    UserPTRegPState,
    UserFPSIMDStateVregs(usize),
    UserFPSIMDStateFpsr,
    UserFPSIMDStateFpcr,
}

impl Arm64CoreRegs {
    /// An index-bearing variant is valid only below its class's fixed count.
    pub open spec fn is_valid(self) -> bool {
        match self {
            Arm64CoreRegs::KvmSpsr(idx) => idx < KVM_NR_SPSR,
            Arm64CoreRegs::UserPTRegRegs(idx) => idx < KVM_NR_REGS,
            Arm64CoreRegs::UserFPSIMDStateVregs(idx) => idx < KVM_NR_FP_REGS,
            _ => true,
        }
    }

    /// Byte offset of the register's field within the canonical layout.
    pub open spec fn reg_offset(self) -> int {
        match self {
            Arm64CoreRegs::KvmSpEl1 => OFF_SP_EL1 as int,
            Arm64CoreRegs::KvmElrEl1 => OFF_ELR_EL1 as int,
            Arm64CoreRegs::KvmSpsr(idx) => OFF_SPSR + idx * 8,
            Arm64CoreRegs::UserPTRegRegs(idx) => OFF_REGS + idx * 8,
            Arm64CoreRegs::UserPTRegSp => OFF_SP as int,
            Arm64CoreRegs::UserPTRegPc => OFF_PC as int,
            Arm64CoreRegs::UserPTRegPState => OFF_PSTATE as int,
            Arm64CoreRegs::UserFPSIMDStateVregs(idx) => OFF_VREGS + idx * 16,
            Arm64CoreRegs::UserFPSIMDStateFpsr => OFF_FPSR as int,
            Arm64CoreRegs::UserFPSIMDStateFpcr => OFF_FPCR as int,
        }
    }

    /// Width tag: 64-bit for scalar and system registers, 128-bit for SIMD
    /// vectors, 32-bit for the floating-point status and control words.
    pub open spec fn reg_size_tag(self) -> u64 {
        match self {
            Arm64CoreRegs::UserFPSIMDStateVregs(_) => KVM_REG_SIZE_U128,
            Arm64CoreRegs::UserFPSIMDStateFpsr => KVM_REG_SIZE_U32,
            Arm64CoreRegs::UserFPSIMDStateFpcr => KVM_REG_SIZE_U32,
            _ => KVM_REG_SIZE_U64,
        }
    }

    /// The bit-exact register identifier of the host interface.
    pub open spec fn reg_id_spec(self) -> u64 {
        KVM_REG_ARM64 | self.reg_size_tag() | KVM_REG_ARM_CORE | ((self.reg_offset() / 4) as u64)
    }

    /// Encode the register identifier.  Only valid variants may be encoded;
    /// an out-of-range index is a programming-contract violation and is
    /// rejected before this point (see [`Arm64CoreRegs::try_register_id`]).
    pub fn register_id(&self) -> (id: u64)
        requires
            self.is_valid(),
        ensures
            id == self.reg_id_spec(),
    {
        let (register_size, reg_offset): (u64, usize) = match *self {
            Arm64CoreRegs::KvmSpEl1 => (KVM_REG_SIZE_U64, OFF_SP_EL1),
            Arm64CoreRegs::KvmElrEl1 => (KVM_REG_SIZE_U64, OFF_ELR_EL1),
            Arm64CoreRegs::KvmSpsr(idx) => (KVM_REG_SIZE_U64, OFF_SPSR + idx * 8),
            Arm64CoreRegs::UserPTRegRegs(idx) => (KVM_REG_SIZE_U64, OFF_REGS + idx * 8),
            Arm64CoreRegs::UserPTRegSp => (KVM_REG_SIZE_U64, OFF_SP),
            Arm64CoreRegs::UserPTRegPc => (KVM_REG_SIZE_U64, OFF_PC),
            Arm64CoreRegs::UserPTRegPState => (KVM_REG_SIZE_U64, OFF_PSTATE),
            Arm64CoreRegs::UserFPSIMDStateVregs(idx) => (KVM_REG_SIZE_U128, OFF_VREGS + idx * 16),
            Arm64CoreRegs::UserFPSIMDStateFpsr => (KVM_REG_SIZE_U32, OFF_FPSR),
            Arm64CoreRegs::UserFPSIMDStateFpcr => (KVM_REG_SIZE_U32, OFF_FPCR),
        };
        KVM_REG_ARM64 | register_size | KVM_REG_ARM_CORE | ((reg_offset / 4) as u64)
    }

    /// Encode the register identifier, rejecting any index-bearing variant
    /// whose index is at or above its class's fixed count.
    pub fn try_register_id(&self) -> (r: Option<u64>)
        ensures
            r is Some <==> self.is_valid(),
            r matches Some(id) ==> id == self.reg_id_spec(),
    {
        let valid = match *self {
            Arm64CoreRegs::KvmSpsr(idx) => idx < KVM_NR_SPSR,
            Arm64CoreRegs::UserPTRegRegs(idx) => idx < KVM_NR_REGS,
            Arm64CoreRegs::UserFPSIMDStateVregs(idx) => idx < KVM_NR_FP_REGS,
            _ => true,
        };
        if valid {
            Some(self.register_id())
        } else {
            None
        }
    }
}

/// The identifier determines the width tag and the 32-bit-word offset: the
/// word offset occupies the low bits and is small, the width tag sits in its
/// own bit range.
proof fn lemma_id_components(v: Arm64CoreRegs)
    requires
        v.is_valid(),
    ensures
        v.reg_id_spec() & 0xffff == (v.reg_offset() / 4) as u64,
        v.reg_id_spec() & 0x00f0_0000_0000_0000 == v.reg_size_tag(),
        v.reg_offset() / 4 < 0x10000,
{
    let w = (v.reg_offset() / 4) as u64;
    let s = v.reg_size_tag();
    assert(0 <= v.reg_offset() / 4 < 0x10000);
    assert(s == 0x0020_0000_0000_0000 || s == 0x0030_0000_0000_0000 || s
        == 0x0040_0000_0000_0000);
    assert(w < 0x10000 && (s == 0x0020_0000_0000_0000u64 || s == 0x0030_0000_0000_0000u64 || s
        == 0x0040_0000_0000_0000u64) ==> ((0x6000_0000_0000_0000u64 | s | 0x0010_0000u64 | w)
        & 0xffff == w && (0x6000_0000_0000_0000u64 | s | 0x0010_0000u64 | w)
        & 0x00f0_0000_0000_0000 == s)) by (bit_vector);
}

/// No two valid registers collide on the same identifier: the encoding is
/// injective over valid variants (and deterministic, being a function).
pub proof fn lemma_register_id_injective(a: Arm64CoreRegs, b: Arm64CoreRegs)
    requires
        a.is_valid(),
        b.is_valid(),
        a.reg_id_spec() == b.reg_id_spec(),
    ensures
        a == b,
{
    lemma_id_components(a);
    lemma_id_components(b);
    assert(a.reg_offset() / 4 == b.reg_offset() / 4 && a.reg_size_tag() == b.reg_size_tag());
    assert(a.reg_offset() == b.reg_offset());
}

/// The full register snapshot of one virtual CPU at one instant, produced
/// wholesale by a bulk read and consumed wholesale by a bulk write.
pub struct RegisterFile {
    /// General-purpose registers, ascending by index.
    pub regs: Vec<u64>,
    /// Stack pointer.
    pub sp: u64,
    /// Program counter.
    pub pc: u64,
    /// Processor state.
    pub pstate: u64,
    /// Exception-level-1 stack pointer.
    pub sp_el1: u64,
    /// Exception-level-1 link register.
    pub elr_el1: u64,
    /// Saved-program-status registers, ascending by exception-level index.
    pub spsr: Vec<u64>,
    /// SIMD vector registers, ascending by index.
    pub vregs: Vec<u128>,
    /// Floating-point status register.
    pub fpsr: u32,
    /// Floating-point control register.
    pub fpcr: u32,
}

/// Mathematical model of a register file snapshot.
#[verifier::ext_equal]
pub ghost struct RegisterFileView {
    pub regs: Seq<u64>,
    pub sp: u64,
    pub pc: u64,
    pub pstate: u64,
    pub sp_el1: u64,
    pub elr_el1: u64,
    pub spsr: Seq<u64>,
    pub vregs: Seq<u128>,
    pub fpsr: u32,
    pub fpcr: u32,
}

impl View for RegisterFile {
    type V = RegisterFileView;

    open spec fn view(&self) -> RegisterFileView {
        RegisterFileView {
            regs: self.regs@,
            sp: self.sp,
            pc: self.pc,
            pstate: self.pstate,
            sp_el1: self.sp_el1,
            elr_el1: self.elr_el1,
            spsr: self.spsr@,
            vregs: self.vregs@,
            fpsr: self.fpsr,
            fpcr: self.fpcr,
        }
    }
}

/// A well-formed snapshot holds exactly one slot per register of each class.
pub open spec fn file_wf(v: RegisterFileView) -> bool {
    v.regs.len() == KVM_NR_REGS && v.spsr.len() == KVM_NR_SPSR && v.vregs.len() == KVM_NR_FP_REGS
}

/// Number of one-register accesses in one bulk capture or restore.
pub const CORE_REG_COUNT: usize = 75;

/// The register read (and written) at position `i` of the canonical order:
/// stack pointer; exception-level-1 stack pointer; processor state; program
/// counter; exception-level-1 link register; all general-purpose registers
/// ascending; all saved-program-status registers ascending; all SIMD vector
/// registers ascending; floating-point status; floating-point control.
pub open spec fn canonical_variant(i: int) -> Arm64CoreRegs {
    if i == 0 {
        Arm64CoreRegs::UserPTRegSp
    } else if i == 1 {
        Arm64CoreRegs::KvmSpEl1
    } else if i == 2 {
        Arm64CoreRegs::UserPTRegPState
    } else if i == 3 {
        Arm64CoreRegs::UserPTRegPc
    } else if i == 4 {
        Arm64CoreRegs::KvmElrEl1
    } else if 5 <= i < 36 {
        Arm64CoreRegs::UserPTRegRegs((i - 5) as usize)
    } else if 36 <= i < 41 {
        Arm64CoreRegs::KvmSpsr((i - 36) as usize)
    } else if 41 <= i < 73 {
        Arm64CoreRegs::UserFPSIMDStateVregs((i - 41) as usize)
    } else if i == 73 {
        Arm64CoreRegs::UserFPSIMDStateFpsr
    } else {
        Arm64CoreRegs::UserFPSIMDStateFpcr
    }
}

/// The canonical identifier sequence of one bulk capture or restore.
pub open spec fn canonical_ids() -> Seq<u64> {
    Seq::new(CORE_REG_COUNT as nat, |i: int| canonical_variant(i).reg_id_spec())
}

/// The value a snapshot holds for one register, widened to the 128 bits the
/// one-register interface exchanges.
pub open spec fn read_variant(v: RegisterFileView, r: Arm64CoreRegs) -> u128 {
    match r {
        Arm64CoreRegs::KvmSpEl1 => v.sp_el1 as u128,
        Arm64CoreRegs::KvmElrEl1 => v.elr_el1 as u128,
        Arm64CoreRegs::KvmSpsr(idx) => v.spsr[idx as int] as u128,
        Arm64CoreRegs::UserPTRegRegs(idx) => v.regs[idx as int] as u128,
        Arm64CoreRegs::UserPTRegSp => v.sp as u128,
        Arm64CoreRegs::UserPTRegPc => v.pc as u128,
        Arm64CoreRegs::UserPTRegPState => v.pstate as u128,
        Arm64CoreRegs::UserFPSIMDStateVregs(idx) => v.vregs[idx as int],
        Arm64CoreRegs::UserFPSIMDStateFpsr => v.fpsr as u128,
        Arm64CoreRegs::UserFPSIMDStateFpcr => v.fpcr as u128,
    }
}

/// The value sequence a bulk restore writes, in canonical order.
pub open spec fn file_values(v: RegisterFileView) -> Seq<u128> {
    Seq::new(CORE_REG_COUNT as nat, |i: int| read_variant(v, canonical_variant(i)))
}

/// The snapshot a bulk capture assembles from the values read in canonical
/// order, truncated to each register's width.
pub open spec fn file_of_values(vals: Seq<u128>) -> RegisterFileView {
    RegisterFileView {
        sp: vals[0] as u64,
        sp_el1: vals[1] as u64,
        pstate: vals[2] as u64,
        pc: vals[3] as u64,
        elr_el1: vals[4] as u64,
        regs: Seq::new(KVM_NR_REGS as nat, |i: int| vals[5 + i] as u64),
        spsr: Seq::new(KVM_NR_SPSR as nat, |i: int| vals[36 + i] as u64),
        vregs: Seq::new(KVM_NR_FP_REGS as nat, |i: int| vals[41 + i]),
        fpsr: vals[73] as u32,
        fpcr: vals[74] as u32,
    }
}

/// The value fits the width of the register it is exchanged for, as every
/// value actually read from the machine does.
pub open spec fn fits_width(r: Arm64CoreRegs, x: u128) -> bool {
    if r.reg_size_tag() == KVM_REG_SIZE_U128 {
        true
    } else if r.reg_size_tag() == KVM_REG_SIZE_U32 {
        x <= u32::MAX as u128
    } else {
        x <= u64::MAX as u128
    }
}

impl RegisterFile {
    /// Well-formedness of the snapshot.
    pub open spec fn wf(&self) -> bool {
        file_wf(self@)
    }

    /// Assemble a snapshot from the values of one bulk read, given in
    /// canonical order.  Each value is truncated to its register's width,
    /// exactly as the one-register interface delivers it.
    pub fn from_values(values: &Vec<u128>) -> (f: RegisterFile)
        requires
            values@.len() == CORE_REG_COUNT,
        ensures
            f.wf(),
            f@ == file_of_values(values@),
    {
        let mut regs: Vec<u64> = Vec::new();
        for i in 0..KVM_NR_REGS
            invariant
                values@.len() == CORE_REG_COUNT,
                regs@.len() == i,
                forall|j: int| 0 <= j < i ==> regs@[j] == values@[5 + j] as u64,
        {
            regs.push(#[verifier::truncate] (values[5 + i] as u64));
        }
        let mut spsr: Vec<u64> = Vec::new();
        for i in 0..KVM_NR_SPSR
            invariant
                values@.len() == CORE_REG_COUNT,
                spsr@.len() == i,
                forall|j: int| 0 <= j < i ==> spsr@[j] == values@[36 + j] as u64,
        {
            spsr.push(#[verifier::truncate] (values[36 + i] as u64));
        }
        let mut vregs: Vec<u128> = Vec::new();
        for i in 0..KVM_NR_FP_REGS
            invariant
                values@.len() == CORE_REG_COUNT,
                vregs@.len() == i,
                forall|j: int| 0 <= j < i ==> vregs@[j] == values@[41 + j],
        {
            vregs.push(values[41 + i]);
        }
        let f = RegisterFile {
            sp: #[verifier::truncate] (values[0] as u64),
            sp_el1: #[verifier::truncate] (values[1] as u64),
            pstate: #[verifier::truncate] (values[2] as u64),
            pc: #[verifier::truncate] (values[3] as u64),
            elr_el1: #[verifier::truncate] (values[4] as u64),
            regs,
            spsr,
            vregs,
            fpsr: #[verifier::truncate] (values[73] as u32),
            fpcr: #[verifier::truncate] (values[74] as u32),
        };
        proof {
            assert(f@.regs =~= file_of_values(values@).regs);
            assert(f@.spsr =~= file_of_values(values@).spsr);
            assert(f@.vregs =~= file_of_values(values@).vregs);
            assert(f@ =~= file_of_values(values@));
        }
        f
    }

    /// The values one bulk write issues, in canonical order; position `i`
    /// goes to the register identified by `canonical_ids()[i]`.
    pub fn to_values(&self) -> (values: Vec<u128>)
        requires
            self.wf(),
        ensures
            values@ == file_values(self@),
    {
        let mut values: Vec<u128> = Vec::new();
        values.push(self.sp as u128);
        values.push(self.sp_el1 as u128);
        values.push(self.pstate as u128);
        values.push(self.pc as u128);
        values.push(self.elr_el1 as u128);
        for i in 0..KVM_NR_REGS
            invariant
                self.wf(),
                values@.len() == 5 + i,
                forall|j: int| 0 <= j < 5 + i ==> values@[j] == file_values(self@)[j],
        {
            values.push(self.regs[i] as u128);
        }
        for i in 0..KVM_NR_SPSR
            invariant
                self.wf(),
                values@.len() == 36 + i,
                forall|j: int| 0 <= j < 36 + i ==> values@[j] == file_values(self@)[j],
        {
            values.push(self.spsr[i] as u128);
        }
        for i in 0..KVM_NR_FP_REGS
            invariant
                self.wf(),
                values@.len() == 41 + i,
                forall|j: int| 0 <= j < 41 + i ==> values@[j] == file_values(self@)[j],
        {
            values.push(self.vregs[i]);
        }
        values.push(self.fpsr as u128);
        values.push(self.fpcr as u128);
        proof {
            assert(values@ =~= file_values(self@));
        }
        values
    }
}

/// The canonical identifier sequence, one identifier per register, in the
/// order bulk capture reads and bulk restore writes.
pub fn capture_plan() -> (ids: Vec<u64>)
    ensures
        ids@ == canonical_ids(),
{
    let mut ids: Vec<u64> = Vec::new();
    ids.push(Arm64CoreRegs::UserPTRegSp.register_id());
    ids.push(Arm64CoreRegs::KvmSpEl1.register_id());
    ids.push(Arm64CoreRegs::UserPTRegPState.register_id());
    ids.push(Arm64CoreRegs::UserPTRegPc.register_id());
    ids.push(Arm64CoreRegs::KvmElrEl1.register_id());
    for i in 0..KVM_NR_REGS
        invariant
            ids@.len() == 5 + i,
            forall|j: int| 0 <= j < 5 + i ==> ids@[j] == canonical_ids()[j],
    {
        ids.push(Arm64CoreRegs::UserPTRegRegs(i).register_id());
    }
    for i in 0..KVM_NR_SPSR
        invariant
            ids@.len() == 36 + i,
            forall|j: int| 0 <= j < 36 + i ==> ids@[j] == canonical_ids()[j],
    {
        ids.push(Arm64CoreRegs::KvmSpsr(i).register_id());
    }
    for i in 0..KVM_NR_FP_REGS
        invariant
            ids@.len() == 41 + i,
            forall|j: int| 0 <= j < 41 + i ==> ids@[j] == canonical_ids()[j],
    {
        ids.push(Arm64CoreRegs::UserFPSIMDStateVregs(i).register_id());
    }
    ids.push(Arm64CoreRegs::UserFPSIMDStateFpsr.register_id());
    ids.push(Arm64CoreRegs::UserFPSIMDStateFpcr.register_id());
    proof {
        assert(ids@ =~= canonical_ids());
    }
    ids
}

/// Restoring the values of a snapshot reassembles that very snapshot:
/// a capture issued right after a restore (with the virtual CPU paused in
/// between) reads back the identical register file.
pub proof fn lemma_restore_capture_identity(v: RegisterFileView)
    requires
        file_wf(v),
    ensures
        file_of_values(file_values(v)) == v,
{
    assert(file_of_values(file_values(v)).regs =~= v.regs);
    assert(file_of_values(file_values(v)).spsr =~= v.spsr);
    assert(file_of_values(file_values(v)).vregs =~= v.vregs);
    assert(file_of_values(file_values(v)) =~= v);
}

/// A snapshot assembled from one bulk read writes back exactly the values
/// that were read: capture followed immediately by restore reproduces the
/// identical register file, value for value, as long as every value read
/// fits its register's width (as every value the machine delivers does).
pub proof fn lemma_capture_restore_identity(vals: Seq<u128>)
    requires
        vals.len() == CORE_REG_COUNT,
        forall|i: int| 0 <= i < CORE_REG_COUNT ==> fits_width(canonical_variant(i), vals[i]),
    ensures
        file_values(file_of_values(vals)) == vals,
{
    assert forall|i: int| 0 <= i < CORE_REG_COUNT implies file_values(file_of_values(vals))[i]
        == vals[i] by {
        assert(fits_width(canonical_variant(i), vals[i]));
    }
    assert(file_values(file_of_values(vals)) =~= vals);
}

/// Item-for-item form of the round trip: a restore that follows a capture
/// writes, at every position `i` of the canonical order, the register
/// `canonical_ids()[i]` with the very value the capture read there — both
/// operations run over the one identifier sequence `canonical_ids()`, so
/// capture followed immediately by restore reproduces the identical register
/// file.
pub proof fn lemma_restore_writes_what_capture_read(vals: Seq<u128>, i: int)
    requires
        vals.len() == CORE_REG_COUNT,
        forall|j: int| 0 <= j < CORE_REG_COUNT ==> fits_width(canonical_variant(j), vals[j]),
        0 <= i < CORE_REG_COUNT,
    ensures
        file_values(file_of_values(vals))[i] == vals[i],
{
    lemma_capture_restore_identity(vals);
}

} // verus!

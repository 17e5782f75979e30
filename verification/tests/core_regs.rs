use vmm_core::core_regs::{capture_plan, Arm64CoreRegs, RegisterFile, CORE_REG_COUNT};

// The class, width and group tags must match the host kernel's published
// values bit for bit.
#[test]
fn tags_match_the_host_interface() {
    assert_eq!(vmm_core::core_regs::KVM_REG_ARM64, kvm_bindings::KVM_REG_ARM64);
    assert_eq!(
        vmm_core::core_regs::KVM_REG_SIZE_U32,
        kvm_bindings::KVM_REG_SIZE_U32
    );
    assert_eq!(
        vmm_core::core_regs::KVM_REG_SIZE_U64,
        kvm_bindings::KVM_REG_SIZE_U64
    );
    assert_eq!(
        vmm_core::core_regs::KVM_REG_SIZE_U128,
        kvm_bindings::KVM_REG_SIZE_U128
    );
    // the group tag and the per-class counts are fixed by the target
    // architecture's interface
    assert_eq!(vmm_core::core_regs::KVM_REG_ARM_CORE, 0x0010_0000);
    assert_eq!(vmm_core::core_regs::KVM_NR_SPSR, 5);
}

// Identifiers computed against the canonical kvm_regs layout: the word
// offset of the field in the low bits, the tags above.
#[test]
fn register_ids_are_bit_exact() {
    assert_eq!(
        Arm64CoreRegs::UserPTRegRegs(0).register_id(),
        0x6030_0000_0010_0000
    );
    assert_eq!(
        Arm64CoreRegs::UserPTRegRegs(30).register_id(),
        0x6030_0000_0010_003c
    );
    assert_eq!(Arm64CoreRegs::UserPTRegSp.register_id(), 0x6030_0000_0010_003e);
    assert_eq!(Arm64CoreRegs::UserPTRegPc.register_id(), 0x6030_0000_0010_0040);
    assert_eq!(
        Arm64CoreRegs::UserPTRegPState.register_id(),
        0x6030_0000_0010_0042
    );
    assert_eq!(Arm64CoreRegs::KvmSpEl1.register_id(), 0x6030_0000_0010_0044);
    assert_eq!(Arm64CoreRegs::KvmElrEl1.register_id(), 0x6030_0000_0010_0046);
    assert_eq!(Arm64CoreRegs::KvmSpsr(0).register_id(), 0x6030_0000_0010_0048);
    assert_eq!(Arm64CoreRegs::KvmSpsr(4).register_id(), 0x6030_0000_0010_0050);
    assert_eq!(
        Arm64CoreRegs::UserFPSIMDStateVregs(0).register_id(),
        0x6040_0000_0010_0054
    );
    assert_eq!(
        Arm64CoreRegs::UserFPSIMDStateVregs(31).register_id(),
        0x6040_0000_0010_00d0
    );
    assert_eq!(
        Arm64CoreRegs::UserFPSIMDStateFpsr.register_id(),
        0x6020_0000_0010_00d4
    );
    assert_eq!(
        Arm64CoreRegs::UserFPSIMDStateFpcr.register_id(),
        0x6020_0000_0010_00d5
    );
}

// Indices at the top of each class succeed; at or above the count they fail.
#[test]
fn out_of_range_indices_fail_fast() {
    assert!(Arm64CoreRegs::UserPTRegRegs(30).try_register_id().is_some());
    assert!(Arm64CoreRegs::UserPTRegRegs(31).try_register_id().is_none());
    assert!(Arm64CoreRegs::KvmSpsr(4).try_register_id().is_some());
    assert!(Arm64CoreRegs::KvmSpsr(5).try_register_id().is_none());
    assert!(Arm64CoreRegs::UserFPSIMDStateVregs(31).try_register_id().is_some());
    assert!(Arm64CoreRegs::UserFPSIMDStateVregs(32).try_register_id().is_none());
    assert!(Arm64CoreRegs::UserFPSIMDStateVregs(usize::MAX).try_register_id().is_none());
}

// No two valid registers collide on one identifier.
#[test]
fn register_ids_do_not_collide() {
    let ids = capture_plan();
    assert_eq!(ids.len(), CORE_REG_COUNT);
    for i in 0..ids.len() {
        for j in 0..ids.len() {
            if i != j {
                assert_ne!(ids[i], ids[j]);
            }
        }
    }
}

// The canonical order: sp, sp_el1, pstate, pc, elr_el1, the general-purpose
// registers, the saved-program-status registers, the vector registers, fpsr,
// fpcr.
#[test]
fn capture_plan_is_canonical() {
    let ids = capture_plan();
    assert_eq!(ids[0], Arm64CoreRegs::UserPTRegSp.register_id());
    assert_eq!(ids[1], Arm64CoreRegs::KvmSpEl1.register_id());
    assert_eq!(ids[2], Arm64CoreRegs::UserPTRegPState.register_id());
    assert_eq!(ids[3], Arm64CoreRegs::UserPTRegPc.register_id());
    assert_eq!(ids[4], Arm64CoreRegs::KvmElrEl1.register_id());
    for i in 0..31 {
        assert_eq!(ids[5 + i], Arm64CoreRegs::UserPTRegRegs(i).register_id());
    }
    for i in 0..5 {
        assert_eq!(ids[36 + i], Arm64CoreRegs::KvmSpsr(i).register_id());
    }
    for i in 0..32 {
        assert_eq!(
            ids[41 + i],
            Arm64CoreRegs::UserFPSIMDStateVregs(i).register_id()
        );
    }
    assert_eq!(ids[73], Arm64CoreRegs::UserFPSIMDStateFpsr.register_id());
    assert_eq!(ids[74], Arm64CoreRegs::UserFPSIMDStateFpcr.register_id());
}

// A snapshot written out and read back is the identical register file.
#[test]
fn capture_restore_round_trip() {
    let mut values: Vec<u128> = Vec::new();
    for i in 0..CORE_REG_COUNT {
        if (41..73).contains(&i) {
            // vector registers carry full 128-bit values
            values.push((i as u128) << 64 | 0xdead_beef);
        } else if i >= 73 {
            // the status and control words are 32 bits wide
            values.push((i as u128) & 0xffff_ffff);
        } else {
            values.push(i as u128 * 0x0101_0101);
        }
    }
    let file = RegisterFile::from_values(&values);
    assert_eq!(file.sp, values[0] as u64);
    assert_eq!(file.sp_el1, values[1] as u64);
    assert_eq!(file.pstate, values[2] as u64);
    assert_eq!(file.pc, values[3] as u64);
    assert_eq!(file.elr_el1, values[4] as u64);
    assert_eq!(file.regs.len(), 31);
    assert_eq!(file.spsr.len(), 5);
    assert_eq!(file.vregs.len(), 32);
    let written = file.to_values();
    assert_eq!(written, values);
    let again = RegisterFile::from_values(&written);
    assert_eq!(again.to_values(), values);
}

// Values wider than their register are truncated on capture, exactly as the
// one-register interface delivers them.
#[test]
fn capture_truncates_to_register_width() {
    let mut values: Vec<u128> = vec![0; CORE_REG_COUNT];
    values[0] = 0xffff_0000_0000_0000_1234_5678_9abc_def0;
    values[73] = 0xffff_ffff_ffff_ffff;
    let file = RegisterFile::from_values(&values);
    assert_eq!(file.sp, 0x1234_5678_9abc_def0);
    assert_eq!(file.fpsr, 0xffff_ffff);
}

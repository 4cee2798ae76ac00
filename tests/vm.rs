use rv32g_emu::cpu::{Cpu, Mode};
use rv32g_emu::exception::Exception;
use rv32g_emu::memory::MemOps;

// Root table at 0x1000; va 0x0040_2000 (VPN1 = 1, VPN0 = 2) maps to 0x5000.
fn paged_cpu(leaf_flags: u32) -> Cpu {
    let mut cpu = Cpu::new();
    cpu.ram.write32(0x1004, (0x2 << 10) | 0x1).unwrap();
    cpu.ram.write32(0x2008, (0x5 << 10) | leaf_flags).unwrap();
    cpu.ram.write32(0x5010, 0xcafe_babe).unwrap();
    cpu.csrw(0x180, 0x8000_0001).unwrap();
    cpu
}

#[test]
fn bare_translation_is_identity() {
    let mut cpu = Cpu::new();
    cpu.ram.write32(0x40, 0x1234_5678).unwrap();
    assert_eq!(cpu.translate(0x40, MemOps::Load), Ok(0x40));
    assert_eq!(cpu.vm_read32(0x40), cpu.ram.read32(0x40));
    assert_eq!(cpu.vm_write16(0x42, 0xffff), Ok(()));
    assert_eq!(cpu.ram.read32(0x40), Ok(0xffff_5678));
}

#[test]
fn two_level_walk_maps_page() {
    let mut cpu = paged_cpu(0xf);
    assert_eq!(cpu.translate(0x0040_2010, MemOps::Load), Ok(0x5010));
    assert_eq!(cpu.vm_read32(0x0040_2010), Ok(0xcafe_babe));
    assert_eq!(cpu.vm_write8(0x0040_2011, 0x00), Ok(()));
    assert_eq!(cpu.ram.read32(0x5010), Ok(0xcafe_00be));
    assert_eq!(cpu.vm_fetch(0x0040_2010), Ok(0xcafe_00be));
}

#[test]
fn walk_faults_by_kind() {
    // Read-only page.
    let mut cpu = paged_cpu(0x3);
    assert_eq!(cpu.vm_read32(0x0040_2010), Ok(0xcafe_babe));
    assert_eq!(cpu.vm_write32(0x0040_2010, 1), Err(Exception::StoreAMOPageFault));
    assert_eq!(cpu.vm_fetch(0x0040_2010), Err(Exception::InstructionPageFault));
    // No mapping for VPN1 = 2.
    assert_eq!(cpu.vm_read8(0x0080_0000), Err(Exception::LoadPageFault));
}

#[test]
fn user_bit_checks() {
    // Page without U: a User access faults.
    let mut cpu = paged_cpu(0xf);
    cpu.mode = Mode::User;
    assert_eq!(cpu.vm_read32(0x0040_2010), Err(Exception::LoadPageFault));
    // Page with U: Supervisor faults unless SUM is set.
    let mut cpu = paged_cpu(0x1f);
    cpu.mode = Mode::Supervisor;
    assert_eq!(cpu.vm_read32(0x0040_2010), Err(Exception::LoadPageFault));
    cpu.csrw(0x100, 1 << 18).unwrap();
    assert_eq!(cpu.vm_read32(0x0040_2010), Ok(0xcafe_babe));
    cpu.mode = Mode::User;
    assert_eq!(cpu.vm_read32(0x0040_2010), Ok(0xcafe_babe));
}

#[test]
fn superpage_entry_faults() {
    let mut cpu = Cpu::new();
    cpu.ram.write32(0x1004, (0x2 << 10) | 0xf).unwrap();
    cpu.csrw(0x180, 0x8000_0001).unwrap();
    assert_eq!(cpu.vm_read32(0x0040_2010), Err(Exception::LoadPageFault));
}

use rv32g_emu::cpu::Cpu;
use rv32g_emu::exception::Exception;

#[test]
fn supervisor_and_user_views_alias_machine_registers() {
    let mut cpu = Cpu::new();
    assert_eq!(cpu.csrw(0x100, 0x22), Ok(()));
    assert_eq!(cpu.csrr(0x300), Ok(0x22));
    assert_eq!(cpu.csrr(0x000), Ok(0x22));
    assert_eq!(cpu.csrw(0x004, 0x5), Ok(()));
    assert_eq!(cpu.csrr(0x304), Ok(0x5));
    assert_eq!(cpu.csrr(0x104), Ok(0x5));
    assert_eq!(cpu.csrw(0x344, 0x80), Ok(()));
    assert_eq!(cpu.csrr(0x144), Ok(0x80));
    assert_eq!(cpu.csrr(0x044), Ok(0x80));
}

#[test]
fn fflags_and_frm_are_fields_of_fcsr() {
    let mut cpu = Cpu::new();
    assert_eq!(cpu.csrw(0x003, 0xff), Ok(()));
    assert_eq!(cpu.csrr(0x001), Ok(0x1f));
    assert_eq!(cpu.csrr(0x002), Ok(0x7));
    assert_eq!(cpu.csrw(0x001, 0), Ok(()));
    assert_eq!(cpu.csrr(0x003), Ok(0xe0));
    assert_eq!(cpu.csrw(0x002, 0x1), Ok(()));
    assert_eq!(cpu.csrr(0x003), Ok(0x20));
    assert_eq!(cpu.csrw(0x001, 0x3), Ok(()));
    assert_eq!(cpu.csrr(0x003), Ok(0x23));
}

#[test]
fn mtvec_keeps_mode_on_reserved_write() {
    let mut cpu = Cpu::new();
    assert_eq!(cpu.csrw(0x305, 0x1001), Ok(()));
    assert_eq!(cpu.csrr(0x305), Ok(0x1001));
    assert_eq!(cpu.csrw(0x305, 0x2002), Ok(()));
    assert_eq!(cpu.csrr(0x305), Ok(0x2001));
    assert_eq!(cpu.csrw(0x305, 0x3000), Ok(()));
    assert_eq!(cpu.csrr(0x305), Ok(0x3000));
}

#[test]
fn unimplemented_csr_is_illegal() {
    let mut cpu = Cpu::new();
    assert_eq!(cpu.csrr(0x301), Err(Exception::IllegalInstruction));
    assert_eq!(cpu.csrw(0xc00, 1), Err(Exception::IllegalInstruction));
    assert_eq!(cpu.csrr(0xfff), Err(Exception::IllegalInstruction));
}

#[test]
fn mhartid_reads_zero() {
    let mut cpu = Cpu::new();
    assert_eq!(cpu.csrr(0xf14), Ok(0));
    assert_eq!(cpu.csrw(0xf14, 5), Ok(()));
    assert_eq!(cpu.csrr(0xf14), Ok(0));
}

#[test]
fn reserved_mpp_write_keeps_previous_mpp() {
    let mut cpu = Cpu::new();
    assert_eq!(cpu.csrw(0x300, 3 << 11), Ok(()));
    assert_eq!(cpu.csrw(0x300, (2 << 11) | 0x8), Ok(()));
    assert_eq!(cpu.csrr(0x300), Ok((3 << 11) | 0x8));
}

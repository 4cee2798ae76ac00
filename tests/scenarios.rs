use rv32g_emu::cpu::Cpu;
use rv32g_emu::cpu::Mode;
use rv32g_emu::exception::Exception;

fn r_type(funct7: u32, rs2: u32, rs1: u32, funct3: u32, rd: u32, opcode: u32) -> u32 {
    (funct7 << 25) | (rs2 << 20) | (rs1 << 15) | (funct3 << 12) | (rd << 7) | opcode
}

fn i_type(imm: u32, rs1: u32, funct3: u32, rd: u32, opcode: u32) -> u32 {
    ((imm & 0xfff) << 20) | (rs1 << 15) | (funct3 << 12) | (rd << 7) | opcode
}

fn s_type(imm: u32, rs2: u32, rs1: u32, funct3: u32, opcode: u32) -> u32 {
    (((imm >> 5) & 0x7f) << 25) | (rs2 << 20) | (rs1 << 15) | (funct3 << 12) | ((imm & 0x1f) << 7) | opcode
}

fn j_type(imm: u32, rd: u32) -> u32 {
    let b20 = (imm >> 20) & 1;
    let b10_1 = (imm >> 1) & 0x3ff;
    let b11 = (imm >> 11) & 1;
    let b19_12 = (imm >> 12) & 0xff;
    (b20 << 31) | (b10_1 << 21) | (b11 << 20) | (b19_12 << 12) | (rd << 7) | 0x6f
}

fn load_program(cpu: &mut Cpu, words: &[u32]) {
    for (i, w) in words.iter().enumerate() {
        cpu.ram.write32(4 * i as u32, *w).unwrap();
    }
}

fn run_steps(cpu: &mut Cpu, n: usize) {
    for _ in 0..n {
        let r = cpu.step();
        assert_eq!(r, Ok(None));
    }
}

#[test]
fn lui_addi_builds_constant() {
    let mut cpu = Cpu::new();
    let lui = (0x12345 << 12) | (5 << 7) | 0x37;
    let addi = i_type(0x678, 5, 0, 5, 0x13);
    load_program(&mut cpu, &[lui, addi]);
    run_steps(&mut cpu, 2);
    assert_eq!(cpu.xregs[5], 0x1234_5678);
}

#[test]
fn add_two_immediates() {
    let mut cpu = Cpu::new();
    load_program(
        &mut cpu,
        &[i_type(5, 0, 0, 1, 0x13), i_type(7, 0, 0, 2, 0x13), r_type(0, 2, 1, 0, 3, 0x33)],
    );
    run_steps(&mut cpu, 3);
    assert_eq!(cpu.xregs[3], 12);
}

#[test]
fn srai_of_minus_one() {
    let mut cpu = Cpu::new();
    let srai = i_type((0x20 << 5) | 4, 1, 5, 2, 0x13);
    load_program(&mut cpu, &[i_type(0xfff, 0, 0, 1, 0x13), srai]);
    run_steps(&mut cpu, 2);
    assert_eq!(cpu.xregs[1], 0xffff_ffff);
    assert_eq!(cpu.xregs[2], 0xffff_ffff);
}

#[test]
fn store_byte_load_byte_unsigned() {
    let mut cpu = Cpu::new();
    let lui = (0x1 << 12) | (1 << 7) | 0x37;
    let addi = i_type(0xab, 0, 0, 2, 0x13);
    let sb = s_type(0, 2, 1, 0, 0x23);
    let lbu = i_type(0, 1, 4, 3, 0x03);
    load_program(&mut cpu, &[lui, addi, sb, lbu]);
    run_steps(&mut cpu, 4);
    assert_eq!(cpu.xregs[3], 0xab);
    assert_eq!(cpu.ram.read8(0x1000), Ok(0xab));
}

#[test]
fn jal_skips_one_instruction() {
    let mut cpu = Cpu::new();
    load_program(
        &mut cpu,
        &[j_type(8, 1), i_type(1, 0, 0, 5, 0x13), i_type(2, 0, 0, 5, 0x13)],
    );
    run_steps(&mut cpu, 2);
    assert_eq!(cpu.xregs[5], 2);
    assert_eq!(cpu.xregs[1], 4);
    assert_eq!(cpu.pc, 12);
}

#[test]
fn ecall_in_machine_mode_then_mret() {
    let mut cpu = Cpu::new();
    // 0: nop, 4: ecall; mtvec = 0, so the trap lands back at 0.
    load_program(&mut cpu, &[i_type(0, 0, 0, 0, 0x13), 0x0000_0073]);
    run_steps(&mut cpu, 1);
    let r = cpu.step();
    assert_eq!(r, Err(Exception::EnvironmentCallFromMMode));
    cpu.trap(Exception::EnvironmentCallFromMMode);
    assert_eq!(cpu.csrs[0x342], 11);
    assert_eq!(cpu.csrr(0x341), Ok(4));
    assert_eq!(cpu.mode, Mode::Machine);
    assert_eq!(cpu.pc, 0);
    // MPP now holds Machine; MRET returns there.
    assert_eq!((cpu.csrs[0x300] >> 11) & 3, 3);
    cpu.ram.write32(0, 0x3020_0073).unwrap();
    run_steps(&mut cpu, 1);
    assert_eq!(cpu.mode, Mode::Machine);
    assert_eq!(cpu.pc, 4);
    assert_eq!((cpu.csrs[0x300] >> 11) & 3, 0);
}

use rv32g_emu::cpu::Cpu;
use rv32g_emu::exception::Exception;
use rv32g_emu::memory::MEMORY_SIZE;

fn r_type(funct7: u32, rs2: u32, rs1: u32, funct3: u32, rd: u32, opcode: u32) -> u32 {
    (funct7 << 25) | (rs2 << 20) | (rs1 << 15) | (funct3 << 12) | (rd << 7) | opcode
}

fn i_type(imm: u32, rs1: u32, funct3: u32, rd: u32, opcode: u32) -> u32 {
    ((imm & 0xfff) << 20) | (rs1 << 15) | (funct3 << 12) | (rd << 7) | opcode
}

fn b_type(imm: u32, rs2: u32, rs1: u32, funct3: u32) -> u32 {
    (((imm >> 12) & 1) << 31)
        | (((imm >> 5) & 0x3f) << 25)
        | (rs2 << 20)
        | (rs1 << 15)
        | (funct3 << 12)
        | (((imm >> 1) & 0xf) << 8)
        | (((imm >> 11) & 1) << 7)
        | 0x63
}

/// Runs an R-type operation on `a` and `b` in x1 and x2, returning x3.
fn op(funct7: u32, funct3: u32, a: u32, b: u32) -> u32 {
    let mut cpu = Cpu::new();
    cpu.xregs[1] = a;
    cpu.xregs[2] = b;
    assert_eq!(cpu.execute(r_type(funct7, 2, 1, funct3, 3, 0x33)), Ok(None));
    cpu.xregs[3]
}

#[test]
fn division_edge_cases() {
    assert_eq!(op(1, 4, 1234, 0), 0xffff_ffff);
    assert_eq!(op(1, 5, 1234, 0), 0xffff_ffff);
    assert_eq!(op(1, 6, 1234, 0), 1234);
    assert_eq!(op(1, 7, 1234, 0), 1234);
    assert_eq!(op(1, 4, 0x8000_0000, 0xffff_ffff), 0x8000_0000);
    assert_eq!(op(1, 6, 0x8000_0000, 0xffff_ffff), 0);
    assert_eq!(op(1, 4, (-7i32) as u32, 2), (-3i32) as u32);
    assert_eq!(op(1, 6, (-7i32) as u32, 2), (-1i32) as u32);
    assert_eq!(op(1, 5, 7, 2), 3);
    assert_eq!(op(1, 7, 7, 2), 1);
}

#[test]
fn multiply_high_words() {
    assert_eq!(op(1, 0, 0x1_0001, 0x1_0001), 0x0002_0001);
    assert_eq!(op(1, 1, 0x8000_0000, 0x8000_0000), 0x4000_0000);
    assert_eq!(op(1, 3, 0xffff_ffff, 0xffff_ffff), 0xffff_fffe);
    assert_eq!(op(1, 2, 0xffff_ffff, 0xffff_ffff), 0xffff_ffff);
    assert_eq!(op(1, 1, 0xffff_ffff, 2), 0xffff_ffff);
}

#[test]
fn shifts_use_low_five_bits() {
    assert_eq!(op(0, 1, 1, 33), 2);
    assert_eq!(op(0, 5, 0x8000_0000, 63), 1);
    assert_eq!(op(0x20, 5, 0x8000_0000, 63), 0xffff_ffff);
    assert_eq!(op(0, 1, 1, 32), 1);
}

#[test]
fn comparisons_and_logic() {
    assert_eq!(op(0, 2, (-1i32) as u32, 1), 1);
    assert_eq!(op(0, 3, (-1i32) as u32, 1), 0);
    assert_eq!(op(0x20, 0, 3, 5), (-2i32) as u32);
    assert_eq!(op(0, 4, 0xf0, 0xff), 0x0f);
    assert_eq!(op(0, 6, 0xf0, 0x0f), 0xff);
    assert_eq!(op(0, 7, 0xf0, 0x3c), 0x30);
}

#[test]
fn x0_operand_reads_zero_and_x0_stays_zero() {
    let mut cpu = Cpu::new();
    cpu.xregs[2] = 41;
    assert_eq!(cpu.execute(r_type(0, 2, 0, 0, 3, 0x33)), Ok(None));
    assert_eq!(cpu.xregs[3], 41);
    assert_eq!(cpu.execute(r_type(0x20, 0, 2, 0, 4, 0x33)), Ok(None));
    assert_eq!(cpu.xregs[4], 41);
    assert_eq!(cpu.execute(i_type(5, 0, 0, 0, 0x13)), Ok(None));
    assert_eq!(cpu.xregs[0], 0);
}

#[test]
fn undefined_encodings_are_illegal_and_change_nothing() {
    let mut cpu = Cpu::new();
    cpu.xregs[1] = 5;
    assert_eq!(cpu.execute(0xffff_ffff), Err(Exception::IllegalInstruction));
    assert_eq!(cpu.execute(r_type(0x02, 2, 1, 0, 3, 0x33)), Err(Exception::IllegalInstruction));
    assert_eq!(cpu.execute(i_type(0, 1, 3, 3, 0x03)), Err(Exception::IllegalInstruction));
    assert_eq!(cpu.execute(0), Err(Exception::IllegalInstruction));
    assert_eq!(cpu.xregs[3], 0);
    assert_eq!(cpu.pc, 0);
}

#[test]
fn jalr_clears_low_bit() {
    let mut cpu = Cpu::new();
    cpu.pc = 0x24;
    cpu.xregs[1] = 0x101;
    assert_eq!(cpu.execute(i_type(0, 1, 0, 5, 0x67)), Ok(None));
    assert_eq!(cpu.pc, 0x100);
    assert_eq!(cpu.xregs[5], 0x24);
}

#[test]
fn branches_taken_and_not_taken() {
    let mut cpu = Cpu::new();
    cpu.pc = 0x104;
    cpu.xregs[1] = 1;
    cpu.xregs[2] = (-1i32) as u32;
    // blt x2, x1, -0x10: taken, from the branch at 0x100.
    assert_eq!(cpu.execute(b_type(0x1ff0, 1, 2, 4)), Ok(None));
    assert_eq!(cpu.pc, 0xf0);
    // bltu x2, x1: not taken.
    assert_eq!(cpu.execute(b_type(0x10, 1, 2, 6)), Ok(None));
    assert_eq!(cpu.pc, 0xf0);
}

#[test]
fn auipc_uses_instruction_address() {
    let mut cpu = Cpu::new();
    cpu.pc = 0x1004;
    assert_eq!(cpu.execute((0x2 << 12) | (7 << 7) | 0x17), Ok(None));
    assert_eq!(cpu.xregs[7], 0x3000);
}

#[test]
fn loads_sign_and_zero_extend() {
    let mut cpu = Cpu::new();
    cpu.ram.write32(0x80, 0x0000_8080).unwrap();
    cpu.xregs[1] = 0x80;
    assert_eq!(cpu.execute(i_type(0, 1, 0, 2, 0x03)), Ok(None));
    assert_eq!(cpu.xregs[2], 0xffff_ff80);
    assert_eq!(cpu.execute(i_type(0, 1, 1, 2, 0x03)), Ok(None));
    assert_eq!(cpu.xregs[2], 0xffff_8080);
    assert_eq!(cpu.execute(i_type(0, 1, 5, 2, 0x03)), Ok(None));
    assert_eq!(cpu.xregs[2], 0x8080);
    assert_eq!(cpu.execute(i_type(0xffc, 1, 2, 2, 0x03)), Ok(None));
    assert_eq!(cpu.xregs[2], 0);
}

#[test]
fn load_outside_memory_faults() {
    let mut cpu = Cpu::new();
    cpu.xregs[1] = MEMORY_SIZE;
    assert_eq!(cpu.execute(i_type(0, 1, 2, 2, 0x03)), Err(Exception::LoadAccessFault));
    cpu.xregs[1] = 2;
    assert_eq!(cpu.execute(i_type(0, 1, 2, 2, 0x03)), Err(Exception::LoadAddressMisaligned));
}

#[test]
fn odd_pc_fetch_is_misaligned() {
    let mut cpu = Cpu::new();
    cpu.pc = 3;
    assert_eq!(cpu.step(), Err(Exception::InstructionAddressMisaligned));
    assert_eq!(cpu.pc, 7);
    cpu.trap(Exception::InstructionAddressMisaligned);
    assert_eq!(cpu.csrr(0x341), Ok(3));
}

#[test]
fn csr_instructions() {
    let mut cpu = Cpu::new();
    cpu.xregs[1] = 0xf0;
    // csrrw x2, mscratch, x1
    assert_eq!(cpu.execute(i_type(0x340, 1, 1, 2, 0x73)), Ok(None));
    assert_eq!(cpu.xregs[2], 0);
    // csrrsi x3, mscratch, 0x0f
    assert_eq!(cpu.execute(i_type(0x340, 0x0f, 6, 3, 0x73)), Ok(None));
    assert_eq!(cpu.xregs[3], 0xf0);
    assert_eq!(cpu.csrr(0x340), Ok(0xff));
    // csrrc x4, mscratch, x1
    assert_eq!(cpu.execute(i_type(0x340, 1, 3, 4, 0x73)), Ok(None));
    assert_eq!(cpu.xregs[4], 0xff);
    assert_eq!(cpu.csrr(0x340), Ok(0x0f));
    // csrrs x5, misa, x0 is illegal: misa is not implemented.
    assert_eq!(cpu.execute(i_type(0x301, 0, 2, 5, 0x73)), Err(Exception::IllegalInstruction));
    // csrrwi fcsr, 0x1f writes the flags.
    assert_eq!(cpu.execute(i_type(0x003, 0x1f, 5, 0, 0x73)), Ok(None));
    assert_eq!(cpu.fcsr, 0x1f);
}

#[test]
fn atomic_memory_operations() {
    let mut cpu = Cpu::new();
    cpu.ram.write32(0x100, 5).unwrap();
    cpu.xregs[1] = 0x100;
    cpu.xregs[2] = 3;
    // amoadd.w x3, x2, (x1)
    assert_eq!(cpu.execute(r_type(0x00, 2, 1, 2, 3, 0x2f)), Ok(None));
    assert_eq!(cpu.xregs[3], 5);
    assert_eq!(cpu.ram.read32(0x100), Ok(8));
    // amoor.w x3, x2, (x1)
    assert_eq!(cpu.execute(r_type(0x08 << 2, 2, 1, 2, 3, 0x2f)), Ok(None));
    assert_eq!(cpu.xregs[3], 8);
    assert_eq!(cpu.ram.read32(0x100), Ok(11));
    // amomin.w with a negative operand
    cpu.xregs[2] = (-4i32) as u32;
    assert_eq!(cpu.execute(r_type(0x10 << 2, 2, 1, 2, 3, 0x2f)), Ok(None));
    assert_eq!(cpu.ram.read32(0x100), Ok((-4i32) as u32));
    // amomaxu.w
    cpu.xregs[2] = 7;
    assert_eq!(cpu.execute(r_type(0x1c << 2, 2, 1, 2, 3, 0x2f)), Ok(None));
    assert_eq!(cpu.ram.read32(0x100), Ok((-4i32) as u32));
    // amoswap.w
    assert_eq!(cpu.execute(r_type(0x01 << 2, 2, 1, 2, 3, 0x2f)), Ok(None));
    assert_eq!(cpu.xregs[3], (-4i32) as u32);
    assert_eq!(cpu.ram.read32(0x100), Ok(7));
    // lr.w then sc.w
    assert_eq!(cpu.execute(r_type(0x02 << 2, 0, 1, 2, 4, 0x2f)), Ok(None));
    assert_eq!(cpu.xregs[4], 7);
    cpu.xregs[2] = 99;
    assert_eq!(cpu.execute(r_type(0x03 << 2, 2, 1, 2, 4, 0x2f)), Ok(None));
    assert_eq!(cpu.xregs[4], 0);
    assert_eq!(cpu.ram.read32(0x100), Ok(99));
}

#[test]
fn misaligned_amo_raises_store_misaligned() {
    let mut cpu = Cpu::new();
    cpu.xregs[1] = 0x102;
    assert_eq!(
        cpu.execute(r_type(0x00, 2, 1, 2, 3, 0x2f)),
        Err(Exception::StoreAMOAddressMisaligned)
    );
}

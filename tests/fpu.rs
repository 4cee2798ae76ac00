use rv32g_emu::cpu::Cpu;
use rv32g_emu::exception::Exception;
use rv32g_emu::fpu::{fclass_32, fclass_64, fmax, fmin, fsgnj_32, fsgnj_64, FpOp, FpRequest, RoundMode};

fn r_type(funct7: u32, rs2: u32, rs1: u32, funct3: u32, rd: u32, opcode: u32) -> u32 {
    (funct7 << 25) | (rs2 << 20) | (rs1 << 15) | (funct3 << 12) | (rd << 7) | opcode
}

const ONE_S: u64 = 0x3f80_0000;
const TWO_S: u64 = 0x4000_0000;
const MINUS_ONE_S: u64 = 0xbf80_0000;

#[test]
fn round_mode_decoding() {
    assert_eq!(RoundMode::from_u32(0), Some(RoundMode::RNE));
    assert_eq!(RoundMode::from_u32(4), Some(RoundMode::RMM));
    assert_eq!(RoundMode::from_u32(5), None);
    assert_eq!(RoundMode::from_u32(6), None);
    assert_eq!(RoundMode::from_u32(7), Some(RoundMode::DYN));
}

#[test]
fn sign_injection() {
    assert_eq!(fsgnj_32(0x3f80_0000, 0xbf80_0000, 0), Some(0xbf80_0000));
    assert_eq!(fsgnj_32(0x3f80_0000, 0xbf80_0000, 1), Some(0x3f80_0000));
    assert_eq!(fsgnj_32(0xbf80_0000, 0xbf80_0000, 2), Some(0x3f80_0000));
    assert_eq!(fsgnj_32(0x3f80_0000, 0, 3), None);
    assert_eq!(fsgnj_64(0x3ff0_0000_0000_0000, 0x8000_0000_0000_0000, 0), Some(0xbff0_0000_0000_0000));
    let mut cpu = Cpu::new();
    cpu.fregs[1] = ONE_S;
    cpu.fregs[2] = MINUS_ONE_S;
    // fsgnjn.s f3, f1, f2
    assert_eq!(cpu.execute(r_type(0x10, 2, 1, 1, 3, 0x53)), Ok(None));
    assert_eq!(cpu.fregs[3], ONE_S);
    // fsgnj.s f3, f1, f2
    assert_eq!(cpu.execute(r_type(0x10, 2, 1, 0, 3, 0x53)), Ok(None));
    assert_eq!(cpu.fregs[3], MINUS_ONE_S);
}

#[test]
fn classification() {
    assert_eq!(fclass_32(0xff80_0000), 1);
    assert_eq!(fclass_32(0xbf80_0000), 1 << 1);
    assert_eq!(fclass_32(0x8000_0001), 1 << 2);
    assert_eq!(fclass_32(0x8000_0000), 1 << 3);
    assert_eq!(fclass_32(0), 1 << 4);
    assert_eq!(fclass_32(0x0000_0001), 1 << 5);
    assert_eq!(fclass_32(0x3f80_0000), 1 << 6);
    assert_eq!(fclass_32(0x7f80_0000), 1 << 7);
    assert_eq!(fclass_32(0x7f80_0001), 1 << 8);
    assert_eq!(fclass_32(0x7fc0_0000), 1 << 9);
    assert_eq!(fclass_64(0x3ff0_0000_0000_0000), 1 << 6);
    assert_eq!(fclass_64(0xfff0_0000_0000_0000), 1);
    assert_eq!(fclass_64(0x7ff8_0000_0000_0000), 1 << 9);
    let mut cpu = Cpu::new();
    cpu.fregs[1] = 0x8000_0000;
    // fclass.s x5, f1
    assert_eq!(cpu.execute(r_type(0x70, 0, 1, 1, 5, 0x53)), Ok(None));
    assert_eq!(cpu.xregs[5], 1 << 3);
}

#[test]
fn arithmetic_becomes_a_request() {
    let mut cpu = Cpu::new();
    cpu.fregs[1] = 0xffff_ffff_0000_0000 | ONE_S;
    cpu.fregs[2] = TWO_S;
    // fadd.s f3, f1, f2, rm = RTZ
    let r = cpu.execute(r_type(0x00, 2, 1, 1, 3, 0x53));
    assert_eq!(
        r,
        Ok(Some(FpRequest {
            op: FpOp::Add,
            double: false,
            a: ONE_S,
            b: TWO_S,
            c: 0,
            rm: RoundMode::RTZ,
            rd: 3,
            to_x: false,
        }))
    );
    assert_eq!(cpu.fregs[3], 0);
    cpu.finish_fp(&r.unwrap().unwrap(), 0x4040_0000, 0);
    assert_eq!(cpu.fregs[3], 0x4040_0000);
}

#[test]
fn rounding_mode_validity() {
    let mut cpu = Cpu::new();
    // rm = 5 and rm = 6 are reserved.
    assert_eq!(cpu.execute(r_type(0x00, 2, 1, 5, 3, 0x53)), Err(Exception::IllegalInstruction));
    assert_eq!(cpu.execute(r_type(0x00, 2, 1, 6, 3, 0x53)), Err(Exception::IllegalInstruction));
    // rm = 7 takes frm.
    cpu.csrw(0x002, 3).unwrap();
    match cpu.execute(r_type(0x04, 2, 1, 7, 3, 0x53)) {
        Ok(Some(q)) => {
            assert_eq!(q.rm, RoundMode::RUP);
            assert_eq!(q.op, FpOp::Sub);
        }
        other => panic!("unexpected {:?}", other),
    }
    cpu.csrw(0x002, 5).unwrap();
    assert_eq!(cpu.execute(r_type(0x04, 2, 1, 7, 3, 0x53)), Err(Exception::IllegalInstruction));
}

#[test]
fn flags_accumulate() {
    let mut cpu = Cpu::new();
    cpu.csrw(0x001, 0x01).unwrap();
    let q = FpRequest {
        op: FpOp::Div,
        double: true,
        a: 0,
        b: 0,
        c: 0,
        rm: RoundMode::RNE,
        rd: 4,
        to_x: false,
    };
    cpu.finish_fp(&q, 0x7ff8_0000_0000_0000, 0x10);
    assert_eq!(cpu.csrr(0x001), Ok(0x11));
    cpu.finish_fp(&q, 0, 0);
    assert_eq!(cpu.csrr(0x001), Ok(0x11));
    assert_eq!(cpu.fregs[4], 0);
}

#[test]
fn min_max_choices() {
    let qnan = 0x7fc0_0000;
    assert_eq!(fmin(false, ONE_S, TWO_S, true), ONE_S);
    assert_eq!(fmax(false, ONE_S, TWO_S, true), TWO_S);
    assert_eq!(fmin(false, qnan, TWO_S, false), TWO_S);
    assert_eq!(fmax(false, ONE_S, 0x7f80_0001, false), ONE_S);
    assert_eq!(fmin(false, qnan, 0x7f80_0001, false), 0x7fc0_0000);
    assert_eq!(fmin(false, 0, 0x8000_0000, false), 0x8000_0000);
    assert_eq!(fmax(false, 0, 0x8000_0000, false), 0);
    assert_eq!(fmin(true, 0x7ff8_0000_0000_0001, 0x7ff0_0000_0000_0001, false), 0x7ff8_0000_0000_0000);
    let mut cpu = Cpu::new();
    cpu.fregs[1] = TWO_S;
    cpu.fregs[2] = ONE_S;
    // fmax.s f3, f1, f2: the comparison 2 < 1 is false.
    let q = cpu.execute(r_type(0x14, 2, 1, 1, 3, 0x53)).unwrap().unwrap();
    assert_eq!(q.op, FpOp::Max);
    cpu.finish_fp(&q, 0, 0);
    assert_eq!(cpu.fregs[3], TWO_S);
}

#[test]
fn compare_and_convert_requests_target_integer_registers() {
    let mut cpu = Cpu::new();
    // feq.d x5, f1, f2
    let q = cpu.execute(r_type(0x51, 2, 1, 2, 5, 0x53)).unwrap().unwrap();
    assert_eq!((q.op, q.double, q.to_x, q.rd), (FpOp::Eq, true, true, 5));
    cpu.finish_fp(&q, 1, 0);
    assert_eq!(cpu.xregs[5], 1);
    // fcvt.w.s x6, f1, rm = RTZ
    let q = cpu.execute(r_type(0x60, 0, 1, 1, 6, 0x53)).unwrap().unwrap();
    assert_eq!((q.op, q.to_x, q.rm), (FpOp::ToInt, true, RoundMode::RTZ));
    cpu.finish_fp(&q, 0xffff_fffd, 0x01);
    assert_eq!(cpu.xregs[6], 0xffff_fffd);
    assert_eq!(cpu.fcsr & 0x1f, 0x01);
    // fcvt.s.d f1, f2
    let q = cpu.execute(r_type(0x20, 1, 2, 0, 1, 0x53)).unwrap().unwrap();
    assert_eq!((q.op, q.double), (FpOp::ToSingle, true));
    // fcvt.d.wu f1, x2
    cpu.xregs[2] = 7;
    let q = cpu.execute(r_type(0x69, 1, 2, 0, 1, 0x53)).unwrap().unwrap();
    assert_eq!((q.op, q.double, q.a), (FpOp::FromUint, true, 7));
}

#[test]
fn fused_multiply_add_negations() {
    let mut cpu = Cpu::new();
    cpu.fregs[1] = ONE_S;
    cpu.fregs[2] = TWO_S;
    cpu.fregs[3] = ONE_S;
    // fnmadd.s f4, f1, f2, f3: -(f1 * f2) - f3
    let inst = (3 << 27) | (2 << 20) | (1 << 15) | (4 << 7) | 0x4f;
    let q = cpu.execute(inst).unwrap().unwrap();
    assert_eq!((q.op, q.a, q.b, q.c), (FpOp::MulAdd, MINUS_ONE_S, TWO_S, MINUS_ONE_S));
    // fmsub.d f4, f1, f2, f3: only the addend is negated
    cpu.fregs[3] = 0x3ff0_0000_0000_0000;
    let inst = (3 << 27) | (1 << 25) | (2 << 20) | (1 << 15) | (4 << 7) | 0x47;
    let q = cpu.execute(inst).unwrap().unwrap();
    assert_eq!((q.double, q.c), (true, 0xbff0_0000_0000_0000));
}

#[test]
fn moves_and_fp_memory() {
    let mut cpu = Cpu::new();
    cpu.xregs[1] = 0x4049_0fdb;
    // fmv.w.x f2, x1
    assert_eq!(cpu.execute(r_type(0x78, 0, 1, 0, 2, 0x53)), Ok(None));
    assert_eq!(cpu.fregs[2], 0x4049_0fdb);
    // fmv.x.w x3, f2
    assert_eq!(cpu.execute(r_type(0x70, 0, 2, 0, 3, 0x53)), Ok(None));
    assert_eq!(cpu.xregs[3], 0x4049_0fdb);
    // fsd f5, 8(x4); fld f6, 8(x4)
    cpu.xregs[4] = 0x200;
    cpu.fregs[5] = 0x4009_21fb_5444_2d18;
    let fsd = (5 << 20) | (4 << 15) | (3 << 12) | (8 << 7) | 0x27;
    assert_eq!(cpu.execute(fsd), Ok(None));
    let fld = (8 << 20) | (4 << 15) | (3 << 12) | (6 << 7) | 0x07;
    assert_eq!(cpu.execute(fld), Ok(None));
    assert_eq!(cpu.fregs[6], 0x4009_21fb_5444_2d18);
    // flw f7, 8(x4) reads the low word
    let flw = (8 << 20) | (4 << 15) | (2 << 12) | (7 << 7) | 0x07;
    assert_eq!(cpu.execute(flw), Ok(None));
    assert_eq!(cpu.fregs[7], 0x5444_2d18);
}

use rv32g_emu::bits::{read_bit, read_bits, write_bit, write_bits};

#[test]
fn read_bits_extracts_inclusive_field() {
    assert_eq!(read_bits(0x1234_5678, 4..11), 0x67);
    assert_eq!(read_bits(0x8000_0000, 31..31), 1);
    assert_eq!(read_bits(0xffff_ffff, 0..31), 0xffff_ffff);
    assert_eq!(read_bit(0b1000, 3), 1);
    assert_eq!(read_bit(0b1000, 2), 0);
}

#[test]
fn write_bits_replaces_field() {
    let mut r: u32 = 0xffff_ffff;
    write_bits(&mut r, 11..12, 0);
    assert_eq!(r, 0xffff_e7ff);
    write_bits(&mut r, 11..12, 3);
    assert_eq!(r, 0xffff_ffff);
    let mut z: u32 = 0;
    write_bit(&mut z, 7, 1);
    assert_eq!(z, 0x80);
    write_bit(&mut z, 7, 0);
    assert_eq!(z, 0);
}

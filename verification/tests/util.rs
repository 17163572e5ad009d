use lc3_vm::bit_util::{
    check_i11_range, check_i5_range, check_i6_range, check_i9_range, convert_str_to_i16_vec,
    i11_to_i16, i5_to_i8, i6_to_i8, i9_to_i16,
};
use lc3_vm::machine::Memory;

#[test]
fn sign_extension_widths() {
    // low five bits
    assert_eq!(i5_to_i8(0b01111), 15);
    assert_eq!(i5_to_i8(0b10000), -16);
    assert_eq!(i5_to_i8(0b11111), -1);
    assert_eq!(i5_to_i8(0b100000), 0); // bit five is ignored

    // low six bits
    assert_eq!(i6_to_i8(0b011111), 31);
    assert_eq!(i6_to_i8(0b100000), -32);
    assert_eq!(i6_to_i8(-1), -1);

    // low nine bits
    assert_eq!(i9_to_i16(0b011111111), 255);
    assert_eq!(i9_to_i16(0b100000000), -256);
    assert_eq!(i9_to_i16(0b111111111), -1);

    // low eleven bits
    assert_eq!(i11_to_i16(0b01111111111), 1023);
    assert_eq!(i11_to_i16(0b10000000000), -1024);
    assert_eq!(i11_to_i16(0b11111111111), -1);
}

#[test]
fn range_checks_accept_bounds() {
    check_i5_range(-16);
    check_i5_range(15);
    check_i6_range(-32);
    check_i6_range(31);
    check_i9_range(-256);
    check_i9_range(255);
    check_i11_range(-1024);
    check_i11_range(1023);
}

#[test]
fn str_to_words() {
    let words = convert_str_to_i16_vec("AB\n");
    assert_eq!(words, vec![65, 66, 10]);
    assert!(convert_str_to_i16_vec("").is_empty());
}

#[test]
fn memory_zero_on_read() {
    let mem = Memory::new();
    assert_eq!(mem.len(), 0);
    assert_eq!(mem.read(0), 0);
    assert_eq!(mem.read(0xFFFF), 0);
}

#[test]
fn memory_resize_and_ensure_space() {
    let mut mem = Memory::new();
    mem.resize(4, 7);
    assert_eq!(mem.len(), 4);
    assert_eq!(mem.read(2), 7);
    assert_eq!(mem.read(4), 0);

    mem.resize(2, 0);
    assert_eq!(mem.len(), 2);
    assert_eq!(mem.read(2), 0); // shrunk words read zero again
    assert_eq!(mem.read(1), 7);

    mem.ensure_space(10);
    assert!(mem.len() >= 11);
    assert_eq!(mem.read(10), 0);
    assert_eq!(mem.read(1), 7);

    mem.write(9, -3);
    assert_eq!(mem.read(9), -3);
}

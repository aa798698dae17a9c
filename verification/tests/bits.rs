use mpu6050::bits::{get_bit, get_bits, set_bit, set_bits};
use mpu6050::device::ACCEL_CONFIG;

#[test]
fn get_bit_test() {
    assert_eq!(get_bit(4, 2), 1);
    assert_eq!(get_bit(4, 1), 0);
    assert_eq!(get_bit(4, 0), 0);
    assert_eq!(get_bit(12, 3), 1);
    assert_eq!(get_bit(12, 2), 1);
    assert_eq!(get_bit(12, 1), 0);
    assert_eq!(get_bit(12, 1), 0);
    assert_eq!(get_bit(8, 3), 1);
    assert_eq!(get_bit(8, 2), 0);
    assert_eq!(get_bit(8, 1), 0);
    assert_eq!(get_bit(8, 0), 0);
}

#[test]
fn set_bit_test() {
    let mut byte = 4_u8.to_be_bytes();

    // enable bit 1
    set_bit(&mut byte[0], 1, true);
    assert_eq!(byte[0], 6);

    // disable bit 1
    set_bit(&mut byte[0], 1, false);
    assert_eq!(byte[0], 4);

    // enable bit 3
    set_bit(&mut byte[0], 3, true);
    assert_eq!(byte[0], 12);

    byte = ((1 << 7) as u8).to_be_bytes();
    set_bit(&mut byte[0], 7, false);
    assert_eq!(byte[0], 0);

    set_bit(&mut byte[0], 7, true);
    assert_eq!(byte[0], (1 << 7) as u8);
}

#[test]
fn set_get_bits_test() {
    // 010 value to write
    // 76543210 bit numbers
    // xxx   args: bit_start=4, length=3
    // 00011100 mask byte
    // 10101111 original value (sample)
    // 10100011 original & ~mask
    // 10101011 masked | value
    let mut original_value: u8 = 175;
    let value: u8 = 2;
    let bitstart: u8 = 4;
    let length: u8 = 3;
    set_bits(&mut original_value, bitstart, length, value);
    assert_eq!(original_value, 0b10101011);

    let bits = get_bits(original_value, bitstart, length);
    assert_eq!(value, bits);

    // simulate accel_hpf
    let block = ACCEL_CONFIG::accel_hpf();
    let bitstart = block.bit;
    let length = block.length;
    assert_eq!(get_bits(original_value, bitstart, length), 0b00000011);

    let mode: u8 = 7;
    set_bits(&mut original_value, bitstart, length, mode);
    assert_eq!(get_bits(original_value, bitstart, length), 0b00000111);
}

// Writing a field and reading it back returns the written value reduced
// modulo 2^length, on concrete samples over every valid field geometry.
#[test]
fn set_get_bits_roundtrip_samples() {
    for start in 0u8..8 {
        for length in 1u8..9 {
            for &byte in &[0x00u8, 0xff, 0xa5, 0x5a] {
                for &value in &[0x00u8, 0x01, 0x7f, 0xff, 0x2a] {
                    let mut b = byte;
                    set_bits(&mut b, start, length, value);
                    let mask: u8 = if length >= 8 { 0xff } else { (1u8 << length) - 1 };
                    assert_eq!(get_bits(b, start, length), value & mask);
                }
            }
        }
    }
}

// Setting a single bit makes it read back as written and leaves every other
// bit of the byte unchanged.
#[test]
fn set_get_bit_roundtrip_samples() {
    for n in 0u8..8 {
        for &byte in &[0x00u8, 0xff, 0xa5, 0x5a] {
            for &enable in &[true, false] {
                let mut b = byte;
                set_bit(&mut b, n, enable);
                assert_eq!(get_bit(b, n), if enable { 1 } else { 0 });
                for m in 0u8..8 {
                    if m != n {
                        assert_eq!(get_bit(b, m), get_bit(byte, m));
                    }
                }
            }
        }
    }
}

// The saturating shift policy: a field whose start bit is smaller than
// length - 1 is aligned with shift 0 instead of underflowing.
#[test]
fn saturating_shift_edge() {
    // bit_start=2, length=4: shift saturates at 0, mask is the low 4 bits
    let mut b: u8 = 0b1111_0000;
    set_bits(&mut b, 2, 4, 0b1010);
    assert_eq!(b, 0b1111_1010);
    assert_eq!(get_bits(b, 2, 4), 0b1010);
}

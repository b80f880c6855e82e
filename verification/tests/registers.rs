use lr35902::registers::{FlagsRegister, Registers};

fn flags(zero: bool, subtract: bool, half_carry: bool, carry: bool) -> FlagsRegister {
    FlagsRegister { zero, subtract, half_carry, carry }
}

#[test]
fn registers_start_cleared() {
    let registers = Registers::initialize();
    assert_eq!(registers.get_af(), 0);
    assert_eq!(registers.get_bc(), 0);
    assert_eq!(registers.get_de(), 0);
    assert_eq!(registers.get_hl(), 0);
    assert_eq!(registers.f, flags(false, false, false, false));
}

#[test]
fn pairs_join_upper_and_lower_register() {
    let mut registers = Registers::initialize();
    registers.b = 0x12;
    registers.c = 0x34;
    registers.d = 0x56;
    registers.e = 0x78;
    registers.h = 0x9A;
    registers.l = 0xBC;
    assert_eq!(registers.get_bc(), 0x1234);
    assert_eq!(registers.get_de(), 0x5678);
    assert_eq!(registers.get_hl(), 0x9ABC);
}

#[test]
fn setting_a_pair_splits_the_word() {
    let mut registers = Registers::initialize();
    registers.set_bc(0xABCD);
    registers.set_de(0x0102);
    registers.set_hl(0xFF00);
    assert_eq!((registers.b, registers.c), (0xAB, 0xCD));
    assert_eq!((registers.d, registers.e), (0x01, 0x02));
    assert_eq!((registers.h, registers.l), (0xFF, 0x00));
}

#[test]
fn pair_round_trip_for_every_word() {
    let mut registers = Registers::initialize();
    for value in 0..=0xFFFFu16 {
        registers.set_bc(value);
        registers.set_de(value);
        registers.set_hl(value);
        assert_eq!(registers.get_bc(), value);
        assert_eq!(registers.get_de(), value);
        assert_eq!(registers.get_hl(), value);
    }
}

#[test]
fn af_drops_the_lower_nibble() {
    let mut registers = Registers::initialize();
    for value in 0..=0xFFFFu16 {
        registers.set_af(value);
        assert_eq!(registers.get_af(), value & 0xFFF0);
    }
}

#[test]
fn flags_pack_into_the_upper_nibble() {
    assert_eq!(u8::from(flags(true, false, false, false)), 0x80);
    assert_eq!(u8::from(flags(false, true, false, false)), 0x40);
    assert_eq!(u8::from(flags(false, false, true, false)), 0x20);
    assert_eq!(u8::from(flags(false, false, false, true)), 0x10);
    assert_eq!(u8::from(flags(true, true, true, true)), 0xF0);
    assert_eq!(u8::from(flags(false, false, false, false)), 0x00);
}

#[test]
fn flags_unpack_from_the_upper_nibble() {
    assert_eq!(FlagsRegister::from(0x80), flags(true, false, false, false));
    assert_eq!(FlagsRegister::from(0x40), flags(false, true, false, false));
    assert_eq!(FlagsRegister::from(0x20), flags(false, false, true, false));
    assert_eq!(FlagsRegister::from(0x10), flags(false, false, false, true));
    assert_eq!(FlagsRegister::from(0x0F), flags(false, false, false, false));
    assert_eq!(FlagsRegister::from(0xFF), flags(true, true, true, true));
}

#[test]
fn flags_round_trip_through_a_byte() {
    for byte in 0..=255u8 {
        let unpacked = FlagsRegister::from(byte);
        assert_eq!(u8::from(unpacked), byte & 0xF0);
        assert_eq!(FlagsRegister::from(u8::from(unpacked)), unpacked);
    }
}

#[test]
fn set_af_sets_the_flags() {
    let mut registers = Registers::initialize();
    registers.set_af(0x12B0);
    assert_eq!(registers.a, 0x12);
    assert_eq!(registers.f, flags(true, false, true, true));
    assert_eq!(registers.get_zero(), 1);
    assert_eq!(registers.get_subtract(), 0);
    assert_eq!(registers.get_half_carry(), 1);
    assert_eq!(registers.get_carry(), 1);
}

#[test]
fn flag_setters_touch_one_flag_each() {
    let mut registers = Registers::initialize();
    registers.flag_zero();
    assert_eq!(registers.f, flags(true, false, false, false));
    registers.flag_subtract();
    assert_eq!(registers.f, flags(true, true, false, false));
    registers.flag_half_carry();
    assert_eq!(registers.f, flags(true, true, true, false));
    registers.flag_carry();
    assert_eq!(registers.f, flags(true, true, true, true));
    registers.clear_zero();
    assert_eq!(registers.f, flags(false, true, true, true));
    registers.clear_subtract();
    assert_eq!(registers.f, flags(false, false, true, true));
    registers.clear_half_carry();
    assert_eq!(registers.f, flags(false, false, false, true));
    registers.clear_carry();
    assert_eq!(registers.f, flags(false, false, false, false));
    assert_eq!(registers.get_af(), 0);
}

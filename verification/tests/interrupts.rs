use lr35902::interrupt::Interrupt;
use lr35902::memory::{INTERRUPT_ENABLE_REGISTER, INTERRUPT_REQUEST_REGISTER};
use lr35902::runtime::Runtime;

fn runtime_with(requests: u8, enabled: u8) -> Runtime {
    let mut image = vec![0u8; 0x200];
    image[0x100] = 0x04;
    image[0x101] = 0x0C;
    image[0x40] = 0x14;
    let mut runtime = Runtime::initialize(&image).unwrap();
    runtime.cpu.memory.write_byte(INTERRUPT_REQUEST_REGISTER, requests);
    runtime.cpu.memory.write_byte(INTERRUPT_ENABLE_REGISTER, enabled);
    runtime
}

#[test]
fn highest_priority_bit_wins() {
    assert_eq!(Interrupt::from(0b0000_0000), Interrupt::Nothing);
    assert_eq!(Interrupt::from(0b0000_0001), Interrupt::VBlank);
    assert_eq!(Interrupt::from(0b0000_0010), Interrupt::LCDSTAT);
    assert_eq!(Interrupt::from(0b0000_0100), Interrupt::Timer);
    assert_eq!(Interrupt::from(0b0000_1000), Interrupt::Serial);
    assert_eq!(Interrupt::from(0b0001_0000), Interrupt::Joypad);
    assert_eq!(Interrupt::from(0b0001_1111), Interrupt::VBlank);
    assert_eq!(Interrupt::from(0b0001_1110), Interrupt::LCDSTAT);
    assert_eq!(Interrupt::from(0b0001_1100), Interrupt::Timer);
    assert_eq!(Interrupt::from(0b0001_1000), Interrupt::Serial);
    assert_eq!(Interrupt::from(0b1110_0000), Interrupt::Nothing);
}

#[test]
fn priority_for_every_register_value() {
    for register in 0..=255u8 {
        let expected = match (register & 0x1F).trailing_zeros() {
            0 => Interrupt::VBlank,
            1 => Interrupt::LCDSTAT,
            2 => Interrupt::Timer,
            3 => Interrupt::Serial,
            4 => Interrupt::Joypad,
            _ => Interrupt::Nothing,
        };
        assert_eq!(Interrupt::from(register), expected);
    }
}

#[test]
fn kinds_have_their_bits() {
    assert_eq!(u8::from(Interrupt::VBlank), 0b0000_0001);
    assert_eq!(u8::from(Interrupt::LCDSTAT), 0b0000_0010);
    assert_eq!(u8::from(Interrupt::Timer), 0b0000_0100);
    assert_eq!(u8::from(Interrupt::Serial), 0b0000_1000);
    assert_eq!(u8::from(Interrupt::Joypad), 0b0001_0000);
    assert_eq!(u8::from(Interrupt::Nothing), 0);
}

#[test]
fn kinds_have_their_vectors() {
    assert_eq!(Interrupt::VBlank.address(), 0x40);
    assert_eq!(Interrupt::LCDSTAT.address(), 0x48);
    assert_eq!(Interrupt::Timer.address(), 0x50);
    assert_eq!(Interrupt::Serial.address(), 0x58);
    assert_eq!(Interrupt::Joypad.address(), 0x60);
}

#[test]
fn pending_needs_request_and_enable() {
    assert_eq!(runtime_with(0b00101, 0b00101).check_interrupts(), Interrupt::VBlank);
    assert_eq!(runtime_with(0b00101, 0b00100).check_interrupts(), Interrupt::Timer);
    assert_eq!(runtime_with(0b00101, 0b11010).check_interrupts(), Interrupt::Nothing);
    assert_eq!(runtime_with(0b00000, 0b11111).check_interrupts(), Interrupt::Nothing);
    assert_eq!(runtime_with(0b11111, 0b10000).check_interrupts(), Interrupt::Joypad);
}

#[test]
fn vblank_is_served_before_timer() {
    let mut runtime = runtime_with(0b00101, 0b00101);
    runtime.master_interrupt_enabled = true;
    runtime.cpu.master_interrupt_request = true;
    runtime.cpu.pc = 0x1234;
    assert_eq!(runtime.handle_interrupts(), 5);
    assert_eq!(runtime.cpu.pc, 0x0040);
    assert_eq!(runtime.cpu.memory.read_byte(INTERRUPT_REQUEST_REGISTER), 0b00100);
    assert_eq!(runtime.cpu.memory.read_byte(INTERRUPT_ENABLE_REGISTER), 0b00101);
    assert!(!runtime.master_interrupt_enabled);
    assert!(!runtime.cpu.master_interrupt_request);
    assert_eq!(runtime.cpu.sp, 0xFFFC);
    assert_eq!(runtime.cpu.pop(), 0x1234);
    assert_eq!(runtime.check_interrupts(), Interrupt::Timer);
}

#[test]
fn timer_is_served_in_the_following_turn() {
    let mut runtime = runtime_with(0b00101, 0b00101);
    runtime.master_interrupt_enabled = true;
    assert_eq!(runtime.handle_interrupts(), 5);
    assert_eq!(runtime.handle_interrupts(), 0);
    runtime.master_interrupt_enabled = true;
    assert_eq!(runtime.handle_interrupts(), 5);
    assert_eq!(runtime.cpu.pc, 0x0050);
    assert_eq!(runtime.cpu.memory.read_byte(INTERRUPT_REQUEST_REGISTER), 0);
}

#[test]
fn nothing_is_served_while_masked() {
    let mut runtime = runtime_with(0b11111, 0b11111);
    assert_eq!(runtime.handle_interrupts(), 0);
    assert_eq!(runtime.cpu.pc, 0x0100);
    assert_eq!(runtime.cpu.sp, 0xFFFE);
    assert_eq!(runtime.cpu.memory.read_byte(INTERRUPT_REQUEST_REGISTER), 0b11111);
}

#[test]
fn nothing_is_served_when_nothing_is_pending() {
    let mut runtime = runtime_with(0b00001, 0b11110);
    runtime.master_interrupt_enabled = true;
    assert_eq!(runtime.handle_interrupts(), 0);
    assert_eq!(runtime.cpu.pc, 0x0100);
    assert!(runtime.master_interrupt_enabled);
    assert_eq!(runtime.cpu.memory.read_byte(INTERRUPT_REQUEST_REGISTER), 0b00001);
}

#[test]
fn each_kind_is_served_at_its_vector() {
    let kinds = [(0u8, 0x40u16), (1, 0x48), (2, 0x50), (3, 0x58), (4, 0x60)];
    for (bit, vector) in kinds {
        let mut runtime = runtime_with(0b11111, 1 << bit);
        runtime.master_interrupt_enabled = true;
        assert_eq!(runtime.handle_interrupts(), 5);
        assert_eq!(runtime.cpu.pc, vector);
        assert_eq!(runtime.cpu.memory.read_byte(INTERRUPT_REQUEST_REGISTER), 0b11111 & !(1 << bit));
    }
}

#[test]
fn dispatch_adds_five_cycles_to_the_step() {
    let mut runtime = runtime_with(0b00101, 0b00101);
    runtime.master_interrupt_enabled = true;
    assert_eq!(runtime.step(), Ok((6, None)));
    assert_eq!(runtime.cpu.registers.b, 1);
    assert_eq!(runtime.cpu.pc, 0x0040);
    assert_eq!(runtime.cpu.pop(), 0x0101);
    assert!(!runtime.master_interrupt_enabled);
}

#[test]
fn enabling_takes_effect_after_the_next_instruction() {
    let mut runtime = runtime_with(0b00001, 0b00001);
    runtime.cpu.master_interrupt_request = true;
    assert_eq!(runtime.step(), Ok((1, None)));
    assert_eq!(runtime.cpu.pc, 0x0101);
    assert!(runtime.master_interrupt_enabled);
    assert_eq!(runtime.step(), Ok((6, None)));
    assert_eq!(runtime.cpu.registers.c, 1);
    assert_eq!(runtime.cpu.pc, 0x0040);
    assert!(!runtime.master_interrupt_enabled);
    assert!(!runtime.cpu.master_interrupt_request);
    assert_eq!(runtime.step(), Ok((1, None)));
    assert_eq!(runtime.cpu.registers.d, 1);
}

#[test]
fn enable_instruction_arms_after_the_following_instruction() {
    let mut image = vec![0u8; 0x200];
    image[0x100] = 0xFB;
    image[0x101] = 0x04;
    image[0x102] = 0x0C;
    image[0x48] = 0x14;
    let mut runtime = Runtime::initialize(&image).unwrap();
    runtime.cpu.memory.write_byte(INTERRUPT_REQUEST_REGISTER, 0b00010);
    runtime.cpu.memory.write_byte(INTERRUPT_ENABLE_REGISTER, 0b00010);
    assert_eq!(runtime.step(), Ok((1, None)));
    assert!(runtime.master_interrupt_enabled);
    assert_eq!(runtime.cpu.pc, 0x0101);
    assert_eq!(runtime.step(), Ok((6, None)));
    assert_eq!(runtime.cpu.registers.b, 1);
    assert_eq!(runtime.cpu.pc, 0x0048);
    assert_eq!(runtime.cpu.memory.read_byte(INTERRUPT_REQUEST_REGISTER), 0);
    assert_eq!(runtime.step(), Ok((1, None)));
    assert_eq!(runtime.cpu.registers.d, 1);
    assert_eq!(runtime.cpu.registers.c, 0);
}

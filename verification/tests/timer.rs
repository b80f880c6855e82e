use lr35902::memory::{
    DIVIDER_REGISTER, INTERRUPT_REQUEST_REGISTER, TIMER_CONTROL_REGISTER, TIMER_MODULO_REGISTER,
    TIMER_REGISTER,
};
use lr35902::runtime::Runtime;
use lr35902::timer_control::{calc_increments, TimerControl, TimerSpeed};

fn runtime() -> Runtime {
    Runtime::initialize(&[0u8]).unwrap()
}

fn runtime_with_timer(control: u8, counter: u8, modulo: u8) -> Runtime {
    let mut runtime = runtime();
    runtime.cpu.memory.write_byte(TIMER_CONTROL_REGISTER, control);
    runtime.cpu.memory.write_byte(TIMER_REGISTER, counter);
    runtime.cpu.memory.write_byte(TIMER_MODULO_REGISTER, modulo);
    runtime.old_tma = modulo;
    runtime
}

#[test]
fn speeds_have_their_periods() {
    assert_eq!(usize::from(TimerSpeed::Clock1024), 256);
    assert_eq!(usize::from(TimerSpeed::Clock16), 4);
    assert_eq!(usize::from(TimerSpeed::Clock64), 16);
    assert_eq!(usize::from(TimerSpeed::Clock256), 64);
}

#[test]
fn selector_chooses_the_speed() {
    assert_eq!(TimerSpeed::from_index(0), TimerSpeed::Clock1024);
    assert_eq!(TimerSpeed::from_index(1), TimerSpeed::Clock16);
    assert_eq!(TimerSpeed::from_index(2), TimerSpeed::Clock64);
    assert_eq!(TimerSpeed::from_index(3), TimerSpeed::Clock256);
}

#[test]
fn control_byte_unpacks_enable_and_speed() {
    assert_eq!(
        TimerControl::from(0b0000_0111),
        TimerControl { enabled: true, speed: TimerSpeed::Clock256 }
    );
    assert_eq!(
        TimerControl::from(0b0000_0011),
        TimerControl { enabled: false, speed: TimerSpeed::Clock256 }
    );
    assert_eq!(
        TimerControl::from(0b0000_0100),
        TimerControl { enabled: true, speed: TimerSpeed::Clock1024 }
    );
    assert_eq!(
        TimerControl::from(0b1111_1001),
        TimerControl { enabled: false, speed: TimerSpeed::Clock16 }
    );
    assert_eq!(
        TimerControl::from(0b1111_1110),
        TimerControl { enabled: true, speed: TimerSpeed::Clock64 }
    );
}

#[test]
fn one_crossing_between_sixty_and_sixty_eight() {
    assert_eq!(calc_increments(TimerSpeed::Clock256, 60, 8), 1);
}

#[test]
fn no_crossing_between_ten_and_fourteen() {
    assert_eq!(calc_increments(TimerSpeed::Clock256, 10, 4), 0);
}

#[test]
fn crossings_are_counted_at_the_boundary() {
    assert_eq!(calc_increments(TimerSpeed::Clock256, 63, 1), 1);
    assert_eq!(calc_increments(TimerSpeed::Clock256, 64, 63), 0);
    assert_eq!(calc_increments(TimerSpeed::Clock256, 64, 64), 1);
    assert_eq!(calc_increments(TimerSpeed::Clock256, 0, 0), 0);
    assert_eq!(calc_increments(TimerSpeed::Clock16, 3, 1), 1);
    assert_eq!(calc_increments(TimerSpeed::Clock16, 0, 3), 0);
    assert_eq!(calc_increments(TimerSpeed::Clock16, 2, 9), 2);
    assert_eq!(calc_increments(TimerSpeed::Clock16, 3, 9), 3);
    assert_eq!(calc_increments(TimerSpeed::Clock64, 15, 17), 2);
    assert_eq!(calc_increments(TimerSpeed::Clock1024, 255, 1), 1);
    assert_eq!(calc_increments(TimerSpeed::Clock1024, 0, 255), 0);
}

#[test]
fn crossings_equal_the_difference_of_the_quotients() {
    let speeds = [
        (TimerSpeed::Clock1024, 256usize),
        (TimerSpeed::Clock16, 4),
        (TimerSpeed::Clock64, 16),
        (TimerSpeed::Clock256, 64),
    ];
    for (speed, period) in speeds {
        for past in 0..600usize {
            for stepped in 0..40usize {
                let expected = (past + stepped) / period - past / period;
                assert_eq!(calc_increments(speed, past, stepped) as usize, expected);
            }
        }
    }
}

#[test]
fn crossings_are_kept_in_eight_bits() {
    assert_eq!(calc_increments(TimerSpeed::Clock16, 0, 4 * 255), 255);
    assert_eq!(calc_increments(TimerSpeed::Clock16, 0, 4 * 256), 0);
    assert_eq!(calc_increments(TimerSpeed::Clock16, 0, 4 * 257), 1);
}

#[test]
fn crossings_near_the_end_of_the_clock() {
    assert_eq!(calc_increments(TimerSpeed::Clock16, usize::MAX, 1), 1);
    assert_eq!(calc_increments(TimerSpeed::Clock16, usize::MAX - 3, 3), 0);
    assert_eq!(calc_increments(TimerSpeed::Clock256, 0, usize::MAX), 0xFF);
    assert_eq!(calc_increments(TimerSpeed::Clock256, usize::MAX, usize::MAX), 0x00);
}

#[test]
fn divider_counts_its_ticks() {
    let mut runtime = runtime();
    runtime.step_counter = 60;
    runtime.handle_timers(8);
    assert_eq!(runtime.cpu.memory.read_byte(DIVIDER_REGISTER), 1);
    runtime.step_counter = 10;
    runtime.handle_timers(4);
    assert_eq!(runtime.cpu.memory.read_byte(DIVIDER_REGISTER), 1);
    runtime.step_counter = 127;
    runtime.handle_timers(1);
    assert_eq!(runtime.cpu.memory.read_byte(DIVIDER_REGISTER), 2);
}

#[test]
fn divider_stands_still_while_stopped() {
    let mut runtime = runtime();
    runtime.cpu.stopped = true;
    runtime.step_counter = 60;
    runtime.handle_timers(8);
    assert_eq!(runtime.cpu.memory.read_byte(DIVIDER_REGISTER), 0);
}

#[test]
fn divider_wraps() {
    let mut runtime = runtime();
    runtime.cpu.memory.increment_div(0xFF);
    runtime.step_counter = 63;
    runtime.handle_timers(1);
    assert_eq!(runtime.cpu.memory.read_byte(DIVIDER_REGISTER), 0);
}

#[test]
fn timer_counts_one_crossing_at_selector_three() {
    let mut runtime = runtime_with_timer(0b111, 0x10, 0x00);
    runtime.step_counter = 60;
    runtime.handle_timers(8);
    assert_eq!(runtime.cpu.memory.read_byte(TIMER_REGISTER), 0x11);
    runtime.step_counter = 10;
    runtime.handle_timers(4);
    assert_eq!(runtime.cpu.memory.read_byte(TIMER_REGISTER), 0x11);
    assert_eq!(runtime.cpu.memory.read_byte(INTERRUPT_REQUEST_REGISTER), 0);
    assert!(!runtime.delay_timer_reset);
}

#[test]
fn disabled_timer_stands_still() {
    let mut runtime = runtime_with_timer(0b011, 0x10, 0x00);
    runtime.step_counter = 60;
    runtime.handle_timers(8);
    assert_eq!(runtime.cpu.memory.read_byte(TIMER_REGISTER), 0x10);
    assert_eq!(runtime.cpu.memory.read_byte(DIVIDER_REGISTER), 1);
}

#[test]
fn timer_keeps_counting_while_stopped() {
    let mut runtime = runtime_with_timer(0b101, 0x10, 0x00);
    runtime.cpu.stopped = true;
    runtime.handle_timers(8);
    assert_eq!(runtime.cpu.memory.read_byte(TIMER_REGISTER), 0x12);
    assert_eq!(runtime.cpu.memory.read_byte(DIVIDER_REGISTER), 0);
}

#[test]
fn overflow_past_zero_reloads_and_requests_at_once() {
    let mut runtime = runtime_with_timer(0b101, 0xFF, 0x40);
    runtime.handle_timers(8);
    assert_eq!(runtime.cpu.memory.read_byte(TIMER_REGISTER), 0x41);
    assert_eq!(runtime.cpu.memory.read_byte(INTERRUPT_REQUEST_REGISTER), 0b100);
    assert!(!runtime.delay_timer_reset);
}

#[test]
fn overflow_to_zero_puts_reload_and_request_off() {
    let mut runtime = runtime_with_timer(0b101, 0xFE, 0x40);
    runtime.handle_timers(8);
    assert_eq!(runtime.cpu.memory.read_byte(TIMER_REGISTER), 0x00);
    assert_eq!(runtime.cpu.memory.read_byte(INTERRUPT_REQUEST_REGISTER), 0);
    assert!(runtime.delay_timer_reset);
    runtime.step_counter = 8;
    runtime.handle_timers(4);
    assert_eq!(runtime.cpu.memory.read_byte(TIMER_REGISTER), 0x41);
    assert_eq!(runtime.cpu.memory.read_byte(INTERRUPT_REQUEST_REGISTER), 0b100);
    assert!(!runtime.delay_timer_reset);
}

#[test]
fn delayed_reload_while_disabled_only_requests() {
    let mut runtime = runtime_with_timer(0b001, 0x00, 0x40);
    runtime.delay_timer_reset = true;
    runtime.handle_timers(4);
    assert_eq!(runtime.cpu.memory.read_byte(TIMER_REGISTER), 0x00);
    assert_eq!(runtime.cpu.memory.read_byte(INTERRUPT_REQUEST_REGISTER), 0b100);
    assert!(!runtime.delay_timer_reset);
}

#[test]
fn reload_uses_the_modulo_noted_before_the_step() {
    let mut runtime = runtime_with_timer(0b101, 0xFF, 0x40);
    runtime.old_tma = 0x20;
    runtime.handle_timers(8);
    assert_eq!(runtime.cpu.memory.read_byte(TIMER_REGISTER), 0x21);
}

#[test]
fn reload_wraps_at_256() {
    let mut runtime = runtime_with_timer(0b101, 0xFF, 0xFF);
    runtime.handle_timers(8);
    assert_eq!(runtime.cpu.memory.read_byte(TIMER_REGISTER), 0x00);
    assert_eq!(runtime.cpu.memory.read_byte(INTERRUPT_REQUEST_REGISTER), 0b100);
    assert!(!runtime.delay_timer_reset);
}

#[test]
fn timer_request_keeps_other_requests() {
    let mut runtime = runtime_with_timer(0b101, 0xFF, 0x00);
    runtime.cpu.memory.write_byte(INTERRUPT_REQUEST_REGISTER, 0b0001_0001);
    runtime.handle_timers(8);
    assert_eq!(runtime.cpu.memory.read_byte(INTERRUPT_REQUEST_REGISTER), 0b0001_0101);
}

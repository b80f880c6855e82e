//! The runtime: steps the processor, serves interrupts, advances the timers
//! and collects what the program sends over the serial port.

use vstd::prelude::*;
use crate::alu::sum;
use crate::cpu::CPU;
use crate::interrupt::Interrupt;
use crate::machine::{Fault, Machine};
use crate::memory::{
    loaded, store, with_divider_advanced, with_timer_requested, LoadError,
    INTERRUPT_ENABLE_REGISTER, INTERRUPT_REQUEST_REGISTER, SERIAL_CONTROL_REGISTER,
    SERIAL_DATA_REGISTER, TIMER_CONTROL_REGISTER, TIMER_MODULO_REGISTER, TIMER_REGISTER,
};
use crate::timer_control::{calc_increments, increments, TimerControl, TimerSpeed};

verus! {

/// The value of the serial control register that marks a byte as sent.
pub const SERIAL_TRANSFER_DONE: u8 = 0x81;

/// The speed at which the divider counts.
pub const DIV_SPEED: TimerSpeed = TimerSpeed::Clock256;

/// Machine cycles that serving an interrupt adds to a step.
pub const INTERRUPT_CYCLES: usize = 5;

/// The processor with the state of its timers and of the interrupt switch.
pub struct Runtime {
    pub cpu: CPU,
    /// The machine cycles run so far, wrapping.
    pub step_counter: usize,
    /// Whether interrupts are served.
    pub master_interrupt_enabled: bool,
    /// Set when the timer overflowed to exactly zero: the reload and the
    /// interrupt request follow at the next update.
    pub delay_timer_reset: bool,
    /// The timer modulo as it was before the last step.
    pub old_tma: u8,
}

/// The state of the runtime as the contracts see it.
pub struct System {
    pub cpu: Machine,
    pub step_counter: usize,
    pub master_interrupt_enabled: bool,
    pub delay_timer_reset: bool,
    pub old_tma: u8,
}

/// What a run produced.
pub struct RunReport {
    /// The bytes that the program sent over the serial port, in order.
    pub output: Vec<u8>,
    /// The fault that ended the run, if one did.
    pub fault: Option<Fault>,
}

impl View for Runtime {
    type V = System;

    open spec fn view(&self) -> System {
        System {
            cpu: self.cpu@,
            step_counter: self.step_counter,
            master_interrupt_enabled: self.master_interrupt_enabled,
            delay_timer_reset: self.delay_timer_reset,
            old_tma: self.old_tma,
        }
    }
}

/// The byte that the program has sent over the serial port, if it has sent
/// one: the serial data register, when the serial control register holds
/// 0x81.
pub open spec fn serial_output(cpu: Machine) -> Option<u8> {
    if cpu.read(SERIAL_CONTROL_REGISTER) == SERIAL_TRANSFER_DONE {
        Some(cpu.read(SERIAL_DATA_REGISTER))
    } else {
        None
    }
}

/// The processor after a sent byte was taken: the serial control register is
/// cleared.
pub open spec fn acknowledged(cpu: Machine) -> Machine {
    if cpu.read(SERIAL_CONTROL_REGISTER) == SERIAL_TRANSFER_DONE {
        cpu.write(SERIAL_CONTROL_REGISTER, 0x00)
    } else {
        cpu
    }
}

/// A sent byte as a sequence of one byte, or of none.
pub open spec fn emitted(output: Option<u8>) -> Seq<u8> {
    match output {
        Some(byte) => seq![byte],
        None => Seq::empty(),
    }
}

/// A cycle count advanced by some cycles, wrapping at the size of the
/// counter.
pub open spec fn clock_advanced(counter: usize, steps: usize) -> usize {
    if counter + steps > usize::MAX {
        (counter + steps - usize::MAX - 1) as usize
    } else {
        (counter + steps) as usize
    }
}

impl System {
    /// The state of a runtime that starts on the given address space.
    pub open spec fn initial(memory: Seq<u8>) -> System {
        System {
            cpu: Machine::initial(memory),
            step_counter: 0,
            master_interrupt_enabled: false,
            delay_timer_reset: false,
            old_tma: 0,
        }
    }

    /// The interrupt of the highest priority that is both requested and
    /// enabled.
    pub open spec fn pending(self) -> Interrupt {
        Interrupt::pending(
            self.cpu.read(INTERRUPT_REQUEST_REGISTER) & self.cpu.read(INTERRUPT_ENABLE_REGISTER),
        )
    }

    /// The state after interrupts were looked at, and the cycles that this
    /// took.
    ///
    /// Nothing happens while interrupts are not served or none is pending.
    /// Otherwise the pending interrupt of the highest priority is served:
    /// the program counter is pushed and set to the interrupt's vector,
    /// serving interrupts and the request to serve them are switched off,
    /// the interrupt's bit is cleared in the request register, and five
    /// cycles are taken.
    pub open spec fn interrupted(self) -> (System, usize) {
        let interrupt = self.pending();
        if !self.master_interrupt_enabled || interrupt == Interrupt::Nothing {
            (self, 0)
        } else {
            let called = Machine {
                master_interrupt_request: false,
                ..self.cpu.called(interrupt.vector())
            };
            let requests = called.read(INTERRUPT_REQUEST_REGISTER);
            (
                System {
                    cpu: called.write(INTERRUPT_REQUEST_REGISTER, requests & !interrupt.mask()),
                    master_interrupt_enabled: false,
                    ..self
                },
                5,
            )
        }
    }

    /// The state after one instruction, with the cycles it took and the byte
    /// it sent, or the fault it met.
    ///
    /// The processor makes one step. A fault ends the step there. Otherwise
    /// interrupts are looked at, with the switch as it stood before the
    /// step; then the switch takes the value that the program asked for, so
    /// that a request made by an instruction is served after the next one at
    /// the earliest. Last, a byte sent over the serial port is taken and
    /// acknowledged.
    pub open spec fn stepped(self) -> (System, Result<(usize, Option<u8>), Fault>) {
        let (cpu, result) = self.cpu.step();
        match result {
            Err(fault) => (System { cpu, ..self }, Err(fault)),
            Ok(cycles) => {
                let (served, overhead) = (System { cpu, ..self }).interrupted();
                (
                    System {
                        cpu: acknowledged(served.cpu),
                        master_interrupt_enabled: served.cpu.master_interrupt_request,
                        ..served
                    },
                    Ok(((cycles + overhead) as usize, serial_output(served.cpu))),
                )
            },
        }
    }

    /// The state after the timers were advanced over the `steps` cycles just
    /// run.
    ///
    /// The divider advances by its ticks unless the processor is stopped. A
    /// reload that was put off is made now: the timer takes the modulo and
    /// the timer interrupt is requested. While the timer is enabled it then
    /// advances by its own ticks. When it passes 0xFF and lands on zero, it
    /// stays zero and reload and request are put off to the next update;
    /// when it lands above zero, the modulo is added to it and the timer
    /// interrupt is requested at once. The modulo is the one that stood
    /// before the last step.
    pub open spec fn timed(self, steps: usize) -> System {
        let cpu = self.cpu;
        let divided = if cpu.stopped {
            cpu.memory
        } else {
            with_divider_advanced(
                cpu.memory,
                increments(DIV_SPEED, self.step_counter, steps),
            )
        };
        let tma = self.old_tma;
        let reloaded = if self.delay_timer_reset {
            with_timer_requested(divided)
        } else {
            divided
        };
        let tima = if self.delay_timer_reset {
            tma
        } else {
            divided[TIMER_REGISTER as int]
        };
        let control = TimerControl::of_byte(reloaded[TIMER_CONTROL_REGISTER as int]);
        let total = tima + increments(control.speed, self.step_counter, steps);
        if !control.enabled {
            System { cpu: Machine { memory: reloaded, ..cpu }, delay_timer_reset: false, ..self }
        } else if total <= 255 {
            System {
                cpu: Machine { memory: store(reloaded, TIMER_REGISTER, total as u8), ..cpu },
                delay_timer_reset: false,
                ..self
            }
        } else if total == 256 {
            System {
                cpu: Machine { memory: store(reloaded, TIMER_REGISTER, 0), ..cpu },
                delay_timer_reset: true,
                ..self
            }
        } else {
            System {
                cpu: Machine {
                    memory: store(
                        with_timer_requested(reloaded),
                        TIMER_REGISTER,
                        sum((total - 256) as u8, tma),
                    ),
                    ..cpu
                },
                delay_timer_reset: false,
                ..self
            }
        }
    }

    /// The state after one turn of the runtime, with the byte sent in it, or
    /// the fault that it met: the timer modulo is noted, one instruction is
    /// run, the timers are advanced over its cycles, and the cycles are
    /// added to the clock. After a fault neither timers nor clock advance.
    pub open spec fn ticked(self) -> (System, Result<Option<u8>, Fault>) {
        let noted = System { old_tma: self.cpu.read(TIMER_MODULO_REGISTER), ..self };
        let (after, result) = noted.stepped();
        match result {
            Err(fault) => (after, Err(fault)),
            Ok((steps, output)) => (
                System {
                    step_counter: clock_advanced(after.step_counter, steps),
                    ..after.timed(steps)
                },
                Ok(output),
            ),
        }
    }

    /// The state after up to `turns` turns, the bytes sent in them, and the
    /// fault that ended them early, if one did. No turn is made after a
    /// fault.
    pub open spec fn ran(self, turns: nat) -> (System, Seq<u8>, Option<Fault>)
        decreases turns,
    {
        if turns == 0 {
            (self, Seq::empty(), None)
        } else {
            let (before, output, fault) = self.ran((turns - 1) as nat);
            if fault.is_some() {
                (before, output, fault)
            } else {
                let (after, result) = before.ticked();
                match result {
                    Err(fault) => (after, output, Some(fault)),
                    Ok(byte) => (after, output + emitted(byte), None),
                }
            }
        }
    }

    /// Once a fault has ended a run, more turns change nothing.
    pub proof fn lemma_fault_ends_run(self, turns: nat, more: nat)
        requires
            self.ran(turns).2.is_some(),
            more >= turns,
        ensures
            self.ran(more) == self.ran(turns),
        decreases more,
    {
        if more > turns {
            self.lemma_fault_ends_run(turns, (more - 1) as nat);
        }
    }
}

impl Runtime {
    /// Builds a runtime whose address space holds the image from address 0
    /// on. An empty image and one larger than the address space are refused.
    pub fn initialize(image: &[u8]) -> (result: Result<Runtime, LoadError>)
        ensures
            image@.len() == 0 ==> result == Err::<Runtime, LoadError>(LoadError::Empty),
            image@.len() > 0x10000 ==> result == Err::<Runtime, LoadError>(LoadError::TooLarge),
            0 < image@.len() <= 0x10000 ==> result.is_ok() && result.unwrap()@ == System::initial(
                loaded(image@),
            ),
    {
        match CPU::initialize(image) {
            Err(error) => Err(error),
            Ok(cpu) => Ok(
                Runtime {
                    cpu,
                    step_counter: 0,
                    master_interrupt_enabled: false,
                    delay_timer_reset: false,
                    old_tma: 0,
                },
            ),
        }
    }

    /// Runs up to `turns` turns and returns the bytes that the program sent
    /// and the fault that ended the run, if one did.
    pub fn run(&mut self, turns: usize) -> (report: RunReport)
        ensures
            final(self)@ == old(self)@.ran(turns as nat).0,
            report.output@ == old(self)@.ran(turns as nat).1,
            report.fault == old(self)@.ran(turns as nat).2,
    {
        let mut output: Vec<u8> = Vec::new();
        let mut fault: Option<Fault> = None;
        let mut turn: usize = 0;
        while turn < turns && fault.is_none()
            invariant
                turn <= turns,
                (self@, output@, fault) == old(self)@.ran(turn as nat),
            decreases turns - turn,
        {
            match self.tick() {
                Ok(Some(byte)) => {
                    output.push(byte);
                },
                Ok(None) => {
                    assert(output@ + Seq::<u8>::empty() =~= output@);
                },
                Err(error) => {
                    fault = Some(error);
                },
            }
            turn += 1;
        }
        proof {
            if fault.is_some() {
                old(self)@.lemma_fault_ends_run(turn as nat, turns as nat);
            }
        }
        RunReport { output, fault }
    }

    /// Makes one turn: notes the timer modulo, runs one instruction,
    /// advances the timers and the clock. Returns the byte that the program
    /// sent in this turn, if it sent one, or the fault that the step met.
    pub fn tick(&mut self) -> (result: Result<Option<u8>, Fault>)
        ensures
            final(self)@ == old(self)@.ticked().0,
            result == old(self)@.ticked().1,
    {
        self.old_tma = self.cpu.memory.read_byte(TIMER_MODULO_REGISTER);
        match self.step() {
            Err(fault) => Err(fault),
            Ok((steps, output)) => {
                self.handle_timers(steps);
                self.step_counter = self.step_counter.wrapping_add(steps);
                Ok(output)
            },
        }
    }

    /// Advances the divider and the timer over the cycles just run.
    pub fn handle_timers(&mut self, steps: usize)
        ensures
            final(self)@ == old(self)@.timed(steps),
    {
        if !self.cpu.stopped {
            let div_increments: u8 = calc_increments(DIV_SPEED, self.step_counter, steps);
            self.cpu.memory.increment_div(div_increments);
        }
        let tma: u8 = self.old_tma;
        let mut tima: u8 = if self.delay_timer_reset {
            self.cpu.memory.flag_timer_interrrupt();
            self.delay_timer_reset = false;
            tma
        } else {
            self.cpu.memory.read_byte(TIMER_REGISTER)
        };
        let tima_control: TimerControl = TimerControl::from(
            self.cpu.memory.read_byte(TIMER_CONTROL_REGISTER),
        );
        if tima_control.enabled {
            let tima_increments: u8 = calc_increments(tima_control.speed, self.step_counter, steps);
            let overflow: bool = tima_increments > 255 - tima;
            let mut new_tima: u8 = tima.wrapping_add(tima_increments);
            if overflow {
                if new_tima == 0x00 {
                    self.delay_timer_reset = true;
                } else {
                    new_tima = new_tima.wrapping_add(tma);
                    self.cpu.memory.flag_timer_interrrupt();
                }
            }
            tima = new_tima;
            self.cpu.memory.write_byte(TIMER_REGISTER, tima);
        }
    }

    /// Serves the pending interrupt of the highest priority, if interrupts
    /// are served and one is pending, and returns the cycles that this took.
    pub fn handle_interrupts(&mut self) -> (cycles: usize)
        ensures
            final(self)@ == old(self)@.interrupted().0,
            cycles == old(self)@.interrupted().1,
            cycles == 0 || cycles == 5,
    {
        if !self.master_interrupt_enabled {
            return 0;
        }
        let interrupt: Interrupt = self.check_interrupts();
        match interrupt {
            Interrupt::Nothing => {
                return 0;
            },
            _ => {
                self.cpu.call(interrupt.address());
                self.master_interrupt_enabled = false;
                self.cpu.master_interrupt_request = false;
                let interrupt_requests = self.cpu.memory.read_byte(INTERRUPT_REQUEST_REGISTER);
                self.cpu.memory.write_byte(
                    INTERRUPT_REQUEST_REGISTER,
                    interrupt_requests & !u8::from(interrupt),
                );
                return INTERRUPT_CYCLES;
            },
        }
    }

    /// Finds the interrupt of the highest priority that is both requested
    /// and enabled.
    pub fn check_interrupts(&self) -> (interrupt: Interrupt)
        ensures
            interrupt == self@.pending(),
    {
        Interrupt::from(
            self.cpu.memory.read_byte(INTERRUPT_REQUEST_REGISTER) & self.cpu.memory.read_byte(
                INTERRUPT_ENABLE_REGISTER,
            ),
        )
    }

    /// Runs one instruction and serves interrupts. Returns the cycles taken
    /// and the byte that the program sent, if it sent one, or the fault that
    /// the processor met.
    pub fn step(&mut self) -> (result: Result<(usize, Option<u8>), Fault>)
        ensures
            final(self)@ == old(self)@.stepped().0,
            result == old(self)@.stepped().1,
    {
        let mut steps: usize = match self.cpu.step() {
            Ok(cycles) => cycles,
            Err(fault) => {
                return Err(fault);
            },
        };
        steps += self.handle_interrupts();
        self.master_interrupt_enabled = self.cpu.master_interrupt_request;
        let mut output: Option<u8> = None;
        if self.cpu.memory.read_byte(SERIAL_CONTROL_REGISTER) == SERIAL_TRANSFER_DONE {
            output = Some(self.cpu.memory.read_byte(SERIAL_DATA_REGISTER));
            self.cpu.memory.write_byte(SERIAL_CONTROL_REGISTER, 0x00);
        }
        Ok((steps, output))
    }
}

} // verus!

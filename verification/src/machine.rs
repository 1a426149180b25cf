//! The whole machine as a mathematical value, and what each instruction and
//! each cycle does to it.

use vstd::prelude::*;
use crate::alu::digits;
use crate::chip8::FONT_SET;
use crate::cpu::{ticked, wrap16, wrap8, CpuState, NUM_REGISTERS, STACK_SIZE};
use crate::display::{blank, blit, blit_collides, SCREEN_CELLS};
use crate::error::{BoundsError, StepError};
use crate::keyboard::{all_released, lowest_pressed, NUM_KEYS};
use crate::opcode::{decode, Opcode};
use crate::ram::{with_bytes, zeroed_memory, MEMORY_SIZE};

verus! {

/// Whether the machine runs or is blocked in a wait for a key.
#[derive(Clone, Copy, Debug, PartialEq, Eq)]
pub enum RunState {
    /// Each cycle fetches, decodes and executes one instruction.
    Running,
    /// A wait for a key has found none pressed. The program counter stands at
    /// the waiting instruction; the key will be stored in the register named here.
    AwaitingKey(u8),
}

/// The state of the machine: memory, control unit, framebuffer, key latch
/// and run state.
#[verifier::ext_equal]
pub struct Machine {
    pub memory: Seq<u8>,
    pub cpu: CpuState,
    pub screen: Seq<bool>,
    pub keys: Seq<bool>,
    pub state: RunState,
}

impl Machine {
    /// Whether every component has its fixed size.
    pub open spec fn wf(self) -> bool {
        &&& self.memory.len() == MEMORY_SIZE
        &&& self.cpu.registers.len() == NUM_REGISTERS
        &&& self.cpu.stack.len() == STACK_SIZE
        &&& self.screen.len() == SCREEN_CELLS
        &&& self.keys.len() == NUM_KEYS
    }

    /// The machine at power-on and after a reset: the font table at the
    /// bottom of an otherwise zero memory, a blank screen, no key pressed.
    pub open spec fn initial() -> Machine {
        Machine {
            memory: with_bytes(zeroed_memory(), 0, FONT_SET@),
            cpu: CpuState::initial(),
            screen: blank(),
            keys: all_released(),
            state: RunState::Running,
        }
    }

    /// The machine with its control unit replaced.
    pub open spec fn with_cpu(self, cpu: CpuState) -> Machine {
        Machine { cpu, ..self }
    }

    /// The machine with its memory replaced.
    pub open spec fn with_memory(self, memory: Seq<u8>) -> Machine {
        Machine { memory, ..self }
    }

    /// The machine with key `key` latched as `pressed`; unchanged if there
    /// is no such key.
    pub open spec fn with_key(self, key: u8, pressed: bool) -> Machine {
        if key < NUM_KEYS {
            Machine { keys: self.keys.update(key as int, pressed), ..self }
        } else {
            self
        }
    }

    /// The machine after one tick of its timers.
    pub open spec fn ticked(self) -> Machine {
        self.with_cpu(
            CpuState { delay: ticked(self.cpu.delay), sound: ticked(self.cpu.sound), ..self.cpu },
        )
    }

    /// The `count` bytes of memory from the index register on.
    pub open spec fn at_index(self, count: int) -> Seq<u8> {
        Seq::new(count as nat, |k: int| self.memory[self.cpu.index + k])
    }

    /// Whether the `count` bytes from the index register on all lie in memory.
    pub open spec fn index_in_range(self, count: int) -> bool {
        count == 0 || self.cpu.index + count <= MEMORY_SIZE
    }

    /// The machine after `op` has been executed, or the failure that leaves
    /// it as it is. `random` is the byte that the random instruction draws.
    pub open spec fn execute(self, op: Opcode, random: u8) -> Result<Machine, BoundsError> {
        let cpu = self.cpu;
        if !op.registers_in_range() {
            Err(BoundsError::Register)
        } else {
            match op {
                Opcode::ClearScreen => Ok(Machine { screen: blank(), ..self }),
                Opcode::Return => if cpu.can_pop() {
                    Ok(self.with_cpu(cpu.popped().with_pc(cpu.top())))
                } else {
                    Err(BoundsError::Stack)
                },
                Opcode::Jump(addr) => Ok(self.with_cpu(cpu.with_pc(addr))),
                Opcode::Call(addr) => if cpu.can_push() {
                    Ok(self.with_cpu(cpu.pushed(cpu.pc).with_pc(addr)))
                } else {
                    Err(BoundsError::Stack)
                },
                Opcode::SkipEqImm(x, nn) => Ok(self.with_cpu(cpu.skip_if(cpu.reg(x) == nn))),
                Opcode::SkipNeqImm(x, nn) => Ok(self.with_cpu(cpu.skip_if(cpu.reg(x) != nn))),
                Opcode::SkipEqReg(x, y) => Ok(self.with_cpu(cpu.skip_if(cpu.reg(x) == cpu.reg(y)))),
                Opcode::SetImm(x, nn) => Ok(self.with_cpu(cpu.with_register(x, nn))),
                Opcode::AddImm(x, nn) => Ok(
                    self.with_cpu(cpu.with_register(x, wrap8(cpu.reg(x) + nn))),
                ),
                Opcode::CopyReg(x, y) => Ok(self.with_cpu(cpu.with_register(x, cpu.reg(y)))),
                Opcode::Or(x, y) => Ok(
                    self.with_cpu(cpu.with_register(x, cpu.reg(x) | cpu.reg(y))),
                ),
                Opcode::And(x, y) => Ok(
                    self.with_cpu(cpu.with_register(x, cpu.reg(x) & cpu.reg(y))),
                ),
                Opcode::Xor(x, y) => Ok(
                    self.with_cpu(cpu.with_register(x, cpu.reg(x) ^ cpu.reg(y))),
                ),
                Opcode::AddReg(x, y) => Ok(
                    self.with_cpu(
                        cpu.with_register(x, wrap8(cpu.reg(x) + cpu.reg(y))).with_flag(
                            cpu.reg(x) + cpu.reg(y) > 0xFF,
                        ),
                    ),
                ),
                Opcode::SubReg(x, y) => Ok(
                    self.with_cpu(
                        cpu.with_register(x, wrap8(cpu.reg(x) - cpu.reg(y))).with_flag(
                            cpu.reg(x) >= cpu.reg(y),
                        ),
                    ),
                ),
                Opcode::ShiftRight(x) => Ok(
                    self.with_cpu(
                        cpu.with_register(x, cpu.reg(x) / 2).with_flag(cpu.reg(x) % 2 == 1),
                    ),
                ),
                Opcode::SubRegRev(x, y) => Ok(
                    self.with_cpu(
                        cpu.with_register(x, wrap8(cpu.reg(y) - cpu.reg(x))).with_flag(
                            cpu.reg(y) >= cpu.reg(x),
                        ),
                    ),
                ),
                Opcode::ShiftLeft(x) => Ok(
                    self.with_cpu(
                        cpu.with_register(x, wrap8(cpu.reg(x) * 2)).with_flag(cpu.reg(x) >= 0x80),
                    ),
                ),
                Opcode::SkipNeqReg(x, y) => Ok(
                    self.with_cpu(cpu.skip_if(cpu.reg(x) != cpu.reg(y))),
                ),
                Opcode::SetIndex(addr) => Ok(self.with_cpu(cpu.with_index(addr))),
                Opcode::JumpOffset(addr) => Ok(
                    self.with_cpu(cpu.with_pc(wrap16(addr + cpu.reg(0)))),
                ),
                Opcode::RandAnd(x, nn) => Ok(self.with_cpu(cpu.with_register(x, random & nn))),
                Opcode::Draw(x, y, n) => if self.index_in_range(n as int) {
                    let sprite = self.at_index(n as int);
                    let (column, row) = (cpu.reg(x) as int, cpu.reg(y) as int);
                    Ok(
                        Machine {
                            screen: blit(self.screen, sprite, column, row),
                            cpu: cpu.with_flag(blit_collides(self.screen, sprite, column, row)),
                            ..self
                        },
                    )
                } else {
                    Err(BoundsError::Memory)
                },
                Opcode::SkipKeyPressed(x) => if cpu.reg(x) < NUM_KEYS {
                    Ok(self.with_cpu(cpu.skip_if(self.keys[cpu.reg(x) as int])))
                } else {
                    Err(BoundsError::Keyboard)
                },
                Opcode::SkipKeyNotPressed(x) => if cpu.reg(x) < NUM_KEYS {
                    Ok(self.with_cpu(cpu.skip_if(!self.keys[cpu.reg(x) as int])))
                } else {
                    Err(BoundsError::Keyboard)
                },
                Opcode::ReadDelay(x) => Ok(self.with_cpu(cpu.with_register(x, cpu.delay))),
                Opcode::AwaitKey(x) => match lowest_pressed(self.keys) {
                    Some(key) => Ok(self.with_cpu(cpu.with_register(x, key))),
                    None => Ok(
                        Machine { cpu: cpu.rewound(), state: RunState::AwaitingKey(x), ..self },
                    ),
                },
                Opcode::SetDelay(x) => Ok(self.with_cpu(CpuState { delay: cpu.reg(x), ..cpu })),
                Opcode::SetSound(x) => Ok(self.with_cpu(CpuState { sound: cpu.reg(x), ..cpu })),
                Opcode::AddIndex(x) => Ok(
                    self.with_cpu(cpu.with_index(wrap16(cpu.index + cpu.reg(x)))),
                ),
                Opcode::FontAddress(x) => Ok(
                    self.with_cpu(cpu.with_index((cpu.reg(x) * 5) as u16)),
                ),
                Opcode::Bcd(x) => if self.index_in_range(3) {
                    Ok(self.with_memory(with_bytes(self.memory, cpu.index as int, digits(cpu.reg(x)))))
                } else {
                    Err(BoundsError::Memory)
                },
                Opcode::StoreRegs(x) => if self.index_in_range(x + 1) {
                    Ok(
                        self.with_memory(
                            with_bytes(self.memory, cpu.index as int, cpu.registers.subrange(0, x + 1)),
                        ),
                    )
                } else {
                    Err(BoundsError::Memory)
                },
                Opcode::LoadRegs(x) => if self.index_in_range(x + 1) {
                    Ok(
                        self.with_cpu(
                            CpuState {
                                registers: with_bytes(cpu.registers, 0, self.at_index(x + 1)),
                                ..cpu
                            },
                        ),
                    )
                } else {
                    Err(BoundsError::Memory)
                },
            }
        }
    }

    /// The machine after an attempt to execute `op`: changed as `execute`
    /// says, or as it was where `execute` fails.
    pub open spec fn after_execute(self, op: Opcode, random: u8) -> Machine {
        match self.execute(op, random) {
            Ok(next) => next,
            Err(_) => self,
        }
    }

    /// How an attempt to execute `op` ends.
    pub open spec fn execute_result(self, op: Opcode, random: u8) -> Result<(), BoundsError> {
        match self.execute(op, random) {
            Ok(_) => Ok(()),
            Err(e) => Err(e),
        }
    }

    /// The instruction word at the program counter, most significant byte
    /// first, or the failure when one of its two bytes lies outside memory.
    pub open spec fn fetch(self) -> Result<u16, BoundsError> {
        if self.cpu.pc + 1 < MEMORY_SIZE {
            Ok((self.memory[self.cpu.pc as int] * 0x100 + self.memory[self.cpu.pc + 1]) as u16)
        } else {
            Err(BoundsError::Memory)
        }
    }

    /// One cycle of a machine that waits for a key to store in register `x`:
    /// nothing while no key is pressed; else the lowest pressed key is stored,
    /// the program counter moves past the waiting instruction and the machine
    /// runs again.
    pub open spec fn resume(self, x: u8) -> (Machine, Result<(), StepError>) {
        match lowest_pressed(self.keys) {
            None => (self, Ok(())),
            Some(key) => if x < NUM_REGISTERS {
                (
                    Machine {
                        cpu: self.cpu.with_register(x, key).skipped(),
                        state: RunState::Running,
                        ..self
                    },
                    Ok(()),
                )
            } else {
                (self, Err(StepError::Bounds(BoundsError::Register)))
            },
        }
    }

    /// One cycle: the machine afterwards, and how the cycle ended.
    ///
    /// A running machine fetches the word at the program counter, moves the
    /// program counter past it, decodes and executes. A failed fetch leaves
    /// the machine as it is; a failed decode or execution leaves it as it is
    /// after the fetch.
    pub open spec fn step(self, random: u8) -> (Machine, Result<(), StepError>) {
        match self.state {
            RunState::AwaitingKey(x) => self.resume(x),
            RunState::Running => match self.fetch() {
                Err(e) => (self, Err(StepError::Bounds(e))),
                Ok(word) => {
                    let fetched = self.with_cpu(self.cpu.skipped());
                    match decode(word) {
                        Err(e) => (fetched, Err(StepError::Decode(e))),
                        Ok(op) => match fetched.execute(op, random) {
                            Ok(next) => (next, Ok(())),
                            Err(e) => (fetched, Err(StepError::Bounds(e))),
                        },
                    }
                },
            },
        }
    }
}

} // verus!

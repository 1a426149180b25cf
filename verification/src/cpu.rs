//! The register file and control unit: general registers, index register,
//! program counter, call stack and the two timers.

use vstd::prelude::*;
use crate::error::BoundsError;

verus! {

/// Depth of the call stack.
pub const STACK_SIZE: usize = 16;

/// Number of general registers, `V0` to `VF`.
pub const NUM_REGISTERS: usize = 16;

/// Index of `VF`, the register that doubles as the flag.
pub const FLAG_REGISTER: u8 = 0xF;

/// Number of bytes of one instruction.
pub const INSTRUCTION_WIDTH: u16 = 2;

/// Address of the first instruction of a loaded program.
pub const PROGRAM_START_ADDRESS: u16 = 0x200;

#[derive(Debug)]
pub struct Cpu {
    pub delay_timer: u8,
    pub sound_timer: u8,
    pub pc: u16,
    pub sp: u8,
    pub i: u16,
    pub stack: [u16; STACK_SIZE],
    pub register: [u8; NUM_REGISTERS],
}

/// The control unit as plain values. `stack` holds all `STACK_SIZE` slots;
/// the return addresses in use are those below `sp`.
#[verifier::ext_equal]
pub struct CpuState {
    pub registers: Seq<u8>,
    pub index: u16,
    pub pc: u16,
    pub sp: u8,
    pub stack: Seq<u16>,
    pub delay: u8,
    pub sound: u8,
}

impl View for Cpu {
    type V = CpuState;

    open spec fn view(&self) -> CpuState {
        CpuState {
            registers: self.register@,
            index: self.i,
            pc: self.pc,
            sp: self.sp,
            stack: self.stack@,
            delay: self.delay_timer,
            sound: self.sound_timer,
        }
    }
}

/// `value` reduced to eight bits.
pub open spec fn wrap8(value: int) -> u8 {
    (value % 0x100) as u8
}

/// `value` reduced to sixteen bits.
pub open spec fn wrap16(value: int) -> u16 {
    (value % 0x1_0000) as u16
}

/// A timer after one tick: one less, and never below zero.
pub open spec fn ticked(timer: u8) -> u8 {
    if timer > 0 {
        (timer - 1) as u8
    } else {
        0
    }
}

impl CpuState {
    /// The state at power-on: everything zero, the program counter at the
    /// program start address.
    pub open spec fn initial() -> CpuState {
        CpuState {
            registers: Seq::new(NUM_REGISTERS as nat, |r: int| 0u8),
            index: 0,
            pc: PROGRAM_START_ADDRESS,
            sp: 0,
            stack: Seq::new(STACK_SIZE as nat, |s: int| 0u16),
            delay: 0,
            sound: 0,
        }
    }

    /// The value of register `register`.
    pub open spec fn reg(self, register: u8) -> u8 {
        self.registers[register as int]
    }

    /// The state with register `register` set to `value`.
    pub open spec fn with_register(self, register: u8, value: u8) -> CpuState {
        CpuState { registers: self.registers.update(register as int, value), ..self }
    }

    /// The state with `VF` set to 1 if `flag` holds, else to 0.
    pub open spec fn with_flag(self, flag: bool) -> CpuState {
        self.with_register(FLAG_REGISTER, if flag { 1u8 } else { 0u8 })
    }

    /// The state with the program counter set to `pc`.
    pub open spec fn with_pc(self, pc: u16) -> CpuState {
        CpuState { pc, ..self }
    }

    /// The state with the index register set to `index`.
    pub open spec fn with_index(self, index: u16) -> CpuState {
        CpuState { index, ..self }
    }

    /// The state with the program counter moved past one instruction.
    pub open spec fn skipped(self) -> CpuState {
        self.with_pc(wrap16(self.pc + INSTRUCTION_WIDTH))
    }

    /// The state with the program counter moved back by one instruction.
    pub open spec fn rewound(self) -> CpuState {
        self.with_pc(wrap16(self.pc - INSTRUCTION_WIDTH))
    }

    /// The state with the program counter moved past one instruction if
    /// `condition` holds, and unchanged otherwise.
    pub open spec fn skip_if(self, condition: bool) -> CpuState {
        if condition {
            self.skipped()
        } else {
            self
        }
    }

    /// The state with `value` pushed onto the call stack.
    pub open spec fn pushed(self, value: u16) -> CpuState {
        CpuState { stack: self.stack.update(self.sp as int, value), sp: (self.sp + 1) as u8, ..self }
    }

    /// The state with the top of the call stack removed.
    pub open spec fn popped(self) -> CpuState {
        CpuState { sp: (self.sp - 1) as u8, ..self }
    }

    /// The return address on top of the call stack.
    pub open spec fn top(self) -> u16 {
        self.stack[self.sp - 1]
    }

    /// Whether a push has room.
    pub open spec fn can_push(self) -> bool {
        self.sp < STACK_SIZE
    }

    /// Whether a pop finds a return address.
    pub open spec fn can_pop(self) -> bool {
        0 < self.sp <= STACK_SIZE
    }
}

impl Cpu {
    pub fn new() -> (cpu: Cpu)
        ensures
            cpu@ == CpuState::initial(),
    {
        Cpu {
            stack: [0u16; STACK_SIZE],
            delay_timer: 0,
            sound_timer: 0,
            pc: PROGRAM_START_ADDRESS,
            sp: 0,
            i: 0,
            register: [0u8; NUM_REGISTERS],
        }
    }

    /// Counts both timers down by one, stopping at zero.
    pub fn tick_timers(&mut self)
        ensures
            final(self)@ == (CpuState {
                delay: ticked(old(self)@.delay),
                sound: ticked(old(self)@.sound),
                ..old(self)@
            }),
    {
        if self.delay_timer > 0 {
            self.delay_timer -= 1;
        }
        if self.sound_timer > 0 {
            self.sound_timer -= 1;
        }
    }

    /// Moves the program counter past one instruction if `condition` holds.
    pub fn skip_if(&mut self, condition: bool)
        ensures
            final(self)@ == old(self)@.skip_if(condition),
    {
        if condition {
            self.pc = self.pc.wrapping_add(INSTRUCTION_WIDTH);
        }
    }

    /// The value of register `register`, or a failure when there is no such register.
    pub fn read_register(&self, register: u8) -> (r: Result<u8, BoundsError>)
        ensures
            register < NUM_REGISTERS ==> r == Ok::<u8, BoundsError>(self@.reg(register)),
            register >= NUM_REGISTERS ==> r == Err::<u8, BoundsError>(BoundsError::Register),
    {
        if (register as usize) < NUM_REGISTERS {
            Ok(self.register[register as usize])
        } else {
            Err(BoundsError::Register)
        }
    }

    /// Sets register `register` to `value`, or fails without writing when
    /// there is no such register.
    pub fn write_register(&mut self, register: u8, value: u8) -> (r: Result<(), BoundsError>)
        ensures
            register < NUM_REGISTERS ==> r is Ok && final(self)@ == old(self)@.with_register(
                register,
                value,
            ),
            register >= NUM_REGISTERS ==> r == Err::<(), BoundsError>(BoundsError::Register)
                && final(self)@ == old(self)@,
    {
        if (register as usize) < NUM_REGISTERS {
            self.register[register as usize] = value;
            Ok(())
        } else {
            Err(BoundsError::Register)
        }
    }

    /// Sets register `register` to `value` and then `VF` to 1 if `flag`
    /// holds, else to 0; fails without writing when there is no such register.
    pub fn write_with_flag(&mut self, register: u8, value: u8, flag: bool) -> (r: Result<
        (),
        BoundsError,
    >)
        ensures
            register < NUM_REGISTERS ==> r is Ok && final(self)@ == old(self)@.with_register(
                register,
                value,
            ).with_flag(flag),
            register >= NUM_REGISTERS ==> r == Err::<(), BoundsError>(BoundsError::Register)
                && final(self)@ == old(self)@,
    {
        self.write_register(register, value)?;
        self.write_register(FLAG_REGISTER, if flag { 1 } else { 0 })
    }

    /// Pushes a return address, or fails without writing when the stack is full.
    pub fn stack_push(&mut self, value: u16) -> (r: Result<(), BoundsError>)
        ensures
            old(self)@.can_push() ==> r is Ok && final(self)@ == old(self)@.pushed(value),
            !old(self)@.can_push() ==> r == Err::<(), BoundsError>(BoundsError::Stack)
                && final(self)@ == old(self)@,
    {
        if (self.sp as usize) < STACK_SIZE {
            self.stack[self.sp as usize] = value;
            self.sp += 1;
            Ok(())
        } else {
            Err(BoundsError::Stack)
        }
    }

    /// Pops the most recent return address, or fails without a change when
    /// the stack holds none.
    pub fn stack_pop(&mut self) -> (r: Result<u16, BoundsError>)
        ensures
            old(self)@.can_pop() ==> r == Ok::<u16, BoundsError>(old(self)@.top()) && final(self)@
                == old(self)@.popped(),
            !old(self)@.can_pop() ==> r == Err::<u16, BoundsError>(BoundsError::Stack)
                && final(self)@ == old(self)@,
    {
        if 0 < self.sp && (self.sp as usize) <= STACK_SIZE {
            self.sp -= 1;
            Ok(self.stack[self.sp as usize])
        } else {
            Err(BoundsError::Stack)
        }
    }
}

impl Default for Cpu {
    fn default() -> (cpu: Cpu)
        ensures
            cpu@ == CpuState::initial(),
    {
        Cpu::new()
    }
}

} // verus!

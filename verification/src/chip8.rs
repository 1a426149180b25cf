//! The interpreter: the machine's components and the fetch-decode-execute engine.

use vstd::prelude::*;
use crate::alu::{add_with_carry, bcd, shift_left, shift_right, sub_with_borrow};
use crate::cpu::{
    wrap16, Cpu, FLAG_REGISTER, INSTRUCTION_WIDTH, NUM_REGISTERS, PROGRAM_START_ADDRESS,
};
use crate::display::{blit, blit_collides, Display};
use crate::error::{BoundsError, LoadError, StepError};
use crate::keyboard::{all_released, Keyboard, NUM_KEYS};
use crate::machine::{Machine, RunState};
use crate::opcode::{decode, Opcode};
use crate::ram::{with_bytes, Ram, FONT_SIZE, MEMORY_SIZE};
use crate::rng::random_byte;

verus! {

/// The glyphs of the sixteen hexadecimal digits, five bytes each: one byte
/// per row, the four pixels of a row in its high nibble.
pub const FONT_SET: [u8; FONT_SIZE] = [
    0xF0, 0x90, 0x90, 0x90, 0xF0, // 0
    0x20, 0x60, 0x20, 0x20, 0x70, // 1
    0xF0, 0x10, 0xF0, 0x80, 0xF0, // 2
    0xF0, 0x10, 0xF0, 0x10, 0xF0, // 3
    0x90, 0x90, 0xF0, 0x10, 0x10, // 4
    0xF0, 0x80, 0xF0, 0x10, 0xF0, // 5
    0xF0, 0x80, 0xF0, 0x90, 0xF0, // 6
    0xF0, 0x10, 0x20, 0x40, 0x40, // 7
    0xF0, 0x90, 0xF0, 0x90, 0xF0, // 8
    0xF0, 0x90, 0xF0, 0x10, 0xF0, // 9
    0xF0, 0x90, 0xF0, 0x90, 0x90, // A
    0xE0, 0x90, 0xE0, 0x90, 0xE0, // B
    0xF0, 0x80, 0x80, 0x80, 0xF0, // C
    0xE0, 0x90, 0x90, 0x90, 0xE0, // D
    0xF0, 0x80, 0xF0, 0x80, 0xF0, // E
    0xF0, 0x80, 0xF0, 0x80, 0x80, // F
];

pub struct Chip8 {
    ram: Ram,
    cpu: Cpu,
    display: Display,
    keyboard: Keyboard,
    state: RunState,
}

impl View for Chip8 {
    type V = Machine;

    closed spec fn view(&self) -> Machine {
        Machine {
            memory: self.ram@,
            cpu: self.cpu@,
            screen: self.display@,
            keys: self.keyboard@,
            state: self.state,
        }
    }
}

impl Chip8 {
    /// A machine at power-on, with the font table loaded.
    pub fn new() -> (chip: Chip8)
        ensures
            chip@ == Machine::initial(),
    {
        let mut chip = Chip8 {
            ram: Ram::new(),
            cpu: Cpu::new(),
            display: Display::new(),
            keyboard: Keyboard::new(),
            state: RunState::Running,
        };
        chip.ram.load_fontset(FONT_SET);
        chip
    }

    /// Puts the machine back to power-on: everything zero, the font table
    /// loaded, the program counter at the program start address.
    pub fn reset(&mut self) -> (chip: &mut Self)
        ensures
            chip@ == Machine::initial(),
            final(self)@ == final(chip)@,
    {
        self.ram = Ram::new();
        self.cpu = Cpu::new();
        self.display = Display::new();
        self.keyboard = Keyboard::new();
        self.state = RunState::Running;
        self.ram.load_fontset(FONT_SET);
        self
    }

    /// Loads the font table into the bottom of memory.
    pub fn initialize(&mut self)
        ensures
            final(self)@ == old(self)@.with_memory(with_bytes(old(self)@.memory, 0, FONT_SET@)),
    {
        self.ram.load_fontset(FONT_SET);
    }

    /// Copies the program `rom` into memory from the program start address
    /// on, or fails without a change when it does not fit.
    pub fn load(&mut self, rom: &[u8]) -> (r: Result<(), LoadError>)
        ensures
            rom@.len() <= MEMORY_SIZE - PROGRAM_START_ADDRESS ==> r is Ok && final(self)@ == old(
                self,
            )@.with_memory(with_bytes(old(self)@.memory, PROGRAM_START_ADDRESS as int, rom@)),
            rom@.len() > MEMORY_SIZE - PROGRAM_START_ADDRESS ==> r == Err::<(), LoadError>(
                LoadError { length: rom.len() },
            ) && final(self)@ == old(self)@,
    {
        match self.ram.write_block(PROGRAM_START_ADDRESS, rom) {
            Ok(()) => Ok(()),
            Err(_) => Err(LoadError { length: rom.len() }),
        }
    }

    /// One cycle, with the random instruction drawing its byte from the
    /// thread-local generator: what `step` does for some byte.
    pub fn emulate_cycle(&mut self) -> (r: Result<(), StepError>)
        ensures
            exists|random: u8|
                final(self)@ == (#[trigger] old(self)@.step(random)).0 && r == old(self)@.step(
                    random,
                ).1,
    {
        match self.state {
            RunState::AwaitingKey(x) => {
                let r = self.resume(x);
                assert(self@ == old(self)@.step(0).0 && r == old(self)@.step(0).1);
                r
            },
            RunState::Running => {
                let opcode = match self.fetch_and_decode() {
                    Ok(opcode) => opcode,
                    Err(e) => {
                        assert(self@ == old(self)@.step(0).0);
                        return Err(e);
                    },
                };
                let ghost fetched = self@;
                let r = self.run_instruction(opcode);
                proof {
                    let random = choose|random: u8|
                        self@ == #[trigger] fetched.after_execute(opcode, random) && r
                            == fetched.execute_result(opcode, random);
                    assert(self@ == old(self)@.step(random).0);
                }
                match r {
                    Ok(()) => Ok(()),
                    Err(e) => Err(StepError::Bounds(e)),
                }
            },
        }
    }

    /// One cycle, with `random` as the byte that the random instruction
    /// draws. A machine that waits for a key stays as it is until a key is
    /// pressed; a running machine fetches, decodes and executes one
    /// instruction.
    pub fn step(&mut self, random: u8) -> (r: Result<(), StepError>)
        ensures
            final(self)@ == old(self)@.step(random).0,
            r == old(self)@.step(random).1,
    {
        match self.state {
            RunState::AwaitingKey(x) => self.resume(x),
            RunState::Running => {
                let opcode = self.fetch_and_decode()?;
                match self.execute(opcode, random) {
                    Ok(()) => Ok(()),
                    Err(e) => Err(StepError::Bounds(e)),
                }
            },
        }
    }

    /// Ends the wait for a key if one is pressed: stores the lowest pressed
    /// key in register `x` and moves on to the next instruction.
    fn resume(&mut self, x: u8) -> (r: Result<(), StepError>)
        ensures
            final(self)@ == old(self)@.resume(x).0,
            r == old(self)@.resume(x).1,
    {
        match self.keyboard.first_pressed() {
            None => Ok(()),
            Some(key) => {
                match self.cpu.write_register(x, key) {
                    Ok(()) => {
                        self.cpu.skip_if(true);
                        self.state = RunState::Running;
                        Ok(())
                    },
                    Err(e) => Err(StepError::Bounds(e)),
                }
            },
        }
    }

    /// Reads the instruction word at the program counter, moves the program
    /// counter past it and decodes the word.
    pub fn fetch_and_decode(&mut self) -> (r: Result<Opcode, StepError>)
        ensures
            match old(self)@.fetch() {
                Err(e) => r == Err::<Opcode, StepError>(StepError::Bounds(e)) && final(self)@
                    == old(self)@,
                Ok(word) => final(self)@ == old(self)@.with_cpu(old(self)@.cpu.skipped()) && (
                match decode(word) {
                    Ok(opcode) => r == Ok::<Opcode, StepError>(opcode),
                    Err(e) => r == Err::<Opcode, StepError>(StepError::Decode(e)),
                }),
            },
            r matches Ok(opcode) ==> opcode.well_formed(),
    {
        let pc = self.cpu.pc;
        let hi = match self.ram.read(pc) {
            Ok(byte) => byte,
            Err(e) => {
                return Err(StepError::Bounds(e));
            },
        };
        let lo = match self.ram.read(pc + 1) {
            Ok(byte) => byte,
            Err(e) => {
                return Err(StepError::Bounds(e));
            },
        };
        let word = hi as u16 * 0x100 + lo as u16;
        self.cpu.skip_if(true);
        match Opcode::try_from(word) {
            Ok(opcode) => Ok(opcode),
            Err(e) => Err(StepError::Decode(e)),
        }
    }

    /// Executes one decoded instruction, the random instruction drawing its
    /// byte from the thread-local generator: what `execute` does for some
    /// byte, and for every byte if the instruction is not the random one.
    pub fn run_instruction(&mut self, opcode: Opcode) -> (r: Result<(), BoundsError>)
        ensures
            exists|random: u8|
                final(self)@ == #[trigger] old(self)@.after_execute(opcode, random) && r == old(
                    self,
                )@.execute_result(opcode, random),
            !(opcode is RandAnd) ==> forall|random: u8|
                final(self)@ == #[trigger] old(self)@.after_execute(opcode, random) && r == old(
                    self,
                )@.execute_result(opcode, random),
    {
        let random = match opcode {
            Opcode::RandAnd(_, _) => random_byte(),
            _ => 0,
        };
        let r = self.execute(opcode, random);
        assert(self@ == old(self)@.after_execute(opcode, random));
        r
    }

    /// Executes one decoded instruction, with `random` as the byte that the
    /// random instruction draws. The operands are checked before anything
    /// is changed: on a failure the machine is as it was.
    #[verifier::rlimit(30)]
    pub fn execute(&mut self, opcode: Opcode, random: u8) -> (r: Result<(), BoundsError>)
        ensures
            final(self)@ == old(self)@.after_execute(opcode, random),
            r == old(self)@.execute_result(opcode, random),
    {
        if !opcode.registers_exist() {
            return Err(BoundsError::Register);
        }
        match opcode {
            Opcode::ClearScreen => {
                self.display.clear();
            },
            Opcode::Return => {
                let return_addr = self.cpu.stack_pop()?;
                self.cpu.pc = return_addr;
            },
            Opcode::Jump(addr) => {
                self.cpu.pc = addr;
            },
            Opcode::Call(addr) => {
                let pc = self.cpu.pc;
                self.cpu.stack_push(pc)?;
                self.cpu.pc = addr;
            },
            Opcode::SkipEqImm(x, nn) => {
                let vx = self.cpu.read_register(x)?;
                self.cpu.skip_if(vx == nn);
            },
            Opcode::SkipNeqImm(x, nn) => {
                let vx = self.cpu.read_register(x)?;
                self.cpu.skip_if(vx != nn);
            },
            Opcode::SkipEqReg(x, y) => {
                let vx = self.cpu.read_register(x)?;
                let vy = self.cpu.read_register(y)?;
                self.cpu.skip_if(vx == vy);
            },
            Opcode::SetImm(x, nn) => {
                self.cpu.write_register(x, nn)?;
            },
            Opcode::AddImm(x, nn) => {
                let vx = self.cpu.read_register(x)?;
                let (sum, _) = add_with_carry(vx, nn);
                self.cpu.write_register(x, sum)?;
            },
            Opcode::CopyReg(x, y) => {
                let vy = self.cpu.read_register(y)?;
                self.cpu.write_register(x, vy)?;
            },
            Opcode::Or(x, y) => {
                let vx = self.cpu.read_register(x)?;
                let vy = self.cpu.read_register(y)?;
                self.cpu.write_register(x, vx | vy)?;
            },
            Opcode::And(x, y) => {
                let vx = self.cpu.read_register(x)?;
                let vy = self.cpu.read_register(y)?;
                self.cpu.write_register(x, vx & vy)?;
            },
            Opcode::Xor(x, y) => {
                let vx = self.cpu.read_register(x)?;
                let vy = self.cpu.read_register(y)?;
                self.cpu.write_register(x, vx ^ vy)?;
            },
            Opcode::AddReg(x, y) => {
                let vx = self.cpu.read_register(x)?;
                let vy = self.cpu.read_register(y)?;
                let (sum, carry) = add_with_carry(vx, vy);
                self.cpu.write_with_flag(x, sum, carry)?;
            },
            Opcode::SubReg(x, y) => {
                let vx = self.cpu.read_register(x)?;
                let vy = self.cpu.read_register(y)?;
                let (difference, no_borrow) = sub_with_borrow(vx, vy);
                self.cpu.write_with_flag(x, difference, no_borrow)?;
            },
            Opcode::ShiftRight(x) => {
                let vx = self.cpu.read_register(x)?;
                let (shifted, least_significant_bit) = shift_right(vx);
                self.cpu.write_with_flag(x, shifted, least_significant_bit)?;
            },
            Opcode::SubRegRev(x, y) => {
                let vx = self.cpu.read_register(x)?;
                let vy = self.cpu.read_register(y)?;
                let (difference, no_borrow) = sub_with_borrow(vy, vx);
                self.cpu.write_with_flag(x, difference, no_borrow)?;
            },
            Opcode::ShiftLeft(x) => {
                let vx = self.cpu.read_register(x)?;
                let (shifted, most_significant_bit) = shift_left(vx);
                self.cpu.write_with_flag(x, shifted, most_significant_bit)?;
            },
            Opcode::SkipNeqReg(x, y) => {
                let vx = self.cpu.read_register(x)?;
                let vy = self.cpu.read_register(y)?;
                self.cpu.skip_if(vx != vy);
            },
            Opcode::SetIndex(addr) => {
                self.cpu.i = addr;
            },
            Opcode::JumpOffset(addr) => {
                let v0 = self.cpu.read_register(0)?;
                assert(addr.wrapping_add(v0 as u16) == wrap16(addr + v0));
                self.cpu.pc = addr.wrapping_add(v0 as u16);
            },
            Opcode::RandAnd(x, nn) => {
                self.cpu.write_register(x, random & nn)?;
            },
            Opcode::Draw(x, y, n) => {
                return self.draw(x, y, n);
            },
            Opcode::SkipKeyPressed(x) => {
                let vx = self.cpu.read_register(x)?;
                let pressed = self.keyboard.is_pressed(vx)?;
                self.cpu.skip_if(pressed);
            },
            Opcode::SkipKeyNotPressed(x) => {
                let vx = self.cpu.read_register(x)?;
                let pressed = self.keyboard.is_pressed(vx)?;
                self.cpu.skip_if(!pressed);
            },
            Opcode::ReadDelay(x) => {
                let delay = self.cpu.delay_timer;
                self.cpu.write_register(x, delay)?;
            },
            Opcode::AwaitKey(x) => {
                match self.keyboard.first_pressed() {
                    Some(key) => {
                        self.cpu.write_register(x, key)?;
                    },
                    None => {
                        self.cpu.pc = self.cpu.pc.wrapping_sub(INSTRUCTION_WIDTH);
                        self.state = RunState::AwaitingKey(x);
                    },
                }
            },
            Opcode::SetDelay(x) => {
                self.cpu.delay_timer = self.cpu.read_register(x)?;
            },
            Opcode::SetSound(x) => {
                self.cpu.sound_timer = self.cpu.read_register(x)?;
            },
            Opcode::AddIndex(x) => {
                let vx = self.cpu.read_register(x)?;
                assert(self.cpu.i.wrapping_add(vx as u16) == wrap16(self.cpu.i + vx));
                self.cpu.i = self.cpu.i.wrapping_add(vx as u16);
            },
            Opcode::FontAddress(x) => {
                let vx = self.cpu.read_register(x)?;
                self.cpu.i = vx as u16 * 5;
            },
            Opcode::Bcd(x) => {
                let vx = self.cpu.read_register(x)?;
                let digits = bcd(vx);
                self.ram.write_block(self.cpu.i, &digits)?;
            },
            Opcode::StoreRegs(x) => {
                return self.store_registers(x);
            },
            Opcode::LoadRegs(x) => {
                return self.load_registers(x);
            },
        };
        Ok(())
    }

    /// The framebuffer, for a renderer to read.
    pub fn get_display(&self) -> (display: &Display)
        ensures
            display@ == self@.screen,
    {
        &self.display
    }

    /// The register file and control unit, to be read.
    pub fn get_cpu(&self) -> (cpu: &Cpu)
        ensures
            cpu@ == self@.cpu,
    {
        &self.cpu
    }

    /// The memory, to be read.
    pub fn get_ram(&self) -> (ram: &Ram)
        ensures
            ram@ == self@.memory,
    {
        &self.ram
    }

    /// The key latch, to be read.
    pub fn get_keyboard(&self) -> (keyboard: &Keyboard)
        ensures
            keyboard@ == self@.keys,
    {
        &self.keyboard
    }

    /// Whether the machine runs or waits for a key.
    pub fn state(&self) -> (state: RunState)
        ensures
            state == self@.state,
    {
        self.state
    }

    /// The current value of the sound timer; the host sounds its tone while
    /// it is not zero.
    pub fn sound_timer(&self) -> (sound: u8)
        ensures
            sound == self@.cpu.sound,
    {
        self.cpu.sound_timer
    }

    /// Latches key `key` as pressed or released, or fails without a change
    /// when there is no such key.
    pub fn keypress(&mut self, key: u8, pressed: bool) -> (r: Result<(), BoundsError>)
        ensures
            final(self)@ == old(self)@.with_key(key, pressed),
            key < NUM_KEYS ==> r is Ok,
            key >= NUM_KEYS ==> r == Err::<(), BoundsError>(BoundsError::Keyboard),
    {
        self.keyboard.press(key, pressed)
    }

    /// Counts both timers down by one, stopping at zero.
    pub fn tick_timers(&mut self)
        ensures
            final(self)@ == old(self)@.ticked(),
    {
        self.cpu.tick_timers();
    }

    /// Releases every key.
    pub fn clean_keyboard(&mut self)
        ensures
            final(self)@ == (Machine { keys: all_released(), ..old(self)@ }),
    {
        self.keyboard.clean()
    }

    /// Draws the `n`-row sprite at the index register at the position held
    /// in registers `x` and `y`, and sets the flag to whether it collided.
    fn draw(&mut self, x: u8, y: u8, n: u8) -> (r: Result<(), BoundsError>)
        ensures
            forall|random: u8|
                final(self)@ == #[trigger] old(self)@.after_execute(Opcode::Draw(x, y, n), random),
            forall|random: u8|
                r == #[trigger] old(self)@.execute_result(Opcode::Draw(x, y, n), random),
    {
        let vx = self.cpu.read_register(x)?;
        let vy = self.cpu.read_register(y)?;
        if n > 0 && self.cpu.i as usize + n as usize > MEMORY_SIZE {
            return Err(BoundsError::Memory);
        }
        let mut collision = false;
        let mut row: u8 = 0;
        while row < n
            invariant
                row <= n,
                old(self)@.index_in_range(n as int),
                self.ram == old(self).ram,
                self.cpu == old(self).cpu,
                self.keyboard == old(self).keyboard,
                self.state == old(self).state,
                self.display@ == blit(
                    old(self).display@,
                    old(self)@.at_index(row as int),
                    vx as int,
                    vy as int,
                ),
                collision == blit_collides(
                    old(self).display@,
                    old(self)@.at_index(row as int),
                    vx as int,
                    vy as int,
                ),
            decreases n - row,
        {
            let bits = self.ram.read(self.cpu.i + row as u16)?;
            assert(old(self)@.at_index(row + 1).drop_last() == old(self)@.at_index(row as int));
            let hit = self.display.draw_row(bits, vx, vy as u16 + row as u16)?;
            collision = collision || hit;
            row += 1;
        }
        self.cpu.write_register(FLAG_REGISTER, if collision { 1 } else { 0 })?;
        Ok(())
    }

    /// Copies registers `V0..=Vx` to memory from the index register on.
    fn store_registers(&mut self, x: u8) -> (r: Result<(), BoundsError>)
        ensures
            forall|random: u8|
                final(self)@ == #[trigger] old(self)@.after_execute(Opcode::StoreRegs(x), random),
            forall|random: u8|
                r == #[trigger] old(self)@.execute_result(Opcode::StoreRegs(x), random),
    {
        if x as usize >= NUM_REGISTERS {
            return Err(BoundsError::Register);
        }
        let index = self.cpu.i;
        if index as usize + x as usize + 1 > MEMORY_SIZE {
            return Err(BoundsError::Memory);
        }
        let mut reg: u8 = 0;
        while reg <= x
            invariant
                reg <= x + 1,
                x < NUM_REGISTERS,
                index == old(self).cpu.i,
                index + x + 1 <= MEMORY_SIZE,
                self.cpu == old(self).cpu,
                self.display == old(self).display,
                self.keyboard == old(self).keyboard,
                self.state == old(self).state,
                self.ram@ == with_bytes(
                    old(self).ram@,
                    index as int,
                    old(self).cpu@.registers.subrange(0, reg as int),
                ),
            decreases x + 1 - reg,
        {
            let value = self.cpu.read_register(reg)?;
            self.ram.write(index + reg as u16, value)?;
            reg += 1;
        }
        Ok(())
    }

    /// Copies memory from the index register on to registers `V0..=Vx`.
    fn load_registers(&mut self, x: u8) -> (r: Result<(), BoundsError>)
        ensures
            forall|random: u8|
                final(self)@ == #[trigger] old(self)@.after_execute(Opcode::LoadRegs(x), random),
            forall|random: u8|
                r == #[trigger] old(self)@.execute_result(Opcode::LoadRegs(x), random),
    {
        if x as usize >= NUM_REGISTERS {
            return Err(BoundsError::Register);
        }
        let index = self.cpu.i;
        if index as usize + x as usize + 1 > MEMORY_SIZE {
            return Err(BoundsError::Memory);
        }
        let mut reg: u8 = 0;
        while reg <= x
            invariant
                reg <= x + 1,
                x < NUM_REGISTERS,
                index == old(self).cpu.i,
                index + x + 1 <= MEMORY_SIZE,
                self.ram == old(self).ram,
                self.display == old(self).display,
                self.keyboard == old(self).keyboard,
                self.state == old(self).state,
                self.cpu@ == (crate::cpu::CpuState {
                    registers: with_bytes(
                        old(self).cpu@.registers,
                        0,
                        old(self)@.at_index(reg as int),
                    ),
                    ..old(self).cpu@
                }),
            decreases x + 1 - reg,
        {
            let value = self.ram.read(index + reg as u16)?;
            self.cpu.write_register(reg, value)?;
            reg += 1;
        }
        Ok(())
    }
}

} // verus!

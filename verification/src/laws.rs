//! Laws of the machine, proved of the model that the interpreter's
//! contracts are stated over.

use vstd::prelude::*;
use crate::alu::digits;
use crate::cpu::{wrap16, wrap8, CpuState, FLAG_REGISTER, NUM_REGISTERS};
use crate::display::{
    blit, blit_collides, blit_row, cell, row_collides, sprite_bit, SCREEN_CELLS,
};
use crate::error::{BoundsError, DecodeError, StepError};
use crate::keyboard::{is_lowest_pressed, lemma_lowest_pressed};
use crate::machine::{Machine, RunState};
use crate::opcode::{decode, Opcode};
use crate::ram::MEMORY_SIZE;

verus! {

/// Setting a register to an immediate succeeds for every register and every
/// value, leaves the register holding that value and changes nothing else.
pub proof fn lemma_set_imm(m: Machine, x: u8, nn: u8, random: u8)
    requires
        m.wf(),
        x < NUM_REGISTERS,
    ensures
        m.execute(Opcode::SetImm(x, nn), random) == Ok::<Machine, BoundsError>(
            m.with_cpu(m.cpu.with_register(x, nn)),
        ),
        m.after_execute(Opcode::SetImm(x, nn), random).cpu.reg(x) == nn,
        m.after_execute(Opcode::SetImm(x, nn), random).cpu.pc == m.cpu.pc,
{
}

/// A cycle of a running machine whose program counter stands at a
/// set-immediate instruction succeeds, leaves the register holding the
/// immediate and the program counter exactly one instruction further.
pub proof fn lemma_step_set_imm(m: Machine, x: u8, nn: u8, random: u8)
    requires
        m.wf(),
        m.state == RunState::Running,
        m.fetch() matches Ok(word) && decode(word) == Ok::<Opcode, DecodeError>(
            Opcode::SetImm(x, nn),
        ),
    ensures
        m.step(random).1 == Ok::<(), StepError>(()),
        m.step(random).0.cpu.reg(x) == nn,
        m.step(random).0.cpu.pc == m.cpu.pc + 2,
        m.step(random).0 == m.with_cpu(m.cpu.skipped().with_register(x, nn)),
{
    let word = m.fetch()->Ok_0;
    lemma_decoded_well_formed(word);
}

/// Every instruction that the decoder gives has its operands in range.
pub proof fn lemma_decoded_well_formed(word: u16)
    ensures
        decode(word) matches Ok(op) ==> op.well_formed(),
{
}

/// Adding an immediate to a register other than `VF` leaves `VF` as it was,
/// whether or not the sum wraps; the register holds the sum reduced to
/// eight bits.
pub proof fn lemma_add_imm_keeps_flag(m: Machine, x: u8, nn: u8, random: u8)
    requires
        m.wf(),
        x < NUM_REGISTERS,
        x != FLAG_REGISTER,
    ensures
        m.execute(Opcode::AddImm(x, nn), random) is Ok,
        m.after_execute(Opcode::AddImm(x, nn), random).cpu.reg(FLAG_REGISTER) == m.cpu.reg(
            FLAG_REGISTER,
        ),
        m.after_execute(Opcode::AddImm(x, nn), random).cpu.reg(x) == wrap8(m.cpu.reg(x) + nn),
{
}

/// After a register is added to a register, `VF` is 1 if the unsigned sum
/// is 256 or more and 0 otherwise; a target register other than `VF` holds
/// the sum reduced to eight bits.
pub proof fn lemma_add_reg_carry(m: Machine, x: u8, y: u8, random: u8)
    requires
        m.wf(),
        x < NUM_REGISTERS,
        y < NUM_REGISTERS,
    ensures
        m.execute(Opcode::AddReg(x, y), random) is Ok,
        m.after_execute(Opcode::AddReg(x, y), random).cpu.reg(FLAG_REGISTER) == (if m.cpu.reg(x)
            + m.cpu.reg(y) >= 256 {
            1u8
        } else {
            0u8
        }),
        x != FLAG_REGISTER ==> m.after_execute(Opcode::AddReg(x, y), random).cpu.reg(x) == wrap8(
            m.cpu.reg(x) + m.cpu.reg(y),
        ),
{
}

/// After a register is subtracted from a register, `VF` is 1 if the target
/// was at least the subtrahend before and 0 otherwise; a target register
/// other than `VF` holds the difference reduced to eight bits.
pub proof fn lemma_sub_reg_borrow(m: Machine, x: u8, y: u8, random: u8)
    requires
        m.wf(),
        x < NUM_REGISTERS,
        y < NUM_REGISTERS,
    ensures
        m.execute(Opcode::SubReg(x, y), random) is Ok,
        m.after_execute(Opcode::SubReg(x, y), random).cpu.reg(FLAG_REGISTER) == (if m.cpu.reg(x)
            >= m.cpu.reg(y) {
            1u8
        } else {
            0u8
        }),
        x != FLAG_REGISTER ==> m.after_execute(Opcode::SubReg(x, y), random).cpu.reg(x) == wrap8(
            m.cpu.reg(x) - m.cpu.reg(y),
        ),
{
}

/// The three digits of any byte are each below ten and give the byte back
/// when read in base ten.
pub proof fn lemma_digits(value: u8)
    ensures
        digits(value).len() == 3,
        digits(value)[0] < 10 && digits(value)[1] < 10 && digits(value)[2] < 10,
        100 * digits(value)[0] + 10 * digits(value)[1] + digits(value)[2] == value,
{
}

/// Where the three bytes at the index register lie in memory, the decimal
/// instruction succeeds and stores there three digits that give the
/// register back in base ten; the index register, the registers and the
/// rest of memory stay as they were.
pub proof fn lemma_bcd(m: Machine, x: u8, random: u8)
    requires
        m.wf(),
        x < NUM_REGISTERS,
        m.cpu.index + 3 <= MEMORY_SIZE,
    ensures
        m.execute(Opcode::Bcd(x), random) is Ok,
        ({
            let after = m.after_execute(Opcode::Bcd(x), random);
            let i = m.cpu.index as int;
            &&& after.memory[i] < 10 && after.memory[i + 1] < 10 && after.memory[i + 2] < 10
            &&& 100 * after.memory[i] + 10 * after.memory[i + 1] + after.memory[i + 2] == m.cpu.reg(
                x,
            )
            &&& after.cpu == m.cpu
            &&& forall|a: int|
                0 <= a < MEMORY_SIZE && !(i <= a < i + 3) ==> after.memory[a] == m.memory[a]
        }),
{
    lemma_digits(m.cpu.reg(x));
}

/// The registers `V0..=Vx` set to zero, the others as they are.
pub open spec fn zeroed_through(registers: Seq<u8>, x: u8) -> Seq<u8> {
    Seq::new(registers.len(), |r: int| if r <= x { 0u8 } else { registers[r] })
}

/// Storing `V0..=Vx`, zeroing them and loading them again gives every
/// register its first value back; neither instruction changes the index
/// register.
pub proof fn lemma_store_load_round_trip(m: Machine, x: u8, random: u8)
    requires
        m.wf(),
        x < NUM_REGISTERS,
        m.cpu.index + x + 1 <= MEMORY_SIZE,
    ensures
        m.execute(Opcode::StoreRegs(x), random) is Ok,
        ({
            let stored = m.after_execute(Opcode::StoreRegs(x), random);
            let zeroed = stored.with_cpu(
                CpuState { registers: zeroed_through(stored.cpu.registers, x), ..stored.cpu },
            );
            let loaded = zeroed.after_execute(Opcode::LoadRegs(x), random);
            &&& stored.cpu == m.cpu
            &&& zeroed.execute(Opcode::LoadRegs(x), random) is Ok
            &&& loaded.cpu.registers == m.cpu.registers
            &&& loaded.cpu.index == m.cpu.index
            &&& loaded.cpu == m.cpu
            &&& loaded.memory == stored.memory
        }),
{
    let stored = m.after_execute(Opcode::StoreRegs(x), random);
    let zeroed = stored.with_cpu(
        CpuState { registers: zeroed_through(stored.cpu.registers, x), ..stored.cpu },
    );
    let loaded = zeroed.after_execute(Opcode::LoadRegs(x), random);
    assert(loaded.cpu.registers =~= m.cpu.registers);
}

/// A blit keeps the number of cells.
pub proof fn lemma_blit_len(screen: Seq<bool>, sprite: Seq<u8>, x: int, y: int)
    ensures
        blit(screen, sprite, x, y).len() == screen.len(),
    decreases sprite.len(),
{
    if sprite.len() > 0 {
        lemma_blit_len(screen, sprite.drop_last(), x, y);
    }
}

/// Drawing one row before a sprite gives the same framebuffer as drawing
/// it after the sprite: XOR does not mind the order.
proof fn lemma_blit_row_commutes(
    screen: Seq<bool>,
    sprite: Seq<u8>,
    x: int,
    y: int,
    bits: u8,
    row_x: int,
    row_y: int,
)
    ensures
        blit(blit_row(screen, bits, row_x, row_y), sprite, x, y) == blit_row(
            blit(screen, sprite, x, y),
            bits,
            row_x,
            row_y,
        ),
    decreases sprite.len(),
{
    if sprite.len() > 0 {
        let rest = sprite.drop_last();
        lemma_blit_row_commutes(screen, rest, x, y, bits, row_x, row_y);
        lemma_blit_len(screen, rest, x, y);
        let last_y = y + sprite.len() - 1;
        assert(blit_row(blit_row(blit(screen, rest, x, y), bits, row_x, row_y), sprite.last(), x, last_y)
            =~= blit_row(
            blit_row(blit(screen, rest, x, y), sprite.last(), x, last_y),
            bits,
            row_x,
            row_y,
        ));
    } else {
        assert(blit(blit_row(screen, bits, row_x, row_y), sprite, x, y) == blit_row(
            screen,
            bits,
            row_x,
            row_y,
        ));
    }
}

/// Drawing the same sprite twice at the same position gives the
/// framebuffer back as it was before the first draw.
pub proof fn lemma_blit_twice(screen: Seq<bool>, sprite: Seq<u8>, x: int, y: int)
    ensures
        blit(blit(screen, sprite, x, y), sprite, x, y) == screen,
    decreases sprite.len(),
{
    if sprite.len() > 0 {
        let rest = sprite.drop_last();
        let last_y = y + sprite.len() - 1;
        let once = blit(screen, rest, x, y);
        lemma_blit_twice(screen, rest, x, y);
        lemma_blit_row_commutes(once, rest, x, y, sprite.last(), x, last_y);
        lemma_blit_len(screen, rest, x, y);
        assert(blit_row(blit_row(screen, sprite.last(), x, last_y), sprite.last(), x, last_y)
            =~= screen);
    }
}

/// The cell under the pixel in `column` of the sprite row `row`, for a
/// sprite drawn at column `x`, row `y`.
pub open spec fn pixel_cell(x: int, y: int, row: int, column: u8) -> int {
    cell(x + column, y + row)
}

/// Whether a set pixel of `sprite`, drawn at column `x`, row `y`, lies on a
/// cell of `screen` that is on.
pub open spec fn overlaps(screen: Seq<bool>, sprite: Seq<u8>, x: int, y: int) -> bool {
    exists|row: int, column: u8|
        0 <= row < sprite.len() && column < 8 && #[trigger] sprite_bit(sprite[row], column)
            && screen[cell(x + column, y + row)]
}

/// The screen row on which the sprite row `row` lands, for a sprite drawn
/// from row `y` on.
spec fn screen_row(y: int, row: int) -> int {
    (y + row) % 32
}

/// A sprite leaves the cells of the screen rows that it does not reach as they are.
proof fn lemma_blit_keeps_other_rows(
    screen: Seq<bool>,
    sprite: Seq<u8>,
    x: int,
    y: int,
    index: int,
)
    requires
        screen.len() == SCREEN_CELLS,
        0 <= index < SCREEN_CELLS,
        sprite.len() <= 32,
        forall|row: int| 0 <= row < sprite.len() ==> index / 64 != #[trigger] screen_row(y, row),
    ensures
        blit(screen, sprite, x, y)[index] == screen[index],
    decreases sprite.len(),
{
    if sprite.len() > 0 {
        lemma_blit_keeps_other_rows(screen, sprite.drop_last(), x, y, index);
        lemma_blit_len(screen, sprite.drop_last(), x, y);
        assert(index / 64 != screen_row(y, sprite.len() - 1));
    }
}

/// For a sprite of at most 32 rows, which cannot overlap itself, the draw
/// reports a collision exactly if one of its set pixels lies on a cell that
/// is on before the draw.
pub proof fn lemma_collision(screen: Seq<bool>, sprite: Seq<u8>, x: int, y: int)
    requires
        screen.len() == SCREEN_CELLS,
        sprite.len() <= 32,
    ensures
        blit_collides(screen, sprite, x, y) <==> overlaps(screen, sprite, x, y),
    decreases sprite.len(),
{
    if sprite.len() > 0 {
        let rest = sprite.drop_last();
        let last = sprite.len() - 1;
        let before = blit(screen, rest, x, y);
        lemma_collision(screen, rest, x, y);
        lemma_blit_len(screen, rest, x, y);
        assert forall|column: u8| column < 8 implies before[#[trigger] pixel_cell(x, y, last, column)]
            == screen[pixel_cell(x, y, last, column)] by {
            let index = cell(x + column, y + last);
            assert forall|row: int| 0 <= row < rest.len() implies index / 64 != #[trigger] screen_row(
                y,
                row,
            ) by {
                assert(index / 64 == (y + last) % 32);
            }
            lemma_blit_keeps_other_rows(screen, rest, x, y, index);
        }
        if blit_collides(screen, sprite, x, y) {
            if blit_collides(screen, rest, x, y) {
                let (row, column) = choose|row: int, column: u8|
                    0 <= row < rest.len() && column < 8 && #[trigger] sprite_bit(rest[row], column)
                        && screen[cell(x + column, y + row)];
                assert(sprite[row] == rest[row]);
                assert(overlaps(screen, sprite, x, y));
            } else {
                let column = choose|column: u8|
                    column < 8 && sprite_bit(sprite.last(), column) && before[cell(
                        x + column,
                        y + last,
                    )];
                assert(before[pixel_cell(x, y, last, column)]);
                assert(sprite_bit(sprite[last], column) && screen[cell(x + column, y + last)]);
                assert(overlaps(screen, sprite, x, y));
            }
        }
        if overlaps(screen, sprite, x, y) {
            let (row, column) = choose|row: int, column: u8|
                0 <= row < sprite.len() && column < 8 && #[trigger] sprite_bit(sprite[row], column)
                    && screen[cell(x + column, y + row)];
            if row < last {
                assert(sprite_bit(rest[row], column));
                assert(overlaps(screen, rest, x, y));
            } else {
                assert(screen[pixel_cell(x, y, last, column)]);
                assert(sprite_bit(sprite.last(), column) && before[cell(x + column, y + last)]);
                assert(row_collides(before, sprite.last(), x, y + last));
            }
        }
    }
}

/// For a sprite of at most 32 rows, the draw reports no collision where
/// every cell under the sprite is off, and a collision where one of its set
/// pixels lies on a cell that is on.
pub proof fn lemma_collision_cases(screen: Seq<bool>, sprite: Seq<u8>, x: int, y: int)
    requires
        screen.len() == SCREEN_CELLS,
        sprite.len() <= 32,
    ensures
        (forall|row: int, column: u8|
            0 <= row < sprite.len() && column < 8 ==> !screen[#[trigger] pixel_cell(
                x,
                y,
                row,
                column,
            )]) ==> !blit_collides(screen, sprite, x, y),
        forall|row: int, column: u8|
            0 <= row < sprite.len() && column < 8 && #[trigger] sprite_bit(sprite[row], column)
                && screen[pixel_cell(x, y, row, column)] ==> blit_collides(screen, sprite, x, y),
{
    lemma_collision(screen, sprite, x, y);
    if overlaps(screen, sprite, x, y) {
        let (row, column) = choose|row: int, column: u8|
            0 <= row < sprite.len() && column < 8 && #[trigger] sprite_bit(sprite[row], column)
                && screen[cell(x + column, y + row)];
        assert(screen[pixel_cell(x, y, row, column)]);
    }
}

/// Drawing twice with the same operands gives the framebuffer back as it
/// was, where the position registers are not `VF`, which the first draw
/// overwrites with its collision flag.
pub proof fn lemma_draw_twice(m: Machine, x: u8, y: u8, n: u8, random: u8)
    requires
        m.wf(),
        x < NUM_REGISTERS,
        y < NUM_REGISTERS,
        x != FLAG_REGISTER,
        y != FLAG_REGISTER,
        m.index_in_range(n as int),
    ensures
        m.execute(Opcode::Draw(x, y, n), random) is Ok,
        m.after_execute(Opcode::Draw(x, y, n), random).execute(Opcode::Draw(x, y, n), random) is Ok,
        m.after_execute(Opcode::Draw(x, y, n), random).after_execute(
            Opcode::Draw(x, y, n),
            random,
        ).screen == m.screen,
        m.after_execute(Opcode::Draw(x, y, n), random).cpu.index == m.cpu.index,
{
    let once = m.after_execute(Opcode::Draw(x, y, n), random);
    assert(once.at_index(n as int) =~= m.at_index(n as int));
    lemma_blit_twice(m.screen, m.at_index(n as int), m.cpu.reg(x) as int, m.cpu.reg(y) as int);
}

/// A draw of at most 32 rows sets `VF` to 1 if a set pixel of the sprite
/// lies on a cell that is on before the draw, and to 0 otherwise.
pub proof fn lemma_draw_flag(m: Machine, x: u8, y: u8, n: u8, random: u8)
    requires
        m.wf(),
        x < NUM_REGISTERS,
        y < NUM_REGISTERS,
        n <= 32,
        m.index_in_range(n as int),
    ensures
        m.execute(Opcode::Draw(x, y, n), random) is Ok,
        m.after_execute(Opcode::Draw(x, y, n), random).cpu.reg(FLAG_REGISTER) == (if overlaps(
            m.screen,
            m.at_index(n as int),
            m.cpu.reg(x) as int,
            m.cpu.reg(y) as int,
        ) {
            1u8
        } else {
            0u8
        }),
{
    lemma_collision(m.screen, m.at_index(n as int), m.cpu.reg(x) as int, m.cpu.reg(y) as int);
}

/// Whether no key is latched as pressed.
pub open spec fn none_pressed(keys: Seq<bool>) -> bool {
    forall|k: int| 0 <= k < keys.len() ==> !keys[k]
}

/// A cycle of a running machine whose program counter stands at a wait for
/// a key, while no key is pressed, succeeds and changes only the run
/// state: the machine now waits, with the program counter where it was.
pub proof fn lemma_await_key_blocks(m: Machine, x: u8, random: u8)
    requires
        m.wf(),
        m.state == RunState::Running,
        m.fetch() matches Ok(word) && decode(word) == Ok::<Opcode, DecodeError>(
            Opcode::AwaitKey(x),
        ),
        none_pressed(m.keys),
    ensures
        m.step(random).1 == Ok::<(), StepError>(()),
        m.step(random).0 == (Machine { state: RunState::AwaitingKey(x), ..m }),
        m.step(random).0.cpu.pc == m.cpu.pc,
{
    lemma_decoded_well_formed(m.fetch()->Ok_0);
    lemma_lowest_pressed(m.keys);
    let fetched = m.with_cpu(m.cpu.skipped());
    assert(fetched.cpu.rewound() == m.cpu);
}

/// A cycle of a machine that waits for a key, while no key is pressed,
/// succeeds and changes nothing: the program counter stays and the machine
/// still waits.
pub proof fn lemma_waiting_stays(m: Machine, x: u8, random: u8)
    requires
        m.wf(),
        m.state == RunState::AwaitingKey(x),
        none_pressed(m.keys),
    ensures
        m.step(random) == (m, Ok::<(), StepError>(())),
{
    lemma_lowest_pressed(m.keys);
}

/// A cycle of a machine that waits for a key, once a key is pressed,
/// succeeds: the target register receives the code of the lowest pressed
/// key, the program counter moves past the waiting instruction and the
/// machine runs again.
pub proof fn lemma_key_ends_wait(m: Machine, x: u8, key: u8, random: u8)
    requires
        m.wf(),
        m.state == RunState::AwaitingKey(x),
        x < NUM_REGISTERS,
        is_lowest_pressed(m.keys, key as int),
    ensures
        m.step(random).1 == Ok::<(), StepError>(()),
        m.step(random).0 == (Machine {
            cpu: m.cpu.with_register(x, key).skipped(),
            state: RunState::Running,
            ..m
        }),
        m.step(random).0.cpu.reg(x) == key,
        m.step(random).0.cpu.pc == wrap16(m.cpu.pc + 2),
        m.step(random).0.state == RunState::Running,
{
    lemma_lowest_pressed(m.keys);
}

/// A return with an empty call stack fails with a stack error and leaves
/// the machine as it was.
pub proof fn lemma_return_on_empty_stack(m: Machine, random: u8)
    requires
        m.cpu.sp == 0,
    ensures
        m.execute(Opcode::Return, random) == Err::<Machine, BoundsError>(BoundsError::Stack),
        m.after_execute(Opcode::Return, random) == m,
{
}

/// The machine at power-on has every component at its fixed size.
pub proof fn lemma_initial_wf()
    ensures
        Machine::initial().wf(),
{
}

/// Executing an instruction keeps every component at its fixed size.
pub proof fn lemma_execute_keeps_wf(m: Machine, op: Opcode, random: u8)
    requires
        m.wf(),
    ensures
        m.after_execute(op, random).wf(),
{
    if let Opcode::Draw(x, y, n) = op {
        lemma_blit_len(m.screen, m.at_index(n as int), m.cpu.reg(x) as int, m.cpu.reg(y) as int);
    }
}

/// A cycle keeps every component at its fixed size.
pub proof fn lemma_step_keeps_wf(m: Machine, random: u8)
    requires
        m.wf(),
    ensures
        m.step(random).0.wf(),
{
    if m.state == RunState::Running && m.fetch() is Ok {
        let fetched = m.with_cpu(m.cpu.skipped());
        if let Ok(op) = decode(m.fetch()->Ok_0) {
            lemma_execute_keeps_wf(fetched, op, random);
        }
    }
}

/// Only the random instruction looks at the random byte.
pub proof fn lemma_random_only_in_rand(m: Machine, op: Opcode, a: u8, b: u8)
    requires
        !(op is RandAnd),
    ensures
        m.execute(op, a) == m.execute(op, b),
{
}

/// Whether the next cycle of `m` executes the random instruction.
pub open spec fn draws_random(m: Machine) -> bool {
    &&& m.state == RunState::Running
    &&& m.fetch() matches Ok(word)
    &&& decode(word) matches Ok(op)
    &&& op is RandAnd
}

/// A cycle looks at the random byte only where a running machine fetches
/// the random instruction.
pub proof fn lemma_step_random_only_in_rand(m: Machine, a: u8, b: u8)
    requires
        !draws_random(m),
    ensures
        m.step(a) == m.step(b),
{
    if m.state == RunState::Running && m.fetch() is Ok {
        if let Ok(op) = decode(m.fetch()->Ok_0) {
            lemma_random_only_in_rand(m.with_cpu(m.cpu.skipped()), op, a, b);
        }
    }
}

} // verus!

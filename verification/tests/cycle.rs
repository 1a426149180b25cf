use chip8_core::chip8::{Chip8, FONT_SET};
use chip8_core::error::{BoundsError, DecodeError, LoadError, StepError};
use chip8_core::machine::RunState;

fn reg(chip: &Chip8, x: u8) -> u8 {
    chip.get_cpu().read_register(x).unwrap()
}

fn loaded(rom: &[u8]) -> Chip8 {
    let mut chip = Chip8::new();
    chip.load(rom).unwrap();
    chip
}

#[test]
fn new_machine_holds_the_font_table_and_nothing_else() {
    let chip = Chip8::new();
    for (address, byte) in FONT_SET.iter().enumerate() {
        assert_eq!(chip.get_ram().read(address as u16), Ok(*byte));
    }
    for address in 80..4096u16 {
        assert_eq!(chip.get_ram().read(address), Ok(0));
    }
    assert_eq!(chip.get_cpu().pc, 0x200);
    assert_eq!(chip.get_cpu().sp, 0);
    assert_eq!(chip.get_cpu().i, 0);
    assert_eq!(chip.sound_timer(), 0);
    assert_eq!(chip.state(), RunState::Running);
    assert!(chip.get_display().screen.iter().all(|on| !*on));
    assert_eq!(chip.get_keyboard().first_pressed(), None);
}

#[test]
fn font_table_glyphs() {
    assert_eq!(FONT_SET.len(), 80);
    assert_eq!(&FONT_SET[0..5], &[0xF0, 0x90, 0x90, 0x90, 0xF0]);
    assert_eq!(&FONT_SET[5..10], &[0x20, 0x60, 0x20, 0x20, 0x70]);
    assert_eq!(&FONT_SET[75..80], &[0xF0, 0x80, 0xF0, 0x80, 0x80]);
    assert!(FONT_SET.iter().all(|row| row & 0x0F == 0));
}

#[test]
fn load_copies_the_program_to_the_start_address() {
    let chip = loaded(&[0x60, 0x05, 0x61, 0x03]);
    assert_eq!(chip.get_ram().read(0x1FF), Ok(0));
    assert_eq!(chip.get_ram().read(0x200), Ok(0x60));
    assert_eq!(chip.get_ram().read(0x201), Ok(0x05));
    assert_eq!(chip.get_ram().read(0x202), Ok(0x61));
    assert_eq!(chip.get_ram().read(0x203), Ok(0x03));
    assert_eq!(chip.get_ram().read(0x204), Ok(0));
    assert_eq!(chip.get_ram().read(0), Ok(0xF0));
}

#[test]
fn load_accepts_a_program_that_fills_memory_exactly() {
    let rom: Vec<u8> = (0..3584usize).map(|i| (i % 251) as u8 + 1).collect();
    let mut chip = Chip8::new();
    assert_eq!(chip.load(&rom), Ok(()));
    assert_eq!(chip.get_ram().read(0x200), Ok(1));
    assert_eq!(chip.get_ram().read(4095), Ok((3583 % 251) as u8 + 1));
    assert_eq!(chip.get_ram().read(79), Ok(0x80));
}

#[test]
fn load_rejects_a_program_that_is_one_byte_too_long() {
    let rom = vec![0xAAu8; 3585];
    let mut chip = Chip8::new();
    assert_eq!(chip.load(&rom), Err(LoadError { length: 3585 }));
    for address in 0x200..4096u16 {
        assert_eq!(chip.get_ram().read(address), Ok(0));
    }
}

#[test]
fn load_of_an_empty_program_changes_nothing() {
    let mut chip = Chip8::new();
    assert_eq!(chip.load(&[]), Ok(()));
    assert_eq!(chip.get_ram().read(0x200), Ok(0));
}

#[test]
fn three_instruction_program_adds_two_registers() {
    let mut chip = loaded(&[0x60, 0x05, 0x61, 0x03, 0x80, 0x14]);
    assert_eq!(chip.step(0), Ok(()));
    assert_eq!(chip.step(0), Ok(()));
    assert_eq!(chip.step(0), Ok(()));
    assert_eq!(reg(&chip, 0), 8);
    assert_eq!(reg(&chip, 1), 3);
    assert_eq!(reg(&chip, 0xF), 0);
    assert_eq!(chip.get_cpu().pc, 0x206);
}

#[test]
fn three_instruction_program_with_emulate_cycle() {
    let mut chip = loaded(&[0x60, 0x05, 0x61, 0x03, 0x80, 0x14]);
    for _ in 0..3 {
        assert_eq!(chip.emulate_cycle(), Ok(()));
    }
    assert_eq!(reg(&chip, 0), 8);
    assert_eq!(reg(&chip, 0xF), 0);
    assert_eq!(chip.get_cpu().pc, 0x206);
}

#[test]
fn set_imm_cycle_advances_by_one_instruction() {
    let mut chip = loaded(&[0x6A, 0x42]);
    assert_eq!(chip.step(0), Ok(()));
    assert_eq!(reg(&chip, 0xA), 0x42);
    assert_eq!(chip.get_cpu().pc, 0x202);
}

#[test]
fn fetch_reads_the_high_byte_first() {
    let mut chip = loaded(&[0x12, 0x34]);
    assert_eq!(chip.fetch_and_decode(), Ok(chip8_core::opcode::Opcode::Jump(0x234)));
    assert_eq!(chip.get_cpu().pc, 0x202);
}

#[test]
fn skip_cycle_advances_by_two_instructions() {
    let mut chip = loaded(&[0x30, 0x00, 0x60, 0x01, 0x61, 0x02]);
    assert_eq!(chip.step(0), Ok(()));
    assert_eq!(chip.get_cpu().pc, 0x204);
    assert_eq!(chip.step(0), Ok(()));
    assert_eq!(reg(&chip, 0), 0);
    assert_eq!(reg(&chip, 1), 2);
}

#[test]
fn unknown_word_is_reported_and_skipped() {
    let mut chip = loaded(&[0xFF, 0xFF, 0x60, 0x07]);
    assert_eq!(
        chip.step(0),
        Err(StepError::Decode(DecodeError { nibbles: (0xF, 0xF, 0xF, 0xF) }))
    );
    assert_eq!(chip.get_cpu().pc, 0x202);
    assert_eq!(chip.step(0), Ok(()));
    assert_eq!(reg(&chip, 0), 7);
}

#[test]
fn emulate_cycle_reports_an_unknown_word() {
    let mut chip = Chip8::new();
    assert_eq!(
        chip.emulate_cycle(),
        Err(StepError::Decode(DecodeError { nibbles: (0, 0, 0, 0) }))
    );
    assert_eq!(chip.get_cpu().pc, 0x202);
}

#[test]
fn return_without_call_is_reported_by_the_cycle() {
    let mut chip = loaded(&[0x00, 0xEE]);
    assert_eq!(chip.step(0), Err(StepError::Bounds(BoundsError::Stack)));
    assert_eq!(chip.get_cpu().pc, 0x202);
    assert_eq!(chip.get_cpu().sp, 0);
}

#[test]
fn fetch_beyond_memory_is_a_bounds_error() {
    // jump to 0xFFF: the second byte of the word lies outside memory
    let mut chip = loaded(&[0x1F, 0xFF]);
    assert_eq!(chip.step(0), Ok(()));
    assert_eq!(chip.get_cpu().pc, 0xFFF);
    assert_eq!(chip.step(0), Err(StepError::Bounds(BoundsError::Memory)));
    assert_eq!(chip.get_cpu().pc, 0xFFF);
    // jump with offset beyond memory
    let mut far = loaded(&[0x60, 0xFF, 0xBF, 0xFF]);
    far.step(0).unwrap();
    far.step(0).unwrap();
    assert_eq!(far.get_cpu().pc, 0x10FE);
    assert_eq!(far.step(0), Err(StepError::Bounds(BoundsError::Memory)));
    assert_eq!(far.get_cpu().pc, 0x10FE);
}

#[test]
fn last_word_of_memory_can_be_fetched() {
    let mut rom = vec![0u8; 3584];
    rom[0] = 0x1F;
    rom[1] = 0xFE;
    rom[3582] = 0x6B;
    rom[3583] = 0x99;
    let mut chip = loaded(&rom);
    chip.step(0).unwrap();
    assert_eq!(chip.get_cpu().pc, 0xFFE);
    assert_eq!(chip.step(0), Ok(()));
    assert_eq!(reg(&chip, 0xB), 0x99);
    assert_eq!(chip.get_cpu().pc, 0x1000);
    assert_eq!(chip.step(0), Err(StepError::Bounds(BoundsError::Memory)));
}

#[test]
fn call_and_return_through_cycles() {
    // 0x200: call 0x206; 0x202: set V1; 0x204: jump 0x204; 0x206: set V0; 0x208: return
    let mut chip = loaded(&[0x22, 0x06, 0x61, 0x22, 0x12, 0x04, 0x60, 0x11, 0x00, 0xEE]);
    chip.step(0).unwrap();
    assert_eq!(chip.get_cpu().pc, 0x206);
    assert_eq!(chip.get_cpu().sp, 1);
    chip.step(0).unwrap();
    chip.step(0).unwrap();
    assert_eq!(chip.get_cpu().pc, 0x202);
    assert_eq!(chip.get_cpu().sp, 0);
    chip.step(0).unwrap();
    assert_eq!((reg(&chip, 0), reg(&chip, 1)), (0x11, 0x22));
    chip.step(0).unwrap();
    chip.step(0).unwrap();
    assert_eq!(chip.get_cpu().pc, 0x204);
}

#[test]
fn random_instruction_uses_the_injected_byte() {
    let mut chip = loaded(&[0xC3, 0x0F, 0xC4, 0xF0]);
    assert_eq!(chip.step(0xAB), Ok(()));
    assert_eq!(reg(&chip, 3), 0x0B);
    assert_eq!(chip.step(0xCD), Ok(()));
    assert_eq!(reg(&chip, 4), 0xC0);
}

#[test]
fn random_instruction_in_emulate_cycle_respects_the_mask() {
    for _ in 0..32 {
        let mut chip = loaded(&[0xC3, 0x81]);
        assert_eq!(chip.emulate_cycle(), Ok(()));
        assert_eq!(reg(&chip, 3) & !0x81, 0);
        assert_eq!(chip.get_cpu().pc, 0x202);
    }
}

#[test]
fn await_key_blocks_until_a_key_is_pressed() {
    let mut chip = loaded(&[0xF5, 0x0A, 0x66, 0x01]);
    for _ in 0..5 {
        assert_eq!(chip.step(0), Ok(()));
        assert_eq!(chip.get_cpu().pc, 0x200);
        assert_eq!(chip.state(), RunState::AwaitingKey(5));
        assert_eq!(reg(&chip, 5), 0);
    }
    chip.tick_timers();
    chip.clean_keyboard();
    assert_eq!(chip.emulate_cycle(), Ok(()));
    assert_eq!(chip.state(), RunState::AwaitingKey(5));
    chip.keypress(0xE, true).unwrap();
    chip.keypress(0x9, true).unwrap();
    assert_eq!(chip.step(0), Ok(()));
    assert_eq!(chip.get_cpu().pc, 0x202);
    assert_eq!(reg(&chip, 5), 0x9);
    assert_eq!(chip.state(), RunState::Running);
    assert_eq!(chip.step(0), Ok(()));
    assert_eq!(reg(&chip, 6), 1);
    assert_eq!(chip.get_cpu().pc, 0x204);
}

#[test]
fn await_key_with_a_key_already_pressed_does_not_block() {
    let mut chip = loaded(&[0xF5, 0x0A]);
    chip.keypress(0x0, true).unwrap();
    chip.keypress(0x3, true).unwrap();
    assert_eq!(chip.step(0), Ok(()));
    assert_eq!(chip.state(), RunState::Running);
    assert_eq!(reg(&chip, 5), 0x0);
    assert_eq!(chip.get_cpu().pc, 0x202);
}

#[test]
fn a_released_key_does_not_end_the_wait() {
    let mut chip = loaded(&[0xF1, 0x0A]);
    chip.step(0).unwrap();
    chip.keypress(4, true).unwrap();
    chip.keypress(4, false).unwrap();
    assert_eq!(chip.step(0), Ok(()));
    assert_eq!(chip.state(), RunState::AwaitingKey(1));
    chip.keypress(4, true).unwrap();
    chip.clean_keyboard();
    assert_eq!(chip.step(0), Ok(()));
    assert_eq!(chip.state(), RunState::AwaitingKey(1));
    assert_eq!(chip.get_cpu().pc, 0x200);
}

#[test]
fn keypress_rejects_codes_above_fifteen() {
    let mut chip = Chip8::new();
    assert_eq!(chip.keypress(16, true), Err(BoundsError::Keyboard));
    assert_eq!(chip.get_keyboard().first_pressed(), None);
    assert_eq!(chip.keypress(15, true), Ok(()));
    assert_eq!(chip.get_keyboard().is_pressed(15), Ok(true));
    assert_eq!(chip.keypress(15, false), Ok(()));
    assert_eq!(chip.get_keyboard().is_pressed(15), Ok(false));
}

#[test]
fn reset_puts_the_machine_back_to_power_on() {
    let mut chip = loaded(&[0xF5, 0x0A]);
    chip.step(0).unwrap();
    chip.keypress(2, true).unwrap();
    chip.execute(chip8_core::opcode::Opcode::SetImm(3, 9), 0).unwrap();
    chip.execute(chip8_core::opcode::Opcode::SetIndex(0), 0).unwrap();
    chip.execute(chip8_core::opcode::Opcode::Draw(0, 0, 5), 0).unwrap();
    chip.execute(chip8_core::opcode::Opcode::Call(0x300), 0).unwrap();
    chip.execute(chip8_core::opcode::Opcode::SetSound(3), 0).unwrap();
    chip.reset();
    assert_eq!(chip.state(), RunState::Running);
    assert_eq!(chip.get_cpu().pc, 0x200);
    assert_eq!(chip.get_cpu().sp, 0);
    assert_eq!(chip.sound_timer(), 0);
    assert_eq!(reg(&chip, 3), 0);
    assert_eq!(chip.get_ram().read(0x200), Ok(0));
    assert_eq!(chip.get_ram().read(0), Ok(0xF0));
    assert_eq!(chip.get_keyboard().first_pressed(), None);
    assert!(chip.get_display().screen.iter().all(|on| !*on));
    let again = chip.reset();
    assert_eq!(again.get_cpu().pc, 0x200);
}

#[test]
fn initialize_reloads_the_font_table() {
    let mut chip = Chip8::new();
    chip.execute(chip8_core::opcode::Opcode::SetImm(0, 0xAA), 0).unwrap();
    chip.execute(chip8_core::opcode::Opcode::SetIndex(3), 0).unwrap();
    chip.execute(chip8_core::opcode::Opcode::StoreRegs(0), 0).unwrap();
    chip.load(&[1, 2, 3]).unwrap();
    assert_eq!(chip.get_ram().read(3), Ok(0xAA));
    chip.initialize();
    assert_eq!(chip.get_ram().read(3), Ok(0x90));
    assert_eq!(chip.get_ram().read(0x201), Ok(2));
    assert_eq!(chip.get_cpu().i, 3);
}

#[test]
fn display_is_observable_with_coordinates() {
    let mut chip = loaded(&[0x60, 0x3E, 0x61, 0x1F, 0xA0, 0x00, 0xD0, 0x11]);
    for _ in 0..4 {
        chip.step(0).unwrap();
    }
    let display = chip.get_display();
    let on: Vec<(usize, usize)> = (0..2048)
        .filter(|i| display.screen[*i])
        .map(|i| display.to_xy(i))
        .collect();
    assert_eq!(on, vec![(0, 31), (1, 31), (62, 31), (63, 31)]);
}

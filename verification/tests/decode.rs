use chip8_core::error::DecodeError;
use chip8_core::opcode::Opcode;

fn decode(word: u16) -> Result<Opcode, DecodeError> {
    Opcode::try_from(word)
}

#[test]
fn decodes_screen_and_flow_words() {
    assert_eq!(decode(0x00E0), Ok(Opcode::ClearScreen));
    assert_eq!(decode(0x00EE), Ok(Opcode::Return));
    assert_eq!(decode(0x1ABC), Ok(Opcode::Jump(0xABC)));
    assert_eq!(decode(0x2123), Ok(Opcode::Call(0x123)));
    assert_eq!(decode(0xA7FF), Ok(Opcode::SetIndex(0x7FF)));
    assert_eq!(decode(0xB001), Ok(Opcode::JumpOffset(0x001)));
}

#[test]
fn decodes_skip_words() {
    assert_eq!(decode(0x3A42), Ok(Opcode::SkipEqImm(0xA, 0x42)));
    assert_eq!(decode(0x4B00), Ok(Opcode::SkipNeqImm(0xB, 0x00)));
    assert_eq!(decode(0x5120), Ok(Opcode::SkipEqReg(0x1, 0x2)));
    assert_eq!(decode(0x9340), Ok(Opcode::SkipNeqReg(0x3, 0x4)));
    assert_eq!(decode(0xE59E), Ok(Opcode::SkipKeyPressed(0x5)));
    assert_eq!(decode(0xE6A1), Ok(Opcode::SkipKeyNotPressed(0x6)));
}

#[test]
fn skip_if_registers_equal_ignores_the_last_nibble() {
    assert_eq!(decode(0x512F), Ok(Opcode::SkipEqReg(0x1, 0x2)));
    assert_eq!(decode(0x5127), Ok(Opcode::SkipEqReg(0x1, 0x2)));
}

#[test]
fn decodes_register_words() {
    assert_eq!(decode(0x6005), Ok(Opcode::SetImm(0x0, 0x05)));
    assert_eq!(decode(0x7FFF), Ok(Opcode::AddImm(0xF, 0xFF)));
    assert_eq!(decode(0x8120), Ok(Opcode::CopyReg(0x1, 0x2)));
    assert_eq!(decode(0x8121), Ok(Opcode::Or(0x1, 0x2)));
    assert_eq!(decode(0x8122), Ok(Opcode::And(0x1, 0x2)));
    assert_eq!(decode(0x8123), Ok(Opcode::Xor(0x1, 0x2)));
    assert_eq!(decode(0x8014), Ok(Opcode::AddReg(0x0, 0x1)));
    assert_eq!(decode(0x8125), Ok(Opcode::SubReg(0x1, 0x2)));
    assert_eq!(decode(0x8126), Ok(Opcode::ShiftRight(0x1)));
    assert_eq!(decode(0x8127), Ok(Opcode::SubRegRev(0x1, 0x2)));
    assert_eq!(decode(0x812E), Ok(Opcode::ShiftLeft(0x1)));
    assert_eq!(decode(0xC30F), Ok(Opcode::RandAnd(0x3, 0x0F)));
    assert_eq!(decode(0xD125), Ok(Opcode::Draw(0x1, 0x2, 0x5)));
}

#[test]
fn decodes_timer_key_and_memory_words() {
    assert_eq!(decode(0xF207), Ok(Opcode::ReadDelay(0x2)));
    assert_eq!(decode(0xF30A), Ok(Opcode::AwaitKey(0x3)));
    assert_eq!(decode(0xF415), Ok(Opcode::SetDelay(0x4)));
    assert_eq!(decode(0xF518), Ok(Opcode::SetSound(0x5)));
    assert_eq!(decode(0xF61E), Ok(Opcode::AddIndex(0x6)));
    assert_eq!(decode(0xF710), Ok(Opcode::FontAddress(0x7)));
    assert_eq!(decode(0xF833), Ok(Opcode::Bcd(0x8)));
    assert_eq!(decode(0xF955), Ok(Opcode::StoreRegs(0x9)));
    assert_eq!(decode(0xFA65), Ok(Opcode::LoadRegs(0xA)));
}

#[test]
fn all_ones_word_is_a_decode_error_with_its_nibbles() {
    assert_eq!(
        decode(0xFFFF),
        Err(DecodeError { nibbles: (0xF, 0xF, 0xF, 0xF) })
    );
}

#[test]
fn unknown_words_carry_their_nibbles() {
    assert_eq!(decode(0x0000), Err(DecodeError { nibbles: (0x0, 0x0, 0x0, 0x0) }));
    assert_eq!(decode(0x00E1), Err(DecodeError { nibbles: (0x0, 0x0, 0xE, 0x1) }));
    assert_eq!(decode(0x0123), Err(DecodeError { nibbles: (0x0, 0x1, 0x2, 0x3) }));
    assert_eq!(decode(0x8128), Err(DecodeError { nibbles: (0x8, 0x1, 0x2, 0x8) }));
    assert_eq!(decode(0x9121), Err(DecodeError { nibbles: (0x9, 0x1, 0x2, 0x1) }));
    assert_eq!(decode(0xE19F), Err(DecodeError { nibbles: (0xE, 0x1, 0x9, 0xF) }));
    assert_eq!(decode(0xF129), Err(DecodeError { nibbles: (0xF, 0x1, 0x2, 0x9) }));
    assert_eq!(decode(0xF1FF), Err(DecodeError { nibbles: (0xF, 0x1, 0xF, 0xF) }));
}

#[test]
fn every_word_decodes_to_operands_in_range_or_to_its_nibbles() {
    for word in 0..=u16::MAX {
        match decode(word) {
            Ok(op) => {
                assert!(op.registers_exist(), "word {:#06x}", word);
            }
            Err(e) => {
                let (a, b, c, d) = e.nibbles;
                let rebuilt =
                    ((a as u16) << 12) | ((b as u16) << 8) | ((c as u16) << 4) | d as u16;
                assert_eq!(rebuilt, word);
            }
        }
    }
}

#[test]
fn registers_exist_checks_every_register_operand() {
    assert!(Opcode::ClearScreen.registers_exist());
    assert!(Opcode::Jump(0xFFFF).registers_exist());
    assert!(Opcode::SetImm(15, 0).registers_exist());
    assert!(!Opcode::SetImm(16, 0).registers_exist());
    assert!(Opcode::AddReg(15, 15).registers_exist());
    assert!(!Opcode::AddReg(16, 0).registers_exist());
    assert!(!Opcode::AddReg(0, 16).registers_exist());
    assert!(Opcode::Draw(1, 2, 255).registers_exist());
    assert!(!Opcode::Draw(1, 16, 1).registers_exist());
    assert!(!Opcode::LoadRegs(16).registers_exist());
}

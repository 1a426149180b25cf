//! The instruction forms of the machine and the decoder from 16-bit words.

use vstd::prelude::*;
use vstd::std_specs::convert::TryFromSpecImpl;
use crate::error::DecodeError;

verus! {

/// One decoded instruction. Register operands are written `x` and `y`, an
/// 8-bit immediate `nn`, a 12-bit address `addr` and a 4-bit row count `n`.
#[derive(Clone, Copy, Debug, PartialEq, Eq)]
pub enum Opcode {
    /// `00E0`: clears the screen.
    ClearScreen,
    /// `00EE`: returns from a subroutine.
    Return,
    /// `1nnn`: jumps to `addr`.
    Jump(u16),
    /// `2nnn`: calls the subroutine at `addr`.
    Call(u16),
    /// `3xnn`: skips the next instruction if `Vx == nn`.
    SkipEqImm(u8, u8),
    /// `4xnn`: skips the next instruction if `Vx != nn`.
    SkipNeqImm(u8, u8),
    /// `5xy_`: skips the next instruction if `Vx == Vy`.
    SkipEqReg(u8, u8),
    /// `6xnn`: sets `Vx` to `nn`.
    SetImm(u8, u8),
    /// `7xnn`: adds `nn` to `Vx`, wrapping, without touching the flag.
    AddImm(u8, u8),
    /// `8xy0`: sets `Vx` to `Vy`.
    CopyReg(u8, u8),
    /// `8xy1`: sets `Vx` to `Vx | Vy`.
    Or(u8, u8),
    /// `8xy2`: sets `Vx` to `Vx & Vy`.
    And(u8, u8),
    /// `8xy3`: sets `Vx` to `Vx ^ Vy`.
    Xor(u8, u8),
    /// `8xy4`: adds `Vy` to `Vx`, wrapping; `VF` is 1 on carry, else 0.
    AddReg(u8, u8),
    /// `8xy5`: subtracts `Vy` from `Vx`, wrapping; `VF` is 0 on borrow, else 1.
    SubReg(u8, u8),
    /// `8x_6`: shifts `Vx` right by one; `VF` is the bit shifted out.
    ShiftRight(u8),
    /// `8xy7`: sets `Vx` to `Vy - Vx`, wrapping; `VF` is 0 on borrow, else 1.
    SubRegRev(u8, u8),
    /// `8x_E`: shifts `Vx` left by one; `VF` is the bit shifted out.
    ShiftLeft(u8),
    /// `9xy0`: skips the next instruction if `Vx != Vy`.
    SkipNeqReg(u8, u8),
    /// `Annn`: sets `I` to `addr`.
    SetIndex(u16),
    /// `Bnnn`: jumps to `addr + V0`.
    JumpOffset(u16),
    /// `Cxnn`: sets `Vx` to a random byte masked with `nn`.
    RandAnd(u8, u8),
    /// `Dxyn`: draws the `n`-row sprite at `I` at position `(Vx, Vy)`.
    Draw(u8, u8, u8),
    /// `Ex9E`: skips the next instruction if key `Vx` is pressed.
    SkipKeyPressed(u8),
    /// `ExA1`: skips the next instruction if key `Vx` is not pressed.
    SkipKeyNotPressed(u8),
    /// `Fx07`: sets `Vx` to the delay timer.
    ReadDelay(u8),
    /// `Fx0A`: waits for a key and stores its code in `Vx`.
    AwaitKey(u8),
    /// `Fx15`: sets the delay timer to `Vx`.
    SetDelay(u8),
    /// `Fx18`: sets the sound timer to `Vx`.
    SetSound(u8),
    /// `Fx1E`: adds `Vx` to `I`, wrapping.
    AddIndex(u8),
    /// `Fx10`: sets `I` to the address of the glyph for `Vx`.
    FontAddress(u8),
    /// `Fx33`: stores the three decimal digits of `Vx` at `I`, `I + 1`, `I + 2`.
    Bcd(u8),
    /// `Fx55`: stores `V0..=Vx` at `I` onwards.
    StoreRegs(u8),
    /// `Fx65`: loads `V0..=Vx` from `I` onwards.
    LoadRegs(u8),
}

/// The four nibbles of `word`, most significant first.
pub open spec fn nibbles(word: u16) -> (u8, u8, u8, u8) {
    ((word / 4096) as u8, (word / 256 % 16) as u8, (word / 16 % 16) as u8, (word % 16) as u8)
}

/// The decode table: the instruction that `word` encodes, or the failure that
/// carries its nibbles.
pub open spec fn decode(word: u16) -> Result<Opcode, DecodeError> {
    let addr = word % 4096;
    let nn = (word % 256) as u8;
    let (family, x, y, n) = nibbles(word);
    let unknown = Err::<Opcode, DecodeError>(DecodeError { nibbles: nibbles(word) });
    if family == 0x0 {
        if x == 0x0 && y == 0xE && n == 0x0 {
            Ok(Opcode::ClearScreen)
        } else if x == 0x0 && y == 0xE && n == 0xE {
            Ok(Opcode::Return)
        } else {
            unknown
        }
    } else if family == 0x1 {
        Ok(Opcode::Jump(addr))
    } else if family == 0x2 {
        Ok(Opcode::Call(addr))
    } else if family == 0x3 {
        Ok(Opcode::SkipEqImm(x, nn))
    } else if family == 0x4 {
        Ok(Opcode::SkipNeqImm(x, nn))
    } else if family == 0x5 {
        Ok(Opcode::SkipEqReg(x, y))
    } else if family == 0x6 {
        Ok(Opcode::SetImm(x, nn))
    } else if family == 0x7 {
        Ok(Opcode::AddImm(x, nn))
    } else if family == 0x8 {
        if n == 0x0 {
            Ok(Opcode::CopyReg(x, y))
        } else if n == 0x1 {
            Ok(Opcode::Or(x, y))
        } else if n == 0x2 {
            Ok(Opcode::And(x, y))
        } else if n == 0x3 {
            Ok(Opcode::Xor(x, y))
        } else if n == 0x4 {
            Ok(Opcode::AddReg(x, y))
        } else if n == 0x5 {
            Ok(Opcode::SubReg(x, y))
        } else if n == 0x6 {
            Ok(Opcode::ShiftRight(x))
        } else if n == 0x7 {
            Ok(Opcode::SubRegRev(x, y))
        } else if n == 0xE {
            Ok(Opcode::ShiftLeft(x))
        } else {
            unknown
        }
    } else if family == 0x9 {
        if n == 0x0 {
            Ok(Opcode::SkipNeqReg(x, y))
        } else {
            unknown
        }
    } else if family == 0xA {
        Ok(Opcode::SetIndex(addr))
    } else if family == 0xB {
        Ok(Opcode::JumpOffset(addr))
    } else if family == 0xC {
        Ok(Opcode::RandAnd(x, nn))
    } else if family == 0xD {
        Ok(Opcode::Draw(x, y, n))
    } else if family == 0xE {
        if y == 0x9 && n == 0xE {
            Ok(Opcode::SkipKeyPressed(x))
        } else if y == 0xA && n == 0x1 {
            Ok(Opcode::SkipKeyNotPressed(x))
        } else {
            unknown
        }
    } else {
        if y == 0x0 && n == 0x7 {
            Ok(Opcode::ReadDelay(x))
        } else if y == 0x0 && n == 0xA {
            Ok(Opcode::AwaitKey(x))
        } else if y == 0x1 && n == 0x5 {
            Ok(Opcode::SetDelay(x))
        } else if y == 0x1 && n == 0x8 {
            Ok(Opcode::SetSound(x))
        } else if y == 0x1 && n == 0xE {
            Ok(Opcode::AddIndex(x))
        } else if y == 0x1 && n == 0x0 {
            Ok(Opcode::FontAddress(x))
        } else if y == 0x3 && n == 0x3 {
            Ok(Opcode::Bcd(x))
        } else if y == 0x5 && n == 0x5 {
            Ok(Opcode::StoreRegs(x))
        } else if y == 0x6 && n == 0x5 {
            Ok(Opcode::LoadRegs(x))
        } else {
            unknown
        }
    }
}

impl Opcode {
    /// Whether every register operand names one of the sixteen registers.
    pub open spec fn registers_in_range(self) -> bool {
        match self {
            Opcode::ClearScreen
            | Opcode::Return
            | Opcode::Jump(_)
            | Opcode::Call(_)
            | Opcode::SetIndex(_)
            | Opcode::JumpOffset(_) => true,
            Opcode::SkipEqImm(x, _)
            | Opcode::SkipNeqImm(x, _)
            | Opcode::SetImm(x, _)
            | Opcode::AddImm(x, _)
            | Opcode::RandAnd(x, _)
            | Opcode::ShiftRight(x)
            | Opcode::ShiftLeft(x)
            | Opcode::SkipKeyPressed(x)
            | Opcode::SkipKeyNotPressed(x)
            | Opcode::ReadDelay(x)
            | Opcode::AwaitKey(x)
            | Opcode::SetDelay(x)
            | Opcode::SetSound(x)
            | Opcode::AddIndex(x)
            | Opcode::FontAddress(x)
            | Opcode::Bcd(x)
            | Opcode::StoreRegs(x)
            | Opcode::LoadRegs(x) => x < 16,
            Opcode::SkipEqReg(x, y)
            | Opcode::CopyReg(x, y)
            | Opcode::Or(x, y)
            | Opcode::And(x, y)
            | Opcode::Xor(x, y)
            | Opcode::AddReg(x, y)
            | Opcode::SubReg(x, y)
            | Opcode::SubRegRev(x, y)
            | Opcode::SkipNeqReg(x, y)
            | Opcode::Draw(x, y, _) => x < 16 && y < 16,
        }
    }

    /// Whether every register operand names one of the sixteen registers.
    pub fn registers_exist(&self) -> (b: bool)
        ensures
            b == self.registers_in_range(),
    {
        match *self {
            Opcode::ClearScreen
            | Opcode::Return
            | Opcode::Jump(_)
            | Opcode::Call(_)
            | Opcode::SetIndex(_)
            | Opcode::JumpOffset(_) => true,
            Opcode::SkipEqImm(x, _)
            | Opcode::SkipNeqImm(x, _)
            | Opcode::SetImm(x, _)
            | Opcode::AddImm(x, _)
            | Opcode::RandAnd(x, _)
            | Opcode::ShiftRight(x)
            | Opcode::ShiftLeft(x)
            | Opcode::SkipKeyPressed(x)
            | Opcode::SkipKeyNotPressed(x)
            | Opcode::ReadDelay(x)
            | Opcode::AwaitKey(x)
            | Opcode::SetDelay(x)
            | Opcode::SetSound(x)
            | Opcode::AddIndex(x)
            | Opcode::FontAddress(x)
            | Opcode::Bcd(x)
            | Opcode::StoreRegs(x)
            | Opcode::LoadRegs(x) => x < 16,
            Opcode::SkipEqReg(x, y)
            | Opcode::CopyReg(x, y)
            | Opcode::Or(x, y)
            | Opcode::And(x, y)
            | Opcode::Xor(x, y)
            | Opcode::AddReg(x, y)
            | Opcode::SubReg(x, y)
            | Opcode::SubRegRev(x, y)
            | Opcode::SkipNeqReg(x, y)
            | Opcode::Draw(x, y, _) => x < 16 && y < 16,
        }
    }

    /// Whether every operand lies in the range that an instruction word can
    /// hold: register indices and row counts below 16, addresses below 4096.
    pub open spec fn well_formed(self) -> bool {
        &&& self.registers_in_range()
        &&& match self {
            Opcode::Jump(addr)
            | Opcode::Call(addr)
            | Opcode::SetIndex(addr)
            | Opcode::JumpOffset(addr) => addr < 4096,
            Opcode::Draw(_, _, n) => n < 16,
            _ => true,
        }
    }
}

/// Splits `word` into its nibbles with shifts and masks.
fn split(word: u16) -> (r: (u8, u8, u8, u8))
    ensures
        r == nibbles(word),
{
    assert((word & 0xF000) >> 12 == word / 4096) by (bit_vector);
    assert((word & 0x0F00) >> 8 == word / 256 % 16) by (bit_vector);
    assert((word & 0x00F0) >> 4 == word / 16 % 16) by (bit_vector);
    assert(word & 0x000F == word % 16) by (bit_vector);
    (
        ((word & 0xF000) >> 12) as u8,
        ((word & 0x0F00) >> 8) as u8,
        ((word & 0x00F0) >> 4) as u8,
        (word & 0x000F) as u8,
    )
}

impl TryFrom<u16> for Opcode {
    type Error = DecodeError;

    /// Decodes one instruction word.
    fn try_from(word: u16) -> (r: Result<Opcode, DecodeError>)
        ensures
            r == decode(word),
            r matches Ok(op) ==> op.well_formed(),
    {
        let hex_nibbles = split(word);
        assert(word & 0x0FFF == word % 4096) by (bit_vector);
        assert(word & 0x00FF == word % 256) by (bit_vector);
        let nnn = word & 0x0FFF;
        let nn = (word & 0x00FF) as u8;
        let x = hex_nibbles.1;
        let y = hex_nibbles.2;
        let n = hex_nibbles.3;
        match hex_nibbles {
            (0x0, 0x0, 0xE, 0x0) => Ok(Opcode::ClearScreen),
            (0x0, 0x0, 0xE, 0xE) => Ok(Opcode::Return),
            (0x1, _, _, _) => Ok(Opcode::Jump(nnn)),
            (0x2, _, _, _) => Ok(Opcode::Call(nnn)),
            (0x3, _, _, _) => Ok(Opcode::SkipEqImm(x, nn)),
            (0x4, _, _, _) => Ok(Opcode::SkipNeqImm(x, nn)),
            (0x5, _, _, _) => Ok(Opcode::SkipEqReg(x, y)),
            (0x6, _, _, _) => Ok(Opcode::SetImm(x, nn)),
            (0x7, _, _, _) => Ok(Opcode::AddImm(x, nn)),
            (0x8, _, _, 0x0) => Ok(Opcode::CopyReg(x, y)),
            (0x8, _, _, 0x1) => Ok(Opcode::Or(x, y)),
            (0x8, _, _, 0x2) => Ok(Opcode::And(x, y)),
            (0x8, _, _, 0x3) => Ok(Opcode::Xor(x, y)),
            (0x8, _, _, 0x4) => Ok(Opcode::AddReg(x, y)),
            (0x8, _, _, 0x5) => Ok(Opcode::SubReg(x, y)),
            (0x8, _, _, 0x6) => Ok(Opcode::ShiftRight(x)),
            (0x8, _, _, 0x7) => Ok(Opcode::SubRegRev(x, y)),
            (0x8, _, _, 0xE) => Ok(Opcode::ShiftLeft(x)),
            (0x9, _, _, 0x0) => Ok(Opcode::SkipNeqReg(x, y)),
            (0xA, _, _, _) => Ok(Opcode::SetIndex(nnn)),
            (0xB, _, _, _) => Ok(Opcode::JumpOffset(nnn)),
            (0xC, _, _, _) => Ok(Opcode::RandAnd(x, nn)),
            (0xD, _, _, _) => Ok(Opcode::Draw(x, y, n)),
            (0xE, _, 0x9, 0xE) => Ok(Opcode::SkipKeyPressed(x)),
            (0xE, _, 0xA, 0x1) => Ok(Opcode::SkipKeyNotPressed(x)),
            (0xF, _, 0x0, 0x7) => Ok(Opcode::ReadDelay(x)),
            (0xF, _, 0x0, 0xA) => Ok(Opcode::AwaitKey(x)),
            (0xF, _, 0x1, 0x5) => Ok(Opcode::SetDelay(x)),
            (0xF, _, 0x1, 0x8) => Ok(Opcode::SetSound(x)),
            (0xF, _, 0x1, 0xE) => Ok(Opcode::AddIndex(x)),
            (0xF, _, 0x1, 0x0) => Ok(Opcode::FontAddress(x)),
            (0xF, _, 0x3, 0x3) => Ok(Opcode::Bcd(x)),
            (0xF, _, 0x5, 0x5) => Ok(Opcode::StoreRegs(x)),
            (0xF, _, 0x6, 0x5) => Ok(Opcode::LoadRegs(x)),
            _ => Err(DecodeError { nibbles: hex_nibbles }),
        }
    }
}

impl TryFromSpecImpl<u16> for Opcode {
    open spec fn obeys_try_from_spec() -> bool {
        true
    }

    open spec fn try_from_spec(word: u16) -> Result<Opcode, DecodeError> {
        decode(word)
    }
}

} // verus!

//! The instruction set, and how two bytes of a program name an instruction.
//!
//! An instruction is two bytes, high byte first. Its four nibbles are, from
//! the left: the opcode, `x`, `y` and `n`. `kk` is the whole low byte, and
//! `nnn` the lower twelve bits of the two bytes.

use vstd::prelude::*;

verus! {

/// One instruction. `x` and `y` are register indices.
#[derive(Clone, Copy, Debug, PartialEq, Eq, Structural)]
pub enum Instruction {
    /// `00E0`
    ClearScreen,
    /// `00EE`
    Ret,
    /// `1nnn`
    Jump { nnn: u16 },
    /// `2nnn`
    Call { nnn: u16 },
    /// `3xkk`
    SeByte { x: usize, kk: u8 },
    /// `4xkk`
    Sne { x: usize, kk: u8 },
    /// `5xy0`
    SeReg { x: usize, y: usize },
    /// `6xkk`
    Load { x: usize, kk: u8 },
    /// `7xkk`
    Add { x: usize, kk: u8 },
    /// `8xy0`
    LoadReg { x: usize, y: usize },
    /// `8xy1`
    Or { x: usize, y: usize },
    /// `8xy2`
    And { x: usize, y: usize },
    /// `8xy3`
    Xor { x: usize, y: usize },
    /// `8xy4`
    AddWithCarry { x: usize, y: usize },
    /// `8xy5`
    SubWithBorrow { x: usize, y: usize },
    /// `8xy6`
    Shr { x: usize, y: usize },
    /// `8xy7`
    Subn { x: usize, y: usize },
    /// `8xyE`
    Shl { x: usize },
    /// `9xy0`
    SneV { x: usize, y: usize },
    /// `Annn`
    LoadI { nnn: u16 },
    /// `Bnnn`. Of `nnn` only the lowest nibble is the offset.
    JumpToV0 { offset: u16 },
    /// `Cxkk`
    Rand { x: usize, kk: u8 },
    /// `Dxyn`
    Draw { x: usize, y: usize, n: usize },
    /// `Ex9E`
    SkipIfKeyPressed { x: usize },
    /// `ExA1`
    SkipIfKeyNotPressed { x: usize },
    /// `Fx07`
    LoadDelayTimer { x: usize },
    /// `Fx0A`
    LoadKeyPress { x: usize },
    /// `Fx15`
    SetDelayTimer { x: usize },
    /// `Fx18`
    SetSoundTimer { x: usize },
    /// `Fx1E`
    AddI { x: usize },
    /// `Fx29`
    LoadFont { x: usize },
    /// `Fx33`
    LoadBcd { x: usize },
    /// `Fx55`
    StoreRegisters,
    /// `Fx65`
    RecallRegisters,
}

impl Instruction {
    /// Every register index is below 16, and a sprite has fewer than 16 rows.
    pub open spec fn valid(self) -> bool {
        match self {
            Instruction::ClearScreen
            | Instruction::Ret
            | Instruction::Jump { .. }
            | Instruction::Call { .. }
            | Instruction::LoadI { .. }
            | Instruction::JumpToV0 { .. }
            | Instruction::StoreRegisters
            | Instruction::RecallRegisters => true,
            Instruction::SeByte { x, .. }
            | Instruction::Sne { x, .. }
            | Instruction::Load { x, .. }
            | Instruction::Add { x, .. }
            | Instruction::Shl { x }
            | Instruction::Rand { x, .. }
            | Instruction::SkipIfKeyPressed { x }
            | Instruction::SkipIfKeyNotPressed { x }
            | Instruction::LoadDelayTimer { x }
            | Instruction::LoadKeyPress { x }
            | Instruction::SetDelayTimer { x }
            | Instruction::SetSoundTimer { x }
            | Instruction::AddI { x }
            | Instruction::LoadFont { x }
            | Instruction::LoadBcd { x } => x < 16,
            Instruction::SeReg { x, y }
            | Instruction::LoadReg { x, y }
            | Instruction::Or { x, y }
            | Instruction::And { x, y }
            | Instruction::Xor { x, y }
            | Instruction::AddWithCarry { x, y }
            | Instruction::SubWithBorrow { x, y }
            | Instruction::Shr { x, y }
            | Instruction::Subn { x, y }
            | Instruction::SneV { x, y } => x < 16 && y < 16,
            Instruction::Draw { x, y, n } => x < 16 && y < 16 && n < 16,
        }
    }
}

/// The twelve-bit number in the lower three nibbles of an instruction.
pub open spec fn spec_arg3(b0: u8, b1: u8) -> u16 {
    ((b0 % 16) * 256 + b1) as u16
}

/// The twelve-bit number in the lower three nibbles of an instruction.
pub fn arg3(b0: u8, b1: u8) -> (nnn: u16)
    ensures
        nnn == spec_arg3(b0, b1),
        nnn < 4096,
{
    (b0 % 16) as u16 * 256 + b1 as u16
}

/// The instruction that the bytes `b0` and `b1` name, if they name one.
pub open spec fn spec_decode(b0: u8, b1: u8) -> Option<Instruction> {
    let opcode = b0 / 16;
    let x = (b0 % 16) as usize;
    let y = (b1 / 16) as usize;
    let n = b1 % 16;
    let nnn = spec_arg3(b0, b1);
    if opcode == 0x0 {
        if b0 == 0x00 && b1 == 0xE0 {
            Some(Instruction::ClearScreen)
        } else if b0 == 0x00 && b1 == 0xEE {
            Some(Instruction::Ret)
        } else {
            None
        }
    } else if opcode == 0x1 {
        Some(Instruction::Jump { nnn })
    } else if opcode == 0x2 {
        Some(Instruction::Call { nnn })
    } else if opcode == 0x3 {
        Some(Instruction::SeByte { x, kk: b1 })
    } else if opcode == 0x4 {
        Some(Instruction::Sne { x, kk: b1 })
    } else if opcode == 0x5 {
        if n == 0 {
            Some(Instruction::SeReg { x, y })
        } else {
            None
        }
    } else if opcode == 0x6 {
        Some(Instruction::Load { x, kk: b1 })
    } else if opcode == 0x7 {
        Some(Instruction::Add { x, kk: b1 })
    } else if opcode == 0x8 {
        if n == 0x0 {
            Some(Instruction::LoadReg { x, y })
        } else if n == 0x1 {
            Some(Instruction::Or { x, y })
        } else if n == 0x2 {
            Some(Instruction::And { x, y })
        } else if n == 0x3 {
            Some(Instruction::Xor { x, y })
        } else if n == 0x4 {
            Some(Instruction::AddWithCarry { x, y })
        } else if n == 0x5 {
            Some(Instruction::SubWithBorrow { x, y })
        } else if n == 0x6 {
            Some(Instruction::Shr { x, y })
        } else if n == 0x7 {
            Some(Instruction::Subn { x, y })
        } else if n == 0xE {
            Some(Instruction::Shl { x })
        } else {
            None
        }
    } else if opcode == 0x9 {
        if n == 0 {
            Some(Instruction::SneV { x, y })
        } else {
            None
        }
    } else if opcode == 0xA {
        Some(Instruction::LoadI { nnn })
    } else if opcode == 0xB {
        Some(Instruction::JumpToV0 { offset: n as u16 })
    } else if opcode == 0xC {
        Some(Instruction::Rand { x, kk: b1 })
    } else if opcode == 0xD {
        Some(Instruction::Draw { x, y, n: n as usize })
    } else if opcode == 0xE {
        if b1 == 0x9E {
            Some(Instruction::SkipIfKeyPressed { x })
        } else if b1 == 0xA1 {
            Some(Instruction::SkipIfKeyNotPressed { x })
        } else {
            None
        }
    } else {
        if b1 == 0x07 {
            Some(Instruction::LoadDelayTimer { x })
        } else if b1 == 0x0A {
            Some(Instruction::LoadKeyPress { x })
        } else if b1 == 0x15 {
            Some(Instruction::SetDelayTimer { x })
        } else if b1 == 0x18 {
            Some(Instruction::SetSoundTimer { x })
        } else if b1 == 0x1E {
            Some(Instruction::AddI { x })
        } else if b1 == 0x29 {
            Some(Instruction::LoadFont { x })
        } else if b1 == 0x33 {
            Some(Instruction::LoadBcd { x })
        } else if b1 == 0x55 {
            Some(Instruction::StoreRegisters)
        } else if b1 == 0x65 {
            Some(Instruction::RecallRegisters)
        } else {
            None
        }
    }
}

/// Decodes the two bytes of an instruction. `None` where they name none.
pub fn decode(b0: u8, b1: u8) -> (decoded: Option<Instruction>)
    ensures
        decoded == spec_decode(b0, b1),
        decoded matches Some(instruction) ==> instruction.valid(),
{
    let opcode = b0 / 16;
    let x = (b0 % 16) as usize;
    let y = (b1 / 16) as usize;
    let n = b1 % 16;
    match opcode {
        0x0 => {
            if b0 == 0x00 && b1 == 0xE0 {
                Some(Instruction::ClearScreen)
            } else if b0 == 0x00 && b1 == 0xEE {
                Some(Instruction::Ret)
            } else {
                None
            }
        },
        0x1 => Some(Instruction::Jump { nnn: arg3(b0, b1) }),
        0x2 => Some(Instruction::Call { nnn: arg3(b0, b1) }),
        0x3 => Some(Instruction::SeByte { x, kk: b1 }),
        0x4 => Some(Instruction::Sne { x, kk: b1 }),
        0x5 => {
            if n == 0 {
                Some(Instruction::SeReg { x, y })
            } else {
                None
            }
        },
        0x6 => Some(Instruction::Load { x, kk: b1 }),
        0x7 => Some(Instruction::Add { x, kk: b1 }),
        0x8 => match n {
            0x0 => Some(Instruction::LoadReg { x, y }),
            0x1 => Some(Instruction::Or { x, y }),
            0x2 => Some(Instruction::And { x, y }),
            0x3 => Some(Instruction::Xor { x, y }),
            0x4 => Some(Instruction::AddWithCarry { x, y }),
            0x5 => Some(Instruction::SubWithBorrow { x, y }),
            0x6 => Some(Instruction::Shr { x, y }),
            0x7 => Some(Instruction::Subn { x, y }),
            0xE => Some(Instruction::Shl { x }),
            _ => None,
        },
        0x9 => {
            if n == 0 {
                Some(Instruction::SneV { x, y })
            } else {
                None
            }
        },
        0xA => Some(Instruction::LoadI { nnn: arg3(b0, b1) }),
        0xB => Some(Instruction::JumpToV0 { offset: n as u16 }),
        0xC => Some(Instruction::Rand { x, kk: b1 }),
        0xD => Some(Instruction::Draw { x, y, n: n as usize }),
        0xE => match b1 {
            0x9E => Some(Instruction::SkipIfKeyPressed { x }),
            0xA1 => Some(Instruction::SkipIfKeyNotPressed { x }),
            _ => None,
        },
        _ => match b1 {
            0x07 => Some(Instruction::LoadDelayTimer { x }),
            0x0A => Some(Instruction::LoadKeyPress { x }),
            0x15 => Some(Instruction::SetDelayTimer { x }),
            0x18 => Some(Instruction::SetSoundTimer { x }),
            0x1E => Some(Instruction::AddI { x }),
            0x29 => Some(Instruction::LoadFont { x }),
            0x33 => Some(Instruction::LoadBcd { x }),
            0x55 => Some(Instruction::StoreRegisters),
            0x65 => Some(Instruction::RecallRegisters),
            _ => None,
        },
    }
}

} // verus!

use vstd::prelude::*;

verus! {

/// A decoded instruction. `x` and `y` name registers, `n`, `nn` and `nnn` are
/// the 4-, 8- and 12-bit immediates of the opcode.
#[derive(Clone, Copy, Debug, PartialEq, Eq, Structural)]
pub enum Instruction {
    /// `00E0`: clear the screen.
    ClearScreen,
    /// `00EE`: return from a subroutine.
    Return,
    /// `1NNN`: jump to `nnn`.
    Jump { nnn: u16 },
    /// `2NNN`: call the subroutine at `nnn`.
    Call { nnn: u16 },
    /// `3XNN`: skip the next instruction if `VX == nn`.
    SkipIfEqual { x: u8, nn: u8 },
    /// `4XNN`: skip the next instruction if `VX != nn`.
    SkipIfNotEqual { x: u8, nn: u8 },
    /// `5XY0`: skip the next instruction if `VX == VY`.
    SkipIfRegsEqual { x: u8, y: u8 },
    /// `6XNN`: `VX := nn`.
    LoadImmediate { x: u8, nn: u8 },
    /// `7XNN`: `VX := VX + nn`, wrapping, `VF` untouched.
    AddImmediate { x: u8, nn: u8 },
    /// `8XY0`: `VX := VY`.
    Move { x: u8, y: u8 },
    /// `8XY1`: `VX := VX | VY`.
    Or { x: u8, y: u8 },
    /// `8XY2`: `VX := VX & VY`.
    And { x: u8, y: u8 },
    /// `8XY3`: `VX := VX ^ VY`.
    Xor { x: u8, y: u8 },
    /// `8XY4`: `VX := VX + VY`, wrapping; `VF := 1` on carry, else 0.
    Add { x: u8, y: u8 },
    /// `8XY5`: `VX := VX - VY`, wrapping; `VF := 1` when `VX >= VY` (no borrow), else 0.
    Sub { x: u8, y: u8 },
    /// `8XY6`: `VX := VX >> 1`; `VF` takes the bit shifted out.
    ShiftRight { x: u8, y: u8 },
    /// `8XY7`: `VX := VY - VX`, wrapping; `VF := 1` when `VY >= VX` (no borrow), else 0.
    SubReversed { x: u8, y: u8 },
    /// `8XYE`: `VX := VX << 1`; `VF` takes the bit shifted out.
    ShiftLeft { x: u8, y: u8 },
    /// `9XY0`: skip the next instruction if `VX != VY`.
    SkipIfRegsNotEqual { x: u8, y: u8 },
    /// `ANNN`: `I := nnn`.
    LoadIndex { nnn: u16 },
    /// `BNNN`: jump to `V0 + nnn`.
    JumpOffset { nnn: u16 },
    /// `CXNN`: `VX := nn & r` for a random byte `r`.
    Random { x: u8, nn: u8 },
    /// `DXYN`: draw the `n`-row sprite at `I` at `(VX, VY)`; `VF` := collision.
    Draw { x: u8, y: u8, n: u8 },
    /// `EX9E`: skip the next instruction if key `VX` is down.
    SkipIfKey { x: u8 },
    /// `EXA1`: skip the next instruction if key `VX` is up.
    SkipIfNotKey { x: u8 },
    /// `FX07`: `VX := delay timer`.
    GetDelay { x: u8 },
    /// `FX0A`: wait until a key is down and put it in `VX`.
    WaitKey { x: u8 },
    /// `FX15`: `delay timer := VX`.
    SetDelay { x: u8 },
    /// `FX18`: `sound timer := VX`.
    SetSound { x: u8 },
    /// `FX1E`: `I := I + VX`.
    AddIndex { x: u8 },
    /// `FX29`: `I :=` address of the font glyph of `VX`.
    FontGlyph { x: u8 },
    /// `FX33`: store the three decimal digits of `VX` at `I`, `I + 1`, `I + 2`.
    StoreBcd { x: u8 },
    /// `FX55`: store `V0..=VX` from `I` on; `I` advances past them.
    StoreRegisters { x: u8 },
    /// `FX65`: load `V0..=VX` from `I` on; `I` advances past them.
    LoadRegisters { x: u8 },
}

/// The instruction that the 16-bit word `op` encodes, if any.
pub open spec fn decode_spec(op: u16) -> Option<Instruction> {
    let family = op / 0x1000;
    let x = ((op / 0x100) % 0x10) as u8;
    let y = ((op / 0x10) % 0x10) as u8;
    let n = (op % 0x10) as u8;
    let nn = (op % 0x100) as u8;
    let nnn = (op % 0x1000) as u16;
    if family == 0x0 {
        if op == 0x00E0 {
            Some(Instruction::ClearScreen)
        } else if op == 0x00EE {
            Some(Instruction::Return)
        } else {
            None
        }
    } else if family == 0x1 {
        Some(Instruction::Jump { nnn })
    } else if family == 0x2 {
        Some(Instruction::Call { nnn })
    } else if family == 0x3 {
        Some(Instruction::SkipIfEqual { x, nn })
    } else if family == 0x4 {
        Some(Instruction::SkipIfNotEqual { x, nn })
    } else if family == 0x5 {
        if n == 0 {
            Some(Instruction::SkipIfRegsEqual { x, y })
        } else {
            None
        }
    } else if family == 0x6 {
        Some(Instruction::LoadImmediate { x, nn })
    } else if family == 0x7 {
        Some(Instruction::AddImmediate { x, nn })
    } else if family == 0x8 {
        if n == 0x0 {
            Some(Instruction::Move { x, y })
        } else if n == 0x1 {
            Some(Instruction::Or { x, y })
        } else if n == 0x2 {
            Some(Instruction::And { x, y })
        } else if n == 0x3 {
            Some(Instruction::Xor { x, y })
        } else if n == 0x4 {
            Some(Instruction::Add { x, y })
        } else if n == 0x5 {
            Some(Instruction::Sub { x, y })
        } else if n == 0x6 {
            Some(Instruction::ShiftRight { x, y })
        } else if n == 0x7 {
            Some(Instruction::SubReversed { x, y })
        } else if n == 0xE {
            Some(Instruction::ShiftLeft { x, y })
        } else {
            None
        }
    } else if family == 0x9 {
        if n == 0 {
            Some(Instruction::SkipIfRegsNotEqual { x, y })
        } else {
            None
        }
    } else if family == 0xA {
        Some(Instruction::LoadIndex { nnn })
    } else if family == 0xB {
        Some(Instruction::JumpOffset { nnn })
    } else if family == 0xC {
        Some(Instruction::Random { x, nn })
    } else if family == 0xD {
        Some(Instruction::Draw { x, y, n })
    } else if family == 0xE {
        if nn == 0x9E {
            Some(Instruction::SkipIfKey { x })
        } else if nn == 0xA1 {
            Some(Instruction::SkipIfNotKey { x })
        } else {
            None
        }
    } else {
        if nn == 0x07 {
            Some(Instruction::GetDelay { x })
        } else if nn == 0x0A {
            Some(Instruction::WaitKey { x })
        } else if nn == 0x15 {
            Some(Instruction::SetDelay { x })
        } else if nn == 0x18 {
            Some(Instruction::SetSound { x })
        } else if nn == 0x1E {
            Some(Instruction::AddIndex { x })
        } else if nn == 0x29 {
            Some(Instruction::FontGlyph { x })
        } else if nn == 0x33 {
            Some(Instruction::StoreBcd { x })
        } else if nn == 0x55 {
            Some(Instruction::StoreRegisters { x })
        } else if nn == 0x65 {
            Some(Instruction::LoadRegisters { x })
        } else {
            None
        }
    }
}

impl Instruction {
    /// Register operands are register numbers, `n` is a nibble and addresses
    /// have twelve bits: what every decoded instruction satisfies.
    pub open spec fn wf(self) -> bool {
        match self {
            Instruction::Jump { nnn } | Instruction::Call { nnn } | Instruction::LoadIndex { nnn }
            | Instruction::JumpOffset { nnn } => nnn < 0x1000,
            Instruction::SkipIfEqual { x, .. } | Instruction::SkipIfNotEqual { x, .. }
            | Instruction::LoadImmediate { x, .. } | Instruction::AddImmediate { x, .. }
            | Instruction::Random { x, .. } | Instruction::SkipIfKey { x }
            | Instruction::SkipIfNotKey { x } | Instruction::GetDelay { x }
            | Instruction::WaitKey { x } | Instruction::SetDelay { x }
            | Instruction::SetSound { x } | Instruction::AddIndex { x }
            | Instruction::FontGlyph { x } | Instruction::StoreBcd { x }
            | Instruction::StoreRegisters { x } | Instruction::LoadRegisters { x } => x < 16,
            Instruction::SkipIfRegsEqual { x, y } | Instruction::Move { x, y }
            | Instruction::Or { x, y } | Instruction::And { x, y } | Instruction::Xor { x, y }
            | Instruction::Add { x, y } | Instruction::Sub { x, y }
            | Instruction::ShiftRight { x, y } | Instruction::SubReversed { x, y }
            | Instruction::ShiftLeft { x, y } | Instruction::SkipIfRegsNotEqual { x, y } => x < 16
                && y < 16,
            Instruction::Draw { x, y, n } => x < 16 && y < 16 && n < 16,
            Instruction::ClearScreen | Instruction::Return => true,
        }
    }
}

/// Decodes the 16-bit word `op`; `None` where it is no instruction.
pub fn decode(op: u16) -> (r: Option<Instruction>)
    ensures
        r == decode_spec(op),
        r matches Some(ins) ==> ins.wf(),
{
    let family = op / 0x1000;
    let x = ((op / 0x100) % 0x10) as u8;
    let y = ((op / 0x10) % 0x10) as u8;
    let n = (op % 0x10) as u8;
    let nn = (op % 0x100) as u8;
    let nnn = op % 0x1000;
    if family == 0x0 {
        if op == 0x00E0 {
            Some(Instruction::ClearScreen)
        } else if op == 0x00EE {
            Some(Instruction::Return)
        } else {
            None
        }
    } else if family == 0x1 {
        Some(Instruction::Jump { nnn })
    } else if family == 0x2 {
        Some(Instruction::Call { nnn })
    } else if family == 0x3 {
        Some(Instruction::SkipIfEqual { x, nn })
    } else if family == 0x4 {
        Some(Instruction::SkipIfNotEqual { x, nn })
    } else if family == 0x5 {
        if n == 0 {
            Some(Instruction::SkipIfRegsEqual { x, y })
        } else {
            None
        }
    } else if family == 0x6 {
        Some(Instruction::LoadImmediate { x, nn })
    } else if family == 0x7 {
        Some(Instruction::AddImmediate { x, nn })
    } else if family == 0x8 {
        if n == 0x0 {
            Some(Instruction::Move { x, y })
        } else if n == 0x1 {
            Some(Instruction::Or { x, y })
        } else if n == 0x2 {
            Some(Instruction::And { x, y })
        } else if n == 0x3 {
            Some(Instruction::Xor { x, y })
        } else if n == 0x4 {
            Some(Instruction::Add { x, y })
        } else if n == 0x5 {
            Some(Instruction::Sub { x, y })
        } else if n == 0x6 {
            Some(Instruction::ShiftRight { x, y })
        } else if n == 0x7 {
            Some(Instruction::SubReversed { x, y })
        } else if n == 0xE {
            Some(Instruction::ShiftLeft { x, y })
        } else {
            None
        }
    } else if family == 0x9 {
        if n == 0 {
            Some(Instruction::SkipIfRegsNotEqual { x, y })
        } else {
            None
        }
    } else if family == 0xA {
        Some(Instruction::LoadIndex { nnn })
    } else if family == 0xB {
        Some(Instruction::JumpOffset { nnn })
    } else if family == 0xC {
        Some(Instruction::Random { x, nn })
    } else if family == 0xD {
        Some(Instruction::Draw { x, y, n })
    } else if family == 0xE {
        if nn == 0x9E {
            Some(Instruction::SkipIfKey { x })
        } else if nn == 0xA1 {
            Some(Instruction::SkipIfNotKey { x })
        } else {
            None
        }
    } else {
        if nn == 0x07 {
            Some(Instruction::GetDelay { x })
        } else if nn == 0x0A {
            Some(Instruction::WaitKey { x })
        } else if nn == 0x15 {
            Some(Instruction::SetDelay { x })
        } else if nn == 0x18 {
            Some(Instruction::SetSound { x })
        } else if nn == 0x1E {
            Some(Instruction::AddIndex { x })
        } else if nn == 0x29 {
            Some(Instruction::FontGlyph { x })
        } else if nn == 0x33 {
            Some(Instruction::StoreBcd { x })
        } else if nn == 0x55 {
            Some(Instruction::StoreRegisters { x })
        } else if nn == 0x65 {
            Some(Instruction::LoadRegisters { x })
        } else {
            None
        }
    }
}

} // verus!

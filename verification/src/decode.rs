//! The decoder: from a sixteen-bit opcode to an instruction descriptor.
//!
//! An opcode is four nibbles. The first selects the group; in the groups
//! `0`, `8`, `E` and `F` the last nibble or the low byte selects the
//! instruction. What is not an instruction decodes to `Unknown`, which is a
//! descriptor like any other: decoding never fails.

use vstd::prelude::*;

verus! {

/// The group selector: bits 12 to 15.
pub open spec fn field_group(opcode: u16) -> u8 {
    (opcode >> 12) as u8
}

/// The operand `x`: bits 8 to 11, a register index.
pub open spec fn field_x(opcode: u16) -> u8 {
    ((opcode >> 8) & 0xF) as u8
}

/// The operand `y`: bits 4 to 7, a register index.
pub open spec fn field_y(opcode: u16) -> u8 {
    ((opcode >> 4) & 0xF) as u8
}

/// The operand `n`: bits 0 to 3.
pub open spec fn field_n(opcode: u16) -> u8 {
    (opcode & 0xF) as u8
}

/// The operand `kk`: the low byte.
pub open spec fn field_kk(opcode: u16) -> u8 {
    (opcode & 0xFF) as u8
}

/// The operand `addr`: the low twelve bits.
pub open spec fn field_addr(opcode: u16) -> u16 {
    opcode & 0xFFF
}

/// The fields are the opcode's digits: base sixteen for the nibbles, and the
/// byte and the address are made of the nibbles below them.
pub proof fn lemma_fields(opcode: u16)
    ensures
        field_group(opcode) < 16,
        field_x(opcode) < 16,
        field_y(opcode) < 16,
        field_n(opcode) < 16,
        field_addr(opcode) < 0x1000,
        field_kk(opcode) == 16 * field_y(opcode) + field_n(opcode),
        field_addr(opcode) == 256 * field_x(opcode) + field_kk(opcode),
        opcode == 4096 * field_group(opcode) + field_addr(opcode),
{
    let g = opcode >> 12;
    let x = (opcode >> 8) & 0xF;
    let y = (opcode >> 4) & 0xF;
    let n = opcode & 0xF;
    let kk = opcode & 0xFF;
    let addr = opcode & 0xFFF;
    assert(g < 16 && x < 16 && y < 16 && n < 16 && kk < 256 && addr < 0x1000 && kk == 16 * y + n
        && addr == 256 * x + kk && opcode == 4096 * g + addr) by (bit_vector)
        requires
            g == opcode >> 12,
            x == (opcode >> 8) & 0xF,
            y == (opcode >> 4) & 0xF,
            n == opcode & 0xF,
            kk == opcode & 0xFF,
            addr == opcode & 0xFFF,
    ;
}

/// Extracts the group selector.
pub fn op_group(opcode: u16) -> (g: u8)
    ensures
        g == field_group(opcode),
        g < 16,
{
    proof {
        lemma_fields(opcode);
    }
    (opcode >> 12) as u8
}

/// Extracts `x`.
pub fn op_x(opcode: u16) -> (x: u8)
    ensures
        x == field_x(opcode),
        x < 16,
{
    proof {
        lemma_fields(opcode);
    }
    ((opcode >> 8) & 0xF) as u8
}

/// Extracts `y`.
pub fn op_y(opcode: u16) -> (y: u8)
    ensures
        y == field_y(opcode),
        y < 16,
{
    proof {
        lemma_fields(opcode);
    }
    ((opcode >> 4) & 0xF) as u8
}

/// Extracts `n`.
pub fn op_n(opcode: u16) -> (n: u8)
    ensures
        n == field_n(opcode),
        n < 16,
{
    proof {
        lemma_fields(opcode);
    }
    (opcode & 0xF) as u8
}

/// Extracts `kk`.
pub fn op_kk(opcode: u16) -> (kk: u8)
    ensures
        kk == field_kk(opcode),
{
    (opcode & 0xFF) as u8
}

/// Extracts `addr`.
pub fn op_addr(opcode: u16) -> (addr: u16)
    ensures
        addr == field_addr(opcode),
        addr < 0x1000,
{
    proof {
        lemma_fields(opcode);
    }
    opcode & 0xFFF
}

/// An instruction with its operands: `x` and `y` are register indices, `kk`
/// an immediate byte, `addr` a twelve-bit address, `n` a nibble.
#[derive(Clone, Copy, Debug, PartialEq, Eq, Structural)]
pub enum Instruction {
    /// `00E0`: clear the display.
    ClearDisplay,
    /// `00EE`: return from a subroutine.
    Return,
    /// `1NNN`: jump to `addr`.
    Jump { addr: u16 },
    /// `2NNN`: call the subroutine at `addr`.
    Call { addr: u16 },
    /// `3XNN`: skip the next instruction if `V[x] == kk`.
    SkipIfEqual { x: u8, kk: u8 },
    /// `4XNN`: skip the next instruction if `V[x] != kk`.
    SkipIfNotEqual { x: u8, kk: u8 },
    /// `5XY0`: skip the next instruction if `V[x] == V[y]`.
    SkipIfSame { x: u8, y: u8 },
    /// `6XNN`: `V[x] := kk`.
    LoadByte { x: u8, kk: u8 },
    /// `7XNN`: `V[x] := V[x] + kk`, wrapping, no flag.
    AddByte { x: u8, kk: u8 },
    /// `8XY0`: `V[x] := V[y]`.
    Assign { x: u8, y: u8 },
    /// `8XY1`: `V[x] := V[x] | V[y]`.
    Or { x: u8, y: u8 },
    /// `8XY2`: `V[x] := V[x] & V[y]`.
    And { x: u8, y: u8 },
    /// `8XY3`: `V[x] := V[x] ^ V[y]`.
    Xor { x: u8, y: u8 },
    /// `8XY4`: `V[x] := V[x] + V[y]`, `VF` the carry.
    AddRegister { x: u8, y: u8 },
    /// `8XY5`: `V[x] := V[x] - V[y]`, `VF` set when there is no borrow.
    Subtract { x: u8, y: u8 },
    /// `8XY6`: shift right by one, `VF` the bit shifted out.
    ShiftRight { x: u8, y: u8 },
    /// `8XY7`: `V[x] := V[y] - V[x]`, `VF` set when there is no borrow.
    SubtractFrom { x: u8, y: u8 },
    /// `8XYE`: shift left by one, `VF` the bit shifted out.
    ShiftLeft { x: u8, y: u8 },
    /// `9XY0`: skip the next instruction if `V[x] != V[y]`.
    SkipIfDifferent { x: u8, y: u8 },
    /// `ANNN`: `I := addr`.
    SetIndex { addr: u16 },
    /// `BNNN`: jump to `addr` plus a register.
    JumpOffset { addr: u16 },
    /// `CXNN`: `V[x] :=` a random byte `& kk`.
    Random { x: u8, kk: u8 },
    /// `DXYN`: draw the `n`-row sprite at `I` at `(V[x], V[y])`.
    Draw { x: u8, y: u8, n: u8 },
    /// `EX9E`: skip the next instruction if key `V[x]` is down.
    SkipIfKeyDown { x: u8 },
    /// `EXA1`: skip the next instruction if key `V[x]` is not down.
    SkipIfKeyUp { x: u8 },
    /// `FX07`: `V[x] :=` the delay counter.
    GetDelay { x: u8 },
    /// `FX0A`: wait for a key press, then `V[x] :=` the key.
    AwaitKey { x: u8 },
    /// `FX15`: the delay counter `:= V[x]`.
    SetDelay { x: u8 },
    /// `FX18`: the sound counter `:= V[x]`.
    SetSound { x: u8 },
    /// `FX1E`: `I := I + V[x]`.
    AddIndex { x: u8 },
    /// `FX29`: `I :=` the address of the glyph for `V[x]`.
    Glyph { x: u8 },
    /// `FX33`: store the decimal digits of `V[x]` at `I`, `I + 1`, `I + 2`.
    StoreDecimal { x: u8 },
    /// `FX55`: store `V[0]` to `V[x]` at `I`, `I + 1`, ...
    StoreRegisters { x: u8 },
    /// `FX65`: load `V[0]` to `V[x]` from `I`, `I + 1`, ...
    LoadRegisters { x: u8 },
    /// Anything else, with the opcode as it was fetched.
    Unknown { opcode: u16 },
}

/// What an opcode of group `8` means: the last nibble selects.
pub open spec fn decode_arithmetic(opcode: u16) -> Instruction {
    let x = field_x(opcode);
    let y = field_y(opcode);
    let n = field_n(opcode);
    if n == 0x0 {
        Instruction::Assign { x, y }
    } else if n == 0x1 {
        Instruction::Or { x, y }
    } else if n == 0x2 {
        Instruction::And { x, y }
    } else if n == 0x3 {
        Instruction::Xor { x, y }
    } else if n == 0x4 {
        Instruction::AddRegister { x, y }
    } else if n == 0x5 {
        Instruction::Subtract { x, y }
    } else if n == 0x6 {
        Instruction::ShiftRight { x, y }
    } else if n == 0x7 {
        Instruction::SubtractFrom { x, y }
    } else if n == 0xE {
        Instruction::ShiftLeft { x, y }
    } else {
        Instruction::Unknown { opcode }
    }
}

/// What an opcode of group `F` means: the low byte selects.
pub open spec fn decode_misc(opcode: u16) -> Instruction {
    let x = field_x(opcode);
    let kk = field_kk(opcode);
    if kk == 0x07 {
        Instruction::GetDelay { x }
    } else if kk == 0x0A {
        Instruction::AwaitKey { x }
    } else if kk == 0x15 {
        Instruction::SetDelay { x }
    } else if kk == 0x18 {
        Instruction::SetSound { x }
    } else if kk == 0x1E {
        Instruction::AddIndex { x }
    } else if kk == 0x29 {
        Instruction::Glyph { x }
    } else if kk == 0x33 {
        Instruction::StoreDecimal { x }
    } else if kk == 0x55 {
        Instruction::StoreRegisters { x }
    } else if kk == 0x65 {
        Instruction::LoadRegisters { x }
    } else {
        Instruction::Unknown { opcode }
    }
}

/// What an opcode means.
pub open spec fn decode_spec(opcode: u16) -> Instruction {
    let group = field_group(opcode);
    let x = field_x(opcode);
    let y = field_y(opcode);
    let n = field_n(opcode);
    let kk = field_kk(opcode);
    let addr = field_addr(opcode);
    if group == 0x0 {
        if opcode == 0x00E0 {
            Instruction::ClearDisplay
        } else if opcode == 0x00EE {
            Instruction::Return
        } else {
            Instruction::Unknown { opcode }
        }
    } else if group == 0x1 {
        Instruction::Jump { addr }
    } else if group == 0x2 {
        Instruction::Call { addr }
    } else if group == 0x3 {
        Instruction::SkipIfEqual { x, kk }
    } else if group == 0x4 {
        Instruction::SkipIfNotEqual { x, kk }
    } else if group == 0x5 {
        if n == 0 {
            Instruction::SkipIfSame { x, y }
        } else {
            Instruction::Unknown { opcode }
        }
    } else if group == 0x6 {
        Instruction::LoadByte { x, kk }
    } else if group == 0x7 {
        Instruction::AddByte { x, kk }
    } else if group == 0x8 {
        decode_arithmetic(opcode)
    } else if group == 0x9 {
        if n == 0 {
            Instruction::SkipIfDifferent { x, y }
        } else {
            Instruction::Unknown { opcode }
        }
    } else if group == 0xA {
        Instruction::SetIndex { addr }
    } else if group == 0xB {
        Instruction::JumpOffset { addr }
    } else if group == 0xC {
        Instruction::Random { x, kk }
    } else if group == 0xD {
        Instruction::Draw { x, y, n }
    } else if group == 0xE {
        if kk == 0x9E {
            Instruction::SkipIfKeyDown { x }
        } else if kk == 0xA1 {
            Instruction::SkipIfKeyUp { x }
        } else {
            Instruction::Unknown { opcode }
        }
    } else if group == 0xF {
        decode_misc(opcode)
    } else {
        Instruction::Unknown { opcode }
    }
}

/// The opcode that a descriptor stands for.
pub open spec fn encoding(instruction: Instruction) -> int {
    match instruction {
        Instruction::ClearDisplay => 0x00E0,
        Instruction::Return => 0x00EE,
        Instruction::Jump { addr } => 0x1000 + addr,
        Instruction::Call { addr } => 0x2000 + addr,
        Instruction::SkipIfEqual { x, kk } => 0x3000 + 0x100 * x + kk,
        Instruction::SkipIfNotEqual { x, kk } => 0x4000 + 0x100 * x + kk,
        Instruction::SkipIfSame { x, y } => 0x5000 + 0x100 * x + 0x10 * y,
        Instruction::LoadByte { x, kk } => 0x6000 + 0x100 * x + kk,
        Instruction::AddByte { x, kk } => 0x7000 + 0x100 * x + kk,
        Instruction::Assign { x, y } => 0x8000 + 0x100 * x + 0x10 * y,
        Instruction::Or { x, y } => 0x8001 + 0x100 * x + 0x10 * y,
        Instruction::And { x, y } => 0x8002 + 0x100 * x + 0x10 * y,
        Instruction::Xor { x, y } => 0x8003 + 0x100 * x + 0x10 * y,
        Instruction::AddRegister { x, y } => 0x8004 + 0x100 * x + 0x10 * y,
        Instruction::Subtract { x, y } => 0x8005 + 0x100 * x + 0x10 * y,
        Instruction::ShiftRight { x, y } => 0x8006 + 0x100 * x + 0x10 * y,
        Instruction::SubtractFrom { x, y } => 0x8007 + 0x100 * x + 0x10 * y,
        Instruction::ShiftLeft { x, y } => 0x800E + 0x100 * x + 0x10 * y,
        Instruction::SkipIfDifferent { x, y } => 0x9000 + 0x100 * x + 0x10 * y,
        Instruction::SetIndex { addr } => 0xA000 + addr,
        Instruction::JumpOffset { addr } => 0xB000 + addr,
        Instruction::Random { x, kk } => 0xC000 + 0x100 * x + kk,
        Instruction::Draw { x, y, n } => 0xD000 + 0x100 * x + 0x10 * y + n,
        Instruction::SkipIfKeyDown { x } => 0xE09E + 0x100 * x,
        Instruction::SkipIfKeyUp { x } => 0xE0A1 + 0x100 * x,
        Instruction::GetDelay { x } => 0xF007 + 0x100 * x,
        Instruction::AwaitKey { x } => 0xF00A + 0x100 * x,
        Instruction::SetDelay { x } => 0xF015 + 0x100 * x,
        Instruction::SetSound { x } => 0xF018 + 0x100 * x,
        Instruction::AddIndex { x } => 0xF01E + 0x100 * x,
        Instruction::Glyph { x } => 0xF029 + 0x100 * x,
        Instruction::StoreDecimal { x } => 0xF033 + 0x100 * x,
        Instruction::StoreRegisters { x } => 0xF055 + 0x100 * x,
        Instruction::LoadRegisters { x } => 0xF065 + 0x100 * x,
        Instruction::Unknown { opcode } => opcode as int,
    }
}

/// Whether a descriptor's operands are in range: register indices and
/// nibbles below 16, addresses below 4096.
pub open spec fn operands_in_range(instruction: Instruction) -> bool {
    match instruction {
        Instruction::ClearDisplay | Instruction::Return | Instruction::Unknown { .. } => true,
        Instruction::Jump { addr }
        | Instruction::Call { addr }
        | Instruction::SetIndex { addr }
        | Instruction::JumpOffset { addr } => addr < 0x1000,
        Instruction::SkipIfEqual { x, .. }
        | Instruction::SkipIfNotEqual { x, .. }
        | Instruction::LoadByte { x, .. }
        | Instruction::AddByte { x, .. }
        | Instruction::Random { x, .. }
        | Instruction::SkipIfKeyDown { x }
        | Instruction::SkipIfKeyUp { x }
        | Instruction::GetDelay { x }
        | Instruction::AwaitKey { x }
        | Instruction::SetDelay { x }
        | Instruction::SetSound { x }
        | Instruction::AddIndex { x }
        | Instruction::Glyph { x }
        | Instruction::StoreDecimal { x }
        | Instruction::StoreRegisters { x }
        | Instruction::LoadRegisters { x } => x < 16,
        Instruction::SkipIfSame { x, y }
        | Instruction::Assign { x, y }
        | Instruction::Or { x, y }
        | Instruction::And { x, y }
        | Instruction::Xor { x, y }
        | Instruction::AddRegister { x, y }
        | Instruction::Subtract { x, y }
        | Instruction::ShiftRight { x, y }
        | Instruction::SubtractFrom { x, y }
        | Instruction::ShiftLeft { x, y }
        | Instruction::SkipIfDifferent { x, y } => x < 16 && y < 16,
        Instruction::Draw { x, y, n } => x < 16 && y < 16 && n < 16,
    }
}

/// The descriptor of an opcode stands for that opcode, and its operands are
/// in range.
pub proof fn lemma_decode_is_exact(opcode: u16)
    ensures
        encoding(decode_spec(opcode)) == opcode,
        operands_in_range(decode_spec(opcode)),
{
    lemma_fields(opcode);
}

/// Decodes an opcode. Total: every sixteen-bit value has exactly one
/// descriptor, which stands for that value and has its operands in range.
pub fn decode(opcode: u16) -> (instruction: Instruction)
    ensures
        instruction == decode_spec(opcode),
        encoding(instruction) == opcode,
        operands_in_range(instruction),
{
    proof {
        lemma_decode_is_exact(opcode);
    }
    let x = op_x(opcode);
    let y = op_y(opcode);
    let n = op_n(opcode);
    let kk = op_kk(opcode);
    let addr = op_addr(opcode);
    match op_group(opcode) {
        0x0 => match opcode {
            0x00E0 => Instruction::ClearDisplay,
            0x00EE => Instruction::Return,
            _ => Instruction::Unknown { opcode },
        },
        0x1 => Instruction::Jump { addr },
        0x2 => Instruction::Call { addr },
        0x3 => Instruction::SkipIfEqual { x, kk },
        0x4 => Instruction::SkipIfNotEqual { x, kk },
        0x5 => match n {
            0x0 => Instruction::SkipIfSame { x, y },
            _ => Instruction::Unknown { opcode },
        },
        0x6 => Instruction::LoadByte { x, kk },
        0x7 => Instruction::AddByte { x, kk },
        0x8 => match n {
            0x0 => Instruction::Assign { x, y },
            0x1 => Instruction::Or { x, y },
            0x2 => Instruction::And { x, y },
            0x3 => Instruction::Xor { x, y },
            0x4 => Instruction::AddRegister { x, y },
            0x5 => Instruction::Subtract { x, y },
            0x6 => Instruction::ShiftRight { x, y },
            0x7 => Instruction::SubtractFrom { x, y },
            0xE => Instruction::ShiftLeft { x, y },
            _ => Instruction::Unknown { opcode },
        },
        0x9 => match n {
            0x0 => Instruction::SkipIfDifferent { x, y },
            _ => Instruction::Unknown { opcode },
        },
        0xA => Instruction::SetIndex { addr },
        0xB => Instruction::JumpOffset { addr },
        0xC => Instruction::Random { x, kk },
        0xD => Instruction::Draw { x, y, n },
        0xE => match kk {
            0x9E => Instruction::SkipIfKeyDown { x },
            0xA1 => Instruction::SkipIfKeyUp { x },
            _ => Instruction::Unknown { opcode },
        },
        0xF => match kk {
            0x07 => Instruction::GetDelay { x },
            0x0A => Instruction::AwaitKey { x },
            0x15 => Instruction::SetDelay { x },
            0x18 => Instruction::SetSound { x },
            0x1E => Instruction::AddIndex { x },
            0x29 => Instruction::Glyph { x },
            0x33 => Instruction::StoreDecimal { x },
            0x55 => Instruction::StoreRegisters { x },
            0x65 => Instruction::LoadRegisters { x },
            _ => Instruction::Unknown { opcode },
        },
        _ => Instruction::Unknown { opcode },
    }
}

} // verus!

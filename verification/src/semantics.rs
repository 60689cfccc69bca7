//! What each instruction does, as mathematics.
//!
//! Every instruction is a function from the state before to the state after.
//! The handlers in `opcode` are specified by the functions here, and so is the
//! cycle as a whole.

use vstd::prelude::*;
use crate::decode::{decode_spec, Instruction};
use crate::error::Chip8Error;
use crate::host::{key_pressed, Reply, Signal};
use crate::model::{to_address, MemoryState, RegisterState};
use crate::opcode::Quirks;

verus! {

/// Length of an instruction in bytes.
pub const INSTRUCTION_SIZE: u16 = 2;

/// Bytes per glyph of the font.
pub const GLYPH_SIZE: u16 = 5;

/// The three decimal digits of a byte: hundreds, tens, ones.
pub open spec fn decimal_digits(value: u8) -> Seq<u8> {
    seq![value / 100, (value / 10) % 10, value % 10]
}

impl RegisterState {
    /// The address of the instruction after the current one.
    pub open spec fn return_address(self) -> u16 {
        to_address(self.pc + INSTRUCTION_SIZE)
    }

    /// `6XNN`.
    pub open spec fn load_byte(self, x: int, kk: u8) -> RegisterState {
        self.with_v(x, kk)
    }

    /// `7XNN`: the sum wraps round, no flag changes.
    pub open spec fn add_byte(self, x: int, kk: u8) -> RegisterState {
        self.with_v(x, ((self.v[x] + kk) % 256) as u8)
    }

    /// `8XY0`.
    pub open spec fn assign(self, x: int, y: int) -> RegisterState {
        self.with_v(x, self.v[y])
    }

    /// `8XY1`.
    pub open spec fn or(self, x: int, y: int) -> RegisterState {
        self.with_v(x, self.v[x] | self.v[y])
    }

    /// `8XY2`.
    pub open spec fn and(self, x: int, y: int) -> RegisterState {
        self.with_v(x, self.v[x] & self.v[y])
    }

    /// `8XY3`.
    pub open spec fn xor(self, x: int, y: int) -> RegisterState {
        self.with_v(x, self.v[x] ^ self.v[y])
    }

    /// `8XY4`: `VF` is the carry, then `V[x]` the sum's low eight bits.
    pub open spec fn add_register(self, x: int, y: int) -> RegisterState {
        let sum = self.v[x] + self.v[y];
        self.with_flag(sum > 255).with_v(x, (sum % 256) as u8)
    }

    /// `8XY5`: `VF` is 1 when nothing is borrowed, then `V[x]` the difference
    /// modulo 256.
    pub open spec fn subtract(self, x: int, y: int) -> RegisterState {
        let difference = self.v[x] - self.v[y];
        self.with_flag(self.v[x] >= self.v[y]).with_v(x, (difference % 256) as u8)
    }

    /// `8XY7`: as `8XY5` with the operands exchanged.
    pub open spec fn subtract_from(self, x: int, y: int) -> RegisterState {
        let difference = self.v[y] - self.v[x];
        self.with_flag(self.v[y] >= self.v[x]).with_v(x, (difference % 256) as u8)
    }

    /// The register that `8XY6` and `8XYE` shift.
    pub open spec fn shift_source(self, quirks: Quirks, x: int, y: int) -> u8 {
        if quirks.shift_uses_vy {
            self.v[y]
        } else {
            self.v[x]
        }
    }

    /// `8XY6`: `VF` is the lowest bit of the source, then `V[x]` the source
    /// halved.
    pub open spec fn shift_right(self, quirks: Quirks, x: int, y: int) -> RegisterState {
        let source = self.shift_source(quirks, x, y);
        self.with_flag(source % 2 == 1).with_v(x, source / 2)
    }

    /// `8XYE`: `VF` is the highest bit of the source, then `V[x]` the source
    /// doubled, modulo 256.
    pub open spec fn shift_left(self, quirks: Quirks, x: int, y: int) -> RegisterState {
        let source = self.shift_source(quirks, x, y);
        self.with_flag(source >= 128).with_v(x, ((source * 2) % 256) as u8)
    }

    /// `BNNN`: the target is `addr` plus `V[0]`, or plus `V[x]` under the
    /// quirk, cut to twelve bits.
    pub open spec fn jump_offset(self, quirks: Quirks, addr: u16, x: int) -> RegisterState {
        let offset = if quirks.jump_offset_uses_vx {
            self.v[x]
        } else {
            self.v[0]
        };
        self.with_pc(addr + offset)
    }

    /// `CXNN`, given the random byte.
    pub open spec fn random(self, x: int, kk: u8, byte: u8) -> RegisterState {
        self.with_v(x, byte & kk)
    }

    /// The key that `EX9E` and `EXA1` ask about: the low nibble of `V[x]`.
    pub open spec fn key(self, x: int) -> u8 {
        self.v[x] % 16
    }

    /// `FX07`.
    pub open spec fn get_delay(self, x: int) -> RegisterState {
        self.with_v(x, self.delay)
    }

    /// `FX1E`: `I` is the sum cut to twelve bits; under the quirk `VF` says
    /// whether anything was cut off.
    pub open spec fn add_index(self, quirks: Quirks, x: int) -> RegisterState {
        let sum = self.i + self.v[x];
        if quirks.i_overflow_sets_vf {
            self.with_i(sum).with_flag(sum > 0xFFF)
        } else {
            self.with_i(sum)
        }
    }

    /// `FX29`: glyphs are five bytes each, from `base` on.
    pub open spec fn glyph(self, base: u16, x: int) -> RegisterState {
        self.with_i(base + GLYPH_SIZE * self.v[x])
    }

    /// `FX65`, given the bytes read: they go to `V[0]`, `V[1]`, ...
    pub open spec fn load_registers(self, bytes: Seq<u8>) -> RegisterState {
        RegisterState {
            v: Seq::new(
                self.v.len(),
                |k: int|
                    if k < bytes.len() {
                        bytes[k]
                    } else {
                        self.v[k]
                    },
            ),
            ..self
        }
    }
}

/// What a skip instruction reports: a skip if its condition holds.
pub open spec fn skip_if(condition: bool) -> Signal {
    if condition {
        Signal::Skip
    } else {
        Signal::Next
    }
}

/// The whole machine as mathematics.
pub struct MachineState {
    pub mem: MemoryState,
    pub regs: RegisterState,
}

impl MachineState {
    /// Both parts are well formed.
    pub open spec fn wf(self) -> bool {
        self.mem.wf() && self.regs.wf()
    }

    /// The machine at start-up.
    pub open spec fn initial(entry: u16) -> MachineState {
        MachineState { mem: MemoryState::blank(), regs: RegisterState::initial(entry) }
    }

    /// The machine with other registers.
    pub open spec fn with_regs(self, regs: RegisterState) -> MachineState {
        MachineState { regs, ..self }
    }

    /// The machine with other memory.
    pub open spec fn with_mem(self, mem: MemoryState) -> MachineState {
        MachineState { mem, ..self }
    }

    /// The opcode at the program counter: two bytes, the high one first.
    pub open spec fn fetch(self) -> Result<u16, Chip8Error> {
        match (self.mem.read(self.regs.pc as int), self.mem.read(self.regs.pc + 1)) {
            (Ok(high), Ok(low)) => Ok((256 * high + low) as u16),
            _ => Err(Chip8Error::OutOfBounds),
        }
    }

    /// What executing `opcode` does, given the host's reply: the state after
    /// and how the instruction ended, or the reason why it was refused. The
    /// program counter is changed only by the instructions that set it.
    #[verifier::opaque]
    pub open spec fn execute(self, quirks: Quirks, font: u16, opcode: u16, reply: Reply) -> Result<
        (MachineState, Signal),
        Chip8Error,
    > {
        let regs = self.regs;
        let mem = self.mem;
        match decode_spec(opcode) {
            Instruction::ClearDisplay => Ok((self, Signal::ClearDisplay)),
            Instruction::Return => match mem.top() {
                Some(addr) => Ok(
                    (MachineState { mem: mem.pop(), regs: regs.with_pc(addr as int) }, Signal::Jump),
                ),
                None => Err(Chip8Error::StackUnderflow),
            },
            Instruction::Jump { addr } => Ok(
                (self.with_regs(regs.with_pc(addr as int)), Signal::Jump),
            ),
            Instruction::Call { addr } => match mem.push(regs.return_address()) {
                Ok(pushed) => Ok(
                    (MachineState { mem: pushed, regs: regs.with_pc(addr as int) }, Signal::Jump),
                ),
                Err(e) => Err(e),
            },
            Instruction::SkipIfEqual { x, kk } => Ok((self, skip_if(regs.v[x as int] == kk))),
            Instruction::SkipIfNotEqual { x, kk } => Ok((self, skip_if(regs.v[x as int] != kk))),
            Instruction::SkipIfSame { x, y } => Ok(
                (self, skip_if(regs.v[x as int] == regs.v[y as int])),
            ),
            Instruction::LoadByte { x, kk } => Ok(
                (self.with_regs(regs.load_byte(x as int, kk)), Signal::Next),
            ),
            Instruction::AddByte { x, kk } => Ok(
                (self.with_regs(regs.add_byte(x as int, kk)), Signal::Next),
            ),
            Instruction::Assign { x, y } => Ok(
                (self.with_regs(regs.assign(x as int, y as int)), Signal::Next),
            ),
            Instruction::Or { x, y } => Ok(
                (self.with_regs(regs.or(x as int, y as int)), Signal::Next),
            ),
            Instruction::And { x, y } => Ok(
                (self.with_regs(regs.and(x as int, y as int)), Signal::Next),
            ),
            Instruction::Xor { x, y } => Ok(
                (self.with_regs(regs.xor(x as int, y as int)), Signal::Next),
            ),
            Instruction::AddRegister { x, y } => Ok(
                (self.with_regs(regs.add_register(x as int, y as int)), Signal::Next),
            ),
            Instruction::Subtract { x, y } => Ok(
                (self.with_regs(regs.subtract(x as int, y as int)), Signal::Next),
            ),
            Instruction::ShiftRight { x, y } => Ok(
                (self.with_regs(regs.shift_right(quirks, x as int, y as int)), Signal::Next),
            ),
            Instruction::SubtractFrom { x, y } => Ok(
                (self.with_regs(regs.subtract_from(x as int, y as int)), Signal::Next),
            ),
            Instruction::ShiftLeft { x, y } => Ok(
                (self.with_regs(regs.shift_left(quirks, x as int, y as int)), Signal::Next),
            ),
            Instruction::SkipIfDifferent { x, y } => Ok(
                (self, skip_if(regs.v[x as int] != regs.v[y as int])),
            ),
            Instruction::SetIndex { addr } => Ok(
                (self.with_regs(regs.with_i(addr as int)), Signal::Next),
            ),
            Instruction::JumpOffset { addr } => Ok(
                (
                    self.with_regs(regs.jump_offset(quirks, addr, (addr / 256) as int)),
                    Signal::Jump,
                ),
            ),
            Instruction::Random { x, kk } => match reply {
                Reply::Random(byte) => Ok(
                    (self.with_regs(regs.random(x as int, kk, byte)), Signal::Next),
                ),
                _ => Ok((self, Signal::NeedRandom)),
            },
            Instruction::Draw { x, y, n } => match mem.block(regs.i as int, n as int) {
                Ok(sprite) => match reply {
                    Reply::Collision(hit) => Ok(
                        (self.with_regs(regs.with_flag(hit)), Signal::Next),
                    ),
                    _ => Ok(
                        (
                            self,
                            Signal::NeedDraw { x: regs.v[x as int], y: regs.v[y as int], sprite },
                        ),
                    ),
                },
                Err(e) => Err(e),
            },
            Instruction::SkipIfKeyDown { x } => match reply {
                Reply::KeyState(down) => Ok((self, skip_if(down))),
                _ => Ok((self, Signal::NeedKeyState { key: regs.key(x as int) })),
            },
            Instruction::SkipIfKeyUp { x } => match reply {
                Reply::KeyState(down) => Ok((self, skip_if(!down))),
                _ => Ok((self, Signal::NeedKeyState { key: regs.key(x as int) })),
            },
            Instruction::GetDelay { x } => Ok(
                (self.with_regs(regs.get_delay(x as int)), Signal::Next),
            ),
            Instruction::AwaitKey { x } => match key_pressed(reply) {
                Some(key) => Ok((self.with_regs(regs.with_v(x as int, key)), Signal::Next)),
                None => Ok((self, Signal::WaitingForKey)),
            },
            Instruction::SetDelay { x } => Ok(
                (self.with_regs(regs.with_delay(regs.v[x as int])), Signal::Next),
            ),
            Instruction::SetSound { x } => Ok(
                (self.with_regs(regs.with_sound(regs.v[x as int])), Signal::Next),
            ),
            Instruction::AddIndex { x } => Ok(
                (self.with_regs(regs.add_index(quirks, x as int)), Signal::Next),
            ),
            Instruction::Glyph { x } => Ok(
                (self.with_regs(regs.glyph(font, x as int)), Signal::Next),
            ),
            Instruction::StoreDecimal { x } => match mem.store(
                regs.i as int,
                decimal_digits(regs.v[x as int]),
            ) {
                Ok(stored) => Ok((self.with_mem(stored), Signal::Next)),
                Err(e) => Err(e),
            },
            Instruction::StoreRegisters { x } => match mem.store(
                regs.i as int,
                regs.v.subrange(0, x + 1),
            ) {
                Ok(stored) => Ok((self.with_mem(stored), Signal::Next)),
                Err(e) => Err(e),
            },
            Instruction::LoadRegisters { x } => match mem.block(regs.i as int, x + 1) {
                Ok(bytes) => Ok((self.with_regs(regs.load_registers(bytes)), Signal::Next)),
                Err(e) => Err(e),
            },
            Instruction::Unknown { opcode } => Err(Chip8Error::UnknownInstruction),
        }
    }

    /// The machine after the cycle driver has moved the program counter: by
    /// one instruction after an ordinary one, by two after a skip, and not at
    /// all after a jump or while the instruction waits for the host.
    pub open spec fn advance(self, signal: Signal) -> MachineState {
        match signal {
            Signal::Next | Signal::ClearDisplay => self.with_regs(
                self.regs.with_pc(self.regs.pc + INSTRUCTION_SIZE),
            ),
            Signal::Skip => self.with_regs(
                self.regs.with_pc(self.regs.pc + 2 * INSTRUCTION_SIZE),
            ),
            _ => self,
        }
    }

    /// One cycle: fetch, decode, execute, move the program counter. A cycle
    /// that fails changes nothing.
    pub open spec fn step(self, quirks: Quirks, font: u16, reply: Reply) -> (
        MachineState,
        Result<Signal, Chip8Error>,
    ) {
        match self.fetch() {
            Ok(opcode) => match self.execute(quirks, font, opcode, reply) {
                Ok((next, signal)) => (next.advance(signal), Ok(signal)),
                Err(e) => (self, Err(e)),
            },
            Err(e) => (self, Err(e)),
        }
    }
}

} // verus!

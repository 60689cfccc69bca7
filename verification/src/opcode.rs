//! The executor: one handler per instruction.
//!
//! Each handler takes the opcode and the parts of the machine it works on. A
//! handler that can fail changes nothing when it does. No handler moves the
//! program counter past its own instruction: that is the cycle driver's work.
//! A handler either leaves the counter alone, asks for a skip, or sets the
//! counter to the exact address to fetch next.

use vstd::prelude::*;
use crate::decode::{
    field_addr, field_kk, field_n, field_x, field_y, op_addr, op_kk, op_n, op_x, op_y,
};
use crate::error::Chip8Error;
use crate::host::{key_pressed, Reply, Signal, Status, KEY_COUNT};
use crate::memory::Memory;
use crate::registers::{lemma_mask_is_remainder, Registers};
use crate::semantics::{decimal_digits, GLYPH_SIZE, INSTRUCTION_SIZE};

verus! {

/// The historical ambiguities of the instruction set, each decided by the host.
#[derive(Clone, Copy, Debug, PartialEq, Eq, Structural)]
pub struct Quirks {
    /// `8XY6` and `8XYE` shift `V[y]` into `V[x]` instead of shifting `V[x]`
    /// in place.
    pub shift_uses_vy: bool,
    /// `FX1E` sets `VF` to whether `I + V[x]` went past twelve bits.
    pub i_overflow_sets_vf: bool,
    /// `BNNN` adds `V[x]`, `x` being the top nibble of the address, instead of
    /// `V[0]`.
    pub jump_offset_uses_vx: bool,
}

/// The instruction handlers, with the settings that some of them depend on.
#[derive(Clone, Copy, Debug, PartialEq, Eq, Structural)]
pub struct Operations {
    /// How the ambiguous instructions behave.
    pub quirks: Quirks,
    /// Where the font's glyphs start in memory.
    pub sprite_load_address: u16,
}

#[allow(non_snake_case)]
impl Operations {
    /// Handlers with the shift quirk as given, the font at `sprite_addr`, and
    /// the other quirks off.
    pub fn new(shift_lsb: bool, sprite_addr: u16) -> (ops: Operations)
        ensures
            ops.quirks.shift_uses_vy == shift_lsb,
            !ops.quirks.i_overflow_sets_vf,
            !ops.quirks.jump_offset_uses_vx,
            ops.sprite_load_address == sprite_addr,
    {
        Operations {
            quirks: Quirks {
                shift_uses_vy: shift_lsb,
                i_overflow_sets_vf: false,
                jump_offset_uses_vx: false,
            },
            sprite_load_address: sprite_addr,
        }
    }

    /// Handlers with every quirk as given and the font at `sprite_addr`.
    pub fn with_quirks(quirks: Quirks, sprite_addr: u16) -> (ops: Operations)
        ensures
            ops == (Operations { quirks, sprite_load_address: sprite_addr }),
    {
        Operations { quirks, sprite_load_address: sprite_addr }
    }

    /// `0NNN`: call a machine-code routine of the host computer. There is no
    /// such computer here, so the instruction is always refused.
    pub fn call_machine_code(&self, opc: u16) -> (r: Result<(), Chip8Error>)
        ensures
            r == Err::<(), Chip8Error>(Chip8Error::UnknownInstruction),
    {
        Err(Chip8Error::UnknownInstruction)
    }

    /// `00E0`: asks the host to clear the display. Changes nothing in the
    /// machine.
    pub fn clear_display(&self) -> (status: Status)
        ensures
            status@ == Signal::ClearDisplay,
    {
        Status::ClearDisplay
    }

    /// `00EE`: returns from a subroutine. The newest return address leaves
    /// the stack and becomes the program counter. With an empty stack this is
    /// `StackUnderflow`.
    pub fn return_from_call(&self, pmem: &mut Memory, preg: &mut Registers) -> (r: Result<
        (),
        Chip8Error,
    >)
        ensures
            match old(pmem)@.top() {
                Some(addr) => {
                    &&& r is Ok
                    &&& final(pmem)@ == old(pmem)@.pop()
                    &&& final(preg)@ == old(preg)@.with_pc(addr as int)
                },
                None => {
                    &&& r == Err::<(), Chip8Error>(Chip8Error::StackUnderflow)
                    &&& final(pmem)@ == old(pmem)@
                    &&& final(preg)@ == old(preg)@
                },
            },
    {
        match pmem.pop() {
            Some(addr) => {
                preg.set_pc(addr);
                Ok(())
            },
            None => Err(Chip8Error::StackUnderflow),
        }
    }

    /// `1NNN`: the program counter becomes `addr`.
    pub fn jmp_address(&self, opc: u16, preg: &mut Registers)
        ensures
            final(preg)@ == old(preg)@.with_pc(field_addr(opc) as int),
    {
        let addr = op_addr(opc);
        preg.set_pc(addr);
    }

    /// `2NNN`: calls a subroutine. The address of the instruction after this
    /// one goes onto the stack and the program counter becomes `addr`. With a
    /// full stack this is `StackOverflow`.
    pub fn call_subroutine(&self, opc: u16, pmem: &mut Memory, preg: &mut Registers) -> (r: Result<
        (),
        Chip8Error,
    >)
        ensures
            match old(pmem)@.push(old(preg)@.return_address()) {
                Ok(next) => {
                    &&& r is Ok
                    &&& final(pmem)@ == next
                    &&& final(preg)@ == old(preg)@.with_pc(field_addr(opc) as int)
                },
                Err(e) => {
                    &&& r == Err::<(), Chip8Error>(e)
                    &&& final(pmem)@ == old(pmem)@
                    &&& final(preg)@ == old(preg)@
                },
            },
    {
        let addr = op_addr(opc);
        let after: u16 = preg.pc() + INSTRUCTION_SIZE;
        proof {
            lemma_mask_is_remainder(after);
        }
        match pmem.push(after & 0x0FFF) {
            Ok(()) => {
                preg.set_pc(addr);
                Ok(())
            },
            Err(e) => Err(e),
        }
    }

    /// `3XNN`: asks for a skip if `V[x] == kk`.
    pub fn reg_val_compare(&self, opc: u16, preg: &Registers) -> (skip: bool)
        ensures
            skip == (preg@.v[field_x(opc) as int] == field_kk(opc)),
    {
        let reg_val = preg.v(op_x(opc));
        let value = op_kk(opc);
        reg_val == value
    }

    /// `4XNN`: asks for a skip if `V[x] != kk`.
    pub fn reg_val_noncompare(&self, opc: u16, preg: &Registers) -> (skip: bool)
        ensures
            skip == (preg@.v[field_x(opc) as int] != field_kk(opc)),
    {
        let reg_val = preg.v(op_x(opc));
        let value = op_kk(opc);
        reg_val != value
    }

    /// `5XY0`: asks for a skip if `V[x] == V[y]`.
    pub fn reg_compare(&self, opc: u16, preg: &Registers) -> (skip: bool)
        ensures
            skip == (preg@.v[field_x(opc) as int] == preg@.v[field_y(opc) as int]),
    {
        let reg_x = preg.v(op_x(opc));
        let reg_y = preg.v(op_y(opc));
        reg_x == reg_y
    }

    /// `6XNN`: `V[x] := kk`.
    pub fn reg_set(&self, opc: u16, preg: &mut Registers)
        ensures
            final(preg)@ == old(preg)@.load_byte(field_x(opc) as int, field_kk(opc)),
    {
        let reg_flag = op_x(opc);
        let value = op_kk(opc);
        preg.set_v(reg_flag, value);
    }

    /// `7XNN`: `V[x] := V[x] + kk` modulo 256. No flag changes.
    pub fn reg_add(&self, opc: u16, preg: &mut Registers)
        ensures
            final(preg)@ == old(preg)@.add_byte(field_x(opc) as int, field_kk(opc)),
    {
        let x = op_x(opc);
        let temp_val = preg.v(x).wrapping_add(op_kk(opc));
        preg.set_v(x, temp_val);
    }

    /// `8XY0`: `V[x] := V[y]`.
    pub fn reg_assign(&self, opc: u16, preg: &mut Registers)
        ensures
            final(preg)@ == old(preg)@.assign(field_x(opc) as int, field_y(opc) as int),
    {
        let reg_y = preg.v(op_y(opc));
        preg.set_v(op_x(opc), reg_y);
    }

    /// `8XY1`: `V[x] := V[x] | V[y]`.
    pub fn reg_or(&self, opc: u16, preg: &mut Registers)
        ensures
            final(preg)@ == old(preg)@.or(field_x(opc) as int, field_y(opc) as int),
    {
        let reg_x = preg.v(op_x(opc));
        let reg_y = preg.v(op_y(opc));
        preg.set_v(op_x(opc), reg_x | reg_y);
    }

    /// `8XY2`: `V[x] := V[x] & V[y]`.
    pub fn reg_and(&self, opc: u16, preg: &mut Registers)
        ensures
            final(preg)@ == old(preg)@.and(field_x(opc) as int, field_y(opc) as int),
    {
        let reg_x = preg.v(op_x(opc));
        let reg_y = preg.v(op_y(opc));
        preg.set_v(op_x(opc), reg_x & reg_y);
    }

    /// `8XY3`: `V[x] := V[x] ^ V[y]`.
    pub fn reg_xor(&self, opc: u16, preg: &mut Registers)
        ensures
            final(preg)@ == old(preg)@.xor(field_x(opc) as int, field_y(opc) as int),
    {
        let reg_x = preg.v(op_x(opc));
        let reg_y = preg.v(op_y(opc));
        preg.set_v(op_x(opc), reg_x ^ reg_y);
    }

    /// `8XY4`: `VF := 1` if `V[x] + V[y] > 255`, else `0`; then
    /// `V[x] := (V[x] + V[y])` modulo 256.
    pub fn reg_add_reg(&self, opc: u16, preg: &mut Registers)
        ensures
            final(preg)@ == old(preg)@.add_register(field_x(opc) as int, field_y(opc) as int),
    {
        let reg_x = preg.v(op_x(opc));
        let reg_y = preg.v(op_y(opc));
        let carry = reg_x as u16 + reg_y as u16 > 0xFF;
        preg.set_flag(carry);
        preg.set_v(op_x(opc), reg_x.wrapping_add(reg_y));
    }

    /// `8XY5`: `VF := 1` if `V[x] >= V[y]`, else `0`; then
    /// `V[x] := (V[x] - V[y])` modulo 256.
    pub fn regx_sub_regy(&self, opc: u16, preg: &mut Registers)
        ensures
            final(preg)@ == old(preg)@.subtract(field_x(opc) as int, field_y(opc) as int),
    {
        let reg_x = preg.v(op_x(opc));
        let reg_y = preg.v(op_y(opc));
        preg.set_flag(reg_x >= reg_y);
        preg.set_v(op_x(opc), reg_x.wrapping_sub(reg_y));
    }

    /// `8XY6`: shifts right by one. The register shifted is `V[x]`, or `V[y]`
    /// under the shift quirk. `VF :=` its lowest bit; then `V[x] :=` it
    /// shifted.
    pub fn lsb_shift_right(&self, opc: u16, preg: &mut Registers)
        ensures
            final(preg)@ == old(preg)@.shift_right(
                self.quirks,
                field_x(opc) as int,
                field_y(opc) as int,
            ),
    {
        let source = if self.quirks.shift_uses_vy {
            preg.v(op_y(opc))
        } else {
            preg.v(op_x(opc))
        };
        assert(source & 1 == source % 2 && source >> 1 == source / 2) by (bit_vector);
        preg.set_flag(source & 1 == 1);
        preg.set_v(op_x(opc), source >> 1);
    }

    /// `8XY7`: `VF := 1` if `V[y] >= V[x]`, else `0`; then
    /// `V[x] := (V[y] - V[x])` modulo 256.
    pub fn regy_sub_regx(&self, opc: u16, preg: &mut Registers)
        ensures
            final(preg)@ == old(preg)@.subtract_from(field_x(opc) as int, field_y(opc) as int),
    {
        let reg_x = preg.v(op_x(opc));
        let reg_y = preg.v(op_y(opc));
        preg.set_flag(reg_y >= reg_x);
        preg.set_v(op_x(opc), reg_y.wrapping_sub(reg_x));
    }

    /// `8XYE`: shifts left by one. The register shifted is `V[x]`, or `V[y]`
    /// under the shift quirk. `VF :=` its highest bit; then `V[x] :=` it
    /// shifted.
    pub fn lsb_shift_left(&self, opc: u16, preg: &mut Registers)
        ensures
            final(preg)@ == old(preg)@.shift_left(
                self.quirks,
                field_x(opc) as int,
                field_y(opc) as int,
            ),
    {
        let source = if self.quirks.shift_uses_vy {
            preg.v(op_y(opc))
        } else {
            preg.v(op_x(opc))
        };
        assert((source & 0x80 == 0x80) == (source >= 128) && source << 1 == (source * 2) % 256)
            by (bit_vector);
        preg.set_flag(source & 0x80 == 0x80);
        preg.set_v(op_x(opc), source << 1);
    }

    /// `9XY0`: asks for a skip if `V[x] != V[y]`.
    pub fn reg_noncompare(&self, opc: u16, preg: &Registers) -> (skip: bool)
        ensures
            skip == (preg@.v[field_x(opc) as int] != preg@.v[field_y(opc) as int]),
    {
        let reg_x = preg.v(op_x(opc));
        let reg_y = preg.v(op_y(opc));
        reg_x != reg_y
    }

    /// `ANNN`: `I := addr`.
    pub fn jmp_I(&self, opc: u16, preg: &mut Registers)
        ensures
            final(preg)@ == old(preg)@.with_i(field_addr(opc) as int),
    {
        preg.write_I(op_addr(opc));
    }

    /// `BNNN`: the program counter becomes `addr + V[0]`, cut to twelve bits.
    /// Under the jump quirk the register added is `V[x]`.
    pub fn jmp_offset(&self, opc: u16, preg: &mut Registers)
        ensures
            final(preg)@ == old(preg)@.jump_offset(
                self.quirks,
                field_addr(opc),
                field_x(opc) as int,
            ),
    {
        let offset = if self.quirks.jump_offset_uses_vx {
            preg.v(op_x(opc))
        } else {
            preg.v(0)
        };
        preg.set_pc(op_addr(opc) + offset as u16);
    }

    /// `CXNN`: `V[x] :=` a random byte `& kk`. The byte is the host's: while
    /// the reply holds none the handler asks for one and changes nothing.
    pub fn rand_reg(&self, opc: u16, preg: &mut Registers, reply: Reply) -> (status: Status)
        ensures
            match reply {
                Reply::Random(byte) => {
                    &&& status@ == Signal::Next
                    &&& final(preg)@ == old(preg)@.random(
                        field_x(opc) as int,
                        field_kk(opc),
                        byte,
                    )
                },
                _ => status@ == Signal::NeedRandom && final(preg)@ == old(preg)@,
            },
    {
        match reply {
            Reply::Random(byte) => {
                preg.set_v(op_x(opc), byte & op_kk(opc));
                Status::Next
            },
            _ => Status::NeedRandom,
        }
    }

    /// `DXYN`: draws the `n` bytes at `I` as a sprite at column `V[x]`, row
    /// `V[y]`. The drawing is the host's: while the reply holds no collision
    /// bit the handler hands out the sprite and changes nothing; with it,
    /// `VF :=` the bit. A sprite that reaches past the end of memory is
    /// `OutOfBounds`, whatever the reply.
    pub fn draw_sprite(&self, opc: u16, pmem: &Memory, preg: &mut Registers, reply: Reply) -> (r:
        Result<Status, Chip8Error>)
        ensures
            match pmem@.block(old(preg)@.i as int, field_n(opc) as int) {
                Ok(sprite) => match reply {
                    Reply::Collision(hit) => {
                        &&& r is Ok
                        &&& r->Ok_0@ == Signal::Next
                        &&& final(preg)@ == old(preg)@.with_flag(hit)
                    },
                    _ => {
                        &&& r is Ok
                        &&& r->Ok_0@ == (Signal::NeedDraw {
                            x: old(preg)@.v[field_x(opc) as int],
                            y: old(preg)@.v[field_y(opc) as int],
                            sprite,
                        })
                        &&& final(preg)@ == old(preg)@
                    },
                },
                Err(e) => r is Err && r->Err_0 == e && final(preg)@ == old(preg)@,
            },
    {
        let sprite = match pmem.read_block(preg.read_I() as usize, op_n(opc) as usize) {
            Ok(bytes) => bytes,
            Err(e) => { return Err(e); },
        };
        match reply {
            Reply::Collision(hit) => {
                preg.set_flag(hit);
                Ok(Status::Next)
            },
            _ => Ok(Status::NeedDraw { x: preg.v(op_x(opc)), y: preg.v(op_y(opc)), sprite }),
        }
    }

    /// `EX9E`: asks for a skip if the key in `V[x]` (its low nibble) is down.
    /// The keyboard is the host's: while the reply holds no key state the
    /// handler asks about the key.
    pub fn stored_key_pressed(&self, opc: u16, preg: &Registers, reply: Reply) -> (status: Status)
        ensures
            status@ == match reply {
                Reply::KeyState(down) => if down {
                    Signal::Skip
                } else {
                    Signal::Next
                },
                _ => Signal::NeedKeyState { key: preg@.key(field_x(opc) as int) },
            },
    {
        match reply {
            Reply::KeyState(down) => if down {
                Status::Skip
            } else {
                Status::Next
            },
            _ => Status::NeedKeyState { key: preg.v(op_x(opc)) % KEY_COUNT },
        }
    }

    /// `EXA1`: asks for a skip if the key in `V[x]` (its low nibble) is not
    /// down. The keyboard is the host's, as for `EX9E`.
    pub fn stored_key_notpressed(&self, opc: u16, preg: &Registers, reply: Reply) -> (status:
        Status)
        ensures
            status@ == match reply {
                Reply::KeyState(down) => if down {
                    Signal::Next
                } else {
                    Signal::Skip
                },
                _ => Signal::NeedKeyState { key: preg@.key(field_x(opc) as int) },
            },
    {
        match reply {
            Reply::KeyState(down) => if down {
                Status::Next
            } else {
                Status::Skip
            },
            _ => Status::NeedKeyState { key: preg.v(op_x(opc)) % KEY_COUNT },
        }
    }

    /// `FX07`: `V[x] :=` the delay counter.
    pub fn get_delay(&self, opc: u16, preg: &mut Registers)
        ensures
            final(preg)@ == old(preg)@.get_delay(field_x(opc) as int),
    {
        let delay = preg.read_delay();
        preg.set_v(op_x(opc), delay);
    }

    /// `FX0A`: waits for a key press. While the reply holds no pressed key
    /// (one of `0..=15`) the handler reports that it waits and changes
    /// nothing; with one, `V[x] :=` the key.
    pub fn await_press(opc: u16, preg: &mut Registers, reply: Reply) -> (status: Status)
        ensures
            match key_pressed(reply) {
                Some(key) => {
                    &&& status@ == Signal::Next
                    &&& final(preg)@ == old(preg)@.with_v(field_x(opc) as int, key)
                },
                None => status@ == Signal::WaitingForKey && final(preg)@ == old(preg)@,
            },
    {
        match reply {
            Reply::KeyPress(key) => {
                if key < KEY_COUNT {
                    preg.set_v(op_x(opc), key);
                    Status::Next
                } else {
                    Status::WaitingForKey
                }
            },
            _ => Status::WaitingForKey,
        }
    }

    /// `FX15`: the delay counter `:= V[x]`.
    pub fn set_delay_timer(opc: u16, preg: &mut Registers)
        ensures
            final(preg)@ == old(preg)@.with_delay(old(preg)@.v[field_x(opc) as int]),
    {
        let value = preg.v(op_x(opc));
        preg.write_delay(value);
    }

    /// `FX18`: the sound counter `:= V[x]`.
    pub fn set_sound_timer(opc: u16, preg: &mut Registers)
        ensures
            final(preg)@ == old(preg)@.with_sound(old(preg)@.v[field_x(opc) as int]),
    {
        let value = preg.v(op_x(opc));
        preg.write_sound(value);
    }

    /// `FX1E`: `I := I + V[x]`, cut to twelve bits. Under the overflow quirk
    /// `VF := 1` if the sum went past twelve bits, else `0`.
    pub fn reg_add_I(&self, opc: u16, preg: &mut Registers)
        ensures
            final(preg)@ == old(preg)@.add_index(self.quirks, field_x(opc) as int),
    {
        let sum: u16 = preg.read_I() + preg.v(op_x(opc)) as u16;
        preg.write_I(sum);
        if self.quirks.i_overflow_sets_vf {
            preg.set_flag(sum > 0x0FFF);
        }
    }

    /// `FX29`: `I :=` the address of the glyph for `V[x]`, which is
    /// `sprite_address + 5 * V[x]`, cut to twelve bits.
    pub fn set_I_sprite_reg(opc: u16, sprite_address: u16, preg: &mut Registers)
        ensures
            final(preg)@ == old(preg)@.glyph(sprite_address, field_x(opc) as int),
    {
        let digit = preg.v(op_x(opc));
        let address: u32 = sprite_address as u32 + GLYPH_SIZE as u32 * (digit as u32);
        let low: u16 = (address % 0x1000) as u16;
        preg.write_I(low);
    }

    /// `FX33`: stores the decimal digits of `V[x]` at `I`, `I + 1`, `I + 2`:
    /// hundreds, tens, ones. If one of the three lies outside memory this is
    /// `OutOfBounds` and nothing is stored.
    pub fn store_bcd_at_I(opc: u16, pmem: &mut Memory, preg: &Registers) -> (r: Result<
        (),
        Chip8Error,
    >)
        ensures
            match old(pmem)@.store(preg@.i as int, decimal_digits(preg@.v[field_x(opc) as int])) {
                Ok(next) => r is Ok && final(pmem)@ == next,
                Err(e) => r == Err::<(), Chip8Error>(e) && final(pmem)@ == old(pmem)@,
            },
    {
        let value = preg.v(op_x(opc));
        let mut digits: Vec<u8> = Vec::new();
        digits.push(value / 100);
        digits.push((value / 10) % 10);
        digits.push(value % 10);
        assert(digits@ =~= decimal_digits(value));
        pmem.write_block(preg.read_I() as usize, &digits)
    }

    /// `FX55`: stores `V[0]` to `V[x]`, `x` included, at `I`, `I + 1`, ...
    /// `I` stays as it is. If one of the cells lies outside memory this is
    /// `OutOfBounds` and nothing is stored.
    pub fn write_reg_mem(opc: u16, pmem: &mut Memory, preg: &Registers) -> (r: Result<
        (),
        Chip8Error,
    >)
        ensures
            match old(pmem)@.store(preg@.i as int, preg@.v.subrange(0, field_x(opc) + 1)) {
                Ok(next) => r is Ok && final(pmem)@ == next,
                Err(e) => r == Err::<(), Chip8Error>(e) && final(pmem)@ == old(pmem)@,
            },
    {
        proof {
            use_type_invariant(preg);
        }
        let last = op_x(opc);
        let mut values: Vec<u8> = Vec::new();
        let mut k: u8 = 0;
        while k <= last
            invariant
                k <= last + 1,
                last < 16,
                preg@.v.len() == 16,
                values@ == preg@.v.subrange(0, k as int),
            decreases last + 1 - k,
        {
            values.push(preg.v(k));
            k = k + 1;
        }
        pmem.write_block(preg.read_I() as usize, &values)
    }

    /// `FX65`: loads `V[0]` to `V[x]`, `x` included, from `I`, `I + 1`, ...
    /// `I` stays as it is. If one of the cells lies outside memory this is
    /// `OutOfBounds` and no register changes.
    pub fn read_reg_mem(opc: u16, pmem: &Memory, preg: &mut Registers) -> (r: Result<
        (),
        Chip8Error,
    >)
        ensures
            match pmem@.block(old(preg)@.i as int, field_x(opc) + 1) {
                Ok(bytes) => r is Ok && final(preg)@ == old(preg)@.load_registers(bytes),
                Err(e) => r == Err::<(), Chip8Error>(e) && final(preg)@ == old(preg)@,
            },
    {
        proof {
            use_type_invariant(&*preg);
            use_type_invariant(pmem);
        }
        let last = op_x(opc);
        let bytes = match pmem.read_block(preg.read_I() as usize, last as usize + 1) {
            Ok(bytes) => bytes,
            Err(e) => { return Err(e); },
        };
        let ghost before = preg@;
        assert(before.v =~= before.load_registers(bytes@.subrange(0, 0)).v);
        let mut k: u8 = 0;
        while k <= last
            invariant
                k <= last + 1,
                last < 16,
                bytes@.len() == last + 1,
                before.v.len() == 16,
                preg@ == before.load_registers(bytes@.subrange(0, k as int)),
            decreases last + 1 - k,
        {
            preg.set_v(k, bytes[k as usize]);
            k = k + 1;
            assert(preg@.v =~= before.load_registers(bytes@.subrange(0, k as int)).v);
        }
        assert(bytes@.subrange(0, k as int) =~= bytes@);
        Ok(())
    }
}

} // verus!

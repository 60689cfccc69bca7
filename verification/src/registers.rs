//! The register file: sixteen general byte registers `V0..VF`, the address
//! register `I`, the program counter, and the delay and sound counters.

use vstd::prelude::*;
use crate::error::Chip8Error;
use crate::memory::MODE;
use crate::model::{to_address, RegisterState, ADDRESS_SPACE, REGISTER_COUNT};

verus! {

/// Cutting a sixteen-bit value down to twelve bits is the remainder by 4096.
pub proof fn lemma_mask_is_remainder(value: u16)
    ensures
        value & 0x0FFF == to_address(value as int),
        to_address(value as int) < ADDRESS_SPACE,
        value < ADDRESS_SPACE ==> to_address(value as int) == value,
{
    assert(value & 0x0FFF == value % 0x1000) by (bit_vector);
}

/// Register file of the machine.
///
/// `VF` doubles as flag register: an instruction that sets a flag overwrites
/// whatever was in it.
#[derive(Debug)]
pub struct Registers {
    register_array: [u8; 16],
    address_register: u16,
    eip: u16,
    delay_timer: u8,
    sound_timer: u8,
}

impl View for Registers {
    type V = RegisterState;

    closed spec fn view(&self) -> RegisterState {
        RegisterState {
            v: self.register_array@,
            i: self.address_register,
            pc: self.eip,
            delay: self.delay_timer,
            sound: self.sound_timer,
        }
    }
}

#[allow(non_snake_case)]
impl Registers {
    /// What holds of every register file, at all times.
    #[verifier::type_invariant]
    pub open spec fn inv(self) -> bool {
        self@.wf()
    }

    /// A register file with everything zero and the program counter at
    /// `entry` (its low twelve bits).
    pub fn new(entry: u16) -> (r: Registers)
        ensures
            r@ == RegisterState::initial(entry),
    {
        proof {
            lemma_mask_is_remainder(entry);
        }
        let r = Registers {
            register_array: [0x00; 16],
            address_register: 0x0000,
            eip: entry & 0x0FFF,
            delay_timer: 0,
            sound_timer: 0,
        };
        assert(r@.v =~= RegisterState::initial(entry).v);
        r
    }

    /// Reads general register `index`.
    pub fn read_register(&self, index: usize) -> (r: Result<u8, Chip8Error>)
        ensures
            r == self@.read(index as int),
    {
        if index < REGISTER_COUNT {
            Ok(self.register_array[index])
        } else {
            Err(Chip8Error::OutOfBounds)
        }
    }

    /// Writes general register `index`.
    pub fn write_register(&mut self, index: usize, value: u8) -> (r: Result<(), Chip8Error>)
        ensures
            match old(self)@.write(index as int, value) {
                Ok(next) => r is Ok && final(self)@ == next,
                Err(e) => r == Err::<(), Chip8Error>(e) && final(self)@ == old(self)@,
            },
    {
        proof {
            use_type_invariant(&*self);
        }
        if index < REGISTER_COUNT {
            self.register_array[index] = value;
            Ok(())
        } else {
            Err(Chip8Error::OutOfBounds)
        }
    }

    /// Reads or writes one general register, as `mode` says. A write gives
    /// the value written back.
    pub fn rw_register(&mut self, register_flag: usize, mode: MODE<u8>) -> (r: Result<
        u8,
        Chip8Error,
    >)
        ensures
            match mode {
                MODE::READ => r == old(self)@.read(register_flag as int) && final(self)@ == old(
                    self,
                )@,
                MODE::WRITE(value) => match old(self)@.write(register_flag as int, value) {
                    Ok(next) => r == Ok::<u8, Chip8Error>(value) && final(self)@ == next,
                    Err(e) => r == Err::<u8, Chip8Error>(e) && final(self)@ == old(self)@,
                },
            },
    {
        match mode {
            MODE::READ => self.read_register(register_flag),
            MODE::WRITE(value) => match self.write_register(register_flag, value) {
                Ok(()) => Ok(value),
                Err(e) => Err(e),
            },
        }
    }

    /// The value of `V[x]`, for an index taken from an opcode.
    pub(crate) fn v(&self, x: u8) -> (value: u8)
        requires
            x < REGISTER_COUNT,
        ensures
            value == self@.v[x as int],
    {
        self.register_array[x as usize]
    }

    /// Sets `V[x]`, for an index taken from an opcode.
    pub(crate) fn set_v(&mut self, x: u8, value: u8)
        requires
            x < REGISTER_COUNT,
        ensures
            final(self)@ == old(self)@.with_v(x as int, value),
    {
        proof {
            use_type_invariant(&*self);
        }
        self.register_array[x as usize] = value;
    }

    /// Sets `VF` to 1 or 0.
    pub(crate) fn set_flag(&mut self, raised: bool)
        ensures
            final(self)@ == old(self)@.with_flag(raised),
    {
        proof {
            use_type_invariant(&*self);
        }
        self.register_array[0xF] = if raised { 1 } else { 0 };
    }

    /// The address register `I`: always below 4096.
    pub fn read_I(&self) -> (value: u16)
        ensures
            value == self@.i,
            value < ADDRESS_SPACE,
    {
        proof {
            use_type_invariant(&*self);
        }
        self.address_register
    }

    /// Sets `I` to the low twelve bits of `value`.
    pub fn write_I(&mut self, value: u16)
        ensures
            final(self)@ == old(self)@.with_i(value as int),
    {
        proof {
            use_type_invariant(&*self);
            lemma_mask_is_remainder(value);
        }
        self.address_register = value & 0x0FFF;
    }

    /// The program counter: the address of the next instruction to fetch,
    /// always below 4096.
    pub fn pc(&self) -> (value: u16)
        ensures
            value == self@.pc,
            value < ADDRESS_SPACE,
    {
        proof {
            use_type_invariant(&*self);
        }
        self.eip
    }

    /// Sets the program counter to the low twelve bits of `value`.
    pub fn set_pc(&mut self, value: u16)
        ensures
            final(self)@ == old(self)@.with_pc(value as int),
    {
        proof {
            use_type_invariant(&*self);
            lemma_mask_is_remainder(value);
        }
        self.eip = value & 0x0FFF;
    }

    /// The delay counter.
    pub fn read_delay(&self) -> (value: u8)
        ensures
            value == self@.delay,
    {
        self.delay_timer
    }

    /// Sets the delay counter.
    pub fn write_delay(&mut self, value: u8)
        ensures
            final(self)@ == old(self)@.with_delay(value),
    {
        proof {
            use_type_invariant(&*self);
        }
        self.delay_timer = value;
    }

    /// The sound counter. The host sounds its tone while this is not zero.
    pub fn read_sound(&self) -> (value: u8)
        ensures
            value == self@.sound,
    {
        self.sound_timer
    }

    /// Sets the sound counter.
    pub fn write_sound(&mut self, value: u8)
        ensures
            final(self)@ == old(self)@.with_sound(value),
    {
        proof {
            use_type_invariant(&*self);
        }
        self.sound_timer = value;
    }

    /// One tick of the host's clock: each counter that is not yet zero goes
    /// down by one.
    pub fn tick_timers(&mut self)
        ensures
            final(self)@ == old(self)@.tick(),
    {
        proof {
            use_type_invariant(&*self);
        }
        if self.delay_timer > 0 {
            self.delay_timer = self.delay_timer - 1;
        }
        if self.sound_timer > 0 {
            self.sound_timer = self.sound_timer - 1;
        }
    }
}

} // verus!

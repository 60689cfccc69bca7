//! The mathematical picture of the machine's state.
//!
//! Memory and registers are described by sequences and integers; every
//! operation of the executable types is specified as a function on these.

use vstd::prelude::*;
use crate::error::Chip8Error;

verus! {

/// Number of one-byte cells in memory.
pub const MEMORY_SIZE: usize = 4096;

/// Largest number of return addresses the call stack holds.
pub const STACK_LIMIT: usize = 12;

/// The memory as mathematics: its cells and the call stack kept beside them.
pub struct MemoryState {
    /// The cells, by address.
    pub cells: Seq<u8>,
    /// The return addresses, oldest first.
    pub stack: Seq<u16>,
}

impl MemoryState {
    /// Every memory has exactly 4096 cells and at most twelve return addresses.
    pub open spec fn wf(self) -> bool {
        &&& self.cells.len() == MEMORY_SIZE
        &&& self.stack.len() <= STACK_LIMIT
    }

    /// The memory at start-up: all cells zero, no return address.
    pub open spec fn blank() -> MemoryState {
        MemoryState { cells: Seq::new(MEMORY_SIZE as nat, |a: int| 0u8), stack: Seq::empty() }
    }

    /// Whether `address` names a cell.
    pub open spec fn in_bounds(address: int) -> bool {
        0 <= address < MEMORY_SIZE
    }

    /// The byte at `address`.
    pub open spec fn read(self, address: int) -> Result<u8, Chip8Error> {
        if Self::in_bounds(address) {
            Ok(self.cells[address])
        } else {
            Err(Chip8Error::OutOfBounds)
        }
    }

    /// The memory after storing `value` at `address`.
    pub open spec fn write(self, address: int, value: u8) -> Result<MemoryState, Chip8Error> {
        if Self::in_bounds(address) {
            Ok(MemoryState { cells: self.cells.update(address, value), ..self })
        } else {
            Err(Chip8Error::OutOfBounds)
        }
    }

    /// Whether an image of `len` bytes fits when it starts at `offset`.
    pub open spec fn fits(len: int, offset: int) -> bool {
        0 <= offset && 0 <= len && offset + len <= MEMORY_SIZE
    }

    /// The memory after copying `image` to `offset`, `offset + 1`, ...
    pub open spec fn load(self, image: Seq<u8>, offset: int) -> Result<MemoryState, Chip8Error> {
        if Self::fits(image.len() as int, offset) {
            Ok(
                MemoryState {
                    cells: Seq::new(
                        self.cells.len(),
                        |a: int|
                            if offset <= a < offset + image.len() {
                                image[a - offset]
                            } else {
                                self.cells[a]
                            },
                    ),
                    ..self
                },
            )
        } else {
            Err(Chip8Error::ImageTooLarge)
        }
    }

    /// The `count` bytes that start at `address`.
    pub open spec fn block(self, address: int, count: int) -> Result<Seq<u8>, Chip8Error> {
        if Self::fits(count, address) {
            Ok(self.cells.subrange(address, address + count))
        } else {
            Err(Chip8Error::OutOfBounds)
        }
    }

    /// The memory after copying `bytes` to `address`, `address + 1`, ...
    pub open spec fn store(self, address: int, bytes: Seq<u8>) -> Result<MemoryState, Chip8Error> {
        match self.load(bytes, address) {
            Ok(next) => Ok(next),
            Err(_) => Err(Chip8Error::OutOfBounds),
        }
    }

    /// The memory after pushing a return address.
    pub open spec fn push(self, address: u16) -> Result<MemoryState, Chip8Error> {
        if self.stack.len() < STACK_LIMIT {
            Ok(MemoryState { stack: self.stack.push(address), ..self })
        } else {
            Err(Chip8Error::StackOverflow)
        }
    }

    /// The newest return address, if there is one.
    pub open spec fn top(self) -> Option<u16> {
        if self.stack.len() > 0 {
            Some(self.stack.last())
        } else {
            None
        }
    }

    /// The memory after taking the newest return address off; unchanged if
    /// there is none.
    pub open spec fn pop(self) -> MemoryState {
        if self.stack.len() > 0 {
            MemoryState { stack: self.stack.drop_last(), ..self }
        } else {
            self
        }
    }
}

/// Number of general registers, `V0` to `VF`.
pub const REGISTER_COUNT: usize = 16;

/// Index of `VF`, the register that doubles as carry, borrow and collision
/// flag.
pub const FLAG_REGISTER: usize = 15;

/// Number of addresses: the address register and the program counter hold
/// values below this.
pub const ADDRESS_SPACE: u16 = 0x1000;

/// `value` cut down to its low twelve bits.
pub open spec fn to_address(value: int) -> u16 {
    (value % (ADDRESS_SPACE as int)) as u16
}

/// The register file as mathematics.
pub struct RegisterState {
    /// The general registers `V0` to `VF`.
    pub v: Seq<u8>,
    /// The address register `I`.
    pub i: u16,
    /// The program counter.
    pub pc: u16,
    /// The delay counter.
    pub delay: u8,
    /// The sound counter.
    pub sound: u8,
}

impl RegisterState {
    /// Sixteen general registers; `I` and the program counter are twelve-bit
    /// values.
    pub open spec fn wf(self) -> bool {
        &&& self.v.len() == REGISTER_COUNT
        &&& self.i < ADDRESS_SPACE
        &&& self.pc < ADDRESS_SPACE
    }

    /// The register file at start-up: everything zero, the program counter at
    /// `entry`.
    pub open spec fn initial(entry: u16) -> RegisterState {
        RegisterState {
            v: Seq::new(REGISTER_COUNT as nat, |x: int| 0u8),
            i: 0,
            pc: to_address(entry as int),
            delay: 0,
            sound: 0,
        }
    }

    /// Whether `index` names a general register.
    pub open spec fn is_register(index: int) -> bool {
        0 <= index < REGISTER_COUNT
    }

    /// The value of general register `index`.
    pub open spec fn read(self, index: int) -> Result<u8, Chip8Error> {
        if Self::is_register(index) {
            Ok(self.v[index])
        } else {
            Err(Chip8Error::OutOfBounds)
        }
    }

    /// The register file after setting general register `index`.
    pub open spec fn write(self, index: int, value: u8) -> Result<RegisterState, Chip8Error> {
        if Self::is_register(index) {
            Ok(self.with_v(index, value))
        } else {
            Err(Chip8Error::OutOfBounds)
        }
    }

    /// The register file with `V[index]` set to `value`.
    pub open spec fn with_v(self, index: int, value: u8) -> RegisterState {
        RegisterState { v: self.v.update(index, value), ..self }
    }

    /// The register file with `VF` set to 1 if `raised`, to 0 if not.
    pub open spec fn with_flag(self, raised: bool) -> RegisterState {
        self.with_v(FLAG_REGISTER as int, if raised { 1u8 } else { 0u8 })
    }

    /// The register file with `I` set to the low twelve bits of `value`.
    pub open spec fn with_i(self, value: int) -> RegisterState {
        RegisterState { i: to_address(value), ..self }
    }

    /// The register file with the program counter set to the low twelve bits
    /// of `value`.
    pub open spec fn with_pc(self, value: int) -> RegisterState {
        RegisterState { pc: to_address(value), ..self }
    }

    /// The register file with the delay counter set.
    pub open spec fn with_delay(self, value: u8) -> RegisterState {
        RegisterState { delay: value, ..self }
    }

    /// The register file with the sound counter set.
    pub open spec fn with_sound(self, value: u8) -> RegisterState {
        RegisterState { sound: value, ..self }
    }

    /// The register file after one tick of the clock: each counter that is
    /// not yet zero goes down by one.
    pub open spec fn tick(self) -> RegisterState {
        RegisterState {
            delay: if self.delay > 0 { (self.delay - 1) as u8 } else { 0 },
            sound: if self.sound > 0 { (self.sound - 1) as u8 } else { 0 },
            ..self
        }
    }
}

} // verus!

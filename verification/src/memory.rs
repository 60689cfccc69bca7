//! The machine's memory: 4096 one-byte cells, and beside them the bounded
//! stack of return addresses.

use vstd::prelude::*;
use crate::error::Chip8Error;
use crate::model::{MemoryState, MEMORY_SIZE, STACK_LIMIT};

verus! {

/// How an access reaches a cell or a register: to read it, or to write the
/// value carried.
#[allow(non_camel_case_types)]
pub enum MODE<T> {
    READ,
    WRITE(T),
}

/// Memory of the machine.
///
/// Addresses `0x000..=0xFFF`. By convention programs are loaded at `0x200` and
/// the font lives below that, but the memory itself makes no difference
/// between regions.
#[derive(Debug)]
pub struct Memory {
    mem: [u8; 4096],
    call_stack: Vec<u16>,
}

impl View for Memory {
    type V = MemoryState;

    closed spec fn view(&self) -> MemoryState {
        MemoryState { cells: self.mem@, stack: self.call_stack@ }
    }
}

impl Memory {
    /// What holds of every memory, at all times.
    #[verifier::type_invariant]
    pub open spec fn inv(self) -> bool {
        self@.wf()
    }

    /// A zero-filled memory with an empty call stack.
    pub fn new() -> (m: Memory)
        ensures
            m@ == MemoryState::blank(),
    {
        let m = Memory { mem: [0x00; 4096], call_stack: Vec::new() };
        assert(m@.cells =~= MemoryState::blank().cells);
        m
    }

    /// The number of cells: always 4096.
    pub fn size(&self) -> (n: usize)
        ensures
            n == MEMORY_SIZE,
            n == self@.cells.len(),
    {
        MEMORY_SIZE
    }

    /// Reads the byte at `address`.
    pub fn read(&self, address: usize) -> (r: Result<u8, Chip8Error>)
        ensures
            r == self@.read(address as int),
    {
        if address < MEMORY_SIZE {
            Ok(self.mem[address])
        } else {
            Err(Chip8Error::OutOfBounds)
        }
    }

    /// Stores `value` at `address`.
    pub fn write(&mut self, address: usize, value: u8) -> (r: Result<(), Chip8Error>)
        ensures
            match old(self)@.write(address as int, value) {
                Ok(next) => r is Ok && final(self)@ == next,
                Err(e) => r == Err::<(), Chip8Error>(e) && final(self)@ == old(self)@,
            },
    {
        proof {
            use_type_invariant(&*self);
        }
        if address < MEMORY_SIZE {
            self.mem[address] = value;
            Ok(())
        } else {
            Err(Chip8Error::OutOfBounds)
        }
    }

    /// Reads the `count` bytes that start at `address`, or nothing at all if
    /// one of them lies outside memory.
    pub fn read_block(&self, address: usize, count: usize) -> (r: Result<Vec<u8>, Chip8Error>)
        ensures
            match self@.block(address as int, count as int) {
                Ok(bytes) => r is Ok && r->Ok_0@ == bytes,
                Err(e) => r is Err && r->Err_0 == e,
            },
    {
        if count > MEMORY_SIZE || address > MEMORY_SIZE - count {
            return Err(Chip8Error::OutOfBounds);
        }
        let mut bytes: Vec<u8> = Vec::new();
        let mut n: usize = 0;
        while n < count
            invariant
                n <= count,
                address + count <= MEMORY_SIZE,
                bytes@ == self.mem@.subrange(address as int, address + n),
            decreases count - n,
        {
            bytes.push(self.mem[address + n]);
            n = n + 1;
        }
        Ok(bytes)
    }

    /// Copies `bytes` into the cells from `offset` on. The caller has checked
    /// that they fit.
    fn copy_in(&mut self, bytes: &Vec<u8>, offset: usize)
        requires
            MemoryState::fits(bytes@.len() as int, offset as int),
        ensures
            old(self)@.load(bytes@, offset as int) == Ok::<MemoryState, Chip8Error>(final(self)@),
    {
        proof {
            use_type_invariant(&*self);
        }
        let ghost before = self@;
        let mut n: usize = 0;
        while n < bytes.len()
            invariant
                n <= bytes@.len(),
                offset + bytes@.len() <= MEMORY_SIZE,
                self.call_stack@ == before.stack,
                before.wf(),
                before.cells.len() == MEMORY_SIZE,
                self.mem@ == Seq::new(
                    MEMORY_SIZE as nat,
                    |a: int|
                        if offset <= a < offset + n {
                            bytes@[a - offset]
                        } else {
                            before.cells[a]
                        },
                ),
            decreases bytes@.len() - n,
        {
            self.mem[offset + n] = bytes[n];
            n = n + 1;
        }
    }

    /// Copies `bytes` to `address`, `address + 1`, ..., or changes nothing if
    /// one of these lies outside memory.
    pub fn write_block(&mut self, address: usize, bytes: &Vec<u8>) -> (r: Result<(), Chip8Error>)
        ensures
            match old(self)@.store(address as int, bytes@) {
                Ok(next) => r is Ok && final(self)@ == next,
                Err(e) => r == Err::<(), Chip8Error>(e) && final(self)@ == old(self)@,
            },
    {
        if bytes.len() > MEMORY_SIZE || address > MEMORY_SIZE - bytes.len() {
            return Err(Chip8Error::OutOfBounds);
        }
        self.copy_in(bytes, address);
        Ok(())
    }

    /// Loads an image: copies `img` byte for byte to `offset`, `offset + 1`,
    /// ..., over whatever was there. An image that does not fit is refused
    /// before anything is copied.
    pub fn load(&mut self, img: Vec<u8>, offset: usize) -> (r: Result<(), Chip8Error>)
        ensures
            match old(self)@.load(img@, offset as int) {
                Ok(next) => r is Ok && final(self)@ == next,
                Err(e) => r == Err::<(), Chip8Error>(e) && final(self)@ == old(self)@,
            },
    {
        if img.len() > MEMORY_SIZE || offset > MEMORY_SIZE - img.len() {
            return Err(Chip8Error::ImageTooLarge);
        }
        self.copy_in(&img, offset);
        Ok(())
    }

    /// Reads or writes one cell, as `mode` says. A write gives the value
    /// written back.
    pub fn rw_memory(&mut self, mem_address: usize, mode: MODE<u8>) -> (r: Result<u8, Chip8Error>)
        ensures
            match mode {
                MODE::READ => r == old(self)@.read(mem_address as int) && final(self)@ == old(
                    self,
                )@,
                MODE::WRITE(value) => match old(self)@.write(mem_address as int, value) {
                    Ok(next) => r == Ok::<u8, Chip8Error>(value) && final(self)@ == next,
                    Err(e) => r == Err::<u8, Chip8Error>(e) && final(self)@ == old(self)@,
                },
            },
    {
        match mode {
            MODE::READ => self.read(mem_address),
            MODE::WRITE(value) => match self.write(mem_address, value) {
                Ok(()) => Ok(value),
                Err(e) => Err(e),
            },
        }
    }

    /// The number of return addresses on the call stack.
    pub fn depth(&self) -> (n: usize)
        ensures
            n == self@.stack.len(),
            n <= STACK_LIMIT,
    {
        proof {
            use_type_invariant(&*self);
        }
        self.call_stack.len()
    }

    /// Pushes a return address. With twelve already there the push is refused
    /// and the stack stays as it is.
    pub fn push(&mut self, ret: u16) -> (r: Result<(), Chip8Error>)
        ensures
            match old(self)@.push(ret) {
                Ok(next) => r is Ok && final(self)@ == next,
                Err(e) => r == Err::<(), Chip8Error>(e) && final(self)@ == old(self)@,
            },
    {
        if self.call_stack.len() < STACK_LIMIT {
            let mut frames: Vec<u16> = Vec::new();
            core::mem::swap(&mut frames, &mut self.call_stack);
            frames.push(ret);
            self.call_stack = frames;
            Ok(())
        } else {
            Err(Chip8Error::StackOverflow)
        }
    }

    /// Takes the newest return address off the call stack; `None` if the
    /// stack is empty.
    pub fn pop(&mut self) -> (r: Option<u16>)
        ensures
            r == old(self)@.top(),
            final(self)@ == old(self)@.pop(),
    {
        proof {
            use_type_invariant(&*self);
        }
        if self.call_stack.len() > 0 {
            let mut frames: Vec<u16> = Vec::new();
            core::mem::swap(&mut frames, &mut self.call_stack);
            let top = frames.pop();
            self.call_stack = frames;
            top
        } else {
            None
        }
    }
}

} // verus!

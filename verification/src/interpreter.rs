//! The cycle driver: fetch, decode, execute, move the program counter.
//!
//! The driver is the only place where the program counter moves from one
//! instruction to the next. An instruction that sets the counter sets it to
//! the exact address to fetch next, and the driver then leaves it alone.

use vstd::prelude::*;
use crate::decode::{decode, lemma_fields, Instruction};
use crate::error::Chip8Error;
use crate::host::{Reply, Status};
use crate::memory::Memory;
use crate::model::{MemoryState, RegisterState};
use crate::opcode::{Operations, Quirks};
use crate::registers::Registers;
use crate::semantics::{skip_if, MachineState, INSTRUCTION_SIZE};

verus! {

/// What the host decides when it builds a machine.
#[derive(Clone, Copy, Debug, PartialEq, Eq, Structural)]
pub struct Config {
    /// Where the program starts: the first value of the program counter.
    pub entry_address: u16,
    /// Where the font's glyphs start in memory.
    pub sprite_table_address: u16,
    /// How the ambiguous instructions behave.
    pub quirks: Quirks,
}

/// A zero-filled memory, a register file with the program counter at the
/// entry address, and the handlers set up as `config` says.
pub fn init(config: Config) -> (parts: (Memory, Registers, Operations))
    ensures
        parts.0@ == MemoryState::blank(),
        parts.1@ == RegisterState::initial(config.entry_address),
        parts.2 == (Operations {
            quirks: config.quirks,
            sprite_load_address: config.sprite_table_address,
        }),
{
    (
        Memory::new(),
        Registers::new(config.entry_address),
        Operations::with_quirks(config.quirks, config.sprite_table_address),
    )
}

/// Reads the opcode at the program counter: two bytes, the high one first.
pub fn fetch(pmem: &Memory, preg: &Registers) -> (r: Result<u16, Chip8Error>)
    ensures
        r == (MachineState { mem: pmem@, regs: preg@ }).fetch(),
{
    let pc = preg.pc() as usize;
    let high = match pmem.read(pc) {
        Ok(byte) => byte,
        Err(e) => { return Err(e); },
    };
    let low = match pmem.read(pc + 1) {
        Ok(byte) => byte,
        Err(e) => { return Err(e); },
    };
    Ok(256 * (high as u16) + low as u16)
}

/// Executes one instruction: decodes `opc` and hands it to its handler. The
/// program counter is touched only by the instructions that set it; moving it
/// on is left to `step`.
pub fn execute(
    opc: u16,
    opcodes: &Operations,
    pmem: &mut Memory,
    preg: &mut Registers,
    reply: Reply,
) -> (r: Result<Status, Chip8Error>)
    ensures
        match (MachineState { mem: old(pmem)@, regs: old(preg)@ }).execute(
            opcodes.quirks,
            opcodes.sprite_load_address,
            opc,
            reply,
        ) {
            Ok((next, signal)) => {
                &&& r is Ok
                &&& r->Ok_0@ == signal
                &&& final(pmem)@ == next.mem
                &&& final(preg)@ == next.regs
            },
            Err(e) => {
                &&& r is Err
                &&& r->Err_0 == e
                &&& final(pmem)@ == old(pmem)@
                &&& final(preg)@ == old(preg)@
            },
        },
{
    proof {
        reveal(MachineState::execute);
        lemma_fields(opc);
    }
    match decode(opc) {
        Instruction::ClearDisplay => Ok(opcodes.clear_display()),
        Instruction::Return => match opcodes.return_from_call(pmem, preg) {
            Ok(()) => Ok(Status::Jump),
            Err(e) => Err(e),
        },
        Instruction::Jump { .. } => {
            opcodes.jmp_address(opc, preg);
            Ok(Status::Jump)
        },
        Instruction::Call { .. } => match opcodes.call_subroutine(opc, pmem, preg) {
            Ok(()) => Ok(Status::Jump),
            Err(e) => Err(e),
        },
        Instruction::SkipIfEqual { .. } => Ok(skip_when(opcodes.reg_val_compare(opc, preg))),
        Instruction::SkipIfNotEqual { .. } => Ok(skip_when(opcodes.reg_val_noncompare(opc, preg))),
        Instruction::SkipIfSame { .. } => Ok(skip_when(opcodes.reg_compare(opc, preg))),
        Instruction::LoadByte { .. } => {
            opcodes.reg_set(opc, preg);
            Ok(Status::Next)
        },
        Instruction::AddByte { .. } => {
            opcodes.reg_add(opc, preg);
            Ok(Status::Next)
        },
        Instruction::Assign { .. } => {
            opcodes.reg_assign(opc, preg);
            Ok(Status::Next)
        },
        Instruction::Or { .. } => {
            opcodes.reg_or(opc, preg);
            Ok(Status::Next)
        },
        Instruction::And { .. } => {
            opcodes.reg_and(opc, preg);
            Ok(Status::Next)
        },
        Instruction::Xor { .. } => {
            opcodes.reg_xor(opc, preg);
            Ok(Status::Next)
        },
        Instruction::AddRegister { .. } => {
            opcodes.reg_add_reg(opc, preg);
            Ok(Status::Next)
        },
        Instruction::Subtract { .. } => {
            opcodes.regx_sub_regy(opc, preg);
            Ok(Status::Next)
        },
        Instruction::ShiftRight { .. } => {
            opcodes.lsb_shift_right(opc, preg);
            Ok(Status::Next)
        },
        Instruction::SubtractFrom { .. } => {
            opcodes.regy_sub_regx(opc, preg);
            Ok(Status::Next)
        },
        Instruction::ShiftLeft { .. } => {
            opcodes.lsb_shift_left(opc, preg);
            Ok(Status::Next)
        },
        Instruction::SkipIfDifferent { .. } => Ok(skip_when(opcodes.reg_noncompare(opc, preg))),
        Instruction::SetIndex { .. } => {
            opcodes.jmp_I(opc, preg);
            Ok(Status::Next)
        },
        Instruction::JumpOffset { .. } => {
            opcodes.jmp_offset(opc, preg);
            Ok(Status::Jump)
        },
        Instruction::Random { .. } => Ok(opcodes.rand_reg(opc, preg, reply)),
        Instruction::Draw { .. } => opcodes.draw_sprite(opc, pmem, preg, reply),
        Instruction::SkipIfKeyDown { .. } => Ok(opcodes.stored_key_pressed(opc, preg, reply)),
        Instruction::SkipIfKeyUp { .. } => Ok(opcodes.stored_key_notpressed(opc, preg, reply)),
        Instruction::GetDelay { .. } => {
            opcodes.get_delay(opc, preg);
            Ok(Status::Next)
        },
        Instruction::AwaitKey { .. } => Ok(Operations::await_press(opc, preg, reply)),
        Instruction::SetDelay { .. } => {
            Operations::set_delay_timer(opc, preg);
            Ok(Status::Next)
        },
        Instruction::SetSound { .. } => {
            Operations::set_sound_timer(opc, preg);
            Ok(Status::Next)
        },
        Instruction::AddIndex { .. } => {
            opcodes.reg_add_I(opc, preg);
            Ok(Status::Next)
        },
        Instruction::Glyph { .. } => {
            Operations::set_I_sprite_reg(opc, opcodes.sprite_load_address, preg);
            Ok(Status::Next)
        },
        Instruction::StoreDecimal { .. } => match Operations::store_bcd_at_I(opc, pmem, preg) {
            Ok(()) => Ok(Status::Next),
            Err(e) => Err(e),
        },
        Instruction::StoreRegisters { .. } => match Operations::write_reg_mem(opc, pmem, preg) {
            Ok(()) => Ok(Status::Next),
            Err(e) => Err(e),
        },
        Instruction::LoadRegisters { .. } => match Operations::read_reg_mem(opc, pmem, preg) {
            Ok(()) => Ok(Status::Next),
            Err(e) => Err(e),
        },
        Instruction::Unknown { .. } => Err(Chip8Error::UnknownInstruction),
    }
}

/// The status of a skip instruction whose handler answered `skip`.
fn skip_when(skip: bool) -> (status: Status)
    ensures
        status@ == skip_if(skip),
{
    if skip {
        Status::Skip
    } else {
        Status::Next
    }
}

/// One cycle of the machine.
///
/// Fetches the opcode at the program counter, executes it with the host's
/// `reply`, and moves the program counter: on by one instruction after an
/// ordinary instruction, by two after a skip, not at all after an instruction
/// that set it. An instruction that needs the host and finds no answer in
/// `reply` is not carried out: the status says what it needs, nothing has
/// changed, and the next cycle meets the same instruction again. A cycle that
/// fails changes nothing either.
pub fn step(opcodes: &Operations, pmem: &mut Memory, preg: &mut Registers, reply: Reply) -> (r:
    Result<Status, Chip8Error>)
    ensures
        ({
            let before = MachineState { mem: old(pmem)@, regs: old(preg)@ };
            let after = MachineState { mem: final(pmem)@, regs: final(preg)@ };
            let (next, outcome) = before.step(opcodes.quirks, opcodes.sprite_load_address, reply);
            &&& after == next
            &&& match outcome {
                Ok(signal) => r is Ok && r->Ok_0@ == signal,
                Err(e) => r is Err && r->Err_0 == e,
            }
        }),
{
    let opc = match fetch(pmem, preg) {
        Ok(opc) => opc,
        Err(e) => { return Err(e); },
    };
    let status = match execute(opc, opcodes, pmem, preg, reply) {
        Ok(status) => status,
        Err(e) => { return Err(e); },
    };
    match status {
        Status::Next | Status::ClearDisplay => {
            let pc = preg.pc();
            preg.set_pc(pc + INSTRUCTION_SIZE);
        },
        Status::Skip => {
            let pc = preg.pc();
            preg.set_pc(pc + 2 * INSTRUCTION_SIZE);
        },
        _ => {},
    }
    Ok(status)
}

} // verus!

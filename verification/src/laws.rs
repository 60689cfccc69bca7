//! Laws of the machine: what holds of every state and every input.

use vstd::prelude::*;
use crate::decode::{
    decode_spec, encoding, field_addr, field_group, field_kk, field_n, field_x, field_y,
    lemma_decode_is_exact, lemma_fields, operands_in_range, Instruction,
};
use crate::error::Chip8Error;
use crate::host::{Reply, Signal};
use crate::model::{MemoryState, RegisterState, FLAG_REGISTER, MEMORY_SIZE, STACK_LIMIT};
use crate::opcode::Quirks;
use crate::semantics::{decimal_digits, MachineState};

verus! {

/// A byte written to an address inside memory is the byte read back from it,
/// and every other cell reads as before.
pub proof fn law_write_then_read(m: MemoryState, address: int, value: u8, other: int)
    requires
        m.wf(),
        0 <= address < MEMORY_SIZE,
    ensures
        m.write(address, value) is Ok,
        m.write(address, value)->Ok_0.wf(),
        m.write(address, value)->Ok_0.read(address) == Ok::<u8, Chip8Error>(value),
        other != address ==> m.write(address, value)->Ok_0.read(other) == m.read(other),
{
}

/// An address at or past the end of memory can be neither read nor written:
/// both are refused as out of bounds.
pub proof fn law_outside_memory_is_refused(m: MemoryState, address: int, value: u8)
    requires
        address >= MEMORY_SIZE,
    ensures
        m.read(address) == Err::<u8, Chip8Error>(Chip8Error::OutOfBounds),
        m.write(address, value) == Err::<MemoryState, Chip8Error>(Chip8Error::OutOfBounds),
{
}

/// Loading is byte-exact: after an image has been loaded at `offset`, the
/// cell at `offset + i` holds byte `i` of the image.
pub proof fn law_load_is_byte_exact(m: MemoryState, image: Seq<u8>, offset: int, i: int)
    requires
        m.wf(),
        MemoryState::fits(image.len() as int, offset),
        0 <= i < image.len(),
    ensures
        m.load(image, offset) is Ok,
        m.load(image, offset)->Ok_0.wf(),
        m.load(image, offset)->Ok_0.read(offset + i) == Ok::<u8, Chip8Error>(image[i]),
{
}

/// Loading touches nothing but the cells the image covers: every other cell,
/// and the call stack, stay as they were.
pub proof fn law_load_leaves_the_rest(m: MemoryState, image: Seq<u8>, offset: int, address: int)
    requires
        m.wf(),
        MemoryState::fits(image.len() as int, offset),
        !(offset <= address < offset + image.len()),
    ensures
        m.load(image, offset)->Ok_0.read(address) == m.read(address),
        m.load(image, offset)->Ok_0.stack == m.stack,
{
}

/// An image that does not fit is refused as too large.
pub proof fn law_load_refuses_what_does_not_fit(m: MemoryState, image: Seq<u8>, offset: int)
    requires
        0 <= offset,
        offset + image.len() > MEMORY_SIZE,
    ensures
        m.load(image, offset) == Err::<MemoryState, Chip8Error>(Chip8Error::ImageTooLarge),
{
}

/// Loading the same image at the same place a second time changes nothing.
pub proof fn law_load_is_idempotent(m: MemoryState, image: Seq<u8>, offset: int)
    requires
        m.wf(),
        MemoryState::fits(image.len() as int, offset),
    ensures
        m.load(image, offset)->Ok_0.load(image, offset) == m.load(image, offset),
{
    let once = m.load(image, offset)->Ok_0;
    let twice = once.load(image, offset)->Ok_0;
    assert(twice.cells =~= once.cells);
}

/// The memory after pushing the addresses of `addresses`, first to last, or
/// the error of the first push that is refused.
pub open spec fn push_all(m: MemoryState, addresses: Seq<u16>) -> Result<MemoryState, Chip8Error>
    decreases addresses.len(),
{
    if addresses.len() == 0 {
        Ok(m)
    } else {
        match push_all(m, addresses.drop_last()) {
            Ok(pushed) => pushed.push(addresses.last()),
            Err(e) => Err(e),
        }
    }
}

/// Pushes succeed as long as the stack holds at most twelve addresses
/// afterwards, and then the stack is the old one with the new addresses on
/// top. In particular twelve pushes onto an empty stack succeed.
pub proof fn law_pushes_within_the_limit(m: MemoryState, addresses: Seq<u16>)
    requires
        m.stack.len() + addresses.len() <= STACK_LIMIT,
    ensures
        push_all(m, addresses) == Ok::<MemoryState, Chip8Error>(
            MemoryState { stack: m.stack + addresses, ..m },
        ),
    decreases addresses.len(),
{
    if addresses.len() > 0 {
        law_pushes_within_the_limit(m, addresses.drop_last());
        assert((m.stack + addresses.drop_last()).push(addresses.last()) =~= m.stack + addresses);
    }
}

/// A push onto a stack of twelve is refused as an overflow. (`Memory::push`
/// leaves the memory as it was when the push is refused, so the stack stays
/// at depth twelve.)
pub proof fn law_thirteenth_push_is_refused(m: MemoryState, address: u16)
    requires
        m.stack.len() == STACK_LIMIT,
    ensures
        m.push(address) == Err::<MemoryState, Chip8Error>(Chip8Error::StackOverflow),
{
}

/// Popping an empty stack gives nothing and changes nothing.
pub proof fn law_pop_of_empty_stack(m: MemoryState)
    requires
        m.stack.len() == 0,
    ensures
        m.top() == None::<u16>,
        m.pop() == m,
{
}

/// What was pushed last is popped first, and the memory is then as it was
/// before the push.
pub proof fn law_push_then_pop(m: MemoryState, address: u16)
    requires
        m.stack.len() < STACK_LIMIT,
    ensures
        m.push(address) is Ok,
        m.push(address)->Ok_0.top() == Some(address),
        m.push(address)->Ok_0.pop() == m,
{
    let pushed = m.push(address)->Ok_0;
    assert(pushed.stack.drop_last() =~= m.stack);
}

/// A value written to a general register is the value read back from it,
/// and every other register reads as before.
pub proof fn law_register_write_then_read(r: RegisterState, index: int, value: u8, other: int)
    requires
        r.wf(),
        0 <= index < 16,
    ensures
        r.write(index, value) is Ok,
        r.write(index, value)->Ok_0.wf(),
        r.write(index, value)->Ok_0.read(index) == Ok::<u8, Chip8Error>(value),
        other != index ==> r.write(index, value)->Ok_0.read(other) == r.read(other),
{
}

/// A register index above fifteen can be neither read nor written: both are
/// refused as out of bounds.
pub proof fn law_register_index_out_of_range(r: RegisterState, index: int, value: u8)
    requires
        index >= 16,
    ensures
        r.read(index) == Err::<u8, Chip8Error>(Chip8Error::OutOfBounds),
        r.write(index, value) == Err::<RegisterState, Chip8Error>(Chip8Error::OutOfBounds),
{
}

/// `8XY4`: afterwards `V[x]` is the sum modulo 256, and `VF` is 1 if the sum
/// is above 255 and 0 if not. The statement about `VF` is for `x` other than
/// `F`: with `x = F` the sum itself is what `VF` holds.
pub proof fn law_add_sets_carry(r: RegisterState, x: int, y: int)
    requires
        r.wf(),
        0 <= x < 16,
        0 <= y < 16,
    ensures
        r.add_register(x, y).wf(),
        r.add_register(x, y).v[x] == (r.v[x] + r.v[y]) % 256,
        x != FLAG_REGISTER ==> r.add_register(x, y).v[FLAG_REGISTER as int] == (if r.v[x] + r.v[y]
            > 255 {
            1u8
        } else {
            0u8
        }),
        forall|k: int|
            0 <= k < 16 && k != x && k != FLAG_REGISTER ==> r.add_register(x, y).v[k] == r.v[k],
{
}

/// `8XY5`: afterwards `V[x]` is the difference modulo 256, and `VF` is 1 if
/// `V[x] >= V[y]` (nothing borrowed) and 0 if `V[x] < V[y]`. The statement
/// about `VF` is for `x` other than `F`.
pub proof fn law_subtract_sets_no_borrow(r: RegisterState, x: int, y: int)
    requires
        r.wf(),
        0 <= x < 16,
        0 <= y < 16,
    ensures
        r.subtract(x, y).wf(),
        r.subtract(x, y).v[x] == (r.v[x] - r.v[y]) % 256,
        r.v[x] >= r.v[y] ==> r.subtract(x, y).v[x] == r.v[x] - r.v[y],
        r.v[x] < r.v[y] ==> r.subtract(x, y).v[x] == 256 + r.v[x] - r.v[y],
        x != FLAG_REGISTER ==> r.subtract(x, y).v[FLAG_REGISTER as int] == (if r.v[x] >= r.v[y] {
            1u8
        } else {
            0u8
        }),
{
}

/// `8XY7`: afterwards `V[x]` is `V[y] - V[x]` modulo 256, and `VF` is 1 if
/// `V[y] >= V[x]` (nothing borrowed) and 0 if `V[y] < V[x]`. The statement
/// about `VF` is for `x` other than `F`.
pub proof fn law_subtract_from_sets_no_borrow(r: RegisterState, x: int, y: int)
    requires
        r.wf(),
        0 <= x < 16,
        0 <= y < 16,
    ensures
        r.subtract_from(x, y).wf(),
        r.subtract_from(x, y).v[x] == (r.v[y] - r.v[x]) % 256,
        r.v[y] >= r.v[x] ==> r.subtract_from(x, y).v[x] == r.v[y] - r.v[x],
        r.v[y] < r.v[x] ==> r.subtract_from(x, y).v[x] == 256 + r.v[y] - r.v[x],
        x != FLAG_REGISTER ==> r.subtract_from(x, y).v[FLAG_REGISTER as int] == (if r.v[y]
            >= r.v[x] {
            1u8
        } else {
            0u8
        }),
{
}

/// Adding a register with `8XY4` and subtracting it again with `8XY5` gives
/// the first value back, and the subtraction borrows exactly when the
/// addition carried. This is for two different registers, neither of them
/// `VF`.
pub proof fn law_add_then_subtract_restores(r: RegisterState, x: int, y: int)
    requires
        r.wf(),
        0 <= x < 15,
        0 <= y < 15,
        x != y,
    ensures
        r.add_register(x, y).subtract(x, y).v[x] == r.v[x],
        r.add_register(x, y).subtract(x, y).v[y] == r.v[y],
        r.add_register(x, y).subtract(x, y).v[FLAG_REGISTER as int] == (if r.v[x] + r.v[y] > 255 {
            0u8
        } else {
            1u8
        }),
{
}

/// Every opcode has a descriptor, that descriptor stands for this opcode and
/// for no other, and its operands are in range.
pub proof fn law_decode_is_exact(opcode: u16)
    ensures
        encoding(decode_spec(opcode)) == opcode,
        operands_in_range(decode_spec(opcode)),
{
    lemma_decode_is_exact(opcode);
}

/// Whether a descriptor is one that decoding gives: its operands are in
/// range, and if it is `Unknown` its opcode is indeed no instruction.
pub open spec fn is_canonical(instruction: Instruction) -> bool {
    &&& operands_in_range(instruction)
    &&& instruction matches Instruction::Unknown { opcode } ==> decode_spec(opcode) is Unknown
}

/// An opcode written as four digits base sixteen has those digits as its
/// fields.
pub proof fn lemma_fields_of_digits(opcode: u16, group: int, x: int, y: int, n: int)
    requires
        0 <= group < 16,
        0 <= x < 16,
        0 <= y < 16,
        0 <= n < 16,
        opcode == 0x1000 * group + 0x100 * x + 0x10 * y + n,
    ensures
        field_group(opcode) == group,
        field_x(opcode) == x,
        field_y(opcode) == y,
        field_n(opcode) == n,
        field_kk(opcode) == 0x10 * y + n,
        field_addr(opcode) == 0x100 * x + 0x10 * y + n,
{
    lemma_fields(opcode);
}

/// An opcode written as a group, a register and a byte has these as its
/// fields.
pub proof fn lemma_fields_of_byte(opcode: u16, group: int, x: int, kk: u8)
    requires
        0 <= group < 16,
        0 <= x < 16,
        opcode == 0x1000 * group + 0x100 * x + kk,
    ensures
        field_group(opcode) == group,
        field_x(opcode) == x,
        field_kk(opcode) == kk,
{
    lemma_fields(opcode);
}

/// An opcode written as a group and an address has these as its fields.
pub proof fn lemma_fields_of_address(opcode: u16, group: int, addr: u16)
    requires
        0 <= group < 16,
        addr < 0x1000,
        opcode == 0x1000 * group + addr,
    ensures
        field_group(opcode) == group,
        field_addr(opcode) == addr,
{
    lemma_fields(opcode);
}

/// Every canonical descriptor is the descriptor of the opcode it stands for.
pub proof fn law_encode_then_decode(instruction: Instruction)
    requires
        is_canonical(instruction),
    ensures
        0 <= encoding(instruction) <= 0xFFFF,
        decode_spec(encoding(instruction) as u16) == instruction,
{
    let opcode = encoding(instruction) as u16;
    match instruction {
        Instruction::ClearDisplay => {
            lemma_fields_of_digits(opcode, 0x0, 0x0, 0xE, 0x0);
        },
        Instruction::Return => {
            lemma_fields_of_digits(opcode, 0x0, 0x0, 0xE, 0xE);
        },
        Instruction::Jump { addr } => {
            lemma_fields_of_address(opcode, 0x1, addr);
        },
        Instruction::Call { addr } => {
            lemma_fields_of_address(opcode, 0x2, addr);
        },
        Instruction::SkipIfEqual { x, kk } => {
            lemma_fields_of_byte(opcode, 0x3, x as int, kk);
        },
        Instruction::SkipIfNotEqual { x, kk } => {
            lemma_fields_of_byte(opcode, 0x4, x as int, kk);
        },
        Instruction::SkipIfSame { x, y } => {
            lemma_fields_of_digits(opcode, 0x5, x as int, y as int, 0x0);
        },
        Instruction::LoadByte { x, kk } => {
            lemma_fields_of_byte(opcode, 0x6, x as int, kk);
        },
        Instruction::AddByte { x, kk } => {
            lemma_fields_of_byte(opcode, 0x7, x as int, kk);
        },
        Instruction::Assign { x, y } => {
            lemma_fields_of_digits(opcode, 0x8, x as int, y as int, 0x0);
        },
        Instruction::Or { x, y } => {
            lemma_fields_of_digits(opcode, 0x8, x as int, y as int, 0x1);
        },
        Instruction::And { x, y } => {
            lemma_fields_of_digits(opcode, 0x8, x as int, y as int, 0x2);
        },
        Instruction::Xor { x, y } => {
            lemma_fields_of_digits(opcode, 0x8, x as int, y as int, 0x3);
        },
        Instruction::AddRegister { x, y } => {
            lemma_fields_of_digits(opcode, 0x8, x as int, y as int, 0x4);
        },
        Instruction::Subtract { x, y } => {
            lemma_fields_of_digits(opcode, 0x8, x as int, y as int, 0x5);
        },
        Instruction::ShiftRight { x, y } => {
            lemma_fields_of_digits(opcode, 0x8, x as int, y as int, 0x6);
        },
        Instruction::SubtractFrom { x, y } => {
            lemma_fields_of_digits(opcode, 0x8, x as int, y as int, 0x7);
        },
        Instruction::ShiftLeft { x, y } => {
            lemma_fields_of_digits(opcode, 0x8, x as int, y as int, 0xE);
        },
        Instruction::SkipIfDifferent { x, y } => {
            lemma_fields_of_digits(opcode, 0x9, x as int, y as int, 0x0);
        },
        Instruction::SetIndex { addr } => {
            lemma_fields_of_address(opcode, 0xA, addr);
        },
        Instruction::JumpOffset { addr } => {
            lemma_fields_of_address(opcode, 0xB, addr);
        },
        Instruction::Random { x, kk } => {
            lemma_fields_of_byte(opcode, 0xC, x as int, kk);
        },
        Instruction::Draw { x, y, n } => {
            lemma_fields_of_digits(opcode, 0xD, x as int, y as int, n as int);
        },
        Instruction::SkipIfKeyDown { x } => {
            lemma_fields_of_digits(opcode, 0xE, x as int, 0x9, 0xE);
        },
        Instruction::SkipIfKeyUp { x } => {
            lemma_fields_of_digits(opcode, 0xE, x as int, 0xA, 0x1);
        },
        Instruction::GetDelay { x } => {
            lemma_fields_of_digits(opcode, 0xF, x as int, 0x0, 0x7);
        },
        Instruction::AwaitKey { x } => {
            lemma_fields_of_digits(opcode, 0xF, x as int, 0x0, 0xA);
        },
        Instruction::SetDelay { x } => {
            lemma_fields_of_digits(opcode, 0xF, x as int, 0x1, 0x5);
        },
        Instruction::SetSound { x } => {
            lemma_fields_of_digits(opcode, 0xF, x as int, 0x1, 0x8);
        },
        Instruction::AddIndex { x } => {
            lemma_fields_of_digits(opcode, 0xF, x as int, 0x1, 0xE);
        },
        Instruction::Glyph { x } => {
            lemma_fields_of_digits(opcode, 0xF, x as int, 0x2, 0x9);
        },
        Instruction::StoreDecimal { x } => {
            lemma_fields_of_digits(opcode, 0xF, x as int, 0x3, 0x3);
        },
        Instruction::StoreRegisters { x } => {
            lemma_fields_of_digits(opcode, 0xF, x as int, 0x5, 0x5);
        },
        Instruction::LoadRegisters { x } => {
            lemma_fields_of_digits(opcode, 0xF, x as int, 0x6, 0x5);
        },
        Instruction::Unknown { .. } => {},
    }
}

/// Two opcodes with the same descriptor are the same opcode.
pub proof fn law_decode_is_one_to_one(first: u16, second: u16)
    requires
        decode_spec(first) == decode_spec(second),
    ensures
        first == second,
{
    lemma_decode_is_exact(first);
    lemma_decode_is_exact(second);
}

/// Setting a register, the flag, `I`, the program counter or a counter keeps
/// a well formed register file well formed, and so does a tick.
pub proof fn law_register_updates_keep_wf(
    r: RegisterState,
    x: int,
    value: u8,
    raised: bool,
    wide: int,
)
    requires
        r.wf(),
        0 <= x < 16,
    ensures
        r.with_v(x, value).wf(),
        r.with_flag(raised).wf(),
        r.with_i(wide).wf(),
        r.with_pc(wide).wf(),
        r.with_delay(value).wf(),
        r.with_sound(value).wf(),
        r.tick().wf(),
{
}

/// Every instruction that works on registers alone keeps a well formed
/// register file well formed.
pub proof fn law_register_instructions_keep_wf(
    r: RegisterState,
    quirks: Quirks,
    font: u16,
    x: int,
    y: int,
    kk: u8,
    addr: u16,
    byte: u8,
    bytes: Seq<u8>,
)
    requires
        r.wf(),
        0 <= x < 16,
        0 <= y < 16,
    ensures
        r.load_byte(x, kk).wf(),
        r.add_byte(x, kk).wf(),
        r.assign(x, y).wf(),
        r.or(x, y).wf(),
        r.and(x, y).wf(),
        r.xor(x, y).wf(),
        r.add_register(x, y).wf(),
        r.subtract(x, y).wf(),
        r.shift_right(quirks, x, y).wf(),
        r.subtract_from(x, y).wf(),
        r.shift_left(quirks, x, y).wf(),
        r.jump_offset(quirks, addr, x).wf(),
        r.random(x, kk, byte).wf(),
        r.get_delay(x).wf(),
        r.add_index(quirks, x).wf(),
        r.glyph(font, x).wf(),
        r.load_registers(bytes).wf(),
{
}

/// Storing a block, pushing and popping keep a well formed memory well
/// formed.
pub proof fn law_memory_updates_keep_wf(m: MemoryState, address: int, bytes: Seq<u8>, ret: u16)
    requires
        m.wf(),
    ensures
        m.store(address, bytes) is Ok ==> m.store(address, bytes)->Ok_0.wf(),
        m.load(bytes, address) is Ok ==> m.load(bytes, address)->Ok_0.wf(),
        m.push(ret) is Ok ==> m.push(ret)->Ok_0.wf(),
        m.pop().wf(),
{
}

/// Whatever the opcode and the reply, executing an instruction keeps a well
/// formed machine well formed, and an instruction that was not carried out,
/// because it waits for the host, has changed nothing.
pub proof fn law_execute_keeps_the_machine_sound(
    s: MachineState,
    quirks: Quirks,
    font: u16,
    opcode: u16,
    reply: Reply,
)
    requires
        s.wf(),
    ensures
        match s.execute(quirks, font, opcode, reply) {
            Ok((next, signal)) => next.wf() && (!signal.retired() ==> next == s),
            Err(_) => true,
        },
{
    reveal(MachineState::execute);
    lemma_fields(opcode);
    let r = s.regs;
    let m = s.mem;
    let x = field_x(opcode) as int;
    let y = field_y(opcode) as int;
    let kk = field_kk(opcode);
    let addr = field_addr(opcode);
    match decode_spec(opcode) {
        Instruction::Return => {
            if m.stack.len() > 0 {
                law_register_updates_keep_wf(r, x, 0, false, m.stack.last() as int);
                law_memory_updates_keep_wf(m, 0, Seq::empty(), 0);
            }
        },
        Instruction::Call { .. } => {
            law_register_updates_keep_wf(r, x, 0, false, addr as int);
            law_memory_updates_keep_wf(m, 0, Seq::empty(), r.return_address());
        },
        Instruction::Jump { .. } | Instruction::SetIndex { .. } => {
            law_register_updates_keep_wf(r, x, 0, false, addr as int);
        },
        Instruction::Random { .. } => {
            if let Reply::Random(byte) = reply {
                law_register_instructions_keep_wf(
                    r,
                    quirks,
                    font,
                    x,
                    y,
                    kk,
                    addr,
                    byte,
                    Seq::empty(),
                );
            }
        },
        Instruction::Draw { .. } => {
            if let Reply::Collision(hit) = reply {
                law_register_updates_keep_wf(r, x, 0, hit, 0);
            }
        },
        Instruction::AwaitKey { .. } => {
            if let Reply::KeyPress(key) = reply {
                law_register_updates_keep_wf(r, x, key, false, 0);
            }
        },
        Instruction::SetDelay { .. } | Instruction::SetSound { .. } => {
            law_register_updates_keep_wf(r, x, r.v[x], false, 0);
        },
        Instruction::StoreDecimal { .. } => {
            law_memory_updates_keep_wf(m, r.i as int, decimal_digits(r.v[x]), 0);
        },
        Instruction::StoreRegisters { .. } => {
            law_memory_updates_keep_wf(m, r.i as int, r.v.subrange(0, x + 1), 0);
        },
        Instruction::LoadRegisters { .. } => {
            if m.block(r.i as int, x + 1) is Ok {
                law_register_instructions_keep_wf(
                    r,
                    quirks,
                    font,
                    x,
                    y,
                    kk,
                    addr,
                    0,
                    m.block(r.i as int, x + 1)->Ok_0,
                );
            }
        },
        _ => {
            law_register_instructions_keep_wf(r, quirks, font, x, y, kk, addr, 0, Seq::empty());
        },
    }
}

/// Whatever is in memory and whatever the host replies, a cycle keeps a well
/// formed machine well formed; a cycle that fails, or whose instruction waits
/// for the host, changes nothing.
pub proof fn law_step_keeps_the_machine_sound(
    s: MachineState,
    quirks: Quirks,
    font: u16,
    reply: Reply,
)
    requires
        s.wf(),
    ensures
        s.step(quirks, font, reply).0.wf(),
        s.step(quirks, font, reply).1 is Err ==> s.step(quirks, font, reply).0 == s,
        s.step(quirks, font, reply).1 is Ok && !s.step(quirks, font, reply).1->Ok_0.retired()
            ==> s.step(quirks, font, reply).0 == s,
{
    match s.fetch() {
        Ok(opcode) => {
            law_execute_keeps_the_machine_sound(s, quirks, font, opcode, reply);
        },
        Err(_) => {},
    }
}

/// Whether an instruction stores into memory cells: only `FX33` and `FX55`
/// do.
pub open spec fn is_store(instruction: Instruction) -> bool {
    instruction is StoreDecimal || instruction is StoreRegisters
}

/// Executing an instruction leaves alone what the instruction is not about:
/// the memory cells unless it is a store, the call stack unless it is a call
/// or a return, the two counters unless it sets one of them, and the program
/// counter unless it reports a jump.
pub proof fn law_execute_touches_only_its_own(
    s: MachineState,
    quirks: Quirks,
    font: u16,
    opcode: u16,
    reply: Reply,
)
    requires
        s.wf(),
        s.execute(quirks, font, opcode, reply) is Ok,
    ensures
        ({
            let instruction = decode_spec(opcode);
            let (next, signal) = s.execute(quirks, font, opcode, reply)->Ok_0;
            &&& !is_store(instruction) ==> next.mem.cells == s.mem.cells
            &&& !(instruction is Call || instruction is Return) ==> next.mem.stack == s.mem.stack
            &&& !(instruction is SetDelay) ==> next.regs.delay == s.regs.delay
            &&& !(instruction is SetSound) ==> next.regs.sound == s.regs.sound
            &&& !(signal is Jump) ==> next.regs.pc == s.regs.pc
            &&& signal is Jump <==> instruction is Jump || instruction is Call || instruction
                is Return || instruction is JumpOffset
        }),
{
    reveal(MachineState::execute);
}

/// The cycle driver moves the program counter on by one instruction after
/// an ordinary instruction and by two after a skip, within twelve bits. After
/// a jump the counter is where the instruction put it, and while an
/// instruction waits for the host the counter stays on it.
pub proof fn law_step_moves_the_program_counter(
    s: MachineState,
    quirks: Quirks,
    font: u16,
    reply: Reply,
)
    requires
        s.wf(),
        s.step(quirks, font, reply).1 is Ok,
    ensures
        ({
            let (next, outcome) = s.step(quirks, font, reply);
            let signal = outcome->Ok_0;
            let executed = s.execute(quirks, font, s.fetch()->Ok_0, reply)->Ok_0.0;
            &&& signal is Next || signal is ClearDisplay ==> next.regs.pc == (s.regs.pc + 2) % 4096
            &&& signal is Skip ==> next.regs.pc == (s.regs.pc + 4) % 4096
            &&& signal is Jump ==> next.regs.pc == executed.regs.pc
            &&& !signal.retired() ==> next.regs.pc == s.regs.pc
        }),
{
    let opcode = s.fetch()->Ok_0;
    law_execute_touches_only_its_own(s, quirks, font, opcode, reply);
}

/// A return with an empty call stack is reported as a stack underflow, and
/// the machine is as it was.
pub proof fn law_return_without_call(s: MachineState, quirks: Quirks, font: u16, reply: Reply)
    requires
        s.fetch() == Ok::<u16, Chip8Error>(0x00EE),
        s.mem.stack.len() == 0,
    ensures
        s.step(quirks, font, reply) == (
            s,
            Err::<Signal, Chip8Error>(Chip8Error::StackUnderflow),
        ),
{
    reveal(MachineState::execute);
    lemma_fields(0x00EE);
}

/// A call with room on the stack puts the address of the instruction after
/// it on the stack and continues at its target.
pub proof fn law_call_enters_subroutine(
    s: MachineState,
    quirks: Quirks,
    font: u16,
    call: u16,
    reply: Reply,
)
    requires
        s.fetch() == Ok::<u16, Chip8Error>(call),
        decode_spec(call) is Call,
        s.mem.stack.len() < STACK_LIMIT,
    ensures
        s.step(quirks, font, reply) == (
            MachineState {
                mem: MemoryState { stack: s.mem.stack.push(s.regs.return_address()), ..s.mem },
                regs: s.regs.with_pc(field_addr(call) as int),
            },
            Ok::<Signal, Chip8Error>(Signal::Jump),
        ),
{
    reveal(MachineState::execute);
}

/// A return with an address on the stack takes it off and continues there.
pub proof fn law_return_resumes_caller(s: MachineState, quirks: Quirks, font: u16, reply: Reply)
    requires
        s.fetch() == Ok::<u16, Chip8Error>(0x00EE),
        s.mem.stack.len() > 0,
    ensures
        s.step(quirks, font, reply) == (
            MachineState {
                mem: MemoryState { stack: s.mem.stack.drop_last(), ..s.mem },
                regs: s.regs.with_pc(s.mem.stack.last() as int),
            },
            Ok::<Signal, Chip8Error>(Signal::Jump),
        ),
{
    reveal(MachineState::execute);
    lemma_fields(0x00EE);
}

/// A call followed at once by a return brings the program counter to the
/// instruction after the call, and leaves everything else as it was. The
/// call stack must have room for the call.
pub proof fn law_call_then_return(
    s: MachineState,
    quirks: Quirks,
    font: u16,
    call: u16,
    first: Reply,
    second: Reply,
)
    requires
        s.wf(),
        s.fetch() == Ok::<u16, Chip8Error>(call),
        decode_spec(call) is Call,
        s.mem.stack.len() < STACK_LIMIT,
        s.step(quirks, font, first).0.fetch() == Ok::<u16, Chip8Error>(0x00EE),
    ensures
        ({
            let (called, entered) = s.step(quirks, font, first);
            let (returned, left) = called.step(quirks, font, second);
            &&& entered == Ok::<Signal, Chip8Error>(Signal::Jump)
            &&& called.regs.pc == field_addr(call)
            &&& left == Ok::<Signal, Chip8Error>(Signal::Jump)
            &&& returned.regs.pc == (s.regs.pc + 2) % 4096
            &&& returned == s.with_regs(s.regs.with_pc(s.regs.pc + 2))
        }),
{
    lemma_fields(call);
    law_call_enters_subroutine(s, quirks, font, call, first);
    let called = s.step(quirks, font, first).0;
    law_return_resumes_caller(called, quirks, font, second);
    let returned = called.step(quirks, font, second).0;
    assert(called.mem.stack.drop_last() =~= s.mem.stack);
}

/// The digits that `FX33` stores are decimal digits, and read as hundreds,
/// tens and ones they give the byte back.
pub proof fn law_decimal_digits_spell_the_byte(value: u8)
    ensures
        decimal_digits(value).len() == 3,
        decimal_digits(value)[0] < 10,
        decimal_digits(value)[1] < 10,
        decimal_digits(value)[2] < 10,
        100 * decimal_digits(value)[0] + 10 * decimal_digits(value)[1] + decimal_digits(
            value,
        )[2] == value,
{
}

/// Registers stored with `FX55` and loaded again with `FX65` from the same
/// place come back as they were.
pub proof fn law_store_then_load_registers(m: MemoryState, r: RegisterState, x: int)
    requires
        m.wf(),
        r.wf(),
        0 <= x < 16,
        r.i + x < MEMORY_SIZE,
    ensures
        m.store(r.i as int, r.v.subrange(0, x + 1)) is Ok,
        m.store(r.i as int, r.v.subrange(0, x + 1))->Ok_0.block(r.i as int, x + 1) == Ok::<
            Seq<u8>,
            Chip8Error,
        >(r.v.subrange(0, x + 1)),
        r.load_registers(r.v.subrange(0, x + 1)) == r,
{
    let values = r.v.subrange(0, x + 1);
    let stored = m.store(r.i as int, values)->Ok_0;
    assert(stored.block(r.i as int, x + 1)->Ok_0 =~= values);
    assert(r.load_registers(values).v =~= r.v);
}

/// A machine starts well formed, with every cell zero, every register zero
/// and nothing on the call stack.
pub proof fn law_initial_machine(entry: u16, address: int, x: int)
    requires
        0 <= address < MEMORY_SIZE,
        0 <= x < 16,
    ensures
        MachineState::initial(entry).wf(),
        MachineState::initial(entry).mem.read(address) == Ok::<u8, Chip8Error>(0u8),
        MachineState::initial(entry).mem.stack.len() == 0,
        MachineState::initial(entry).regs.read(x) == Ok::<u8, Chip8Error>(0u8),
        MachineState::initial(entry).regs.pc == entry % 4096,
{
}

/// A tick never raises a counter, lowers one that is not zero by exactly
/// one, and leaves everything but the two counters alone.
pub proof fn law_tick_counts_down_to_zero(r: RegisterState)
    ensures
        r.tick().delay == (if r.delay == 0 { 0int } else { r.delay - 1 }),
        r.tick().sound == (if r.sound == 0 { 0int } else { r.sound - 1 }),
        r.tick().v == r.v,
        r.tick().i == r.i,
        r.tick().pc == r.pc,
{
}

} // verus!

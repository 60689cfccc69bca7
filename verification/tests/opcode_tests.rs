use chip8::error::Chip8Error;
use chip8::host::{Reply, Status};
use chip8::memory::Memory;
use chip8::opcode::{Operations, Quirks};
use chip8::registers::Registers;

fn regs(values: &[(usize, u8)]) -> Registers {
    let mut r = Registers::new(0x200);
    for (x, v) in values {
        assert_eq!(r.write_register(*x, *v), Ok(()));
    }
    r
}

fn v(r: &Registers, x: usize) -> u8 {
    r.read_register(x).unwrap()
}

fn all_v(r: &Registers) -> Vec<u8> {
    (0..16).map(|x| v(r, x)).collect()
}

fn plain() -> Operations {
    Operations::new(false, 0x050)
}

fn quirky() -> Operations {
    Operations::with_quirks(
        Quirks { shift_uses_vy: true, i_overflow_sets_vf: true, jump_offset_uses_vx: true },
        0x050,
    )
}

#[test]
fn new_sets_the_shift_quirk_and_the_font_address() {
    let ops = Operations::new(true, 0x200);
    assert!(ops.quirks.shift_uses_vy);
    assert!(!ops.quirks.i_overflow_sets_vf);
    assert!(!ops.quirks.jump_offset_uses_vx);
    assert_eq!(ops.sprite_load_address, 0x200);
    let ops = Operations::new(false, 0x050);
    assert!(!ops.quirks.shift_uses_vy);
    assert_eq!(ops.sprite_load_address, 0x050);
    let q = Quirks { shift_uses_vy: false, i_overflow_sets_vf: true, jump_offset_uses_vx: true };
    assert_eq!(Operations::with_quirks(q, 7), Operations { quirks: q, sprite_load_address: 7 });
}

#[test]
fn machine_code_calls_are_refused() {
    assert_eq!(plain().call_machine_code(0x0123), Err(Chip8Error::UnknownInstruction));
    assert_eq!(plain().call_machine_code(0x0000), Err(Chip8Error::UnknownInstruction));
}

#[test]
fn clear_display_asks_the_host() {
    assert_eq!(plain().clear_display(), Status::ClearDisplay);
}

#[test]
fn jump_sets_pc_to_the_address() {
    let mut r = regs(&[(0, 9)]);
    plain().jmp_address(0x1ABC, &mut r);
    assert_eq!(r.pc(), 0xABC);
    plain().jmp_address(0x1000, &mut r);
    assert_eq!(r.pc(), 0x000);
    assert_eq!(v(&r, 0), 9);
}

#[test]
fn call_pushes_the_next_address_and_jumps() {
    let mut m = Memory::new();
    let mut r = Registers::new(0x200);
    assert_eq!(plain().call_subroutine(0x2ABC, &mut m, &mut r), Ok(()));
    assert_eq!(r.pc(), 0xABC);
    assert_eq!(m.depth(), 1);
    assert_eq!(m.pop(), Some(0x202));
}

#[test]
fn call_at_the_end_of_memory_wraps_the_return_address() {
    let mut m = Memory::new();
    let mut r = Registers::new(0xFFE);
    assert_eq!(plain().call_subroutine(0x2123, &mut m, &mut r), Ok(()));
    assert_eq!(m.pop(), Some(0x000));
    let mut r = Registers::new(0xFFF);
    assert_eq!(plain().call_subroutine(0x2123, &mut m, &mut r), Ok(()));
    assert_eq!(m.pop(), Some(0x001));
}

#[test]
fn call_with_a_full_stack_overflows_and_changes_nothing() {
    let mut m = Memory::new();
    let mut r = Registers::new(0x200);
    for k in 0..12u16 {
        assert_eq!(m.push(k), Ok(()));
    }
    assert_eq!(plain().call_subroutine(0x2ABC, &mut m, &mut r), Err(Chip8Error::StackOverflow));
    assert_eq!(r.pc(), 0x200);
    assert_eq!(m.depth(), 12);
    assert_eq!(m.pop(), Some(11));
}

#[test]
fn return_pops_into_pc() {
    let mut m = Memory::new();
    let mut r = Registers::new(0x300);
    assert_eq!(m.push(0x202), Ok(()));
    assert_eq!(m.push(0x456), Ok(()));
    assert_eq!(plain().return_from_call(&mut m, &mut r), Ok(()));
    assert_eq!(r.pc(), 0x456);
    assert_eq!(plain().return_from_call(&mut m, &mut r), Ok(()));
    assert_eq!(r.pc(), 0x202);
    assert_eq!(m.depth(), 0);
}

#[test]
fn return_with_an_empty_stack_underflows_and_changes_nothing() {
    let mut m = Memory::new();
    let mut r = Registers::new(0x300);
    assert_eq!(plain().return_from_call(&mut m, &mut r), Err(Chip8Error::StackUnderflow));
    assert_eq!(r.pc(), 0x300);
    assert_eq!(m.depth(), 0);
}

#[test]
fn call_then_return_comes_back_after_the_call() {
    for pc in [0x000u16, 0x200, 0x201, 0xABA, 0xFFC, 0xFFD, 0xFFE, 0xFFF] {
        let mut m = Memory::new();
        let mut r = Registers::new(pc);
        assert_eq!(plain().call_subroutine(0x2ABC, &mut m, &mut r), Ok(()));
        assert_eq!(r.pc(), 0xABC);
        assert_eq!(plain().return_from_call(&mut m, &mut r), Ok(()));
        assert_eq!(r.pc(), (pc + 2) & 0xFFF);
        assert_eq!(m.depth(), 0);
    }
}

#[test]
fn skip_if_register_equals_byte() {
    let r = regs(&[(3, 0x42)]);
    assert!(plain().reg_val_compare(0x3342, &r));
    assert!(!plain().reg_val_compare(0x3343, &r));
    assert!(!plain().reg_val_compare(0x3442, &r));
    assert!(plain().reg_val_compare(0x3400, &r));
}

#[test]
fn skip_if_register_differs_from_byte() {
    let r = regs(&[(3, 0x42)]);
    assert!(!plain().reg_val_noncompare(0x4342, &r));
    assert!(plain().reg_val_noncompare(0x4343, &r));
    assert!(plain().reg_val_noncompare(0x4442, &r));
    assert!(!plain().reg_val_noncompare(0x4400, &r));
}

#[test]
fn skip_if_registers_are_equal() {
    let r = regs(&[(1, 7), (2, 7), (3, 8)]);
    assert!(plain().reg_compare(0x5120, &r));
    assert!(!plain().reg_compare(0x5130, &r));
    assert!(plain().reg_compare(0x5330, &r));
}

#[test]
fn skip_if_registers_differ() {
    let r = regs(&[(1, 7), (2, 7), (3, 8)]);
    assert!(!plain().reg_noncompare(0x9120, &r));
    assert!(plain().reg_noncompare(0x9130, &r));
    assert!(!plain().reg_noncompare(0x9330, &r));
}

#[test]
fn set_register_to_byte() {
    let mut r = regs(&[(5, 1)]);
    plain().reg_set(0x65AB, &mut r);
    assert_eq!(v(&r, 5), 0xAB);
    plain().reg_set(0x6F01, &mut r);
    assert_eq!(v(&r, 0xF), 1);
    assert_eq!(v(&r, 5), 0xAB);
    assert_eq!(r.pc(), 0x200);
}

#[test]
fn add_byte_wraps_and_leaves_the_flag() {
    let mut r = regs(&[(2, 250), (0xF, 7)]);
    plain().reg_add(0x7205, &mut r);
    assert_eq!(v(&r, 2), 255);
    assert_eq!(v(&r, 0xF), 7);
    plain().reg_add(0x7201, &mut r);
    assert_eq!(v(&r, 2), 0);
    assert_eq!(v(&r, 0xF), 7);
    plain().reg_add(0x72FF, &mut r);
    assert_eq!(v(&r, 2), 255);
    plain().reg_add(0x72FF, &mut r);
    assert_eq!(v(&r, 2), 254);
    assert_eq!(v(&r, 0xF), 7);
}

#[test]
fn assign_or_and_xor() {
    let mut r = regs(&[(1, 0b1100_1010), (2, 0b1010_0110)]);
    plain().reg_or(0x8121, &mut r);
    assert_eq!(v(&r, 1), 0b1110_1110);
    let mut r = regs(&[(1, 0b1100_1010), (2, 0b1010_0110)]);
    plain().reg_and(0x8122, &mut r);
    assert_eq!(v(&r, 1), 0b1000_0010);
    let mut r = regs(&[(1, 0b1100_1010), (2, 0b1010_0110)]);
    plain().reg_xor(0x8123, &mut r);
    assert_eq!(v(&r, 1), 0b0110_1100);
    assert_eq!(v(&r, 2), 0b1010_0110);
    let mut r = regs(&[(1, 0b1100_1010), (2, 0b1010_0110)]);
    plain().reg_assign(0x8120, &mut r);
    assert_eq!(v(&r, 1), 0b1010_0110);
    assert_eq!(v(&r, 2), 0b1010_0110);
    assert_eq!(v(&r, 0xF), 0);
}

#[test]
fn add_registers_for_all_byte_pairs() {
    let ops = plain();
    for a in 0..=255u16 {
        for b in 0..=255u16 {
            let mut r = regs(&[(3, a as u8), (7, b as u8), (0xF, 0x55)]);
            ops.reg_add_reg(0x8374, &mut r);
            assert_eq!(v(&r, 3) as u16, (a + b) % 256);
            assert_eq!(v(&r, 0xF), if a + b > 255 { 1 } else { 0 });
            assert_eq!(v(&r, 7), b as u8);
        }
    }
}

#[test]
fn add_register_to_itself() {
    let mut r = regs(&[(4, 200)]);
    plain().reg_add_reg(0x8444, &mut r);
    assert_eq!(v(&r, 4), 144);
    assert_eq!(v(&r, 0xF), 1);
}

#[test]
fn add_into_the_flag_register_keeps_the_sum() {
    // With x = F the flag is written first and the sum over it.
    let mut r = regs(&[(0xF, 200), (1, 100)]);
    plain().reg_add_reg(0x8F14, &mut r);
    assert_eq!(v(&r, 0xF), 44);
    let mut r = regs(&[(0xF, 1), (1, 2)]);
    plain().reg_add_reg(0x8F14, &mut r);
    assert_eq!(v(&r, 0xF), 3);
}

#[test]
fn add_from_the_flag_register_reads_it_before_the_flag_is_set() {
    let mut r = regs(&[(1, 250), (0xF, 10)]);
    plain().reg_add_reg(0x81F4, &mut r);
    assert_eq!(v(&r, 1), 4);
    assert_eq!(v(&r, 0xF), 1);
}

#[test]
fn subtract_sets_the_flag_when_nothing_is_borrowed() {
    // V[x] > V[y]
    let mut r = regs(&[(0, 8), (1, 3)]);
    plain().regx_sub_regy(0x8015, &mut r);
    assert_eq!((v(&r, 0), v(&r, 0xF)), (5, 1));
    // V[x] == V[y]
    let mut r = regs(&[(0, 8), (1, 8)]);
    plain().regx_sub_regy(0x8015, &mut r);
    assert_eq!((v(&r, 0), v(&r, 0xF)), (0, 1));
    // V[x] < V[y]
    let mut r = regs(&[(0, 3), (1, 8)]);
    plain().regx_sub_regy(0x8015, &mut r);
    assert_eq!((v(&r, 0), v(&r, 0xF)), (251, 0));
    let mut r = regs(&[(0, 0), (1, 255)]);
    plain().regx_sub_regy(0x8015, &mut r);
    assert_eq!((v(&r, 0), v(&r, 0xF)), (1, 0));
    let mut r = regs(&[(0, 0), (1, 0), (0xF, 9)]);
    plain().regx_sub_regy(0x8015, &mut r);
    assert_eq!((v(&r, 0), v(&r, 0xF)), (0, 1));
}

#[test]
fn subtract_for_all_byte_pairs() {
    let ops = plain();
    for a in 0..=255i32 {
        for b in 0..=255i32 {
            let mut r = regs(&[(3, a as u8), (7, b as u8)]);
            ops.regx_sub_regy(0x8375, &mut r);
            assert_eq!(v(&r, 3) as i32, (a - b).rem_euclid(256));
            assert_eq!(v(&r, 0xF), if a >= b { 1 } else { 0 });
            let mut r = regs(&[(3, a as u8), (7, b as u8)]);
            ops.regy_sub_regx(0x8377, &mut r);
            assert_eq!(v(&r, 3) as i32, (b - a).rem_euclid(256));
            assert_eq!(v(&r, 0xF), if b >= a { 1 } else { 0 });
        }
    }
}

#[test]
fn reverse_subtract_sets_the_flag_when_nothing_is_borrowed() {
    // V[y] > V[x]
    let mut r = regs(&[(0, 3), (1, 8)]);
    plain().regy_sub_regx(0x8017, &mut r);
    assert_eq!((v(&r, 0), v(&r, 1), v(&r, 0xF)), (5, 8, 1));
    // V[y] == V[x]
    let mut r = regs(&[(0, 8), (1, 8)]);
    plain().regy_sub_regx(0x8017, &mut r);
    assert_eq!((v(&r, 0), v(&r, 0xF)), (0, 1));
    // V[y] < V[x]
    let mut r = regs(&[(0, 8), (1, 3)]);
    plain().regy_sub_regx(0x8017, &mut r);
    assert_eq!((v(&r, 0), v(&r, 0xF)), (251, 0));
}

#[test]
fn shift_right_in_place() {
    let mut r = regs(&[(1, 0b0000_0101), (2, 0b1111_0000)]);
    plain().lsb_shift_right(0x8126, &mut r);
    assert_eq!((v(&r, 1), v(&r, 2), v(&r, 0xF)), (0b0000_0010, 0b1111_0000, 1));
    plain().lsb_shift_right(0x8126, &mut r);
    assert_eq!((v(&r, 1), v(&r, 0xF)), (0b0000_0001, 0));
    plain().lsb_shift_right(0x8126, &mut r);
    assert_eq!((v(&r, 1), v(&r, 0xF)), (0, 1));
    let mut r = regs(&[(1, 0xFF)]);
    plain().lsb_shift_right(0x8126, &mut r);
    assert_eq!((v(&r, 1), v(&r, 0xF)), (0x7F, 1));
}

#[test]
fn shift_right_from_vy_under_the_quirk() {
    let mut r = regs(&[(1, 0b0000_0101), (2, 0b1111_0000)]);
    quirky().lsb_shift_right(0x8126, &mut r);
    assert_eq!((v(&r, 1), v(&r, 2), v(&r, 0xF)), (0b0111_1000, 0b1111_0000, 0));
    let mut r = regs(&[(1, 0), (2, 0b0000_0011)]);
    Operations::new(true, 0).lsb_shift_right(0x8126, &mut r);
    assert_eq!((v(&r, 1), v(&r, 2), v(&r, 0xF)), (1, 3, 1));
}

#[test]
fn shift_left_in_place() {
    let mut r = regs(&[(1, 0b1000_0101), (2, 0b0000_1111)]);
    plain().lsb_shift_left(0x812E, &mut r);
    assert_eq!((v(&r, 1), v(&r, 2), v(&r, 0xF)), (0b0000_1010, 0b0000_1111, 1));
    plain().lsb_shift_left(0x812E, &mut r);
    assert_eq!((v(&r, 1), v(&r, 0xF)), (0b0001_0100, 0));
    let mut r = regs(&[(1, 0xFF)]);
    plain().lsb_shift_left(0x812E, &mut r);
    assert_eq!((v(&r, 1), v(&r, 0xF)), (0xFE, 1));
    let mut r = regs(&[(1, 0x7F)]);
    plain().lsb_shift_left(0x812E, &mut r);
    assert_eq!((v(&r, 1), v(&r, 0xF)), (0xFE, 0));
}

#[test]
fn shift_left_from_vy_under_the_quirk() {
    let mut r = regs(&[(1, 0b1000_0101), (2, 0b0000_1111)]);
    quirky().lsb_shift_left(0x812E, &mut r);
    assert_eq!((v(&r, 1), v(&r, 2), v(&r, 0xF)), (0b0001_1110, 0b0000_1111, 0));
}

#[test]
fn shifts_for_all_bytes() {
    for a in 0..=255u16 {
        let mut r = regs(&[(1, a as u8)]);
        plain().lsb_shift_right(0x8106, &mut r);
        assert_eq!((v(&r, 1) as u16, v(&r, 0xF) as u16), (a / 2, a % 2));
        let mut r = regs(&[(1, a as u8)]);
        plain().lsb_shift_left(0x810E, &mut r);
        assert_eq!((v(&r, 1) as u16, v(&r, 0xF) as u16), ((a * 2) % 256, a / 128));
    }
}

#[test]
fn set_address_register() {
    let mut r = regs(&[]);
    plain().jmp_I(0xA123, &mut r);
    assert_eq!(r.read_I(), 0x123);
    plain().jmp_I(0xAFFF, &mut r);
    assert_eq!(r.read_I(), 0xFFF);
    assert_eq!(r.pc(), 0x200);
}

#[test]
fn jump_with_offset_adds_v0() {
    let mut r = regs(&[(0, 0x10), (3, 0x80)]);
    plain().jmp_offset(0xB300, &mut r);
    assert_eq!(r.pc(), 0x310);
    let mut r = regs(&[(0, 0xFF)]);
    plain().jmp_offset(0xBFFF, &mut r);
    assert_eq!(r.pc(), (0xFFF + 0xFF) & 0xFFF);
    assert_eq!(r.pc(), 0x0FE);
}

#[test]
fn jump_with_offset_adds_vx_under_the_quirk() {
    let mut r = regs(&[(0, 0x10), (3, 0x80)]);
    quirky().jmp_offset(0xB300, &mut r);
    assert_eq!(r.pc(), 0x380);
}

#[test]
fn random_masks_the_hosts_byte() {
    let mut r = regs(&[(4, 0x11)]);
    assert_eq!(plain().rand_reg(0xC40F, &mut r, Reply::Nothing), Status::NeedRandom);
    assert_eq!(v(&r, 4), 0x11);
    assert_eq!(plain().rand_reg(0xC40F, &mut r, Reply::KeyPress(3)), Status::NeedRandom);
    assert_eq!(v(&r, 4), 0x11);
    assert_eq!(plain().rand_reg(0xC40F, &mut r, Reply::Random(0xA7)), Status::Next);
    assert_eq!(v(&r, 4), 0x07);
    assert_eq!(plain().rand_reg(0xC4F0, &mut r, Reply::Random(0xA7)), Status::Next);
    assert_eq!(v(&r, 4), 0xA0);
    assert_eq!(plain().rand_reg(0xC400, &mut r, Reply::Random(0xFF)), Status::Next);
    assert_eq!(v(&r, 4), 0x00);
    assert_eq!(plain().rand_reg(0xC4FF, &mut r, Reply::Random(0xC3)), Status::Next);
    assert_eq!(v(&r, 4), 0xC3);
}

#[test]
fn draw_hands_out_the_sprite_and_takes_the_collision_bit() {
    let mut m = Memory::new();
    assert_eq!(m.load(vec![0xF0, 0x90, 0x90, 0x90, 0xF0], 0x050), Ok(()));
    let mut r = regs(&[(1, 10), (2, 20), (0xF, 7)]);
    r.write_I(0x050);
    let ops = plain();
    assert_eq!(
        ops.draw_sprite(0xD125, &m, &mut r, Reply::Nothing),
        Ok(Status::NeedDraw { x: 10, y: 20, sprite: vec![0xF0, 0x90, 0x90, 0x90, 0xF0] })
    );
    assert_eq!(v(&r, 0xF), 7);
    assert_eq!(
        ops.draw_sprite(0xD123, &m, &mut r, Reply::Random(1)),
        Ok(Status::NeedDraw { x: 10, y: 20, sprite: vec![0xF0, 0x90, 0x90] })
    );
    assert_eq!(ops.draw_sprite(0xD125, &m, &mut r, Reply::Collision(true)), Ok(Status::Next));
    assert_eq!(v(&r, 0xF), 1);
    assert_eq!(ops.draw_sprite(0xD125, &m, &mut r, Reply::Collision(false)), Ok(Status::Next));
    assert_eq!(v(&r, 0xF), 0);
    assert_eq!((v(&r, 1), v(&r, 2), r.read_I()), (10, 20, 0x050));
}

#[test]
fn draw_of_no_rows_reads_nothing() {
    let m = Memory::new();
    let mut r = regs(&[(1, 1), (2, 2)]);
    r.write_I(0xFFF);
    assert_eq!(
        plain().draw_sprite(0xD120, &m, &mut r, Reply::Nothing),
        Ok(Status::NeedDraw { x: 1, y: 2, sprite: Vec::new() })
    );
}

#[test]
fn draw_past_the_end_of_memory_is_out_of_bounds() {
    let m = Memory::new();
    let mut r = regs(&[(0xF, 9)]);
    r.write_I(0xFFE);
    assert_eq!(
        plain().draw_sprite(0xD122, &m, &mut r, Reply::Nothing),
        Ok(Status::NeedDraw { x: 0, y: 0, sprite: vec![0, 0] })
    );
    assert_eq!(plain().draw_sprite(0xD123, &m, &mut r, Reply::Nothing), Err(Chip8Error::OutOfBounds));
    assert_eq!(
        plain().draw_sprite(0xD123, &m, &mut r, Reply::Collision(true)),
        Err(Chip8Error::OutOfBounds)
    );
    assert_eq!(v(&r, 0xF), 9);
}

#[test]
fn skip_if_key_is_down() {
    let r = regs(&[(5, 0xA), (6, 0x3C)]);
    let ops = plain();
    assert_eq!(ops.stored_key_pressed(0xE59E, &r, Reply::Nothing), Status::NeedKeyState { key: 0xA });
    assert_eq!(ops.stored_key_pressed(0xE69E, &r, Reply::Nothing), Status::NeedKeyState { key: 0xC });
    assert_eq!(ops.stored_key_pressed(0xE59E, &r, Reply::KeyPress(0xA)), Status::NeedKeyState { key: 0xA });
    assert_eq!(ops.stored_key_pressed(0xE59E, &r, Reply::KeyState(true)), Status::Skip);
    assert_eq!(ops.stored_key_pressed(0xE59E, &r, Reply::KeyState(false)), Status::Next);
}

#[test]
fn skip_if_key_is_up() {
    let r = regs(&[(5, 0xA), (6, 0xFF)]);
    let ops = plain();
    assert_eq!(ops.stored_key_notpressed(0xE5A1, &r, Reply::Nothing), Status::NeedKeyState { key: 0xA });
    assert_eq!(ops.stored_key_notpressed(0xE6A1, &r, Reply::Nothing), Status::NeedKeyState { key: 0xF });
    assert_eq!(ops.stored_key_notpressed(0xE5A1, &r, Reply::KeyState(true)), Status::Next);
    assert_eq!(ops.stored_key_notpressed(0xE5A1, &r, Reply::KeyState(false)), Status::Skip);
}

#[test]
fn delay_counter_is_read_and_set() {
    let mut r = regs(&[(3, 60)]);
    Operations::set_delay_timer(0xF315, &mut r);
    assert_eq!(r.read_delay(), 60);
    assert_eq!(r.read_sound(), 0);
    plain().get_delay(0xF407, &mut r);
    assert_eq!(v(&r, 4), 60);
    r.tick_timers();
    plain().get_delay(0xF407, &mut r);
    assert_eq!(v(&r, 4), 59);
}

#[test]
fn sound_counter_is_set() {
    let mut r = regs(&[(3, 9)]);
    Operations::set_sound_timer(0xF318, &mut r);
    assert_eq!(r.read_sound(), 9);
    assert_eq!(r.read_delay(), 0);
}

#[test]
fn await_press_waits_until_a_key_is_reported() {
    let mut r = regs(&[(2, 0x33)]);
    assert_eq!(Operations::await_press(0xF20A, &mut r, Reply::Nothing), Status::WaitingForKey);
    assert_eq!(Operations::await_press(0xF20A, &mut r, Reply::KeyState(true)), Status::WaitingForKey);
    assert_eq!(Operations::await_press(0xF20A, &mut r, Reply::KeyPress(16)), Status::WaitingForKey);
    assert_eq!(Operations::await_press(0xF20A, &mut r, Reply::KeyPress(255)), Status::WaitingForKey);
    assert_eq!(v(&r, 2), 0x33);
    assert_eq!(Operations::await_press(0xF20A, &mut r, Reply::KeyPress(0xB)), Status::Next);
    assert_eq!(v(&r, 2), 0xB);
    assert_eq!(Operations::await_press(0xF20A, &mut r, Reply::KeyPress(0)), Status::Next);
    assert_eq!(v(&r, 2), 0);
    assert_eq!(Operations::await_press(0xF20A, &mut r, Reply::KeyPress(15)), Status::Next);
    assert_eq!(v(&r, 2), 15);
}

#[test]
fn add_to_address_register() {
    let mut r = regs(&[(1, 0x10), (0xF, 7)]);
    r.write_I(0x100);
    plain().reg_add_I(0xF11E, &mut r);
    assert_eq!(r.read_I(), 0x110);
    assert_eq!(v(&r, 0xF), 7);
    r.write_I(0xFFF);
    plain().reg_add_I(0xF11E, &mut r);
    assert_eq!(r.read_I(), 0x00F);
    assert_eq!(v(&r, 0xF), 7);
}

#[test]
fn add_to_address_register_sets_the_flag_under_the_quirk() {
    let mut r = regs(&[(1, 0x10), (0xF, 7)]);
    r.write_I(0x100);
    quirky().reg_add_I(0xF11E, &mut r);
    assert_eq!((r.read_I(), v(&r, 0xF)), (0x110, 0));
    r.write_I(0xFF0);
    quirky().reg_add_I(0xF11E, &mut r);
    assert_eq!((r.read_I(), v(&r, 0xF)), (0x000, 1));
    r.write_I(0xFEF);
    quirky().reg_add_I(0xF11E, &mut r);
    assert_eq!((r.read_I(), v(&r, 0xF)), (0xFFF, 0));
}

#[test]
fn glyph_address() {
    let mut r = regs(&[(1, 0), (2, 1), (3, 0xF), (4, 0xFF)]);
    Operations::set_I_sprite_reg(0xF129, 0x050, &mut r);
    assert_eq!(r.read_I(), 0x050);
    Operations::set_I_sprite_reg(0xF229, 0x050, &mut r);
    assert_eq!(r.read_I(), 0x055);
    Operations::set_I_sprite_reg(0xF329, 0x050, &mut r);
    assert_eq!(r.read_I(), 0x050 + 75);
    Operations::set_I_sprite_reg(0xF429, 0x050, &mut r);
    assert_eq!(r.read_I(), 0x050 + 1275);
    Operations::set_I_sprite_reg(0xF429, 0xFFFF, &mut r);
    assert_eq!(r.read_I() as u32, (0xFFFFu32 + 1275) % 4096);
    Operations::set_I_sprite_reg(0xF329, 0x0FFF, &mut r);
    assert_eq!(r.read_I(), (0x0FFF + 75) % 4096);
}

#[test]
fn decimal_digits_are_stored_at_i() {
    let mut m = Memory::new();
    let mut r = regs(&[(1, 234), (2, 7), (3, 0), (4, 255), (5, 100)]);
    r.write_I(0x300);
    assert_eq!(Operations::store_bcd_at_I(0xF133, &mut m, &r), Ok(()));
    assert_eq!(m.read_block(0x300, 3), Ok(vec![2, 3, 4]));
    assert_eq!(Operations::store_bcd_at_I(0xF233, &mut m, &r), Ok(()));
    assert_eq!(m.read_block(0x300, 3), Ok(vec![0, 0, 7]));
    assert_eq!(Operations::store_bcd_at_I(0xF433, &mut m, &r), Ok(()));
    assert_eq!(m.read_block(0x300, 3), Ok(vec![2, 5, 5]));
    assert_eq!(Operations::store_bcd_at_I(0xF533, &mut m, &r), Ok(()));
    assert_eq!(m.read_block(0x300, 3), Ok(vec![1, 0, 0]));
    assert_eq!(Operations::store_bcd_at_I(0xF333, &mut m, &r), Ok(()));
    assert_eq!(m.read_block(0x2FF, 5), Ok(vec![0, 0, 0, 0, 0]));
    assert_eq!(r.read_I(), 0x300);
}

#[test]
fn decimal_digits_past_the_end_of_memory_are_refused() {
    let mut m = Memory::new();
    let mut r = regs(&[(1, 234)]);
    r.write_I(0xFFD);
    assert_eq!(Operations::store_bcd_at_I(0xF133, &mut m, &r), Ok(()));
    assert_eq!(m.read_block(0xFFD, 3), Ok(vec![2, 3, 4]));
    let mut m = Memory::new();
    r.write_I(0xFFE);
    assert_eq!(Operations::store_bcd_at_I(0xF133, &mut m, &r), Err(Chip8Error::OutOfBounds));
    assert_eq!(m.read_block(0xFFE, 2), Ok(vec![0, 0]));
}

#[test]
fn registers_are_stored_up_to_vx() {
    let mut m = Memory::new();
    let mut r = regs(&[(0, 10), (1, 11), (2, 12), (3, 13)]);
    r.write_I(0x400);
    assert_eq!(Operations::write_reg_mem(0xF255, &mut m, &r), Ok(()));
    assert_eq!(m.read_block(0x400, 4), Ok(vec![10, 11, 12, 0]));
    assert_eq!(r.read_I(), 0x400);
    let mut m = Memory::new();
    assert_eq!(Operations::write_reg_mem(0xF055, &mut m, &r), Ok(()));
    assert_eq!(m.read_block(0x400, 2), Ok(vec![10, 0]));
    let mut m = Memory::new();
    let mut all = Registers::new(0);
    for x in 0..16usize {
        assert_eq!(all.write_register(x, 0xA0 + x as u8), Ok(()));
    }
    all.write_I(0xFF0);
    assert_eq!(Operations::write_reg_mem(0xFF55, &mut m, &all), Ok(()));
    assert_eq!(m.read_block(0xFF0, 16), Ok((0..16).map(|x| 0xA0 + x as u8).collect::<Vec<u8>>()));
}

#[test]
fn registers_stored_past_the_end_of_memory_are_refused() {
    let mut m = Memory::new();
    let mut r = regs(&[(0, 10), (1, 11), (2, 12), (3, 13)]);
    r.write_I(0xFFE);
    assert_eq!(Operations::write_reg_mem(0xF155, &mut m, &r), Ok(()));
    let mut m = Memory::new();
    assert_eq!(Operations::write_reg_mem(0xF255, &mut m, &r), Err(Chip8Error::OutOfBounds));
    assert_eq!(m.read_block(0xFFE, 2), Ok(vec![0, 0]));
}

#[test]
fn registers_are_loaded_up_to_vx() {
    let mut m = Memory::new();
    assert_eq!(m.load(vec![1, 2, 3, 4, 5], 0x500), Ok(()));
    let mut r = regs(&[(0, 90), (1, 91), (2, 92), (3, 93), (0xF, 99)]);
    r.write_I(0x500);
    assert_eq!(Operations::read_reg_mem(0xF265, &m, &mut r), Ok(()));
    assert_eq!(all_v(&r), vec![1, 2, 3, 93, 0, 0, 0, 0, 0, 0, 0, 0, 0, 0, 0, 99]);
    assert_eq!(r.read_I(), 0x500);
    assert_eq!(Operations::read_reg_mem(0xF065, &m, &mut r), Ok(()));
    assert_eq!(v(&r, 0), 1);
    r.write_I(0x4FF);
    assert_eq!(Operations::read_reg_mem(0xFF65, &m, &mut r), Ok(()));
    assert_eq!(all_v(&r), vec![0, 1, 2, 3, 4, 5, 0, 0, 0, 0, 0, 0, 0, 0, 0, 0]);
}

#[test]
fn registers_loaded_past_the_end_of_memory_are_refused() {
    let mut m = Memory::new();
    assert_eq!(m.load(vec![1, 2], 0xFFE), Ok(()));
    let mut r = regs(&[(0, 90), (1, 91), (2, 92)]);
    r.write_I(0xFFE);
    assert_eq!(Operations::read_reg_mem(0xF265, &m, &mut r), Err(Chip8Error::OutOfBounds));
    assert_eq!((v(&r, 0), v(&r, 1), v(&r, 2)), (90, 91, 92));
    assert_eq!(Operations::read_reg_mem(0xF165, &m, &mut r), Ok(()));
    assert_eq!((v(&r, 0), v(&r, 1), v(&r, 2)), (1, 2, 92));
}

#[test]
fn store_then_load_gives_the_registers_back() {
    let mut m = Memory::new();
    let mut r = Registers::new(0);
    for x in 0..16usize {
        assert_eq!(r.write_register(x, (x * x) as u8), Ok(()));
    }
    r.write_I(0x600);
    assert_eq!(Operations::write_reg_mem(0xFF55, &mut m, &r), Ok(()));
    let mut fresh = Registers::new(0);
    fresh.write_I(0x600);
    assert_eq!(Operations::read_reg_mem(0xFF65, &m, &mut fresh), Ok(()));
    assert_eq!(all_v(&fresh), all_v(&r));
}

#[test]
fn add_then_subtract_gives_the_first_value_back() {
    let ops = plain();
    for a in 0..=255u16 {
        for b in [0u16, 1, 2, 127, 128, 200, 254, 255] {
            let mut r = regs(&[(2, a as u8), (9, b as u8)]);
            ops.reg_add_reg(0x8294, &mut r);
            ops.regx_sub_regy(0x8295, &mut r);
            assert_eq!(v(&r, 2), a as u8);
            assert_eq!(v(&r, 9), b as u8);
            assert_eq!(v(&r, 0xF), if a + b > 255 { 0 } else { 1 });
        }
    }
}

use crab8::cpu::CPU;
use crab8::display::Display;
use crab8::opcode::Opcode;

fn cpu_with_op(op: u16) -> CPU {
    let mut cpu = CPU::new();
    cpu.pc = 0x200;
    cpu.opcode = Opcode::new(op);
    cpu
}

#[test]
fn add_sets_carry_flag_exactly_on_overflow() {
    // 200 + 100 overflows a byte: result is (300 mod 256), flag is 1.
    let mut cpu = cpu_with_op(0x8014);
    cpu.regs[0] = 200;
    cpu.regs[1] = 100;
    cpu.vx_add_vy();
    assert_eq!(cpu.regs[0], 44);
    assert_eq!(cpu.regs[15], 1);
    assert_eq!(cpu.pc, 0x202);

    // 1 + 2 does not overflow: flag is 0.
    let mut cpu = cpu_with_op(0x8014);
    cpu.regs[0] = 1;
    cpu.regs[1] = 2;
    cpu.vx_add_vy();
    assert_eq!(cpu.regs[0], 3);
    assert_eq!(cpu.regs[15], 0);

    // 255 + 1 is the boundary: exactly 256 > 255.
    let mut cpu = cpu_with_op(0x8014);
    cpu.regs[0] = 255;
    cpu.regs[1] = 1;
    cpu.vx_add_vy();
    assert_eq!(cpu.regs[0], 0);
    assert_eq!(cpu.regs[15], 1);
}

#[test]
fn sub_sets_flag_exactly_when_no_borrow() {
    // Vx - Vy with Vx >= Vy: no borrow, flag 1.
    let mut cpu = cpu_with_op(0x8015);
    cpu.regs[0] = 7;
    cpu.regs[1] = 5;
    cpu.vx_sub_vy();
    assert_eq!(cpu.regs[0], 2);
    assert_eq!(cpu.regs[15], 1);

    // Vx - Vy with Vx < Vy: borrow, flag 0, result modulo 256.
    let mut cpu = cpu_with_op(0x8015);
    cpu.regs[0] = 5;
    cpu.regs[1] = 7;
    cpu.vx_sub_vy();
    assert_eq!(cpu.regs[0], 254);
    assert_eq!(cpu.regs[15], 0);

    // Equal operands: no borrow.
    let mut cpu = cpu_with_op(0x8015);
    cpu.regs[0] = 9;
    cpu.regs[1] = 9;
    cpu.vx_sub_vy();
    assert_eq!(cpu.regs[0], 0);
    assert_eq!(cpu.regs[15], 1);
}

#[test]
fn reverse_sub_uses_same_flag_convention() {
    // Vy - Vx with Vy >= Vx: no borrow, flag 1.
    let mut cpu = cpu_with_op(0x8017);
    cpu.regs[0] = 5;
    cpu.regs[1] = 7;
    cpu.vy_sub_vx();
    assert_eq!(cpu.regs[0], 2);
    assert_eq!(cpu.regs[15], 1);

    // Vy - Vx with Vy < Vx: borrow, flag 0.
    let mut cpu = cpu_with_op(0x8017);
    cpu.regs[0] = 7;
    cpu.regs[1] = 5;
    cpu.vy_sub_vx();
    assert_eq!(cpu.regs[0], 254);
    assert_eq!(cpu.regs[15], 0);
}

#[test]
fn shift_right_reports_bit_shifted_out() {
    let mut cpu = cpu_with_op(0x8016);
    cpu.regs[0] = 0b1010_0101;
    cpu.vx_shr();
    assert_eq!(cpu.regs[0], 0b0101_0010);
    assert_eq!(cpu.regs[15], 1);

    let mut cpu = cpu_with_op(0x8016);
    cpu.regs[0] = 0b1010_0100;
    cpu.vx_shr();
    assert_eq!(cpu.regs[0], 0b0101_0010);
    assert_eq!(cpu.regs[15], 0);
}

#[test]
fn shift_left_reports_bit_shifted_out() {
    let mut cpu = cpu_with_op(0x801E);
    cpu.regs[0] = 0b1010_0101;
    cpu.vx_shl();
    assert_eq!(cpu.regs[0], 0b0100_1010);
    assert_eq!(cpu.regs[15], 1);

    let mut cpu = cpu_with_op(0x801E);
    cpu.regs[0] = 0b0010_0101;
    cpu.vx_shl();
    assert_eq!(cpu.regs[0], 0b0100_1010);
    assert_eq!(cpu.regs[15], 0);
}

#[test]
fn shift_quirk_reads_source_from_vy() {
    let mut cpu = cpu_with_op(0x8016);
    cpu.quirks.shift_reads_vy = true;
    cpu.regs[0] = 0xFF;
    cpu.regs[1] = 0b0000_0110;
    cpu.vx_shr();
    assert_eq!(cpu.regs[0], 0b0000_0011);
    assert_eq!(cpu.regs[15], 0);

    let mut cpu = cpu_with_op(0x801E);
    cpu.quirks.shift_reads_vy = true;
    cpu.regs[0] = 0xFF;
    cpu.regs[1] = 0b1000_0001;
    cpu.vx_shl();
    assert_eq!(cpu.regs[0], 0b0000_0010);
    assert_eq!(cpu.regs[15], 1);
}

#[test]
fn bitwise_and_or_xor_and_mov() {
    let mut cpu = cpu_with_op(0x8010);
    cpu.regs[0] = 1;
    cpu.regs[1] = 0xAB;
    cpu.vy_to_vx();
    assert_eq!(cpu.regs[0], 0xAB);

    let mut cpu = cpu_with_op(0x8011);
    cpu.regs[0] = 0b1100;
    cpu.regs[1] = 0b1010;
    cpu.vx_or_vy();
    assert_eq!(cpu.regs[0], 0b1110);

    let mut cpu = cpu_with_op(0x8012);
    cpu.regs[0] = 0b1100;
    cpu.regs[1] = 0b1010;
    cpu.vx_and_vy();
    assert_eq!(cpu.regs[0], 0b1000);

    let mut cpu = cpu_with_op(0x8013);
    cpu.regs[0] = 0b1100;
    cpu.regs[1] = 0b1010;
    cpu.vx_xor_vy();
    assert_eq!(cpu.regs[0], 0b0110);
}

#[test]
fn immediate_add_wraps_without_touching_flag() {
    let mut cpu = cpu_with_op(0x70FF);
    cpu.regs[0] = 2;
    cpu.regs[15] = 9;
    cpu.add_value_to_vx();
    assert_eq!(cpu.regs[0], 1);
    assert_eq!(cpu.regs[15], 9);
}

#[test]
fn bcd_writes_decimal_digits() {
    let mut cpu = cpu_with_op(0xF733);
    cpu.regs[7] = 137;
    cpu.i_reg = 0x300;
    cpu.vx_decimal_to_ireg();
    assert_eq!(cpu.memory[0x300], 1);
    assert_eq!(cpu.memory[0x301], 3);
    assert_eq!(cpu.memory[0x302], 7);
    assert_eq!(cpu.pc, 0x202);
}

#[test]
fn register_block_transfer_roundtrip() {
    let mut cpu = cpu_with_op(0xF355);
    for k in 0..4 {
        cpu.regs[k] = 10 + k as u8;
    }
    cpu.regs[4] = 99;
    cpu.i_reg = 0x400;
    cpu.store_regs_in_memory();
    assert_eq!(&cpu.memory[0x400..0x404], &[10, 11, 12, 13]);
    // Register 4 is beyond x = 3 and must not be stored.
    assert_eq!(cpu.memory[0x404], 0);
    // The index register stays put without the transfer quirk.
    assert_eq!(cpu.i_reg, 0x400);

    let mut cpu2 = cpu_with_op(0xF365);
    cpu2.memory[0x400..0x404].copy_from_slice(&[10, 11, 12, 13]);
    cpu2.regs[4] = 99;
    cpu2.i_reg = 0x400;
    cpu2.store_memory_in_regs();
    assert_eq!(&cpu2.regs[0..4], &[10, 11, 12, 13]);
    // Register 4 is beyond x = 3 and must keep its value.
    assert_eq!(cpu2.regs[4], 99);
    assert_eq!(cpu2.i_reg, 0x400);
}

#[test]
fn transfer_quirk_advances_index_register() {
    let mut cpu = cpu_with_op(0xF255);
    cpu.quirks.transfer_moves_index = true;
    cpu.i_reg = 0x400;
    cpu.store_regs_in_memory();
    assert_eq!(cpu.i_reg, 0x403);

    let mut cpu = cpu_with_op(0xF265);
    cpu.quirks.transfer_moves_index = true;
    cpu.i_reg = 0x400;
    cpu.store_memory_in_regs();
    assert_eq!(cpu.i_reg, 0x403);
}

#[test]
fn draw_twice_restores_framebuffer_and_collides() {
    let mut cpu = cpu_with_op(0xD012);
    let mut display = Display::new();
    cpu.memory[0x300] = 0b1100_0000;
    cpu.memory[0x301] = 0b0100_0000;
    cpu.i_reg = 0x300;
    cpu.regs[0] = 3;
    cpu.regs[1] = 5;

    cpu.draw_sprite(&mut display);
    assert_eq!(display.memory[5 * 64 + 3], 1);
    assert_eq!(display.memory[5 * 64 + 4], 1);
    assert_eq!(display.memory[6 * 64 + 4], 1);
    assert_eq!(display.memory[6 * 64 + 3], 0);
    // The framebuffer was blank: no collision on the first draw.
    assert_eq!(cpu.regs[15], 0);

    // Drawing the same sprite again erases it and reports a collision.
    cpu.draw_sprite(&mut display);
    for p in 0..2048 {
        assert_eq!(display.memory[p], 0);
    }
    assert_eq!(cpu.regs[15], 1);
}

#[test]
fn draw_clips_at_display_edges_by_default() {
    let mut cpu = cpu_with_op(0xD011);
    let mut display = Display::new();
    cpu.memory[0x300] = 0xFF;
    cpu.i_reg = 0x300;
    cpu.regs[0] = 60;
    cpu.regs[1] = 31;
    cpu.draw_sprite(&mut display);
    // Columns 60..63 of the last row light up; the rest is clipped.
    for x in 60..64 {
        assert_eq!(display.memory[31 * 64 + x], 1);
    }
    // Nothing bleeds into the start of the row or anywhere else.
    assert_eq!(display.memory[31 * 64], 0);
    let lit: usize = display.memory.iter().map(|&b| b as usize).sum();
    assert_eq!(lit, 4);
}

#[test]
fn draw_wrap_quirk_wraps_coordinates() {
    let mut cpu = cpu_with_op(0xD011);
    cpu.quirks.sprite_wrap = true;
    let mut display = Display::new();
    cpu.memory[0x300] = 0xFF;
    cpu.i_reg = 0x300;
    cpu.regs[0] = 60;
    cpu.regs[1] = 33;
    cpu.draw_sprite(&mut display);
    // Row 33 wraps to row 1; columns 64..67 wrap to 0..3.
    for x in 60..64 {
        assert_eq!(display.memory[1 * 64 + x], 1);
    }
    for x in 0..4 {
        assert_eq!(display.memory[1 * 64 + x], 1);
    }
    let lit: usize = display.memory.iter().map(|&b| b as usize).sum();
    assert_eq!(lit, 8);
}

#[test]
fn call_then_return_restores_pc() {
    let mut cpu = cpu_with_op(0x2300);
    cpu.pc = 0x250;
    cpu.call_at_addr();
    assert_eq!(cpu.pc, 0x300);
    assert_eq!(cpu.sp, 1);
    assert_eq!(cpu.stack[1], 0x252);
    cpu.return_from_subroutine();
    assert_eq!(cpu.pc, 0x252);
    assert_eq!(cpu.sp, 0);
}

#[test]
fn font_char_addr_is_five_bytes_per_glyph() {
    let mut cpu = cpu_with_op(0xF229);
    cpu.regs[2] = 0xB;
    cpu.set_font_char_addr();
    assert_eq!(cpu.i_reg, 0xB * 5);
}

#[test]
fn add_vx_to_index_register() {
    let mut cpu = cpu_with_op(0xF51E);
    cpu.regs[5] = 0x20;
    cpu.i_reg = 0x300;
    cpu.add_vx_to_i();
    assert_eq!(cpu.i_reg, 0x320);
}

#[test]
fn masked_random_stays_inside_mask() {
    // A zero mask pins the result completely: the instruction must
    // store zero whatever byte the generator produced.
    let mut cpu = cpu_with_op(0xC300);
    cpu.regs[3] = 0xAA;
    cpu.add_random_to_vx();
    assert_eq!(cpu.regs[3], 0);
    assert_eq!(cpu.pc, 0x202);

    // A partial mask bounds the result.
    let mut cpu = cpu_with_op(0xC30F);
    cpu.add_random_to_vx();
    assert!(cpu.regs[3] < 16);
}

#[test]
fn skips_step_by_four_or_two() {
    let mut cpu = cpu_with_op(0x3042);
    cpu.regs[0] = 0x42;
    cpu.skip_3xkk();
    assert_eq!(cpu.pc, 0x204);

    let mut cpu = cpu_with_op(0x3042);
    cpu.regs[0] = 0x41;
    cpu.skip_3xkk();
    assert_eq!(cpu.pc, 0x202);

    let mut cpu = cpu_with_op(0x4042);
    cpu.regs[0] = 0x41;
    cpu.skip_4xkk();
    assert_eq!(cpu.pc, 0x204);

    let mut cpu = cpu_with_op(0x5010);
    cpu.regs[0] = 9;
    cpu.regs[1] = 9;
    cpu.skip_5xy();
    assert_eq!(cpu.pc, 0x204);

    let mut cpu = cpu_with_op(0x9010);
    cpu.regs[0] = 9;
    cpu.regs[1] = 8;
    cpu.skip_9xy();
    assert_eq!(cpu.pc, 0x204);
}

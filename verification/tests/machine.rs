use crab8::computer::{Computer, Fault};

fn test_font() -> Vec<u8> {
    (0..80u8).map(|i| i.wrapping_mul(3).wrapping_add(1)).collect()
}

fn booted(rom: Vec<u8>) -> Computer {
    let mut c = Computer::new(test_font());
    c.reset();
    c.load_rom(rom);
    c
}

#[test]
fn end_to_end_set_add_jump() {
    // Set register 0 to 0x0A; add 0x05 to register 0; jump to self.
    let mut c = booted(vec![0x60, 0x0A, 0x70, 0x05, 0x12, 0x04]);
    for _ in 0..3 {
        assert_eq!(c.emulate_cycle(), Ok(()));
    }
    assert_eq!(c.cpu.regs[0], 0x0F);
    assert_eq!(c.cpu.pc, 0x204);
    // The jump-to-self holds the counter there indefinitely.
    for _ in 0..5 {
        assert_eq!(c.emulate_cycle(), Ok(()));
        assert_eq!(c.cpu.pc, 0x204);
        assert_eq!(c.cpu.regs[0], 0x0F);
    }
}

#[test]
fn bcd_of_255_yields_2_5_5() {
    // V0 = 255; I = 0x300; write the decimal digits of V0 at I.
    let mut c = booted(vec![0x60, 0xFF, 0xA3, 0x00, 0xF0, 0x33]);
    for _ in 0..3 {
        assert_eq!(c.emulate_cycle(), Ok(()));
    }
    assert_eq!(c.cpu.memory[0x300], 2);
    assert_eq!(c.cpu.memory[0x301], 5);
    assert_eq!(c.cpu.memory[0x302], 5);
}

#[test]
fn reset_restores_everything() {
    // Mutate memory, registers, framebuffer and timers, then reset.
    let mut c = booted(vec![
        0x60, 0x3C, // V0 = 60
        0x61, 0x05, // V1 = 5
        0xA3, 0x00, // I = 0x300
        0xF0, 0x33, // BCD of V0 at 0x300
        0xF0, 0x15, // delay timer = V0
        0xF0, 0x18, // sound timer = V0
        0xD0, 0x15, // draw a glyph-high sprite at (60, 5)
    ]);
    for _ in 0..7 {
        assert_eq!(c.emulate_cycle(), Ok(()));
    }
    assert!(c.should_redraw);
    assert_eq!(c.delay_timer, 60);
    assert_eq!(c.sound_timer, 60);

    c.reset();

    let font = test_font();
    for a in 0..80 {
        assert_eq!(c.cpu.memory[a], font[a]);
    }
    for a in 80..4096 {
        assert_eq!(c.cpu.memory[a], 0);
    }
    for k in 0..16 {
        assert_eq!(c.cpu.regs[k], 0);
        assert!(!c.keyboard[k]);
    }
    for s in 0..17 {
        assert_eq!(c.cpu.stack[s], 0);
    }
    assert_eq!(c.cpu.sp, 0);
    assert_eq!(c.cpu.i_reg, 0);
    assert_eq!(c.cpu.pc, 0x200);
    for p in 0..2048 {
        assert_eq!(c.display.memory[p], 0);
    }
    assert!(!c.waiting_key);
    assert!(!c.should_redraw);
    assert!(!c.should_clear_screen);
    assert_eq!(c.delay_timer, 0);
    assert_eq!(c.sound_timer, 0);
}

#[test]
fn sixteen_calls_fit_a_seventeenth_overflows() {
    // Seventeen call instructions, each calling the next address.
    let mut rom: Vec<u8> = Vec::new();
    for k in 0..17u16 {
        let target = 0x200 + 2 * (k + 1);
        rom.push(0x20 | (target >> 8) as u8);
        rom.push((target & 0xFF) as u8);
    }
    let mut c = booted(rom);
    for k in 0..16u16 {
        assert_eq!(c.emulate_cycle(), Ok(()));
        assert_eq!(c.cpu.sp, (k + 1) as usize);
        // Each call pushed the address of the instruction after it.
        assert_eq!(c.cpu.stack[(k + 1) as usize], 0x200 + 2 * k + 2);
    }
    assert_eq!(c.cpu.pc, 0x220);
    // The seventeenth nested call is a fatal stack overflow.
    assert_eq!(c.emulate_cycle(), Err(Fault::StackOverflow { addr: 0x220 }));
    // The fault did not advance the machine.
    assert_eq!(c.cpu.pc, 0x220);
    assert_eq!(c.cpu.sp, 16);
}

#[test]
fn call_then_return_lands_after_the_call() {
    let mut rom = vec![0x23, 0x00];
    rom.resize(0x100, 0);
    rom.push(0x00);
    rom.push(0xEE);
    let mut c = booted(rom);
    assert_eq!(c.emulate_cycle(), Ok(()));
    assert_eq!(c.cpu.pc, 0x300);
    assert_eq!(c.cpu.sp, 1);
    assert_eq!(c.emulate_cycle(), Ok(()));
    assert_eq!(c.cpu.pc, 0x202);
    assert_eq!(c.cpu.sp, 0);
}

#[test]
fn return_on_empty_stack_underflows() {
    let mut c = booted(vec![0x00, 0xEE]);
    assert_eq!(c.emulate_cycle(), Err(Fault::StackUnderflow { addr: 0x200 }));
    assert_eq!(c.cpu.pc, 0x200);
}

#[test]
fn unknown_opcodes_are_fatal_and_identified() {
    let mut c = booted(vec![0x00, 0x00]);
    assert_eq!(
        c.emulate_cycle(),
        Err(Fault::UnknownOpcode { opcode: 0x0000, addr: 0x200 })
    );

    let mut c = booted(vec![0x80, 0x18]);
    assert_eq!(
        c.emulate_cycle(),
        Err(Fault::UnknownOpcode { opcode: 0x8018, addr: 0x200 })
    );

    let mut c = booted(vec![0xE1, 0x00]);
    assert_eq!(
        c.emulate_cycle(),
        Err(Fault::UnknownOpcode { opcode: 0xE100, addr: 0x200 })
    );

    let mut c = booted(vec![0xF0, 0x99]);
    assert_eq!(
        c.emulate_cycle(),
        Err(Fault::UnknownOpcode { opcode: 0xF099, addr: 0x200 })
    );
}

#[test]
fn program_counter_leaving_memory_is_fatal() {
    let mut c = booted(vec![]);
    c.cpu.pc = 4095;
    assert_eq!(c.emulate_cycle(), Err(Fault::PcOutOfBounds { addr: 4095 }));
}

#[test]
fn indirect_accesses_past_memory_are_fatal() {
    // BCD at the last byte of memory needs two more cells.
    let mut c = booted(vec![0xF0, 0x33]);
    c.cpu.i_reg = 4094;
    assert_eq!(
        c.emulate_cycle(),
        Err(Fault::MemoryOutOfBounds { addr: 4094 })
    );

    // A sprite read past the end of memory.
    let mut c = booted(vec![0xD0, 0x15]);
    c.cpu.i_reg = 4092;
    assert_eq!(
        c.emulate_cycle(),
        Err(Fault::MemoryOutOfBounds { addr: 4092 })
    );

    // A block transfer of registers 0..=4 starting at 4092.
    let mut c = booted(vec![0xF4, 0x55]);
    c.cpu.i_reg = 4092;
    assert_eq!(
        c.emulate_cycle(),
        Err(Fault::MemoryOutOfBounds { addr: 4092 })
    );
}

#[test]
fn clear_screen_blanks_and_raises_flag() {
    // Draw something, then clear.
    let mut c = booted(vec![0xD0, 0x11, 0x00, 0xE0]);
    c.cpu.i_reg = 0; // the first font byte serves as the sprite row
    assert_eq!(c.emulate_cycle(), Ok(()));
    assert!(c.should_redraw);
    assert_eq!(c.emulate_cycle(), Ok(()));
    assert!(c.should_clear_screen);
    for p in 0..2048 {
        assert_eq!(c.display.memory[p], 0);
    }
    assert_eq!(c.cpu.pc, 0x204);
}

#[test]
fn key_skips_follow_keyboard_state() {
    // Ex9E skips when the key whose index is the value of Vx is down.
    let mut c = booted(vec![0xE1, 0x9E]);
    c.cpu.regs[1] = 0xB;
    c.set_key(0xB, true);
    assert_eq!(c.emulate_cycle(), Ok(()));
    assert_eq!(c.cpu.pc, 0x204);

    let mut c = booted(vec![0xE1, 0x9E]);
    c.cpu.regs[1] = 0xB;
    assert_eq!(c.emulate_cycle(), Ok(()));
    assert_eq!(c.cpu.pc, 0x202);

    // The key tested is named by the value of Vx, not by the register
    // selector: with key 0xB down and key 1 up, V1 = 0xB still skips.
    let mut c = booted(vec![0xE1, 0x9E]);
    c.cpu.regs[1] = 0xB;
    c.set_key(0xB, true);
    c.set_key(1, false);
    assert_eq!(c.emulate_cycle(), Ok(()));
    assert_eq!(c.cpu.pc, 0x204);

    // ExA1 skips when that key is up.
    let mut c = booted(vec![0xE1, 0xA1]);
    c.cpu.regs[1] = 0xB;
    assert_eq!(c.emulate_cycle(), Ok(()));
    assert_eq!(c.cpu.pc, 0x204);

    let mut c = booted(vec![0xE1, 0xA1]);
    c.cpu.regs[1] = 0xB;
    c.set_key(0xB, true);
    assert_eq!(c.emulate_cycle(), Ok(()));
    assert_eq!(c.cpu.pc, 0x202);
}

#[test]
fn key_skips_reduce_large_values_modulo_16() {
    // A value of Vx above 0xF names no key: its low nibble is tested.
    let mut c = booted(vec![0xE1, 0x9E]);
    c.cpu.regs[1] = 0x1B;
    c.set_key(0xB, true);
    assert_eq!(c.emulate_cycle(), Ok(()));
    assert_eq!(c.cpu.pc, 0x204);

    let mut c = booted(vec![0xE1, 0x9E]);
    c.cpu.regs[1] = 0x1B;
    assert_eq!(c.emulate_cycle(), Ok(()));
    assert_eq!(c.cpu.pc, 0x202);
}

#[test]
fn key_wait_suspends_until_a_press_resolves_it() {
    let mut c = booted(vec![0xF5, 0x0A]);
    assert_eq!(c.emulate_cycle(), Ok(()));
    assert!(c.waiting_key);
    // The counter stays on the waiting instruction.
    assert_eq!(c.cpu.pc, 0x200);

    c.register_keypress(0xB);
    assert!(!c.waiting_key);
    assert!(c.keyboard[0xB]);
    // The resolving key's index lands in the destination register and
    // the counter moves past the waiting instruction.
    assert_eq!(c.cpu.regs[5], 0xB);
    assert_eq!(c.cpu.pc, 0x202);
}

#[test]
fn keypress_without_wait_only_records_the_key() {
    let mut c = booted(vec![]);
    c.register_keypress(3);
    assert!(c.keyboard[3]);
    assert_eq!(c.cpu.pc, 0x200);
    assert_eq!(c.cpu.regs, vec![0; 16]);
}

#[test]
fn timers_read_write_and_tick() {
    // V0 = 9; delay = V0; sound = V0; V1 = delay.
    let mut c = booted(vec![0x60, 0x09, 0xF0, 0x15, 0xF0, 0x18, 0xF1, 0x07]);
    for _ in 0..4 {
        assert_eq!(c.emulate_cycle(), Ok(()));
    }
    assert_eq!(c.delay_timer, 9);
    assert_eq!(c.sound_timer, 9);
    assert_eq!(c.cpu.regs[1], 9);
    assert_eq!(c.cpu.pc, 0x208);

    // Ticks decrement toward zero and saturate there.
    for _ in 0..12 {
        c.tick_timers();
    }
    assert_eq!(c.delay_timer, 0);
    assert_eq!(c.sound_timer, 0);
}

#[test]
fn index_register_and_offset_jump() {
    // I = 0x2EE; V0 = 4; jump to 0x300 + V0.
    let mut c = booted(vec![0xA2, 0xEE, 0x60, 0x04, 0xB3, 0x00]);
    for _ in 0..3 {
        assert_eq!(c.emulate_cycle(), Ok(()));
    }
    assert_eq!(c.cpu.i_reg, 0x2EE);
    assert_eq!(c.cpu.pc, 0x304);
}

#[test]
fn font_glyph_sprite_draws_from_low_memory() {
    // V0 = 2; I = glyph 2's address; draw its five rows at (0, 0).
    let mut c = booted(vec![0x60, 0x02, 0xF0, 0x29, 0xD1, 0x15]);
    for _ in 0..3 {
        assert_eq!(c.emulate_cycle(), Ok(()));
    }
    assert_eq!(c.cpu.i_reg, 10);
    let font = test_font();
    // The top-left pixel mirrors the high bit of the glyph's first row.
    let expected = (font[10] >> 7) & 1;
    assert_eq!(c.display.memory[0], expected);
    assert!(c.should_redraw);
}

#[test]
fn load_rom_copies_verbatim_at_program_start() {
    let mut c = Computer::new(test_font());
    c.reset();
    c.load_rom(vec![0xDE, 0xAD, 0xBE, 0xEF]);
    assert_eq!(c.cpu.memory[0x200], 0xDE);
    assert_eq!(c.cpu.memory[0x201], 0xAD);
    assert_eq!(c.cpu.memory[0x202], 0xBE);
    assert_eq!(c.cpu.memory[0x203], 0xEF);
    assert_eq!(c.cpu.memory[0x204], 0);
    assert_eq!(c.cpu.memory[0x1FF], 0);
}

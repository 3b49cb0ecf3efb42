//! The dispatcher: owns the CPU, framebuffer, keyboard state and timers;
//! fetches one opcode per cycle, decodes its class, invokes the matching
//! engine operation, and surfaces the observable side-effect flags.

use vstd::prelude::*;

use crate::cpu::{
    add_i_applied, add_imm_applied, add_applied, and_applied, bcd_applied, call_applied,
    draw_applied, font_addr_applied, jump_applied, jump_off_applied, load_regs_applied,
    mov_applied, only_opcode_changed, only_pc_changed, only_regs_pc_changed, or_applied,
    put_imm_applied, rand_applied,
    ret_applied, set_i_applied, shl_applied, shr_applied, skip_eq_imm_applied,
    skip_eq_reg_applied, skip_key_applied, skip_ne_imm_applied, skip_ne_reg_applied,
    store_regs_applied, store_vx_applied, sub_applied, rsb_applied, wrap16, xor_applied, Quirks,
    CPU, PROGRAM_START_ADDR,
};
use crate::display::Display;
use crate::opcode::{op_class, op_n, op_nn, op_x, word_of};
use crate::util::cleared_flags;

verus! {

/// An unrecoverable condition that stops forward execution.
#[derive(Clone, Copy, PartialEq, Eq, Structural, Debug)]
pub enum Fault {
    /// The instruction word fetched at `addr` has no known decoding.
    UnknownOpcode { opcode: u16, addr: u16 },
    /// A call at `addr` would exceed sixteen nested calls.
    StackOverflow { addr: u16 },
    /// A return at `addr` found the call stack empty.
    StackUnderflow { addr: u16 },
    /// The program counter left addressable memory.
    PcOutOfBounds { addr: u16 },
    /// An indirect access through the index register, holding `addr`,
    /// would leave addressable memory.
    MemoryOutOfBounds { addr: u16 },
}

/// The dispatcher's state: the engine plus everything it orchestrates.
pub struct Computer {
    pub cpu: CPU,
    /// The framebuffer, mutated only by sprite draws and clears.
    pub display: Display,
    /// One key-down flag per key 0x0 through 0xF, owned externally.
    pub keyboard: Vec<bool>,
    /// Set when a key-wait instruction suspends forward progress.
    pub waiting_key: bool,
    /// Set when a cycle changed the framebuffer.
    pub should_redraw: bool,
    /// Set when a cycle cleared the screen.
    pub should_clear_screen: bool,
    /// Decremented externally at 60 Hz, read and written by instructions.
    pub delay_timer: u8,
    /// Decremented externally at 60 Hz, written by instructions.
    pub sound_timer: u8,
    /// The caller-supplied 80-byte glyph table, copied into low memory
    /// on reset.
    pub font: Vec<u8>,
}

/// The instruction word at the program counter, assembled big-endian.
pub open spec fn fetched_op(c: Computer) -> u16 {
    word_of(c.cpu.memory@[c.cpu.pc as int], c.cpu.memory@[c.cpu.pc + 1])
}

/// The fault, if any, that the next cycle of `c` must surface.
pub open spec fn cycle_fault_of(c: Computer) -> Option<Fault> {
    let pc = c.cpu.pc;
    if pc + 1 >= 4096 {
        Some(Fault::PcOutOfBounds { addr: pc })
    } else {
        let op = fetched_op(c);
        let cls = op_class(op);
        let nn = op_nn(op);
        let n = op_n(op);
        let x = op_x(op);
        let i = c.cpu.i_reg;
        if cls == 0x0000 {
            if nn == 0xE0 {
                None
            } else if nn == 0xEE {
                if c.cpu.sp == 0 {
                    Some(Fault::StackUnderflow { addr: pc })
                } else {
                    None
                }
            } else {
                Some(Fault::UnknownOpcode { opcode: op, addr: pc })
            }
        } else if cls == 0x2000 {
            if c.cpu.sp >= 16 {
                Some(Fault::StackOverflow { addr: pc })
            } else {
                None
            }
        } else if cls == 0x8000 {
            if n <= 7 || n == 0xE {
                None
            } else {
                Some(Fault::UnknownOpcode { opcode: op, addr: pc })
            }
        } else if cls == 0xD000 {
            if n > 0 && i + n > 4096 {
                Some(Fault::MemoryOutOfBounds { addr: i })
            } else {
                None
            }
        } else if cls == 0xE000 {
            if nn == 0x9E || nn == 0xA1 {
                None
            } else {
                Some(Fault::UnknownOpcode { opcode: op, addr: pc })
            }
        } else if cls == 0x1000 || cls == 0x3000 || cls == 0x4000 || cls == 0x5000 || cls == 0x6000
            || cls == 0x7000 || cls == 0x9000 || cls == 0xA000 || cls == 0xB000 || cls == 0xC000 {
            None
        } else {
            // 0xF000: the class bits admit no other value
            if nn == 0x07 || nn == 0x0A || nn == 0x15 || nn == 0x18 || nn == 0x1E || nn == 0x29 {
                None
            } else if nn == 0x33 {
                if i + 2 >= 4096 {
                    Some(Fault::MemoryOutOfBounds { addr: i })
                } else {
                    None
                }
            } else if nn == 0x55 || nn == 0x65 {
                if i + x >= 4096 {
                    Some(Fault::MemoryOutOfBounds { addr: i })
                } else {
                    None
                }
            } else {
                Some(Fault::UnknownOpcode { opcode: op, addr: pc })
            }
        }
    }
}

/// Everything the dispatcher owns besides the CPU is untouched.
pub open spec fn computer_frame(pre: Computer, post: Computer) -> bool {
    &&& post.display.memory@ == pre.display.memory@
    &&& post.keyboard@ == pre.keyboard@
    &&& post.waiting_key == pre.waiting_key
    &&& post.should_redraw == pre.should_redraw
    &&& post.should_clear_screen == pre.should_clear_screen
    &&& post.delay_timer == pre.delay_timer
    &&& post.sound_timer == pre.sound_timer
    &&& post.font@ == pre.font@
}

/// What one fault-free cycle does, for every instruction class.
pub open spec fn cycle_applied(pre: Computer, post: Computer) -> bool {
    let op = fetched_op(pre);
    let cls = op_class(op);
    let nn = op_nn(op);
    let n = op_n(op);
    &&& post.cpu.opcode.0 == op
    &&& if cls == 0x0000 {
        if nn == 0xE0 {
            // 00E0: blank the framebuffer and request a screen clear.
            &&& post.display.is_blank()
            &&& post.should_clear_screen == true
            &&& post.keyboard@ == pre.keyboard@
            &&& post.waiting_key == pre.waiting_key
            &&& post.should_redraw == pre.should_redraw
            &&& post.delay_timer == pre.delay_timer
            &&& post.sound_timer == pre.sound_timer
            &&& post.font@ == pre.font@
            &&& only_pc_changed(pre.cpu, post.cpu)
            &&& post.cpu.pc == wrap16(pre.cpu.pc + 2)
        } else {
            // 00EE
            &&& computer_frame(pre, post)
            &&& ret_applied(pre.cpu, post.cpu, op)
        }
    } else if cls == 0x1000 {
        &&& computer_frame(pre, post)
        &&& jump_applied(pre.cpu, post.cpu, op)
    } else if cls == 0x2000 {
        &&& computer_frame(pre, post)
        &&& call_applied(pre.cpu, post.cpu, op)
    } else if cls == 0x3000 {
        &&& computer_frame(pre, post)
        &&& skip_eq_imm_applied(pre.cpu, post.cpu, op)
    } else if cls == 0x4000 {
        &&& computer_frame(pre, post)
        &&& skip_ne_imm_applied(pre.cpu, post.cpu, op)
    } else if cls == 0x5000 {
        &&& computer_frame(pre, post)
        &&& skip_eq_reg_applied(pre.cpu, post.cpu, op)
    } else if cls == 0x6000 {
        &&& computer_frame(pre, post)
        &&& put_imm_applied(pre.cpu, post.cpu, op)
    } else if cls == 0x7000 {
        &&& computer_frame(pre, post)
        &&& add_imm_applied(pre.cpu, post.cpu, op)
    } else if cls == 0x8000 {
        &&& computer_frame(pre, post)
        &&& if n == 0 {
            mov_applied(pre.cpu, post.cpu, op)
        } else if n == 1 {
            or_applied(pre.cpu, post.cpu, op)
        } else if n == 2 {
            and_applied(pre.cpu, post.cpu, op)
        } else if n == 3 {
            xor_applied(pre.cpu, post.cpu, op)
        } else if n == 4 {
            add_applied(pre.cpu, post.cpu, op)
        } else if n == 5 {
            sub_applied(pre.cpu, post.cpu, op)
        } else if n == 6 {
            shr_applied(pre.cpu, post.cpu, op)
        } else if n == 7 {
            rsb_applied(pre.cpu, post.cpu, op)
        } else {
            shl_applied(pre.cpu, post.cpu, op)
        }
    } else if cls == 0x9000 {
        &&& computer_frame(pre, post)
        &&& skip_ne_reg_applied(pre.cpu, post.cpu, op)
    } else if cls == 0xA000 {
        &&& computer_frame(pre, post)
        &&& set_i_applied(pre.cpu, post.cpu, op)
    } else if cls == 0xB000 {
        &&& computer_frame(pre, post)
        &&& jump_off_applied(pre.cpu, post.cpu, op)
    } else if cls == 0xC000 {
        &&& computer_frame(pre, post)
        &&& exists|r: u8| rand_applied(pre.cpu, post.cpu, op, r)
    } else if cls == 0xD000 {
        // Dxyn: the sprite draw also requests a redraw.
        &&& post.keyboard@ == pre.keyboard@
        &&& post.waiting_key == pre.waiting_key
        &&& post.should_redraw == true
        &&& post.should_clear_screen == pre.should_clear_screen
        &&& post.delay_timer == pre.delay_timer
        &&& post.sound_timer == pre.sound_timer
        &&& post.font@ == pre.font@
        &&& draw_applied(pre.cpu, post.cpu, op, pre.display.memory@, post.display.memory@)
    } else if cls == 0xE000 {
        &&& computer_frame(pre, post)
        &&& skip_key_applied(pre.cpu, post.cpu, op, pre.keyboard@, nn == 0x9E)
    } else {
        // 0xF000
        if nn == 0x07 {
            // Fx07: read the delay timer into Vx.
            &&& computer_frame(pre, post)
            &&& store_vx_applied(pre.cpu, post.cpu, op, pre.delay_timer)
        } else if nn == 0x0A {
            // Fx0A: suspend until a key press resolves the wait; the
            // counter stays on this instruction.
            &&& post.display.memory@ == pre.display.memory@
            &&& post.keyboard@ == pre.keyboard@
            &&& post.waiting_key == true
            &&& post.should_redraw == pre.should_redraw
            &&& post.should_clear_screen == pre.should_clear_screen
            &&& post.delay_timer == pre.delay_timer
            &&& post.sound_timer == pre.sound_timer
            &&& post.font@ == pre.font@
            &&& only_opcode_changed(pre.cpu, post.cpu)
        } else if nn == 0x15 {
            // Fx15: load Vx into the delay timer.
            &&& post.display.memory@ == pre.display.memory@
            &&& post.keyboard@ == pre.keyboard@
            &&& post.waiting_key == pre.waiting_key
            &&& post.should_redraw == pre.should_redraw
            &&& post.should_clear_screen == pre.should_clear_screen
            &&& post.delay_timer == pre.cpu.regs@[op_x(op) as int]
            &&& post.sound_timer == pre.sound_timer
            &&& post.font@ == pre.font@
            &&& only_pc_changed(pre.cpu, post.cpu)
            &&& post.cpu.pc == wrap16(pre.cpu.pc + 2)
        } else if nn == 0x18 {
            // Fx18: load Vx into the sound timer.
            &&& post.display.memory@ == pre.display.memory@
            &&& post.keyboard@ == pre.keyboard@
            &&& post.waiting_key == pre.waiting_key
            &&& post.should_redraw == pre.should_redraw
            &&& post.should_clear_screen == pre.should_clear_screen
            &&& post.delay_timer == pre.delay_timer
            &&& post.sound_timer == pre.cpu.regs@[op_x(op) as int]
            &&& post.font@ == pre.font@
            &&& only_pc_changed(pre.cpu, post.cpu)
            &&& post.cpu.pc == wrap16(pre.cpu.pc + 2)
        } else if nn == 0x1E {
            &&& computer_frame(pre, post)
            &&& add_i_applied(pre.cpu, post.cpu, op)
        } else if nn == 0x29 {
            &&& computer_frame(pre, post)
            &&& font_addr_applied(pre.cpu, post.cpu, op)
        } else if nn == 0x33 {
            &&& computer_frame(pre, post)
            &&& bcd_applied(pre.cpu, post.cpu, op)
        } else if nn == 0x55 {
            &&& computer_frame(pre, post)
            &&& store_regs_applied(pre.cpu, post.cpu, op)
        } else {
            // 0x65
            &&& computer_frame(pre, post)
            &&& load_regs_applied(pre.cpu, post.cpu, op)
        }
    }
}

/// On a fault the machine is left as it was, except that the offending
/// instruction word may already have been latched.
pub open spec fn faulted_frame(pre: Computer, post: Computer) -> bool {
    &&& computer_frame(pre, post)
    &&& only_opcode_changed(pre.cpu, post.cpu)
}

/// Call depth is bounded by sixteen: a cycle whose fetched instruction
/// is a call never faults while the stack has room, and with sixteen
/// return addresses already outstanding — a seventeenth nested call —
/// it halts with a stack overflow, a resource-exhaustion fault distinct
/// from a decode failure.
pub proof fn lemma_call_depth_limit(c: Computer)
    requires
        c.wf(),
        c.cpu.pc + 1 < 4096,
        op_class(fetched_op(c)) == 0x2000,
    ensures
        c.cpu.sp < 16 ==> cycle_fault_of(c) is None,
        c.cpu.sp == 16 ==> cycle_fault_of(c) == Some(Fault::StackOverflow { addr: c.cpu.pc }),
{
}

/// The machine state right after a reset: everything zeroed, the counter
/// at the program start address, the supplied glyphs in low memory, and
/// the configured quirks kept.
pub open spec fn is_reset_state(c: Computer, font: Seq<u8>, quirks: Quirks) -> bool {
    &&& c.font@ == font
    &&& c.cpu.quirks == quirks
    &&& forall|a: int| 0 <= a < 80 ==> c.cpu.memory@[a] == font[a]
    &&& forall|a: int| 80 <= a < 4096 ==> c.cpu.memory@[a] == 0
    &&& forall|k: int| 0 <= k < 16 ==> c.cpu.regs@[k] == 0
    &&& forall|s: int| 0 <= s < 17 ==> c.cpu.stack@[s] == 0
    &&& c.cpu.sp == 0
    &&& c.cpu.i_reg == 0
    &&& c.cpu.pc == PROGRAM_START_ADDR
    &&& c.cpu.opcode.0 == 0
    &&& c.display.is_blank()
    &&& forall|k: int| 0 <= k < 16 ==> c.keyboard@[k] == false
    &&& !c.waiting_key
    &&& !c.should_redraw
    &&& !c.should_clear_screen
    &&& c.delay_timer == 0
    &&& c.sound_timer == 0
}

impl Computer {
    /// Every component has its fixed shape.
    pub open spec fn wf(self) -> bool {
        &&& self.cpu.wf()
        &&& self.display.wf()
        &&& self.keyboard@.len() == 16
        &&& self.font@.len() == 80
    }

    /// Build a machine around the caller-supplied 80-byte font glyph
    /// table. The machine still needs a `reset` before its first cycle.
    pub fn new(font: Vec<u8>) -> (c: Computer)
        requires
            font@.len() == 80,
        ensures
            c.wf(),
            c.font@ == font@,
            c.cpu.quirks == (Quirks {
                shift_reads_vy: false,
                transfer_moves_index: false,
                sprite_wrap: false,
            }),
            forall|a: int| 0 <= a < 4096 ==> c.cpu.memory@[a] == 0,
            forall|k: int| 0 <= k < 16 ==> c.cpu.regs@[k] == 0,
            forall|s: int| 0 <= s < 17 ==> c.cpu.stack@[s] == 0,
            c.cpu.i_reg == 0,
            c.cpu.pc == 0,
            c.cpu.sp == 0,
            c.cpu.opcode.0 == 0,
            c.display.is_blank(),
            forall|k: int| 0 <= k < 16 ==> c.keyboard@[k] == false,
            !c.waiting_key,
            !c.should_redraw,
            !c.should_clear_screen,
            c.delay_timer == 0,
            c.sound_timer == 0,
    {
        Computer {
            cpu: CPU::new(),
            display: Display::new(),
            keyboard: cleared_flags(16),
            waiting_key: false,
            should_redraw: false,
            should_clear_screen: false,
            delay_timer: 0,
            sound_timer: 0,
            font,
        }
    }

    /// Restore the machine to its start-of-run state: zero all memory
    /// outside the font region, all registers, the stack and both
    /// timers, blank the framebuffer, clear every flag, seed the font
    /// region with the supplied glyphs, and point the counter at the
    /// program start address.
    pub fn reset(&mut self)
        requires
            old(self).wf(),
        ensures
            final(self).wf(),
            is_reset_state(*final(self), old(self).font@, old(self).cpu.quirks),
    {
        self.cpu.reset();
        self.display.reset();
        self.keyboard = cleared_flags(16);
        self.waiting_key = false;
        self.should_redraw = false;
        self.should_clear_screen = false;
        self.delay_timer = 0;
        self.sound_timer = 0;
        self.load_font();
    }

    /// Copy raw program bytes verbatim into memory starting at the
    /// program start address. The caller rejects programs too large to
    /// fit before the end of memory.
    pub fn load_rom(&mut self, rom_data: Vec<u8>)
        requires
            old(self).wf(),
            rom_data@.len() + 0x200 <= 4096,
        ensures
            final(self).wf(),
            forall|k: int|
                0 <= k < rom_data@.len() ==> final(self).cpu.memory@[0x200 + k] == rom_data@[k],
            forall|a: int|
                0 <= a < 4096 && !(0x200 <= a < 0x200 + rom_data@.len())
                    ==> final(self).cpu.memory@[a] == old(self).cpu.memory@[a],
            final(self).cpu.regs@ == old(self).cpu.regs@,
            final(self).cpu.i_reg == old(self).cpu.i_reg,
            final(self).cpu.pc == old(self).cpu.pc,
            final(self).cpu.sp == old(self).cpu.sp,
            final(self).cpu.stack@ == old(self).cpu.stack@,
            final(self).cpu.opcode == old(self).cpu.opcode,
            final(self).cpu.quirks == old(self).cpu.quirks,
            computer_frame(*old(self), *final(self)),
    {
        let mut k: usize = 0;
        while k < rom_data.len()
            invariant
                self.wf(),
                k <= rom_data@.len(),
                rom_data@.len() + 0x200 <= 4096,
                forall|j: int| 0 <= j < k ==> self.cpu.memory@[0x200 + j] == rom_data@[j],
                forall|a: int|
                    0 <= a < 4096 && !(0x200 <= a < 0x200 + k) ==> self.cpu.memory@[a] == old(
                        self,
                    ).cpu.memory@[a],
                self.cpu.regs@ == old(self).cpu.regs@,
                self.cpu.i_reg == old(self).cpu.i_reg,
                self.cpu.pc == old(self).cpu.pc,
                self.cpu.sp == old(self).cpu.sp,
                self.cpu.stack@ == old(self).cpu.stack@,
                self.cpu.opcode == old(self).cpu.opcode,
                self.cpu.quirks == old(self).cpu.quirks,
                computer_frame(*old(self), *self),
            decreases rom_data@.len() - k,
        {
            self.cpu.memory[0x200 + k] = rom_data[k];
            k = k + 1;
        }
    }

    /// Run exactly one fetch-decode-dispatch cycle. Returns the fault
    /// that stopped execution, if any; on a fault the machine does not
    /// advance.
    pub fn emulate_cycle(&mut self) -> (r: Result<(), Fault>)
        requires
            old(self).wf(),
        ensures
            final(self).wf(),
            match r {
                Ok(()) => cycle_fault_of(*old(self)) is None && cycle_applied(
                    *old(self),
                    *final(self),
                ),
                Err(f) => Some(f) == cycle_fault_of(*old(self)) && faulted_frame(
                    *old(self),
                    *final(self),
                ),
            },
    {
        let pc = self.cpu.pc;
        if pc >= 4095 {
            return Err(Fault::PcOutOfBounds { addr: pc });
        }
        let opcode = self.cpu.fetch_opcode();
        let ghost mid: Computer = *self;
        let op = opcode.value();
        let cls = op & 0xF000;
        if cls == 0x0000 {
            let nn = opcode.get_nn();
            if nn == 0xE0 {
                self.clear_screen();
                Ok(())
            } else if nn == 0xEE {
                if self.cpu.sp == 0 {
                    return Err(Fault::StackUnderflow { addr: pc });
                }
                self.cpu.return_from_subroutine();
                Ok(())
            } else {
                Err(Fault::UnknownOpcode { opcode: op, addr: pc })
            }
        } else if cls == 0x1000 {
            self.cpu.jump_to_addr();
            Ok(())
        } else if cls == 0x2000 {
            if self.cpu.sp >= 16 {
                return Err(Fault::StackOverflow { addr: pc });
            }
            self.cpu.call_at_addr();
            Ok(())
        } else if cls == 0x3000 {
            self.cpu.skip_3xkk();
            Ok(())
        } else if cls == 0x4000 {
            self.cpu.skip_4xkk();
            Ok(())
        } else if cls == 0x5000 {
            self.cpu.skip_5xy();
            Ok(())
        } else if cls == 0x6000 {
            self.cpu.put_value_to_vx();
            Ok(())
        } else if cls == 0x7000 {
            self.cpu.add_value_to_vx();
            Ok(())
        } else if cls == 0x8000 {
            let z = opcode.get_z();
            if z == 0 {
                self.cpu.vy_to_vx();
                Ok(())
            } else if z == 1 {
                self.cpu.vx_or_vy();
                Ok(())
            } else if z == 2 {
                self.cpu.vx_and_vy();
                Ok(())
            } else if z == 3 {
                self.cpu.vx_xor_vy();
                Ok(())
            } else if z == 4 {
                self.cpu.vx_add_vy();
                Ok(())
            } else if z == 5 {
                self.cpu.vx_sub_vy();
                Ok(())
            } else if z == 6 {
                self.cpu.vx_shr();
                Ok(())
            } else if z == 7 {
                self.cpu.vy_sub_vx();
                Ok(())
            } else if z == 0xE {
                self.cpu.vx_shl();
                Ok(())
            } else {
                Err(Fault::UnknownOpcode { opcode: op, addr: pc })
            }
        } else if cls == 0x9000 {
            self.cpu.skip_9xy();
            Ok(())
        } else if cls == 0xA000 {
            self.cpu.set_i_reg();
            Ok(())
        } else if cls == 0xB000 {
            self.cpu.jump_to_addr_offset();
            Ok(())
        } else if cls == 0xC000 {
            self.cpu.add_random_to_vx();
            proof {
                let r0 = choose|r: u8| rand_applied(mid.cpu, self.cpu, op, r);
                assert(rand_applied(old(self).cpu, self.cpu, op, r0));
            }
            Ok(())
        } else if cls == 0xD000 {
            let n = opcode.get_z();
            if n > 0 && self.cpu.i_reg as usize + n as usize > 4096 {
                return Err(Fault::MemoryOutOfBounds { addr: self.cpu.i_reg });
            }
            self.draw_sprite();
            Ok(())
        } else if cls == 0xE000 {
            let nn = opcode.get_nn();
            if nn == 0x9E {
                self.cpu.skip_on_keydown(&self.keyboard);
                Ok(())
            } else if nn == 0xA1 {
                self.cpu.skip_on_keyup(&self.keyboard);
                Ok(())
            } else {
                Err(Fault::UnknownOpcode { opcode: op, addr: pc })
            }
        } else {
            let nn = opcode.get_nn();
            if nn == 0x07 {
                let t = self.delay_timer;
                self.cpu.set_vx(t);
                self.cpu.next_instruction();
                Ok(())
            } else if nn == 0x0A {
                self.waiting_key = true;
                Ok(())
            } else if nn == 0x15 {
                self.delay_timer = self.cpu.get_vx();
                self.cpu.next_instruction();
                Ok(())
            } else if nn == 0x18 {
                self.sound_timer = self.cpu.get_vx();
                self.cpu.next_instruction();
                Ok(())
            } else if nn == 0x1E {
                self.cpu.add_vx_to_i();
                Ok(())
            } else if nn == 0x29 {
                self.cpu.set_font_char_addr();
                Ok(())
            } else if nn == 0x33 {
                if self.cpu.i_reg as usize + 2 >= 4096 {
                    return Err(Fault::MemoryOutOfBounds { addr: self.cpu.i_reg });
                }
                self.cpu.vx_decimal_to_ireg();
                Ok(())
            } else if nn == 0x55 {
                let x = opcode.get_x();
                if self.cpu.i_reg as usize + x as usize >= 4096 {
                    return Err(Fault::MemoryOutOfBounds { addr: self.cpu.i_reg });
                }
                self.cpu.store_regs_in_memory();
                Ok(())
            } else if nn == 0x65 {
                let x = opcode.get_x();
                if self.cpu.i_reg as usize + x as usize >= 4096 {
                    return Err(Fault::MemoryOutOfBounds { addr: self.cpu.i_reg });
                }
                self.cpu.store_memory_in_regs();
                Ok(())
            } else {
                Err(Fault::UnknownOpcode { opcode: op, addr: pc })
            }
        }
    }

    /// Copy the supplied font glyphs into memory addresses 0 through 79.
    fn load_font(&mut self)
        requires
            old(self).wf(),
        ensures
            final(self).wf(),
            forall|a: int| 0 <= a < 80 ==> final(self).cpu.memory@[a] == old(self).font@[a],
            forall|a: int|
                80 <= a < 4096 ==> final(self).cpu.memory@[a] == old(self).cpu.memory@[a],
            final(self).cpu.regs@ == old(self).cpu.regs@,
            final(self).cpu.i_reg == old(self).cpu.i_reg,
            final(self).cpu.pc == old(self).cpu.pc,
            final(self).cpu.sp == old(self).cpu.sp,
            final(self).cpu.stack@ == old(self).cpu.stack@,
            final(self).cpu.opcode == old(self).cpu.opcode,
            final(self).cpu.quirks == old(self).cpu.quirks,
            computer_frame(*old(self), *final(self)),
    {
        let mut a: usize = 0;
        while a < 80
            invariant
                self.wf(),
                a <= 80,
                forall|j: int| 0 <= j < a ==> self.cpu.memory@[j] == old(self).font@[j],
                forall|j: int| a <= j < 4096 ==> self.cpu.memory@[j] == old(self).cpu.memory@[j],
                self.cpu.regs@ == old(self).cpu.regs@,
                self.cpu.i_reg == old(self).cpu.i_reg,
                self.cpu.pc == old(self).cpu.pc,
                self.cpu.sp == old(self).cpu.sp,
                self.cpu.stack@ == old(self).cpu.stack@,
                self.cpu.opcode == old(self).cpu.opcode,
                self.cpu.quirks == old(self).cpu.quirks,
                computer_frame(*old(self), *self),
            decreases 80 - a,
        {
            self.cpu.memory[a] = self.font[a];
            a = a + 1;
        }
    }

    /// Dxyn at dispatcher level: draw, then request a redraw.
    fn draw_sprite(&mut self)
        requires
            old(self).wf(),
            op_n(old(self).cpu.opcode.0) > 0 ==> old(self).cpu.i_reg + op_n(
                old(self).cpu.opcode.0,
            ) <= 4096,
        ensures
            final(self).wf(),
            draw_applied(
                old(self).cpu,
                final(self).cpu,
                old(self).cpu.opcode.0,
                old(self).display.memory@,
                final(self).display.memory@,
            ),
            final(self).keyboard@ == old(self).keyboard@,
            final(self).waiting_key == old(self).waiting_key,
            final(self).should_redraw == true,
            final(self).should_clear_screen == old(self).should_clear_screen,
            final(self).delay_timer == old(self).delay_timer,
            final(self).sound_timer == old(self).sound_timer,
            final(self).font@ == old(self).font@,
    {
        self.cpu.draw_sprite(&mut self.display);
        self.should_redraw = true;
    }

    /// 00E0 at dispatcher level: blank the framebuffer, request a
    /// screen clear, and step past the instruction.
    fn clear_screen(&mut self)
        requires
            old(self).wf(),
        ensures
            final(self).wf(),
            final(self).display.is_blank(),
            final(self).should_clear_screen == true,
            final(self).keyboard@ == old(self).keyboard@,
            final(self).waiting_key == old(self).waiting_key,
            final(self).should_redraw == old(self).should_redraw,
            final(self).delay_timer == old(self).delay_timer,
            final(self).sound_timer == old(self).sound_timer,
            final(self).font@ == old(self).font@,
            only_pc_changed(old(self).cpu, final(self).cpu),
            final(self).cpu.opcode == old(self).cpu.opcode,
            final(self).cpu.pc == wrap16(old(self).cpu.pc + 2),
    {
        self.display.reset();
        self.should_clear_screen = true;
        self.cpu.next_instruction();
    }

    /// Record that `key_index` went down. If the machine is waiting for
    /// a key, the press resolves the wait: the key's index lands in the
    /// destination register of the waiting instruction, the counter
    /// moves past that instruction, and the waiting flag clears.
    pub fn register_keypress(&mut self, key_index: u8)
        requires
            old(self).wf(),
            key_index < 16,
        ensures
            final(self).wf(),
            final(self).keyboard@ == old(self).keyboard@.update(key_index as int, true),
            final(self).display.memory@ == old(self).display.memory@,
            final(self).should_redraw == old(self).should_redraw,
            final(self).should_clear_screen == old(self).should_clear_screen,
            final(self).delay_timer == old(self).delay_timer,
            final(self).sound_timer == old(self).sound_timer,
            final(self).font@ == old(self).font@,
            final(self).waiting_key == false,
            !old(self).waiting_key ==> final(self).cpu == old(self).cpu,
            old(self).waiting_key ==> {
                &&& only_regs_pc_changed(old(self).cpu, final(self).cpu)
                &&& final(self).cpu.opcode == old(self).cpu.opcode
                &&& final(self).cpu.regs@ == old(self).cpu.regs@.update(
                    old(self).cpu.x_sel(),
                    key_index,
                )
                &&& final(self).cpu.pc == wrap16(old(self).cpu.pc + 2)
            },
    {
        self.keyboard[key_index as usize] = true;
        if self.waiting_key {
            self.cpu.set_vx(key_index);
            self.cpu.next_instruction();
        }
        self.waiting_key = false;
    }

    /// Record that `key_index` went up or down without resolving a
    /// pending key wait.
    pub fn set_key(&mut self, key_index: u8, is_down: bool)
        requires
            old(self).wf(),
            key_index < 16,
        ensures
            final(self).wf(),
            final(self).keyboard@ == old(self).keyboard@.update(key_index as int, is_down),
            final(self).cpu == old(self).cpu,
            final(self).display.memory@ == old(self).display.memory@,
            final(self).waiting_key == old(self).waiting_key,
            final(self).should_redraw == old(self).should_redraw,
            final(self).should_clear_screen == old(self).should_clear_screen,
            final(self).delay_timer == old(self).delay_timer,
            final(self).sound_timer == old(self).sound_timer,
            final(self).font@ == old(self).font@,
    {
        self.keyboard[key_index as usize] = is_down;
    }

    /// One 60 Hz tick of the external timing driver: each timer
    /// decrements toward zero, never below it.
    pub fn tick_timers(&mut self)
        requires
            old(self).wf(),
        ensures
            final(self).wf(),
            final(self).delay_timer == (if old(self).delay_timer > 0 {
                (old(self).delay_timer - 1) as u8
            } else {
                0u8
            }),
            final(self).sound_timer == (if old(self).sound_timer > 0 {
                (old(self).sound_timer - 1) as u8
            } else {
                0u8
            }),
            final(self).cpu == old(self).cpu,
            final(self).display.memory@ == old(self).display.memory@,
            final(self).keyboard@ == old(self).keyboard@,
            final(self).waiting_key == old(self).waiting_key,
            final(self).should_redraw == old(self).should_redraw,
            final(self).should_clear_screen == old(self).should_clear_screen,
            final(self).font@ == old(self).font@,
    {
        if self.delay_timer > 0 {
            self.delay_timer = self.delay_timer - 1;
        }
        if self.sound_timer > 0 {
            self.sound_timer = self.sound_timer - 1;
        }
    }
}

} // verus!

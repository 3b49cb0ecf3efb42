//! The execution engine: memory, register file, index register, program
//! counter and call stack, with one operation per instruction semantic.
//!
//! Every operation owns its own program-counter advancement: the normal
//! case steps by two bytes, while jumps, calls, returns and skips set the
//! counter explicitly. Range checks are the dispatcher's responsibility;
//! the operations state the ranges they need as preconditions.

use vstd::prelude::*;

use crate::display::Display;
use crate::opcode::{lemma_op_field_bounds, op_n, op_nn, op_nnn, op_x, op_y, word_of, Opcode};
use crate::rng;
use crate::util::{zero_bytes, zero_words};

verus! {

/// Bytes of addressable memory.
pub const MEMORY_SIZE: usize = 4096;

/// The address at which program code and data are loaded.
pub const PROGRAM_START_ADDR: u16 = 0x200;

/// Stack slots. The stack pointer is pre-incremented on call and
/// post-decremented on return, so the first call occupies slot 1, not
/// slot 0, and sixteen nested calls use slots 1 through 16.
pub const STACK_SLOTS: usize = 17;

/// Semantics that differ between historical interpreter families, each
/// exposed as an explicit, testable choice rather than hardcoded.
#[derive(Clone, Copy, PartialEq, Eq, Structural, Debug)]
pub struct Quirks {
    /// Shifts read their operand from `Vy` and store the shifted value
    /// into `Vx`, instead of shifting `Vx` in place.
    pub shift_reads_vy: bool,
    /// Register block transfers advance the index register past the
    /// transferred block.
    pub transfer_moves_index: bool,
    /// Sprite coordinates wrap modulo the display size; when off,
    /// sprite pixels falling outside the display are clipped.
    pub sprite_wrap: bool,
}

impl Default for Quirks {
    /// Shift in place, keep the index register, clip sprites.
    fn default() -> (q: Quirks)
        ensures
            q == (Quirks {
                shift_reads_vy: false,
                transfer_moves_index: false,
                sprite_wrap: false,
            }),
    {
        Quirks { shift_reads_vy: false, transfer_moves_index: false, sprite_wrap: false }
    }
}

/// The execution engine's state.
pub struct CPU {
    /// 4096 bytes of RAM.
    pub memory: Vec<u8>,
    /// 16 general 8-bit registers; register 0xF doubles as the
    /// carry/borrow/collision flag.
    pub regs: Vec<u8>,
    /// 16-bit index register for indirect memory access.
    pub i_reg: u16,
    /// 16-bit program counter.
    pub pc: u16,
    /// Stack pointer into `stack`; 0 means empty.
    pub sp: usize,
    /// Return addresses, slots 1 through 16.
    pub stack: Vec<u16>,
    /// The most recently fetched instruction word.
    pub opcode: Opcode,
    /// Configured variant semantics.
    pub quirks: Quirks,
    /// The pseudo-random source for the masked-random instruction.
    pub rand: tinyrand::StdRand,
}

/// A sum of two 16-bit quantities reduced to 16 bits.
pub open spec fn wrap16(a: int) -> u16 {
    if a > 0xFFFF {
        (a - 0x10000) as u16
    } else {
        a as u16
    }
}

impl CPU {
    /// Every buffer has its fixed size and the stack pointer is a valid
    /// depth.
    pub open spec fn wf(self) -> bool {
        &&& self.memory@.len() == 4096
        &&& self.regs@.len() == 16
        &&& self.stack@.len() == 17
        &&& self.sp <= 16
    }

    /// The `x` register selector of the stored opcode.
    pub open spec fn x_sel(self) -> int {
        op_x(self.opcode.0) as int
    }

    /// The `y` register selector of the stored opcode.
    pub open spec fn y_sel(self) -> int {
        op_y(self.opcode.0) as int
    }

    /// The register selected by `x`.
    pub open spec fn vx(self) -> u8 {
        self.regs@[self.x_sel()]
    }

    /// The register selected by `y`.
    pub open spec fn vy(self) -> u8 {
        self.regs@[self.y_sel()]
    }
}

// === Frame predicates: what an operation leaves untouched ===

pub open spec fn only_pc_changed(pre: CPU, post: CPU) -> bool {
    &&& post.memory@ == pre.memory@
    &&& post.regs@ == pre.regs@
    &&& post.i_reg == pre.i_reg
    &&& post.sp == pre.sp
    &&& post.stack@ == pre.stack@
    &&& post.quirks == pre.quirks
}

pub open spec fn only_regs_changed(pre: CPU, post: CPU) -> bool {
    &&& post.memory@ == pre.memory@
    &&& post.i_reg == pre.i_reg
    &&& post.pc == pre.pc
    &&& post.sp == pre.sp
    &&& post.stack@ == pre.stack@
    &&& post.quirks == pre.quirks
}

pub open spec fn only_regs_pc_changed(pre: CPU, post: CPU) -> bool {
    &&& post.memory@ == pre.memory@
    &&& post.i_reg == pre.i_reg
    &&& post.sp == pre.sp
    &&& post.stack@ == pre.stack@
    &&& post.quirks == pre.quirks
}

pub open spec fn only_stack_pc_changed(pre: CPU, post: CPU) -> bool {
    &&& post.memory@ == pre.memory@
    &&& post.regs@ == pre.regs@
    &&& post.i_reg == pre.i_reg
    &&& post.quirks == pre.quirks
}

pub open spec fn only_i_pc_changed(pre: CPU, post: CPU) -> bool {
    &&& post.memory@ == pre.memory@
    &&& post.regs@ == pre.regs@
    &&& post.sp == pre.sp
    &&& post.stack@ == pre.stack@
    &&& post.quirks == pre.quirks
}

pub open spec fn only_mem_pc_changed(pre: CPU, post: CPU) -> bool {
    &&& post.regs@ == pre.regs@
    &&& post.i_reg == pre.i_reg
    &&& post.sp == pre.sp
    &&& post.stack@ == pre.stack@
    &&& post.quirks == pre.quirks
}

pub open spec fn only_mem_i_pc_changed(pre: CPU, post: CPU) -> bool {
    &&& post.regs@ == pre.regs@
    &&& post.sp == pre.sp
    &&& post.stack@ == pre.stack@
    &&& post.quirks == pre.quirks
}

pub open spec fn only_regs_i_pc_changed(pre: CPU, post: CPU) -> bool {
    &&& post.memory@ == pre.memory@
    &&& post.sp == pre.sp
    &&& post.stack@ == pre.stack@
    &&& post.quirks == pre.quirks
}

pub open spec fn only_opcode_changed(pre: CPU, post: CPU) -> bool {
    &&& post.memory@ == pre.memory@
    &&& post.regs@ == pre.regs@
    &&& post.i_reg == pre.i_reg
    &&& post.pc == pre.pc
    &&& post.sp == pre.sp
    &&& post.stack@ == pre.stack@
    &&& post.quirks == pre.quirks
}

// === Per-instruction transition predicates ===

/// 00EE: return; the counter is popped from the current stack slot.
pub open spec fn ret_applied(pre: CPU, post: CPU, op: u16) -> bool {
    &&& only_stack_pc_changed(pre, post)
    &&& post.opcode.0 == op
    &&& post.pc == pre.stack@[pre.sp as int]
    &&& post.sp == pre.sp - 1
    &&& post.stack@ == pre.stack@
}

/// 1nnn: jump.
pub open spec fn jump_applied(pre: CPU, post: CPU, op: u16) -> bool {
    &&& only_pc_changed(pre, post)
    &&& post.opcode.0 == op
    &&& post.pc == op_nnn(op)
}

/// 2nnn: call; the return address (the instruction after the call) goes
/// into the next stack slot.
pub open spec fn call_applied(pre: CPU, post: CPU, op: u16) -> bool {
    &&& only_stack_pc_changed(pre, post)
    &&& post.opcode.0 == op
    &&& post.sp == pre.sp + 1
    &&& post.stack@ == pre.stack@.update(pre.sp + 1, wrap16(pre.pc + 2))
    &&& post.pc == op_nnn(op)
}

/// A conditional skip: the counter steps by four when the condition
/// holds, by two otherwise.
pub open spec fn skip_if_applied(pre: CPU, post: CPU, cond: bool) -> bool {
    &&& only_pc_changed(pre, post)
    &&& post.pc == wrap16(pre.pc + (if cond { 4int } else { 2int }))
}

/// 3xkk: skip when `Vx` equals the immediate.
pub open spec fn skip_eq_imm_applied(pre: CPU, post: CPU, op: u16) -> bool {
    &&& skip_if_applied(pre, post, pre.regs@[op_x(op) as int] == op_nn(op))
    &&& post.opcode.0 == op
}

/// 4xkk: skip when `Vx` differs from the immediate.
pub open spec fn skip_ne_imm_applied(pre: CPU, post: CPU, op: u16) -> bool {
    &&& skip_if_applied(pre, post, pre.regs@[op_x(op) as int] != op_nn(op))
    &&& post.opcode.0 == op
}

/// 5xy0: skip when `Vx` equals `Vy`.
pub open spec fn skip_eq_reg_applied(pre: CPU, post: CPU, op: u16) -> bool {
    &&& skip_if_applied(pre, post, pre.regs@[op_x(op) as int] == pre.regs@[op_y(op) as int])
    &&& post.opcode.0 == op
}

/// 9xy0: skip when `Vx` differs from `Vy`.
pub open spec fn skip_ne_reg_applied(pre: CPU, post: CPU, op: u16) -> bool {
    &&& skip_if_applied(pre, post, pre.regs@[op_x(op) as int] != pre.regs@[op_y(op) as int])
    &&& post.opcode.0 == op
}

/// An operation that stores `value` into `Vx` and steps the counter.
pub open spec fn store_vx_applied(pre: CPU, post: CPU, op: u16, value: u8) -> bool {
    &&& only_regs_pc_changed(pre, post)
    &&& post.opcode.0 == op
    &&& post.regs@ == pre.regs@.update(op_x(op) as int, value)
    &&& post.pc == wrap16(pre.pc + 2)
}

/// 8xy0: copy `Vy` into `Vx`.
pub open spec fn mov_applied(pre: CPU, post: CPU, op: u16) -> bool {
    store_vx_applied(pre, post, op, pre.regs@[op_y(op) as int])
}

/// 8xy1: bitwise or.
pub open spec fn or_applied(pre: CPU, post: CPU, op: u16) -> bool {
    store_vx_applied(pre, post, op, pre.regs@[op_x(op) as int] | pre.regs@[op_y(op) as int])
}

/// 8xy2: bitwise and.
pub open spec fn and_applied(pre: CPU, post: CPU, op: u16) -> bool {
    store_vx_applied(pre, post, op, pre.regs@[op_x(op) as int] & pre.regs@[op_y(op) as int])
}

/// 8xy3: bitwise xor.
pub open spec fn xor_applied(pre: CPU, post: CPU, op: u16) -> bool {
    store_vx_applied(pre, post, op, pre.regs@[op_x(op) as int] ^ pre.regs@[op_y(op) as int])
}

/// An operation that stores `value` into `Vx`, then `flag` into the
/// flag register, and steps the counter. When `x` is 0xF itself, the
/// flag overwrites the stored value.
pub open spec fn store_vx_flag_applied(pre: CPU, post: CPU, op: u16, value: u8, flag: u8) -> bool {
    &&& only_regs_pc_changed(pre, post)
    &&& post.opcode.0 == op
    &&& post.regs@ == pre.regs@.update(op_x(op) as int, value).update(15, flag)
    &&& post.pc == wrap16(pre.pc + 2)
}

/// 8xy4: add with carry flag; the stored result is reduced modulo 256
/// and the flag register reports whether the true sum exceeded 255.
pub open spec fn add_applied(pre: CPU, post: CPU, op: u16) -> bool {
    let sum = pre.regs@[op_x(op) as int] + pre.regs@[op_y(op) as int];
    store_vx_flag_applied(
        pre,
        post,
        op,
        (sum % 256) as u8,
        if sum > 255 { 1u8 } else { 0u8 },
    )
}

/// 8xy5: `Vx - Vy` with the inverse-borrow flag; the flag register is 1
/// exactly when no borrow occurred.
pub open spec fn sub_applied(pre: CPU, post: CPU, op: u16) -> bool {
    let a = pre.regs@[op_x(op) as int];
    let b = pre.regs@[op_y(op) as int];
    store_vx_flag_applied(
        pre,
        post,
        op,
        (if a >= b { a - b } else { a + 256 - b }) as u8,
        if a >= b { 1u8 } else { 0u8 },
    )
}

/// 8xy7: `Vy - Vx` with the same inverse-borrow flag convention.
pub open spec fn rsb_applied(pre: CPU, post: CPU, op: u16) -> bool {
    let a = pre.regs@[op_y(op) as int];
    let b = pre.regs@[op_x(op) as int];
    store_vx_flag_applied(
        pre,
        post,
        op,
        (if a >= b { a - b } else { a + 256 - b }) as u8,
        if a >= b { 1u8 } else { 0u8 },
    )
}

/// The operand a shift reads: `Vy` under the shift quirk, `Vx` otherwise.
pub open spec fn shift_src(pre: CPU, op: u16) -> u8 {
    if pre.quirks.shift_reads_vy {
        pre.regs@[op_y(op) as int]
    } else {
        pre.regs@[op_x(op) as int]
    }
}

/// 8xy6: shift right; the flag register receives the bit shifted out
/// (the least-significant bit of the operand).
pub open spec fn shr_applied(pre: CPU, post: CPU, op: u16) -> bool {
    let src = shift_src(pre, op);
    store_vx_flag_applied(pre, post, op, src >> 1, src & 1)
}

/// 8xyE: shift left; the flag register receives the bit shifted out
/// (the most-significant bit of the operand).
pub open spec fn shl_applied(pre: CPU, post: CPU, op: u16) -> bool {
    let src = shift_src(pre, op);
    store_vx_flag_applied(
        pre,
        post,
        op,
        src << 1,
        if src & 0x80 != 0 { 1u8 } else { 0u8 },
    )
}

/// 6xkk: load the immediate into `Vx`.
pub open spec fn put_imm_applied(pre: CPU, post: CPU, op: u16) -> bool {
    store_vx_applied(pre, post, op, op_nn(op) as u8)
}

/// 7xkk: add the immediate to `Vx` modulo 256; the flag register is
/// not touched.
pub open spec fn add_imm_applied(pre: CPU, post: CPU, op: u16) -> bool {
    store_vx_applied(
        pre,
        post,
        op,
        ((pre.regs@[op_x(op) as int] + op_nn(op)) % 256) as u8,
    )
}

/// Annn: load the address immediate into the index register.
pub open spec fn set_i_applied(pre: CPU, post: CPU, op: u16) -> bool {
    &&& only_i_pc_changed(pre, post)
    &&& post.opcode.0 == op
    &&& post.i_reg == op_nnn(op)
    &&& post.pc == wrap16(pre.pc + 2)
}

/// Bnnn: jump to the address immediate offset by register 0.
pub open spec fn jump_off_applied(pre: CPU, post: CPU, op: u16) -> bool {
    &&& only_pc_changed(pre, post)
    &&& post.opcode.0 == op
    &&& post.pc == op_nnn(op) + pre.regs@[0]
}

/// Cxnn: a random byte `r` masked by the immediate lands in `Vx`.
pub open spec fn rand_applied(pre: CPU, post: CPU, op: u16, r: u8) -> bool {
    store_vx_applied(pre, post, op, r & (op_nn(op) as u8))
}

/// The key index a key-skip instruction tests: the value held in `Vx`,
/// reduced modulo 16 (its low nibble) when it exceeds the last key.
pub open spec fn tested_key(pre: CPU, op: u16) -> int {
    (pre.regs@[op_x(op) as int] % 16) as int
}

/// Ex9E / ExA1: skip on the state of the key whose index is the value
/// of `Vx`.
pub open spec fn skip_key_applied(
    pre: CPU,
    post: CPU,
    op: u16,
    keys: Seq<bool>,
    want_down: bool,
) -> bool {
    &&& skip_if_applied(pre, post, keys[tested_key(pre, op)] == want_down)
    &&& post.opcode.0 == op
}

/// Fx1E: add `Vx` to the index register, reduced to 16 bits.
pub open spec fn add_i_applied(pre: CPU, post: CPU, op: u16) -> bool {
    &&& only_i_pc_changed(pre, post)
    &&& post.opcode.0 == op
    &&& post.i_reg == wrap16(pre.i_reg + pre.regs@[op_x(op) as int])
    &&& post.pc == wrap16(pre.pc + 2)
}

/// Fx29: point the index register at the font glyph for the value of
/// `Vx`; glyph `n` lives at address `n * 5`.
pub open spec fn font_addr_applied(pre: CPU, post: CPU, op: u16) -> bool {
    &&& only_i_pc_changed(pre, post)
    &&& post.opcode.0 == op
    &&& post.i_reg == pre.regs@[op_x(op) as int] * 5
    &&& post.pc == wrap16(pre.pc + 2)
}

/// Fx33: write the decimal digits of `Vx` (hundreds, tens, ones) into
/// the three memory cells starting at the index register.
pub open spec fn bcd_applied(pre: CPU, post: CPU, op: u16) -> bool {
    let v = pre.regs@[op_x(op) as int];
    let i = pre.i_reg as int;
    &&& only_mem_pc_changed(pre, post)
    &&& post.opcode.0 == op
    &&& post.memory@ == pre.memory@.update(i, (v / 100) as u8).update(
        i + 1,
        ((v / 10) % 10) as u8,
    ).update(i + 2, (v % 10) as u8)
    &&& post.pc == wrap16(pre.pc + 2)
}

// === Sprite drawing ===

/// Bit `c` of a sprite row byte, most significant bit first.
pub open spec fn sprite_bit(row: u8, c: int) -> bool {
    row & (0x80u8 >> (c as u8)) != 0
}

/// Whether the sprite pixel in row `r`, column `c` lands on the display:
/// always under wrapping, only inside the display edges under clipping.
pub open spec fn draw_visible(x0: u8, y0: u8, r: int, c: int, wrap: bool) -> bool {
    wrap || (x0 + c < 64 && y0 + r < 32)
}

/// The framebuffer cell the sprite pixel in row `r`, column `c` lands on.
pub open spec fn draw_pos(x0: u8, y0: u8, r: int, c: int, wrap: bool) -> int {
    if wrap {
        ((y0 + r) % 32) * 64 + ((x0 + c) % 64)
    } else {
        (y0 + r) * 64 + (x0 + c)
    }
}

/// Whether a visible set sprite pixel among the rows before `rr`, or in
/// row `rr` at a column before `cc`, lands on cell `p`.
pub open spec fn draw_hits_upto(
    mem: Seq<u8>,
    i: int,
    x0: u8,
    y0: u8,
    wrap: bool,
    p: int,
    rr: int,
    cc: int,
) -> bool {
    exists|r: int, c: int|
        0 <= r && 0 <= c < 8 && (r < rr || (r == rr && c < cc)) && sprite_bit(mem[i + r], c)
            && draw_visible(x0, y0, r, c, wrap) && #[trigger] draw_pos(x0, y0, r, c, wrap) == p
}

/// Whether a visible set pixel of the `n`-row sprite at `i` lands on
/// cell `p`.
pub open spec fn draw_hits(mem: Seq<u8>, i: int, n: int, x0: u8, y0: u8, wrap: bool, p: int) -> bool {
    draw_hits_upto(mem, i, x0, y0, wrap, p, n, 0)
}

/// Whether a visible set sprite pixel among the rows before `rr`, or in
/// row `rr` at a column before `cc`, lands on a lit cell of `fb`.
pub open spec fn draw_collides_upto(
    fb: Seq<u8>,
    mem: Seq<u8>,
    i: int,
    x0: u8,
    y0: u8,
    wrap: bool,
    rr: int,
    cc: int,
) -> bool {
    exists|r: int, c: int|
        0 <= r && 0 <= c < 8 && (r < rr || (r == rr && c < cc)) && sprite_bit(mem[i + r], c)
            && draw_visible(x0, y0, r, c, wrap) && fb[#[trigger] draw_pos(x0, y0, r, c, wrap)] == 1
}

/// Whether some visible set pixel of the `n`-row sprite lands on a lit
/// cell: the collision condition.
pub open spec fn draw_collides(
    fb: Seq<u8>,
    mem: Seq<u8>,
    i: int,
    n: int,
    x0: u8,
    y0: u8,
    wrap: bool,
) -> bool {
    draw_collides_upto(fb, mem, i, x0, y0, wrap, n, 0)
}

/// The framebuffer after the `n`-row sprite at `i` is XOR-composited
/// onto `fb` at `(x0, y0)`.
pub open spec fn draw_result(
    fb: Seq<u8>,
    mem: Seq<u8>,
    i: int,
    n: int,
    x0: u8,
    y0: u8,
    wrap: bool,
) -> Seq<u8> {
    Seq::new(
        fb.len(),
        |p: int|
            if draw_hits(mem, i, n, x0, y0, wrap, p) {
                fb[p] ^ 1
            } else {
                fb[p]
            },
    )
}

/// Dxyn: XOR-composite the `n`-row sprite at the index register onto
/// the framebuffer at `(Vx, Vy)`; the flag register reports whether any
/// visible set sprite pixel landed on a lit cell.
pub open spec fn draw_applied(
    pre: CPU,
    post: CPU,
    op: u16,
    fb_pre: Seq<u8>,
    fb_post: Seq<u8>,
) -> bool {
    let x0 = pre.regs@[op_x(op) as int];
    let y0 = pre.regs@[op_y(op) as int];
    let i = pre.i_reg as int;
    let n = op_n(op) as int;
    let wrap = pre.quirks.sprite_wrap;
    &&& only_regs_pc_changed(pre, post)
    &&& post.opcode.0 == op
    &&& post.regs@ == pre.regs@.update(
        15,
        if draw_collides(fb_pre, pre.memory@, i, n, x0, y0, wrap) {
            1u8
        } else {
            0u8
        },
    )
    &&& fb_post == draw_result(fb_pre, pre.memory@, i, n, x0, y0, wrap)
    &&& post.pc == wrap16(pre.pc + 2)
}

/// Flipping a pixel byte with xor is an involution, keeps it a single
/// bit, and lights it exactly when it was unlit.
proof fn lemma_flip_bit(b: u8)
    by (bit_vector)
    ensures
        (b ^ 1) ^ 1 == b,
        b <= 1 ==> (b ^ 1) <= 1,
        b <= 1 ==> ((b ^ 1) == 1 <==> b == 0),
{
}

/// Distinct small offsets from a common base stay distinct after the
/// wrap-around reductions used by sprite coordinates.
proof fn lemma_wrap_offsets_distinct(y0: u8, r1: u16, r2: u16, x0: u8, c1: u16, c2: u16)
    by (bit_vector)
    ensures
        r1 < 32 && r2 < 32 && r1 != r2 ==> (y0 + r1) % 32 != (y0 + r2) % 32,
        c1 < 64 && c2 < 64 && c1 != c2 ==> (x0 + c1) % 64 != (x0 + c2) % 64,
{
}

/// Distinct sprite pixels land on distinct framebuffer cells.
proof fn lemma_draw_pos_injective(
    x0: u8,
    y0: u8,
    wrap: bool,
    r1: int,
    c1: int,
    r2: int,
    c2: int,
)
    requires
        0 <= r1 < 32,
        0 <= c1 < 8,
        0 <= r2 < 32,
        0 <= c2 < 8,
        r1 != r2 || c1 != c2,
        draw_visible(x0, y0, r1, c1, wrap),
        draw_visible(x0, y0, r2, c2, wrap),
    ensures
        draw_pos(x0, y0, r1, c1, wrap) != draw_pos(x0, y0, r2, c2, wrap),
{
    if wrap {
        lemma_wrap_offsets_distinct(y0, r1 as u16, r2 as u16, x0, c1 as u16, c2 as u16);
        assert((y0 + r1 as u16) % 32 == (y0 + r1) % 32);
        assert((x0 + c1 as u16) % 64 == (x0 + c1) % 64);
    }
}

/// Processing one more sprite column adds exactly the cell that column
/// lands on, both to the hit set and to the collision condition.
proof fn lemma_draw_col_step(
    fb: Seq<u8>,
    mem: Seq<u8>,
    i: int,
    x0: u8,
    y0: u8,
    wrap: bool,
    rr: int,
    cc: int,
)
    requires
        0 <= rr,
        0 <= cc < 8,
    ensures
        forall|p: int|
            #[trigger] draw_hits_upto(mem, i, x0, y0, wrap, p, rr, cc + 1) <==> (draw_hits_upto(
                mem,
                i,
                x0,
                y0,
                wrap,
                p,
                rr,
                cc,
            ) || (sprite_bit(mem[i + rr], cc) && draw_visible(x0, y0, rr, cc, wrap) && draw_pos(
                x0,
                y0,
                rr,
                cc,
                wrap,
            ) == p)),
        draw_collides_upto(fb, mem, i, x0, y0, wrap, rr, cc + 1) <==> (draw_collides_upto(
            fb,
            mem,
            i,
            x0,
            y0,
            wrap,
            rr,
            cc,
        ) || (sprite_bit(mem[i + rr], cc) && draw_visible(x0, y0, rr, cc, wrap) && fb[draw_pos(
            x0,
            y0,
            rr,
            cc,
            wrap,
        )] == 1)),
{
    assert forall|p: int|
        #[trigger] draw_hits_upto(mem, i, x0, y0, wrap, p, rr, cc + 1) implies (draw_hits_upto(
        mem,
        i,
        x0,
        y0,
        wrap,
        p,
        rr,
        cc,
    ) || (sprite_bit(mem[i + rr], cc) && draw_visible(x0, y0, rr, cc, wrap) && draw_pos(
        x0,
        y0,
        rr,
        cc,
        wrap,
    ) == p)) by {
        let (r, c) = choose|r: int, c: int|
            0 <= r && 0 <= c < 8 && (r < rr || (r == rr && c < cc + 1)) && sprite_bit(
                mem[i + r],
                c,
            ) && draw_visible(x0, y0, r, c, wrap) && #[trigger] draw_pos(x0, y0, r, c, wrap) == p;
        if r == rr && c == cc {
        } else {
            assert(r < rr || (r == rr && c < cc));
            assert(draw_hits_upto(mem, i, x0, y0, wrap, p, rr, cc));
        }
    }
    if draw_collides_upto(fb, mem, i, x0, y0, wrap, rr, cc + 1) {
        let (r, c) = choose|r: int, c: int|
            0 <= r && 0 <= c < 8 && (r < rr || (r == rr && c < cc + 1)) && sprite_bit(
                mem[i + r],
                c,
            ) && draw_visible(x0, y0, r, c, wrap) && fb[#[trigger] draw_pos(
                x0,
                y0,
                r,
                c,
                wrap,
            )] == 1;
        if r == rr && c == cc {
        } else {
            assert(r < rr || (r == rr && c < cc));
            assert(draw_collides_upto(fb, mem, i, x0, y0, wrap, rr, cc));
        }
    }
}

/// Finishing a sprite row is the same as standing at the start of the
/// next row.
proof fn lemma_draw_row_step(
    fb: Seq<u8>,
    mem: Seq<u8>,
    i: int,
    x0: u8,
    y0: u8,
    wrap: bool,
    rr: int,
)
    requires
        0 <= rr,
    ensures
        forall|p: int|
            #[trigger] draw_hits_upto(mem, i, x0, y0, wrap, p, rr + 1, 0) <==> draw_hits_upto(
                mem,
                i,
                x0,
                y0,
                wrap,
                p,
                rr,
                8,
            ),
        draw_collides_upto(fb, mem, i, x0, y0, wrap, rr + 1, 0) <==> draw_collides_upto(
            fb,
            mem,
            i,
            x0,
            y0,
            wrap,
            rr,
            8,
        ),
{
    assert forall|p: int|
        #[trigger] draw_hits_upto(mem, i, x0, y0, wrap, p, rr + 1, 0) implies draw_hits_upto(
        mem,
        i,
        x0,
        y0,
        wrap,
        p,
        rr,
        8,
    ) by {
        let (r, c) = choose|r: int, c: int|
            0 <= r && 0 <= c < 8 && (r < rr + 1 || (r == rr + 1 && c < 0)) && sprite_bit(
                mem[i + r],
                c,
            ) && draw_visible(x0, y0, r, c, wrap) && #[trigger] draw_pos(x0, y0, r, c, wrap) == p;
        assert(r < rr || (r == rr && c < 8));
        assert(draw_hits_upto(mem, i, x0, y0, wrap, p, rr, 8));
    }
    assert forall|p: int|
        draw_hits_upto(mem, i, x0, y0, wrap, p, rr, 8) implies #[trigger] draw_hits_upto(
        mem,
        i,
        x0,
        y0,
        wrap,
        p,
        rr + 1,
        0,
    ) by {
        let (r, c) = choose|r: int, c: int|
            0 <= r && 0 <= c < 8 && (r < rr || (r == rr && c < 8)) && sprite_bit(mem[i + r], c)
                && draw_visible(x0, y0, r, c, wrap) && #[trigger] draw_pos(x0, y0, r, c, wrap)
                == p;
        assert(r < rr + 1);
        assert(draw_hits_upto(mem, i, x0, y0, wrap, p, rr + 1, 0));
    }
    if draw_collides_upto(fb, mem, i, x0, y0, wrap, rr + 1, 0) {
        let (r, c) = choose|r: int, c: int|
            0 <= r && 0 <= c < 8 && (r < rr + 1 || (r == rr + 1 && c < 0)) && sprite_bit(
                mem[i + r],
                c,
            ) && draw_visible(x0, y0, r, c, wrap) && fb[#[trigger] draw_pos(
                x0,
                y0,
                r,
                c,
                wrap,
            )] == 1;
        assert(r < rr || (r == rr && c < 8));
        assert(draw_collides_upto(fb, mem, i, x0, y0, wrap, rr, 8));
    }
    if draw_collides_upto(fb, mem, i, x0, y0, wrap, rr, 8) {
        let (r, c) = choose|r: int, c: int|
            0 <= r && 0 <= c < 8 && (r < rr || (r == rr && c < 8)) && sprite_bit(mem[i + r], c)
                && draw_visible(x0, y0, r, c, wrap) && fb[#[trigger] draw_pos(
                x0,
                y0,
                r,
                c,
                wrap,
            )] == 1;
        assert(r < rr + 1);
        assert(draw_collides_upto(fb, mem, i, x0, y0, wrap, rr + 1, 0));
    }
}

/// A cell hit by the sprite lies on the display.
proof fn lemma_hit_pos_in_range(
    mem: Seq<u8>,
    i: int,
    x0: u8,
    y0: u8,
    wrap: bool,
    p: int,
    rr: int,
    cc: int,
)
    requires
        rr <= 32,
        draw_hits_upto(mem, i, x0, y0, wrap, p, rr, cc),
    ensures
        0 <= p < 2048,
{
    let (r, c) = choose|r: int, c: int|
        0 <= r && 0 <= c < 8 && (r < rr || (r == rr && c < cc)) && sprite_bit(mem[i + r], c)
            && draw_visible(x0, y0, r, c, wrap) && #[trigger] draw_pos(x0, y0, r, c, wrap) == p;
    if wrap {
        assert(0 <= (y0 + r) % 32 < 32);
        assert(0 <= (x0 + c) % 64 < 64);
    }
}

/// The index register after a block transfer: advanced past the block
/// under the transfer quirk, untouched otherwise.
pub open spec fn transfer_i_after(pre: CPU, op: u16) -> u16 {
    if pre.quirks.transfer_moves_index {
        wrap16(pre.i_reg + op_x(op) + 1)
    } else {
        pre.i_reg
    }
}

/// Fx55: copy registers 0 through `x` inclusive into memory starting at
/// the index register.
pub open spec fn store_regs_applied(pre: CPU, post: CPU, op: u16) -> bool {
    let x = op_x(op) as int;
    let i = pre.i_reg as int;
    &&& only_mem_i_pc_changed(pre, post)
    &&& post.opcode.0 == op
    &&& post.memory@.len() == pre.memory@.len()
    &&& forall|k: int| 0 <= k <= x ==> post.memory@[i + k] == pre.regs@[k]
    &&& forall|a: int|
        0 <= a < pre.memory@.len() && !(i <= a <= i + x) ==> post.memory@[a] == pre.memory@[a]
    &&& post.i_reg == transfer_i_after(pre, op)
    &&& post.pc == wrap16(pre.pc + 2)
}

/// Fx65: fill registers 0 through `x` inclusive from memory starting at
/// the index register.
pub open spec fn load_regs_applied(pre: CPU, post: CPU, op: u16) -> bool {
    let x = op_x(op) as int;
    let i = pre.i_reg as int;
    &&& only_regs_i_pc_changed(pre, post)
    &&& post.opcode.0 == op
    &&& post.regs@.len() == 16
    &&& forall|k: int| 0 <= k <= x ==> post.regs@[k] == pre.memory@[i + k]
    &&& forall|k: int| x < k < 16 ==> post.regs@[k] == pre.regs@[k]
    &&& post.i_reg == transfer_i_after(pre, op)
    &&& post.pc == wrap16(pre.pc + 2)
}

impl CPU {
    pub fn new() -> (cpu: CPU)
        ensures
            cpu.wf(),
            forall|a: int| 0 <= a < 4096 ==> cpu.memory@[a] == 0,
            forall|k: int| 0 <= k < 16 ==> cpu.regs@[k] == 0,
            forall|s: int| 0 <= s < 17 ==> cpu.stack@[s] == 0,
            cpu.i_reg == 0,
            cpu.pc == 0,
            cpu.sp == 0,
            cpu.opcode.0 == 0,
            cpu.quirks == (Quirks {
                shift_reads_vy: false,
                transfer_moves_index: false,
                sprite_wrap: false,
            }),
    {
        CPU {
            memory: zero_bytes(MEMORY_SIZE),
            regs: zero_bytes(16),
            i_reg: 0,
            pc: 0,
            sp: 0,
            stack: zero_words(STACK_SLOTS),
            opcode: Opcode::new(0),
            quirks: Quirks::default(),
            rand: rng::fresh_rand(),
        }
    }

    /// Zero every register, the stack, memory and the index register,
    /// and point the counter at the program start address. The
    /// configured quirks survive a reset.
    pub fn reset(&mut self)
        ensures
            final(self).wf(),
            forall|a: int| 0 <= a < 4096 ==> final(self).memory@[a] == 0,
            forall|k: int| 0 <= k < 16 ==> final(self).regs@[k] == 0,
            forall|s: int| 0 <= s < 17 ==> final(self).stack@[s] == 0,
            final(self).i_reg == 0,
            final(self).pc == PROGRAM_START_ADDR,
            final(self).sp == 0,
            final(self).opcode.0 == 0,
            final(self).quirks == old(self).quirks,
    {
        self.memory = zero_bytes(MEMORY_SIZE);
        self.regs = zero_bytes(16);
        self.stack = zero_words(STACK_SLOTS);
        self.i_reg = 0;
        self.pc = PROGRAM_START_ADDR;
        self.sp = 0;
        self.opcode = Opcode::new(0);
    }

    /// Assemble the instruction word at the program counter from two
    /// consecutive memory bytes, big-endian, and remember it.
    pub fn fetch_opcode(&mut self) -> (r: Opcode)
        requires
            old(self).wf(),
            old(self).pc + 1 < 4096,
        ensures
            final(self).wf(),
            only_opcode_changed(*old(self), *final(self)),
            r.0 == word_of(
                old(self).memory@[old(self).pc as int],
                old(self).memory@[old(self).pc + 1],
            ),
            final(self).opcode == r,
    {
        let hi = self.memory[self.pc as usize];
        let lo = self.memory[self.pc as usize + 1];
        self.opcode = Opcode::from(hi, lo);
        self.opcode
    }

    // === Operations ===

    /// Step to the next instruction.
    pub fn next_instruction(&mut self)
        requires
            old(self).wf(),
        ensures
            final(self).wf(),
            only_pc_changed(*old(self), *final(self)),
            final(self).opcode == old(self).opcode,
            final(self).pc == wrap16(old(self).pc + 2),
    {
        self.pc = self.pc.wrapping_add(2);
    }

    /// 00EE
    pub fn return_from_subroutine(&mut self)
        requires
            old(self).wf(),
            old(self).sp >= 1,
        ensures
            final(self).wf(),
            ret_applied(*old(self), *final(self), old(self).opcode.0),
    {
        self.pc = self.stack[self.sp];
        self.sp = self.sp - 1;
    }

    /// 1nnn
    pub fn jump_to_addr(&mut self)
        requires
            old(self).wf(),
        ensures
            final(self).wf(),
            jump_applied(*old(self), *final(self), old(self).opcode.0),
    {
        self.pc = self.opcode.get_nnn();
    }

    /// 2nnn
    pub fn call_at_addr(&mut self)
        requires
            old(self).wf(),
            old(self).sp < 16,
        ensures
            final(self).wf(),
            call_applied(*old(self), *final(self), old(self).opcode.0),
    {
        self.sp = self.sp + 1;
        let ret = self.pc.wrapping_add(2);
        self.stack[self.sp] = ret;
        self.pc = self.opcode.get_nnn();
    }

    /// 3xkk
    pub fn skip_3xkk(&mut self)
        requires
            old(self).wf(),
        ensures
            final(self).wf(),
            skip_eq_imm_applied(*old(self), *final(self), old(self).opcode.0),
    {
        let step: u16 = if self.get_vx() == self.opcode.get_nn() { 4 } else { 2 };
        self.pc = self.pc.wrapping_add(step);
    }

    /// 4xkk
    pub fn skip_4xkk(&mut self)
        requires
            old(self).wf(),
        ensures
            final(self).wf(),
            skip_ne_imm_applied(*old(self), *final(self), old(self).opcode.0),
    {
        let step: u16 = if self.get_vx() != self.opcode.get_nn() { 4 } else { 2 };
        self.pc = self.pc.wrapping_add(step);
    }

    /// 5xy0
    pub fn skip_5xy(&mut self)
        requires
            old(self).wf(),
        ensures
            final(self).wf(),
            skip_eq_reg_applied(*old(self), *final(self), old(self).opcode.0),
    {
        let step: u16 = if self.get_vx() == self.get_vy() { 4 } else { 2 };
        self.pc = self.pc.wrapping_add(step);
    }

    /// 9xy0
    pub fn skip_9xy(&mut self)
        requires
            old(self).wf(),
        ensures
            final(self).wf(),
            skip_ne_reg_applied(*old(self), *final(self), old(self).opcode.0),
    {
        let step: u16 = if self.get_vx() != self.get_vy() { 4 } else { 2 };
        self.pc = self.pc.wrapping_add(step);
    }

    /// 8xy0
    pub fn vy_to_vx(&mut self)
        requires
            old(self).wf(),
        ensures
            final(self).wf(),
            mov_applied(*old(self), *final(self), old(self).opcode.0),
    {
        let value = self.get_vy();
        self.set_vx(value);
        self.next_instruction();
    }

    /// 8xy1
    pub fn vx_or_vy(&mut self)
        requires
            old(self).wf(),
        ensures
            final(self).wf(),
            or_applied(*old(self), *final(self), old(self).opcode.0),
    {
        let value = self.get_vx() | self.get_vy();
        self.set_vx(value);
        self.next_instruction();
    }

    /// 8xy2
    pub fn vx_and_vy(&mut self)
        requires
            old(self).wf(),
        ensures
            final(self).wf(),
            and_applied(*old(self), *final(self), old(self).opcode.0),
    {
        let value = self.get_vx() & self.get_vy();
        self.set_vx(value);
        self.next_instruction();
    }

    /// 8xy3
    pub fn vx_xor_vy(&mut self)
        requires
            old(self).wf(),
        ensures
            final(self).wf(),
            xor_applied(*old(self), *final(self), old(self).opcode.0),
    {
        let value = self.get_vx() ^ self.get_vy();
        self.set_vx(value);
        self.next_instruction();
    }

    /// 8xy4: the flag register is 1 exactly when the true sum exceeds
    /// 255, and the stored result is the sum modulo 256.
    pub fn vx_add_vy(&mut self)
        requires
            old(self).wf(),
        ensures
            final(self).wf(),
            add_applied(*old(self), *final(self), old(self).opcode.0),
            final(self).regs@[15] == (if old(self).vx() + old(self).vy() > 255 {
                1u8
            } else {
                0u8
            }),
            old(self).x_sel() != 15 ==> final(self).regs@[old(self).x_sel()] == (old(self).vx()
                + old(self).vy()) % 256,
    {
        let sum: u16 = self.get_vx() as u16 + self.get_vy() as u16;
        let flag: u8 = if sum > 255 { 1 } else { 0 };
        self.set_vx((sum % 256) as u8);
        self.set_flag(flag);
        self.next_instruction();
    }

    /// 8xy5: the flag register is 1 exactly when no borrow occurred
    /// (`Vx >= Vy`), and the stored result is `Vx - Vy` modulo 256.
    pub fn vx_sub_vy(&mut self)
        requires
            old(self).wf(),
        ensures
            final(self).wf(),
            sub_applied(*old(self), *final(self), old(self).opcode.0),
            final(self).regs@[15] == (if old(self).vx() >= old(self).vy() { 1u8 } else { 0u8 }),
            old(self).x_sel() != 15 ==> final(self).regs@[old(self).x_sel()] == (old(self).vx()
                - old(self).vy()) % 256,
    {
        let a = self.get_vx();
        let b = self.get_vy();
        let value: u8 = if a >= b {
            a - b
        } else {
            ((a as u16 + 256) - b as u16) as u8
        };
        let flag: u8 = if a >= b { 1 } else { 0 };
        self.set_vx(value);
        self.set_flag(flag);
        self.next_instruction();
    }

    /// 8xy7: the flag register is 1 exactly when no borrow occurred
    /// (`Vy >= Vx`), and the stored result is `Vy - Vx` modulo 256.
    pub fn vy_sub_vx(&mut self)
        requires
            old(self).wf(),
        ensures
            final(self).wf(),
            rsb_applied(*old(self), *final(self), old(self).opcode.0),
            final(self).regs@[15] == (if old(self).vy() >= old(self).vx() { 1u8 } else { 0u8 }),
            old(self).x_sel() != 15 ==> final(self).regs@[old(self).x_sel()] == (old(self).vy()
                - old(self).vx()) % 256,
    {
        let a = self.get_vy();
        let b = self.get_vx();
        let value: u8 = if a >= b {
            a - b
        } else {
            ((a as u16 + 256) - b as u16) as u8
        };
        let flag: u8 = if a >= b { 1 } else { 0 };
        self.set_vx(value);
        self.set_flag(flag);
        self.next_instruction();
    }

    /// 8xy6
    pub fn vx_shr(&mut self)
        requires
            old(self).wf(),
        ensures
            final(self).wf(),
            shr_applied(*old(self), *final(self), old(self).opcode.0),
    {
        let src = if self.quirks.shift_reads_vy {
            self.get_vy()
        } else {
            self.get_vx()
        };
        self.set_vx(src >> 1);
        self.set_flag(src & 1);
        self.next_instruction();
    }

    /// 8xyE
    pub fn vx_shl(&mut self)
        requires
            old(self).wf(),
        ensures
            final(self).wf(),
            shl_applied(*old(self), *final(self), old(self).opcode.0),
    {
        let src = if self.quirks.shift_reads_vy {
            self.get_vy()
        } else {
            self.get_vx()
        };
        self.set_vx(src << 1);
        let flag: u8 = if src & 0x80 != 0 { 1 } else { 0 };
        self.set_flag(flag);
        self.next_instruction();
    }

    /// 6xkk
    pub fn put_value_to_vx(&mut self)
        requires
            old(self).wf(),
        ensures
            final(self).wf(),
            put_imm_applied(*old(self), *final(self), old(self).opcode.0),
    {
        let value = self.opcode.get_nn();
        self.set_vx(value);
        self.next_instruction();
    }

    /// 7xkk
    pub fn add_value_to_vx(&mut self)
        requires
            old(self).wf(),
        ensures
            final(self).wf(),
            add_imm_applied(*old(self), *final(self), old(self).opcode.0),
    {
        let sum: u16 = self.get_vx() as u16 + self.opcode.get_nn() as u16;
        self.set_vx((sum % 256) as u8);
        self.next_instruction();
    }

    /// Annn
    pub fn set_i_reg(&mut self)
        requires
            old(self).wf(),
        ensures
            final(self).wf(),
            set_i_applied(*old(self), *final(self), old(self).opcode.0),
    {
        self.i_reg = self.opcode.get_nnn();
        self.next_instruction();
    }

    /// Bnnn
    pub fn jump_to_addr_offset(&mut self)
        requires
            old(self).wf(),
        ensures
            final(self).wf(),
            jump_off_applied(*old(self), *final(self), old(self).opcode.0),
    {
        self.pc = self.opcode.get_nnn() + self.regs[0] as u16;
    }

    /// Cxnn: draw a byte from the pseudo-random source, then store it
    /// masked by the immediate. The contract promises only what holds
    /// of every possible outcome.
    pub fn add_random_to_vx(&mut self)
        requires
            old(self).wf(),
        ensures
            final(self).wf(),
            exists|r: u8| rand_applied(*old(self), *final(self), old(self).opcode.0, r),
    {
        let r = rng::next_byte(&mut self.rand);
        self.put_masked_random(r);
        assert(rand_applied(*old(self), *self, old(self).opcode.0, r));
    }

    /// The verified tail of the masked-random instruction: store `r`
    /// masked by the immediate into `Vx` and step the counter.
    pub fn put_masked_random(&mut self, r: u8)
        requires
            old(self).wf(),
        ensures
            final(self).wf(),
            rand_applied(*old(self), *final(self), old(self).opcode.0, r),
    {
        let nn = self.opcode.get_nn();
        self.set_vx(r & nn);
        self.next_instruction();
    }

    /// Dxyn: XOR-composite a sprite onto the framebuffer. A sprite is
    /// `n` consecutive memory bytes starting at the index register, each
    /// byte one row of eight pixels, most significant bit leftmost. The
    /// flag register reports whether any drawn pixel was already lit.
    /// Under the wrap quirk coordinates reduce modulo the display size;
    /// otherwise pixels falling outside the display are clipped.
    pub fn draw_sprite(&mut self, display: &mut Display)
        requires
            old(self).wf(),
            old(display).wf(),
            op_n(old(self).opcode.0) > 0 ==> old(self).i_reg + op_n(old(self).opcode.0) <= 4096,
        ensures
            final(self).wf(),
            final(display).wf(),
            draw_applied(
                *old(self),
                *final(self),
                old(self).opcode.0,
                old(display).memory@,
                final(display).memory@,
            ),
    {
        let x0 = self.get_vx();
        let y0 = self.get_vy();
        let height = self.opcode.get_z();
        let wrap = self.quirks.sprite_wrap;
        let ghost fb0: Seq<u8> = display.memory@;
        let ghost mem0: Seq<u8> = self.memory@;
        let ghost ii: int = self.i_reg as int;
        let mut collided = false;
        let mut row: u8 = 0;
        while row < height
            invariant
                self == old(self),
                self.wf(),
                display.memory@.len() == 2048,
                forall|q: int| 0 <= q < 2048 ==> display.memory@[q] <= 1,
                row <= height,
                height < 16,
                height == op_n(self.opcode.0),
                height > 0 ==> ii + height <= 4096,
                x0 == self.vx(),
                y0 == self.vy(),
                wrap == self.quirks.sprite_wrap,
                fb0.len() == 2048,
                forall|q: int| 0 <= q < 2048 ==> fb0[q] <= 1,
                mem0 == self.memory@,
                ii == self.i_reg as int,
                forall|q: int|
                    0 <= q < 2048 ==> display.memory@[q] == (if draw_hits_upto(
                        mem0,
                        ii,
                        x0,
                        y0,
                        wrap,
                        q,
                        row as int,
                        0,
                    ) {
                        fb0[q] ^ 1
                    } else {
                        fb0[q]
                    }),
                collided == draw_collides_upto(fb0, mem0, ii, x0, y0, wrap, row as int, 0),
            decreases height - row,
        {
            let sprite_row = self.memory[(self.i_reg + row as u16) as usize];
            let mut col: u8 = 0;
            while col < 8
                invariant
                    self == old(self),
                    self.wf(),
                    display.memory@.len() == 2048,
                    forall|q: int| 0 <= q < 2048 ==> display.memory@[q] <= 1,
                    col <= 8,
                    row < height,
                    height < 16,
                    height == op_n(self.opcode.0),
                    ii + height <= 4096,
                    x0 == self.vx(),
                    y0 == self.vy(),
                    wrap == self.quirks.sprite_wrap,
                    fb0.len() == 2048,
                    forall|q: int| 0 <= q < 2048 ==> fb0[q] <= 1,
                    mem0 == self.memory@,
                    ii == self.i_reg as int,
                    sprite_row == mem0[ii + row],
                    forall|q: int|
                        0 <= q < 2048 ==> display.memory@[q] == (if draw_hits_upto(
                            mem0,
                            ii,
                            x0,
                            y0,
                            wrap,
                            q,
                            row as int,
                            col as int,
                        ) {
                            fb0[q] ^ 1
                        } else {
                            fb0[q]
                        }),
                    collided == draw_collides_upto(
                        fb0,
                        mem0,
                        ii,
                        x0,
                        y0,
                        wrap,
                        row as int,
                        col as int,
                    ),
                decreases 8 - col,
            {
                if sprite_row & (0x80 >> col) != 0 {
                    let px: u16;
                    let py: u16;
                    let visible: bool;
                    if wrap {
                        px = (x0 as u16 + col as u16) % 64;
                        py = (y0 as u16 + row as u16) % 32;
                        visible = true;
                    } else {
                        px = x0 as u16 + col as u16;
                        py = y0 as u16 + row as u16;
                        visible = px < 64 && py < 32;
                    }
                    proof {
                        assert(visible == draw_visible(x0, y0, row as int, col as int, wrap));
                    }
                    if visible {
                        let pos = (py * 64 + px) as usize;
                        proof {
                            assert(pos as int == draw_pos(x0, y0, row as int, col as int, wrap));
                            if draw_hits_upto(
                                mem0,
                                ii,
                                x0,
                                y0,
                                wrap,
                                pos as int,
                                row as int,
                                col as int,
                            ) {
                                let (r2, c2) = choose|r2: int, c2: int|
                                    0 <= r2 && 0 <= c2 < 8 && (r2 < row as int || (r2 == row as int
                                        && c2 < col as int)) && sprite_bit(mem0[ii + r2], c2)
                                        && draw_visible(x0, y0, r2, c2, wrap)
                                        && #[trigger] draw_pos(x0, y0, r2, c2, wrap) == pos as int;
                                lemma_draw_pos_injective(
                                    x0,
                                    y0,
                                    wrap,
                                    r2,
                                    c2,
                                    row as int,
                                    col as int,
                                );
                                assert(false);
                            }
                        }
                        let cur = display.memory[pos];
                        if cur == 1 {
                            collided = true;
                        }
                        display.memory[pos] = cur ^ 1;
                        proof {
                            lemma_flip_bit(cur);
                        }
                    }
                }
                proof {
                    lemma_draw_col_step(fb0, mem0, ii, x0, y0, wrap, row as int, col as int);
                }
                col = col + 1;
            }
            proof {
                lemma_draw_row_step(fb0, mem0, ii, x0, y0, wrap, row as int);
            }
            row = row + 1;
        }
        proof {
            assert(display.memory@ =~= draw_result(
                fb0,
                mem0,
                ii,
                op_n(self.opcode.0) as int,
                x0,
                y0,
                wrap,
            ));
        }
        let flag: u8 = if collided {
            1
        } else {
            0
        };
        self.set_flag(flag);
        self.next_instruction();
    }

    /// Ex9E: skip when the key whose index is the value of `Vx` is
    /// down. A value above 0xF names no key and is reduced modulo 16.
    pub fn skip_on_keydown(&mut self, keyboard: &Vec<bool>)
        requires
            old(self).wf(),
            keyboard@.len() == 16,
        ensures
            final(self).wf(),
            skip_key_applied(*old(self), *final(self), old(self).opcode.0, keyboard@, true),
    {
        let key = self.get_vx() % 16;
        let step: u16 = if keyboard[key as usize] { 4 } else { 2 };
        self.pc = self.pc.wrapping_add(step);
    }

    /// ExA1: skip when the key whose index is the value of `Vx` is up.
    /// A value above 0xF names no key and is reduced modulo 16.
    pub fn skip_on_keyup(&mut self, keyboard: &Vec<bool>)
        requires
            old(self).wf(),
            keyboard@.len() == 16,
        ensures
            final(self).wf(),
            skip_key_applied(*old(self), *final(self), old(self).opcode.0, keyboard@, false),
    {
        let key = self.get_vx() % 16;
        let step: u16 = if !keyboard[key as usize] { 4 } else { 2 };
        self.pc = self.pc.wrapping_add(step);
    }

    /// Fx1E
    pub fn add_vx_to_i(&mut self)
        requires
            old(self).wf(),
        ensures
            final(self).wf(),
            add_i_applied(*old(self), *final(self), old(self).opcode.0),
    {
        let vx = self.get_vx();
        self.i_reg = self.i_reg.wrapping_add(vx as u16);
        self.next_instruction();
    }

    /// Fx29
    pub fn set_font_char_addr(&mut self)
        requires
            old(self).wf(),
        ensures
            final(self).wf(),
            font_addr_applied(*old(self), *final(self), old(self).opcode.0),
    {
        let vx = self.get_vx();
        self.i_reg = (vx as u16) * 5;
        self.next_instruction();
    }

    /// Fx33
    pub fn vx_decimal_to_ireg(&mut self)
        requires
            old(self).wf(),
            old(self).i_reg + 2 < 4096,
        ensures
            final(self).wf(),
            bcd_applied(*old(self), *final(self), old(self).opcode.0),
    {
        let value = self.get_vx();
        let i = self.i_reg as usize;
        self.memory[i] = value / 100;
        self.memory[i + 1] = (value / 10) % 10;
        self.memory[i + 2] = value % 10;
        self.next_instruction();
    }

    /// Fx55
    pub fn store_regs_in_memory(&mut self)
        requires
            old(self).wf(),
            old(self).i_reg + op_x(old(self).opcode.0) < 4096,
        ensures
            final(self).wf(),
            store_regs_applied(*old(self), *final(self), old(self).opcode.0),
    {
        let x_index = self.opcode.get_x() as usize;
        let i = self.i_reg as usize;
        let mut reg_index: usize = 0;
        while reg_index <= x_index
            invariant
                self.wf(),
                x_index == op_x(self.opcode.0),
                x_index < 16,
                i == self.i_reg,
                i + x_index < 4096,
                reg_index <= x_index + 1,
                forall|k: int| 0 <= k < reg_index ==> self.memory@[i + k] == self.regs@[k],
                forall|a: int|
                    0 <= a < 4096 && !(i <= a < i + reg_index) ==> self.memory@[a] == old(
                        self,
                    ).memory@[a],
                self.regs@ == old(self).regs@,
                self.i_reg == old(self).i_reg,
                self.pc == old(self).pc,
                self.sp == old(self).sp,
                self.stack@ == old(self).stack@,
                self.opcode == old(self).opcode,
                self.quirks == old(self).quirks,
            decreases x_index + 1 - reg_index,
        {
            self.memory[i + reg_index] = self.regs[reg_index];
            reg_index = reg_index + 1;
        }
        if self.quirks.transfer_moves_index {
            self.i_reg = self.i_reg + self.opcode.get_x() as u16 + 1;
        }
        self.next_instruction();
    }

    /// Fx65
    pub fn store_memory_in_regs(&mut self)
        requires
            old(self).wf(),
            old(self).i_reg + op_x(old(self).opcode.0) < 4096,
        ensures
            final(self).wf(),
            load_regs_applied(*old(self), *final(self), old(self).opcode.0),
    {
        let x_index = self.opcode.get_x() as usize;
        let i = self.i_reg as usize;
        let mut reg_index: usize = 0;
        while reg_index <= x_index
            invariant
                self.wf(),
                x_index == op_x(self.opcode.0),
                x_index < 16,
                i == self.i_reg,
                i + x_index < 4096,
                reg_index <= x_index + 1,
                forall|k: int| 0 <= k < reg_index ==> self.regs@[k] == self.memory@[i + k],
                forall|k: int| reg_index <= k < 16 ==> self.regs@[k] == old(self).regs@[k],
                self.memory@ == old(self).memory@,
                self.i_reg == old(self).i_reg,
                self.pc == old(self).pc,
                self.sp == old(self).sp,
                self.stack@ == old(self).stack@,
                self.opcode == old(self).opcode,
                self.quirks == old(self).quirks,
            decreases x_index + 1 - reg_index,
        {
            self.regs[reg_index] = self.memory[i + reg_index];
            reg_index = reg_index + 1;
        }
        if self.quirks.transfer_moves_index {
            self.i_reg = self.i_reg + self.opcode.get_x() as u16 + 1;
        }
        self.next_instruction();
    }

    // === Helpers ===

    /// The register selected by the stored opcode's `x` field.
    pub fn get_vx(&self) -> (r: u8)
        requires
            self.wf(),
        ensures
            r == self.vx(),
            0 <= self.x_sel() < 16,
    {
        let x = self.opcode.get_x();
        self.regs[x as usize]
    }

    /// Store `value` into the register selected by `x`.
    pub fn set_vx(&mut self, value: u8)
        requires
            old(self).wf(),
        ensures
            final(self).wf(),
            only_regs_changed(*old(self), *final(self)),
            final(self).opcode == old(self).opcode,
            final(self).regs@ == old(self).regs@.update(old(self).x_sel(), value),
            0 <= old(self).x_sel() < 16,
    {
        let x = self.opcode.get_x();
        self.regs[x as usize] = value;
    }

    /// The register selected by the stored opcode's `y` field.
    fn get_vy(&self) -> (r: u8)
        requires
            self.wf(),
        ensures
            r == self.vy(),
            0 <= self.y_sel() < 16,
    {
        let y = self.opcode.get_y();
        self.regs[y as usize]
    }

    /// Store a carry/borrow/collision outcome into the flag register.
    fn set_flag(&mut self, flag: u8)
        requires
            old(self).wf(),
        ensures
            final(self).wf(),
            only_regs_changed(*old(self), *final(self)),
            final(self).opcode == old(self).opcode,
            final(self).regs@ == old(self).regs@.update(15, flag),
    {
        self.regs[15] = flag;
    }
}

// === Laws ===

/// Sprite drawing is an involution: XOR-compositing the same sprite at
/// the same location twice restores the framebuffer exactly. The second
/// draw collides exactly when the first draw set some pixel, that is,
/// when some visible set sprite pixel landed on an unlit cell.
pub proof fn lemma_draw_twice_restores(
    fb0: Seq<u8>,
    mem: Seq<u8>,
    i: int,
    n: int,
    x0: u8,
    y0: u8,
    wrap: bool,
)
    requires
        fb0.len() == 2048,
        forall|p: int| 0 <= p < 2048 ==> fb0[p] <= 1,
        0 <= n <= 16,
    ensures
        draw_result(draw_result(fb0, mem, i, n, x0, y0, wrap), mem, i, n, x0, y0, wrap) == fb0,
        draw_collides(draw_result(fb0, mem, i, n, x0, y0, wrap), mem, i, n, x0, y0, wrap) <==> (
        exists|r: int, c: int|
            0 <= r < n && 0 <= c < 8 && sprite_bit(mem[i + r], c) && draw_visible(x0, y0, r, c, wrap)
                && fb0[#[trigger] draw_pos(x0, y0, r, c, wrap)] == 0),
{
    let fb1 = draw_result(fb0, mem, i, n, x0, y0, wrap);
    let fb2 = draw_result(fb1, mem, i, n, x0, y0, wrap);
    assert forall|p: int| 0 <= p < 2048 implies fb2[p] == fb0[p] by {
        lemma_flip_bit(fb0[p]);
    }
    assert(fb2 =~= fb0);
    if draw_collides(fb1, mem, i, n, x0, y0, wrap) {
        let (r, c) = choose|r: int, c: int|
            0 <= r && 0 <= c < 8 && (r < n || (r == n && c < 0)) && sprite_bit(mem[i + r], c)
                && draw_visible(x0, y0, r, c, wrap) && fb1[#[trigger] draw_pos(
                x0,
                y0,
                r,
                c,
                wrap,
            )] == 1;
        let p = draw_pos(x0, y0, r, c, wrap);
        assert(draw_hits(mem, i, n, x0, y0, wrap, p));
        lemma_hit_pos_in_range(mem, i, x0, y0, wrap, p, n, 0);
        lemma_flip_bit(fb0[p]);
    }
    if exists|r: int, c: int|
        0 <= r < n && 0 <= c < 8 && sprite_bit(mem[i + r], c) && draw_visible(x0, y0, r, c, wrap)
            && fb0[#[trigger] draw_pos(x0, y0, r, c, wrap)] == 0 {
        let (r, c) = choose|r: int, c: int|
            0 <= r < n && 0 <= c < 8 && sprite_bit(mem[i + r], c) && draw_visible(
                x0,
                y0,
                r,
                c,
                wrap,
            ) && fb0[#[trigger] draw_pos(x0, y0, r, c, wrap)] == 0;
        let p = draw_pos(x0, y0, r, c, wrap);
        assert(draw_hits(mem, i, n, x0, y0, wrap, p));
        lemma_hit_pos_in_range(mem, i, x0, y0, wrap, p, n, 0);
        lemma_flip_bit(fb0[p]);
        assert(fb1[p] == 1);
        assert(draw_collides_upto(fb1, mem, i, x0, y0, wrap, n, 0));
    }
}

/// The same law at the operation level: two sprite draws from the same
/// state (two cycles of the same Dxyn instruction, with the counter and
/// flag differences having no bearing on the sprite or its location)
/// restore the framebuffer exactly, and the second draw's collision flag
/// is set exactly when the first draw set some pixel. The register
/// selectors must not name the flag register, which the first draw
/// overwrites.
pub proof fn lemma_draw_sprite_twice(
    pre: CPU,
    mid: CPU,
    post: CPU,
    op: u16,
    fb0: Seq<u8>,
    fb1: Seq<u8>,
    fb2: Seq<u8>,
)
    requires
        pre.wf(),
        fb0.len() == 2048,
        forall|p: int| 0 <= p < 2048 ==> fb0[p] <= 1,
        op_x(op) != 15,
        op_y(op) != 15,
        draw_applied(pre, mid, op, fb0, fb1),
        draw_applied(mid, post, op, fb1, fb2),
    ensures
        fb2 == fb0,
        post.regs@[15] == 1u8 <==> (exists|r: int, c: int|
            0 <= r < op_n(op) && 0 <= c < 8 && sprite_bit(pre.memory@[pre.i_reg + r], c)
                && draw_visible(
                pre.regs@[op_x(op) as int],
                pre.regs@[op_y(op) as int],
                r,
                c,
                pre.quirks.sprite_wrap,
            ) && fb0[#[trigger] draw_pos(
                pre.regs@[op_x(op) as int],
                pre.regs@[op_y(op) as int],
                r,
                c,
                pre.quirks.sprite_wrap,
            )] == 0),
{
    let x0 = pre.regs@[op_x(op) as int];
    let y0 = pre.regs@[op_y(op) as int];
    let i = pre.i_reg as int;
    let n = op_n(op) as int;
    let wrap = pre.quirks.sprite_wrap;
    lemma_op_field_bounds(op);
    assert(mid.regs@[op_x(op) as int] == x0);
    assert(mid.regs@[op_y(op) as int] == y0);
    lemma_draw_twice_restores(fb0, pre.memory@, i, n, x0, y0, wrap);
}

/// A call followed by a return restores the program counter to the
/// instruction immediately after the call and leaves registers, memory,
/// the index register and the stack depth as they were, at any call
/// depth up to sixteen.
pub proof fn lemma_call_then_return(s0: CPU, s1: CPU, s2: CPU, op: u16)
    requires
        s0.wf(),
        s0.sp < 16,
        call_applied(s0, s1, op),
        ret_applied(s1, s2, op),
    ensures
        s2.pc == wrap16(s0.pc + 2),
        s2.sp == s0.sp,
        s2.regs@ == s0.regs@,
        s2.memory@ == s0.memory@,
        s2.i_reg == s0.i_reg,
{
}

} // verus!

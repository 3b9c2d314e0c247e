//! The machine model and the meaning of every opcode.
//!
//! `ChipM` is the mathematical image of the machine state, and
//! `step_spec` says, for one fetched instruction, what the next state
//! is: which fault the instruction raises, or the new registers,
//! memory, screen and timers. The executable engine in `chip` is
//! proved to follow `step_spec` exactly; the laws in `laws` are
//! consequences of it.

use vstd::prelude::*;

use crate::display::blank_screen;
use crate::display::SCREEN_PIXELS;
use crate::instructions::decode_spec;
use crate::instructions::Instruction;
use crate::instructions::Opcode;

verus! {

/// Number of addressable bytes of memory.
pub const MEM_SIZE: usize = 4096;

/// First address of the loadable region; the program counter starts here.
pub const START_MEM: u16 = 0x200;

/// Capacity of the call stack, in return addresses.
pub const STACK_SIZE: usize = 16;

/// Number of general registers.
pub const NUM_REGS: usize = 16;

/// Number of logical keys.
pub const NUM_KEYS: usize = 16;

/// First address of the built-in hex-digit sprite font.
pub const FONT_BASE: u16 = 0x50;

/// A fault an instruction can raise. The machine state is left
/// untouched when one is raised.
#[derive(Clone, Copy, Debug, PartialEq, Eq, Structural)]
pub enum Fault {
    /// The word matches no opcode pattern; carries the word and the
    /// program counter it was fetched from.
    IllegalOpcode { opcode: u16, pc: u16 },
    /// A call was executed with the call stack already full.
    StackOverflow,
    /// A return was executed with the call stack empty.
    StackUnderflow,
}

/// The machine state as mathematics: sequences for the register
/// file, the call stack and memory, plain integers for the rest.
pub ghost struct ChipM {
    pub v: Seq<u8>,
    pub i: u16,
    pub stack: Seq<u16>,
    pub sp: nat,
    pub st: u8,
    pub dt: u8,
    pub pc: u16,
    pub mem: Seq<u8>,
    pub shift_quirk: bool,
}

/// A full step outcome: the next machine state, the next screen, and
/// the fault if one was raised.
pub ghost struct StepR {
    pub chip: ChipM,
    pub fb: Seq<bool>,
    pub fault: Option<Fault>,
}

impl ChipM {
    /// The sequences have the sizes the machine fixes, and the stack
    /// pointer stays within the stack.
    pub open spec fn wf(self) -> bool {
        &&& self.v.len() == NUM_REGS
        &&& self.stack.len() == STACK_SIZE
        &&& self.sp <= STACK_SIZE
        &&& self.mem.len() == MEM_SIZE
    }
}

/// 8-bit addition, wrapping modulo 256.
pub open spec fn wrap_add8(a: u8, b: u8) -> u8 {
    ((a + b) % 0x100) as u8
}

/// 8-bit subtraction, wrapping modulo 256.
pub open spec fn wrap_sub8(a: u8, b: u8) -> u8 {
    ((a + 0x100 - b) % 0x100) as u8
}

/// 16-bit addition, wrapping modulo 65536.
pub open spec fn wrap_add16(a: u16, b: u16) -> u16 {
    ((a + b) % 0x10000) as u16
}

/// The state after the ordinary program-counter advance of one word.
pub open spec fn advanced(m: ChipM) -> ChipM {
    ChipM { pc: (m.pc + 2) as u16, ..m }
}

/// The state with register `x` set to `val` and the program counter
/// advanced.
pub open spec fn with_reg(m: ChipM, x: u8, val: u8) -> ChipM {
    ChipM { v: m.v.update(x as int, val), pc: (m.pc + 2) as u16, ..m }
}

/// Both timers decremented by one, floored at zero.
pub open spec fn tick_spec(m: ChipM) -> ChipM {
    ChipM {
        dt: if m.dt > 0 { (m.dt - 1) as u8 } else { 0 },
        st: if m.st > 0 { (m.st - 1) as u8 } else { 0 },
        ..m
    }
}

/// `00E0`: the screen is cleared; only the program counter moves.
pub open spec fn cls_spec(m: ChipM) -> ChipM {
    advanced(m)
}

/// `1nnn` and `Bnnn`: the program counter is set to the target, with
/// no advance applied.
pub open spec fn jump_spec(m: ChipM, ins: Instruction) -> ChipM {
    match decode_spec(ins) {
        Opcode::Jump { nnn } => ChipM { pc: nnn, ..m },
        Opcode::JumpV0 { nnn } => ChipM { pc: (nnn + m.v[0]) as u16, ..m },
        _ => m,
    }
}

/// `2nnn`: the return address is pushed and the program counter set
/// to the target. Only meaningful when the stack is not full.
pub open spec fn call_spec(m: ChipM, ins: Instruction) -> ChipM {
    ChipM {
        stack: m.stack.update(m.sp as int, (m.pc + 2) as u16),
        sp: (m.sp + 1) as nat,
        pc: ins.nnn,
        ..m
    }
}

/// `00EE`: the top return address is popped into the program counter
/// and its slot cleared. Only meaningful when the stack is not empty.
pub open spec fn rts_spec(m: ChipM) -> ChipM {
    ChipM {
        pc: m.stack[m.sp - 1],
        stack: m.stack.update(m.sp - 1, 0u16),
        sp: (m.sp - 1) as nat,
        ..m
    }
}

/// Whether a conditional skip's condition holds in state `m`.
pub open spec fn skip_cond(m: ChipM, ins: Instruction) -> bool {
    match decode_spec(ins) {
        Opcode::SkipEqImm { x, nn } => m.v[x as int] == nn,
        Opcode::SkipNeImm { x, nn } => m.v[x as int] != nn,
        Opcode::SkipEqReg { x, y } => m.v[x as int] == m.v[y as int],
        Opcode::SkipNeReg { x, y } => m.v[x as int] != m.v[y as int],
        _ => false,
    }
}

/// A conditional advance: by two words when `cond` holds, else one.
pub open spec fn skip_spec(m: ChipM, cond: bool) -> ChipM {
    ChipM { pc: (m.pc + if cond { 4int } else { 2int }) as u16, ..m }
}

/// `6xnn` and `Annn`: a register or the index register is loaded
/// with an immediate.
pub open spec fn mvi_spec(m: ChipM, ins: Instruction) -> ChipM {
    match decode_spec(ins) {
        Opcode::MovImm { x, nn } => with_reg(m, x, nn),
        Opcode::MovIdx { nnn } => ChipM { i: nnn, pc: (m.pc + 2) as u16, ..m },
        _ => m,
    }
}

/// `7xnn` and `Fx1E`: a wrapping add into a register or the index
/// register; no flag is touched.
pub open spec fn adi_spec(m: ChipM, ins: Instruction) -> ChipM {
    match decode_spec(ins) {
        Opcode::AddImm { x, nn } => with_reg(m, x, wrap_add8(m.v[x as int], nn)),
        Opcode::AddIdx { x } => ChipM {
            i: wrap_add16(m.i, m.v[x as int] as u16),
            pc: (m.pc + 2) as u16,
            ..m
        },
        _ => m,
    }
}

/// `8xy0`-`8xyE`: register-to-register moves, logic and arithmetic.
/// Every arithmetic form rewrites VF last, so a flag result wins over
/// a value written to VF itself.
pub open spec fn alu_spec(m: ChipM, ins: Instruction) -> ChipM {
    match decode_spec(ins) {
        Opcode::Mov { x, y } => with_reg(m, x, m.v[y as int]),
        Opcode::Or { x, y } => with_reg(m, x, m.v[x as int] | m.v[y as int]),
        Opcode::And { x, y } => with_reg(m, x, m.v[x as int] & m.v[y as int]),
        Opcode::Xor { x, y } => with_reg(m, x, m.v[x as int] ^ m.v[y as int]),
        Opcode::Add { x, y } => {
            let vf: u8 = if m.v[x as int] + m.v[y as int] > 0xFF { 1 } else { 0 };
            ChipM {
                v: m.v.update(x as int, wrap_add8(m.v[x as int], m.v[y as int])).update(15, vf),
                pc: (m.pc + 2) as u16,
                ..m
            }
        },
        Opcode::Sub { x, y } => {
            let vf: u8 = if m.v[x as int] >= m.v[y as int] { 1 } else { 0 };
            ChipM {
                v: m.v.update(x as int, wrap_sub8(m.v[x as int], m.v[y as int])).update(15, vf),
                pc: (m.pc + 2) as u16,
                ..m
            }
        },
        Opcode::Shr { x, y } => {
            let src = if m.shift_quirk { m.v[x as int] } else { m.v[y as int] };
            ChipM {
                v: m.v.update(x as int, src >> 1).update(15, src & 1),
                pc: (m.pc + 2) as u16,
                ..m
            }
        },
        Opcode::SubN { x, y } => {
            let vf: u8 = if m.v[y as int] >= m.v[x as int] { 1 } else { 0 };
            ChipM {
                v: m.v.update(x as int, wrap_sub8(m.v[y as int], m.v[x as int])).update(15, vf),
                pc: (m.pc + 2) as u16,
                ..m
            }
        },
        Opcode::Shl { x, y } => {
            let src = if m.shift_quirk { m.v[x as int] } else { m.v[y as int] };
            ChipM {
                v: m.v.update(x as int, src << 1).update(15, (src >> 7) & 1),
                pc: (m.pc + 2) as u16,
                ..m
            }
        },
        _ => m,
    }
}

/// `Cxnn`: the drawn random byte, masked by the immediate, lands in
/// the register.
pub open spec fn rnd_spec(m: ChipM, ins: Instruction, rnd: u8) -> ChipM {
    match decode_spec(ins) {
        Opcode::Rand { x, nn } => with_reg(m, x, rnd & nn),
        _ => m,
    }
}

/// Bit `col` (0 leftmost) of one sprite row byte.
pub open spec fn sprite_bit(b: u8, col: int) -> bool {
    (b >> ((7 - col) as u8)) & 1 == 1
}

/// The sprite column that lands on screen column `px` when the
/// sprite is drawn at column `x0`, wrapping at the right edge.
pub open spec fn col_back(px: int, x0: int) -> int {
    if px >= x0 {
        px - x0
    } else {
        px + 64 - x0
    }
}

/// The sprite row that lands on screen row `py` when the sprite is
/// drawn at row `y0`, wrapping at the bottom edge.
pub open spec fn row_back(py: int, y0: int) -> int {
    if py >= y0 {
        py - y0
    } else {
        py + 32 - y0
    }
}

/// Whether `Dxyn` toggles the screen pixel with flat index `idx`:
/// some set sprite bit lands there, wrapped per pixel.
pub open spec fn draw_toggles(m: ChipM, ins: Instruction, idx: int) -> bool {
    let x0 = (m.v[ins.x as int] as int) % 64;
    let y0 = (m.v[ins.y as int] as int) % 32;
    let col = col_back(idx % 64, x0);
    let row = row_back(idx / 64, y0);
    col < 8 && row < ins.l_nibble && sprite_bit(m.mem[m.i + row], col)
}

/// The screen after `Dxyn`: every pixel a set sprite bit lands on is
/// toggled, all others keep their value.
pub open spec fn draw_fb_spec(m: ChipM, fb: Seq<bool>, ins: Instruction) -> Seq<bool> {
    Seq::new(
        SCREEN_PIXELS as nat,
        |idx: int| if draw_toggles(m, ins, idx) { !fb[idx] } else { fb[idx] },
    )
}

/// Whether `Dxyn` turns some lit pixel off.
pub open spec fn draw_collision(m: ChipM, fb: Seq<bool>, ins: Instruction) -> bool {
    exists|idx: int| 0 <= idx < SCREEN_PIXELS && draw_toggles(m, ins, idx) && fb[idx]
}

/// The machine after `Dxyn`: VF reports the collision, the program
/// counter advances.
pub open spec fn draw_chip_spec(m: ChipM, fb: Seq<bool>, ins: Instruction) -> ChipM {
    ChipM {
        v: m.v.update(15, if draw_collision(m, fb, ins) { 1u8 } else { 0u8 }),
        pc: (m.pc + 2) as u16,
        ..m
    }
}

/// `Ex9E` and `ExA1`: a skip conditioned on the key named by the
/// register being down or up.
pub open spec fn skipkey_spec(m: ChipM, keys: Seq<bool>, ins: Instruction) -> ChipM {
    match decode_spec(ins) {
        Opcode::SkipKeyDown { x } => skip_spec(m, keys[m.v[x as int] as int]),
        Opcode::SkipKeyUp { x } => skip_spec(m, !keys[m.v[x as int] as int]),
        _ => m,
    }
}

/// The lowest-numbered key at or above `k` that is down.
pub open spec fn first_down_from(keys: Seq<bool>, k: int) -> Option<u8>
    decreases NUM_KEYS - k,
{
    if k < 0 || k >= NUM_KEYS {
        None
    } else if keys[k] {
        Some(k as u8)
    } else {
        first_down_from(keys, k + 1)
    }
}

/// The lowest-numbered key that is down, if any.
pub open spec fn first_key_down(keys: Seq<bool>) -> Option<u8> {
    first_down_from(keys, 0)
}

/// Searching from the start and searching from `k` agree while every
/// key below `k` is up.
pub proof fn lemma_first_down_from(keys: Seq<bool>, k: int)
    requires
        0 <= k <= NUM_KEYS,
        keys.len() == NUM_KEYS,
        forall|j: int| 0 <= j < k ==> !keys[j],
    ensures
        first_down_from(keys, 0) == first_down_from(keys, k),
    decreases k,
{
    if k > 0 {
        lemma_first_down_from(keys, k - 1);
    }
}

/// The memory image after `Fx55`: registers `V0..=Vx` stored at
/// `I..=I+x`, the rest untouched.
pub open spec fn store_span(mem: Seq<u8>, i: int, v: Seq<u8>, x: u8) -> Seq<u8> {
    Seq::new(mem.len(), |a: int| if i <= a <= i + x { v[a - i] } else { mem[a] })
}

/// The register file after `Fx65`: `V0..=Vx` loaded from `I..=I+x`,
/// the rest untouched.
pub open spec fn load_span(v: Seq<u8>, mem: Seq<u8>, i: int, x: u8) -> Seq<u8> {
    Seq::new(v.len(), |r: int| if r <= x { mem[i + r] } else { v[r] })
}

/// The `Fx..` family: timers, key wait, font lookup, BCD store, and
/// the register block moves. `Fx1E` is covered by `adi_spec`.
pub open spec fn fx_spec(m: ChipM, keys: Seq<bool>, ins: Instruction) -> ChipM {
    match decode_spec(ins) {
        Opcode::MovFromDelay { x } => with_reg(m, x, m.dt),
        Opcode::MovToDelay { x } => ChipM { dt: m.v[x as int], pc: (m.pc + 2) as u16, ..m },
        Opcode::MovToSound { x } => ChipM { st: m.v[x as int], pc: (m.pc + 2) as u16, ..m },
        Opcode::WaitKey { x } => match first_key_down(keys) {
            Some(k) => with_reg(m, x, k),
            None => m,
        },
        Opcode::SpriteChar { x } => ChipM {
            i: (FONT_BASE + 5 * (m.v[x as int] & 0xF)) as u16,
            pc: (m.pc + 2) as u16,
            ..m
        },
        Opcode::StoreBcd { x } => ChipM {
            mem: m.mem
                .update(m.i as int, (m.v[x as int] / 100) as u8)
                .update(m.i + 1, ((m.v[x as int] / 10) % 10) as u8)
                .update(m.i + 2, (m.v[x as int] % 10) as u8),
            pc: (m.pc + 2) as u16,
            ..m
        },
        Opcode::StoreRegs { x } => ChipM {
            mem: store_span(m.mem, m.i as int, m.v, x),
            pc: (m.pc + 2) as u16,
            ..m
        },
        Opcode::LoadRegs { x } => ChipM {
            v: load_span(m.v, m.mem, m.i as int, x),
            pc: (m.pc + 2) as u16,
            ..m
        },
        _ => m,
    }
}

/// The fault `ins` raises in state `pre`, if any.
pub open spec fn fault_spec(pre: ChipM, ins: Instruction) -> Option<Fault> {
    if decode_spec(ins) is Illegal {
        Some(Fault::IllegalOpcode { opcode: ins.opcode, pc: pre.pc })
    } else if decode_spec(ins) is Call && pre.sp >= STACK_SIZE {
        Some(Fault::StackOverflow)
    } else if decode_spec(ins) is Ret && pre.sp == 0 {
        Some(Fault::StackUnderflow)
    } else {
        None
    }
}

/// The machine and screen after a fault-free execution of `ins`,
/// before the timer tick.
pub open spec fn apply_spec(
    pre: ChipM,
    fb: Seq<bool>,
    ins: Instruction,
    keys: Seq<bool>,
    rnd: u8,
) -> (ChipM, Seq<bool>) {
    match decode_spec(ins) {
        Opcode::Cls => (cls_spec(pre), blank_screen()),
        Opcode::Ret => (rts_spec(pre), fb),
        Opcode::Jump { .. } => (jump_spec(pre, ins), fb),
        Opcode::JumpV0 { .. } => (jump_spec(pre, ins), fb),
        Opcode::Call { .. } => (call_spec(pre, ins), fb),
        Opcode::SkipEqImm { .. } => (skip_spec(pre, skip_cond(pre, ins)), fb),
        Opcode::SkipNeImm { .. } => (skip_spec(pre, skip_cond(pre, ins)), fb),
        Opcode::SkipEqReg { .. } => (skip_spec(pre, skip_cond(pre, ins)), fb),
        Opcode::SkipNeReg { .. } => (skip_spec(pre, skip_cond(pre, ins)), fb),
        Opcode::MovImm { .. } => (mvi_spec(pre, ins), fb),
        Opcode::MovIdx { .. } => (mvi_spec(pre, ins), fb),
        Opcode::AddImm { .. } => (adi_spec(pre, ins), fb),
        Opcode::AddIdx { .. } => (adi_spec(pre, ins), fb),
        Opcode::Mov { .. } => (alu_spec(pre, ins), fb),
        Opcode::Or { .. } => (alu_spec(pre, ins), fb),
        Opcode::And { .. } => (alu_spec(pre, ins), fb),
        Opcode::Xor { .. } => (alu_spec(pre, ins), fb),
        Opcode::Add { .. } => (alu_spec(pre, ins), fb),
        Opcode::Sub { .. } => (alu_spec(pre, ins), fb),
        Opcode::Shr { .. } => (alu_spec(pre, ins), fb),
        Opcode::SubN { .. } => (alu_spec(pre, ins), fb),
        Opcode::Shl { .. } => (alu_spec(pre, ins), fb),
        Opcode::Rand { .. } => (rnd_spec(pre, ins, rnd), fb),
        Opcode::Draw { .. } => (draw_chip_spec(pre, fb, ins), draw_fb_spec(pre, fb, ins)),
        Opcode::SkipKeyDown { .. } => (skipkey_spec(pre, keys, ins), fb),
        Opcode::SkipKeyUp { .. } => (skipkey_spec(pre, keys, ins), fb),
        Opcode::MovFromDelay { .. } => (fx_spec(pre, keys, ins), fb),
        Opcode::WaitKey { .. } => (fx_spec(pre, keys, ins), fb),
        Opcode::MovToDelay { .. } => (fx_spec(pre, keys, ins), fb),
        Opcode::MovToSound { .. } => (fx_spec(pre, keys, ins), fb),
        Opcode::SpriteChar { .. } => (fx_spec(pre, keys, ins), fb),
        Opcode::StoreBcd { .. } => (fx_spec(pre, keys, ins), fb),
        Opcode::StoreRegs { .. } => (fx_spec(pre, keys, ins), fb),
        Opcode::LoadRegs { .. } => (fx_spec(pre, keys, ins), fb),
        Opcode::Illegal => (pre, fb),
    }
}

/// One full execution step of `ins`: either the fault it raises,
/// with everything untouched, or the applied opcode followed by the
/// timer tick.
pub open spec fn step_spec(
    pre: ChipM,
    fb: Seq<bool>,
    ins: Instruction,
    keys: Seq<bool>,
    rnd: u8,
) -> StepR {
    match fault_spec(pre, ins) {
        Some(f) => StepR { chip: pre, fb: fb, fault: Some(f) },
        None => {
            let applied = apply_spec(pre, fb, ins, keys, rnd);
            StepR { chip: tick_spec(applied.0), fb: applied.1, fault: None }
        },
    }
}

/// Whether executing `ins` in state `pre` with screen `fb0`, keypad
/// `keys` and random byte `b` yields exactly the state `post`, the
/// screen `fb1` and the result `r`.
pub open spec fn step_outcome(
    pre: ChipM,
    fb0: Seq<bool>,
    ins: Instruction,
    keys: Seq<bool>,
    b: u8,
    post: ChipM,
    fb1: Seq<bool>,
    r: Result<(), Fault>,
) -> bool {
    let s = step_spec(pre, fb0, ins, keys, b);
    &&& post == s.chip
    &&& fb1 == s.fb
    &&& r == (match s.fault {
        Some(f) => Err::<(), Fault>(f),
        None => Ok::<(), Fault>(()),
    })
}

/// What an execution step asks of its inputs: well-formed state and
/// instruction, full-sized screen and keypad, a program counter that
/// points at two addressable bytes, memory accesses within bounds,
/// and a key index within the keypad.
pub open spec fn ready(pre: ChipM, fb: Seq<bool>, ins: Instruction, keys: Seq<bool>) -> bool {
    &&& pre.wf()
    &&& ins.wf()
    &&& fb.len() == SCREEN_PIXELS
    &&& keys.len() == NUM_KEYS
    &&& pre.pc + 1 < MEM_SIZE
    &&& match decode_spec(ins) {
        Opcode::Draw { n, .. } => pre.i + n <= MEM_SIZE,
        Opcode::StoreBcd { .. } => pre.i + 2 < MEM_SIZE,
        Opcode::StoreRegs { x } => pre.i + x < MEM_SIZE,
        Opcode::LoadRegs { x } => pre.i + x < MEM_SIZE,
        Opcode::SkipKeyDown { x } => pre.v[x as int] < NUM_KEYS,
        Opcode::SkipKeyUp { x } => pre.v[x as int] < NUM_KEYS,
        _ => true,
    }
}

} // verus!

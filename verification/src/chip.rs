//! The machine state and the execution engine.
//!
//! `Chip` owns the registers, memory, call stack, timers and program
//! counter. `interpret` executes one decoded instruction against a
//! framebuffer and a keypad snapshot; every opcode's effect is proved
//! equal to the transition function `semantics::step_spec`.

use vstd::prelude::*;

use crate::display::blank_screen;
use crate::display::FrameBuffer;
use crate::display::SCREEN_PIXELS;
use crate::instructions::decode_spec;
use crate::instructions::Instruction;
use crate::instructions::Opcode;
use crate::semantics::adi_spec;
use crate::semantics::alu_spec;
use crate::semantics::call_spec;
use crate::semantics::cls_spec;
use crate::semantics::draw_chip_spec;
use crate::semantics::draw_fb_spec;
use crate::semantics::draw_toggles;
use crate::semantics::fx_spec;
use crate::semantics::lemma_first_down_from;
use crate::semantics::jump_spec;
use crate::semantics::mvi_spec;
use crate::semantics::ready;
use crate::semantics::rnd_spec;
use crate::semantics::rts_spec;
use crate::semantics::skip_cond;
use crate::semantics::skip_spec;
use crate::semantics::skipkey_spec;
use crate::semantics::step_outcome;
use crate::semantics::step_spec;
use crate::semantics::ChipM;
use crate::semantics::Fault;
use crate::semantics::FONT_BASE;
use crate::semantics::MEM_SIZE;
use crate::semantics::NUM_KEYS;
use crate::semantics::NUM_REGS;
use crate::semantics::STACK_SIZE;
use crate::semantics::START_MEM;

verus! {

/// Why a ROM image could not be loaded.
#[derive(Clone, Copy, Debug, PartialEq, Eq, Structural)]
pub enum RomLoadError {
    /// The byte source could not be read at all.
    Unreadable,
    /// The image does not fit between the load address and the end
    /// of addressable memory.
    RomTooLarge,
}

/// Number of bytes the loadable region holds.
pub const ROM_CAPACITY: usize = 3584;

/// Number of bytes of the built-in hex-digit sprite font.
pub const FONT_BYTES: usize = 80;

/// The built-in sprite font: five bytes per hex digit, `0` first.
pub open spec fn font_seq() -> Seq<u8> {
    seq![
        0xF0u8, 0x90, 0x90, 0x90, 0xF0,
        0x20, 0x60, 0x20, 0x20, 0x70,
        0xF0, 0x10, 0xF0, 0x80, 0xF0,
        0xF0, 0x10, 0xF0, 0x10, 0xF0,
        0x90, 0x90, 0xF0, 0x10, 0x10,
        0xF0, 0x80, 0xF0, 0x10, 0xF0,
        0xF0, 0x80, 0xF0, 0x90, 0xF0,
        0xF0, 0x10, 0x20, 0x40, 0x40,
        0xF0, 0x90, 0xF0, 0x90, 0xF0,
        0xF0, 0x90, 0xF0, 0x10, 0xF0,
        0xF0, 0x90, 0xF0, 0x90, 0x90,
        0xE0, 0x90, 0xE0, 0x90, 0xE0,
        0xF0, 0x80, 0x80, 0x80, 0xF0,
        0xE0, 0x90, 0x90, 0x90, 0xE0,
        0xF0, 0x80, 0xF0, 0x80, 0xF0,
        0xF0, 0x80, 0xF0, 0x80, 0x80,
    ]
}

/// The reset state: everything zero, the program counter at the load
/// address, and the sprite font in low memory.
pub open spec fn initial_chip(shift_quirk: bool) -> ChipM {
    ChipM {
        v: Seq::new(NUM_REGS as nat, |r: int| 0u8),
        i: 0,
        stack: Seq::new(STACK_SIZE as nat, |s: int| 0u16),
        sp: 0,
        st: 0,
        dt: 0,
        pc: START_MEM,
        mem: Seq::new(
            MEM_SIZE as nat,
            |a: int| if FONT_BASE <= a < FONT_BASE + FONT_BYTES {
                font_seq()[a - FONT_BASE]
            } else {
                0u8
            },
        ),
        shift_quirk,
    }
}

/// The machine state: registers, index, call stack, timers, program
/// counter and memory, plus the configured shift behaviour.
pub struct Chip {
    pub v: Vec<u8>,
    pub i: u16,
    pub stack: Vec<u16>,
    pub sp: usize,
    pub st: u8,
    pub dt: u8,
    pub pc: u16,
    pub mem: Vec<u8>,
    pub shift_quirk: bool,
}

impl View for Chip {
    type V = ChipM;

    open spec fn view(&self) -> ChipM {
        ChipM {
            v: self.v@,
            i: self.i,
            stack: self.stack@,
            sp: self.sp as nat,
            st: self.st,
            dt: self.dt,
            pc: self.pc,
            mem: self.mem@,
            shift_quirk: self.shift_quirk,
        }
    }
}

/// Relies on fastrand::u8 for one uniformly random byte. The full
/// range `..` is never empty, so the call cannot panic; nothing can
/// be promised about the value drawn.
#[verifier::external_body]
fn random_byte() -> u8 {
    fastrand::u8(..)
}

/// A vector of `n` zero bytes.
fn zero_bytes(n: usize) -> (r: Vec<u8>)
    ensures
        r@ == Seq::new(n as nat, |a: int| 0u8),
{
    let mut r: Vec<u8> = Vec::new();
    let mut k: usize = 0;
    while k < n
        invariant
            k <= n,
            r@.len() == k,
            forall|j: int| 0 <= j < k ==> r@[j] == 0u8,
        decreases n - k,
    {
        r.push(0);
        k = k + 1;
    }
    proof {
        assert(r@ =~= Seq::new(n as nat, |a: int| 0u8));
    }
    r
}

/// The font as a vector, row by row.
fn font_vec() -> (r: Vec<u8>)
    ensures
        r@ == font_seq(),
{
    let mut f: Vec<u8> = Vec::new();
    f.push(0xF0); f.push(0x90); f.push(0x90); f.push(0x90); f.push(0xF0);
    f.push(0x20); f.push(0x60); f.push(0x20); f.push(0x20); f.push(0x70);
    f.push(0xF0); f.push(0x10); f.push(0xF0); f.push(0x80); f.push(0xF0);
    f.push(0xF0); f.push(0x10); f.push(0xF0); f.push(0x10); f.push(0xF0);
    f.push(0x90); f.push(0x90); f.push(0xF0); f.push(0x10); f.push(0x10);
    f.push(0xF0); f.push(0x80); f.push(0xF0); f.push(0x10); f.push(0xF0);
    f.push(0xF0); f.push(0x80); f.push(0xF0); f.push(0x90); f.push(0xF0);
    f.push(0xF0); f.push(0x10); f.push(0x20); f.push(0x40); f.push(0x40);
    f.push(0xF0); f.push(0x90); f.push(0xF0); f.push(0x90); f.push(0xF0);
    f.push(0xF0); f.push(0x90); f.push(0xF0); f.push(0x10); f.push(0xF0);
    f.push(0xF0); f.push(0x90); f.push(0xF0); f.push(0x90); f.push(0x90);
    f.push(0xE0); f.push(0x90); f.push(0xE0); f.push(0x90); f.push(0xE0);
    f.push(0xF0); f.push(0x80); f.push(0x80); f.push(0x80); f.push(0xF0);
    f.push(0xE0); f.push(0x90); f.push(0x90); f.push(0x90); f.push(0xE0);
    f.push(0xF0); f.push(0x80); f.push(0xF0); f.push(0x80); f.push(0xF0);
    f.push(0xF0); f.push(0x80); f.push(0xF0); f.push(0x80); f.push(0x80);
    proof {
        assert(f@ =~= font_seq());
    }
    f
}

impl Default for Chip {
    /// The reset state with the modern shift behaviour.
    fn default() -> (r: Chip)
        ensures
            r.wf(),
            r@ == initial_chip(true),
    {
        Chip::new()
    }
}

impl Chip {
    /// The state is well-formed: every component has its fixed size.
    pub open spec fn wf(self) -> bool {
        self@.wf()
    }

    /// A machine in the reset state, with the shift behaviour chosen
    /// at construction: `false` copies Vy before a shift (legacy),
    /// `true` shifts Vx in place (modern).
    pub fn with_quirk(shift_quirk: bool) -> (r: Chip)
        ensures
            r.wf(),
            r@ == initial_chip(shift_quirk),
    {
        let v = zero_bytes(NUM_REGS);
        let mut stack: Vec<u16> = Vec::new();
        let mut k: usize = 0;
        while k < STACK_SIZE
            invariant
                k <= STACK_SIZE,
                stack@.len() == k,
                forall|j: int| 0 <= j < k ==> stack@[j] == 0u16,
            decreases STACK_SIZE - k,
        {
            stack.push(0);
            k = k + 1;
        }
        let mut mem = zero_bytes(MEM_SIZE);
        let font = font_vec();
        let mut j: usize = 0;
        while j < FONT_BYTES
            invariant
                j <= FONT_BYTES,
                mem@.len() == MEM_SIZE,
                font@ == font_seq(),
                forall|a: int| 0 <= a < MEM_SIZE && !(FONT_BASE <= a < FONT_BASE + j)
                    ==> mem@[a] == 0u8,
                forall|a: int| FONT_BASE <= a < FONT_BASE + j
                    ==> mem@[a] == font_seq()[a - FONT_BASE],
            decreases FONT_BYTES - j,
        {
            mem.set(FONT_BASE as usize + j, font[j]);
            j = j + 1;
        }
        let r = Chip {
            v,
            i: 0,
            stack,
            sp: 0,
            st: 0,
            dt: 0,
            pc: START_MEM,
            mem,
            shift_quirk,
        };
        proof {
            assert(r@.v =~= initial_chip(shift_quirk).v);
            assert(r@.stack =~= initial_chip(shift_quirk).stack);
            assert(r@.mem =~= initial_chip(shift_quirk).mem);
        }
        r
    }

    /// A machine in the reset state with the modern shift behaviour.
    pub fn new() -> (r: Chip)
        ensures
            r.wf(),
            r@ == initial_chip(true),
    {
        Chip::with_quirk(true)
    }

    /// Copies a ROM image into memory at the load address, appending
    /// one zero byte when the image has odd length so that every
    /// instruction word can be fetched whole. An image that does not
    /// fit in the loadable region is rejected untouched.
    pub fn load(&mut self, rom: &[u8]) -> (r: Result<(), RomLoadError>)
        requires
            old(self).wf(),
        ensures
            final(self).wf(),
            rom@.len() > ROM_CAPACITY ==> r == Err::<(), RomLoadError>(RomLoadError::RomTooLarge)
                && *final(self) == *old(self),
            rom@.len() <= ROM_CAPACITY ==> r == Ok::<(), RomLoadError>(()) && final(self)@ == (ChipM {
                mem: Seq::new(
                    MEM_SIZE as nat,
                    |a: int| if START_MEM <= a < START_MEM + rom@.len() {
                        rom@[a - START_MEM]
                    } else if rom@.len() % 2 == 1 && a == START_MEM + rom@.len() {
                        0u8
                    } else {
                        old(self)@.mem[a]
                    },
                ),
                ..old(self)@
            }),
    {
        let n = rom.len();
        if n > ROM_CAPACITY {
            return Err(RomLoadError::RomTooLarge);
        }
        let base = START_MEM as usize;
        let mut j: usize = 0;
        while j < n
            invariant
                j <= n,
                n <= ROM_CAPACITY,
                base == START_MEM,
                old(self).wf(),
                rom@.len() == n,
                self.v == old(self).v,
                self.i == old(self).i,
                self.stack == old(self).stack,
                self.sp == old(self).sp,
                self.st == old(self).st,
                self.dt == old(self).dt,
                self.pc == old(self).pc,
                self.shift_quirk == old(self).shift_quirk,
                self.mem@.len() == MEM_SIZE,
                forall|a: int| base <= a < base + j ==> self.mem@[a] == rom@[a - base],
                forall|a: int| 0 <= a < MEM_SIZE && !(base <= a < base + j)
                    ==> self.mem@[a] == old(self).mem@[a],
            decreases n - j,
        {
            self.mem.set(base + j, rom[j]);
            j = j + 1;
        }
        if n % 2 == 1 {
            self.mem.set(base + n, 0);
        }
        proof {
            assert(self@.mem =~= Seq::new(
                MEM_SIZE as nat,
                |a: int| if START_MEM <= a < START_MEM + rom@.len() {
                    rom@[a - START_MEM]
                } else if rom@.len() % 2 == 1 && a == START_MEM + rom@.len() {
                    0u8
                } else {
                    old(self)@.mem[a]
                },
            ));
        }
        Ok(())
    }

    /// `00E0`: clears every pixel of the screen.
    pub fn cls(&mut self, buffer: &mut FrameBuffer)
        requires
            old(self).wf(),
            old(buffer).wf(),
            old(self).pc + 1 < MEM_SIZE,
        ensures
            final(self).wf(),
            final(buffer).wf(),
            final(self)@ == cls_spec(old(self)@),
            final(buffer)@ == blank_screen(),
    {
        let mut k: usize = 0;
        while k < SCREEN_PIXELS
            invariant
                k <= SCREEN_PIXELS,
                buffer@.len() == SCREEN_PIXELS,
                forall|j: int| 0 <= j < k ==> !buffer@[j],
            decreases SCREEN_PIXELS - k,
        {
            buffer.pixels.set(k, false);
            k = k + 1;
        }
        self.pc = self.pc + 2;
        proof {
            assert(buffer@ =~= blank_screen());
        }
    }

    /// `1nnn` and `Bnnn`: sets the program counter to the jump
    /// target, with no advance applied.
    pub fn jump(&mut self, instruction: Instruction)
        requires
            old(self).wf(),
            instruction.wf(),
            decode_spec(instruction) is Jump || decode_spec(instruction) is JumpV0,
        ensures
            final(self).wf(),
            final(self)@ == jump_spec(old(self)@, instruction),
    {
        match instruction.decode() {
            Opcode::Jump { nnn } => {
                self.pc = nnn;
            },
            _ => {
                self.pc = instruction.nnn + self.v[0] as u16;
            },
        }
    }

    /// `2nnn`: pushes the return address and jumps to the target.
    /// The caller has ruled a full stack out.
    pub fn call(&mut self, instruction: Instruction)
        requires
            old(self).wf(),
            instruction.wf(),
            decode_spec(instruction) is Call,
            old(self).sp < STACK_SIZE,
            old(self).pc + 1 < MEM_SIZE,
        ensures
            final(self).wf(),
            final(self)@ == call_spec(old(self)@, instruction),
    {
        self.stack.set(self.sp, self.pc + 2);
        self.sp = self.sp + 1;
        self.pc = instruction.nnn;
    }

    /// `00EE`: pops the return address into the program counter and
    /// clears its slot. The caller has ruled an empty stack out.
    pub fn rts(&mut self)
        requires
            old(self).wf(),
            old(self).sp > 0,
        ensures
            final(self).wf(),
            final(self)@ == rts_spec(old(self)@),
    {
        self.pc = self.stack[self.sp - 1];
        self.stack.set(self.sp - 1, 0u16);
        self.sp = self.sp - 1;
    }

    /// `6xnn` and `Annn`: loads a register or the index register
    /// with an immediate.
    pub fn mvi(&mut self, instruction: Instruction)
        requires
            old(self).wf(),
            instruction.wf(),
            decode_spec(instruction) is MovImm || decode_spec(instruction) is MovIdx,
            old(self).pc + 1 < MEM_SIZE,
        ensures
            final(self).wf(),
            final(self)@ == mvi_spec(old(self)@, instruction),
    {
        match instruction.f_nibble {
            0x6 => self.v.set(instruction.x as usize, instruction.nn),
            _ => self.i = instruction.nnn,
        }
        self.pc = self.pc + 2;
    }

    /// `7xnn` and `Fx1E`: a wrapping add of an immediate into a
    /// register, or of a register into the index register. No flag
    /// is touched.
    pub fn adi(&mut self, instruction: Instruction)
        requires
            old(self).wf(),
            instruction.wf(),
            decode_spec(instruction) is AddImm || decode_spec(instruction) is AddIdx,
            old(self).pc + 1 < MEM_SIZE,
        ensures
            final(self).wf(),
            final(self)@ == adi_spec(old(self)@, instruction),
    {
        match instruction.f_nibble {
            0x7 => {
                let sum = self.v[instruction.x as usize] as u16 + instruction.nn as u16;
                self.v.set(instruction.x as usize, (sum % 0x100) as u8);
            },
            _ => {
                let sum = self.i as u32 + self.v[instruction.x as usize] as u32;
                self.i = (sum % 0x10000) as u16;
            },
        }
        self.pc = self.pc + 2;
    }

    /// `3xnn` and `5xy0`: advances past the next word when the
    /// equality holds, else normally.
    pub fn skip_eq(&mut self, instruction: Instruction)
        requires
            old(self).wf(),
            instruction.wf(),
            decode_spec(instruction) is SkipEqImm || decode_spec(instruction) is SkipEqReg,
            old(self).pc + 1 < MEM_SIZE,
        ensures
            final(self).wf(),
            final(self)@ == skip_spec(old(self)@, skip_cond(old(self)@, instruction)),
    {
        let hit = match instruction.f_nibble {
            0x3 => self.v[instruction.x as usize] == instruction.nn,
            _ => self.v[instruction.x as usize] == self.v[instruction.y as usize],
        };
        self.pc = if hit {
            self.pc + 4
        } else {
            self.pc + 2
        };
    }

    /// `4xnn` and `9xy0`: advances past the next word when the
    /// inequality holds, else normally.
    pub fn skip_ne(&mut self, instruction: Instruction)
        requires
            old(self).wf(),
            instruction.wf(),
            decode_spec(instruction) is SkipNeImm || decode_spec(instruction) is SkipNeReg,
            old(self).pc + 1 < MEM_SIZE,
        ensures
            final(self).wf(),
            final(self)@ == skip_spec(old(self)@, skip_cond(old(self)@, instruction)),
    {
        let hit = match instruction.f_nibble {
            0x4 => self.v[instruction.x as usize] != instruction.nn,
            _ => self.v[instruction.x as usize] != self.v[instruction.y as usize],
        };
        self.pc = if hit {
            self.pc + 4
        } else {
            self.pc + 2
        };
    }

    /// `8xy0`-`8xyE`: moves, logic and arithmetic between two
    /// registers. Every arithmetic form rewrites VF last.
    pub fn eight_inst(&mut self, instruction: Instruction)
        requires
            old(self).wf(),
            instruction.wf(),
            instruction.f_nibble == 0x8,
            !(decode_spec(instruction) is Illegal),
            old(self).pc + 1 < MEM_SIZE,
        ensures
            final(self).wf(),
            final(self)@ == alu_spec(old(self)@, instruction),
    {
        let x = instruction.x as usize;
        let y = instruction.y as usize;
        match instruction.l_nibble {
            0x0 => {
                let vy = self.v[y];
                self.v.set(x, vy);
            },
            0x1 => {
                let r = self.v[x] | self.v[y];
                self.v.set(x, r);
            },
            0x2 => {
                let r = self.v[x] & self.v[y];
                self.v.set(x, r);
            },
            0x3 => {
                let r = self.v[x] ^ self.v[y];
                self.v.set(x, r);
            },
            0x4 => {
                let sum = self.v[x] as u16 + self.v[y] as u16;
                let flag: u8 = if sum > 0xFF { 1 } else { 0 };
                self.v.set(x, (sum % 0x100) as u8);
                self.v.set(0xF, flag);
            },
            0x5 => {
                let vx = self.v[x];
                let vy = self.v[y];
                let flag: u8 = if vx >= vy { 1 } else { 0 };
                let diff = (vx as u16 + 0x100 - vy as u16) % 0x100;
                self.v.set(x, diff as u8);
                self.v.set(0xF, flag);
            },
            0x6 => {
                let src = if self.shift_quirk { self.v[x] } else { self.v[y] };
                self.v.set(x, src >> 1);
                self.v.set(0xF, src & 1);
            },
            0x7 => {
                let vx = self.v[x];
                let vy = self.v[y];
                let flag: u8 = if vy >= vx { 1 } else { 0 };
                let diff = (vy as u16 + 0x100 - vx as u16) % 0x100;
                self.v.set(x, diff as u8);
                self.v.set(0xF, flag);
            },
            _ => {
                let src = if self.shift_quirk { self.v[x] } else { self.v[y] };
                self.v.set(x, src << 1);
                self.v.set(0xF, (src >> 7) & 1);
            },
        }
        self.pc = self.pc + 2;
    }

    /// `Ex9E` and `ExA1`: a skip conditioned on the key named by
    /// register `Vx` being down or up in the keypad snapshot.
    pub fn skipkey(&mut self, instruction: Instruction, keys: &Vec<bool>)
        requires
            old(self).wf(),
            instruction.wf(),
            decode_spec(instruction) is SkipKeyDown || decode_spec(instruction) is SkipKeyUp,
            keys@.len() == NUM_KEYS,
            old(self)@.v[instruction.x as int] < NUM_KEYS,
            old(self).pc + 1 < MEM_SIZE,
        ensures
            final(self).wf(),
            final(self)@ == skipkey_spec(old(self)@, keys@, instruction),
    {
        let key = self.v[instruction.x as usize] as usize;
        let hit = match instruction.nn {
            0x9E => keys[key],
            _ => !keys[key],
        };
        self.pc = if hit {
            self.pc + 4
        } else {
            self.pc + 2
        };
    }

    /// The `Fx..` family: timer moves, the key wait, the index adds,
    /// the font lookup, the BCD store and the register block moves.
    pub fn f_inst(&mut self, instruction: Instruction, keys: &Vec<bool>)
        requires
            old(self).wf(),
            instruction.wf(),
            instruction.f_nibble == 0xF,
            !(decode_spec(instruction) is Illegal),
            keys@.len() == NUM_KEYS,
            old(self).pc + 1 < MEM_SIZE,
            decode_spec(instruction) is StoreBcd ==> old(self).i + 2 < MEM_SIZE,
            decode_spec(instruction) is StoreRegs ==> old(self).i + instruction.x < MEM_SIZE,
            decode_spec(instruction) is LoadRegs ==> old(self).i + instruction.x < MEM_SIZE,
        ensures
            final(self).wf(),
            decode_spec(instruction) is AddIdx
                ==> final(self)@ == adi_spec(old(self)@, instruction),
            !(decode_spec(instruction) is AddIdx)
                ==> final(self)@ == fx_spec(old(self)@, keys@, instruction),
    {
        let x = instruction.x as usize;
        match instruction.nn {
            0x1E => {
                self.adi(instruction);
                return;
            },
            0x07 => {
                let dt = self.dt;
                self.v.set(x, dt);
            },
            0x15 => self.dt = self.v[x],
            0x18 => self.st = self.v[x],
            0x0A => {
                let mut k: usize = 0;
                while k < NUM_KEYS
                    invariant
                        k <= NUM_KEYS,
                        keys@.len() == NUM_KEYS,
                        forall|j: int| 0 <= j < k ==> !keys@[j],
                        old(self).wf(),
                        instruction.wf(),
                        decode_spec(instruction) is WaitKey,
                        x == instruction.x,
                        old(self).pc + 1 < MEM_SIZE,
                        *self == *old(self),
                    decreases NUM_KEYS - k,
                {
                    if keys[k] {
                        proof {
                            lemma_first_down_from(keys@, k as int);
                        }
                        self.v.set(x, k as u8);
                        self.pc = self.pc + 2;
                        return;
                    }
                    k = k + 1;
                }
                proof {
                    lemma_first_down_from(keys@, NUM_KEYS as int);
                }
                return;
            },
            0x29 => {
                let vx = self.v[x];
                let d = vx & 0xF;
                proof {
                    assert(vx & 0xF <= 0xF) by (bit_vector);
                }
                self.i = FONT_BASE + 5 * (d as u16);
            },
            0x33 => {
                let vx = self.v[x];
                let iu = self.i as usize;
                self.mem.set(iu, vx / 100);
                self.mem.set(iu + 1, (vx / 10) % 10);
                self.mem.set(iu + 2, vx % 10);
            },
            0x55 => {
                let iu = self.i as usize;
                let mut r: usize = 0;
                while r <= x
                    invariant
                        r <= x + 1,
                        x < NUM_REGS,
                        old(self).wf(),
                        iu == old(self).i,
                        iu + x < MEM_SIZE,
                        self.v == old(self).v,
                        self.i == old(self).i,
                        self.stack == old(self).stack,
                        self.sp == old(self).sp,
                        self.st == old(self).st,
                        self.dt == old(self).dt,
                        self.pc == old(self).pc,
                        self.shift_quirk == old(self).shift_quirk,
                        self.mem@.len() == MEM_SIZE,
                        forall|a: int| iu <= a < iu + r ==> self.mem@[a] == old(self).v@[a - iu],
                        forall|a: int| 0 <= a < MEM_SIZE && !(iu <= a < iu + r)
                            ==> self.mem@[a] == old(self).mem@[a],
                    decreases x + 1 - r,
                {
                    self.mem.set(iu + r, self.v[r]);
                    r = r + 1;
                }
                proof {
                    assert(self@.mem =~= crate::semantics::store_span(
                        old(self)@.mem,
                        old(self)@.i as int,
                        old(self)@.v,
                        instruction.x,
                    ));
                }
            },
            _ => {
                let iu = self.i as usize;
                let mut r: usize = 0;
                while r <= x
                    invariant
                        r <= x + 1,
                        x < NUM_REGS,
                        x == instruction.x,
                        old(self).wf(),
                        iu == old(self).i,
                        iu + x < MEM_SIZE,
                        self.mem == old(self).mem,
                        self.i == old(self).i,
                        self.stack == old(self).stack,
                        self.sp == old(self).sp,
                        self.st == old(self).st,
                        self.dt == old(self).dt,
                        self.pc == old(self).pc,
                        self.shift_quirk == old(self).shift_quirk,
                        self.v@.len() == NUM_REGS,
                        forall|j: int| 0 <= j < r ==> self.v@[j] == old(self).mem@[iu + j],
                        forall|j: int| r <= j < NUM_REGS ==> self.v@[j] == old(self).v@[j],
                    decreases x + 1 - r,
                {
                    let b = self.mem[iu + r];
                    self.v.set(r, b);
                    r = r + 1;
                }
                proof {
                    assert(self@.v =~= crate::semantics::load_span(
                        old(self)@.v,
                        old(self)@.mem,
                        old(self)@.i as int,
                        instruction.x,
                    ));
                }
            },
        }
        self.pc = self.pc + 2;
    }

    /// `Dxyn`: draws the sprite at `mem[I..I+n]` at `(Vx, Vy)`,
    /// toggling pixels and wrapping each one independently; VF
    /// reports whether any lit pixel was turned off.
    pub fn draw(&mut self, instruction: Instruction, buffer: &mut FrameBuffer)
        requires
            old(self).wf(),
            old(buffer).wf(),
            instruction.wf(),
            decode_spec(instruction) is Draw,
            old(self).i + instruction.l_nibble <= MEM_SIZE,
            old(self).pc + 1 < MEM_SIZE,
        ensures
            final(self).wf(),
            final(buffer).wf(),
            final(self)@ == draw_chip_spec(old(self)@, old(buffer)@, instruction),
            final(buffer)@ == draw_fb_spec(old(self)@, old(buffer)@, instruction),
    {
        let x0 = (self.v[instruction.x as usize] % 64) as usize;
        let y0 = (self.v[instruction.y as usize] % 32) as usize;
        let n = instruction.l_nibble as usize;
        let mut hit = false;
        let mut idx: usize = 0;
        while idx < SCREEN_PIXELS
            invariant
                idx <= SCREEN_PIXELS,
                instruction.wf(),
                decode_spec(instruction) is Draw,
                old(self).wf(),
                x0 == (old(self)@.v[instruction.x as int] as int) % 64,
                y0 == (old(self)@.v[instruction.y as int] as int) % 32,
                n == instruction.l_nibble,
                old(self).i + n <= MEM_SIZE,
                self.i == old(self).i,
                self.stack == old(self).stack,
                self.sp == old(self).sp,
                self.st == old(self).st,
                self.dt == old(self).dt,
                self.pc == old(self).pc,
                self.mem == old(self).mem,
                self.shift_quirk == old(self).shift_quirk,
                buffer@.len() == SCREEN_PIXELS,
                forall|j: int| 0 <= j < idx ==> buffer@[j]
                    == (if draw_toggles(old(self)@, instruction, j) {
                        !old(buffer)@[j]
                    } else {
                        old(buffer)@[j]
                    }),
                forall|j: int| idx <= j < SCREEN_PIXELS ==> buffer@[j] == old(buffer)@[j],
                self.v == old(self).v,
                hit == exists|j: int|
                    0 <= j < idx && draw_toggles(old(self)@, instruction, j) && old(buffer)@[j],
            decreases SCREEN_PIXELS - idx,
        {
            let px = idx % 64;
            let py = idx / 64;
            let col = if px >= x0 {
                px - x0
            } else {
                px + 64 - x0
            };
            let row = if py >= y0 {
                py - y0
            } else {
                py + 32 - y0
            };
            let mut toggle = false;
            if col < 8 && row < n {
                let byte = self.mem[self.i as usize + row];
                toggle = ((byte >> ((7 - col) as u8)) & 1) == 1;
            }
            proof {
                assert(toggle == draw_toggles(old(self)@, instruction, idx as int));
            }
            if toggle {
                let cur = buffer.pixels[idx];
                if cur {
                    hit = true;
                }
                buffer.pixels.set(idx, !cur);
            }
            proof {
                let pre = old(self)@;
                let fb0 = old(buffer)@;
                if !(toggle && fb0[idx as int]) {
                    assert forall|j: int|
                        0 <= j < idx + 1 && draw_toggles(pre, instruction, j) && fb0[j]
                        implies 0 <= j < idx && draw_toggles(pre, instruction, j) && fb0[j] by {
                        assert(j != idx);
                    }
                }
            }
            idx = idx + 1;
        }
        self.v.set(0xF, if hit { 1 } else { 0 });
        self.pc = self.pc + 2;
        proof {
            assert(buffer@ =~= draw_fb_spec(old(self)@, old(buffer)@, instruction));
        }
    }

    /// `Cxnn`: masks the given random byte into the register.
    pub fn rndmsk(&mut self, instruction: Instruction, rnd: u8)
        requires
            old(self).wf(),
            instruction.wf(),
            decode_spec(instruction) is Rand,
            old(self).pc + 1 < MEM_SIZE,
        ensures
            final(self).wf(),
            final(self)@ == rnd_spec(old(self)@, instruction, rnd),
    {
        self.v.set(instruction.x as usize, rnd & instruction.nn);
        self.pc = self.pc + 2;
    }

    /// Executes one instruction with the random byte handed in, then
    /// applies the timer tick. Returns the fault the instruction
    /// raises, if any, with the whole state left untouched; the
    /// outcome is exactly `step_spec`.
    pub fn execute(
        &mut self,
        instruction: Instruction,
        buffer: &mut FrameBuffer,
        keys: &Vec<bool>,
        rnd: u8,
    ) -> (r: Result<(), Fault>)
        requires
            ready(old(self)@, old(buffer)@, instruction, keys@),
        ensures
            final(self).wf(),
            final(buffer).wf(),
            ({
                let s = step_spec(old(self)@, old(buffer)@, instruction, keys@, rnd);
                &&& final(self)@ == s.chip
                &&& final(buffer)@ == s.fb
                &&& r == (match s.fault {
                    Some(f) => Err::<(), Fault>(f),
                    None => Ok::<(), Fault>(()),
                })
            }),
    {
        match instruction.decode() {
            Opcode::Illegal => {
                return Err(Fault::IllegalOpcode { opcode: instruction.opcode, pc: self.pc });
            },
            Opcode::Cls => self.cls(buffer),
            Opcode::Ret => {
                if self.sp == 0 {
                    return Err(Fault::StackUnderflow);
                }
                self.rts();
            },
            Opcode::Call { .. } => {
                if self.sp >= STACK_SIZE {
                    return Err(Fault::StackOverflow);
                }
                self.call(instruction);
            },
            Opcode::Jump { .. } | Opcode::JumpV0 { .. } => self.jump(instruction),
            Opcode::SkipEqImm { .. } | Opcode::SkipEqReg { .. } => self.skip_eq(instruction),
            Opcode::SkipNeImm { .. } | Opcode::SkipNeReg { .. } => self.skip_ne(instruction),
            Opcode::MovImm { .. } | Opcode::MovIdx { .. } => self.mvi(instruction),
            Opcode::AddImm { .. } => self.adi(instruction),
            Opcode::Mov { .. }
            | Opcode::Or { .. }
            | Opcode::And { .. }
            | Opcode::Xor { .. }
            | Opcode::Add { .. }
            | Opcode::Sub { .. }
            | Opcode::Shr { .. }
            | Opcode::SubN { .. }
            | Opcode::Shl { .. } => self.eight_inst(instruction),
            Opcode::Rand { .. } => self.rndmsk(instruction, rnd),
            Opcode::Draw { .. } => self.draw(instruction, buffer),
            Opcode::SkipKeyDown { .. } | Opcode::SkipKeyUp { .. } => self.skipkey(
                instruction,
                keys,
            ),
            Opcode::MovFromDelay { .. }
            | Opcode::WaitKey { .. }
            | Opcode::MovToDelay { .. }
            | Opcode::MovToSound { .. }
            | Opcode::AddIdx { .. }
            | Opcode::SpriteChar { .. }
            | Opcode::StoreBcd { .. }
            | Opcode::StoreRegs { .. }
            | Opcode::LoadRegs { .. } => self.f_inst(instruction, keys),
        }
        if self.dt > 0 {
            self.dt = self.dt - 1;
        }
        if self.st > 0 {
            self.st = self.st - 1;
        }
        Ok(())
    }

    /// Executes one instruction, drawing the random byte a `Cxnn`
    /// uses from the generator, then applies the timer tick. The
    /// outcome is `step_spec` for some random byte.
    pub fn interpret(
        &mut self,
        instruction: Instruction,
        buffer: &mut FrameBuffer,
        keys: &Vec<bool>,
    ) -> (r: Result<(), Fault>)
        requires
            ready(old(self)@, old(buffer)@, instruction, keys@),
        ensures
            final(self).wf(),
            final(buffer).wf(),
            exists|b: u8|
                step_outcome(
                    old(self)@,
                    old(buffer)@,
                    instruction,
                    keys@,
                    b,
                    final(self)@,
                    final(buffer)@,
                    r,
                ),
    {
        let b = match instruction.decode() {
            Opcode::Rand { .. } => random_byte(),
            _ => 0,
        };
        let r = self.execute(instruction, buffer, keys, b);
        proof {
            assert(step_outcome(old(self)@, old(buffer)@, instruction, keys@, b, self@, buffer@, r));
        }
        r
    }
}

} // verus!

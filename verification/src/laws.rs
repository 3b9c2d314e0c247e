//! General properties of the engine, proved once and for all inputs.
//!
//! Each proof function here states a law of the machine over the
//! transition function `semantics::step_spec`, which `Chip::execute`
//! is proved to follow exactly; the laws therefore hold of the
//! running engine as well.

use vstd::prelude::*;

use crate::display::SCREEN_PIXELS;
use crate::instructions::decode_spec;
use crate::instructions::Instruction;
use crate::instructions::Opcode;
use crate::keypad::digit_of_key;
use crate::keypad::key_of_digit;
use crate::semantics::draw_toggles;
use crate::semantics::first_down_from;
use crate::semantics::first_key_down;
use crate::semantics::ready;
use crate::semantics::skip_cond;
use crate::semantics::step_spec;
use crate::semantics::wrap_add8;
use crate::semantics::wrap_sub8;
use crate::semantics::ChipM;
use crate::semantics::NUM_KEYS;
use crate::semantics::NUM_REGS;
use crate::semantics::STACK_SIZE;

verus! {

/// Clearing the screen leaves no pixel lit, whatever the screen held
/// before, and never faults.
pub proof fn lemma_cls_clears(
    pre: ChipM,
    fb: Seq<bool>,
    ins: Instruction,
    keys: Seq<bool>,
    rnd: u8,
)
    requires
        ready(pre, fb, ins, keys),
        decode_spec(ins) is Cls,
    ensures
        step_spec(pre, fb, ins, keys, rnd).fault is None,
        forall|idx: int| 0 <= idx < SCREEN_PIXELS
            ==> !step_spec(pre, fb, ins, keys, rnd).fb[idx],
{
}

/// A jump sets the program counter to exactly its target; no
/// advance is applied on top.
pub proof fn lemma_jump_exact(
    pre: ChipM,
    fb: Seq<bool>,
    ins: Instruction,
    keys: Seq<bool>,
    rnd: u8,
    nnn: u16,
)
    requires
        ready(pre, fb, ins, keys),
        decode_spec(ins) == (Opcode::Jump { nnn }),
    ensures
        step_spec(pre, fb, ins, keys, rnd).fault is None,
        step_spec(pre, fb, ins, keys, rnd).chip.pc == nnn,
{
}

/// A call followed by a return comes back to the instruction after
/// the call: the program counter lands two bytes past where the call
/// was fetched, and the stack pointer is back where it was.
pub proof fn lemma_call_ret_inverse(
    pre: ChipM,
    fb: Seq<bool>,
    call_ins: Instruction,
    ret_ins: Instruction,
    keys: Seq<bool>,
    rnd: u8,
)
    requires
        ready(pre, fb, call_ins, keys),
        decode_spec(call_ins) is Call,
        decode_spec(ret_ins) is Ret,
        pre.sp < STACK_SIZE,
    ensures
        ({
            let s1 = step_spec(pre, fb, call_ins, keys, rnd);
            let s2 = step_spec(s1.chip, s1.fb, ret_ins, keys, rnd);
            &&& s1.fault is None
            &&& s2.fault is None
            &&& s2.chip.pc == pre.pc + 2
            &&& s2.chip.sp == pre.sp
        }),
{
}

/// Adding an immediate wraps modulo 256 and touches no other
/// register; in particular the flag register is left alone.
pub proof fn lemma_adi_wraps_no_flag(
    pre: ChipM,
    fb: Seq<bool>,
    ins: Instruction,
    keys: Seq<bool>,
    rnd: u8,
    x: u8,
    nn: u8,
)
    requires
        ready(pre, fb, ins, keys),
        decode_spec(ins) == (Opcode::AddImm { x, nn }),
    ensures
        ({
            let s = step_spec(pre, fb, ins, keys, rnd);
            &&& s.fault is None
            &&& s.chip.v[x as int] == wrap_add8(pre.v[x as int], nn)
            &&& forall|j: int| 0 <= j < NUM_REGS && j != x ==> s.chip.v[j] == pre.v[j]
        }),
{
}

/// A conditional skip advances the program counter by four bytes
/// when its condition holds and by two when it does not.
pub proof fn lemma_skip_stride(
    pre: ChipM,
    fb: Seq<bool>,
    ins: Instruction,
    keys: Seq<bool>,
    rnd: u8,
)
    requires
        ready(pre, fb, ins, keys),
        decode_spec(ins) is SkipEqImm || decode_spec(ins) is SkipNeImm
            || decode_spec(ins) is SkipEqReg || decode_spec(ins) is SkipNeReg,
    ensures
        step_spec(pre, fb, ins, keys, rnd).fault is None,
        step_spec(pre, fb, ins, keys, rnd).chip.pc == pre.pc + (
        if skip_cond(pre, ins) {
            4int
        } else {
            2int
        }),
{
}

/// The first-key search is sound: a found key is down and every key
/// below it is up; when nothing is found, every key is up.
pub proof fn lemma_first_down_sound(keys: Seq<bool>, k: int)
    requires
        keys.len() == NUM_KEYS,
        0 <= k <= NUM_KEYS,
    ensures
        match first_down_from(keys, k) {
            Some(d) => k <= d < NUM_KEYS && keys[d as int] && (forall|j: int|
                k <= j < d ==> !keys[j]),
            None => forall|j: int| k <= j < NUM_KEYS ==> !keys[j],
        },
    decreases NUM_KEYS - k,
{
    if k < NUM_KEYS && !keys[k] {
        lemma_first_down_sound(keys, k + 1);
    }
}

/// The key wait spins while no key is down, leaving the program
/// counter and registers untouched; once some key is down, the
/// lowest one lands in the register and the program counter
/// advances normally.
pub proof fn lemma_wait_key(
    pre: ChipM,
    fb: Seq<bool>,
    ins: Instruction,
    keys: Seq<bool>,
    rnd: u8,
    x: u8,
)
    requires
        ready(pre, fb, ins, keys),
        decode_spec(ins) == (Opcode::WaitKey { x }),
    ensures
        ({
            let s = step_spec(pre, fb, ins, keys, rnd);
            &&& s.fault is None
            &&& (first_key_down(keys) is None ==> s.chip.pc == pre.pc && s.chip.v == pre.v)
            &&& (forall|d: u8|
                first_key_down(keys) == Some(d) ==> s.chip.pc == pre.pc + 2
                    && s.chip.v == pre.v.update(x as int, d))
        }),
{
}

/// A timer already at zero stays at zero across a step, unless the
/// instruction itself writes that timer.
pub proof fn lemma_timers_floor(
    pre: ChipM,
    fb: Seq<bool>,
    ins: Instruction,
    keys: Seq<bool>,
    rnd: u8,
)
    requires
        ready(pre, fb, ins, keys),
    ensures
        ({
            let s = step_spec(pre, fb, ins, keys, rnd);
            &&& (s.fault is None && !(decode_spec(ins) is MovToDelay) && pre.dt == 0
                ==> s.chip.dt == 0)
            &&& (s.fault is None && !(decode_spec(ins) is MovToSound) && pre.st == 0
                ==> s.chip.st == 0)
        }),
{
}

/// Drawing the same sprite twice at the same spot restores the
/// screen: every toggle is undone. And when the first draw lit some
/// pixel that was unlit before, the second draw reports a collision.
/// The coordinate registers must not be VF, which the draw itself
/// rewrites.
pub proof fn lemma_draw_twice_restores(
    pre: ChipM,
    fb: Seq<bool>,
    ins: Instruction,
    keys: Seq<bool>,
    rnd: u8,
    x: u8,
    y: u8,
    n: u8,
)
    requires
        ready(pre, fb, ins, keys),
        decode_spec(ins) == (Opcode::Draw { x, y, n }),
        x != 0xF,
        y != 0xF,
    ensures
        ({
            let s1 = step_spec(pre, fb, ins, keys, rnd);
            let s2 = step_spec(s1.chip, s1.fb, ins, keys, rnd);
            &&& s1.fault is None
            &&& s2.fault is None
            &&& s2.fb == fb
            &&& ((exists|idx: int|
                0 <= idx < SCREEN_PIXELS && draw_toggles(pre, ins, idx) && !fb[idx])
                ==> s2.chip.v[15] == 1)
        }),
{
    let s1 = step_spec(pre, fb, ins, keys, rnd);
    let s2 = step_spec(s1.chip, s1.fb, ins, keys, rnd);
    assert forall|idx: int| 0 <= idx < SCREEN_PIXELS implies draw_toggles(s1.chip, ins, idx)
        == draw_toggles(pre, ins, idx) by {
        assert(s1.chip.v[ins.x as int] == pre.v[ins.x as int]);
        assert(s1.chip.v[ins.y as int] == pre.v[ins.y as int]);
    }
    assert(s2.fb =~= fb);
    if exists|idx: int| 0 <= idx < SCREEN_PIXELS && draw_toggles(pre, ins, idx) && !fb[idx] {
        let w = choose|idx: int|
            0 <= idx < SCREEN_PIXELS && draw_toggles(pre, ins, idx) && !fb[idx];
        assert(s1.fb[w] == !fb[w]);
        assert(draw_toggles(s1.chip, ins, w) && s1.fb[w]);
    }
}

/// Adding two registers wraps modulo 256 and VF reports the carry,
/// rewritten on every add; the sum lands in the register whenever
/// that register is not VF itself.
pub proof fn lemma_add_carry_flag(
    pre: ChipM,
    fb: Seq<bool>,
    ins: Instruction,
    keys: Seq<bool>,
    rnd: u8,
    x: u8,
    y: u8,
)
    requires
        ready(pre, fb, ins, keys),
        decode_spec(ins) == (Opcode::Add { x, y }),
    ensures
        ({
            let s = step_spec(pre, fb, ins, keys, rnd);
            &&& s.fault is None
            &&& s.chip.v[15] == (if pre.v[x as int] + pre.v[y as int] > 0xFF {
                1u8
            } else {
                0u8
            })
            &&& x != 0xF ==> s.chip.v[x as int] == wrap_add8(pre.v[x as int], pre.v[y as int])
        }),
{
}

/// Subtracting two registers wraps modulo 256 and VF reports the
/// absent borrow: one when the minuend was at least the subtrahend,
/// else zero.
pub proof fn lemma_sub_borrow_flag(
    pre: ChipM,
    fb: Seq<bool>,
    ins: Instruction,
    keys: Seq<bool>,
    rnd: u8,
    x: u8,
    y: u8,
)
    requires
        ready(pre, fb, ins, keys),
        decode_spec(ins) == (Opcode::Sub { x, y }),
    ensures
        ({
            let s = step_spec(pre, fb, ins, keys, rnd);
            &&& s.fault is None
            &&& s.chip.v[15] == (if pre.v[x as int] >= pre.v[y as int] {
                1u8
            } else {
                0u8
            })
            &&& x != 0xF ==> s.chip.v[x as int] == wrap_sub8(pre.v[x as int], pre.v[y as int])
        }),
{
}

/// Only the random opcode consults the random byte: every other
/// instruction steps to the same outcome whatever byte was drawn.
pub proof fn lemma_step_ignores_rnd(
    pre: ChipM,
    fb: Seq<bool>,
    ins: Instruction,
    keys: Seq<bool>,
    rnd1: u8,
    rnd2: u8,
)
    requires
        !(decode_spec(ins) is Rand),
    ensures
        step_spec(pre, fb, ins, keys, rnd1) == step_spec(pre, fb, ins, keys, rnd2),
{
}

/// The two directions of the keypad mapping are inverse: the host
/// key assigned to a digit maps back to that digit.
pub proof fn lemma_keypad_round_trip(d: u8)
    requires
        d < 16,
    ensures
        digit_of_key(key_of_digit(d)) == Some(d),
{
}

} // verus!


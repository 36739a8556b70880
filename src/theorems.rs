use vstd::prelude::*;

use crate::cpu::{Machine, step_spec, exec_spec, FLAG};
use crate::defs::{MEMORY_SIZE, REGISTER_COUNT, STACK_DEPTH};
use crate::display::{blank, lemma_draw_twice_on_blank};
use crate::instruction::{Instruction, decode_spec};
use crate::keypad::KEY_COUNT;

verus! {

/// `7XNN` adds `NN` to `VX` modulo 256 and leaves every other register, `VF`
/// included unless it is `VX` itself, as it was.
pub proof fn add_immediate_wraps(m: Machine, x: u8, nn: u8, rnd: u8)
    requires
        m.wf(),
        x < 16,
        m.pc + 1 < MEMORY_SIZE,
        m.word_at(m.pc as int) == 0x7000 + x * 0x100 + nn,
    ensures
        step_spec(m, rnd) is Ok,
        step_spec(m, rnd)->Ok_0.v[x as int] == (m.v[x as int] + nn) % 256,
        forall|k: int|
            0 <= k < REGISTER_COUNT && k != x ==> step_spec(m, rnd)->Ok_0.v[k] == m.v[k],
        step_spec(m, rnd)->Ok_0.pc == m.pc + 2,
{
    let op = m.word_at(m.pc as int);
    assert(op / 0x1000 == 7 && (op / 0x100) % 0x10 == x && op % 0x100 == nn) by (nonlinear_arith)
        requires
            op == 0x7000 + x * 0x100 + nn,
            x < 16,
            nn < 256,
    ;
    assert(decode_spec(op) == Some(Instruction::AddImmediate { x, nn }));
}

/// `8XY4` sets `VF` to 1 exactly when `VX + VY` exceeds 255, and to 0
/// otherwise; `VX` (unless it is `VF`) gets the sum modulo 256.
pub proof fn add_sets_carry(m: Machine, x: u8, y: u8, rnd: u8)
    requires
        m.wf(),
        x < 16,
        y < 16,
        m.pc + 1 < MEMORY_SIZE,
        m.word_at(m.pc as int) == 0x8004 + x * 0x100 + y * 0x10,
    ensures
        step_spec(m, rnd) is Ok,
        step_spec(m, rnd)->Ok_0.v[FLAG as int] == if m.v[x as int] + m.v[y as int] > 255 {
            1u8
        } else {
            0u8
        },
        x != FLAG ==> step_spec(m, rnd)->Ok_0.v[x as int] == (m.v[x as int] + m.v[y as int])
            % 256,
{
    let op = m.word_at(m.pc as int);
    assert(op / 0x1000 == 8 && (op / 0x100) % 0x10 == x && (op / 0x10) % 0x10 == y && op % 0x10
        == 4) by (nonlinear_arith)
        requires
            op == 0x8004 + x * 0x100 + y * 0x10,
            x < 16,
            y < 16,
    ;
    assert(decode_spec(op) == Some(Instruction::Add { x, y }));
}

/// `8XY5` sets `VF` to 1 exactly when `VX >= VY`, that is when the
/// subtraction does not borrow, and to 0 otherwise; `VX` (unless it is `VF`)
/// gets `VX - VY` modulo 256.
pub proof fn sub_sets_no_borrow(m: Machine, x: u8, y: u8, rnd: u8)
    requires
        m.wf(),
        x < 16,
        y < 16,
        m.pc + 1 < MEMORY_SIZE,
        m.word_at(m.pc as int) == 0x8005 + x * 0x100 + y * 0x10,
    ensures
        step_spec(m, rnd) is Ok,
        step_spec(m, rnd)->Ok_0.v[FLAG as int] == if m.v[x as int] >= m.v[y as int] {
            1u8
        } else {
            0u8
        },
        x != FLAG ==> step_spec(m, rnd)->Ok_0.v[x as int] == (m.v[x as int] - m.v[y as int]
            + 256) % 256,
{
    let op = m.word_at(m.pc as int);
    assert(op / 0x1000 == 8 && (op / 0x100) % 0x10 == x && (op / 0x10) % 0x10 == y && op % 0x10
        == 5) by (nonlinear_arith)
        requires
            op == 0x8005 + x * 0x100 + y * 0x10,
            x < 16,
            y < 16,
    ;
    assert(decode_spec(op) == Some(Instruction::Sub { x, y }));
}

/// A `2NNN` call followed by the `00EE` return at `NNN` comes back to the
/// instruction right after the call, with the stack as deep as before.
pub proof fn call_then_return(m: Machine, nnn: u16, rnd1: u8, rnd2: u8)
    requires
        m.wf(),
        nnn < 0x1000,
        m.pc + 1 < MEMORY_SIZE,
        m.sp < STACK_DEPTH,
        m.word_at(m.pc as int) == 0x2000 + nnn,
        nnn + 1 < MEMORY_SIZE,
        m.word_at(nnn as int) == 0x00EE,
    ensures
        step_spec(m, rnd1) is Ok,
        step_spec(m, rnd1)->Ok_0.pc == nnn,
        step_spec(step_spec(m, rnd1)->Ok_0, rnd2) is Ok,
        step_spec(step_spec(m, rnd1)->Ok_0, rnd2)->Ok_0.pc == m.pc + 2,
        step_spec(step_spec(m, rnd1)->Ok_0, rnd2)->Ok_0.sp == m.sp,
{
    let op = m.word_at(m.pc as int);
    assert(op / 0x1000 == 2 && op % 0x1000 == nnn) by (nonlinear_arith)
        requires
            op == 0x2000 + nnn,
            nnn < 0x1000,
    ;
    assert(decode_spec(op) == Some(Instruction::Call { nnn }));
    let m1 = step_spec(m, rnd1)->Ok_0;
    assert(m1.memory == m.memory);
    assert(m1.word_at(nnn as int) == 0x00EE);
    assert(decode_spec(0x00EEu16) == Some(Instruction::Return));
}

/// `FX55` stores `V0..=VX` from `I` on and `FX65` from the same address loads
/// them back unchanged; each advances `I` by `X + 1`.
pub proof fn store_then_load_registers(m: Machine, x: u8, rnd: u8)
    requires
        m.wf(),
        x < 16,
        m.pc + 1 < MEMORY_SIZE,
        m.i + x < MEMORY_SIZE,
    ensures
        exec_spec(m, Instruction::StoreRegisters { x }, rnd) is Ok,
        exec_spec(m, Instruction::StoreRegisters { x }, rnd)->Ok_0.i == m.i + x + 1,
        ({
            let stored = exec_spec(m, Instruction::StoreRegisters { x }, rnd)->Ok_0;
            let back = Machine { i: m.i, ..stored };
            &&& exec_spec(back, Instruction::LoadRegisters { x }, rnd) is Ok
            &&& exec_spec(back, Instruction::LoadRegisters { x }, rnd)->Ok_0.v == m.v
            &&& exec_spec(back, Instruction::LoadRegisters { x }, rnd)->Ok_0.i == m.i + x + 1
        }),
{
    let stored = exec_spec(m, Instruction::StoreRegisters { x }, rnd)->Ok_0;
    let back = Machine { i: m.i, ..stored };
    assert(exec_spec(back, Instruction::LoadRegisters { x }, rnd)->Ok_0.v =~= m.v);
}

/// `DXYN` run twice with the same registers on a blank screen: the first draw
/// reports no collision (`VF := 0`) and the second leaves the screen blank
/// again. The coordinates must not sit in `VF`, which the first draw overwrites.
pub proof fn draw_twice_erases(m: Machine, x: u8, y: u8, n: u8, rnd: u8)
    requires
        m.wf(),
        x < 16,
        y < 16,
        n < 16,
        x != FLAG,
        y != FLAG,
        m.pc + 1 < MEMORY_SIZE,
        m.i + n <= MEMORY_SIZE,
        m.screen == blank(),
    ensures
        exec_spec(m, Instruction::Draw { x, y, n }, rnd) is Ok,
        exec_spec(m, Instruction::Draw { x, y, n }, rnd)->Ok_0.v[FLAG as int] == 0,
        exec_spec(
            exec_spec(m, Instruction::Draw { x, y, n }, rnd)->Ok_0,
            Instruction::Draw { x, y, n },
            rnd,
        ) is Ok,
        exec_spec(
            exec_spec(m, Instruction::Draw { x, y, n }, rnd)->Ok_0,
            Instruction::Draw { x, y, n },
            rnd,
        )->Ok_0.screen == blank(),
{
    let sprite = Seq::new(n as nat, |k: int| m.memory[m.i + k]);
    lemma_draw_twice_on_blank(m.v[x as int] as int, m.v[y as int] as int, sprite);
    let m1 = exec_spec(m, Instruction::Draw { x, y, n }, rnd)->Ok_0;
    assert(Seq::new(n as nat, |k: int| m1.memory[m1.i + k]) == sprite);
}

/// `EX9E` skips the next instruction exactly when key `VX` is down, and
/// `EXA1` exactly when it is up, for each of the sixteen keys.
pub proof fn key_skips_follow_keypad(m: Machine, x: u8, rnd: u8)
    requires
        m.wf(),
        x < 16,
        m.pc + 1 < MEMORY_SIZE,
        m.v[x as int] < KEY_COUNT,
    ensures
        m.word_at(m.pc as int) == 0xE09E + x * 0x100 ==> {
            &&& step_spec(m, rnd) is Ok
            &&& step_spec(m, rnd)->Ok_0.pc == if m.keys[m.v[x as int] as int] {
                m.pc + 4
            } else {
                m.pc + 2
            }
        },
        m.word_at(m.pc as int) == 0xE0A1 + x * 0x100 ==> {
            &&& step_spec(m, rnd) is Ok
            &&& step_spec(m, rnd)->Ok_0.pc == if m.keys[m.v[x as int] as int] {
                m.pc + 2
            } else {
                m.pc + 4
            }
        },
{
    let op = m.word_at(m.pc as int);
    if op == 0xE09E + x * 0x100 {
        assert(op / 0x1000 == 0xE && (op / 0x100) % 0x10 == x && op % 0x100 == 0x9E)
            by (nonlinear_arith)
            requires
                op == 0xE09E + x * 0x100,
                x < 16,
        ;
        assert(decode_spec(op) == Some(Instruction::SkipIfKey { x }));
    }
    if op == 0xE0A1 + x * 0x100 {
        assert(op / 0x1000 == 0xE && (op / 0x100) % 0x10 == x && op % 0x100 == 0xA1)
            by (nonlinear_arith)
            requires
                op == 0xE0A1 + x * 0x100,
                x < 16,
        ;
        assert(decode_spec(op) == Some(Instruction::SkipIfNotKey { x }));
    }
}

} // verus!

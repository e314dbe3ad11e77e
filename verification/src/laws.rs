//! Laws of the machine: what holds of every state, proved from the
//! definitions in [`crate::model`] and [`crate::display`].

use vstd::prelude::*;
use crate::display::{blank, collides, composite, pixel_hit, sprite_covers, sprite_visible};
use crate::instruction::{decoded, lemma_decoded_wf, Instruction};
use crate::model::{Fault, Machine};

verus! {

/// A cycle that succeeds leaves a well-formed machine well formed.
pub proof fn law_step_keeps_wf(m: Machine, random: u8)
    requires
        m.wf(),
    ensures
        m.step(random) matches Ok(next) ==> next.wf(),
{
    if let Ok(opcode) = m.fetch() {
        lemma_decoded_wf(opcode);
    }
}

/// Any number of cycles that succeed leave a well-formed machine well
/// formed.
pub proof fn law_run_keeps_wf(m: Machine, randoms: Seq<u8>)
    requires
        m.wf(),
    ensures
        m.run(randoms) matches Ok(end) ==> end.wf(),
    decreases randoms.len(),
{
    if randoms.len() > 0 {
        law_step_keeps_wf(m, randoms[0]);
        if let Ok(next) = m.step(randoms[0]) {
            law_run_keeps_wf(next, randoms.drop_first());
        }
    }
}

/// Loading a program image leaves every byte below the start address as it
/// was: the glyph set stays where construction put it.
pub proof fn law_load_keeps_low_memory(m: Machine, rom: Seq<u8>, address: int)
    requires
        m.wf(),
        0 <= address < 0x200,
    ensures
        m.load(rom).memory[address] == m.memory[address],
{
}

/// Memory is written by two instructions only, the BCD store and the
/// register dump: a cycle that executes another one leaves it as it was.
pub proof fn law_only_stores_write_memory(m: Machine, random: u8)
    requires
        m.wf(),
        m.fetch() matches Ok(opcode) && !(decoded(opcode) is StoreBcd) && !(decoded(opcode)
            is StoreRegisters),
    ensures
        m.step(random) matches Ok(next) ==> next.memory == m.memory,
{
}

/// A call whose target holds a return: after the two cycles the program
/// counter stands behind the call instruction and the stack pointer is what
/// it was before the call. Nothing else has changed but the stack slot that
/// held the return address.
pub proof fn law_call_then_return(m: Machine, addr: u16, r1: u8, r2: u8)
    requires
        m.wf(),
        m.sp < 16,
        m.fetch() matches Ok(opcode) && decoded(opcode) == (Instruction::Call { addr }),
        m.jump(addr).fetch() matches Ok(opcode) && decoded(opcode) == Instruction::Return,
    ensures
        ({
            &&& m.step(r1) matches Ok(called)
            &&& called.pc == addr
            &&& called.sp == m.sp + 1
            &&& called.step(r2) matches Ok(returned)
            &&& returned == (Machine {
                pc: (m.pc + 2) as u16,
                stack: m.stack.update(m.sp as int, (m.pc + 2) as u16),
                ..m
            })
        }),
{
    let called = m.step(r1)->Ok_0;
    assert(called.fetch() == m.jump(addr).fetch());
    let returned = called.step(r2)->Ok_0;
    assert(returned =~= (Machine {
        pc: (m.pc + 2) as u16,
        stack: m.stack.update(m.sp as int, (m.pc + 2) as u16),
        ..m
    }));
}

/// Compositing a sprite twice at the same origin gives back the screen that
/// was there before.
pub proof fn law_composite_twice(screen: Seq<bool>, sprite: Seq<u8>, x0: int, y0: int)
    requires
        screen.len() == 2048,
    ensures
        composite(composite(screen, sprite, x0, y0), sprite, x0, y0) == screen,
{
    assert(composite(composite(screen, sprite, x0, y0), sprite, x0, y0) =~= screen);
}

/// On a blank screen the first compositing of a sprite does not collide, and
/// the second, at the same origin, collides exactly if a set pixel of the
/// sprite lands on the screen.
pub proof fn law_collision_on_blank(sprite: Seq<u8>, x0: int, y0: int)
    ensures
        !collides(blank(), sprite, x0, y0),
        collides(composite(blank(), sprite, x0, y0), sprite, x0, y0) == sprite_visible(
            sprite,
            x0,
            y0,
        ),
{
    let first = composite(blank(), sprite, x0, y0);
    assert forall|k: int| 0 <= k < 2048 implies !#[trigger] pixel_hit(
        blank(),
        sprite,
        x0,
        y0,
        k,
    ) by {}
    if collides(first, sprite, x0, y0) {
        let k = choose|k: int| 0 <= k < 2048 && #[trigger] pixel_hit(first, sprite, x0, y0, k);
        assert(sprite_covers(sprite, x0, y0, k % 64, k / 64));
    }
    if sprite_visible(sprite, x0, y0) {
        let (px, py) = choose|px: int, py: int|
            0 <= px < 64 && 0 <= py < 32 && #[trigger] sprite_covers(sprite, x0, y0, px, py);
        let k = py * 64 + px;
        assert(k % 64 == px && k / 64 == py);
        assert(pixel_hit(first, sprite, x0, y0, k));
    }
}

/// Drawing the same sprite twice at the same origin on a machine whose
/// screen is blank: the first draw leaves `VF` at 0, the second turns every
/// pixel off again and sets `VF` to 1, provided that a set pixel of the
/// sprite lands on the screen; for a sprite without one, `VF` is 0 again.
///
/// The origin is read from `Vx` and `Vy` before `VF` is written, so the
/// origins are the same whenever neither register is `VF`.
pub proof fn law_draw_twice(m: Machine, x: u8, y: u8, rows: u8)
    requires
        m.wf(),
        x < 16,
        y < 16,
        rows < 16,
        m.screen == blank(),
        ({
            &&& m.draw(x, y, rows) matches Ok(first)
            &&& first.reg(x) % 64 == m.reg(x) % 64
            &&& first.reg(y) % 32 == m.reg(y) % 32
        }),
    ensures
        ({
            &&& m.draw(x, y, rows) matches Ok(first)
            &&& first.reg(0xF) == 0
            &&& first.draw(x, y, rows) matches Ok(second)
            &&& second.screen == blank()
            &&& second.reg(0xF) == (if sprite_visible(
                m.sprite(rows),
                m.reg(x) as int % 64,
                m.reg(y) as int % 32,
            ) {
                1u8
            } else {
                0u8
            })
        }),
{
    let sprite = m.sprite(rows);
    let x0 = m.reg(x) as int % 64;
    let y0 = m.reg(y) as int % 32;
    let first = m.draw(x, y, rows)->Ok_0;
    law_collision_on_blank(sprite, x0, y0);
    law_composite_twice(m.screen, sprite, x0, y0);
    assert(first.sprite(rows) =~= sprite);
}

/// Among the keys below `bound`, either none is down or one is the lowest
/// key that is down.
proof fn lemma_lowest_key_below(m: Machine, bound: int)
    requires
        0 <= bound <= 256,
    ensures
        (forall|j: u8| j < bound ==> !#[trigger] m.key_down(j)) || (exists|k: u8|
            k < bound && #[trigger] m.is_lowest_key_down(k)),
    decreases bound,
{
    if bound > 0 {
        lemma_lowest_key_below(m, bound - 1);
        let last = (bound - 1) as u8;
        if forall|j: u8| j < bound - 1 ==> !#[trigger] m.key_down(j) {
            if m.key_down(last) {
                assert(m.is_lowest_key_down(last));
            }
        }
    }
}

/// The key that a key wait finds is down, and no key with a smaller index
/// is; it finds none only if no key is down.
pub proof fn law_lowest_key_down(m: Machine)
    ensures
        match m.lowest_key_down() {
            Some(key) => m.is_lowest_key_down(key),
            None => forall|k: u8| !#[trigger] m.key_down(k),
        },
{
    lemma_lowest_key_below(m, 256);
}

/// Key wait with no key down: the cycle changes nothing at all, so the same
/// instruction is fetched again by the next cycle.
pub proof fn law_key_wait_holds(m: Machine, random: u8)
    requires
        m.wf(),
        m.fetch() matches Ok(opcode) && decoded(opcode) is WaitKey,
        forall|k: u8| !#[trigger] m.key_down(k),
    ensures
        m.step(random) == Ok::<Machine, Fault>(m),
{
    let advanced = m.advance();
    assert forall|k: u8| !#[trigger] advanced.key_down(k) by {
        assert(!m.key_down(k));
    }
    assert(advanced.lowest_key_down() is None);
    assert(m.step(random)->Ok_0 =~= m);
}

/// Key wait with no key down, cycle after cycle: the machine stays as it is.
pub proof fn law_key_wait_holds_on(m: Machine, randoms: Seq<u8>)
    requires
        m.wf(),
        m.fetch() matches Ok(opcode) && decoded(opcode) is WaitKey,
        forall|k: u8| !#[trigger] m.key_down(k),
    ensures
        m.run(randoms) == Ok::<Machine, Fault>(m),
    decreases randoms.len(),
{
    if randoms.len() > 0 {
        law_key_wait_holds(m, randoms[0]);
        law_key_wait_holds_on(m, randoms.drop_first());
    }
}

/// Key wait with a key down: the cycle stores the index of the lowest key
/// that is down in the target register, and the program counter moves on to
/// the next instruction. Nothing else changes.
pub proof fn law_key_wait_ends(m: Machine, x: u8, key: u8, random: u8)
    requires
        m.wf(),
        m.fetch() matches Ok(opcode) && decoded(opcode) == (Instruction::WaitKey { x }),
        m.is_lowest_key_down(key),
    ensures
        m.step(random) == Ok::<Machine, Fault>(
            Machine { pc: (m.pc + 2) as u16, ..m.with_register(x, key) },
        ),
{
    let advanced = m.advance();
    assert(advanced.is_lowest_key_down(key)) by {
        assert(advanced.key_down(key) == m.key_down(key));
        assert forall|j: u8| j < key implies !#[trigger] advanced.key_down(j) by {
            assert(!m.key_down(j));
        }
    }
    advanced.lemma_lowest_key_down(key);
    assert(m.step(random)->Ok_0 =~= (Machine {
        pc: (m.pc + 2) as u16,
        ..m.with_register(x, key)
    }));
}

/// A cycle changes a timer only by executing the instruction that sets it.
pub proof fn law_cycle_keeps_timers(m: Machine, random: u8)
    requires
        m.wf(),
    ensures
        m.step(random) matches Ok(next) ==> {
            &&& !m.sets_delay_timer() ==> next.delay_timer == m.delay_timer
            &&& !m.sets_sound_timer() ==> next.sound_timer == m.sound_timer
        },
{
}

/// Any number of cycles, none of which executes an instruction that sets a
/// timer, leave both timers as they were.
pub proof fn law_cycles_keep_timers(m: Machine, randoms: Seq<u8>)
    requires
        m.wf(),
        m.runs_without_timer_store(randoms),
    ensures
        m.run(randoms) matches Ok(end) ==> end.delay_timer == m.delay_timer && end.sound_timer
            == m.sound_timer,
    decreases randoms.len(),
{
    if randoms.len() > 0 {
        law_cycle_keeps_timers(m, randoms[0]);
        law_step_keeps_wf(m, randoms[0]);
        if let Ok(next) = m.step(randoms[0]) {
            law_cycles_keep_timers(next, randoms.drop_first());
        }
    }
}

/// A tick takes exactly one from each timer that is not zero, leaves a timer
/// at zero where it is, and touches nothing else.
pub proof fn law_tick(m: Machine)
    ensures
        m.tick().delay_timer == if m.delay_timer == 0 { 0int } else { m.delay_timer - 1 },
        m.tick().sound_timer == if m.sound_timer == 0 { 0int } else { m.sound_timer - 1 },
        m.tick() == (Machine {
            delay_timer: m.tick().delay_timer,
            sound_timer: m.tick().sound_timer,
            ..m
        }),
{
}

} // verus!

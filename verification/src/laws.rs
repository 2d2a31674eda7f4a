//! What holds of every machine: laws that relate its operations.

use crate::config::Chip8Variant;
use crate::display::{Screen, Sprite};
use crate::opcode::Opcode;
use crate::outcome::StepEvent;
use crate::state::{step, MachineState};
use vstd::prelude::*;

verus! {

/// Drawing the same sprite at the same place twice gives back the screen as
/// it was, and the second drawing turns off exactly the cells that the first
/// turned on: it reports a collision exactly when the first set a cell.
pub proof fn law_draw_twice_restores(screen: Screen, sprite: Sprite)
    ensures
        screen.draw(sprite).draw(sprite) == screen,
        forall|i: int| screen.draw(sprite).erased_at(sprite, i) == screen.set_at(sprite, i),
        screen.draw(sprite).collides(sprite) == screen.sets_any(sprite),
{
    let once = screen.draw(sprite);
    assert(once.draw(sprite).cells =~= screen.cells);
    assert forall|i: int| once.erased_at(sprite, i) == screen.set_at(sprite, i) by {}
    if once.collides(sprite) {
        let i = choose|i: int| once.erased_at(sprite, i);
        assert(screen.set_at(sprite, i));
    }
    if screen.sets_any(sprite) {
        let i = choose|i: int| screen.set_at(sprite, i);
        assert(once.erased_at(sprite, i));
    }
}

/// Drawing toggles exactly the cells under a set sprite pixel, keeps the
/// mode and the number of cells, and so keeps a valid screen valid.
pub proof fn law_draw_toggles(screen: Screen, sprite: Sprite, x: int, y: int)
    requires
        screen.valid(),
        0 <= x < screen.mode.columns(),
        0 <= y < screen.mode.rows(),
    ensures
        screen.draw(sprite).valid(),
        screen.draw(sprite).mode == screen.mode,
        screen.draw(sprite).pixel(x, y) == (screen.pixel(x, y) != sprite.lit(x, y)),
{
    let w = screen.mode.columns();
    let i = y * w + x;
    assert(0 <= i < w * screen.mode.rows() && i / w == y && i % w == x) by {
        if w == 64 {
        } else {
        }
    }
}

/// The instruction `DXYN` run twice in a row, with neither coordinate in
/// `VF`, gives back the screen as it was, and the second run sets `VF` to 1
/// exactly when the first turned a cell on.
pub proof fn law_redraw_restores(s: MachineState, x: int, y: int, n: int)
    requires
        s.valid(),
        0 <= x < 15,
        0 <= y < 15,
        0 <= n < 16,
    ensures
        s.draw(x, y, n).draw(x, y, n).screen == s.screen,
        s.draw(x, y, n).draw(x, y, n).registers[15] == (if s.screen.sets_any(s.sprite(x, y, n)) {
            1u8
        } else {
            0u8
        }),
{
    let sprite = s.sprite(x, y, n);
    let once = s.draw(x, y, n);
    assert(once.sprite(x, y, n).rows =~= sprite.rows);
    assert(once.sprite(x, y, n) == sprite);
    law_draw_twice_restores(s.screen, sprite);
}

/// `8XY4`: after adding `VY` to `VX`, `VF` is 1 if the sum of the two exceeds
/// 255 and 0 if it does not, and `VX`, where it is not `VF`, holds the sum
/// modulo 256.
pub proof fn law_add_carry(s: MachineState, x: int, y: int)
    requires
        s.valid(),
        0 <= x < 16,
        0 <= y < 16,
    ensures
        s.add(x, y).registers[15] == 1 <==> s.registers[x] + s.registers[y] > 255,
        s.add(x, y).registers[15] == 0 <==> s.registers[x] + s.registers[y] <= 255,
        x != 15 ==> s.add(x, y).registers[x] == (s.registers[x] + s.registers[y]) % 256,
{
}

/// `8XY5`, `8XY7`: after a subtraction, `VF` is 1 if the minuend is at least
/// the subtrahend (nothing was borrowed) and 0 if it is less, and `VX`, where
/// it is not `VF`, holds the difference modulo 256.
pub proof fn law_subtract_borrow(s: MachineState, x: int, minuend: u8, subtrahend: u8)
    requires
        s.valid(),
        0 <= x < 16,
    ensures
        s.subtract(x, minuend, subtrahend).registers[15] == 1 <==> minuend >= subtrahend,
        s.subtract(x, minuend, subtrahend).registers[15] == 0 <==> minuend < subtrahend,
        x != 15 ==> s.subtract(x, minuend, subtrahend).registers[x] == (minuend - subtrahend)
            % 256,
{
}

/// A step on `8XY4`, `8XY5` or `8XY7` completes and leaves in `VF` the carry
/// of the addition, or 1 where the subtraction borrowed nothing.
pub proof fn law_step_arithmetic_flag(s: MachineState, random: u8)
    requires
        s.valid(),
        s.pc < 4095,
        Opcode::of(s.opcode()).family == 8,
    ensures
        Opcode::of(s.opcode()).n == 4 ==> (step(s, random).state.registers[15] == 1 <==> s.registers[Opcode::of(
            s.opcode(),
        ).x as int] + s.registers[Opcode::of(s.opcode()).y as int] > 255),
        Opcode::of(s.opcode()).n == 5 ==> (step(s, random).state.registers[15] == 1 <==> s.registers[Opcode::of(
            s.opcode(),
        ).x as int] >= s.registers[Opcode::of(s.opcode()).y as int]),
        Opcode::of(s.opcode()).n == 7 ==> (step(s, random).state.registers[15] == 1 <==> s.registers[Opcode::of(
            s.opcode(),
        ).y as int] >= s.registers[Opcode::of(s.opcode()).x as int]),
        Opcode::of(s.opcode()).n == 4 || Opcode::of(s.opcode()).n == 5 || Opcode::of(
            s.opcode(),
        ).n == 7 ==> step(s, random).outcome == Ok::<StepEvent, crate::outcome::Fault>(
            StepEvent::Continue,
        ) && step(s, random).state.registers[15] <= 1,
{
    Opcode::lemma_fields(s.opcode());
}

/// `FX33` writes three decimal digits, hundreds first, that make up `VX`.
pub proof fn law_bcd_digits(s: MachineState, x: int)
    requires
        s.valid(),
        0 <= x < 16,
        s.index + 2 < 4096,
    ensures
        s.store_bcd(x).memory[s.index as int] < 10,
        s.store_bcd(x).memory[s.index + 1] < 10,
        s.store_bcd(x).memory[s.index + 2] < 10,
        s.registers[x] == 100 * s.store_bcd(x).memory[s.index as int] + 10 * s.store_bcd(
            x,
        ).memory[s.index + 1] + s.store_bcd(x).memory[s.index + 2],
        forall|a: int|
            0 <= a < 4096 && !(s.index <= a <= s.index + 2) ==> s.store_bcd(x).memory[a]
                == s.memory[a],
{
}

/// A step on `00E0` completes and leaves a framebuffer of the same mode
/// with exactly one cell per position and every cell unset, whatever it
/// held before.
pub proof fn law_clear_blanks(s: MachineState, random: u8)
    requires
        s.valid(),
        s.pc < 4095,
        s.opcode() == 0x00E0,
    ensures
        step(s, random).outcome == Ok::<StepEvent, crate::outcome::Fault>(StepEvent::Continue),
        step(s, random).state.screen.mode == s.screen.mode,
        step(s, random).state.screen.cells.len() == s.screen.mode.columns() * s.screen.mode.rows(),
        forall|i: int|
            0 <= i < step(s, random).state.screen.cells.len() ==> !step(
                s,
                random,
            ).state.screen.cells[i],
        step(s, random).state == (MachineState {
            pc: (s.pc + 2) as u16,
            screen: Screen::blank(s.screen.mode),
            ..s
        }),
{
    Opcode::lemma_fields(s.opcode());
}

/// A step on `FX0A` while no key is released changes nothing, so the same
/// instruction runs again at the next step.
pub proof fn law_key_wait_blocks(s: MachineState, random: u8)
    requires
        s.valid(),
        s.pc < 4095,
        Opcode::of(s.opcode()).family == 0xF,
        Opcode::of(s.opcode()).nn == 0x0A,
        forall|k: int| !s.released(k),
    ensures
        step(s, random).outcome == Ok::<StepEvent, crate::outcome::Fault>(StepEvent::Continue),
        step(s, random).state == s,
{
    Opcode::lemma_fields(s.opcode());
    let after = s.with_pc(s.pc + 2);
    assert(forall|k: int| after.released(k) == s.released(k));
    assert(after.wait_key(Opcode::of(s.opcode()).x as int) == s);
}

/// A step on `FX0A` once a key is released moves the program counter on by
/// exactly 2 and puts the index of the lowest released key into `VX`; nothing
/// else changes.
pub proof fn law_key_wait_resumes(s: MachineState, random: u8, key: int)
    requires
        s.valid(),
        s.pc < 4095,
        Opcode::of(s.opcode()).family == 0xF,
        Opcode::of(s.opcode()).nn == 0x0A,
        s.first_released(key),
    ensures
        step(s, random).outcome == Ok::<StepEvent, crate::outcome::Fault>(StepEvent::Continue),
        step(s, random).state == (MachineState {
            pc: (s.pc + 2) as u16,
            registers: s.registers.update(Opcode::of(s.opcode()).x as int, key as u8),
            ..s
        }),
{
    Opcode::lemma_fields(s.opcode());
    let after = s.with_pc(s.pc + 2);
    assert(forall|k: int| after.released(k) == s.released(k));
    assert(after.released(key));
    assert(after.first_released(key));
    let chosen = choose|k: int| after.first_released(k);
    assert(after.first_released(chosen));
    assert(chosen == key);
}

/// A key polled as held and then as not held is released.
pub proof fn law_release_edge(s: MachineState, key: int)
    requires
        s.valid(),
        0 <= key < 16,
    ensures
        s.press(key, true).press(key, false).released(key),
        !s.press(key, true).released(key),
        !s.press(key, false).press(key, false).released(key),
{
}

/// A step that reports a fault leaves the state as it was, so stepping again
/// reports the same fault.
pub proof fn law_fault_changes_nothing(s: MachineState, random: u8)
    requires
        step(s, random).outcome is Err,
    ensures
        step(s, random).state == s,
        step(step(s, random).state, random) == step(s, random),
{
}

/// Only an instruction of family C depends on the random byte.
pub proof fn law_random_only_in_family_c(s: MachineState, a: u8, b: u8)
    requires
        !s.draws_random(),
    ensures
        step(s, a) == step(s, b),
{
}

/// The initial state is valid, and loading a program, polling a key, a timer
/// tick and a reset keep a valid state valid.
pub proof fn law_operations_keep_validity(s: MachineState, program: Seq<u8>, key: int, pressed: bool)
    requires
        s.valid(),
        0 <= key < 16,
    ensures
        MachineState::initial(s.variant).valid(),
        s.reset().valid(),
        s.load(program).valid(),
        s.press(key, pressed).valid(),
        s.tick_timers().valid(),
{
}

/// A step keeps a valid state valid.
pub proof fn law_step_keeps_validity(s: MachineState, random: u8)
    requires
        s.valid(),
    ensures
        step(s, random).state.valid(),
{
    if s.pc < 4095 {
        Opcode::lemma_fields(s.opcode());
    }
}

/// A step never changes the variant or the switches.
pub proof fn law_step_keeps_configuration(s: MachineState, random: u8)
    ensures
        step(s, random).state.variant == s.variant,
        step(s, random).state.quirks == s.quirks,
{
}

/// The resolution toggles `00FE` and `00FF` are a fault on the base variant,
/// and the state stays as it was.
pub proof fn law_resolution_needs_extended(s: MachineState, random: u8)
    requires
        s.valid(),
        s.pc < 4095,
        s.opcode() == 0x00FE || s.opcode() == 0x00FF,
        s.variant == Chip8Variant::Chip8,
    ensures
        step(s, random).outcome == Err::<StepEvent, crate::outcome::Fault>(
            crate::outcome::Fault::Execute {
                reason: crate::outcome::Reason::InvalidOpcode,
                opcode: s.opcode(),
                pc: s.pc,
            },
        ),
        step(s, random).state == s,
{
    Opcode::lemma_fields(s.opcode());
}

} // verus!

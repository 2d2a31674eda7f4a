//! The state of a machine and the meaning of its instructions, as mathematics.
//!
//! Nothing here is executable: these functions say what the machine does,
//! and the executable machine is proved to follow them.

use crate::config::{Chip8Variant, DisplayMode, Quirks};
use crate::display::{Screen, Sprite};
use crate::font::{initial_memory, FONTSET_ADDR, HIRES_FONTSET_ADDR};
use crate::opcode::Opcode;
use crate::outcome::{AudioCommand, Fault, Reason, StepEvent};
use vstd::prelude::*;

verus! {

/// Address at which programs are loaded and execution starts.
pub const START_ADDR: u16 = 0x200;

/// Everything a machine holds.
#[verifier::ext_equal]
pub struct MachineState {
    /// Address of the next instruction.
    pub pc: u16,
    /// The index register `I`.
    pub index: u16,
    /// The registers `V0` to `VF`.
    pub registers: Seq<u8>,
    /// Memory, byte by byte.
    pub memory: Seq<u8>,
    /// The return addresses of the subroutines being run, innermost last.
    pub stack: Seq<u16>,
    /// The delay timer.
    pub delay_timer: u8,
    /// The sound timer.
    pub sound_timer: u8,
    /// Which keys are held.
    pub keys: Seq<bool>,
    /// Which keys were held when each was last polled before.
    pub previous_keys: Seq<bool>,
    /// The framebuffer.
    pub screen: Screen,
    /// The instruction set.
    pub variant: Chip8Variant,
    /// The behavioural switches.
    pub quirks: Quirks,
}

/// What carrying out one instruction gives: the state after it and what to
/// tell the driver, or the reason it cannot be carried out.
pub type Effect = Result<(MachineState, StepEvent), Reason>;

/// The result of one step: the state after it and what is reported.
pub struct Step {
    /// The state after the step.
    pub state: MachineState,
    /// What the step reports.
    pub outcome: Result<StepEvent, Fault>,
}

impl MachineState {
    /// Every part has the size the machine gives it.
    pub open spec fn valid(self) -> bool {
        &&& self.registers.len() == 16
        &&& self.memory.len() == 4096
        &&& self.stack.len() <= 16
        &&& self.keys.len() == 16
        &&& self.previous_keys.len() == 16
        &&& self.screen.valid()
    }

    /// A machine of `variant` before anything is loaded.
    pub open spec fn initial(variant: Chip8Variant) -> MachineState {
        MachineState {
            pc: START_ADDR,
            index: 0,
            registers: Seq::new(16, |i: int| 0u8),
            memory: initial_memory(),
            stack: Seq::empty(),
            delay_timer: 0,
            sound_timer: 0,
            keys: Seq::new(16, |i: int| false),
            previous_keys: Seq::new(16, |i: int| false),
            screen: Screen::blank(DisplayMode::LoRes),
            variant,
            quirks: Quirks::for_variant(variant),
        }
    }

    /// The machine put back to its initial state, keeping its variant and its
    /// switches.
    pub open spec fn reset(self) -> MachineState {
        MachineState { quirks: self.quirks, ..MachineState::initial(self.variant) }
    }

    /// Memory with `program` copied to the load address.
    pub open spec fn load(self, program: Seq<u8>) -> MachineState {
        MachineState {
            memory: Seq::new(
                4096,
                |a: int|
                    if START_ADDR <= a < START_ADDR + program.len() {
                        program[a - START_ADDR]
                    } else {
                        self.memory[a]
                    },
            ),
            ..self
        }
    }

    /// Key `key` polled as `pressed`: what it was before moves to the history.
    pub open spec fn press(self, key: int, pressed: bool) -> MachineState {
        MachineState {
            previous_keys: self.previous_keys.update(key, self.keys[key]),
            keys: self.keys.update(key, pressed),
            ..self
        }
    }

    /// Both timers one tick later: each goes down by one unless it is zero.
    pub open spec fn tick_timers(self) -> MachineState {
        MachineState {
            delay_timer: if self.delay_timer > 0 {
                (self.delay_timer - 1) as u8
            } else {
                0
            },
            sound_timer: if self.sound_timer > 0 {
                (self.sound_timer - 1) as u8
            } else {
                0
            },
            ..self
        }
    }

    /// What a timer tick asks of the tone: it plays while the sound timer is
    /// not zero.
    pub open spec fn tone(self) -> AudioCommand {
        if self.sound_timer > 0 {
            AudioCommand::StartBeep
        } else {
            AudioCommand::StopBeep
        }
    }

    /// The state with the program counter at `pc`.
    pub open spec fn with_pc(self, pc: int) -> MachineState {
        MachineState { pc: pc as u16, ..self }
    }

    /// The state with the index register at `index`.
    pub open spec fn with_index(self, index: int) -> MachineState {
        MachineState { index: index as u16, ..self }
    }

    /// The state with register `x` holding `value`.
    pub open spec fn with_register(self, x: int, value: int) -> MachineState {
        MachineState { registers: self.registers.update(x, value as u8), ..self }
    }

    /// The state with register `x` holding `value` and then `VF` holding
    /// `flag`: the flag is written last, so it wins where `x` is `VF`.
    pub open spec fn with_result(self, x: int, value: int, flag: bool) -> MachineState {
        MachineState {
            registers: self.registers.update(x, value as u8).update(
                15,
                if flag {
                    1u8
                } else {
                    0u8
                },
            ),
            ..self
        }
    }

    /// The state that skips the next instruction if `condition` holds.
    pub open spec fn skip_if(self, condition: bool) -> MachineState {
        if condition {
            self.with_pc(self.pc + 2)
        } else {
            self
        }
    }

    /// `00E0`: every cell of the framebuffer unset, at the current resolution.
    pub open spec fn clear_screen(self) -> MachineState {
        MachineState { screen: Screen::blank(self.screen.mode), ..self }
    }

    /// `00FE`, `00FF`: the framebuffer replaced by a blank one of `mode`.
    pub open spec fn set_resolution(self, mode: DisplayMode) -> MachineState {
        MachineState { screen: Screen::blank(mode), ..self }
    }

    /// `2NNN`: the address after the call pushed, execution at `target`.
    pub open spec fn call(self, target: int) -> MachineState {
        MachineState { stack: self.stack.push(self.pc), pc: target as u16, ..self }
    }

    /// `00EE`: execution at the innermost return address, which is popped.
    pub open spec fn ret(self) -> MachineState {
        MachineState { stack: self.stack.drop_last(), pc: self.stack.last(), ..self }
    }

    /// `8XY1`, `8XY2`, `8XY3`: register `x` set to `value`, and `VF` zeroed
    /// afterwards where the switch asks for it.
    pub open spec fn logic(self, x: int, value: u8) -> MachineState {
        if self.quirks.vf_reset {
            MachineState { registers: self.registers.update(x, value).update(15, 0u8), ..self }
        } else {
            self.with_register(x, value as int)
        }
    }

    /// `8XY4`: `VX` becomes the sum modulo 256 and `VF` the carry.
    pub open spec fn add(self, x: int, y: int) -> MachineState {
        let sum = self.registers[x] + self.registers[y];
        self.with_result(x, sum % 256, sum > 255)
    }

    /// `8XY5`, `8XY7`: `VX` becomes `minuend - subtrahend` modulo 256 and `VF`
    /// is 1 exactly when there was no borrow.
    pub open spec fn subtract(self, x: int, minuend: u8, subtrahend: u8) -> MachineState {
        self.with_result(x, (minuend - subtrahend) % 256, minuend >= subtrahend)
    }

    /// The operand of a shift: `VX` itself where shifts work in place, else
    /// `VY`.
    pub open spec fn shift_operand(self, x: int, y: int) -> u8 {
        if self.quirks.shifting {
            self.registers[x]
        } else {
            self.registers[y]
        }
    }

    /// `8XY6`: `VX` becomes the operand halved and `VF` the bit shifted out.
    pub open spec fn shift_right(self, x: int, y: int) -> MachineState {
        let operand = self.shift_operand(x, y);
        self.with_result(x, (operand / 2) as int, operand % 2 == 1)
    }

    /// `8XYE`: `VX` becomes the operand doubled modulo 256 and `VF` the bit
    /// shifted out.
    pub open spec fn shift_left(self, x: int, y: int) -> MachineState {
        let operand = self.shift_operand(x, y);
        self.with_result(x, (operand * 2) % 256, operand >= 128)
    }

    /// `7XNN`: `VX` becomes the sum modulo 256; no flag is written.
    pub open spec fn add_immediate(self, x: int, nn: u8) -> MachineState {
        self.with_register(x, (self.registers[x] + nn) % 256)
    }

    /// `BNNN`: the register whose value a computed jump adds to the address:
    /// the one that the address's high nibble selects where the switch says
    /// so, else `V0`.
    pub open spec fn jump_register(self, x: int) -> int {
        if self.quirks.jumping {
            x
        } else {
            0
        }
    }

    /// `BNNN`: execution at `nnn` plus the jump register.
    pub open spec fn jump_offset(self, x: int, nnn: u16) -> MachineState {
        self.with_pc(self.registers[self.jump_register(x)] + nnn)
    }

    /// `FX1E`: the index register moved on by `VX`, modulo 65536.
    pub open spec fn add_index(self, x: int) -> MachineState {
        self.with_index((self.index + self.registers[x]) % 65536)
    }

    /// `FX29`: the index register at the glyph of the digit in `VX`.
    pub open spec fn glyph(self, x: int) -> MachineState {
        self.with_index(FONTSET_ADDR + self.registers[x] * 5)
    }

    /// `FX30`: the index register at the high-resolution glyph of the digit
    /// in `VX`.
    pub open spec fn large_glyph(self, x: int) -> MachineState {
        self.with_index(HIRES_FONTSET_ADDR + self.registers[x] * 10)
    }

    /// The number of sprite rows that `DXYN` draws: the sprite's height, cut
    /// at the bottom edge of the screen.
    pub open spec fn sprite_height(self, y: int, n: int) -> int {
        let height = if self.sprite_wide(n) {
            16
        } else {
            n
        };
        let room = self.screen.mode.rows() - self.registers[y] % (self.screen.mode.rows() as u8);
        if height < room {
            height
        } else {
            room
        }
    }

    /// Whether `DXYN` draws a 16 by 16 sprite: in high resolution with a
    /// count of zero.
    pub open spec fn sprite_wide(self, n: int) -> bool {
        self.screen.mode == DisplayMode::HiRes && n == 0
    }

    /// The number of bytes that one sprite row takes in memory.
    pub open spec fn sprite_stride(self, n: int) -> int {
        if self.sprite_wide(n) {
            2
        } else {
            1
        }
    }

    /// Row `r` of the sprite at the index register.
    pub open spec fn sprite_row(self, n: int, r: int) -> u16 {
        if self.sprite_wide(n) {
            Opcode::word(self.memory[self.index + 2 * r], self.memory[self.index + 2 * r + 1])
        } else {
            self.memory[self.index + r] as u16
        }
    }

    /// The sprite that `DXYN` draws and its place: the origin is wrapped
    /// onto the screen, the rows come from memory at the index register.
    pub open spec fn sprite(self, x: int, y: int, n: int) -> Sprite {
        Sprite {
            x: (self.registers[x] % (self.screen.mode.columns() as u8)) as int,
            y: (self.registers[y] % (self.screen.mode.rows() as u8)) as int,
            wide: self.sprite_wide(n),
            rows: Seq::new(self.sprite_height(y, n) as nat, |r: int| self.sprite_row(n, r)),
        }
    }

    /// Whether every sprite row that `DXYN` draws lies within memory.
    pub open spec fn sprite_in_memory(self, y: int, n: int) -> bool {
        self.sprite_height(y, n) == 0 || self.index + self.sprite_height(y, n)
            * self.sprite_stride(n) <= 4096
    }

    /// `DXYN`: the sprite drawn on the screen and `VF` set to the collision
    /// flag.
    pub open spec fn draw(self, x: int, y: int, n: int) -> MachineState {
        let sprite = self.sprite(x, y, n);
        MachineState {
            screen: self.screen.draw(sprite),
            registers: self.registers.update(
                15,
                if self.screen.collides(sprite) {
                    1u8
                } else {
                    0u8
                },
            ),
            ..self
        }
    }

    /// Key `k` is not held now and was held when it was polled before.
    pub open spec fn released(self, k: int) -> bool {
        0 <= k < 16 && !self.keys[k] && self.previous_keys[k]
    }

    /// Key `k` is the lowest released key.
    pub open spec fn first_released(self, k: int) -> bool {
        self.released(k) && forall|j: int| 0 <= j < k ==> !self.released(j)
    }

    /// `FX0A`: with a released key, its index goes to `VX`; with none, the
    /// program counter goes back to the instruction, which so runs again.
    pub open spec fn wait_key(self, x: int) -> MachineState {
        if exists|k: int| self.released(k) {
            self.with_register(x, choose|k: int| self.first_released(k))
        } else {
            self.with_pc(self.pc - 2)
        }
    }

    /// `FX33`: the hundreds, tens and ones of `VX` at the index register.
    pub open spec fn store_bcd(self, x: int) -> MachineState {
        let value = self.registers[x];
        MachineState {
            memory: self.memory.update(self.index as int, value / 100).update(
                self.index + 1,
                (value / 10) % 10,
            ).update(self.index + 2, value % 10),
            ..self
        }
    }

    /// The index register after a bulk transfer of `V0` to `VX`.
    pub open spec fn index_after_transfer(self, x: int) -> u16 {
        if self.quirks.memory {
            (self.index + x + 1) as u16
        } else {
            self.index
        }
    }

    /// `FX55`: `V0` to `VX` copied to memory at the index register.
    pub open spec fn store_registers(self, x: int) -> MachineState {
        MachineState {
            memory: Seq::new(
                4096,
                |a: int|
                    if self.index <= a <= self.index + x {
                        self.registers[a - self.index]
                    } else {
                        self.memory[a]
                    },
            ),
            index: self.index_after_transfer(x),
            ..self
        }
    }

    /// `FX65`: `V0` to `VX` filled from memory at the index register.
    pub open spec fn load_registers(self, x: int) -> MachineState {
        MachineState {
            registers: Seq::new(
                16,
                |r: int|
                    if r <= x {
                        self.memory[self.index + r]
                    } else {
                        self.registers[r]
                    },
            ),
            index: self.index_after_transfer(x),
            ..self
        }
    }

    /// The instruction word at the program counter.
    pub open spec fn opcode(self) -> u16 {
        Opcode::word(self.memory[self.pc as int], self.memory[self.pc + 1])
    }

    /// Whether the instruction at the program counter draws a random byte.
    pub open spec fn draws_random(self) -> bool {
        self.pc < 4095 && Opcode::of(self.opcode()).family == 0xC
    }
}

/// The instruction carried out with nothing to report.
pub open spec fn done(state: MachineState) -> Effect {
    Ok((state, StepEvent::Continue))
}

/// The machine halts with `reason` unless `possible`.
pub open spec fn guarded(possible: bool, reason: Reason, state: MachineState) -> Effect {
    if possible {
        done(state)
    } else {
        Err(reason)
    }
}

/// An instruction with effect `effect` took the machine from `before` to
/// `after` and reported `result`: where it can be carried out, the machine
/// is in the state it gives; where it cannot, the machine is as it was.
pub open spec fn carried_out(
    before: MachineState,
    effect: Effect,
    after: MachineState,
    result: Result<StepEvent, Reason>,
) -> bool {
    match effect {
        Ok((state, event)) => after == state && result == Ok::<StepEvent, Reason>(event),
        Err(reason) => after == before && result == Err::<StepEvent, Reason>(reason),
    }
}

/// The instructions of family 0: display, return, resolution and exit.
pub open spec fn run_system(s: MachineState, f: Opcode) -> Effect {
    if f.x != 0 {
        Err(Reason::InvalidOpcode)
    } else if f.nn == 0x00 {
        done(s)
    } else if f.y == 0xC {
        Ok((s, StepEvent::Reserved { opcode: f.raw }))
    } else if f.nn == 0xE0 {
        done(s.clear_screen())
    } else if f.nn == 0xEE {
        guarded(s.stack.len() > 0, Reason::StackUnderflow, s.ret())
    } else if f.nn == 0xFB || f.nn == 0xFC {
        Ok((s, StepEvent::Reserved { opcode: f.raw }))
    } else if f.nn == 0xFD {
        Ok((s, StepEvent::Exit))
    } else if f.nn == 0xFE {
        guarded(
            s.variant == Chip8Variant::SuperChip,
            Reason::InvalidOpcode,
            s.set_resolution(DisplayMode::LoRes),
        )
    } else if f.nn == 0xFF {
        guarded(
            s.variant == Chip8Variant::SuperChip,
            Reason::InvalidOpcode,
            s.set_resolution(DisplayMode::HiRes),
        )
    } else {
        Err(Reason::InvalidOpcode)
    }
}

/// The instructions of family 8: moves, logic, arithmetic and shifts between
/// registers.
pub open spec fn run_arithmetic(s: MachineState, f: Opcode) -> Effect {
    let x = f.x as int;
    let y = f.y as int;
    let vx = s.registers[x];
    let vy = s.registers[y];
    if f.n == 0x0 {
        done(s.with_register(x, vy as int))
    } else if f.n == 0x1 {
        done(s.logic(x, vx | vy))
    } else if f.n == 0x2 {
        done(s.logic(x, vx & vy))
    } else if f.n == 0x3 {
        done(s.logic(x, vx ^ vy))
    } else if f.n == 0x4 {
        done(s.add(x, y))
    } else if f.n == 0x5 {
        done(s.subtract(x, vx, vy))
    } else if f.n == 0x6 {
        done(s.shift_right(x, y))
    } else if f.n == 0x7 {
        done(s.subtract(x, vy, vx))
    } else if f.n == 0xE {
        done(s.shift_left(x, y))
    } else {
        Err(Reason::InvalidOpcode)
    }
}

/// The instructions of family E: skips on the key that `VX` names.
pub open spec fn run_key(s: MachineState, f: Opcode) -> Effect {
    let key = s.registers[f.x as int];
    if f.nn == 0x9E {
        guarded(key < 16, Reason::KeyIndex, s.skip_if(s.keys[key as int]))
    } else if f.nn == 0xA1 {
        guarded(key < 16, Reason::KeyIndex, s.skip_if(!s.keys[key as int]))
    } else {
        Err(Reason::InvalidOpcode)
    }
}

/// The instructions of family F: timers, key wait, index register and
/// transfers between registers and memory.
pub open spec fn run_misc(s: MachineState, f: Opcode) -> Effect {
    let x = f.x as int;
    let vx = s.registers[x];
    if f.nn == 0x07 {
        done(s.with_register(x, s.delay_timer as int))
    } else if f.nn == 0x0A {
        done(s.wait_key(x))
    } else if f.nn == 0x15 {
        done(MachineState { delay_timer: vx, ..s })
    } else if f.nn == 0x18 {
        done(MachineState { sound_timer: vx, ..s })
    } else if f.nn == 0x1E {
        done(s.add_index(x))
    } else if f.nn == 0x29 {
        done(s.glyph(x))
    } else if f.nn == 0x30 {
        guarded(
            s.variant == Chip8Variant::SuperChip,
            Reason::InvalidOpcode,
            s.large_glyph(x),
        )
    } else if f.nn == 0x33 {
        guarded(s.index + 2 < 4096, Reason::MemoryAccess, s.store_bcd(x))
    } else if f.nn == 0x55 {
        guarded(s.index + x < 4096, Reason::MemoryAccess, s.store_registers(x))
    } else if f.nn == 0x65 {
        guarded(s.index + x < 4096, Reason::MemoryAccess, s.load_registers(x))
    } else if f.nn == 0x75 || f.nn == 0x85 {
        Ok((s, StepEvent::Reserved { opcode: f.raw }))
    } else {
        Err(Reason::InvalidOpcode)
    }
}

/// What the instruction word `op` does to `s`, a state whose program counter
/// is already past the word. `random` is the byte that a random draw gives.
pub open spec fn run(s: MachineState, op: u16, random: u8) -> Effect {
    let f = Opcode::of(op);
    let x = f.x as int;
    let y = f.y as int;
    let vx = s.registers[x];
    let vy = s.registers[y];
    if f.family == 0x0 {
        run_system(s, f)
    } else if f.family == 0x1 {
        done(s.with_pc(f.nnn as int))
    } else if f.family == 0x2 {
        guarded(s.stack.len() < 16, Reason::StackOverflow, s.call(f.nnn as int))
    } else if f.family == 0x3 {
        done(s.skip_if(vx == f.nn))
    } else if f.family == 0x4 {
        done(s.skip_if(vx != f.nn))
    } else if f.family == 0x5 {
        guarded(f.n == 0, Reason::InvalidOpcode, s.skip_if(vx == vy))
    } else if f.family == 0x6 {
        done(s.with_register(x, f.nn as int))
    } else if f.family == 0x7 {
        done(s.add_immediate(x, f.nn))
    } else if f.family == 0x8 {
        run_arithmetic(s, f)
    } else if f.family == 0x9 {
        guarded(f.n == 0, Reason::InvalidOpcode, s.skip_if(vx != vy))
    } else if f.family == 0xA {
        done(s.with_index(f.nnn as int))
    } else if f.family == 0xB {
        done(s.jump_offset(x, f.nnn))
    } else if f.family == 0xC {
        done(s.with_register(x, (random & f.nn) as int))
    } else if f.family == 0xD {
        guarded(s.sprite_in_memory(y, f.n as int), Reason::MemoryAccess, s.draw(x, y, f.n as int))
    } else if f.family == 0xE {
        run_key(s, f)
    } else {
        run_misc(s, f)
    }
}

/// One step of the machine: the instruction word at the program counter is
/// fetched, the program counter moves past it, and the word is carried out.
/// A step that cannot be carried out leaves the state as it was.
pub open spec fn step(s: MachineState, random: u8) -> Step {
    if s.pc >= 4095 {
        Step { state: s, outcome: Err(Fault::Fetch { pc: s.pc }) }
    } else {
        match run(s.with_pc(s.pc + 2), s.opcode(), random) {
            Ok((state, event)) => Step { state, outcome: Ok(event) },
            Err(reason) => Step {
                state: s,
                outcome: Err(Fault::Execute { reason, opcode: s.opcode(), pc: s.pc }),
            },
        }
    }
}

} // verus!

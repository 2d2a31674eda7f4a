//! The machine: its storage and the operations its driver calls.

use crate::config::{Chip8Variant, DisplayMode, Quirks};
use crate::display::FrameBuffer;
use crate::font::{
    initial_memory, FONTSET, FONTSET_SIZE, HIRES_FONTSET, HIRES_FONTSET_ADDR, HIRES_FONTSET_SIZE,
};
use crate::opcode::Opcode;
use crate::outcome::{AudioCommand, Fault, Reason, StepEvent};
use crate::rng::random_byte;
use crate::state::{
    carried_out, run, run_arithmetic, run_key, run_misc, run_system, step, MachineState,
    START_ADDR,
};
use vstd::prelude::*;

verus! {

/// A CHIP-8 or SUPER-CHIP machine.
pub struct Cpu {
    /// Address of the next instruction.
    pc: u16,
    /// 4 KB of memory.
    ram: [u8; 4096],
    /// The monochrome framebuffer.
    screen: FrameBuffer,
    /// The registers `V0` to `VF`.
    v_reg: [u8; 16],
    /// The index register.
    i_reg: u16,
    /// The number of return addresses on the stack.
    sp: u16,
    /// The return addresses; those at `sp` and above are stale.
    stack: [u16; 16],
    /// Which keys are held.
    keys: [bool; 16],
    /// Which keys were held at the poll before, for `FX0A`.
    prev_keys: [bool; 16],
    /// The delay timer.
    delay_t: u8,
    /// The sound timer.
    sound_t: u8,
    variant: Chip8Variant,
    quirks: Quirks,
}

impl View for Cpu {
    type V = MachineState;

    closed spec fn view(&self) -> MachineState {
        MachineState {
            pc: self.pc,
            index: self.i_reg,
            registers: self.v_reg@,
            memory: self.ram@,
            stack: self.stack@.take(self.sp as int),
            delay_timer: self.delay_t,
            sound_timer: self.sound_t,
            keys: self.keys@,
            previous_keys: self.prev_keys@,
            screen: self.screen@,
            variant: self.variant,
            quirks: self.quirks,
        }
    }
}

/// Memory with the two glyph sets in place and zero elsewhere.
fn fresh_memory() -> (ram: [u8; 4096])
    ensures
        ram@ == initial_memory(),
{
    let mut ram: [u8; 4096] = [0; 4096];
    let mut i: usize = 0;
    while i < FONTSET_SIZE
        invariant
            i <= FONTSET_SIZE,
            forall|a: int| 0 <= a < i ==> ram@[a] == FONTSET@[a],
            forall|a: int| i <= a < 4096 ==> ram@[a] == 0,
        decreases FONTSET_SIZE - i,
    {
        ram[i] = FONTSET[i];
        i += 1;
    }
    let mut j: usize = 0;
    while j < HIRES_FONTSET_SIZE
        invariant
            j <= HIRES_FONTSET_SIZE,
            forall|a: int| 0 <= a < FONTSET_SIZE ==> ram@[a] == FONTSET@[a],
            forall|a: int|
                HIRES_FONTSET_ADDR <= a < HIRES_FONTSET_ADDR + j ==> ram@[a]
                    == HIRES_FONTSET@[a - HIRES_FONTSET_ADDR],
            forall|a: int|
                FONTSET_SIZE <= a < HIRES_FONTSET_ADDR || HIRES_FONTSET_ADDR + j <= a < 4096
                    ==> ram@[a] == 0,
        decreases HIRES_FONTSET_SIZE - j,
    {
        ram[HIRES_FONTSET_ADDR + j] = HIRES_FONTSET[j];
        j += 1;
    }
    assert(ram@ =~= initial_memory());
    ram
}

impl Cpu {
    /// The machine's parts fit together: the stack pointer is within the stack
    /// and the framebuffer has the size of its mode.
    pub closed spec fn wf(&self) -> bool {
        &&& self.sp <= 16
        &&& self.screen.wf()
    }

    /// The state of a well-formed machine is valid.
    pub proof fn lemma_valid(&self)
        requires
            self.wf(),
        ensures
            self@.valid(),
    {
    }

    /// A machine of `variant` in its initial state: the program counter at
    /// the load address, the glyphs in memory, all else zero, and the
    /// framebuffer blank in low resolution.
    pub fn new(variant: Chip8Variant) -> (cpu: Self)
        ensures
            cpu.wf(),
            cpu@ == MachineState::initial(variant),
    {
        let quirks = Quirks::new_variant(variant);
        let cpu = Self {
            pc: START_ADDR,
            ram: fresh_memory(),
            screen: FrameBuffer::new(DisplayMode::LoRes),
            v_reg: [0; 16],
            i_reg: 0,
            sp: 0,
            stack: [0; 16],
            keys: [false; 16],
            prev_keys: [false; 16],
            delay_t: 0,
            sound_t: 0,
            variant,
            quirks,
        };
        assert(cpu@ =~= MachineState::initial(variant));
        cpu
    }

    /// Puts the machine back to its initial state, keeping its variant and
    /// its switches, and asks for the tone to stop.
    pub fn reset(&mut self) -> (tone: AudioCommand)
        ensures
            final(self).wf(),
            final(self)@ == old(self)@.reset(),
            tone == AudioCommand::StopBeep,
    {
        self.pc = START_ADDR;
        self.ram = fresh_memory();
        self.screen = FrameBuffer::new(DisplayMode::LoRes);
        self.v_reg = [0; 16];
        self.i_reg = 0;
        self.sp = 0;
        self.stack = [0; 16];
        self.keys = [false; 16];
        self.prev_keys = [false; 16];
        self.delay_t = 0;
        self.sound_t = 0;
        assert(self@ =~= old(self)@.reset());
        AudioCommand::StopBeep
    }

    /// Counts both timers down by one, each stopping at zero, and says what
    /// the tone is to do: play while the sound timer was not yet zero, stop
    /// once it is.
    pub fn tick_timers(&mut self) -> (tone: AudioCommand)
        requires
            old(self).wf(),
        ensures
            final(self).wf(),
            final(self)@ == old(self)@.tick_timers(),
            tone == old(self)@.tone(),
    {
        if self.delay_t > 0 {
            self.delay_t -= 1;
        }
        if self.sound_t > 0 {
            self.sound_t -= 1;
            AudioCommand::StartBeep
        } else {
            AudioCommand::StopBeep
        }
    }

    /// The framebuffer's cells in row-major order, its width, its height and
    /// its mode.
    pub fn get_display(&self) -> (display: (&[bool], usize, usize, DisplayMode))
        requires
            self.wf(),
        ensures
            display.0@ == self@.screen.cells,
            display.1 == self@.screen.mode.columns(),
            display.2 == self@.screen.mode.rows(),
            display.3 == self@.screen.mode,
            display.0@.len() == display.1 * display.2,
    {
        (self.screen.cells(), self.screen.width(), self.screen.height(), self.screen.mode())
    }

    /// Records that key `idx` is now `pressed`; what it was before becomes its
    /// history, by which a release is told.
    pub fn keypress(&mut self, idx: usize, pressed: bool)
        requires
            old(self).wf(),
            idx < 16,
        ensures
            final(self).wf(),
            final(self)@ == old(self)@.press(idx as int, pressed),
    {
        self.prev_keys[idx] = self.keys[idx];
        self.keys[idx] = pressed;
    }

    /// Copies the program `data` into memory from the load address on.
    pub fn load(&mut self, data: &[u8])
        requires
            old(self).wf(),
            data@.len() <= 4096 - 0x200,
        ensures
            final(self).wf(),
            final(self)@ == old(self)@.load(data@),
    {
        let ghost before = self@;
        let mut i: usize = 0;
        while i < data.len()
            invariant
                self.wf(),
                i <= data@.len() <= 4096 - 0x200,
                self@ == (MachineState { memory: self.ram@, ..before }),
                forall|a: int|
                    0 <= a < 4096 ==> self.ram@[a] == (if 0x200 <= a < 0x200 + i {
                        data@[a - 0x200]
                    } else {
                        before.memory[a]
                    }),
            decreases data@.len() - i,
        {
            self.ram[0x200 + i] = data[i];
            i += 1;
        }
        assert(self@.memory =~= before.load(data@).memory);
    }
    /// Writes `value` to register `x`.
    fn set_register(&mut self, x: usize, value: u8)
        requires
            old(self).wf(),
            x < 16,
        ensures
            final(self).wf(),
            final(self)@ == old(self)@.with_register(x as int, value as int),
    {
        self.v_reg[x] = value;
    }

    /// Writes `value` to register `x` and then the flag to `VF`.
    fn set_result(&mut self, x: usize, value: u8, flag: bool)
        requires
            old(self).wf(),
            x < 16,
        ensures
            final(self).wf(),
            final(self)@ == old(self)@.with_result(x as int, value as int, flag),
    {
        self.v_reg[x] = value;
        self.v_reg[0xF] = if flag {
            1
        } else {
            0
        };
    }

    /// Writes the result of a logic operation to register `x` and zeroes `VF`
    /// where the switch asks for it.
    fn set_logic(&mut self, x: usize, value: u8)
        requires
            old(self).wf(),
            x < 16,
        ensures
            final(self).wf(),
            final(self)@ == old(self)@.logic(x as int, value),
    {
        self.v_reg[x] = value;
        if self.quirks.vf_reset {
            self.v_reg[0xF] = 0;
        }
    }

    /// Skips the next instruction if `condition` holds.
    fn skip_if(&mut self, condition: bool)
        requires
            old(self).wf(),
            old(self)@.pc <= 4096,
        ensures
            final(self).wf(),
            final(self)@ == old(self)@.skip_if(condition),
    {
        if condition {
            self.pc += 2;
        }
    }

    /// Pushes `val` onto the call stack.
    fn push(&mut self, val: u16)
        requires
            old(self).wf(),
            old(self)@.stack.len() < 16,
        ensures
            final(self).wf(),
            final(self)@ == (MachineState { stack: old(self)@.stack.push(val), ..old(self)@ }),
    {
        self.stack[self.sp as usize] = val;
        self.sp += 1;
        assert(self@.stack =~= old(self)@.stack.push(val));
    }

    /// Pops the innermost return address off the call stack.
    fn pop(&mut self) -> (val: u16)
        requires
            old(self).wf(),
            old(self)@.stack.len() > 0,
        ensures
            final(self).wf(),
            val == old(self)@.stack.last(),
            final(self)@ == (MachineState { stack: old(self)@.stack.drop_last(), ..old(self)@ }),
    {
        self.sp -= 1;
        assert(self@.stack =~= old(self)@.stack.drop_last());
        self.stack[self.sp as usize]
    }

    /// Reads the instruction word at the program counter, most significant
    /// byte first, and moves the program counter past it.
    fn fetch(&mut self) -> (op: u16)
        requires
            old(self).wf(),
            old(self)@.pc < 4095,
        ensures
            final(self).wf(),
            op == old(self)@.opcode(),
            final(self)@ == old(self)@.with_pc(old(self)@.pc + 2),
    {
        let first_byte = self.ram[self.pc as usize];
        let second_byte = self.ram[(self.pc + 1) as usize];
        let op = Opcode::join(first_byte, second_byte);
        self.pc += 2;
        op
    }

    /// `8XY4`: adds `VY` to `VX`; `VF` becomes the carry.
    fn add_registers(&mut self, x: usize, y: usize)
        requires
            old(self).wf(),
            x < 16,
            y < 16,
        ensures
            final(self).wf(),
            final(self)@ == old(self)@.add(x as int, y as int),
    {
        let vx = self.v_reg[x];
        let vy = self.v_reg[y];
        let new_vx = vx.wrapping_add(vy);
        let carry = vy > 255 - vx;
        assert(new_vx == (vx + vy) % 256);
        self.set_result(x, new_vx, carry);
    }

    /// `8XY5`, `8XY7`: `VX` becomes `minuend - subtrahend`; `VF` becomes 1
    /// where nothing was borrowed.
    fn subtract(&mut self, x: usize, minuend: u8, subtrahend: u8)
        requires
            old(self).wf(),
            x < 16,
        ensures
            final(self).wf(),
            final(self)@ == old(self)@.subtract(x as int, minuend, subtrahend),
    {
        let new_vx = minuend.wrapping_sub(subtrahend);
        assert(new_vx == (minuend - subtrahend) % 256);
        self.set_result(x, new_vx, minuend >= subtrahend);
    }

    /// The operand of a shift, as the switch selects it.
    fn shift_operand(&self, x: usize, y: usize) -> (operand: u8)
        requires
            self.wf(),
            x < 16,
            y < 16,
        ensures
            operand == self@.shift_operand(x as int, y as int),
    {
        if self.quirks.shifting {
            self.v_reg[x]
        } else {
            self.v_reg[y]
        }
    }

    /// `8XY6`: shifts the operand right by one bit into `VX`; `VF` becomes
    /// the bit shifted out.
    fn shift_right(&mut self, x: usize, y: usize)
        requires
            old(self).wf(),
            x < 16,
            y < 16,
        ensures
            final(self).wf(),
            final(self)@ == old(self)@.shift_right(x as int, y as int),
    {
        let operand = self.shift_operand(x, y);
        let lsb = operand & 1;
        assert(operand >> 1 == operand / 2) by (bit_vector);
        assert((operand & 1 == 1) == (operand % 2 == 1)) by (bit_vector);
        self.set_result(x, operand >> 1, lsb == 1);
    }

    /// `8XYE`: shifts the operand left by one bit into `VX`; `VF` becomes
    /// the bit shifted out.
    fn shift_left(&mut self, x: usize, y: usize)
        requires
            old(self).wf(),
            x < 16,
            y < 16,
        ensures
            final(self).wf(),
            final(self)@ == old(self)@.shift_left(x as int, y as int),
    {
        let operand = self.shift_operand(x, y);
        let msb = (operand >> 7) & 1;
        assert(operand << 1 == (operand * 2) % 256) by (bit_vector);
        assert((((operand >> 7) & 1) == 1) == (operand >= 128)) by (bit_vector);
        self.set_result(x, operand << 1, msb == 1);
    }

    /// `7XNN`: adds `nn` to `VX`, writing no flag.
    fn add_immediate(&mut self, x: usize, nn: u8)
        requires
            old(self).wf(),
            x < 16,
        ensures
            final(self).wf(),
            final(self)@ == old(self)@.add_immediate(x as int, nn),
    {
        let vx = self.v_reg[x];
        let new_vx = vx.wrapping_add(nn);
        assert(new_vx == (vx + nn) % 256);
        self.set_register(x, new_vx);
    }

    /// `1NNN`: continues at `target`.
    fn jump(&mut self, target: u16)
        requires
            old(self).wf(),
        ensures
            final(self).wf(),
            final(self)@ == old(self)@.with_pc(target as int),
    {
        self.pc = target;
    }

    /// `2NNN`: pushes the address after the call and continues at `target`.
    fn call(&mut self, target: u16)
        requires
            old(self).wf(),
            old(self)@.stack.len() < 16,
        ensures
            final(self).wf(),
            final(self)@ == old(self)@.call(target as int),
    {
        self.push(self.pc);
        self.pc = target;
    }

    /// `00EE`: continues at the innermost return address.
    fn ret(&mut self)
        requires
            old(self).wf(),
            old(self)@.stack.len() > 0,
        ensures
            final(self).wf(),
            final(self)@ == old(self)@.ret(),
    {
        self.pc = self.pop();
    }

    /// `BNNN`: continues at `nnn` plus the jump register.
    fn jump_offset(&mut self, x: usize, nnn: u16)
        requires
            old(self).wf(),
            x < 16,
            nnn < 4096,
        ensures
            final(self).wf(),
            final(self)@ == old(self)@.jump_offset(x as int, nnn),
    {
        if self.quirks.jumping {
            self.pc = (self.v_reg[x] as u16) + nnn;
        } else {
            self.pc = (self.v_reg[0] as u16) + nnn;
        }
    }

    /// `ANNN` and the glyph instructions: sets the index register.
    fn set_index(&mut self, index: u16)
        requires
            old(self).wf(),
        ensures
            final(self).wf(),
            final(self)@ == old(self)@.with_index(index as int),
    {
        self.i_reg = index;
    }

    /// `FX1E`: adds `VX` to the index register, wrapping around.
    fn add_index(&mut self, x: usize)
        requires
            old(self).wf(),
            x < 16,
        ensures
            final(self).wf(),
            final(self)@ == old(self)@.add_index(x as int),
    {
        let vx = self.v_reg[x] as u16;
        let index = self.i_reg.wrapping_add(vx);
        assert(index == (self.i_reg + vx) % 65536);
        self.i_reg = index;
    }

    /// `FX15`: sets the delay timer.
    fn set_delay(&mut self, value: u8)
        requires
            old(self).wf(),
        ensures
            final(self).wf(),
            final(self)@ == (MachineState { delay_timer: value, ..old(self)@ }),
    {
        self.delay_t = value;
    }

    /// `FX18`: sets the sound timer.
    fn set_sound(&mut self, value: u8)
        requires
            old(self).wf(),
        ensures
            final(self).wf(),
            final(self)@ == (MachineState { sound_timer: value, ..old(self)@ }),
    {
        self.sound_t = value;
    }

    /// `00E0`: unsets every cell of the framebuffer.
    fn clear_screen(&mut self)
        requires
            old(self).wf(),
        ensures
            final(self).wf(),
            final(self)@ == old(self)@.clear_screen(),
    {
        self.screen.clear();
    }

    /// `00FE`, `00FF`: switches the resolution, which blanks the framebuffer.
    fn set_resolution(&mut self, mode: DisplayMode)
        requires
            old(self).wf(),
        ensures
            final(self).wf(),
            final(self)@ == old(self)@.set_resolution(mode),
    {
        self.screen.set_mode(mode);
    }

    /// `DXYN`: draws the sprite at the index register at (`VX`, `VY`).
    fn draw_sprite(&mut self, x: usize, y: usize, n: u8) -> (result: Result<StepEvent, Reason>)
        requires
            old(self).wf(),
            x < 16,
            y < 16,
            n < 16,
        ensures
            final(self).wf(),
            carried_out(
                old(self)@,
                crate::state::guarded(
                    old(self)@.sprite_in_memory(y as int, n as int),
                    Reason::MemoryAccess,
                    old(self)@.draw(x as int, y as int, n as int),
                ),
                final(self)@,
                result,
            ),
    {
        let ghost before = self@;
        let width = self.screen.width();
        let height = self.screen.height();
        // The origin wraps onto the screen; the sprite itself is clipped.
        let x_coord = (self.v_reg[x] as usize) % width;
        let y_coord = (self.v_reg[y] as usize) % height;
        let wide = self.screen.mode() == DisplayMode::HiRes && n == 0;
        let num_rows: usize = if wide {
            16
        } else {
            n as usize
        };
        let stride: usize = if wide {
            2
        } else {
            1
        };
        let room = height - y_coord;
        let visible = if num_rows < room {
            num_rows
        } else {
            room
        };
        let base = self.i_reg as usize;
        assert(visible == before.sprite_height(y as int, n as int));
        if visible > 0 && base + visible * stride > 4096 {
            return Err(Reason::MemoryAccess);
        }
        let mut rows: Vec<u16> = Vec::new();
        let mut r: usize = 0;
        while r < visible
            invariant
                self@ == before,
                self.wf(),
                base == before.index,
                r <= visible <= 16,
                visible > 0 ==> base + visible * stride <= 4096,
                wide == before.sprite_wide(n as int),
                stride == before.sprite_stride(n as int),
                rows@.len() == r,
                forall|k: int| 0 <= k < r ==> rows@[k] == before.sprite_row(n as int, k),
            decreases visible - r,
        {
            let word = if wide {
                Opcode::join(self.ram[base + 2 * r], self.ram[base + 2 * r + 1])
            } else {
                self.ram[base + r] as u16
            };
            rows.push(word);
            r += 1;
        }
        assert(rows@ =~= before.sprite(x as int, y as int, n as int).rows);
        let flipped = self.screen.draw(x_coord, y_coord, rows.as_slice(), wide);
        self.v_reg[0xF] = if flipped {
            1
        } else {
            0
        };
        Ok(StepEvent::Continue)
    }

    /// `FX0A`: takes the lowest released key into register `x`, or steps
    /// back onto the instruction where no key was released.
    fn wait_key(&mut self, x: usize)
        requires
            old(self).wf(),
            x < 16,
            old(self)@.pc >= 2,
        ensures
            final(self).wf(),
            final(self)@ == old(self)@.wait_key(x as int),
    {
        let ghost before = self@;
        let mut i: usize = 0;
        while i < 16
            invariant
                self@ == before,
                before == old(self)@,
                self.wf(),
                x < 16,
                i <= 16,
                forall|j: int| 0 <= j < i ==> !before.released(j),
            decreases 16 - i,
        {
            if !self.keys[i] && self.prev_keys[i] {
                proof {
                    assert(before.released(i as int));
                    assert(before.first_released(i as int));
                    let k = choose|k: int| before.first_released(k);
                    assert(before.first_released(k));
                    assert(k == i);
                }
                self.v_reg[x] = i as u8;
                assert(self@ =~= before.with_register(x as int, i as int));
                return ;
            }
            i += 1;
        }
        // No key was released: run this instruction again.
        self.pc -= 2;
    }

    /// `FX33`: writes the decimal digits of register `x` to memory.
    fn store_bcd(&mut self, x: usize)
        requires
            old(self).wf(),
            x < 16,
            old(self)@.index + 2 < 4096,
        ensures
            final(self).wf(),
            final(self)@ == old(self)@.store_bcd(x as int),
    {
        let vx = self.v_reg[x];
        let hundreds = vx / 100;
        let tens = (vx / 10) % 10;
        let ones = vx % 10;
        let base = self.i_reg as usize;
        self.ram[base] = hundreds;
        self.ram[base + 1] = tens;
        self.ram[base + 2] = ones;
    }

    /// Moves the index register past a bulk transfer of `V0` to `VX` where
    /// the switch asks for it.
    fn advance_index(&mut self, x: usize)
        requires
            old(self).wf(),
            x < 16,
            old(self)@.index + x < 4096,
        ensures
            final(self).wf(),
            final(self)@ == (MachineState {
                index: old(self)@.index_after_transfer(x as int),
                ..old(self)@
            }),
    {
        if self.quirks.memory {
            self.i_reg = self.i_reg + (x as u16) + 1;
        }
    }

    /// `FX55`: copies `V0` to `VX` to memory at the index register.
    fn store_registers(&mut self, x: usize)
        requires
            old(self).wf(),
            x < 16,
            old(self)@.index + x < 4096,
        ensures
            final(self).wf(),
            final(self)@ == old(self)@.store_registers(x as int),
    {
        let ghost before = self@;
        let base = self.i_reg as usize;
        let mut idx: usize = 0;
        while idx <= x
            invariant
                self.wf(),
                x < 16,
                base == before.index,
                base + x < 4096,
                idx <= x + 1,
                self@ == (MachineState { memory: self.ram@, ..before }),
                forall|a: int|
                    0 <= a < 4096 ==> self.ram@[a] == (if base <= a < base + idx {
                        before.registers[a - base]
                    } else {
                        before.memory[a]
                    }),
            decreases x + 1 - idx,
        {
            self.ram[base + idx] = self.v_reg[idx];
            idx += 1;
        }
        assert(self@.memory =~= before.store_registers(x as int).memory);
        self.advance_index(x);
    }

    /// `FX65`: fills `V0` to `VX` from memory at the index register.
    fn load_registers(&mut self, x: usize)
        requires
            old(self).wf(),
            x < 16,
            old(self)@.index + x < 4096,
        ensures
            final(self).wf(),
            final(self)@ == old(self)@.load_registers(x as int),
    {
        let ghost before = self@;
        let base = self.i_reg as usize;
        let mut idx: usize = 0;
        while idx <= x
            invariant
                self.wf(),
                x < 16,
                base == before.index,
                base + x < 4096,
                idx <= x + 1,
                self@ == (MachineState { registers: self.v_reg@, ..before }),
                forall|r: int|
                    0 <= r < 16 ==> self.v_reg@[r] == (if r < idx {
                        before.memory[base + r]
                    } else {
                        before.registers[r]
                    }),
            decreases x + 1 - idx,
        {
            self.v_reg[idx] = self.ram[base + idx];
            idx += 1;
        }
        assert(self@.registers =~= before.load_registers(x as int).registers);
        self.advance_index(x);
    }

    /// Carries out an instruction of family 0.
    fn execute_system(&mut self, f: Opcode) -> (result: Result<StepEvent, Reason>)
        requires
            old(self).wf(),
            f.wf(),
        ensures
            final(self).wf(),
            carried_out(old(self)@, run_system(old(self)@, f), final(self)@, result),
    {
        match (f.x, f.y, f.n) {
            // 0000 - no operation
            (0x0, 0x0, 0x0) => Ok(StepEvent::Continue),
            // 00CN - reserved
            (0x0, 0xC, _) => Ok(StepEvent::Reserved { opcode: f.raw }),
            // 00E0 - clear the screen
            (0x0, 0xE, 0x0) => {
                self.clear_screen();
                Ok(StepEvent::Continue)
            },
            // 00EE - return from a subroutine
            (0x0, 0xE, 0xE) => {
                if self.sp == 0 {
                    return Err(Reason::StackUnderflow);
                }
                self.ret();
                Ok(StepEvent::Continue)
            },
            // 00FB, 00FC - reserved
            (0x0, 0xF, 0xB) => Ok(StepEvent::Reserved { opcode: f.raw }),
            (0x0, 0xF, 0xC) => Ok(StepEvent::Reserved { opcode: f.raw }),
            // 00FD - exit the interpreter
            (0x0, 0xF, 0xD) => Ok(StepEvent::Exit),
            // 00FE - leave high resolution
            (0x0, 0xF, 0xE) => {
                if self.variant == Chip8Variant::SuperChip {
                    self.set_resolution(DisplayMode::LoRes);
                    Ok(StepEvent::Continue)
                } else {
                    Err(Reason::InvalidOpcode)
                }
            },
            // 00FF - enter high resolution
            (0x0, 0xF, 0xF) => {
                if self.variant == Chip8Variant::SuperChip {
                    self.set_resolution(DisplayMode::HiRes);
                    Ok(StepEvent::Continue)
                } else {
                    Err(Reason::InvalidOpcode)
                }
            },
            _ => Err(Reason::InvalidOpcode),
        }
    }

    /// Carries out an instruction of family 8.
    fn execute_arithmetic(&mut self, f: Opcode) -> (result: Result<StepEvent, Reason>)
        requires
            old(self).wf(),
            f.wf(),
        ensures
            final(self).wf(),
            carried_out(old(self)@, run_arithmetic(old(self)@, f), final(self)@, result),
    {
        let x = f.x as usize;
        let y = f.y as usize;
        let vx = self.v_reg[x];
        let vy = self.v_reg[y];
        match f.n {
            // 8XY0 - VX = VY
            0x0 => self.set_register(x, vy),
            // 8XY1 - VX |= VY
            0x1 => self.set_logic(x, vx | vy),
            // 8XY2 - VX &= VY
            0x2 => self.set_logic(x, vx & vy),
            // 8XY3 - VX ^= VY
            0x3 => self.set_logic(x, vx ^ vy),
            // 8XY4 - VX += VY
            0x4 => self.add_registers(x, y),
            // 8XY5 - VX -= VY
            0x5 => self.subtract(x, vx, vy),
            // 8XY6 - VX >>= 1
            0x6 => self.shift_right(x, y),
            // 8XY7 - VX = VY - VX
            0x7 => self.subtract(x, vy, vx),
            // 8XYE - VX <<= 1
            0xE => self.shift_left(x, y),
            _ => {
                return Err(Reason::InvalidOpcode);
            },
        }
        Ok(StepEvent::Continue)
    }

    /// Carries out an instruction of family E.
    fn execute_key(&mut self, f: Opcode) -> (result: Result<StepEvent, Reason>)
        requires
            old(self).wf(),
            f.wf(),
            old(self)@.pc <= 4096,
        ensures
            final(self).wf(),
            carried_out(old(self)@, run_key(old(self)@, f), final(self)@, result),
    {
        let key = self.v_reg[f.x as usize] as usize;
        match f.nn {
            // EX9E - skip if the key is held
            0x9E => {
                if key >= 16 {
                    return Err(Reason::KeyIndex);
                }
                self.skip_if(self.keys[key]);
            },
            // EXA1 - skip if the key is not held
            0xA1 => {
                if key >= 16 {
                    return Err(Reason::KeyIndex);
                }
                self.skip_if(!self.keys[key]);
            },
            _ => {
                return Err(Reason::InvalidOpcode);
            },
        }
        Ok(StepEvent::Continue)
    }

    /// Carries out an instruction of family F.
    fn execute_misc(&mut self, f: Opcode) -> (result: Result<StepEvent, Reason>)
        requires
            old(self).wf(),
            f.wf(),
            old(self)@.pc >= 2,
        ensures
            final(self).wf(),
            carried_out(old(self)@, run_misc(old(self)@, f), final(self)@, result),
    {
        let x = f.x as usize;
        let vx = self.v_reg[x];
        match f.nn {
            // FX07 - VX = delay timer
            0x07 => self.set_register(x, self.delay_t),
            // FX0A - wait for a key to be released
            0x0A => self.wait_key(x),
            // FX15 - delay timer = VX
            0x15 => self.set_delay(vx),
            // FX18 - sound timer = VX
            0x18 => self.set_sound(vx),
            // FX1E - I += VX
            0x1E => self.add_index(x),
            // FX29 - I = glyph of the digit VX
            0x29 => self.set_index((vx as u16) * 5),
            // FX30 - I = high-resolution glyph of the digit VX
            0x30 => {
                if self.variant == Chip8Variant::SuperChip {
                    self.set_index(0x100 + (vx as u16) * 10);
                } else {
                    return Err(Reason::InvalidOpcode);
                }
            },
            // FX33 - decimal digits of VX at I
            0x33 => {
                if self.i_reg as usize + 2 >= 4096 {
                    return Err(Reason::MemoryAccess);
                }
                self.store_bcd(x);
            },
            // FX55 - store V0 to VX at I
            0x55 => {
                if self.i_reg as usize + x >= 4096 {
                    return Err(Reason::MemoryAccess);
                }
                self.store_registers(x);
            },
            // FX65 - load V0 to VX from I
            0x65 => {
                if self.i_reg as usize + x >= 4096 {
                    return Err(Reason::MemoryAccess);
                }
                self.load_registers(x);
            },
            // FX75, FX85 - reserved
            0x75 => {
                return Ok(StepEvent::Reserved { opcode: f.raw });
            },
            0x85 => {
                return Ok(StepEvent::Reserved { opcode: f.raw });
            },
            _ => {
                return Err(Reason::InvalidOpcode);
            },
        }
        Ok(StepEvent::Continue)
    }

    /// Carries out the instruction word `op`, fetched just before; `random`
    /// is the byte that a random draw gives.
    fn execute(&mut self, op: u16, random: u8) -> (result: Result<StepEvent, Reason>)
        requires
            old(self).wf(),
            2 <= old(self)@.pc <= 4096,
        ensures
            final(self).wf(),
            carried_out(old(self)@, run(old(self)@, op, random), final(self)@, result),
    {
        let f = Opcode::decode(op);
        let x = f.x as usize;
        let y = f.y as usize;
        let nn = f.nn;
        let nnn = f.nnn;
        match f.family {
            0x0 => {
                return self.execute_system(f);
            },
            // 1NNN - jump
            0x1 => self.jump(nnn),
            // 2NNN - call a subroutine
            0x2 => {
                if self.sp >= 16 {
                    return Err(Reason::StackOverflow);
                }
                self.call(nnn);
            },
            // 3XNN - skip if VX == NN
            0x3 => self.skip_if(self.v_reg[x] == nn),
            // 4XNN - skip if VX != NN
            0x4 => self.skip_if(self.v_reg[x] != nn),
            // 5XY0 - skip if VX == VY
            0x5 => {
                if f.n != 0 {
                    return Err(Reason::InvalidOpcode);
                }
                self.skip_if(self.v_reg[x] == self.v_reg[y]);
            },
            // 6XNN - VX = NN
            0x6 => self.set_register(x, nn),
            // 7XNN - VX += NN
            0x7 => self.add_immediate(x, nn),
            0x8 => {
                return self.execute_arithmetic(f);
            },
            // 9XY0 - skip if VX != VY
            0x9 => {
                if f.n != 0 {
                    return Err(Reason::InvalidOpcode);
                }
                self.skip_if(self.v_reg[x] != self.v_reg[y]);
            },
            // ANNN - I = NNN
            0xA => self.set_index(nnn),
            // BNNN - jump to NNN plus a register
            0xB => self.jump_offset(x, nnn),
            // CXNN - VX = random & NN
            0xC => self.set_register(x, random & nn),
            // DXYN - draw a sprite
            0xD => {
                return self.draw_sprite(x, y, f.n);
            },
            0xE => {
                return self.execute_key(f);
            },
            _ => {
                return self.execute_misc(f);
            },
        }
        Ok(StepEvent::Continue)
    }

    /// Whether the next step draws a random byte.
    fn next_draws_random(&self) -> (draws: bool)
        requires
            self.wf(),
        ensures
            draws == self@.draws_random(),
    {
        if self.pc >= 4095 {
            return false;
        }
        let high = self.ram[self.pc as usize];
        let low = self.ram[(self.pc + 1) as usize];
        Opcode::decode(Opcode::join(high, low)).family == 0xC
    }

    /// Carries out one step with `random` as the byte that a random draw
    /// gives: fetches the instruction at the program counter and carries it
    /// out. A fault leaves the machine as it was.
    pub fn tick_with(&mut self, random: u8) -> (outcome: Result<StepEvent, Fault>)
        requires
            old(self).wf(),
        ensures
            final(self).wf(),
            final(self)@ == step(old(self)@, random).state,
            outcome == step(old(self)@, random).outcome,
    {
        let pc = self.pc;
        if pc >= 4095 {
            return Err(Fault::Fetch { pc });
        }
        let op = self.fetch();
        match self.execute(op, random) {
            Ok(event) => Ok(event),
            Err(reason) => {
                self.pc = pc;
                Err(Fault::Execute { reason, opcode: op, pc })
            },
        }
    }

    /// Carries out one step: fetches the instruction at the program counter
    /// and carries it out, drawing a random byte where the instruction asks
    /// for one. A fault leaves the machine as it was.
    pub fn tick(&mut self) -> (outcome: Result<StepEvent, Fault>)
        requires
            old(self).wf(),
        ensures
            final(self).wf(),
            exists|random: u8|
                final(self)@ == (#[trigger] step(old(self)@, random)).state && outcome == step(
                    old(self)@,
                    random,
                ).outcome,
            !old(self)@.draws_random() ==> final(self)@ == step(old(self)@, 0).state && outcome
                == step(old(self)@, 0).outcome,
    {
        let random = if self.next_draws_random() {
            random_byte()
        } else {
            0
        };
        self.tick_with(random)
    }
    /// The address of the next instruction.
    pub fn pc(&self) -> (pc: u16)
        ensures
            pc == self@.pc,
    {
        self.pc
    }

    /// The index register.
    pub fn index_register(&self) -> (index: u16)
        ensures
            index == self@.index,
    {
        self.i_reg
    }

    /// The value of register `x`.
    pub fn register(&self, x: usize) -> (value: u8)
        requires
            x < 16,
        ensures
            value == self@.registers[x as int],
    {
        self.v_reg[x]
    }

    /// The byte of memory at `addr`.
    pub fn memory(&self, addr: usize) -> (byte: u8)
        requires
            addr < 4096,
        ensures
            byte == self@.memory[addr as int],
    {
        self.ram[addr]
    }

    /// The number of subroutines being run.
    pub fn stack_depth(&self) -> (depth: usize)
        requires
            self.wf(),
        ensures
            depth == self@.stack.len(),
    {
        self.sp as usize
    }

    /// The delay timer.
    pub fn delay_timer(&self) -> (value: u8)
        ensures
            value == self@.delay_timer,
    {
        self.delay_t
    }

    /// The sound timer.
    pub fn sound_timer(&self) -> (value: u8)
        ensures
            value == self@.sound_timer,
    {
        self.sound_t
    }

    /// The instruction set that the machine interprets.
    pub fn variant(&self) -> (variant: Chip8Variant)
        ensures
            variant == self@.variant,
    {
        self.variant
    }

    /// The behavioural switches of the machine.
    pub fn quirks(&self) -> (quirks: Quirks)
        ensures
            quirks == self@.quirks,
    {
        self.quirks
    }
}

} // verus!

use rand::Rng;
use vstd::prelude::*;

use crate::display::{
    drawn, flips, lemma_pixel_index, DISPLAY_HEIGHT, DISPLAY_SIZE, DISPLAY_WIDTH, SPRITE_WIDTH,
};
use crate::error::Chip8Error;
use crate::machine::{
    addr, boot_memory, family, font, initial, program_bytes, regs_loaded, regs_stored,
    rom_loaded, run_instruction, sprite_at, step, timers_decayed, valid, word_at, Machine,
    TickOutcome, FONT_SIZE, MEMORY_SIZE, PROGRAM_START, REGISTER_COUNT,
};
use crate::opcode::{decode, Opcode};
use crate::stack::Stack;

verus! {

/// The machine: memory, registers, call stack, timers and display.
pub struct Chip8 {
    /// Address of the next instruction.
    pub pc: usize,
    /// The instruction most recently fetched.
    pub opcode: Opcode,
    pub memory: [u8; MEMORY_SIZE],
    /// Pixels, row by row; `true` is set.
    pub display: [bool; DISPLAY_SIZE],
    pub stack: Stack,
    /// V0 to VF.
    pub reg: [u8; REGISTER_COUNT],
    /// The index register I.
    pub reg_i: u16,
    pub delay_timer: u8,
    pub sound_timer: u8,
    /// The key held down during the last tick, if any.
    pub keypress: Option<u8>,
    /// Set whenever a pixel may have changed; the frontend clears it once it
    /// has shown the frame.
    pub redraw: bool,
    /// Set by a tick that stopped at a key wait with no key pressed.
    pub awaiting_key: bool,
}

impl View for Chip8 {
    type V = Machine;

    open spec fn view(&self) -> Machine {
        Machine {
            pc: self.pc as int,
            opcode: self.opcode.code,
            memory: self.memory@,
            display: self.display@,
            stack: self.stack@,
            reg: self.reg@,
            reg_i: self.reg_i,
            delay_timer: self.delay_timer,
            sound_timer: self.sound_timer,
            keypress: self.keypress,
            redraw: self.redraw,
            awaiting_key: self.awaiting_key,
        }
    }
}

/// The glyph font as an array.
fn font_table() -> (r: [u8; FONT_SIZE])
    ensures
        r@ == font(),
{
    let r: [u8; FONT_SIZE] = [
        0xF0, 0x90, 0x90, 0x90, 0xF0, 0x20, 0x60, 0x20, 0x20, 0x70,
        0xF0, 0x10, 0xF0, 0x80, 0xF0, 0xF0, 0x10, 0xF0, 0x10, 0xF0,
        0x90, 0x90, 0xF0, 0x10, 0x10, 0xF0, 0x80, 0xF0, 0x10, 0xF0,
        0xF0, 0x80, 0xF0, 0x90, 0xF0, 0xF0, 0x10, 0x20, 0x40, 0x40,
        0xF0, 0x90, 0xF0, 0x90, 0xF0, 0xF0, 0x90, 0xF0, 0x10, 0xF0,
        0xF0, 0x90, 0xF0, 0x90, 0x90, 0xE0, 0x90, 0xE0, 0x90, 0xE0,
        0xF0, 0x80, 0x80, 0x80, 0xF0, 0xE0, 0x90, 0x90, 0x90, 0xE0,
        0xF0, 0x80, 0xF0, 0x80, 0xF0, 0xF0, 0x80, 0xF0, 0x80, 0x80,
    ];
    assert(r@ =~= font());
    r
}

/// Zeroed memory with the font at the bottom.
fn boot_memory_array() -> (r: [u8; MEMORY_SIZE])
    ensures
        r@ == boot_memory(),
{
    let glyphs = font_table();
    let mut memory = [0u8; MEMORY_SIZE];
    let mut i: usize = 0;
    while i < FONT_SIZE
        invariant
            i <= FONT_SIZE,
            glyphs@ == font(),
            forall|a: int| 0 <= a < i ==> memory@[a] == font()[a],
            forall|a: int| i <= a < MEMORY_SIZE ==> memory@[a] == 0,
        decreases FONT_SIZE - i,
    {
        memory[i] = glyphs[i];
        i = i + 1;
    }
    assert(memory@ =~= boot_memory());
    memory
}

/// Relies on rand's `thread_rng` and `Rng::gen_range` over the non-empty
/// range `0..=255`: a byte from the thread's generator, of which nothing is known.
#[verifier::external_body]
fn random_byte() -> (r: u8) {
    rand::thread_rng().gen_range(0..=255)
}

/// The instruction in `m` takes it to `m2` and reports `outcome`, whatever
/// the random byte.
spec fn runs_to(m: Machine, m2: Machine, outcome: Result<TickOutcome, Chip8Error>) -> bool {
    forall|b: u8| #[trigger] run_instruction(m, b) == (m2, outcome)
}

/// Pixel `p` lies in a sprite row above `row`, or in row `row` left of `col`.
spec fn visited(p: int, x: int, y: int, row: int, col: int) -> bool {
    let r = p / DISPLAY_WIDTH as int;
    let c = p % DISPLAY_WIDTH as int;
    r < y + row || (r == y + row && c < x + col)
}

/// `(a - i) mod 4096 == j` picks out the one address `i + j` within memory.
proof fn lemma_offset(i: int, j: int, a: int)
    requires
        0 <= j < MEMORY_SIZE,
        0 <= a < MEMORY_SIZE,
    ensures
        (a == addr(i + j)) <==> ((a - i) % (MEMORY_SIZE as int) == j),
{
}

impl Chip8 {
    /// Moves `pc` past the next instruction where `cond` holds.
    fn skip_if(&mut self, cond: bool)
        requires
            old(self).wf(),
        ensures
            final(self).wf(),
            final(self)@ == crate::machine::skip_if(old(self)@, cond),
    {
        if cond {
            self.pc = (self.pc + 2) % MEMORY_SIZE;
        }
    }

    /// 00E0: clears the display.
    fn op_00e0(&mut self)
        requires
            old(self).wf(),
            old(self).opcode.code == 0x00E0,
        ensures
            final(self).wf(),
            runs_to(old(self)@, final(self)@, Ok(TickOutcome::Executed)),
    {
        self.display = [false; DISPLAY_SIZE];
        self.redraw = true;
        assert(self.display@ =~= Seq::new(DISPLAY_SIZE as nat, |p: int| false));
    }

    /// 00EE: returns from a subroutine.
    fn op_00ee(&mut self) -> (r: Result<TickOutcome, Chip8Error>)
        requires
            old(self).wf(),
            old(self).opcode.code == 0x00EE,
        ensures
            final(self).wf(),
            runs_to(old(self)@, final(self)@, r),
    {
        match self.stack.pop() {
            Ok(a) => {
                self.pc = (a as usize) % MEMORY_SIZE;
                Ok(TickOutcome::Executed)
            },
            Err(e) => Err(e),
        }
    }

    /// 1NNN: jumps to NNN.
    fn op_1nnn(&mut self)
        requires
            old(self).wf(),
            family(old(self).opcode.code) == 0x1,
        ensures
            final(self).wf(),
            runs_to(old(self)@, final(self)@, Ok(TickOutcome::Executed)),
    {
        self.pc = self.opcode.nnn as usize;
    }

    /// 2NNN: calls the subroutine at NNN, pushing the return address.
    fn op_2nnn(&mut self) -> (r: Result<TickOutcome, Chip8Error>)
        requires
            old(self).wf(),
            family(old(self).opcode.code) == 0x2,
        ensures
            final(self).wf(),
            runs_to(old(self)@, final(self)@, r),
    {
        match self.stack.push(self.pc as u16) {
            Ok(()) => {
                self.pc = self.opcode.nnn as usize;
                Ok(TickOutcome::Executed)
            },
            Err(e) => Err(e),
        }
    }

    /// 3XNN: skips the next instruction if VX equals NN.
    fn op_3xnn(&mut self)
        requires
            old(self).wf(),
            family(old(self).opcode.code) == 0x3,
        ensures
            final(self).wf(),
            runs_to(old(self)@, final(self)@, Ok(TickOutcome::Executed)),
    {
        let c = self.reg[self.opcode.x] == self.opcode.nn;
        self.skip_if(c);
    }

    /// 4XNN: skips the next instruction if VX differs from NN.
    fn op_4xnn(&mut self)
        requires
            old(self).wf(),
            family(old(self).opcode.code) == 0x4,
        ensures
            final(self).wf(),
            runs_to(old(self)@, final(self)@, Ok(TickOutcome::Executed)),
    {
        let c = self.reg[self.opcode.x] != self.opcode.nn;
        self.skip_if(c);
    }

    /// 5XY0: skips the next instruction if VX equals VY.
    fn op_5xy0(&mut self)
        requires
            old(self).wf(),
            family(old(self).opcode.code) == 0x5,
        ensures
            final(self).wf(),
            runs_to(old(self)@, final(self)@, Ok(TickOutcome::Executed)),
    {
        let c = self.reg[self.opcode.x] == self.reg[self.opcode.y];
        self.skip_if(c);
    }

    /// 6XNN: sets VX to NN.
    fn op_6xnn(&mut self)
        requires
            old(self).wf(),
            family(old(self).opcode.code) == 0x6,
        ensures
            final(self).wf(),
            runs_to(old(self)@, final(self)@, Ok(TickOutcome::Executed)),
    {
        self.reg[self.opcode.x] = self.opcode.nn;
    }

    /// 7XNN: adds NN to VX, wrapping, with no effect on the flag.
    fn op_7xnn(&mut self)
        requires
            old(self).wf(),
            family(old(self).opcode.code) == 0x7,
        ensures
            final(self).wf(),
            runs_to(old(self)@, final(self)@, Ok(TickOutcome::Executed)),
    {
        let x = self.opcode.x;
        self.reg[x] = self.reg[x].wrapping_add(self.opcode.nn);
    }

    /// 8XY0: sets VX to VY.
    fn op_8xy0(&mut self)
        requires
            old(self).wf(),
            family(old(self).opcode.code) == 0x8,
            old(self).opcode.n == 0x0,
        ensures
            final(self).wf(),
            runs_to(old(self)@, final(self)@, Ok(TickOutcome::Executed)),
    {
        self.reg[self.opcode.x] = self.reg[self.opcode.y];
    }

    /// 8XY1: sets VX to VX or VY.
    fn op_8xy1(&mut self)
        requires
            old(self).wf(),
            family(old(self).opcode.code) == 0x8,
            old(self).opcode.n == 0x1,
        ensures
            final(self).wf(),
            runs_to(old(self)@, final(self)@, Ok(TickOutcome::Executed)),
    {
        let x = self.opcode.x;
        let vx = self.reg[x];
        let vy = self.reg[self.opcode.y];
        self.reg[x] = vx | vy;
    }

    /// 8XY2: sets VX to VX and VY.
    fn op_8xy2(&mut self)
        requires
            old(self).wf(),
            family(old(self).opcode.code) == 0x8,
            old(self).opcode.n == 0x2,
        ensures
            final(self).wf(),
            runs_to(old(self)@, final(self)@, Ok(TickOutcome::Executed)),
    {
        let x = self.opcode.x;
        let vx = self.reg[x];
        let vy = self.reg[self.opcode.y];
        self.reg[x] = vx & vy;
    }

    /// 8XY3: sets VX to VX xor VY.
    fn op_8xy3(&mut self)
        requires
            old(self).wf(),
            family(old(self).opcode.code) == 0x8,
            old(self).opcode.n == 0x3,
        ensures
            final(self).wf(),
            runs_to(old(self)@, final(self)@, Ok(TickOutcome::Executed)),
    {
        let x = self.opcode.x;
        let vx = self.reg[x];
        let vy = self.reg[self.opcode.y];
        self.reg[x] = vx ^ vy;
    }

    /// 8XY4: adds VY to VX, wrapping; VF is 1 on a carry, else 0.
    fn op_8xy4(&mut self)
        requires
            old(self).wf(),
            family(old(self).opcode.code) == 0x8,
            old(self).opcode.n == 0x4,
        ensures
            final(self).wf(),
            runs_to(old(self)@, final(self)@, Ok(TickOutcome::Executed)),
    {
        let x = self.opcode.x;
        let vx = self.reg[x];
        let vy = self.reg[self.opcode.y];
        let sum = vx.wrapping_add(vy);
        assert(sum == ((vx + vy) % 0x100) as u8);
        self.reg[x] = sum;
        self.reg[0xF] = if vx > 0xFF - vy { 1 } else { 0 };
    }

    /// 8XY5: subtracts VY from VX, wrapping; VF is 1 where no borrow occurs, else 0.
    fn op_8xy5(&mut self)
        requires
            old(self).wf(),
            family(old(self).opcode.code) == 0x8,
            old(self).opcode.n == 0x5,
        ensures
            final(self).wf(),
            runs_to(old(self)@, final(self)@, Ok(TickOutcome::Executed)),
    {
        let x = self.opcode.x;
        let vx = self.reg[x];
        let vy = self.reg[self.opcode.y];
        let diff = vx.wrapping_sub(vy);
        assert(diff == ((vx - vy + 0x100) % 0x100) as u8);
        self.reg[x] = diff;
        self.reg[0xF] = if vx >= vy { 1 } else { 0 };
    }

    /// 8XY6: shifts VX right by one; VF gets the bit shifted out.
    fn op_8xy6(&mut self)
        requires
            old(self).wf(),
            family(old(self).opcode.code) == 0x8,
            old(self).opcode.n == 0x6,
        ensures
            final(self).wf(),
            runs_to(old(self)@, final(self)@, Ok(TickOutcome::Executed)),
    {
        let x = self.opcode.x;
        let vx = self.reg[x];
        let shifted = vx >> 1;
        let out = vx & 1;
        assert(shifted == vx / 2 && out == vx % 2) by (bit_vector)
            requires
                shifted == vx >> 1,
                out == vx & 1,
        ;
        self.reg[x] = shifted;
        self.reg[0xF] = out;
    }

    /// 8XY7: sets VX to VY minus VX, wrapping; VF is 1 where no borrow occurs, else 0.
    fn op_8xy7(&mut self)
        requires
            old(self).wf(),
            family(old(self).opcode.code) == 0x8,
            old(self).opcode.n == 0x7,
        ensures
            final(self).wf(),
            runs_to(old(self)@, final(self)@, Ok(TickOutcome::Executed)),
    {
        let x = self.opcode.x;
        let vx = self.reg[x];
        let vy = self.reg[self.opcode.y];
        let diff = vy.wrapping_sub(vx);
        assert(diff == ((vy - vx + 0x100) % 0x100) as u8);
        self.reg[x] = diff;
        self.reg[0xF] = if vy >= vx { 1 } else { 0 };
    }

    /// 8XYE: shifts VX left by one, wrapping; VF gets the bit shifted out.
    fn op_8xye(&mut self)
        requires
            old(self).wf(),
            family(old(self).opcode.code) == 0x8,
            old(self).opcode.n == 0xE,
        ensures
            final(self).wf(),
            runs_to(old(self)@, final(self)@, Ok(TickOutcome::Executed)),
    {
        let x = self.opcode.x;
        let vx = self.reg[x];
        let shifted = vx << 1;
        let out = (vx >> 7) & 1;
        assert(shifted == (vx * 2) % 0x100 && out == vx / 0x80) by (bit_vector)
            requires
                shifted == vx << 1,
                out == (vx >> 7) & 1,
        ;
        self.reg[x] = shifted;
        self.reg[0xF] = out;
    }

    /// 8XY_: the register-to-register operations, chosen by the low nibble.
    fn op_8xyn(&mut self) -> (r: TickOutcome)
        requires
            old(self).wf(),
            family(old(self).opcode.code) == 0x8,
        ensures
            final(self).wf(),
            runs_to(old(self)@, final(self)@, Ok(r)),
    {
        match self.opcode.n {
            0x0 => self.op_8xy0(),
            0x1 => self.op_8xy1(),
            0x2 => self.op_8xy2(),
            0x3 => self.op_8xy3(),
            0x4 => self.op_8xy4(),
            0x5 => self.op_8xy5(),
            0x6 => self.op_8xy6(),
            0x7 => self.op_8xy7(),
            0xE => self.op_8xye(),
            _ => return TickOutcome::Unknown,
        }
        TickOutcome::Executed
    }

    /// 9XY0: skips the next instruction if VX differs from VY.
    fn op_9xy0(&mut self)
        requires
            old(self).wf(),
            family(old(self).opcode.code) == 0x9,
        ensures
            final(self).wf(),
            runs_to(old(self)@, final(self)@, Ok(TickOutcome::Executed)),
    {
        let c = self.reg[self.opcode.x] != self.reg[self.opcode.y];
        self.skip_if(c);
    }

    /// ANNN: sets I to NNN.
    fn op_annn(&mut self)
        requires
            old(self).wf(),
            family(old(self).opcode.code) == 0xA,
        ensures
            final(self).wf(),
            runs_to(old(self)@, final(self)@, Ok(TickOutcome::Executed)),
    {
        self.reg_i = self.opcode.nnn;
    }

    /// BNNN: jumps to NNN plus V0.
    fn op_bnnn(&mut self)
        requires
            old(self).wf(),
            family(old(self).opcode.code) == 0xB,
        ensures
            final(self).wf(),
            runs_to(old(self)@, final(self)@, Ok(TickOutcome::Executed)),
    {
        self.pc = (self.opcode.nnn as usize + self.reg[0] as usize) % MEMORY_SIZE;
    }

    /// CXNN: sets VX to `random` masked by NN.
    fn op_cxnn(&mut self, random: u8)
        requires
            old(self).wf(),
            family(old(self).opcode.code) == 0xC,
        ensures
            final(self).wf(),
            run_instruction(old(self)@, random) == (final(self)@, Ok::<TickOutcome, Chip8Error>(
                TickOutcome::Executed,
            )),
    {
        self.reg[self.opcode.x] = random & self.opcode.nn;
    }

    /// DXYN: XORs the N-row sprite at I onto the display at (VX, VY); VF
    /// tells whether a set pixel was turned off.
    fn op_dxyn(&mut self)
        requires
            old(self).wf(),
            family(old(self).opcode.code) == 0xD,
        ensures
            final(self).wf(),
            runs_to(old(self)@, final(self)@, Ok(TickOutcome::Executed)),
    {
        let n = self.opcode.n;
        let vx = self.reg[self.opcode.x] as usize;
        let vy = self.reg[self.opcode.y] as usize;
        let ghost before = self.display@;
        let ghost sprite = sprite_at(self.memory@, self.reg_i, n);
        let mut collision = false;
        let mut row: usize = 0;
        while row < n
            invariant
                self.wf(),
                n == old(self).opcode.n,
                n < 16,
                row <= n,
                self@ == (Machine { display: self@.display, ..old(self)@ }),
                before == old(self)@.display,
                sprite == sprite_at(self.memory@, self.reg_i, n),
                vx < 0x100,
                vy < 0x100,
                forall|p: int|
                    0 <= p < DISPLAY_SIZE ==> #[trigger] self.display@[p] == (before[p] != (flips(
                        sprite,
                        vx as int,
                        vy as int,
                        p,
                    ) && visited(p, vx as int, vy as int, row as int, 0))),
                collision == exists|p: int|
                    0 <= p < DISPLAY_SIZE && #[trigger] flips(sprite, vx as int, vy as int, p)
                        && visited(p, vx as int, vy as int, row as int, 0) && before[p],
            decreases n - row,
        {
            let byte = self.memory[(self.reg_i as usize + row) % MEMORY_SIZE];
            let mut col: usize = 0;
            while col < SPRITE_WIDTH
                invariant
                    self.wf(),
                    row < n,
                    n < 16,
                    col <= SPRITE_WIDTH,
                    self@ == (Machine { display: self@.display, ..old(self)@ }),
                    before == old(self)@.display,
                    sprite == sprite_at(self.memory@, self.reg_i, n),
                    byte == sprite[row as int],
                    vx < 0x100,
                    vy < 0x100,
                    forall|p: int|
                        0 <= p < DISPLAY_SIZE ==> #[trigger] self.display@[p] == (before[p] != (
                        flips(sprite, vx as int, vy as int, p) && visited(
                            p,
                            vx as int,
                            vy as int,
                            row as int,
                            col as int,
                        ))),
                    collision == exists|p: int|
                        0 <= p < DISPLAY_SIZE && #[trigger] flips(sprite, vx as int, vy as int, p)
                            && visited(p, vx as int, vy as int, row as int, col as int)
                            && before[p],
                decreases SPRITE_WIDTH - col,
            {
                let shift = (7 - col) as u8;
                if vy + row < DISPLAY_HEIGHT && vx + col < DISPLAY_WIDTH && (byte >> shift) & 1 == 1 {
                    let p = (vy + row) * DISPLAY_WIDTH + (vx + col);
                    proof {
                        lemma_pixel_index((vy + row) as int, (vx + col) as int);
                        assert(flips(sprite, vx as int, vy as int, p as int));
                    }
                    if self.display[p] {
                        collision = true;
                    }
                    self.display[p] = !self.display[p];
                }
                col = col + 1;
            }
            row = row + 1;
        }
        self.reg[0xF] = if collision { 1 } else { 0 };
        self.redraw = true;
        assert(self.display@ =~= drawn(before, sprite, vx as int, vy as int));
    }

    /// EX9E: skips the next instruction if the pressed key is VX.
    fn op_ex9e(&mut self)
        requires
            old(self).wf(),
            family(old(self).opcode.code) == 0xE,
            old(self).opcode.nn == 0x9E,
        ensures
            final(self).wf(),
            runs_to(old(self)@, final(self)@, Ok(TickOutcome::Executed)),
    {
        let c = match self.keypress {
            Some(k) => k == self.reg[self.opcode.x],
            None => false,
        };
        self.skip_if(c);
    }

    /// EXA1: skips the next instruction unless the pressed key is VX; no key
    /// pressed counts as another key.
    fn op_exa1(&mut self)
        requires
            old(self).wf(),
            family(old(self).opcode.code) == 0xE,
            old(self).opcode.nn == 0xA1,
        ensures
            final(self).wf(),
            runs_to(old(self)@, final(self)@, Ok(TickOutcome::Executed)),
    {
        let c = match self.keypress {
            Some(k) => k != self.reg[self.opcode.x],
            None => true,
        };
        self.skip_if(c);
    }

    /// FX0A: stores the pressed key in VX, or, with no key pressed, stays on
    /// this instruction and reports that it waits.
    fn op_fx0a(&mut self) -> (r: TickOutcome)
        requires
            old(self).wf(),
            family(old(self).opcode.code) == 0xF,
            old(self).opcode.nn == 0x0A,
        ensures
            final(self).wf(),
            runs_to(old(self)@, final(self)@, Ok(r)),
    {
        match self.keypress {
            Some(k) => {
                self.reg[self.opcode.x] = k;
                TickOutcome::Executed
            },
            None => {
                self.pc = (self.pc + MEMORY_SIZE - 2) % MEMORY_SIZE;
                self.awaiting_key = true;
                TickOutcome::AwaitingKey
            },
        }
    }

    /// FX33: stores the decimal digits of VX at I, I+1 and I+2.
    fn op_fx33(&mut self)
        requires
            old(self).wf(),
            family(old(self).opcode.code) == 0xF,
            old(self).opcode.nn == 0x33,
        ensures
            final(self).wf(),
            runs_to(old(self)@, final(self)@, Ok(TickOutcome::Executed)),
    {
        let v = self.reg[self.opcode.x];
        let i = self.reg_i as usize;
        self.memory[i % MEMORY_SIZE] = v / 100;
        self.memory[(i + 1) % MEMORY_SIZE] = (v / 10) % 10;
        self.memory[(i + 2) % MEMORY_SIZE] = v % 10;
    }

    /// FX55: stores V0 to VX in memory from I on; I is left as it was.
    fn op_fx55(&mut self)
        requires
            old(self).wf(),
            family(old(self).opcode.code) == 0xF,
            old(self).opcode.nn == 0x55,
        ensures
            final(self).wf(),
            runs_to(old(self)@, final(self)@, Ok(TickOutcome::Executed)),
    {
        let x = self.opcode.x;
        let i = self.reg_i as usize;
        let mut k: usize = 0;
        while k <= x
            invariant
                self.wf(),
                x == old(self).opcode.x,
                x < REGISTER_COUNT,
                k <= x + 1,
                i == old(self).reg_i,
                self@ == (Machine { memory: self@.memory, ..old(self)@ }),
                self@.memory == regs_stored(old(self)@.memory, self@.reg, self.reg_i, k - 1),
            decreases x + 1 - k,
        {
            self.memory[(i + k) % MEMORY_SIZE] = self.reg[k];
            k = k + 1;
            assert forall|a: int| 0 <= a < MEMORY_SIZE implies #[trigger] self@.memory[a]
                == regs_stored(old(self)@.memory, self@.reg, self.reg_i, k - 1)[a] by {
                lemma_offset(i as int, k - 1, a);
            }
            assert(self@.memory =~= regs_stored(old(self)@.memory, self@.reg, self.reg_i, k - 1));
        }
    }

    /// FX65: loads V0 to VX from memory from I on; I is left as it was.
    fn op_fx65(&mut self)
        requires
            old(self).wf(),
            family(old(self).opcode.code) == 0xF,
            old(self).opcode.nn == 0x65,
        ensures
            final(self).wf(),
            runs_to(old(self)@, final(self)@, Ok(TickOutcome::Executed)),
    {
        let x = self.opcode.x;
        let i = self.reg_i as usize;
        let mut k: usize = 0;
        while k <= x
            invariant
                self.wf(),
                x == old(self).opcode.x,
                x < REGISTER_COUNT,
                k <= x + 1,
                i == old(self).reg_i,
                self@ == (Machine { reg: self@.reg, ..old(self)@ }),
                self@.reg == regs_loaded(old(self)@.reg, self@.memory, self.reg_i, k - 1),
            decreases x + 1 - k,
        {
            self.reg[k] = self.memory[(i + k) % MEMORY_SIZE];
            k = k + 1;
            assert(self@.reg =~= regs_loaded(old(self)@.reg, self@.memory, self.reg_i, k - 1));
        }
    }

    /// FX__: timers, I, digits and register blocks, chosen by the low byte.
    fn op_fxnn(&mut self) -> (r: TickOutcome)
        requires
            old(self).wf(),
            family(old(self).opcode.code) == 0xF,
        ensures
            final(self).wf(),
            runs_to(old(self)@, final(self)@, Ok(r)),
    {
        let x = self.opcode.x;
        match self.opcode.nn {
            0x07 => self.reg[x] = self.delay_timer,
            0x0A => return self.op_fx0a(),
            0x15 => self.delay_timer = self.reg[x],
            0x18 => self.sound_timer = self.reg[x],
            0x1E => self.reg_i = ((self.reg_i as usize + self.reg[x] as usize) % MEMORY_SIZE) as u16,
            0x29 => self.reg_i = 5 * self.reg[x] as u16,
            0x33 => self.op_fx33(),
            0x55 => self.op_fx55(),
            0x65 => self.op_fx65(),
            _ => return TickOutcome::Unknown,
        }
        TickOutcome::Executed
    }

    /// Carries out the current opcode, with `pc` already past it; `random` is
    /// the byte that CXNN masks.
    ///
    /// Unknown words and legacy machine calls change nothing and say so in
    /// the outcome; a stack overflow or underflow is returned as an error and
    /// changes nothing either.
    pub fn execute(&mut self, random: u8) -> (r: Result<TickOutcome, Chip8Error>)
        requires
            old(self).wf(),
        ensures
            final(self).wf(),
            (final(self)@, r) == run_instruction(old(self)@, random),
    {
        let code = self.opcode.code;
        let f = code >> 12;
        assert(f == family(code)) by (bit_vector)
            requires
                f == code >> 12,
        ;
        match f {
            0x0 => {
                if code == 0x00E0 {
                    self.op_00e0();
                    Ok(TickOutcome::Executed)
                } else if code == 0x00EE {
                    self.op_00ee()
                } else {
                    Ok(TickOutcome::MachineCall)
                }
            },
            0x1 => {
                self.op_1nnn();
                Ok(TickOutcome::Executed)
            },
            0x2 => self.op_2nnn(),
            0x3 => {
                self.op_3xnn();
                Ok(TickOutcome::Executed)
            },
            0x4 => {
                self.op_4xnn();
                Ok(TickOutcome::Executed)
            },
            0x5 => {
                self.op_5xy0();
                Ok(TickOutcome::Executed)
            },
            0x6 => {
                self.op_6xnn();
                Ok(TickOutcome::Executed)
            },
            0x7 => {
                self.op_7xnn();
                Ok(TickOutcome::Executed)
            },
            0x8 => Ok(self.op_8xyn()),
            0x9 => {
                self.op_9xy0();
                Ok(TickOutcome::Executed)
            },
            0xA => {
                self.op_annn();
                Ok(TickOutcome::Executed)
            },
            0xB => {
                self.op_bnnn();
                Ok(TickOutcome::Executed)
            },
            0xC => {
                self.op_cxnn(random);
                Ok(TickOutcome::Executed)
            },
            0xD => {
                self.op_dxyn();
                Ok(TickOutcome::Executed)
            },
            0xE => {
                if self.opcode.nn == 0x9E {
                    self.op_ex9e();
                    Ok(TickOutcome::Executed)
                } else if self.opcode.nn == 0xA1 {
                    self.op_exa1();
                    Ok(TickOutcome::Executed)
                } else {
                    Ok(TickOutcome::Unknown)
                }
            },
            _ => Ok(self.op_fxnn()),
        }
    }

    /// The state's own invariant: `pc` addresses memory and the opcode and
    /// stack are well formed.
    pub open spec fn wf(&self) -> bool {
        &&& self.pc < MEMORY_SIZE
        &&& self.opcode.wf()
        &&& self.stack.wf()
    }

    /// A well-formed machine's view is a state the instructions are defined on.
    pub proof fn lemma_wf_valid(&self)
        requires
            self.wf(),
        ensures
            valid(self@),
    {
    }

    /// A machine with the font loaded, everything else cleared, and `pc` at
    /// the program start.
    pub fn new() -> (r: Chip8)
        ensures
            r.wf(),
            r@ == initial(),
    {
        let r = Chip8 {
            pc: PROGRAM_START,
            opcode: Opcode::new(0x0000),
            memory: boot_memory_array(),
            display: [false; DISPLAY_SIZE],
            stack: Stack::new(),
            reg: [0; REGISTER_COUNT],
            reg_i: 0,
            delay_timer: 0,
            sound_timer: 0,
            keypress: None,
            redraw: false,
            awaiting_key: false,
        };
        assert(r.display@ =~= initial().display);
        assert(r.reg@ =~= initial().reg);
        r
    }

    /// Puts the machine back in the state that `new` gives.
    pub fn reset(&mut self)
        ensures
            final(self).wf(),
            final(self)@ == initial(),
    {
        *self = Chip8::new();
    }

    /// Copies `rom` into memory from the program start, or fails with
    /// `RomTooLarge`, changing nothing, where it does not fit.
    pub fn load_rom(&mut self, rom: &[u8]) -> (r: Result<(), Chip8Error>)
        requires
            old(self).wf(),
        ensures
            final(self).wf(),
            rom@.len() + PROGRAM_START <= MEMORY_SIZE ==> {
                &&& r == Ok::<(), Chip8Error>(())
                &&& final(self)@ == (Machine {
                    memory: rom_loaded(old(self)@.memory, rom@),
                    ..old(self)@
                })
            },
            rom@.len() + PROGRAM_START > MEMORY_SIZE ==> {
                &&& r == Err::<(), Chip8Error>(Chip8Error::RomTooLarge)
                &&& *final(self) == *old(self)
            },
    {
        if rom.len() > MEMORY_SIZE - PROGRAM_START {
            return Err(Chip8Error::RomTooLarge);
        }
        let mut k: usize = 0;
        while k < rom.len()
            invariant
                self.wf(),
                k <= rom@.len(),
                rom@.len() + PROGRAM_START <= MEMORY_SIZE,
                self@ == (Machine { memory: self@.memory, ..old(self)@ }),
                self@.memory == rom_loaded(old(self)@.memory, rom@.subrange(0, k as int)),
            decreases rom@.len() - k,
        {
            self.memory[PROGRAM_START + k] = rom[k];
            k = k + 1;
            assert(self@.memory =~= rom_loaded(old(self)@.memory, rom@.subrange(0, k as int)));
        }
        assert(rom@.subrange(0, k as int) =~= rom@);
        Ok(())
    }

    /// Writes `vector` into memory from the program start, each word big-endian.
    pub fn load_vec(&mut self, vector: Vec<u16>)
        requires
            old(self).wf(),
            PROGRAM_START + 2 * vector@.len() <= MEMORY_SIZE,
        ensures
            final(self).wf(),
            final(self)@ == (Machine {
                memory: rom_loaded(old(self)@.memory, program_bytes(vector@)),
                ..old(self)@
            }),
    {
        let mut i: usize = 0;
        while i < vector.len()
            invariant
                self.wf(),
                i <= vector@.len(),
                PROGRAM_START + 2 * vector@.len() <= MEMORY_SIZE,
                self@ == (Machine { memory: self@.memory, ..old(self)@ }),
                self@.memory == rom_loaded(
                    old(self)@.memory,
                    program_bytes(vector@.subrange(0, i as int)),
                ),
            decreases vector@.len() - i,
        {
            let word = vector[i];
            let high = ((word & 0xFF00) >> 8) as u8;
            let low = (word & 0x00FF) as u8;
            assert(high == word / 0x100 && low == word % 0x100) by (bit_vector)
                requires
                    high == ((word & 0xFF00) >> 8) as u8,
                    low == (word & 0x00FF) as u8,
            ;
            self.memory[2 * i + PROGRAM_START] = high;
            self.memory[2 * i + PROGRAM_START + 1] = low;
            i = i + 1;
            assert(self@.memory =~= rom_loaded(
                old(self)@.memory,
                program_bytes(vector@.subrange(0, i as int)),
            ));
        }
        assert(vector@.subrange(0, i as int) =~= vector@);
    }

    /// Decodes the big-endian word at `pc`.
    pub fn fetch(&self) -> (r: Opcode)
        requires
            self.wf(),
        ensures
            r == decode(word_at(self@.memory, self@.pc)),
    {
        let left = self.memory[self.pc] as u16;
        let right = self.memory[(self.pc + 1) % MEMORY_SIZE] as u16;
        let word = left << 8 | right;
        assert(word == left * 0x100 + right) by (bit_vector)
            requires
                word == left << 8 | right,
                left < 0x100,
                right < 0x100,
        ;
        Opcode::new(word)
    }

    /// Counts both timers down by one, stopping at zero; the frontend calls
    /// this at the real-time timer rate, apart from instruction ticks.
    pub fn decay_timers(&mut self)
        ensures
            final(self)@ == timers_decayed(old(self)@),
            final(self).wf() == old(self).wf(),
    {
        if self.delay_timer > 0 {
            self.delay_timer = self.delay_timer - 1;
        }
        if self.sound_timer > 0 {
            self.sound_timer = self.sound_timer - 1;
        }
    }
    /// Fetches the instruction at `pc`, moves `pc` past it, records
    /// `keypress` as the key held down, and carries the instruction out with
    /// `random` as the byte that CXNN masks.
    ///
    /// Timers are left alone: `decay_timers` runs them down.
    pub fn tick_with_random(&mut self, keypress: Option<u8>, random: u8) -> (r: Result<
        TickOutcome,
        Chip8Error,
    >)
        requires
            old(self).wf(),
        ensures
            final(self).wf(),
            (final(self)@, r) == step(old(self)@, keypress, random),
    {
        self.opcode = self.fetch();
        self.pc = (self.pc + 2) % MEMORY_SIZE;
        self.keypress = keypress;
        self.awaiting_key = false;
        self.execute(random)
    }

    /// One instruction step, as `tick_with_random` with a byte drawn from the
    /// thread's random generator.
    pub fn tick(&mut self, keypress: Option<u8>) -> (r: Result<TickOutcome, Chip8Error>)
        requires
            old(self).wf(),
        ensures
            final(self).wf(),
            exists|random: u8| (final(self)@, r) == step(old(self)@, keypress, random),
    {
        let random = random_byte();
        self.tick_with_random(keypress, random)
    }
}

} // verus!

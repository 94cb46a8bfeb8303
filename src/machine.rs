use vstd::prelude::*;

use crate::display::{collides, drawn, DISPLAY_SIZE};
use crate::error::Chip8Error;
use crate::opcode::decode;
use crate::stack::{popped, pushed, STACK_CAPACITY};

verus! {

/// Bytes of addressable memory; every address an instruction forms is taken modulo this.
pub const MEMORY_SIZE: usize = 4096;

/// Where programs are loaded and where execution starts.
pub const PROGRAM_START: usize = 0x200;

/// Bytes of the glyph font, five for each of the sixteen hex digits.
pub const FONT_SIZE: usize = 80;

/// The number of general registers; the last one, VF, doubles as the flag register.
pub const REGISTER_COUNT: usize = 16;

/// The glyph font held at the bottom of memory: digit `d` starts at `5 * d`.
pub open spec fn font() -> Seq<u8> {
    seq![
        0xF0u8, 0x90, 0x90, 0x90, 0xF0, 0x20, 0x60, 0x20, 0x20, 0x70,
        0xF0, 0x10, 0xF0, 0x80, 0xF0, 0xF0, 0x10, 0xF0, 0x10, 0xF0,
        0x90, 0x90, 0xF0, 0x10, 0x10, 0xF0, 0x80, 0xF0, 0x10, 0xF0,
        0xF0, 0x80, 0xF0, 0x90, 0xF0, 0xF0, 0x10, 0x20, 0x40, 0x40,
        0xF0, 0x90, 0xF0, 0x90, 0xF0, 0xF0, 0x90, 0xF0, 0x10, 0xF0,
        0xF0, 0x90, 0xF0, 0x90, 0x90, 0xE0, 0x90, 0xE0, 0x90, 0xE0,
        0xF0, 0x80, 0x80, 0x80, 0xF0, 0xE0, 0x90, 0x90, 0x90, 0xE0,
        0xF0, 0x80, 0xF0, 0x80, 0xF0, 0xF0, 0x80, 0xF0, 0x80, 0x80,
    ]
}

/// What a tick reports when it does not fail.
#[derive(Clone, Copy, Debug, PartialEq, Eq, Structural)]
pub enum TickOutcome {
    /// The instruction was carried out.
    Executed,
    /// A legacy machine-code call (0NNN), which this machine skips.
    MachineCall,
    /// A word that is no instruction; it was skipped.
    Unknown,
    /// A key wait (FX0A) found no key pressed; the program counter still
    /// points at it, and the next tick tries again.
    AwaitingKey,
}

/// The whole state of the machine, as mathematical values.
pub ghost struct Machine {
    pub pc: int,
    pub opcode: u16,
    pub memory: Seq<u8>,
    pub display: Seq<bool>,
    pub stack: Seq<u16>,
    pub reg: Seq<u8>,
    pub reg_i: u16,
    pub delay_timer: u8,
    pub sound_timer: u8,
    pub keypress: Option<u8>,
    pub redraw: bool,
    pub awaiting_key: bool,
}

/// The address `a` within memory.
pub open spec fn addr(a: int) -> int {
    a % (MEMORY_SIZE as int)
}

/// The big-endian word at `pc`.
pub open spec fn word_at(memory: Seq<u8>, pc: int) -> u16 {
    (memory[addr(pc)] as int * 0x100 + memory[addr(pc + 1)] as int) as u16
}

/// Memory with the font at the bottom and zeros above it.
pub open spec fn boot_memory() -> Seq<u8> {
    Seq::new(MEMORY_SIZE as nat, |a: int| if a < FONT_SIZE { font()[a] } else { 0u8 })
}

/// The state after construction or reset.
pub open spec fn initial() -> Machine {
    Machine {
        pc: PROGRAM_START as int,
        opcode: 0,
        memory: boot_memory(),
        display: Seq::new(DISPLAY_SIZE as nat, |p: int| false),
        stack: Seq::empty(),
        reg: Seq::new(REGISTER_COUNT as nat, |i: int| 0u8),
        reg_i: 0,
        delay_timer: 0,
        sound_timer: 0,
        keypress: None,
        redraw: false,
        awaiting_key: false,
    }
}

/// Memory with `rom` copied in from the program start.
pub open spec fn rom_loaded(memory: Seq<u8>, rom: Seq<u8>) -> Seq<u8> {
    Seq::new(
        memory.len(),
        |a: int|
            if PROGRAM_START <= a < PROGRAM_START + rom.len() {
                rom[a - PROGRAM_START]
            } else {
                memory[a]
            },
    )
}

/// `words` as big-endian bytes.
pub open spec fn program_bytes(words: Seq<u16>) -> Seq<u8> {
    Seq::new(
        2 * words.len(),
        |k: int|
            if k % 2 == 0 {
                (words[k / 2] / 0x100) as u8
            } else {
                (words[k / 2] % 0x100) as u8
            },
    )
}

/// Both timers one step nearer to zero, stopping there.
pub open spec fn timers_decayed(m: Machine) -> Machine {
    Machine {
        delay_timer: if m.delay_timer > 0 { (m.delay_timer - 1) as u8 } else { 0 },
        sound_timer: if m.sound_timer > 0 { (m.sound_timer - 1) as u8 } else { 0 },
        ..m
    }
}

/// The rows of an `n`-row sprite read from memory at `i`.
pub open spec fn sprite_at(memory: Seq<u8>, i: u16, n: usize) -> Seq<u8> {
    Seq::new(n as nat, |k: int| memory[addr(i + k)])
}

/// 1 for true, 0 for false: what the flag register receives.
pub open spec fn flag(b: bool) -> u8 {
    if b { 1 } else { 0 }
}

/// `m` with the next instruction skipped where `cond` holds.
pub open spec fn skip_if(m: Machine, cond: bool) -> Machine {
    if cond {
        Machine { pc: addr(m.pc + 2), ..m }
    } else {
        m
    }
}

/// `m` with register `x` set to `v`.
pub open spec fn set_reg(m: Machine, x: int, v: u8) -> Machine {
    Machine { reg: m.reg.update(x, v), ..m }
}

/// `m` with register `x` set to `v` and then VF to `f`, so that the flag
/// wins where `x` is VF itself.
pub open spec fn set_reg_flag(m: Machine, x: int, v: u8, f: u8) -> Machine {
    Machine { reg: m.reg.update(x, v).update(0xF, f), ..m }
}

/// Memory with registers `V0..=Vx` stored from `i` on.
pub open spec fn regs_stored(memory: Seq<u8>, reg: Seq<u8>, i: u16, x: int) -> Seq<u8> {
    Seq::new(
        memory.len(),
        |a: int|
            if (a - i) % (MEMORY_SIZE as int) <= x {
                reg[(a - i) % (MEMORY_SIZE as int)]
            } else {
                memory[a]
            },
    )
}

/// Registers with `V0..=Vx` loaded from memory at `i` on.
pub open spec fn regs_loaded(reg: Seq<u8>, memory: Seq<u8>, i: u16, x: int) -> Seq<u8> {
    Seq::new(reg.len(), |k: int| if k <= x { memory[addr(i + k)] } else { reg[k] })
}

/// The decimal digits of `v` stored at `i`, `i + 1` and `i + 2`.
pub open spec fn bcd_stored(memory: Seq<u8>, i: u16, v: u8) -> Seq<u8> {
    memory.update(addr(i as int), v / 100).update(addr(i + 1), (v / 10) % 10).update(
        addr(i + 2),
        v % 10,
    )
}

/// The instruction family: the top nibble of the word.
pub open spec fn family(code: u16) -> int {
    code as int / 0x1000
}

/// The state and the report that follow a carried-out instruction.
pub open spec fn done(m: Machine) -> (Machine, Result<TickOutcome, Chip8Error>) {
    (m, Ok(TickOutcome::Executed))
}

/// The register-to-register family 8XY_, chosen by the low nibble.
pub open spec fn execute_alu(m: Machine) -> (Machine, Result<TickOutcome, Chip8Error>) {
    let op = decode(m.opcode);
    let x = op.x as int;
    let vx = m.reg[x];
    let vy = m.reg[op.y as int];
    if op.n == 0x0 {
        done(set_reg(m, x, vy))
    } else if op.n == 0x1 {
        done(set_reg(m, x, vx | vy))
    } else if op.n == 0x2 {
        done(set_reg(m, x, vx & vy))
    } else if op.n == 0x3 {
        done(set_reg(m, x, vx ^ vy))
    } else if op.n == 0x4 {
        done(set_reg_flag(m, x, ((vx + vy) % 0x100) as u8, flag(vx + vy > 0xFF)))
    } else if op.n == 0x5 {
        done(set_reg_flag(m, x, ((vx - vy + 0x100) % 0x100) as u8, flag(vx >= vy)))
    } else if op.n == 0x6 {
        done(set_reg_flag(m, x, vx / 2, vx % 2))
    } else if op.n == 0x7 {
        done(set_reg_flag(m, x, ((vy - vx + 0x100) % 0x100) as u8, flag(vy >= vx)))
    } else if op.n == 0xE {
        done(set_reg_flag(m, x, ((vx * 2) % 0x100) as u8, vx / 0x80))
    } else {
        (m, Ok(TickOutcome::Unknown))
    }
}

/// The family FX__, chosen by the low byte.
pub open spec fn execute_misc(m: Machine) -> (Machine, Result<TickOutcome, Chip8Error>) {
    let op = decode(m.opcode);
    let x = op.x as int;
    let vx = m.reg[x];
    if op.nn == 0x07 {
        done(set_reg(m, x, m.delay_timer))
    } else if op.nn == 0x0A {
        match m.keypress {
            Some(k) => done(set_reg(m, x, k)),
            None => (
                Machine { pc: addr(m.pc + MEMORY_SIZE - 2), awaiting_key: true, ..m },
                Ok(TickOutcome::AwaitingKey),
            ),
        }
    } else if op.nn == 0x15 {
        done(Machine { delay_timer: vx, ..m })
    } else if op.nn == 0x18 {
        done(Machine { sound_timer: vx, ..m })
    } else if op.nn == 0x1E {
        done(Machine { reg_i: addr(m.reg_i + vx) as u16, ..m })
    } else if op.nn == 0x29 {
        done(Machine { reg_i: (5 * vx) as u16, ..m })
    } else if op.nn == 0x33 {
        done(Machine { memory: bcd_stored(m.memory, m.reg_i, vx), ..m })
    } else if op.nn == 0x55 {
        done(Machine { memory: regs_stored(m.memory, m.reg, m.reg_i, x), ..m })
    } else if op.nn == 0x65 {
        done(Machine { reg: regs_loaded(m.reg, m.memory, m.reg_i, x), ..m })
    } else {
        (m, Ok(TickOutcome::Unknown))
    }
}

/// What the instruction in `m.opcode` does to `m`, with `pc` already past it,
/// and what it reports; `random` is the byte that CXNN masks.
///
/// A fatal error leaves the state as it was.
pub open spec fn run_instruction(m: Machine, random: u8) -> (Machine, Result<TickOutcome, Chip8Error>) {
    let op = decode(m.opcode);
    let x = op.x as int;
    let vx = m.reg[x];
    let vy = m.reg[op.y as int];
    let f = family(m.opcode);
    if f == 0x0 {
        if op.nnn == 0x0E0 {
            done(Machine { display: Seq::new(DISPLAY_SIZE as nat, |p: int| false), redraw: true, ..m })
        } else if op.nnn == 0x0EE {
            match popped(m.stack) {
                Some((a, t)) => done(Machine { pc: addr(a as int), stack: t, ..m }),
                None => (m, Err(Chip8Error::StackUnderflow)),
            }
        } else {
            (m, Ok(TickOutcome::MachineCall))
        }
    } else if f == 0x1 {
        done(Machine { pc: op.nnn as int, ..m })
    } else if f == 0x2 {
        match pushed(m.stack, m.pc as u16) {
            Some(t) => done(Machine { pc: op.nnn as int, stack: t, ..m }),
            None => (m, Err(Chip8Error::StackOverflow)),
        }
    } else if f == 0x3 {
        done(skip_if(m, vx == op.nn))
    } else if f == 0x4 {
        done(skip_if(m, vx != op.nn))
    } else if f == 0x5 {
        done(skip_if(m, vx == vy))
    } else if f == 0x6 {
        done(set_reg(m, x, op.nn))
    } else if f == 0x7 {
        done(set_reg(m, x, ((vx + op.nn) % 0x100) as u8))
    } else if f == 0x8 {
        execute_alu(m)
    } else if f == 0x9 {
        done(skip_if(m, vx != vy))
    } else if f == 0xA {
        done(Machine { reg_i: op.nnn, ..m })
    } else if f == 0xB {
        done(Machine { pc: addr(op.nnn + m.reg[0]), ..m })
    } else if f == 0xC {
        done(set_reg(m, x, random & op.nn))
    } else if f == 0xD {
        let sprite = sprite_at(m.memory, m.reg_i, op.n);
        done(
            Machine {
                display: drawn(m.display, sprite, vx as int, vy as int),
                reg: m.reg.update(0xF, flag(collides(m.display, sprite, vx as int, vy as int))),
                redraw: true,
                ..m
            },
        )
    } else if f == 0xE {
        if op.nn == 0x9E {
            done(skip_if(m, m.keypress == Some(vx)))
        } else if op.nn == 0xA1 {
            done(skip_if(m, m.keypress != Some(vx)))
        } else {
            (m, Ok(TickOutcome::Unknown))
        }
    } else {
        execute_misc(m)
    }
}

/// `m` once the word at `pc` is fetched: it becomes the current opcode, `pc`
/// moves past it, and `key` is the key held down for this step.
pub open spec fn fetched(m: Machine, key: Option<u8>) -> Machine {
    Machine {
        opcode: word_at(m.memory, m.pc),
        pc: addr(m.pc + 2),
        keypress: key,
        awaiting_key: false,
        ..m
    }
}

/// One whole step: fetch, then execute.
pub open spec fn step(m: Machine, key: Option<u8>, random: u8) -> (Machine, Result<TickOutcome, Chip8Error>) {
    run_instruction(fetched(m, key), random)
}

/// A state the instructions are defined on: `pc` within memory and every
/// part of its size.
pub open spec fn valid(m: Machine) -> bool {
    &&& 0 <= m.pc < MEMORY_SIZE
    &&& m.memory.len() == MEMORY_SIZE
    &&& m.display.len() == DISPLAY_SIZE
    &&& m.reg.len() == REGISTER_COUNT
    &&& m.stack.len() <= STACK_CAPACITY
}

/// The adding and subtracting instructions wrap their result modulo 256.
/// 8XY4 sets VF to the carry out; 8XY5 and 8XY7 set VF to 1 exactly where no
/// borrow occurs; 7XNN leaves VF alone. No other register changes, and the
/// flag is written last, so it wins where X is F.
/// The adding and subtracting instructions wrap their result modulo 256.
/// 8XY4 sets VF to the carry out; 8XY5 and 8XY7 set VF to 1 exactly where no
/// borrow occurs; 7XNN leaves VF alone. No other register changes, and the
/// flag is written last, so it wins where X is F.
pub proof fn lemma_arithmetic_flags(m: Machine, key: Option<u8>, random: u8)
    requires
        valid(m),
    ensures
        ({
            let op = decode(word_at(m.memory, m.pc));
            let x = op.x as int;
            let vx = m.reg[x];
            let vy = m.reg[op.y as int];
            let next = step(m, key, random);
            let reg = next.0.reg;
            &&& family(op.code) == 0x7 ==> {
                &&& next.1 == Ok::<TickOutcome, Chip8Error>(TickOutcome::Executed)
                &&& reg == m.reg.update(x, ((vx + op.nn) % 0x100) as u8)
            }
            &&& family(op.code) == 0x8 && op.n == 0x4 ==> {
                &&& next.1 == Ok::<TickOutcome, Chip8Error>(TickOutcome::Executed)
                &&& reg == m.reg.update(x, ((vx + vy) % 0x100) as u8).update(0xF, flag(vx + vy > 0xFF))
            }
            &&& family(op.code) == 0x8 && op.n == 0x5 ==> {
                &&& next.1 == Ok::<TickOutcome, Chip8Error>(TickOutcome::Executed)
                &&& reg == m.reg.update(x, ((vx - vy) % 0x100) as u8).update(0xF, flag(vx >= vy))
            }
            &&& family(op.code) == 0x8 && op.n == 0x7 ==> {
                &&& next.1 == Ok::<TickOutcome, Chip8Error>(TickOutcome::Executed)
                &&& reg == m.reg.update(x, ((vy - vx) % 0x100) as u8).update(0xF, flag(vy >= vx))
            }
        }),
{
    let mf = fetched(m, key);
    let op = decode(mf.opcode);
    if family(op.code) == 0x8 {
        assert(step(m, key, random) == execute_alu(mf));
        if op.n == 0x4 {
            lemma_add_result(mf);
        } else if op.n == 0x5 || op.n == 0x7 {
            lemma_sub_result(mf);
        }
    }
}

/// What 8XY4 leaves in the registers.
proof fn lemma_add_result(m: Machine)
    requires
        m.reg.len() == REGISTER_COUNT,
        decode(m.opcode).n == 0x4,
    ensures
        ({
            let op = decode(m.opcode);
            let vx = m.reg[op.x as int];
            let vy = m.reg[op.y as int];
            execute_alu(m) == done(
                set_reg_flag(m, op.x as int, ((vx + vy) % 0x100) as u8, flag(vx + vy > 0xFF)),
            )
        }),
{
}

/// What 8XY5 and 8XY7 leave in the registers, with the wraparound written
/// as a remainder.
proof fn lemma_sub_result(m: Machine)
    requires
        m.reg.len() == REGISTER_COUNT,
        decode(m.opcode).n == 0x5 || decode(m.opcode).n == 0x7,
    ensures
        ({
            let op = decode(m.opcode);
            let x = op.x as int;
            let vx = m.reg[x];
            let vy = m.reg[op.y as int];
            &&& op.n == 0x5 ==> execute_alu(m) == done(
                set_reg_flag(m, x, ((vx - vy) % 0x100) as u8, flag(vx >= vy)),
            )
            &&& op.n == 0x7 ==> execute_alu(m) == done(
                set_reg_flag(m, x, ((vy - vx) % 0x100) as u8, flag(vy >= vx)),
            )
        }),
{
    let op = decode(m.opcode);
    let vx = m.reg[op.x as int];
    let vy = m.reg[op.y as int];
    assert((vx - vy + 0x100) % 0x100 == (vx - vy) % 0x100);
    assert((vy - vx + 0x100) % 0x100 == (vy - vx) % 0x100);
}

/// The conditional skips 3XNN, 4XNN, 5XY0 and 9XY0 leave `pc` four bytes
/// past the instruction when their condition holds and two bytes past it
/// otherwise.
pub proof fn lemma_skip(m: Machine, key: Option<u8>, random: u8)
    requires
        valid(m),
    ensures
        ({
            let op = decode(word_at(m.memory, m.pc));
            let vx = m.reg[op.x as int];
            let vy = m.reg[op.y as int];
            let next = step(m, key, random);
            let f = family(op.code);
            &&& f == 0x3 || f == 0x4 || f == 0x5 || f == 0x9 ==> next.1 == Ok::<
                TickOutcome,
                Chip8Error,
            >(TickOutcome::Executed)
            &&& f == 0x3 ==> next.0.pc == addr(m.pc + if vx == op.nn { 4int } else { 2 })
            &&& f == 0x4 ==> next.0.pc == addr(m.pc + if vx != op.nn { 4int } else { 2 })
            &&& f == 0x5 ==> next.0.pc == addr(m.pc + if vx == vy { 4int } else { 2 })
            &&& f == 0x9 ==> next.0.pc == addr(m.pc + if vx != vy { 4int } else { 2 })
        }),
{
}

} // verus!

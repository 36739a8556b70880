use vstd::prelude::*;

use crate::defs::{Chip8, MEMORY_SIZE, REGISTER_COUNT, STACK_DEPTH, MAX_ROM_SIZE, boot_memory, with_rom};
use crate::display::{Display, PIXELS, blank, drawn, collides, any_bit};
use crate::error::Chip8Error;
use crate::instruction::{Instruction, decode, decode_spec};
use crate::keypad::{Keypad, KEY_COUNT};

verus! {

/// Index of the flag register `VF`.
pub const FLAG: usize = 15;

/// The whole machine as one mathematical value.
#[verifier::ext_equal]
pub struct Machine {
    pub memory: Seq<u8>,
    pub v: Seq<u8>,
    pub i: u16,
    pub pc: u16,
    pub stack: Seq<u16>,
    pub sp: nat,
    pub delay_timer: u8,
    pub sound_timer: u8,
    /// Which keys are down.
    pub keys: Seq<bool>,
    /// The screen, row by row.
    pub screen: Seq<bool>,
    /// Whether the screen changed since the last repaint.
    pub dirty: bool,
}

impl Machine {
    pub open spec fn wf(self) -> bool {
        &&& self.memory.len() == MEMORY_SIZE
        &&& self.v.len() == REGISTER_COUNT
        &&& self.stack.len() == STACK_DEPTH
        &&& self.sp <= STACK_DEPTH
        &&& self.keys.len() == KEY_COUNT
        &&& self.screen.len() == PIXELS
    }

    /// Register `VX`.
    pub open spec fn reg(self, x: u8) -> u8 {
        self.v[x as int]
    }

    /// The address of the next instruction.
    pub open spec fn next_pc(self) -> u16 {
        (self.pc + 2) as u16
    }

    /// The address after the next instruction when `cond` holds, else that of
    /// the next one.
    pub open spec fn skip_if(self, cond: bool) -> u16 {
        if cond {
            (self.pc + 4) as u16
        } else {
            (self.pc + 2) as u16
        }
    }

    /// Moves on to the next instruction with `VX := val`.
    pub open spec fn set_reg(self, x: u8, val: u8) -> Machine {
        Machine { v: self.v.update(x as int, val), pc: self.next_pc(), ..self }
    }

    /// Moves on to the next instruction with `VX := val`, then `VF := flag`.
    pub open spec fn set_reg_flag(self, x: u8, val: u8, flag: bool) -> Machine {
        Machine {
            v: self.v.update(x as int, val).update(FLAG as int, if flag { 1u8 } else { 0u8 }),
            pc: self.next_pc(),
            ..self
        }
    }

    /// Whether key `k` is a key of the keypad and is down.
    pub open spec fn key_down(self, k: u8) -> bool {
        k < KEY_COUNT && self.keys[k as int]
    }

    /// The 16-bit word stored big-endian at `addr`.
    pub open spec fn word_at(self, addr: int) -> u16 {
        (self.memory[addr] * 0x100 + self.memory[addr + 1]) as u16
    }
}

/// The lowest key from `k` on that is down, if any.
pub open spec fn first_key_from(keys: Seq<bool>, k: int) -> Option<u8>
    decreases KEY_COUNT - k,
{
    if k < 0 || k >= KEY_COUNT {
        None
    } else if keys[k] {
        Some(k as u8)
    } else {
        first_key_from(keys, k + 1)
    }
}

/// The first address past the end of memory that a read or write from `start`
/// on touches.
pub open spec fn past_end(start: int) -> usize {
    if start >= MEMORY_SIZE {
        start as usize
    } else {
        MEMORY_SIZE
    }
}

/// The first address past the end of memory that an access from `start` on
/// touches.
fn first_outside(start: usize) -> (r: usize)
    ensures
        r == past_end(start as int),
{
    if start >= MEMORY_SIZE {
        start
    } else {
        MEMORY_SIZE
    }
}

/// What executing `ins` does to `m`; `rnd` is the random byte that `CXNN` uses.
pub open spec fn exec_spec(m: Machine, ins: Instruction, rnd: u8) -> Result<Machine, Chip8Error> {
    match ins {
        Instruction::ClearScreen => Ok(Machine { screen: blank(), dirty: true, pc: m.next_pc(), ..m }),
        Instruction::Return => if m.sp == 0 {
            Err(Chip8Error::StackUnderflow { sp: 0, pc: m.pc })
        } else {
            Ok(Machine { sp: (m.sp - 1) as nat, pc: m.stack[m.sp - 1], ..m })
        },
        Instruction::Jump { nnn } => Ok(Machine { pc: nnn, ..m }),
        Instruction::Call { nnn } => if m.sp >= STACK_DEPTH {
            Err(Chip8Error::StackOverflow { sp: m.sp as usize, pc: m.pc })
        } else {
            Ok(Machine { stack: m.stack.update(m.sp as int, m.next_pc()), sp: m.sp + 1, pc: nnn, ..m })
        },
        Instruction::SkipIfEqual { x, nn } => Ok(Machine { pc: m.skip_if(m.reg(x) == nn), ..m }),
        Instruction::SkipIfNotEqual { x, nn } => Ok(Machine { pc: m.skip_if(m.reg(x) != nn), ..m }),
        Instruction::SkipIfRegsEqual { x, y } => Ok(
            Machine { pc: m.skip_if(m.reg(x) == m.reg(y)), ..m },
        ),
        Instruction::SkipIfRegsNotEqual { x, y } => Ok(
            Machine { pc: m.skip_if(m.reg(x) != m.reg(y)), ..m },
        ),
        Instruction::LoadImmediate { x, nn } => Ok(m.set_reg(x, nn)),
        Instruction::AddImmediate { x, nn } => Ok(m.set_reg(x, ((m.reg(x) + nn) % 256) as u8)),
        Instruction::Move { x, y } => Ok(m.set_reg(x, m.reg(y))),
        Instruction::Or { x, y } => Ok(m.set_reg(x, m.reg(x) | m.reg(y))),
        Instruction::And { x, y } => Ok(m.set_reg(x, m.reg(x) & m.reg(y))),
        Instruction::Xor { x, y } => Ok(m.set_reg(x, m.reg(x) ^ m.reg(y))),
        Instruction::Add { x, y } => Ok(
            m.set_reg_flag(x, ((m.reg(x) + m.reg(y)) % 256) as u8, m.reg(x) + m.reg(y) > 255),
        ),
        Instruction::Sub { x, y } => Ok(
            m.set_reg_flag(x, ((m.reg(x) - m.reg(y) + 256) % 256) as u8, m.reg(x) >= m.reg(y)),
        ),
        Instruction::ShiftRight { x, y } => Ok(
            m.set_reg_flag(x, m.reg(x) / 2, m.reg(x) % 2 == 1),
        ),
        Instruction::SubReversed { x, y } => Ok(
            m.set_reg_flag(x, ((m.reg(y) - m.reg(x) + 256) % 256) as u8, m.reg(y) >= m.reg(x)),
        ),
        Instruction::ShiftLeft { x, y } => Ok(
            m.set_reg_flag(x, ((m.reg(x) * 2) % 256) as u8, m.reg(x) >= 128),
        ),
        Instruction::LoadIndex { nnn } => Ok(Machine { i: nnn, pc: m.next_pc(), ..m }),
        Instruction::JumpOffset { nnn } => Ok(Machine { pc: (m.reg(0) + nnn) as u16, ..m }),
        Instruction::Random { x, nn } => Ok(m.set_reg(x, nn & rnd)),
        Instruction::Draw { x, y, n } => if n > 0 && m.i + n > MEMORY_SIZE {
            Err(Chip8Error::AddressOutOfRange { address: past_end(m.i as int), pc: m.pc })
        } else {
            let sprite = Seq::new(n as nat, |k: int| m.memory[m.i + k]);
            let hit = collides(m.screen, m.reg(x) as int, m.reg(y) as int, sprite);
            Ok(
                Machine {
                    screen: drawn(m.screen, m.reg(x) as int, m.reg(y) as int, sprite),
                    dirty: m.dirty || any_bit(sprite),
                    v: m.v.update(FLAG as int, if hit { 1u8 } else { 0u8 }),
                    pc: m.next_pc(),
                    ..m
                },
            )
        },
        Instruction::SkipIfKey { x } => Ok(Machine { pc: m.skip_if(m.key_down(m.reg(x))), ..m }),
        Instruction::SkipIfNotKey { x } => Ok(
            Machine { pc: m.skip_if(!m.key_down(m.reg(x))), ..m },
        ),
        Instruction::GetDelay { x } => Ok(m.set_reg(x, m.delay_timer)),
        Instruction::WaitKey { x } => match first_key_from(m.keys, 0) {
            Some(k) => Ok(m.set_reg(x, k)),
            None => Ok(m),
        },
        Instruction::SetDelay { x } => Ok(Machine { delay_timer: m.reg(x), pc: m.next_pc(), ..m }),
        Instruction::SetSound { x } => Ok(Machine { sound_timer: m.reg(x), pc: m.next_pc(), ..m }),
        Instruction::AddIndex { x } => Ok(
            Machine { i: ((m.i + m.reg(x)) % 0x10000) as u16, pc: m.next_pc(), ..m },
        ),
        Instruction::FontGlyph { x } => Ok(Machine { i: (m.reg(x) * 5) as u16, pc: m.next_pc(), ..m }),
        Instruction::StoreBcd { x } => if m.i + 2 >= MEMORY_SIZE {
            Err(Chip8Error::AddressOutOfRange { address: past_end(m.i as int), pc: m.pc })
        } else {
            let val = m.reg(x);
            Ok(
                Machine {
                    memory: m.memory.update(m.i as int, val / 100).update(
                        m.i + 1,
                        (val / 10) % 10,
                    ).update(m.i + 2, val % 10),
                    pc: m.next_pc(),
                    ..m
                },
            )
        },
        Instruction::StoreRegisters { x } => if m.i + x >= MEMORY_SIZE {
            Err(Chip8Error::AddressOutOfRange { address: past_end(m.i as int), pc: m.pc })
        } else {
            Ok(
                Machine {
                    memory: Seq::new(
                        m.memory.len(),
                        |a: int| if m.i <= a <= m.i + x { m.v[a - m.i] } else { m.memory[a] },
                    ),
                    i: (m.i + x + 1) as u16,
                    pc: m.next_pc(),
                    ..m
                },
            )
        },
        Instruction::LoadRegisters { x } => if m.i + x >= MEMORY_SIZE {
            Err(Chip8Error::AddressOutOfRange { address: past_end(m.i as int), pc: m.pc })
        } else {
            Ok(
                Machine {
                    v: Seq::new(
                        m.v.len(),
                        |k: int| if k <= x { m.memory[m.i + k] } else { m.v[k] },
                    ),
                    i: (m.i + x + 1) as u16,
                    pc: m.next_pc(),
                    ..m
                },
            )
        },
    }
}

/// What one instruction cycle does to `m`: fetch the word at the program
/// counter, decode it and execute it.
pub open spec fn step_spec(m: Machine, rnd: u8) -> Result<Machine, Chip8Error> {
    if m.pc + 1 >= MEMORY_SIZE {
        Err(Chip8Error::AddressOutOfRange { address: past_end(m.pc as int), pc: m.pc })
    } else {
        let op = m.word_at(m.pc as int);
        match decode_spec(op) {
            None => Err(Chip8Error::UnknownOpcode { opcode: op, pc: m.pc }),
            Some(ins) => exec_spec(m, ins, rnd),
        }
    }
}

/// The result `r` and the state `after` of an operation on `before` are those
/// that `expected` describes: the new state on success; on failure the error,
/// with the state unchanged.
pub open spec fn outcome(
    before: Machine,
    after: Machine,
    r: Result<(), Chip8Error>,
    expected: Result<Machine, Chip8Error>,
) -> bool {
    match expected {
        Ok(m) => r is Ok && after == m,
        Err(e) => r == Err::<(), Chip8Error>(e) && after == before,
    }
}

/// `m` after one tick of the timers: each counts down by one unless at zero.
pub open spec fn tick_spec(m: Machine) -> Machine {
    Machine {
        delay_timer: if m.delay_timer > 0 { (m.delay_timer - 1) as u8 } else { 0u8 },
        sound_timer: if m.sound_timer > 0 { (m.sound_timer - 1) as u8 } else { 0u8 },
        ..m
    }
}

/// The result `r` and the state `after` of a full emulation cycle on `before`,
/// in which `CXNN` would use the random byte `rnd`: one instruction, then one
/// tick of the timers, reporting whether the buzzer stopped on that tick.
pub open spec fn cycle_outcome(
    before: Machine,
    after: Machine,
    r: Result<bool, Chip8Error>,
    rnd: u8,
) -> bool {
    match step_spec(before, rnd) {
        Ok(m) => r == Ok::<bool, Chip8Error>(m.sound_timer == 1) && after == tick_spec(m),
        Err(e) => r == Err::<bool, Chip8Error>(e) && after == before,
    }
}

/// Relies on `rand::random::<u8>`, which draws a byte from the thread-local
/// generator: any byte may come back. It panics only when the operating
/// system's generator cannot seed that generator, whatever the caller does.
#[verifier::external_body]
fn random_byte() -> u8 {
    rand::random::<u8>()
}

/// The interpreter: machine state, keypad and screen.
#[derive(Debug)]
pub struct Cpu {
    pub state: Chip8,
    pub keypad: Keypad,
    pub display: Display,
}

impl View for Cpu {
    type V = Machine;

    open spec fn view(&self) -> Machine {
        Machine {
            memory: self.state.memory@,
            v: self.state.v@,
            i: self.state.i,
            pc: self.state.pc,
            stack: self.state.stack@,
            sp: self.state.sp as nat,
            delay_timer: self.state.delay_timer,
            sound_timer: self.state.sound_timer,
            keys: self.keypad@,
            screen: self.display.grid(),
            dirty: self.display.dirty(),
        }
    }
}

impl Cpu {
    pub open spec fn wf(&self) -> bool {
        &&& self.state.wf()
        &&& self.keypad.wf()
        &&& self.display.wf()
    }

    /// A machine at power-on, keys up and screen blank.
    pub fn new() -> (r: Cpu)
        ensures
            r.wf(),
            r.state.is_reset(),
            r@.keys == Seq::new(KEY_COUNT as nat, |k: int| false),
            r@.screen == blank(),
    {
        let keypad = Keypad::new();
        assert(keypad@ =~= Seq::new(KEY_COUNT as nat, |k: int| false));
        Cpu { state: Chip8::new(), keypad, display: Display::new() }
    }

    /// Starts the program `rom` afresh: the machine goes back to its power-on
    /// state with the program copied in from the program start, and the screen
    /// is cleared. A program longer than `MAX_ROM_SIZE` bytes is refused and
    /// changes nothing.
    pub fn load_game(&mut self, rom: &[u8]) -> (r: Result<(), Chip8Error>)
        requires
            old(self).wf(),
        ensures
            final(self).wf(),
            r is Ok <==> rom@.len() <= MAX_ROM_SIZE,
            r is Ok ==> {
                &&& final(self).state.registers_reset()
                &&& final(self)@.memory == with_rom(boot_memory(), rom@)
                &&& final(self)@.screen == blank()
                &&& final(self)@.dirty
                &&& final(self)@.keys == old(self)@.keys
            },
            r is Err ==> r == Err::<(), Chip8Error>(Chip8Error::RomTooLarge { size: rom@.len() as usize })
                && final(self)@ == old(self)@,
    {
        let r = self.state.initialize(rom);
        if r.is_ok() {
            self.display.clear();
        }
        r
    }

    /// Executes an instruction that computes a register from registers and
    /// immediates; `rnd` is the random byte that `CXNN` masks.
    fn exec_alu(&mut self, ins: Instruction, rnd: u8) -> (r: Result<(), Chip8Error>)
        requires
            old(self).wf(),
            ins.wf(),
            old(self).state.pc + 1 < MEMORY_SIZE,
            ins is LoadImmediate || ins is AddImmediate || ins is Move || ins is Or || ins is And
                || ins is Xor || ins is Add || ins is Sub || ins is ShiftRight || ins is SubReversed
                || ins is ShiftLeft || ins is Random,
        ensures
            final(self).wf(),
            outcome(old(self)@, final(self)@, r, exec_spec(old(self)@, ins, rnd)),
    {
        let pc = self.state.pc;
        match ins {
            Instruction::LoadImmediate { x, nn } => {
                self.state.v.set(x as usize, nn);
            },
            Instruction::AddImmediate { x, nn } => {
                let vx = self.state.v[x as usize] as u16;
                self.state.v.set(x as usize, ((vx + nn as u16) % 256) as u8);
            },
            Instruction::Move { x, y } => {
                let vy = self.state.v[y as usize];
                self.state.v.set(x as usize, vy);
            },
            Instruction::Or { x, y } => {
                let val = self.state.v[x as usize] | self.state.v[y as usize];
                self.state.v.set(x as usize, val);
            },
            Instruction::And { x, y } => {
                let val = self.state.v[x as usize] & self.state.v[y as usize];
                self.state.v.set(x as usize, val);
            },
            Instruction::Xor { x, y } => {
                let val = self.state.v[x as usize] ^ self.state.v[y as usize];
                self.state.v.set(x as usize, val);
            },
            Instruction::Add { x, y } => {
                let sum = self.state.v[x as usize] as u16 + self.state.v[y as usize] as u16;
                self.state.v.set(x as usize, (sum % 256) as u8);
                self.state.v.set(FLAG, if sum > 255 { 1 } else { 0 });
            },
            Instruction::Sub { x, y } => {
                let vx = self.state.v[x as usize];
                let vy = self.state.v[y as usize];
                self.state.v.set(x as usize, ((vx as u16 + 256 - vy as u16) % 256) as u8);
                self.state.v.set(FLAG, if vx >= vy { 1 } else { 0 });
            },
            Instruction::ShiftRight { x, .. } => {
                let vx = self.state.v[x as usize];
                self.state.v.set(x as usize, vx / 2);
                self.state.v.set(FLAG, vx % 2);
            },
            Instruction::SubReversed { x, y } => {
                let vx = self.state.v[x as usize];
                let vy = self.state.v[y as usize];
                self.state.v.set(x as usize, ((vy as u16 + 256 - vx as u16) % 256) as u8);
                self.state.v.set(FLAG, if vy >= vx { 1 } else { 0 });
            },
            Instruction::ShiftLeft { x, .. } => {
                let vx = self.state.v[x as usize];
                self.state.v.set(x as usize, ((vx as u16 * 2) % 256) as u8);
                self.state.v.set(FLAG, if vx >= 128 { 1 } else { 0 });
            },
            Instruction::Random { x, nn } => {
                self.state.v.set(x as usize, nn & rnd);
            },
            _ => {
                return Ok(());
            },
        }
        self.state.pc = pc + 2;
        Ok(())
    }

    /// Executes an instruction that sets the index register or moves bytes
    /// between registers and memory.
    fn exec_memory(&mut self, ins: Instruction, rnd: u8) -> (r: Result<(), Chip8Error>)
        requires
            old(self).wf(),
            ins.wf(),
            old(self).state.pc + 1 < MEMORY_SIZE,
            ins is LoadIndex || ins is AddIndex || ins is FontGlyph || ins is StoreBcd
                || ins is StoreRegisters || ins is LoadRegisters,
        ensures
            final(self).wf(),
            outcome(old(self)@, final(self)@, r, exec_spec(old(self)@, ins, rnd)),
    {
        let pc = self.state.pc;
        let i = self.state.i;
        match ins {
            Instruction::LoadIndex { nnn } => {
                self.state.i = nnn;
            },
            Instruction::AddIndex { x } => {
                let vx = self.state.v[x as usize];
                self.state.i = ((i as u32 + vx as u32) % 0x10000) as u16;
            },
            Instruction::FontGlyph { x } => {
                self.state.i = self.state.v[x as usize] as u16 * 5;
            },
            Instruction::StoreBcd { x } => {
                let a = i as usize;
                if a + 2 >= MEMORY_SIZE {
                    return Err(
                        Chip8Error::AddressOutOfRange { address: first_outside(a), pc },
                    );
                }
                let val = self.state.v[x as usize];
                self.state.memory.set(a, val / 100);
                self.state.memory.set(a + 1, (val / 10) % 10);
                self.state.memory.set(a + 2, val % 10);
            },
            Instruction::StoreRegisters { x } => {
                let a = i as usize;
                let last = x as usize;
                if a + last >= MEMORY_SIZE {
                    return Err(
                        Chip8Error::AddressOutOfRange { address: first_outside(a), pc },
                    );
                }
                let ghost m0 = self.state.memory@;
                let mut k: usize = 0;
                while k <= last
                    invariant
                        a == i,
                        a + last < MEMORY_SIZE,
                        last < REGISTER_COUNT,
                        k <= last + 1,
                        self.wf(),
                        self.state.pc == pc,
                        self.state.i == i,
                        self.state.v@ == old(self).state.v@,
                        self.state.stack@ == old(self).state.stack@,
                        self.state.sp == old(self).state.sp,
                        self.state.delay_timer == old(self).state.delay_timer,
                        self.state.sound_timer == old(self).state.sound_timer,
                        self.keypad == old(self).keypad,
                        self.display == old(self).display,
                        m0 == old(self).state.memory@,
                        forall|b: int|
                            0 <= b < MEMORY_SIZE ==> #[trigger] self.state.memory@[b] == if a <= b
                                < a + k {
                                self.state.v@[b - a]
                            } else {
                                m0[b]
                            },
                    decreases last + 1 - k,
                {
                    let val = self.state.v[k];
                    self.state.memory.set(a + k, val);
                    k = k + 1;
                }
                self.state.i = i + x as u16 + 1;
                assert(self.state.memory@ =~= exec_spec(old(self)@, ins, rnd)->Ok_0.memory);
            },
            Instruction::LoadRegisters { x } => {
                let a = i as usize;
                let last = x as usize;
                if a + last >= MEMORY_SIZE {
                    return Err(
                        Chip8Error::AddressOutOfRange { address: first_outside(a), pc },
                    );
                }
                let ghost v0 = self.state.v@;
                let mut k: usize = 0;
                while k <= last
                    invariant
                        a == i,
                        a + last < MEMORY_SIZE,
                        last < REGISTER_COUNT,
                        k <= last + 1,
                        self.wf(),
                        self.state.pc == pc,
                        self.state.i == i,
                        self.state.memory@ == old(self).state.memory@,
                        self.state.stack@ == old(self).state.stack@,
                        self.state.sp == old(self).state.sp,
                        self.state.delay_timer == old(self).state.delay_timer,
                        self.state.sound_timer == old(self).state.sound_timer,
                        self.keypad == old(self).keypad,
                        self.display == old(self).display,
                        v0 == old(self).state.v@,
                        forall|r: int|
                            0 <= r < REGISTER_COUNT ==> #[trigger] self.state.v@[r] == if r < k {
                                self.state.memory@[a + r]
                            } else {
                                v0[r]
                            },
                    decreases last + 1 - k,
                {
                    let val = self.state.memory[a + k];
                    self.state.v.set(k, val);
                    k = k + 1;
                }
                self.state.i = i + x as u16 + 1;
                assert(self.state.v@ =~= exec_spec(old(self)@, ins, rnd)->Ok_0.v);
            },
            _ => {
                return Ok(());
            },
        }
        self.state.pc = pc + 2;
        Ok(())
    }

    /// Executes an instruction on the timers, or the wait for a key.
    fn exec_timers(&mut self, ins: Instruction, rnd: u8) -> (r: Result<(), Chip8Error>)
        requires
            old(self).wf(),
            ins.wf(),
            old(self).state.pc + 1 < MEMORY_SIZE,
            ins is GetDelay || ins is WaitKey || ins is SetDelay || ins is SetSound,
        ensures
            final(self).wf(),
            outcome(old(self)@, final(self)@, r, exec_spec(old(self)@, ins, rnd)),
    {
        let pc = self.state.pc;
        match ins {
            Instruction::GetDelay { x } => {
                let t = self.state.delay_timer;
                self.state.v.set(x as usize, t);
            },
            Instruction::WaitKey { x } => {
                match self.first_key_down() {
                    Some(k) => {
                        self.state.v.set(x as usize, k);
                    },
                    None => {
                        return Ok(());
                    },
                }
            },
            Instruction::SetDelay { x } => {
                self.state.delay_timer = self.state.v[x as usize];
            },
            Instruction::SetSound { x } => {
                self.state.sound_timer = self.state.v[x as usize];
            },
            _ => {
                return Ok(());
            },
        }
        self.state.pc = pc + 2;
        Ok(())
    }

    /// The lowest key that is down, if any.
    fn first_key_down(&self) -> (r: Option<u8>)
        requires
            self.wf(),
        ensures
            r == first_key_from(self@.keys, 0),
    {
        let mut k: u8 = 0;
        while k < 16
            invariant
                k <= 16,
                self.wf(),
                first_key_from(self@.keys, 0) == first_key_from(self@.keys, k as int),
            decreases 16 - k,
        {
            if self.keypad.pressed(k as usize) {
                return Some(k);
            }
            k = k + 1;
        }
        None
    }

    /// Executes `DXYN`: draws the `n` bytes from `I` on as a sprite at
    /// `(VX, VY)` and sets `VF` to the collision flag.
    fn exec_draw(&mut self, ins: Instruction, rnd: u8) -> (r: Result<(), Chip8Error>)
        requires
            old(self).wf(),
            ins.wf(),
            old(self).state.pc + 1 < MEMORY_SIZE,
            ins is Draw,
        ensures
            final(self).wf(),
            outcome(old(self)@, final(self)@, r, exec_spec(old(self)@, ins, rnd)),
    {
        let pc = self.state.pc;
        if let Instruction::Draw { x, y, n } = ins {
            let a = self.state.i as usize;
            let len = n as usize;
            if len > 0 && a + len > MEMORY_SIZE {
                return Err(Chip8Error::AddressOutOfRange { address: first_outside(a), pc });
            }
            let mut sprite: Vec<u8> = Vec::new();
            let mut k: usize = 0;
            while k < len
                invariant
                    k <= len,
                    len == n,
                    a == self.state.i,
                    len == 0 || a + len <= MEMORY_SIZE,
                    self.wf(),
                    sprite@ =~= Seq::new(k as nat, |j: int| self.state.memory@[a + j]),
                decreases len - k,
            {
                sprite.push(self.state.memory[a + k]);
                k = k + 1;
            }
            let vx = self.state.v[x as usize];
            let vy = self.state.v[y as usize];
            let hit = self.display.draw(vx as usize, vy as usize, sprite.as_slice());
            self.state.v.set(FLAG, if hit { 1 } else { 0 });
            self.state.pc = pc + 2;
        }
        Ok(())
    }

    /// The 16-bit word stored big-endian at the program counter.
    fn fetch_opcode(&self) -> (op: u16)
        requires
            self.wf(),
            self.state.pc + 1 < MEMORY_SIZE,
        ensures
            op == self@.word_at(self.state.pc as int),
    {
        let pc = self.state.pc as usize;
        (self.state.memory[pc] as u16) * 0x100 + self.state.memory[pc + 1] as u16
    }

    /// Runs one instruction: fetches the word at the program counter, decodes
    /// it and executes it, with `rnd` as the random byte for `CXNN`. On failure
    /// nothing changes.
    pub fn step_with(&mut self, rnd: u8) -> (r: Result<(), Chip8Error>)
        requires
            old(self).wf(),
        ensures
            final(self).wf(),
            outcome(old(self)@, final(self)@, r, step_spec(old(self)@, rnd)),
    {
        let pc = self.state.pc;
        if pc as usize + 1 >= MEMORY_SIZE {
            return Err(
                Chip8Error::AddressOutOfRange { address: first_outside(pc as usize), pc },
            );
        }
        let op = self.fetch_opcode();
        match decode(op) {
            None => Err(Chip8Error::UnknownOpcode { opcode: op, pc }),
            Some(ins) => self.execute(ins, rnd),
        }
    }

    /// Runs one instruction, drawing a fresh random byte for `CXNN`. On failure
    /// nothing changes.
    pub fn step(&mut self) -> (r: Result<(), Chip8Error>)
        requires
            old(self).wf(),
        ensures
            final(self).wf(),
            exists|rnd: u8| outcome(old(self)@, final(self)@, r, step_spec(old(self)@, rnd)),
    {
        let rnd = random_byte();
        self.step_with(rnd)
    }

    /// One tick of the timers, at their own fixed rate: each counts down by one
    /// unless already at zero. Returns whether the buzzer stops on this tick,
    /// the sound timer going from 1 to 0.
    pub fn tick_timers(&mut self) -> (beep: bool)
        requires
            old(self).wf(),
        ensures
            final(self).wf(),
            final(self)@ == tick_spec(old(self)@),
            beep == (old(self)@.sound_timer == 1),
    {
        if self.state.delay_timer > 0 {
            self.state.delay_timer = self.state.delay_timer - 1;
        }
        let beep = self.state.sound_timer == 1;
        if self.state.sound_timer > 0 {
            self.state.sound_timer = self.state.sound_timer - 1;
        }
        beep
    }

    /// One instruction followed by one tick of the timers. Returns whether the
    /// buzzer stopped on that tick; on failure nothing changes.
    pub fn emulate_cycle(&mut self) -> (r: Result<bool, Chip8Error>)
        requires
            old(self).wf(),
        ensures
            final(self).wf(),
            exists|rnd: u8| cycle_outcome(old(self)@, final(self)@, r, rnd),
    {
        let rnd = random_byte();
        let r = match self.step_with(rnd) {
            Ok(()) => Ok(self.tick_timers()),
            Err(e) => Err(e),
        };
        assert(cycle_outcome(old(self)@, self@, r, rnd));
        r
    }

    /// Executes the instruction `ins`; `rnd` is the random byte that `CXNN`
    /// masks. On failure nothing changes.
    pub fn execute(&mut self, ins: Instruction, rnd: u8) -> (r: Result<(), Chip8Error>)
        requires
            old(self).wf(),
            ins.wf(),
            old(self).state.pc + 1 < MEMORY_SIZE,
        ensures
            final(self).wf(),
            outcome(old(self)@, final(self)@, r, exec_spec(old(self)@, ins, rnd)),
    {
        match ins {
            Instruction::ClearScreen | Instruction::Return | Instruction::Jump { .. }
            | Instruction::Call { .. } | Instruction::JumpOffset { .. }
            | Instruction::SkipIfEqual { .. } | Instruction::SkipIfNotEqual { .. }
            | Instruction::SkipIfRegsEqual { .. } | Instruction::SkipIfRegsNotEqual { .. }
            | Instruction::SkipIfKey { .. } | Instruction::SkipIfNotKey { .. } => self.exec_flow(
                ins,
                rnd,
            ),
            Instruction::LoadImmediate { .. } | Instruction::AddImmediate { .. }
            | Instruction::Move { .. } | Instruction::Or { .. } | Instruction::And { .. }
            | Instruction::Xor { .. } | Instruction::Add { .. } | Instruction::Sub { .. }
            | Instruction::ShiftRight { .. } | Instruction::SubReversed { .. }
            | Instruction::ShiftLeft { .. } | Instruction::Random { .. } => self.exec_alu(ins, rnd),
            Instruction::LoadIndex { .. } | Instruction::AddIndex { .. }
            | Instruction::FontGlyph { .. } | Instruction::StoreBcd { .. }
            | Instruction::StoreRegisters { .. } | Instruction::LoadRegisters { .. } => self.exec_memory(
                ins,
                rnd,
            ),
            Instruction::GetDelay { .. } | Instruction::WaitKey { .. } | Instruction::SetDelay { .. }
            | Instruction::SetSound { .. } => self.exec_timers(ins, rnd),
            Instruction::Draw { .. } => self.exec_draw(ins, rnd),
        }
    }

    /// Executes a jump, call, return, skip or screen clear.
    fn exec_flow(&mut self, ins: Instruction, rnd: u8) -> (r: Result<(), Chip8Error>)
        requires
            old(self).wf(),
            ins.wf(),
            old(self).state.pc + 1 < MEMORY_SIZE,
            ins is ClearScreen || ins is Return || ins is Jump || ins is Call || ins is JumpOffset
                || ins is SkipIfEqual || ins is SkipIfNotEqual || ins is SkipIfRegsEqual
                || ins is SkipIfRegsNotEqual || ins is SkipIfKey || ins is SkipIfNotKey,
        ensures
            final(self).wf(),
            outcome(old(self)@, final(self)@, r, exec_spec(old(self)@, ins, rnd)),
    {
        let pc = self.state.pc;
        let cond: bool;
        match ins {
            Instruction::ClearScreen => {
                self.display.clear();
                self.state.pc = pc + 2;
                return Ok(());
            },
            Instruction::Return => {
                if self.state.sp == 0 {
                    return Err(Chip8Error::StackUnderflow { sp: 0, pc });
                }
                self.state.sp = self.state.sp - 1;
                self.state.pc = self.state.stack[self.state.sp];
                return Ok(());
            },
            Instruction::Jump { nnn } => {
                self.state.pc = nnn;
                return Ok(());
            },
            Instruction::Call { nnn } => {
                let sp = self.state.sp;
                if sp >= STACK_DEPTH {
                    return Err(Chip8Error::StackOverflow { sp, pc });
                }
                self.state.stack.set(sp, pc + 2);
                self.state.sp = sp + 1;
                self.state.pc = nnn;
                return Ok(());
            },
            Instruction::JumpOffset { nnn } => {
                self.state.pc = self.state.v[0] as u16 + nnn;
                return Ok(());
            },
            Instruction::SkipIfEqual { x, nn } => {
                cond = self.state.v[x as usize] == nn;
            },
            Instruction::SkipIfNotEqual { x, nn } => {
                cond = self.state.v[x as usize] != nn;
            },
            Instruction::SkipIfRegsEqual { x, y } => {
                cond = self.state.v[x as usize] == self.state.v[y as usize];
            },
            Instruction::SkipIfRegsNotEqual { x, y } => {
                cond = self.state.v[x as usize] != self.state.v[y as usize];
            },
            Instruction::SkipIfKey { x } => {
                let k = self.state.v[x as usize];
                cond = (k as usize) < KEY_COUNT && self.keypad.pressed(k as usize);
            },
            Instruction::SkipIfNotKey { x } => {
                let k = self.state.v[x as usize];
                cond = !((k as usize) < KEY_COUNT && self.keypad.pressed(k as usize));
            },
            _ => {
                return Ok(());
            },
        }
        self.state.pc = if cond {
            pc + 4
        } else {
            pc + 2
        };
        Ok(())
    }
}

} // verus!

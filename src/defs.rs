use vstd::prelude::*;

use crate::error::Chip8Error;

verus! {

/// Bytes of memory.
pub const MEMORY_SIZE: usize = 4096;

/// Address at which programs are loaded and execution starts.
pub const PROGRAM_START: usize = 0x200;

/// Largest program that fits in memory.
pub const MAX_ROM_SIZE: usize = MEMORY_SIZE - PROGRAM_START;

/// General registers `V0` to `VF`.
pub const REGISTER_COUNT: usize = 16;

/// Return addresses the call stack can hold.
pub const STACK_DEPTH: usize = 16;

/// Bytes of the built-in font: sixteen glyphs of five bytes.
pub const FONT_SIZE: usize = 80;

/// The glyphs of the hexadecimal digits `0` to `F`, five rows of four pixels each.
pub open spec fn font() -> Seq<u8> {
    seq![
        0xF0u8, 0x90, 0x90, 0x90, 0xF0, // 0
        0x20, 0x60, 0x20, 0x20, 0x70, // 1
        0xF0, 0x10, 0xF0, 0x80, 0xF0, // 2
        0xF0, 0x10, 0xF0, 0x10, 0xF0, // 3
        0x90, 0x90, 0xF0, 0x10, 0x10, // 4
        0xF0, 0x80, 0xF0, 0x10, 0xF0, // 5
        0xF0, 0x80, 0xF0, 0x90, 0xF0, // 6
        0xF0, 0x10, 0x20, 0x40, 0x40, // 7
        0xF0, 0x90, 0xF0, 0x90, 0xF0, // 8
        0xF0, 0x90, 0xF0, 0x10, 0xF0, // 9
        0xF0, 0x90, 0xF0, 0x90, 0x90, // A
        0xE0, 0x90, 0xE0, 0x90, 0xE0, // B
        0xF0, 0x80, 0x80, 0x80, 0xF0, // C
        0xE0, 0x90, 0x90, 0x90, 0xE0, // D
        0xF0, 0x80, 0xF0, 0x80, 0xF0, // E
        0xF0, 0x80, 0xF0, 0x80, 0x80, // F
    ]
}

/// The font table as bytes.
pub fn fontset() -> (r: Vec<u8>)
    ensures
        r@ == font(),
{
    let r = vec![
        0xF0u8, 0x90, 0x90, 0x90, 0xF0, // 0
        0x20, 0x60, 0x20, 0x20, 0x70, // 1
        0xF0, 0x10, 0xF0, 0x80, 0xF0, // 2
        0xF0, 0x10, 0xF0, 0x10, 0xF0, // 3
        0x90, 0x90, 0xF0, 0x10, 0x10, // 4
        0xF0, 0x80, 0xF0, 0x10, 0xF0, // 5
        0xF0, 0x80, 0xF0, 0x90, 0xF0, // 6
        0xF0, 0x10, 0x20, 0x40, 0x40, // 7
        0xF0, 0x90, 0xF0, 0x90, 0xF0, // 8
        0xF0, 0x90, 0xF0, 0x10, 0xF0, // 9
        0xF0, 0x90, 0xF0, 0x90, 0x90, // A
        0xE0, 0x90, 0xE0, 0x90, 0xE0, // B
        0xF0, 0x80, 0x80, 0x80, 0xF0, // C
        0xE0, 0x90, 0x90, 0x90, 0xE0, // D
        0xF0, 0x80, 0xF0, 0x80, 0xF0, // E
        0xF0, 0x80, 0xF0, 0x80, 0x80, // F
    ];
    assert(r@ =~= font());
    r
}

/// Memory as it is at power-on: the font at address 0, zeros elsewhere.
pub open spec fn boot_memory() -> Seq<u8> {
    Seq::new(MEMORY_SIZE as nat, |a: int| if a < FONT_SIZE { font()[a] } else { 0u8 })
}

/// `mem` with the program `rom` copied in from the program start.
pub open spec fn with_rom(mem: Seq<u8>, rom: Seq<u8>) -> Seq<u8> {
    Seq::new(
        mem.len(),
        |a: int|
            if PROGRAM_START <= a < PROGRAM_START + rom.len() {
                rom[a - PROGRAM_START]
            } else {
                mem[a]
            },
    )
}

/// The registers and memory of a CHIP-8 machine.
#[derive(Debug)]
pub struct Chip8 {
    /// 4 KiB of memory: the font below the program start, the program and work
    /// RAM from there on.
    pub memory: Vec<u8>,
    /// Registers `V0` to `VF`; `VF` doubles as carry, borrow and collision flag.
    pub v: Vec<u8>,
    /// The index register.
    pub i: u16,
    /// The program counter.
    pub pc: u16,
    /// Return addresses of the calls in progress; the first `sp` are in use.
    pub stack: Vec<u16>,
    /// Number of return addresses on the stack.
    pub sp: usize,
    /// Counts down to zero at the timer rate.
    pub delay_timer: u8,
    /// Counts down to zero at the timer rate; the buzzer sounds while it is
    /// above zero.
    pub sound_timer: u8,
}

impl Chip8 {
    pub open spec fn wf(&self) -> bool {
        &&& self.memory@.len() == MEMORY_SIZE
        &&& self.v@.len() == REGISTER_COUNT
        &&& self.stack@.len() == STACK_DEPTH
        &&& self.sp <= STACK_DEPTH
    }

    /// Everything but memory as at power-on.
    pub open spec fn registers_reset(&self) -> bool {
        &&& self.v@ == Seq::new(REGISTER_COUNT as nat, |k: int| 0u8)
        &&& self.i == 0
        &&& self.pc == PROGRAM_START
        &&& self.stack@ == Seq::new(STACK_DEPTH as nat, |k: int| 0u16)
        &&& self.sp == 0
        &&& self.delay_timer == 0
        &&& self.sound_timer == 0
    }

    /// The state at power-on.
    pub open spec fn is_reset(&self) -> bool {
        &&& self.wf()
        &&& self.registers_reset()
        &&& self.memory@ == boot_memory()
    }

    /// Everything but memory is the same in `self` and `o`.
    pub open spec fn same_registers(&self, o: &Chip8) -> bool {
        &&& self.v@ == o.v@
        &&& self.i == o.i
        &&& self.pc == o.pc
        &&& self.stack@ == o.stack@
        &&& self.sp == o.sp
        &&& self.delay_timer == o.delay_timer
        &&& self.sound_timer == o.sound_timer
    }

    /// A machine at power-on: memory holds the font and nothing else, every
    /// register is zero and execution starts at the program start.
    pub fn new() -> (r: Chip8)
        ensures
            r.is_reset(),
    {
        let mut r = Chip8 {
            memory: vec![0u8; MEMORY_SIZE],
            v: vec![0u8; REGISTER_COUNT],
            i: 0,
            pc: 0,
            stack: vec![0u16; STACK_DEPTH],
            sp: 0,
            delay_timer: 0,
            sound_timer: 0,
        };
        r.reset();
        r
    }

    /// Puts the machine back in its power-on state.
    pub fn reset(&mut self)
        ensures
            final(self).is_reset(),
    {
        let glyphs = fontset();
        let mut memory = vec![0u8; MEMORY_SIZE];
        let mut a: usize = 0;
        while a < FONT_SIZE
            invariant
                a <= FONT_SIZE,
                glyphs@ == font(),
                memory@.len() == MEMORY_SIZE,
                forall|b: int| 0 <= b < MEMORY_SIZE ==> #[trigger] memory@[b] == if b < a {
                    font()[b]
                } else {
                    0u8
                },
            decreases FONT_SIZE - a,
        {
            memory.set(a, glyphs[a]);
            a = a + 1;
        }
        self.memory = memory;
        self.v = vec![0u8; REGISTER_COUNT];
        self.i = 0;
        self.pc = PROGRAM_START as u16;
        self.stack = vec![0u16; STACK_DEPTH];
        self.sp = 0;
        self.delay_timer = 0;
        self.sound_timer = 0;
        assert(self.memory@ =~= boot_memory());
        assert(self.v@ =~= Seq::new(REGISTER_COUNT as nat, |k: int| 0u8));
        assert(self.stack@ =~= Seq::new(STACK_DEPTH as nat, |k: int| 0u16));
    }

    /// Copies the program `rom` into memory from the program start; the rest of
    /// memory and the registers stay as they are. A program longer than
    /// `MAX_ROM_SIZE` bytes is refused and changes nothing.
    pub fn load_rom(&mut self, rom: &[u8]) -> (r: Result<(), Chip8Error>)
        requires
            old(self).wf(),
        ensures
            final(self).wf(),
            r is Ok <==> rom@.len() <= MAX_ROM_SIZE,
            r is Ok ==> final(self).memory@ == with_rom(old(self).memory@, rom@)
                && final(self).same_registers(old(self)),
            r is Err ==> r == Err::<(), Chip8Error>(Chip8Error::RomTooLarge { size: rom@.len() as usize })
                && *final(self) == *old(self),
    {
        let n = rom.len();
        if n > MAX_ROM_SIZE {
            return Err(Chip8Error::RomTooLarge { size: n });
        }
        let ghost m0 = self.memory@;
        let mut k: usize = 0;
        while k < n
            invariant
                k <= n,
                n == rom@.len(),
                n <= MAX_ROM_SIZE,
                m0 == old(self).memory@,
                self.wf(),
                self.same_registers(old(self)),
                forall|a: int|
                    0 <= a < MEMORY_SIZE ==> #[trigger] self.memory@[a] == if PROGRAM_START <= a
                        < PROGRAM_START + k {
                        rom@[a - PROGRAM_START]
                    } else {
                        m0[a]
                    },
            decreases n - k,
        {
            self.memory.set(PROGRAM_START + k, rom[k]);
            k = k + 1;
        }
        assert(self.memory@ =~= with_rom(m0, rom@));
        Ok(())
    }

    /// Starts the machine afresh on the program `rom`: the power-on state with
    /// the program copied in from the program start. A program longer than
    /// `MAX_ROM_SIZE` bytes is refused and changes nothing.
    pub fn initialize(&mut self, rom: &[u8]) -> (r: Result<(), Chip8Error>)
        requires
            old(self).wf(),
        ensures
            final(self).wf(),
            r is Ok <==> rom@.len() <= MAX_ROM_SIZE,
            r is Ok ==> final(self).registers_reset() && final(self).memory@ == with_rom(
                boot_memory(),
                rom@,
            ),
            r is Err ==> r == Err::<(), Chip8Error>(Chip8Error::RomTooLarge { size: rom@.len() as usize })
                && *final(self) == *old(self),
    {
        if rom.len() > MAX_ROM_SIZE {
            return Err(Chip8Error::RomTooLarge { size: rom.len() });
        }
        self.reset();
        self.load_rom(rom)
    }
}

} // verus!

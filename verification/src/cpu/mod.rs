//! The instruction engine: registers, memory, stack, timers and keypad, and
//! the fetch, decode and execute cycle that changes them and the video
//! memory.

mod access;
pub mod data;
pub mod describe;
pub mod draw;
pub mod draw_laws;
pub mod laws;
pub mod error;
pub mod model;
mod memory;
mod opcodes;
mod random;
pub mod state;

pub use error::Error;
pub use error::RomError;
pub use model::CpuView;
pub use state::CpuState;

use crate::video_memory::VideoMemory;
use crate::video_memory::VideoMode;
use data::BOOTROM;
use data::FONTSET;
use data::FONTSET_START;
use data::FONTSET_SUPER;
use data::FONTSET_SUPER_START;
use describe::describe_opcode;
use describe::hex;
use describe::hex_digit;
use model::first_pressed;
use model::first_pressed_from;
use random::random_byte;
use vstd::string::*;
use memory::copy_bytes;
use model::MEMORY_SIZE;
use model::PC_INITIAL;
use model::PC_LIMIT;
use vstd::prelude::*;

verus! {

/// A condition on which a debugger stops the machine.
pub enum Breakpoint {
    /// The program counter has this value.
    PC(u16),
    /// The index register has this value.
    I(u16),
    /// The next opcode, as four upper-case hexadecimal digits, matches this
    /// pattern of four characters, in which `*` stands for any digit.
    Opcode(String),
}

/// Whether `pattern` has four characters, each `*` or the hexadecimal digit
/// of `opcode` at its place.
pub open spec fn pattern_matches(pattern: Seq<char>, opcode: u16) -> bool {
    &&& pattern.len() == 4
    &&& forall|k: int|
        0 <= k < 4 ==> pattern[k] == '*' || pattern[k] == #[trigger] hex(opcode as int, 4)[k]
}

/// The big-endian word made of `hi` and `lo`.
fn word(hi: u8, lo: u8) -> (w: u16)
    ensures
        w == hi * 0x100 + lo,
{
    assert((hi as u16) << 8u16 | (lo as u16) == hi * 0x100 + lo) by (bit_vector);
    (hi as u16) << 8u16 | (lo as u16)
}

/// The lowest pressed key, or 16 if none is pressed.
fn lowest_pressed(keys: &[bool; 16]) -> (key: usize)
    ensures
        key == first_pressed(keys@),
        key <= 16,
{
    let mut i: usize = 0;
    while i < 16
        invariant
            i <= 16,
            first_pressed_from(keys@, i as int) == first_pressed(keys@),
        decreases 16 - i,
    {
        if keys[i] {
            return i;
        }
        i += 1;
    }
    i
}


/// The machine: main memory, video memory, registers, call stack, timers,
/// keypad, the current and the prefetched instruction, and the quirks.
#[allow(non_snake_case)]
pub struct CPU {
    mem: Vec<u8>,
    vmem: VideoMemory,
    stack: [u16; 16],
    keys: [bool; 16],
    audio_buffer: Option<[u8; 16]>,
    PC: u16,
    V: [u8; 16],
    I: u16,
    DT: u8,
    ST: u8,
    RPL: [u8; 8],
    opcode: u16,
    opcode_description: String,
    next_opcode: u16,
    next_opcode_description: String,
    next_opcode_ext: u16,
    sp: usize,
    draw: bool,
    key_wait: bool,
    key_reg: usize,
    quirk_load_store: bool,
    quirk_shift: bool,
    quirk_jump: bool,
    quirk_vf_order: bool,
    // With the draw quirk a sprite of height 0 is 16x16 in every mode; without
    // it only in extended mode, and 8x16 elsewhere.
    quirk_draw: bool,
    vertical_wrapping: bool,
}

impl View for CPU {
    type V = CpuView;

    closed spec fn view(&self) -> CpuView {
        CpuView {
            mem: self.mem@,
            vmem: self.vmem@,
            stack: self.stack@,
            keys: self.keys@,
            audio_buffer: match self.audio_buffer {
                Some(buffer) => Some(buffer@),
                None => None,
            },
            pc: self.PC,
            v: self.V@,
            i: self.I,
            dt: self.DT,
            st: self.ST,
            rpl: self.RPL@,
            opcode: self.opcode,
            opcode_description: self.opcode_description@,
            next_opcode: self.next_opcode,
            next_opcode_description: self.next_opcode_description@,
            next_opcode_ext: self.next_opcode_ext,
            sp: self.sp,
            draw: self.draw,
            key_wait: self.key_wait,
            key_reg: self.key_reg,
            quirk_load_store: self.quirk_load_store,
            quirk_shift: self.quirk_shift,
            quirk_jump: self.quirk_jump,
            quirk_vf_order: self.quirk_vf_order,
            quirk_draw: self.quirk_draw,
            vertical_wrapping: self.vertical_wrapping,
        }
    }
}

impl CPU {
    /// Holds of every `CPU`: its model is well-formed.
    #[verifier::type_invariant]
    pub open spec fn wf(&self) -> bool {
        self@.wf()
    }

    /// A machine with the fonts in memory and nothing else.
    pub fn new() -> (cpu: Self)
        ensures
            cpu@ == CpuView::initial(),
    {
        let mut mem: Vec<u8> = vec![0u8; 0x10000];
        assert(mem@ =~= Seq::new(MEMORY_SIZE as nat, |k: int| 0u8));
        copy_bytes(&mut mem, FONTSET_START, &FONTSET, 0, 80);
        assert(FONTSET@.subrange(0, 80) =~= FONTSET@);
        copy_bytes(&mut mem, FONTSET_SUPER_START, &FONTSET_SUPER, 0, 100);
        assert(FONTSET_SUPER@.subrange(0, 100) =~= FONTSET_SUPER@);
        let cpu = Self {
            mem,
            vmem: VideoMemory::new(),
            stack: [0; 16],
            keys: [false; 16],
            audio_buffer: None,
            PC: PC_INITIAL,
            V: [0; 16],
            I: 0,
            DT: 0,
            ST: 0,
            RPL: [0; 8],
            opcode: 0,
            opcode_description: String::new(),
            next_opcode: 0,
            next_opcode_description: String::new(),
            next_opcode_ext: 0,
            sp: 0,
            draw: false,
            key_wait: false,
            key_reg: 0,
            quirk_load_store: true,
            quirk_shift: true,
            quirk_draw: true,
            quirk_jump: true,
            quirk_vf_order: true,
            vertical_wrapping: true,
        };
        assert(cpu.stack@ =~= Seq::new(16, |k: int| 0u16));
        assert(cpu.keys@ =~= Seq::new(16, |k: int| false));
        assert(cpu.V@ =~= Seq::new(16, |k: int| 0u8));
        assert(cpu.RPL@ =~= Seq::new(8, |k: int| 0u8));
        cpu
    }

    /// Loads the bootstrap program.
    pub fn load_bootrom(&mut self)
        ensures
            final(self)@ == old(self)@.loaded(BOOTROM@),
    {
        self.install(&BOOTROM);
    }

    /// Loads `rom` where it fits in memory.
    fn install(&mut self, rom: &[u8])
        requires
            rom@.len() <= MEMORY_SIZE - PC_INITIAL,
        ensures
            final(self)@ == old(self)@.loaded(rom@),
    {
        proof {
            use_type_invariant(&*self);
        }
        self.vmem.set_video_mode(VideoMode::Default);
        copy_bytes(&mut self.mem, 0x200, rom, 0, rom.len());
        self.PC = PC_INITIAL;
        assert(rom@.subrange(0, rom@.len() as int) =~= rom@);
        assert(self@.pc == PC_INITIAL);
        self.fetch();
    }

    /// Loads the program `prog` at `PC_INITIAL` and makes it ready to run.
    /// A program that does not fit in memory is refused, and the bootstrap
    /// program loaded in its place.
    pub fn load_rom(&mut self, prog: &[u8]) -> (res: Result<(), RomError>)
        ensures
            prog@.len() <= MEMORY_SIZE - PC_INITIAL ==> res == Ok::<(), RomError>(())
                && final(self)@ == old(self)@.loaded(prog@),
            prog@.len() > MEMORY_SIZE - PC_INITIAL ==> res == Err::<(), RomError>(
                RomError::RomTooLarge,
            ) && final(self)@ == old(self)@.loaded(BOOTROM@),
    {
        if prog.len() <= MEMORY_SIZE - 0x200 {
            self.install(prog);
            Ok(())
        } else {
            self.load_bootrom();
            Err(RomError::RomTooLarge)
        }
    }

    /// Counts both timers down by one, stopping at zero.
    pub fn update_timers(&mut self)
        ensures
            final(self)@ == old(self)@.timers_updated(),
    {
        proof {
            use_type_invariant(&*self);
        }
        if self.DT > 0 {
            self.DT -= 1;
        }
        if self.ST > 0 {
            self.ST -= 1;
        }
        assert(self@.dt == old(self)@.timers_updated().dt);
    }

    /// Takes `keys` as the state of the keypad.
    fn set_keys(&mut self, keys: &[bool; 16])
        ensures
            final(self)@ == (CpuView { keys: keys@, ..old(self)@ }),
    {
        proof {
            use_type_invariant(&*self);
        }
        self.keys = *keys;
        assert(self@.keys == keys@);
    }

    /// Ends the wait for a key with `key` in the waiting register.
    fn take_key(&mut self, key: usize)
        requires
            key < 16,
        ensures
            final(self)@ == (CpuView { key_wait: false, ..old(self)@ }).with_v(
                old(self)@.key_reg as int,
                key as u8,
            ),
    {
        proof {
            use_type_invariant(&*self);
        }
        self.key_wait = false;
        assert(!self@.key_wait);
        self.V[self.key_reg] = key as u8;
    }

    /// One tick with the random byte given: the keypad takes the state
    /// `keys`; a machine that waits for a key takes the lowest pressed key
    /// and runs no instruction, any other machine runs one instruction, for
    /// which `random` is the byte that `CXNN` draws.
    pub fn tick_with(&mut self, keys: &[bool; 16], random: u8) -> (res: Result<(), Error>)
        ensures
            (final(self)@, res) == old(self)@.tick(keys@, random),
    {
        self.set_keys(keys);
        if self.key_wait {
            let key = lowest_pressed(keys);
            if key < 16 {
                self.take_key(key);
            }
            Ok(())
        } else {
            self.emulate_cycle_with(random)
        }
    }

    /// One tick: as `tick_with`, with a random byte drawn where the
    /// instruction asks for one.
    pub fn tick(&mut self, keys: &[bool; 16]) -> (res: Result<(), Error>)
        ensures
            exists|random: u8| (final(self)@, res) == old(self)@.tick(keys@, random),
            !old(self)@.tick_draws_random() ==> (final(self)@, res) == old(self)@.tick(keys@, 0),
    {
        let random = if !self.key_wait && self.draws_random() {
            random_byte()
        } else {
            0
        };
        let res = self.tick_with(keys, random);
        assert((self@, res) == old(self)@.tick(keys@, random));
        res
    }

    /// Whether the next cycle runs `CXNN`.
    fn draws_random(&self) -> (r: bool)
        ensures
            r == self@.draws_random(),
    {
        self.PC < PC_LIMIT && self.next_opcode / 0x1000 == 0xC
    }

    /// Whether the machine has reached `breakpoint`.
    pub fn check_breakpoint(&self, breakpoint: Breakpoint) -> (r: bool)
        ensures
            r == match breakpoint {
                Breakpoint::PC(val) => self@.pc == val,
                Breakpoint::I(val) => self@.i == val,
                Breakpoint::Opcode(pattern) => pattern_matches(pattern@, self@.next_opcode),
            },
    {
        match breakpoint {
            Breakpoint::PC(val) => self.PC == val,
            Breakpoint::I(val) => self.I == val,
            Breakpoint::Opcode(pattern) => {
                let text = pattern.as_str();
                if text.unicode_len() != 4 {
                    false
                } else {
                    let opcode = self.next_opcode;
                    let d0 = hex_digit((opcode / 0x1000 % 16) as u8);
                    let d1 = hex_digit((opcode / 0x100 % 16) as u8);
                    let d2 = hex_digit((opcode / 0x10 % 16) as u8);
                    let d3 = hex_digit((opcode % 16) as u8);
                    let c0 = text.get_char(0);
                    let c1 = text.get_char(1);
                    let c2 = text.get_char(2);
                    let c3 = text.get_char(3);
                    proof {
                        reveal_with_fuel(hex, 5);
                        let digits = hex(opcode as int, 4);
                        assert(digits[0] == d0 && digits[1] == d1 && digits[2] == d2 && digits[3]
                            == d3);
                    }
                    (c0 == '*' || c0 == d0) && (c1 == '*' || c1 == d1) && (c2 == '*' || c2 == d2)
                        && (c3 == '*' || c3 == d3)
                }
            },
        }
    }

    /// Whether no instruction can be fetched at the program counter.
    fn fetch_overflows(&self) -> (r: bool)
        ensures
            r == self@.fetch_overflows(),
    {
        proof {
            use_type_invariant(self);
        }
        self.PC >= PC_LIMIT || (self.PC == PC_LIMIT - 1 && word(self.mem[0xFFFD], self.mem[0xFFFE])
            == 0xF000)
    }

    /// Takes `opcode` as the next instruction and `ext` as the word behind
    /// it.
    fn set_next_opcode(&mut self, opcode: u16, ext: u16)
        ensures
            final(self)@ == (CpuView { next_opcode: opcode, next_opcode_ext: ext, ..old(self)@ }),
    {
        proof {
            use_type_invariant(&*self);
        }
        self.next_opcode = opcode;
        self.next_opcode_ext = ext;
        assert(self@.next_opcode == opcode && self@.next_opcode_ext == ext);
    }

    /// Describes the next instruction.
    fn describe_next_opcode(&mut self)
        ensures
            final(self)@ == (CpuView {
                next_opcode_description: old(self)@.description(),
                ..old(self)@
            }),
    {
        proof {
            use_type_invariant(&*self);
        }
        let description = self.get_next_opcode_description();
        self.next_opcode_description = description;
        assert(self@.next_opcode_description == description@);
    }

    /// Takes the instruction at the program counter as the next one.
    fn fetch(&mut self)
        requires
            !old(self)@.fetch_overflows(),
        ensures
            final(self)@ == old(self)@.fetched(),
    {
        proof {
            use_type_invariant(&*self);
        }
        let pc = self.PC as usize;
        let opcode = word(self.mem[pc], self.mem[pc + 1]);
        let ext = if opcode == 0xF000 {
            word(self.mem[pc + 2], self.mem[pc + 3])
        } else {
            self.next_opcode_ext
        };
        self.set_next_opcode(opcode, ext);
        self.describe_next_opcode();
    }

    /// Fetches the instruction at the program counter. Where the program
    /// counter has left memory the bootstrap program is loaded instead.
    pub fn prefetch_next_opcode(&mut self) -> (res: Result<(), Error>)
        ensures
            (final(self)@, res) == old(self)@.prefetch(),
    {
        if self.fetch_overflows() {
            self.load_bootrom();
            return Err(Error::ProgramCounterOverflow);
        }
        self.fetch();
        Ok(())
    }

    /// Makes the prefetched instruction the current one.
    fn promote(&mut self)
        ensures
            final(self)@ == old(self)@.promoted(),
    {
        proof {
            use_type_invariant(&*self);
        }
        self.opcode = self.next_opcode;
        let description = self.next_opcode_description.clone();
        self.opcode_description = description;
        assert(self@.opcode == old(self)@.next_opcode);
    }

    /// One instruction cycle with the random byte given.
    pub fn emulate_cycle_with(&mut self, random: u8) -> (res: Result<(), Error>)
        ensures
            (final(self)@, res) == old(self)@.cycle(random),
    {
        // Fetch opcode
        self.promote();
        if self.PC >= PC_LIMIT {
            self.load_bootrom();
            return Err(Error::ProgramCounterOverflow);
        }
        // Decode and execute opcode
        let executed = self.execute(random);
        // Fetch next opcode
        match executed {
            Ok(()) => self.prefetch_next_opcode(),
            Err(e) => Err(e),
        }
    }

    /// One instruction cycle, with a random byte drawn where the
    /// instruction asks for one.
    pub fn emulate_cycle(&mut self) -> (res: Result<(), Error>)
        ensures
            exists|random: u8| (final(self)@, res) == old(self)@.cycle(random),
            !old(self)@.draws_random() ==> (final(self)@, res) == old(self)@.cycle(0),
    {
        let random = if self.draws_random() {
            random_byte()
        } else {
            0
        };
        let res = self.emulate_cycle_with(random);
        assert((self@, res) == old(self)@.cycle(random));
        res
    }

    /// Decodes the current opcode and runs it.
    fn execute(&mut self, random: u8) -> (res: Result<(), Error>)
        ensures
            old(self)@.leads_to(old(self)@.execute(random), final(self)@, res),
    {
        let h = (self.opcode / 0x1000) as usize;
        let x = (self.opcode / 0x100 % 16) as usize;
        let y = (self.opcode / 0x10 % 16) as usize;
        let n = (self.opcode % 16) as u8;
        let nn = (self.opcode % 0x100) as u8;
        let nnn = self.opcode % 0x1000;
        match (h, x, y, n) {
            (0, 0, 0xC, _) => {
                self.opcode_schip_0x00CN(n);
                Ok(())
            },
            (0, 0, 0xD, _) => {
                self.opcode_xochip_0x00DN(n);
                Ok(())
            },
            (0, 0, 0xE, 0) => {
                self.opcode_0x00E0();
                Ok(())
            },
            (0, 0, 0xE, 0xE) => self.opcode_0x00EE(),
            (0, 0, 0xF, 0xB) => {
                self.opcode_schip_0x00FB();
                Ok(())
            },
            (0, 0, 0xF, 0xC) => {
                self.opcode_schip_0x00FC();
                Ok(())
            },
            (0, 0, 0xF, 0xD) => {
                self.opcode_schip_0x00FD();
                Ok(())
            },
            (0, 0, 0xF, 0xE) => {
                self.opcode_schip_0x00FE();
                Ok(())
            },
            (0, 0, 0xF, 0xF) => {
                self.opcode_schip_0x00FF();
                Ok(())
            },
            (0, 2, 3, 0) => {
                self.opcode_hires_0x0230();
                Ok(())
            },
            (1, 2, 6, 0) => {
                self.opcode_0x1260(nnn);
                Ok(())
            },
            (1, _, _, _) => {
                self.opcode_0x1NNN(nnn);
                Ok(())
            },
            (2, _, _, _) => self.opcode_0x2NNN(nnn),
            (3, _, _, _) => {
                self.opcode_0x3XNN(x, nn);
                Ok(())
            },
            (4, _, _, _) => {
                self.opcode_0x4XNN(x, nn);
                Ok(())
            },
            (5, _, _, 0) => {
                self.opcode_0x5XY0(x, y);
                Ok(())
            },
            (5, _, _, 2) => self.opcode_xochip_0x5XY2(x, y),
            (5, _, _, 3) => self.opcode_xochip_0x5XY3(x, y),
            (6, _, _, _) => {
                self.opcode_0x6XNN(x, nn);
                Ok(())
            },
            (7, _, _, _) => {
                self.opcode_0x7XNN(x, nn);
                Ok(())
            },
            (8, _, _, 0) => {
                self.opcode_0x8XY0(x, y);
                Ok(())
            },
            (8, _, _, 1) => {
                self.opcode_0x8XY1(x, y);
                Ok(())
            },
            (8, _, _, 2) => {
                self.opcode_0x8XY2(x, y);
                Ok(())
            },
            (8, _, _, 3) => {
                self.opcode_0x8XY3(x, y);
                Ok(())
            },
            (8, _, _, 4) => {
                self.opcode_0x8XY4(x, y);
                Ok(())
            },
            (8, _, _, 5) => {
                self.opcode_0x8XY5(x, y);
                Ok(())
            },
            (8, _, _, 6) => {
                self.opcode_0x8XY6(x, y);
                Ok(())
            },
            (8, _, _, 7) => {
                self.opcode_0x8XY7(x, y);
                Ok(())
            },
            (8, _, _, 0xE) => {
                self.opcode_0x8XYE(x, y);
                Ok(())
            },
            (9, _, _, 0) => {
                self.opcode_0x9XY0(x, y);
                Ok(())
            },
            (0xA, _, _, _) => {
                self.opcode_0xANNN(nnn);
                Ok(())
            },
            (0xB, _, _, _) => {
                self.opcode_0xBNNN(nnn);
                Ok(())
            },
            (0xC, _, _, _) => {
                self.opcode_0xCXNN(x, nn, random);
                Ok(())
            },
            (0xD, _, _, _) => self.opcode_0xDXYN(x, y, n as usize),
            (0xE, _, 9, 0xE) => self.opcode_0xEX9E(x),
            (0xE, _, 0xA, 1) => self.opcode_0xEXA1(x),
            (0xF, 0, 0, 0) => {
                self.opcode_xochip_0xF000();
                Ok(())
            },
            (0xF, _, 0, 1) => {
                self.opcode_xochip_0xFN01(x);
                Ok(())
            },
            (0xF, 0, 0, 2) => self.opcode_xochip_0xF002(),
            (0xF, _, 0, 7) => {
                self.opcode_0xFX07(x);
                Ok(())
            },
            (0xF, _, 0, 0xA) => {
                self.opcode_0xFX0A(x);
                Ok(())
            },
            (0xF, _, 1, 5) => {
                self.opcode_0xFX15(x);
                Ok(())
            },
            (0xF, _, 1, 8) => {
                self.opcode_0xFX18(x);
                Ok(())
            },
            (0xF, _, 1, 0xE) => {
                self.opcode_0xFX1E(x);
                Ok(())
            },
            (0xF, _, 2, 9) => {
                self.opcode_0xFX29(x);
                Ok(())
            },
            (0xF, _, 3, 0) => {
                self.opcode_schip_0xFX30(x);
                Ok(())
            },
            (0xF, _, 3, 3) => self.opcode_0xFX33(x),
            (0xF, _, 5, 5) => self.opcode_0xFX55(x),
            (0xF, _, 6, 5) => self.opcode_0xFX65(x),
            (0xF, _, 7, 5) => self.opcode_schip_0xFX75(x),
            (0xF, _, 8, 5) => self.opcode_schip_0xFX85(x),
            _ => {
                self.opcode_invalid();
                Ok(())
            },
        }
    }

    /// Text of the instruction at the program counter.
    fn get_next_opcode_description(&self) -> (s: String)
        ensures
            s@ == self@.description(),
    {
        describe_opcode(
            self.next_opcode,
            self.next_opcode_ext,
            self.PC,
            &self.V,
            self.DT,
            self.vmem.video_mode() == VideoMode::HiRes,
            self.quirk_shift,
            self.quirk_jump,
        )
    }
}

} // verus!

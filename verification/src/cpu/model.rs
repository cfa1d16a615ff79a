//! The machine as a mathematical value, and what each instruction makes of
//! it. Every executable operation of the engine is specified against the
//! functions of this file.
//!
//! Faults of the program that runs on the machine are reported as errors: a
//! call with a full stack, a return with an empty one, an access to memory
//! behind its last byte, a key number above 15, a flag register above 7. The
//! faulting instruction has become the current one and has changed nothing
//! else; the program counter still points at it. The program counter
//! saturates at `0xFFFF`; a fetch from `0xFFFE` or above reloads the
//! bootstrap program and reports `Error::ProgramCounterOverflow`. The index
//! register wraps around at 16 bits. A skip moves the program counter by 4,
//! whatever instruction it skips.

use crate::cpu::data::BOOTROM;
use crate::cpu::describe::describe;
use crate::cpu::Error;
use crate::cpu::data::FONTSET;
use crate::cpu::data::FONTSET_START;
use crate::cpu::data::FONTSET_SUPER;
use crate::cpu::data::FONTSET_SUPER_START;
use crate::video_memory::Plane;
use crate::video_memory::PLANE_CELLS;
use crate::video_memory::VideoMemoryView;
use crate::video_memory::VideoMode;
use vstd::prelude::*;

verus! {

/// Number of bytes of main memory.
pub const MEMORY_SIZE: usize = 0x10000;

/// Address at which programs are loaded and start.
pub const PC_INITIAL: u16 = 0x200;

/// First program counter from which no instruction can be fetched.
pub const PC_LIMIT: u16 = 0xFFFE;

/// Mathematical model of a `CPU`.
#[allow(non_snake_case)]
pub struct CpuView {
    pub mem: Seq<u8>,
    pub vmem: VideoMemoryView,
    pub stack: Seq<u16>,
    pub keys: Seq<bool>,
    pub audio_buffer: Option<Seq<u8>>,
    pub pc: u16,
    pub v: Seq<u8>,
    pub i: u16,
    pub dt: u8,
    pub st: u8,
    pub rpl: Seq<u8>,
    pub opcode: u16,
    pub opcode_description: Seq<char>,
    pub next_opcode: u16,
    pub next_opcode_description: Seq<char>,
    pub next_opcode_ext: u16,
    pub sp: usize,
    pub draw: bool,
    pub key_wait: bool,
    pub key_reg: usize,
    pub quirk_load_store: bool,
    pub quirk_shift: bool,
    pub quirk_jump: bool,
    pub quirk_vf_order: bool,
    pub quirk_draw: bool,
    pub vertical_wrapping: bool,
}

/// `mem` with `data` laid over it from index `start` on.
pub open spec fn overlay<T>(mem: Seq<T>, start: int, data: Seq<T>) -> Seq<T> {
    Seq::new(
        mem.len(),
        |k: int|
            if start <= k < start + data.len() {
                data[k - start]
            } else {
                mem[k]
            },
    )
}

/// The least index from `from` on at which `keys` holds `true`, or the
/// length of `keys` if there is none.
pub open spec fn first_pressed_from(keys: Seq<bool>, from: int) -> int
    decreases keys.len() - from,
{
    if from >= keys.len() {
        keys.len() as int
    } else if keys[from] {
        from
    } else {
        first_pressed_from(keys, from + 1)
    }
}

/// The lowest pressed key, or the number of keys if none is pressed.
pub open spec fn first_pressed(keys: Seq<bool>) -> int {
    first_pressed_from(keys, 0)
}

/// The plane selection that the low two bits of `x` name: bit 0 stands for
/// the first plane, bit 1 for the second.
pub open spec fn plane_of(x: int) -> Plane {
    if x % 4 == 0 {
        Plane::Neither
    } else if x % 4 == 1 {
        Plane::First
    } else if x % 4 == 2 {
        Plane::Second
    } else {
        Plane::Both
    }
}

impl CpuView {
    /// Whether a machine that was `self` and is now `after`, with `res`
    /// reported, has done what `expected` asks: become the expected machine
    /// and reported success, or stayed as it was and reported the fault.
    pub open spec fn leads_to(
        self,
        expected: Result<CpuView, Error>,
        after: CpuView,
        res: Result<(), Error>,
    ) -> bool {
        match expected {
            Ok(next) => after == next && res == Ok::<(), Error>(()),
            Err(e) => after == self && res == Err::<(), Error>(e),
        }
    }

    /// Sizes of the memories and bounds of the stack pointer and of the
    /// register awaiting a key.
    pub open spec fn wf(self) -> bool {
        &&& self.mem.len() == MEMORY_SIZE
        &&& self.vmem.wf()
        &&& self.stack.len() == 16
        &&& self.keys.len() == 16
        &&& (self.audio_buffer matches Some(buffer) ==> buffer.len() == 16)
        &&& self.v.len() == 16
        &&& self.rpl.len() == 8
        &&& self.sp <= 16
        &&& self.key_reg < 16
    }

    /// The big-endian 16-bit word at `addr`.
    pub open spec fn word_at(self, addr: int) -> u16 {
        (self.mem[addr] as int * 0x100 + self.mem[addr + 1] as int) as u16
    }

    /// Highest nibble of the current opcode.
    pub open spec fn op_h(self) -> int {
        self.opcode as int / 0x1000
    }

    /// Second nibble of the current opcode.
    pub open spec fn op_x(self) -> int {
        self.opcode as int / 0x100 % 16
    }

    /// Third nibble of the current opcode.
    pub open spec fn op_y(self) -> int {
        self.opcode as int / 0x10 % 16
    }

    /// Lowest nibble of the current opcode.
    pub open spec fn op_n(self) -> int {
        self.opcode as int % 16
    }

    /// Low byte of the current opcode.
    pub open spec fn op_nn(self) -> u8 {
        (self.opcode as int % 0x100) as u8
    }

    /// Low 12 bits of the current opcode.
    pub open spec fn op_nnn(self) -> u16 {
        (self.opcode as int % 0x1000) as u16
    }

    /// The program counter set to `target`, saturating at `0xFFFF`.
    pub open spec fn goto(self, target: int) -> CpuView {
        CpuView {
            pc: if target > 0xFFFF {
                0xFFFFu16
            } else {
                target as u16
            },
            ..self
        }
    }

    /// The program counter moved to the following instruction.
    pub open spec fn step(self) -> CpuView {
        self.goto(self.pc + 2)
    }

    /// The program counter moved past the following instruction if `taken`,
    /// else to it.
    pub open spec fn skip_if(self, taken: bool) -> CpuView {
        self.goto(
            self.pc + if taken {
                4int
            } else {
                2int
            },
        )
    }

    /// Register `x` set to `value`.
    pub open spec fn with_v(self, x: int, value: u8) -> CpuView {
        CpuView { v: self.v.update(x, value), ..self }
    }

    /// Register `x` set to `value` and `VF` to `flag`. Where `x` is `0xF`
    /// the VF-order quirk decides which write lasts: the flag with the
    /// quirk, the value without.
    pub open spec fn with_v_and_flag(self, x: int, value: u8, flag: u8) -> CpuView {
        CpuView {
            v: if self.quirk_vf_order {
                self.v.update(x, value).update(0xF, flag)
            } else {
                self.v.update(0xF, flag).update(x, value)
            },
            ..self
        }
    }

    /// The index register set to `target` modulo 2^16.
    pub open spec fn with_i(self, target: int) -> CpuView {
        CpuView { i: (target % 0x10000) as u16, ..self }
    }

    /// The video memory replaced.
    pub open spec fn with_vmem(self, vmem: VideoMemoryView) -> CpuView {
        CpuView { vmem: vmem, ..self }
    }

    /// Main memory replaced.
    pub open spec fn with_mem(self, mem: Seq<u8>) -> CpuView {
        CpuView { mem: mem, ..self }
    }

    /// The screen's selected plane(s) cleared and the draw flag set.
    pub open spec fn cleared(self) -> CpuView {
        CpuView { vmem: self.vmem.fill(false), draw: true, ..self }
    }

    /// `00EE`: pops the return address and continues behind the call.
    pub open spec fn op_return(self) -> Result<CpuView, Error> {
        if self.sp == 0 {
            Err(Error::StackUnderflow)
        } else {
            let sp = (self.sp - 1) as usize;
            Ok(CpuView { sp: sp, ..self }.goto(self.stack[sp as int] + 2))
        }
    }

    /// `2NNN`: pushes the program counter and jumps to `nnn`.
    pub open spec fn op_call(self, nnn: u16) -> Result<CpuView, Error> {
        if self.sp >= 16 {
            Err(Error::StackOverflow)
        } else {
            Ok(
                CpuView {
                    stack: self.stack.update(self.sp as int, self.pc),
                    sp: (self.sp + 1) as usize,
                    ..self
                }.goto(nnn as int),
            )
        }
    }

    /// `00FD`: plants a jump to itself at the program start and goes there.
    pub open spec fn op_exit(self) -> CpuView {
        self.with_mem(overlay(self.mem, PC_INITIAL as int, seq![0x12u8, 0x00u8])).goto(
            PC_INITIAL as int,
        )
    }

    /// `0230`: clears the screen in HiRes mode, does nothing otherwise.
    pub open spec fn op_hires_clear(self) -> CpuView {
        if self.vmem.mode == VideoMode::HiRes {
            self.cleared().step()
        } else {
            self.step()
        }
    }

    /// `1260`: as the first instruction it switches to HiRes mode and
    /// continues at `0x2C0`; anywhere else it is a jump.
    pub open spec fn op_hires_or_jump(self, nnn: u16) -> CpuView {
        if self.pc == PC_INITIAL {
            self.with_vmem(VideoMemoryView { mode: VideoMode::HiRes, ..self.vmem }).goto(0x2C0)
        } else {
            self.goto(nnn as int)
        }
    }

    /// `5XY2`: stores the registers from the lower to the higher of `x` and
    /// `y` at the index register.
    pub open spec fn op_store_range(self, x: int, y: int) -> Result<CpuView, Error> {
        let lo = if x <= y {
            x
        } else {
            y
        };
        let hi = if x <= y {
            y
        } else {
            x
        };
        if self.i + (hi - lo) >= MEMORY_SIZE {
            Err(Error::MemoryOutOfBounds)
        } else {
            Ok(self.with_mem(overlay(self.mem, self.i as int, self.v.subrange(lo, hi + 1))).step())
        }
    }

    /// `5XY3`: loads the registers from the lower to the higher of `x` and
    /// `y` from the index register.
    pub open spec fn op_load_range(self, x: int, y: int) -> Result<CpuView, Error> {
        let lo = if x <= y {
            x
        } else {
            y
        };
        let hi = if x <= y {
            y
        } else {
            x
        };
        if self.i + (hi - lo) >= MEMORY_SIZE {
            Err(Error::MemoryOutOfBounds)
        } else {
            Ok(
                CpuView {
                    v: overlay(self.v, lo, self.mem.subrange(self.i as int, self.i + (hi - lo) + 1)),
                    ..self
                }.step(),
            )
        }
    }

    /// `8XY4`: adds `Vy` to `Vx`; the flag is the carry.
    pub open spec fn op_add(self, x: int, y: int) -> CpuView {
        let sum = self.v[x] + self.v[y];
        self.with_v_and_flag(
            x,
            (sum % 0x100) as u8,
            if sum > 0xFF {
                1u8
            } else {
                0u8
            },
        ).step()
    }

    /// `Vx = a - b` modulo 256; the flag is 0 on a borrow, else 1.
    pub open spec fn op_sub(self, x: int, a: u8, b: u8) -> CpuView {
        self.with_v_and_flag(
            x,
            ((a - b) % 0x100) as u8,
            if a < b {
                0u8
            } else {
                1u8
            },
        ).step()
    }

    /// The register that a shift reads: `Vx` with the shift quirk, else `Vy`.
    pub open spec fn shift_source(self, x: int, y: int) -> u8 {
        if self.quirk_shift {
            self.v[x]
        } else {
            self.v[y]
        }
    }

    /// `8XY6`: shifts right by one; the flag is the bit shifted out.
    pub open spec fn op_shift_right(self, x: int, y: int) -> CpuView {
        let source = self.shift_source(x, y);
        self.with_v_and_flag(x, source / 2, source % 2).step()
    }

    /// `8XYE`: shifts left by one; the flag is the bit shifted out.
    pub open spec fn op_shift_left(self, x: int, y: int) -> CpuView {
        let source = self.shift_source(x, y);
        self.with_v_and_flag(x, (source * 2 % 0x100) as u8, source / 0x80).step()
    }

    /// `BNNN`: jumps to `nnn` plus `Vx` with the jump quirk, where `x` is the
    /// high nibble of `nnn`, else to `nnn` plus `V0`.
    pub open spec fn op_jump_offset(self, nnn: u16) -> CpuView {
        self.goto(
            nnn + if self.quirk_jump {
                self.v[nnn as int / 0x100]
            } else {
                self.v[0]
            },
        )
    }

    /// `EX9E` and `EXA1`: skips if the key that `Vx` names is pressed
    /// (`wanted`) or not pressed (`!wanted`).
    pub open spec fn op_skip_key(self, x: int, wanted: bool) -> Result<CpuView, Error> {
        if self.v[x] >= 16 {
            Err(Error::InvalidKey)
        } else {
            Ok(self.skip_if(self.keys[self.v[x] as int] == wanted))
        }
    }

    /// `F000 NNNN`: loads the index register with the word that follows the
    /// opcode and continues behind it.
    pub open spec fn op_load_i_long(self) -> CpuView {
        CpuView { i: self.next_opcode_ext, ..self }.goto(self.pc + 4)
    }

    /// `F002`: takes the 16 bytes at the index register as audio pattern.
    pub open spec fn op_audio(self) -> Result<CpuView, Error> {
        if self.i + 16 > MEMORY_SIZE {
            Err(Error::MemoryOutOfBounds)
        } else {
            Ok(
                CpuView {
                    audio_buffer: Some(self.mem.subrange(self.i as int, self.i + 16)),
                    ..self
                }.step(),
            )
        }
    }

    /// `FX1E`: adds `Vx` to the index register; a sum that leaves memory
    /// sets `VF` to 1.
    pub open spec fn op_add_i(self, x: int) -> CpuView {
        let sum = self.i + self.v[x];
        let s = self.with_i(sum);
        if sum >= MEMORY_SIZE {
            s.with_v(0xF, 1).step()
        } else {
            s.step()
        }
    }

    /// `FX33`: stores the three decimal digits of `Vx` at the index register.
    pub open spec fn op_bcd(self, x: int) -> Result<CpuView, Error> {
        let value = self.v[x];
        if self.i + 2 >= MEMORY_SIZE {
            Err(Error::MemoryOutOfBounds)
        } else {
            Ok(
                self.with_mem(
                    overlay(self.mem, self.i as int, seq![value / 100, value % 100 / 10, value % 10]),
                ).step(),
            )
        }
    }

    /// The index register behind a transfer of registers `0..=x`: unchanged
    /// with the load-store quirk, else advanced past the transfer.
    pub open spec fn after_transfer(self, x: int) -> CpuView {
        if self.quirk_load_store {
            self.step()
        } else {
            self.with_i(self.i + x + 1).step()
        }
    }

    /// `FX55`: stores registers `0..=x` at the index register.
    pub open spec fn op_store(self, x: int) -> Result<CpuView, Error> {
        if self.i + x >= MEMORY_SIZE {
            Err(Error::MemoryOutOfBounds)
        } else {
            Ok(
                self.with_mem(
                    overlay(self.mem, self.i as int, self.v.subrange(0, x + 1)),
                ).after_transfer(x),
            )
        }
    }

    /// `FX65`: loads registers `0..=x` from the index register.
    pub open spec fn op_load(self, x: int) -> Result<CpuView, Error> {
        if self.i + x >= MEMORY_SIZE {
            Err(Error::MemoryOutOfBounds)
        } else {
            Ok(
                CpuView {
                    v: overlay(self.v, 0, self.mem.subrange(self.i as int, self.i + x + 1)),
                    ..self
                }.after_transfer(x),
            )
        }
    }

    /// `FX75`: stores registers `0..=x` in the flag registers.
    pub open spec fn op_store_flags(self, x: int) -> Result<CpuView, Error> {
        if x >= 8 {
            Err(Error::InvalidFlagRegister)
        } else {
            Ok(CpuView { rpl: overlay(self.rpl, 0, self.v.subrange(0, x + 1)), ..self }.step())
        }
    }

    /// `FX85`: loads registers `0..=x` from the flag registers.
    pub open spec fn op_load_flags(self, x: int) -> Result<CpuView, Error> {
        if x >= 8 {
            Err(Error::InvalidFlagRegister)
        } else {
            Ok(CpuView { v: overlay(self.v, 0, self.rpl.subrange(0, x + 1)), ..self }.step())
        }
    }

    /// What the current opcode makes of the machine, with `random` as the
    /// byte that `CXNN` draws: the next machine, or the fault.
    pub open spec fn execute(self, random: u8) -> Result<CpuView, Error> {
        let h = self.op_h();
        let x = self.op_x();
        let y = self.op_y();
        let n = self.op_n();
        let nn = self.op_nn();
        let nnn = self.op_nnn();
        let vx = self.v[x];
        let vy = self.v[y];
        if h == 0 {
            if x == 0 && y == 0xC {
                Ok(self.with_vmem(self.vmem.shift(0, n)).step())
            } else if x == 0 && y == 0xD {
                Ok(self.with_vmem(self.vmem.shift(0, -n)).step())
            } else if x == 0 && y == 0xE && n == 0 {
                Ok(self.cleared().step())
            } else if x == 0 && y == 0xE && n == 0xE {
                self.op_return()
            } else if x == 0 && y == 0xF && n == 0xB {
                Ok(self.with_vmem(self.vmem.shift(4, 0)).step())
            } else if x == 0 && y == 0xF && n == 0xC {
                Ok(self.with_vmem(self.vmem.shift(-4, 0)).step())
            } else if x == 0 && y == 0xF && n == 0xD {
                Ok(self.op_exit())
            } else if x == 0 && y == 0xF && n == 0xE {
                Ok(self.with_vmem(VideoMemoryView { mode: VideoMode::Default, ..self.vmem }).step())
            } else if x == 0 && y == 0xF && n == 0xF {
                Ok(self.with_vmem(VideoMemoryView { mode: VideoMode::Extended, ..self.vmem }).step())
            } else if x == 2 && y == 3 && n == 0 {
                Ok(self.op_hires_clear())
            } else {
                Ok(self.step())
            }
        } else if h == 1 {
            if x == 2 && y == 6 && n == 0 {
                Ok(self.op_hires_or_jump(nnn))
            } else {
                Ok(self.goto(nnn as int))
            }
        } else if h == 2 {
            self.op_call(nnn)
        } else if h == 3 {
            Ok(self.skip_if(vx == nn))
        } else if h == 4 {
            Ok(self.skip_if(vx != nn))
        } else if h == 5 {
            if n == 0 {
                Ok(self.skip_if(vx == vy))
            } else if n == 2 {
                self.op_store_range(x, y)
            } else if n == 3 {
                self.op_load_range(x, y)
            } else {
                Ok(self.step())
            }
        } else if h == 6 {
            Ok(self.with_v(x, nn).step())
        } else if h == 7 {
            Ok(self.with_v(x, ((vx + nn) % 0x100) as u8).step())
        } else if h == 8 {
            if n == 0 {
                Ok(self.with_v(x, vy).step())
            } else if n == 1 {
                Ok(self.with_v(x, vx | vy).step())
            } else if n == 2 {
                Ok(self.with_v(x, vx & vy).step())
            } else if n == 3 {
                Ok(self.with_v(x, vx ^ vy).step())
            } else if n == 4 {
                Ok(self.op_add(x, y))
            } else if n == 5 {
                Ok(self.op_sub(x, vx, vy))
            } else if n == 6 {
                Ok(self.op_shift_right(x, y))
            } else if n == 7 {
                Ok(self.op_sub(x, vy, vx))
            } else if n == 0xE {
                Ok(self.op_shift_left(x, y))
            } else {
                Ok(self.step())
            }
        } else if h == 9 {
            if n == 0 {
                Ok(self.skip_if(vx != vy))
            } else {
                Ok(self.step())
            }
        } else if h == 0xA {
            Ok(CpuView { i: nnn, ..self }.step())
        } else if h == 0xB {
            Ok(self.op_jump_offset(nnn))
        } else if h == 0xC {
            Ok(self.with_v(x, random & nn).step())
        } else if h == 0xD {
            self.op_draw(vx as int, vy as int, n)
        } else if h == 0xE {
            if y == 9 && n == 0xE {
                self.op_skip_key(x, true)
            } else if y == 0xA && n == 1 {
                self.op_skip_key(x, false)
            } else {
                Ok(self.step())
            }
        } else {
            if x == 0 && y == 0 && n == 0 {
                Ok(self.op_load_i_long())
            } else if y == 0 && n == 1 {
                Ok(self.with_vmem(VideoMemoryView { plane: plane_of(x), ..self.vmem }).step())
            } else if x == 0 && y == 0 && n == 2 {
                self.op_audio()
            } else if y == 0 && n == 7 {
                Ok(self.with_v(x, self.dt).step())
            } else if y == 0 && n == 0xA {
                Ok(CpuView { key_wait: true, key_reg: x as usize, ..self }.step())
            } else if y == 1 && n == 5 {
                Ok(CpuView { dt: vx, ..self }.step())
            } else if y == 1 && n == 8 {
                Ok(CpuView { st: vx, ..self }.step())
            } else if y == 1 && n == 0xE {
                Ok(self.op_add_i(x))
            } else if y == 2 && n == 9 {
                Ok(CpuView { i: (vx * 5) as u16, ..self }.step())
            } else if y == 3 && n == 0 {
                Ok(CpuView { i: (0x50 + vx * 10) as u16, ..self }.step())
            } else if y == 3 && n == 3 {
                self.op_bcd(x)
            } else if y == 5 && n == 5 {
                self.op_store(x)
            } else if y == 6 && n == 5 {
                self.op_load(x)
            } else if y == 7 && n == 5 {
                self.op_store_flags(x)
            } else if y == 8 && n == 5 {
                self.op_load_flags(x)
            } else {
                Ok(self.step())
            }
        }
    }

    /// Text of the instruction at the program counter.
    pub open spec fn description(self) -> Seq<char> {
        describe(
            self.next_opcode,
            self.next_opcode_ext,
            self.pc,
            self.v,
            self.dt,
            self.vmem.mode == VideoMode::HiRes,
            self.quirk_shift,
            self.quirk_jump,
        )
    }

    /// Whether no instruction can be fetched at the program counter: it is
    /// at `PC_LIMIT` or above, or a four-byte instruction starts at the last
    /// three bytes of memory.
    pub open spec fn fetch_overflows(self) -> bool {
        self.pc >= PC_LIMIT || (self.pc == PC_LIMIT - 1 && self.word_at(self.pc as int) == 0xF000)
    }

    /// The instruction at the program counter taken as the next one, with
    /// the word behind it where it is `F000`, and described.
    pub open spec fn fetched(self) -> CpuView {
        let opcode = self.word_at(self.pc as int);
        let s = CpuView {
            next_opcode: opcode,
            next_opcode_ext: if opcode == 0xF000 {
                self.word_at(self.pc + 2)
            } else {
                self.next_opcode_ext
            },
            ..self
        };
        CpuView { next_opcode_description: s.description(), ..s }
    }

    /// `rom` loaded: the display back in default mode, the program in
    /// memory from `PC_INITIAL` on, the program counter at its start and the
    /// first instruction fetched.
    pub open spec fn loaded(self, rom: Seq<u8>) -> CpuView {
        CpuView {
            vmem: VideoMemoryView { mode: VideoMode::Default, ..self.vmem },
            mem: overlay(self.mem, PC_INITIAL as int, rom),
            pc: PC_INITIAL,
            ..self
        }.fetched()
    }

    /// The fetch that follows an instruction: the next instruction taken,
    /// or the bootstrap program loaded where the fetch overflows.
    pub open spec fn prefetch(self) -> (CpuView, Result<(), Error>) {
        if self.fetch_overflows() {
            (self.loaded(BOOTROM@), Err(Error::ProgramCounterOverflow))
        } else {
            (self.fetched(), Ok(()))
        }
    }

    /// The prefetched instruction made the current one.
    pub open spec fn promoted(self) -> CpuView {
        CpuView {
            opcode: self.next_opcode,
            opcode_description: self.next_opcode_description,
            ..self
        }
    }

    /// One instruction cycle: the prefetched instruction becomes the current
    /// one and runs, then the next one is fetched. A program counter that
    /// overflows before or after the instruction has the bootstrap program
    /// loaded; a fault leaves the machine with the instruction not run.
    pub open spec fn cycle(self, random: u8) -> (CpuView, Result<(), Error>) {
        let s = self.promoted();
        if s.pc >= PC_LIMIT {
            (s.loaded(BOOTROM@), Err(Error::ProgramCounterOverflow))
        } else {
            match s.execute(random) {
                Ok(next) => next.prefetch(),
                Err(e) => (s, Err(e)),
            }
        }
    }

    /// Whether the next cycle draws a random byte: it runs `CXNN`.
    pub open spec fn draws_random(self) -> bool {
        self.pc < PC_LIMIT && self.next_opcode as int / 0x1000 == 0xC
    }

    /// Whether the next tick draws a random byte.
    pub open spec fn tick_draws_random(self) -> bool {
        !self.key_wait && self.draws_random()
    }

    /// Both timers counted down by one, stopping at zero.
    pub open spec fn timers_updated(self) -> CpuView {
        CpuView {
            dt: if self.dt > 0 {
                (self.dt - 1) as u8
            } else {
                self.dt
            },
            st: if self.st > 0 {
                (self.st - 1) as u8
            } else {
                self.st
            },
            ..self
        }
    }

    /// One tick with the keypad in state `keys`. A machine that waits for a
    /// key takes the lowest pressed key into the waiting register and runs
    /// no instruction, or goes on waiting; any other machine runs a cycle.
    pub open spec fn tick(self, keys: Seq<bool>, random: u8) -> (CpuView, Result<(), Error>) {
        let s = CpuView { keys: keys, ..self };
        if s.key_wait {
            let key = first_pressed(keys);
            if key < 16 {
                (CpuView { key_wait: false, ..s }.with_v(s.key_reg as int, key as u8), Ok(()))
            } else {
                (s, Ok(()))
            }
        } else {
            s.cycle(random)
        }
    }

    /// The machine as `CPU::new` makes it: memory zero but for the fonts,
    /// an empty screen, every register zero, the program counter at
    /// `PC_INITIAL`, every quirk and vertical wrapping switched on.
    pub open spec fn initial() -> CpuView {
        CpuView {
            mem: overlay(
                overlay(Seq::new(MEMORY_SIZE as nat, |k: int| 0u8), FONTSET_START as int, FONTSET@),
                FONTSET_SUPER_START as int,
                FONTSET_SUPER@,
            ),
            vmem: VideoMemoryView {
                first: Seq::new(PLANE_CELLS as nat, |k: int| false),
                second: Seq::new(PLANE_CELLS as nat, |k: int| false),
                mode: VideoMode::Default,
                plane: Plane::First,
            },
            stack: Seq::new(16, |k: int| 0u16),
            keys: Seq::new(16, |k: int| false),
            audio_buffer: None,
            pc: PC_INITIAL,
            v: Seq::new(16, |k: int| 0u8),
            i: 0,
            dt: 0,
            st: 0,
            rpl: Seq::new(8, |k: int| 0u8),
            opcode: 0,
            opcode_description: Seq::empty(),
            next_opcode: 0,
            next_opcode_description: Seq::empty(),
            next_opcode_ext: 0,
            sp: 0,
            draw: false,
            key_wait: false,
            key_reg: 0,
            quirk_load_store: true,
            quirk_shift: true,
            quirk_jump: true,
            quirk_vf_order: true,
            quirk_draw: true,
            vertical_wrapping: true,
        }
    }
}

} // verus!

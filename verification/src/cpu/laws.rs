//! Laws of the machine, proved of the model for every state.

use crate::cpu::data::BOOTROM;
use crate::cpu::model::CpuView;
use crate::cpu::model::MEMORY_SIZE;
use crate::cpu::model::PC_LIMIT;
use crate::cpu::Error;
use vstd::prelude::*;

verus! {

impl CpuView {
    /// Whether the machine runs an instruction at the next tick and the
    /// program counter then stands at one that can be fetched.
    pub open spec fn runs_to(self, pc: int) -> bool {
        &&& !self.key_wait
        &&& self.pc < PC_LIMIT
        &&& pc <= 0xFFFF
        &&& !self.goto(pc).fetch_overflows()
    }
}

/// `6XNN` sets `Vx` to `NN` and moves the program counter forward by 2,
/// whatever else the machine holds.
pub proof fn law_load_immediate(s: CpuView, keys: Seq<bool>, random: u8)
    requires
        s.wf(),
        s.next_opcode as int / 0x1000 == 6,
        s.runs_to(s.pc + 2),
    ensures
        s.tick(keys, random).1 == Ok::<(), Error>(()),
        s.tick(keys, random).0.v[s.next_opcode as int / 0x100 % 16] == s.next_opcode % 0x100,
        s.tick(keys, random).0.pc == s.pc + 2,
{
    let t = (CpuView { keys: keys, ..s }).promoted();
    assert(t.execute(random) == Ok::<CpuView, Error>(t.with_v(t.op_x(), t.op_nn()).step()));
}

/// `00E0` clears every cell of the selected plane(s), sets the draw flag and
/// moves the program counter forward by 2.
pub proof fn law_clear_screen(s: CpuView, keys: Seq<bool>, random: u8, index: int)
    requires
        s.wf(),
        s.next_opcode == 0x00E0,
        s.runs_to(s.pc + 2),
        0 <= index < s.vmem.first.len(),
    ensures
        s.tick(keys, random).1 == Ok::<(), Error>(()),
        s.vmem.plane.has_first() ==> !s.tick(keys, random).0.vmem.first[index],
        s.vmem.plane.has_second() ==> !s.tick(keys, random).0.vmem.second[index],
        !s.vmem.plane.has_first() ==> s.tick(keys, random).0.vmem.first == s.vmem.first,
        !s.vmem.plane.has_second() ==> s.tick(keys, random).0.vmem.second == s.vmem.second,
        s.tick(keys, random).0.draw,
        s.tick(keys, random).0.pc == s.pc + 2,
{
    let t = (CpuView { keys: keys, ..s }).promoted();
    assert(t.execute(random) == Ok::<CpuView, Error>(t.cleared().step()));
}

/// Whether the next instruction is a skip, and is taken: `3XNN` with
/// `Vx == NN`, `4XNN` with `Vx != NN`, `5XY0` with `Vx == Vy`, `9XY0` with
/// `Vx != Vy`.
pub open spec fn skip_taken(s: CpuView) -> bool {
    let h = s.next_opcode as int / 0x1000;
    let vx = s.v[s.next_opcode as int / 0x100 % 16];
    let vy = s.v[s.next_opcode as int / 0x10 % 16];
    let nn = s.next_opcode as int % 0x100;
    if h == 3 {
        vx == nn
    } else if h == 4 {
        vx != nn
    } else if h == 5 {
        vx == vy
    } else {
        vx != vy
    }
}

/// Whether the next instruction is one of the skips `3XNN`, `4XNN`, `5XY0`
/// and `9XY0`.
pub open spec fn is_skip(s: CpuView) -> bool {
    let h = s.next_opcode as int / 0x1000;
    let n = s.next_opcode as int % 16;
    h == 3 || h == 4 || ((h == 5 || h == 9) && n == 0)
}

/// A skip moves the program counter forward by 4 where it is taken and by 2
/// where it is not, and changes nothing but the program counter and the
/// instructions fetched.
pub proof fn law_skip(s: CpuView, keys: Seq<bool>, random: u8)
    requires
        s.wf(),
        is_skip(s),
        s.runs_to(
            s.pc + if skip_taken(s) {
                4int
            } else {
                2int
            },
        ),
    ensures
        s.tick(keys, random).1 == Ok::<(), Error>(()),
        s.tick(keys, random).0.pc == s.pc + if skip_taken(s) {
            4int
        } else {
            2int
        },
        s.tick(keys, random).0.v == s.v,
        s.tick(keys, random).0.mem == s.mem,
{
    let t = (CpuView { keys: keys, ..s }).promoted();
    assert(t.execute(random) == Ok::<CpuView, Error>(t.skip_if(skip_taken(s))));
}

/// `8XY6` shifts `Vx` with the shift quirk and `Vy` without it: the register
/// takes the half of the source and `VF` its lowest bit.
pub proof fn law_shift_right_source(s: CpuView, keys: Seq<bool>, random: u8)
    requires
        s.wf(),
        s.next_opcode as int / 0x1000 == 8,
        s.next_opcode as int % 16 == 6,
        s.next_opcode as int / 0x100 % 16 != 0xF,
        s.runs_to(s.pc + 2),
    ensures
        ({
            let x = s.next_opcode as int / 0x100 % 16;
            let y = s.next_opcode as int / 0x10 % 16;
            let source = if s.quirk_shift {
                s.v[x]
            } else {
                s.v[y]
            };
            &&& s.tick(keys, random).1 == Ok::<(), Error>(())
            &&& s.tick(keys, random).0.v[x] == source / 2
            &&& s.tick(keys, random).0.v[0xF] == source % 2
        }),
{
    let t = (CpuView { keys: keys, ..s }).promoted();
    assert(t.execute(random) == Ok::<CpuView, Error>(t.op_shift_right(t.op_x(), t.op_y())));
}

/// `FX55` followed by `FX65` from the same address gives every register
/// back: what was stored is what is loaded. With the load-store quirk both
/// leave the index register as it is, without it both move it forward by
/// `x + 1`.
pub proof fn law_store_load_round_trip(s: CpuView, x: int)
    requires
        s.wf(),
        0 <= x < 16,
        s.i + x < MEMORY_SIZE,
    ensures
        s.op_store(x) is Ok,
        (CpuView { i: s.i, ..s.op_store(x)->Ok_0 }).op_load(x) is Ok,
        (CpuView { i: s.i, ..s.op_store(x)->Ok_0 }).op_load(x)->Ok_0.v == s.v,
        s.quirk_load_store ==> s.op_store(x)->Ok_0.i == s.i && s.op_load(x)->Ok_0.i == s.i,
        !s.quirk_load_store ==> s.op_store(x)->Ok_0.i == (s.i + x + 1) % 0x10000 && s.op_load(
            x,
        )->Ok_0.i == (s.i + x + 1) % 0x10000,
{
    let stored = CpuView { i: s.i, ..s.op_store(x)->Ok_0 };
    assert(stored.op_load(x)->Ok_0.v =~= s.v);
}

/// A machine whose program counter has left memory does not run: the tick
/// reports `Error::ProgramCounterOverflow`, and the machine has the
/// bootstrap program loaded and the program counter at its start.
pub proof fn law_program_counter_overflow(s: CpuView, keys: Seq<bool>, random: u8)
    requires
        s.wf(),
        !s.key_wait,
        s.pc >= PC_LIMIT,
    ensures
        s.tick(keys, random).1 == Err::<(), Error>(Error::ProgramCounterOverflow),
        s.tick(keys, random).0 == (CpuView { keys: keys, ..s }).promoted().loaded(BOOTROM@),
        s.tick(keys, random).0.pc == 0x200,
        s.tick(keys, random).0.mem.subrange(0x200, 0x200 + BOOTROM@.len() as int) == BOOTROM@,
{
    let t = (CpuView { keys: keys, ..s }).promoted().loaded(BOOTROM@);
    assert(t.mem.subrange(0x200, 0x200 + BOOTROM@.len() as int) =~= BOOTROM@);
}

/// A fetch leaves the next opcode equal to the word at the program counter
/// and its text equal to the description of the machine.
pub proof fn law_fetch_coherent(s: CpuView)
    requires
        !s.fetch_overflows(),
    ensures
        s.fetched().next_opcode == s.fetched().word_at(s.fetched().pc as int),
        s.fetched().next_opcode_description == s.fetched().description(),
        s.fetched().next_opcode == 0xF000 ==> s.fetched().next_opcode_ext == s.fetched().word_at(
            s.fetched().pc + 2,
        ),
{
}

/// After every tick that ran an instruction, whether it failed on the
/// program counter or not at all, the next opcode is the word at the program
/// counter: the machine has fetched what it will run.
pub proof fn law_next_opcode_is_fetched(s: CpuView, keys: Seq<bool>, random: u8)
    requires
        s.wf(),
        keys.len() == 16,
        !s.key_wait,
        s.tick(keys, random).1 is Ok || s.tick(keys, random).1 == Err::<(), Error>(
            Error::ProgramCounterOverflow,
        ),
    ensures
        s.tick(keys, random).0.next_opcode == s.tick(keys, random).0.word_at(
            s.tick(keys, random).0.pc as int,
        ),
{
    let t = (CpuView { keys: keys, ..s }).promoted();
    let restart = CpuView {
        vmem: crate::video_memory::VideoMemoryView {
            mode: crate::video_memory::VideoMode::Default,
            ..t.vmem
        },
        mem: crate::cpu::model::overlay(t.mem, 0x200, BOOTROM@),
        pc: 0x200,
        ..t
    };
    if t.pc >= PC_LIMIT {
        law_fetch_coherent(restart);
    } else {
        match t.execute(random) {
            Ok(next) => {
                if next.fetch_overflows() {
                    let again = CpuView {
                        vmem: crate::video_memory::VideoMemoryView {
                            mode: crate::video_memory::VideoMode::Default,
                            ..next.vmem
                        },
                        mem: crate::cpu::model::overlay(next.mem, 0x200, BOOTROM@),
                        pc: 0x200,
                        ..next
                    };
                    assert(next.loaded(BOOTROM@) == again.fetched());
                } else {
                    assert(s.tick(keys, random).0 == next.fetched());
                }
            },
            Err(e) => {},
        }
    }
}

/// Only `CXNN` depends on the random byte.
pub proof fn law_random_only_in_rnd(s: CpuView, keys: Seq<bool>, r1: u8, r2: u8)
    requires
        !s.tick_draws_random(),
    ensures
        s.tick(keys, r1) == s.tick(keys, r2),
{
    let t = (CpuView { keys: keys, ..s }).promoted();
    if !s.key_wait && s.pc < PC_LIMIT {
        assert(t.execute(r1) == t.execute(r2));
    }
}

} // verus!

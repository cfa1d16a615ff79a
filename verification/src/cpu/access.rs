//! Reading the machine, and switching its quirks.

use crate::cpu::model::CpuView;
use crate::cpu::CPU;
use crate::video_memory::VideoMemory;
use vstd::prelude::*;

verus! {

#[allow(non_snake_case)]
impl CPU {
    /// Main memory.
    pub fn mem(&self) -> (r: &[u8])
        ensures
            r@ == self@.mem,
    {
        self.mem.as_slice()
    }

    /// The video memory.
    pub fn vmem(&self) -> (r: &VideoMemory)
        ensures
            r@ == self@.vmem,
    {
        &self.vmem
    }

    /// The call stack.
    pub fn stack(&self) -> (r: [u16; 16])
        ensures
            r@ == self@.stack,
    {
        self.stack
    }

    /// The state of the keypad at the last tick.
    pub fn keys(&self) -> (r: [bool; 16])
        ensures
            r@ == self@.keys,
    {
        self.keys
    }

    /// The audio pattern, if one was loaded.
    pub fn audio_buffer(&self) -> (r: &Option<[u8; 16]>)
        ensures
            match *r {
                Some(buffer) => self@.audio_buffer == Some(buffer@),
                None => self@.audio_buffer is None,
            },
    {
        &self.audio_buffer
    }

    /// The program counter.
    pub fn PC(&self) -> (r: u16)
        ensures
            r == self@.pc,
    {
        self.PC
    }

    /// The general registers.
    pub fn V(&self) -> (r: [u8; 16])
        ensures
            r@ == self@.v,
    {
        self.V
    }

    /// The index register.
    pub fn I(&self) -> (r: u16)
        ensures
            r == self@.i,
    {
        self.I
    }

    /// The delay timer.
    pub fn DT(&self) -> (r: u8)
        ensures
            r == self@.dt,
    {
        self.DT
    }

    /// The sound timer.
    pub fn ST(&self) -> (r: u8)
        ensures
            r == self@.st,
    {
        self.ST
    }

    /// The flag registers.
    pub fn RPL(&self) -> (r: [u8; 8])
        ensures
            r@ == self@.rpl,
    {
        self.RPL
    }

    /// The current opcode.
    pub fn opcode(&self) -> (r: u16)
        ensures
            r == self@.opcode,
    {
        self.opcode
    }

    /// Text of the current instruction.
    pub fn opcode_description(&self) -> (r: &String)
        ensures
            r@ == self@.opcode_description,
    {
        &self.opcode_description
    }

    /// The next opcode.
    pub fn next_opcode(&self) -> (r: u16)
        ensures
            r == self@.next_opcode,
    {
        self.next_opcode
    }

    /// Text of the next instruction.
    pub fn next_opcode_description(&self) -> (r: &String)
        ensures
            r@ == self@.next_opcode_description,
    {
        &self.next_opcode_description
    }

    /// The stack pointer: the number of return addresses on the stack.
    pub fn sp(&self) -> (r: usize)
        ensures
            r == self@.sp,
    {
        self.sp
    }

    /// Whether the machine waits for a key.
    pub fn key_wait(&self) -> (r: bool)
        ensures
            r == self@.key_wait,
    {
        self.key_wait
    }

    /// The register that takes the key waited for.
    pub fn key_reg(&self) -> (r: usize)
        ensures
            r == self@.key_reg,
    {
        self.key_reg
    }

    /// Whether the screen has changed since the flag was last cleared.
    pub fn draw(&self) -> (r: bool)
        ensures
            r == self@.draw,
    {
        self.draw
    }

    pub fn set_draw(&mut self, val: bool)
        ensures
            final(self)@ == (CpuView { draw: val, ..old(self)@ }),
    {
        proof {
            use_type_invariant(&*self);
        }
        self.draw = val;
        assert(self@.draw == val);
    }

    /// Whether `FX55` and `FX65` leave the index register unchanged.
    pub fn quirk_load_store(&self) -> (r: bool)
        ensures
            r == self@.quirk_load_store,
    {
        self.quirk_load_store
    }

    pub fn set_quirk_load_store(&mut self, val: bool)
        ensures
            final(self)@ == (CpuView { quirk_load_store: val, ..old(self)@ }),
    {
        proof {
            use_type_invariant(&*self);
        }
        self.quirk_load_store = val;
        assert(self@.quirk_load_store == val);
    }

    /// Whether the shifts read `Vx` instead of `Vy`.
    pub fn quirk_shift(&self) -> (r: bool)
        ensures
            r == self@.quirk_shift,
    {
        self.quirk_shift
    }

    pub fn set_quirk_shift(&mut self, val: bool)
        ensures
            final(self)@ == (CpuView { quirk_shift: val, ..old(self)@ }),
    {
        proof {
            use_type_invariant(&*self);
        }
        self.quirk_shift = val;
        assert(self@.quirk_shift == val);
    }

    /// Whether `BNNN` adds `Vx` instead of `V0`.
    pub fn quirk_jump(&self) -> (r: bool)
        ensures
            r == self@.quirk_jump,
    {
        self.quirk_jump
    }

    pub fn set_quirk_jump(&mut self, val: bool)
        ensures
            final(self)@ == (CpuView { quirk_jump: val, ..old(self)@ }),
    {
        proof {
            use_type_invariant(&*self);
        }
        self.quirk_jump = val;
        assert(self@.quirk_jump == val);
    }

    /// Whether the flag is written after the result.
    pub fn quirk_vf_order(&self) -> (r: bool)
        ensures
            r == self@.quirk_vf_order,
    {
        self.quirk_vf_order
    }

    pub fn set_quirk_vf_order(&mut self, val: bool)
        ensures
            final(self)@ == (CpuView { quirk_vf_order: val, ..old(self)@ }),
    {
        proof {
            use_type_invariant(&*self);
        }
        self.quirk_vf_order = val;
        assert(self@.quirk_vf_order == val);
    }

    /// Whether a sprite of height 0 is 16 pixels wide in every mode.
    pub fn quirk_draw(&self) -> (r: bool)
        ensures
            r == self@.quirk_draw,
    {
        self.quirk_draw
    }

    pub fn set_quirk_draw(&mut self, val: bool)
        ensures
            final(self)@ == (CpuView { quirk_draw: val, ..old(self)@ }),
    {
        proof {
            use_type_invariant(&*self);
        }
        self.quirk_draw = val;
        assert(self@.quirk_draw == val);
    }

    /// Whether sprite rows below the screen wrap to its top.
    pub fn vertical_wrapping(&self) -> (r: bool)
        ensures
            r == self@.vertical_wrapping,
    {
        self.vertical_wrapping
    }

    pub fn set_vertical_wrapping(&mut self, val: bool)
        ensures
            final(self)@ == (CpuView { vertical_wrapping: val, ..old(self)@ }),
    {
        proof {
            use_type_invariant(&*self);
        }
        self.vertical_wrapping = val;
        assert(self@.vertical_wrapping == val);
    }
}

} // verus!

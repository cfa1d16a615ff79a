//! Snapshots: the whole machine as plain values, to be stored and restored.

use crate::cpu::model::CpuView;
use crate::cpu::model::MEMORY_SIZE;
use crate::cpu::Error;
use crate::cpu::CPU;
use crate::video_memory::Plane;
use crate::video_memory::VideoMemory;
use crate::video_memory::VideoMemoryView;
use crate::video_memory::VideoMode;
use crate::video_memory::PLANE_CELLS;
use vstd::prelude::*;
use vstd::slice::slice_to_vec;

verus! {

/// Every part of a machine, open to be written to a file or changed by a
/// debugger. Not every `CpuState` describes a machine: `CPU::from_state`
/// tells.
#[allow(non_snake_case)]
pub struct CpuState {
    pub mem: Vec<u8>,
    /// Cells of the first plane of the video memory.
    pub vmem1: Vec<bool>,
    /// Cells of the second plane of the video memory.
    pub vmem2: Vec<bool>,
    pub video_mode: VideoMode,
    /// The selected plane(s).
    pub plane: Plane,
    pub stack: [u16; 16],
    pub keys: [bool; 16],
    pub audio_buffer: Option<[u8; 16]>,
    pub PC: u16,
    pub V: [u8; 16],
    pub I: u16,
    pub DT: u8,
    pub ST: u8,
    pub RPL: [u8; 8],
    pub opcode: u16,
    pub opcode_description: String,
    pub next_opcode: u16,
    pub next_opcode_description: String,
    pub next_opcode_ext: u16,
    pub sp: usize,
    pub draw: bool,
    pub key_wait: bool,
    pub key_reg: usize,
    pub quirk_load_store: bool,
    pub quirk_shift: bool,
    pub quirk_jump: bool,
    pub quirk_vf_order: bool,
    pub quirk_draw: bool,
    pub vertical_wrapping: bool,
}

impl View for CpuState {
    type V = CpuView;

    open spec fn view(&self) -> CpuView {
        CpuView {
            mem: self.mem@,
            vmem: VideoMemoryView {
                first: self.vmem1@,
                second: self.vmem2@,
                mode: self.video_mode,
                plane: self.plane,
            },
            stack: self.stack@,
            keys: self.keys@,
            audio_buffer: match self.audio_buffer {
                Some(buffer) => Some(buffer@),
                None => None,
            },
            pc: self.PC,
            v: self.V@,
            i: self.I,
            dt: self.DT,
            st: self.ST,
            rpl: self.RPL@,
            opcode: self.opcode,
            opcode_description: self.opcode_description@,
            next_opcode: self.next_opcode,
            next_opcode_description: self.next_opcode_description@,
            next_opcode_ext: self.next_opcode_ext,
            sp: self.sp,
            draw: self.draw,
            key_wait: self.key_wait,
            key_reg: self.key_reg,
            quirk_load_store: self.quirk_load_store,
            quirk_shift: self.quirk_shift,
            quirk_jump: self.quirk_jump,
            quirk_vf_order: self.quirk_vf_order,
            quirk_draw: self.quirk_draw,
            vertical_wrapping: self.vertical_wrapping,
        }
    }
}

impl CPU {
    /// The machine that `state` describes. A state with a memory or a plane
    /// of the wrong size, with more than 16 return addresses or with a
    /// waiting register above 15 describes none.
    pub fn from_state(state: CpuState) -> (res: Result<Self, Error>)
        ensures
            res is Ok <==> state@.wf(),
            res matches Ok(cpu) ==> cpu@ == state@,
            res matches Err(e) ==> e == Error::LoadStateError,
    {
        if state.mem.len() != MEMORY_SIZE || state.sp > 16 || state.key_reg >= 16 {
            return Err(Error::LoadStateError);
        }
        let ghost view = state@;
        match VideoMemory::from_parts(state.vmem1, state.vmem2, state.video_mode, state.plane) {
            None => Err(Error::LoadStateError),
            Some(vmem) => {
                let cpu = Self {
                    mem: state.mem,
                    vmem,
                    stack: state.stack,
                    keys: state.keys,
                    audio_buffer: state.audio_buffer,
                    PC: state.PC,
                    V: state.V,
                    I: state.I,
                    DT: state.DT,
                    ST: state.ST,
                    RPL: state.RPL,
                    opcode: state.opcode,
                    opcode_description: state.opcode_description,
                    next_opcode: state.next_opcode,
                    next_opcode_description: state.next_opcode_description,
                    next_opcode_ext: state.next_opcode_ext,
                    sp: state.sp,
                    draw: state.draw,
                    key_wait: state.key_wait,
                    key_reg: state.key_reg,
                    quirk_load_store: state.quirk_load_store,
                    quirk_shift: state.quirk_shift,
                    quirk_jump: state.quirk_jump,
                    quirk_vf_order: state.quirk_vf_order,
                    quirk_draw: state.quirk_draw,
                    vertical_wrapping: state.vertical_wrapping,
                };
                assert(cpu@.vmem == view.vmem);
                assert(cpu@ == view);
                Ok(cpu)
            },
        }
    }

    /// The machine as plain values: a state that `from_state` turns back
    /// into this machine.
    pub fn save_state(&self) -> (res: Result<CpuState, Error>)
        ensures
            res matches Ok(state) && state@ == self@ && state@.wf(),
    {
        proof {
            use_type_invariant(self);
        }
        let state = CpuState {
            mem: slice_to_vec(self.mem.as_slice()),
            vmem1: slice_to_vec(self.vmem.first_plane()),
            vmem2: slice_to_vec(self.vmem.second_plane()),
            video_mode: self.vmem.video_mode(),
            plane: self.vmem.current_plane(),
            stack: self.stack,
            keys: self.keys,
            audio_buffer: self.audio_buffer,
            PC: self.PC,
            V: self.V,
            I: self.I,
            DT: self.DT,
            ST: self.ST,
            RPL: self.RPL,
            opcode: self.opcode,
            opcode_description: self.opcode_description.clone(),
            next_opcode: self.next_opcode,
            next_opcode_description: self.next_opcode_description.clone(),
            next_opcode_ext: self.next_opcode_ext,
            sp: self.sp,
            draw: self.draw,
            key_wait: self.key_wait,
            key_reg: self.key_reg,
            quirk_load_store: self.quirk_load_store,
            quirk_shift: self.quirk_shift,
            quirk_jump: self.quirk_jump,
            quirk_vf_order: self.quirk_vf_order,
            quirk_draw: self.quirk_draw,
            vertical_wrapping: self.vertical_wrapping,
        };
        assert(state@.vmem == self@.vmem);
        assert(state@ == self@);
        Ok(state)
    }
}

} // verus!

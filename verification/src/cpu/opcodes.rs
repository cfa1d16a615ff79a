//! The instructions, one function each. Every function states what it makes
//! of the machine in terms of the model.

use crate::cpu::memory::copy_bytes;
use crate::cpu::memory::load_bytes;
use crate::cpu::model::plane_of;
use crate::cpu::model::CpuView;
use crate::cpu::model::MEMORY_SIZE;
use crate::cpu::Error;
use crate::cpu::CPU;
use crate::video_memory::Plane;
use crate::video_memory::VideoMemoryView;
use crate::video_memory::VideoMode;
use vstd::prelude::*;

verus! {

#[allow(non_snake_case)]
impl CPU {
    /// Moves the program counter forward by `by`, saturating.
    pub(super) fn advance(&mut self, by: u16)
        ensures
            final(self)@ == old(self)@.goto(old(self)@.pc + by),
    {
        proof {
            use_type_invariant(&*self);
        }
        let target: u16 = if self.PC > 0xFFFF - by {
            0xFFFF
        } else {
            self.PC + by
        };
        self.PC = target;
        assert(self@.pc == target);
    }

    /// Moves the program counter past the next instruction if `taken`, else
    /// to it.
    pub(super) fn skip_if(&mut self, taken: bool)
        ensures
            final(self)@ == old(self)@.skip_if(taken),
    {
        self.advance(
            if taken {
                4
            } else {
                2
            },
        );
    }

    /// Sets the index register to `target` modulo 2^16.
    pub(super) fn set_index(&mut self, target: u32)
        ensures
            final(self)@ == old(self)@.with_i(target as int),
    {
        proof {
            use_type_invariant(&*self);
        }
        let wrapped = (target % 0x10000) as u16;
        self.I = wrapped;
        assert(self@.i == wrapped);
    }

    // Invalid opcode
    pub(super) fn opcode_invalid(&mut self)
        ensures
            final(self)@ == old(self)@.step(),
    {
        self.advance(2);
    }

    // 0x00CN - SCHIP - Scroll display N lines down
    pub(super) fn opcode_schip_0x00CN(&mut self, n: u8)
        ensures
            final(self)@ == old(self)@.with_vmem(old(self)@.vmem.shift(0, n as int)).step(),
    {
        proof {
            use_type_invariant(&*self);
        }
        self.vmem.scroll_down(n as usize);
        assert(self@.vmem == old(self)@.vmem.shift(0, n as int));
        self.advance(2);
    }

    // 0x00DN - XO-CHIP - Scroll display N lines up
    pub(super) fn opcode_xochip_0x00DN(&mut self, n: u8)
        ensures
            final(self)@ == old(self)@.with_vmem(old(self)@.vmem.shift(0, -(n as int))).step(),
    {
        proof {
            use_type_invariant(&*self);
        }
        self.vmem.scroll_up(n as usize);
        assert(self@.vmem == old(self)@.vmem.shift(0, -(n as int)));
        self.advance(2);
    }

    /// Clears the selected plane(s) and sets the draw flag.
    pub(super) fn clear_screen(&mut self)
        ensures
            final(self)@ == old(self)@.cleared(),
    {
        proof {
            use_type_invariant(&*self);
        }
        self.vmem.clear();
        self.draw = true;
        assert(self@.vmem == old(self)@.vmem.fill(false));
    }

    // 0x00E0 - Clear display
    pub(super) fn opcode_0x00E0(&mut self)
        ensures
            final(self)@ == old(self)@.cleared().step(),
    {
        self.clear_screen();
        self.advance(2);
    }

    // 0x00EE - Return from subroutine
    pub(super) fn opcode_0x00EE(&mut self) -> (res: Result<(), Error>)
        ensures
            old(self)@.leads_to(old(self)@.op_return(), final(self)@, res),
    {
        proof {
            use_type_invariant(&*self);
        }
        if self.sp == 0 {
            return Err(Error::StackUnderflow);
        }
        self.sp -= 1;
        let target = self.stack[self.sp];
        self.PC = if target > 0xFFFF - 2 {
            0xFFFF
        } else {
            target + 2
        };
        assert(self@.sp == old(self)@.sp - 1);
        Ok(())
    }

    // 0x00FB - SCHIP - Scroll display 4 pixels right
    pub(super) fn opcode_schip_0x00FB(&mut self)
        ensures
            final(self)@ == old(self)@.with_vmem(old(self)@.vmem.shift(4, 0)).step(),
    {
        proof {
            use_type_invariant(&*self);
        }
        self.vmem.scroll_right();
        assert(self@.vmem == old(self)@.vmem.shift(4, 0));
        self.advance(2);
    }

    // 0x00FC - SCHIP - Scroll display 4 pixels left
    pub(super) fn opcode_schip_0x00FC(&mut self)
        ensures
            final(self)@ == old(self)@.with_vmem(old(self)@.vmem.shift(-4, 0)).step(),
    {
        proof {
            use_type_invariant(&*self);
        }
        self.vmem.scroll_left();
        assert(self@.vmem == old(self)@.vmem.shift(-4, 0));
        self.advance(2);
    }

    // 0x00FD - SCHIP - Exit interpreter
    pub(super) fn opcode_schip_0x00FD(&mut self)
        ensures
            final(self)@ == old(self)@.op_exit(),
    {
        proof {
            use_type_invariant(&*self);
        }
        // Instead of leaving, the program is made to loop forever.
        let endless: [u8; 2] = [0x12, 0x00];
        copy_bytes(&mut self.mem, 0x200, &endless, 0, 2);
        self.PC = 0x200;
        assert(endless@.subrange(0, 2) =~= seq![0x12u8, 0x00u8]);
        assert(self@.pc == 0x200);
    }

    /// Switches the resolution mode.
    pub(super) fn set_mode(&mut self, mode: VideoMode)
        ensures
            final(self)@ == old(self)@.with_vmem(
                VideoMemoryView { mode: mode, ..old(self)@.vmem },
            ),
    {
        proof {
            use_type_invariant(&*self);
        }
        self.vmem.set_video_mode(mode);
        assert(self@.vmem == (VideoMemoryView { mode: mode, ..old(self)@.vmem }));
    }

    // 0x00FE - SCHIP - Disable extended screen mode
    pub(super) fn opcode_schip_0x00FE(&mut self)
        ensures
            final(self)@ == old(self)@.with_vmem(
                VideoMemoryView { mode: VideoMode::Default, ..old(self)@.vmem },
            ).step(),
    {
        self.set_mode(VideoMode::Default);
        self.advance(2);
    }

    // 0x00FF - SCHIP - Enable extended screen mode
    pub(super) fn opcode_schip_0x00FF(&mut self)
        ensures
            final(self)@ == old(self)@.with_vmem(
                VideoMemoryView { mode: VideoMode::Extended, ..old(self)@.vmem },
            ).step(),
    {
        self.set_mode(VideoMode::Extended);
        self.advance(2);
    }

    // 0x0230 - HiRes - Clear screen
    pub(super) fn opcode_hires_0x0230(&mut self)
        ensures
            final(self)@ == old(self)@.op_hires_clear(),
    {
        if self.hires() {
            self.clear_screen();
            self.advance(2);
        } else {
            self.opcode_0x0NNN();
        }
    }

    /// Whether the display is in HiRes mode.
    pub(super) fn hires(&self) -> (r: bool)
        ensures
            r == (self@.vmem.mode == VideoMode::HiRes),
    {
        self.vmem.video_mode() == VideoMode::HiRes
    }

    // 0x0NNN - Legacy SYS call, ignored
    pub(super) fn opcode_0x0NNN(&mut self)
        ensures
            final(self)@ == old(self)@.step(),
    {
        self.advance(2);
    }

    // 0x1NNN - Goto nnn
    pub(super) fn opcode_0x1NNN(&mut self, nnn: u16)
        ensures
            final(self)@ == old(self)@.goto(nnn as int),
    {
        proof {
            use_type_invariant(&*self);
        }
        self.PC = nnn;
        assert(self@.pc == nnn);
    }

    // 0x1260 - Activate HiRes mode - only if it's the first opcode
    pub(super) fn opcode_0x1260(&mut self, nnn: u16)
        ensures
            final(self)@ == old(self)@.op_hires_or_jump(nnn),
    {
        if self.PC == 0x200 {
            self.set_mode(VideoMode::HiRes);
            self.opcode_0x1NNN(0x2C0);
        } else {
            self.opcode_0x1NNN(nnn);
        }
    }

    // 0x2NNN - Call subroutine at nnn
    pub(super) fn opcode_0x2NNN(&mut self, nnn: u16) -> (res: Result<(), Error>)
        ensures
            old(self)@.leads_to(old(self)@.op_call(nnn), final(self)@, res),
    {
        proof {
            use_type_invariant(&*self);
        }
        if self.sp >= 16 {
            return Err(Error::StackOverflow);
        }
        self.stack[self.sp] = self.PC;
        self.sp += 1;
        self.PC = nnn;
        assert(self@.pc == nnn);
        Ok(())
    }

    // 0x3XNN - Skip next instruction if Vx == nn
    pub(super) fn opcode_0x3XNN(&mut self, x: usize, nn: u8)
        requires
            x < 16,
        ensures
            final(self)@ == old(self)@.skip_if(old(self)@.v[x as int] == nn),
    {
        self.skip_if(self.V[x] == nn);
    }

    // 0x4XNN - Skip next instruction if Vx != nn
    pub(super) fn opcode_0x4XNN(&mut self, x: usize, nn: u8)
        requires
            x < 16,
        ensures
            final(self)@ == old(self)@.skip_if(old(self)@.v[x as int] != nn),
    {
        self.skip_if(self.V[x] != nn);
    }

    // 0x5XY0 - Skip next instruction if Vx == Vy
    pub(super) fn opcode_0x5XY0(&mut self, x: usize, y: usize)
        requires
            x < 16,
            y < 16,
        ensures
            final(self)@ == old(self)@.skip_if(old(self)@.v[x as int] == old(self)@.v[y as int]),
    {
        self.skip_if(self.V[x] == self.V[y]);
    }

    // 0x5XY2 - XO-CHIP - Store Vx..Vy at I
    pub(super) fn opcode_xochip_0x5XY2(&mut self, x: usize, y: usize) -> (res: Result<(), Error>)
        requires
            x < 16,
            y < 16,
        ensures
            old(self)@.leads_to(old(self)@.op_store_range(x as int, y as int), final(self)@, res),
    {
        proof {
            use_type_invariant(&*self);
        }
        let (lo, hi) = if x <= y {
            (x, y)
        } else {
            (y, x)
        };
        let start = self.I as usize;
        if start + (hi - lo) >= MEMORY_SIZE {
            return Err(Error::MemoryOutOfBounds);
        }
        copy_bytes(&mut self.mem, start, &self.V, lo, hi - lo + 1);
        self.advance(2);
        Ok(())
    }

    // 0x5XY3 - XO-CHIP - Load Vx..Vy from I
    pub(super) fn opcode_xochip_0x5XY3(&mut self, x: usize, y: usize) -> (res: Result<(), Error>)
        requires
            x < 16,
            y < 16,
        ensures
            old(self)@.leads_to(old(self)@.op_load_range(x as int, y as int), final(self)@, res),
    {
        proof {
            use_type_invariant(&*self);
        }
        let (lo, hi) = if x <= y {
            (x, y)
        } else {
            (y, x)
        };
        let start = self.I as usize;
        if start + (hi - lo) >= MEMORY_SIZE {
            return Err(Error::MemoryOutOfBounds);
        }
        load_bytes(&mut self.V, lo, self.mem.as_slice(), start, hi - lo + 1);
        self.advance(2);
        Ok(())
    }

    // 0x6XNN - Vx = nn
    pub(super) fn opcode_0x6XNN(&mut self, x: usize, nn: u8)
        requires
            x < 16,
        ensures
            final(self)@ == old(self)@.with_v(x as int, nn).step(),
    {
        proof {
            use_type_invariant(&*self);
        }
        self.V[x] = nn;
        self.advance(2);
    }

    // 0x7XNN - Vx += nn
    pub(super) fn opcode_0x7XNN(&mut self, x: usize, nn: u8)
        requires
            x < 16,
        ensures
            final(self)@ == old(self)@.with_v(
                x as int,
                ((old(self)@.v[x as int] + nn) % 0x100) as u8,
            ).step(),
    {
        proof {
            use_type_invariant(&*self);
        }
        let res = self.V[x] as u16 + nn as u16;
        self.V[x] = (res % 0x100) as u8;
        self.advance(2);
    }

    // 0x8XY0 - Vx = Vy
    pub(super) fn opcode_0x8XY0(&mut self, x: usize, y: usize)
        requires
            x < 16,
            y < 16,
        ensures
            final(self)@ == old(self)@.with_v(x as int, old(self)@.v[y as int]).step(),
    {
        proof {
            use_type_invariant(&*self);
        }
        self.V[x] = self.V[y];
        self.advance(2);
    }

    // 0x8XY1 - Vx |= Vy
    pub(super) fn opcode_0x8XY1(&mut self, x: usize, y: usize)
        requires
            x < 16,
            y < 16,
        ensures
            final(self)@ == old(self)@.with_v(
                x as int,
                old(self)@.v[x as int] | old(self)@.v[y as int],
            ).step(),
    {
        proof {
            use_type_invariant(&*self);
        }
        self.V[x] = self.V[x] | self.V[y];
        self.advance(2);
    }

    // 0x8XY2 - Vx &= Vy
    pub(super) fn opcode_0x8XY2(&mut self, x: usize, y: usize)
        requires
            x < 16,
            y < 16,
        ensures
            final(self)@ == old(self)@.with_v(
                x as int,
                old(self)@.v[x as int] & old(self)@.v[y as int],
            ).step(),
    {
        proof {
            use_type_invariant(&*self);
        }
        self.V[x] = self.V[x] & self.V[y];
        self.advance(2);
    }

    // 0x8XY3 - Vx ^= Vy
    pub(super) fn opcode_0x8XY3(&mut self, x: usize, y: usize)
        requires
            x < 16,
            y < 16,
        ensures
            final(self)@ == old(self)@.with_v(
                x as int,
                old(self)@.v[x as int] ^ old(self)@.v[y as int],
            ).step(),
    {
        proof {
            use_type_invariant(&*self);
        }
        self.V[x] = self.V[x] ^ self.V[y];
        self.advance(2);
    }

    // 0x8XY4 - Vx += Vy
    pub(super) fn opcode_0x8XY4(&mut self, x: usize, y: usize)
        requires
            x < 16,
            y < 16,
        ensures
            final(self)@ == old(self)@.op_add(x as int, y as int),
    {
        proof {
            use_type_invariant(&*self);
        }
        let res = self.V[x] as u16 + self.V[y] as u16;
        let vf = if res > 0xFF {
            1
        } else {
            0
        };
        self.write_vf(x, (res % 0x100) as u8, vf);
        self.advance(2);
    }

    /// `Vx = a - b` with the flag cleared on a borrow.
    pub(super) fn subtract(&mut self, x: usize, a: u8, b: u8)
        requires
            x < 16,
        ensures
            final(self)@ == old(self)@.op_sub(x as int, a, b),
    {
        let res = if a >= b {
            a - b
        } else {
            (0x100 + a as u16 - b as u16) as u8
        };
        let vf = if a < b {
            0
        } else {
            1
        };
        self.write_vf(x, res, vf);
        self.advance(2);
    }

    // 0x8XY5 - Vx -= Vy
    pub(super) fn opcode_0x8XY5(&mut self, x: usize, y: usize)
        requires
            x < 16,
            y < 16,
        ensures
            final(self)@ == old(self)@.op_sub(
                x as int,
                old(self)@.v[x as int],
                old(self)@.v[y as int],
            ),
    {
        self.subtract(x, self.V[x], self.V[y]);
    }

    // 0x8XY6 - Bitshift right
    // Classic:  Vx = Vy >> 1
    // Quirk:    Vx >>= 1
    pub(super) fn opcode_0x8XY6(&mut self, x: usize, y: usize)
        requires
            x < 16,
            y < 16,
        ensures
            final(self)@ == old(self)@.op_shift_right(x as int, y as int),
    {
        let source = if self.quirk_shift {
            self.V[x]
        } else {
            self.V[y]
        };
        assert(source >> 1u8 == source / 2 && source & 1 == source % 2) by (bit_vector);
        self.write_vf(x, source >> 1u8, source & 1);
        self.advance(2);
    }

    // 0x8XY7 - Vx = Vy - Vx
    pub(super) fn opcode_0x8XY7(&mut self, x: usize, y: usize)
        requires
            x < 16,
            y < 16,
        ensures
            final(self)@ == old(self)@.op_sub(
                x as int,
                old(self)@.v[y as int],
                old(self)@.v[x as int],
            ),
    {
        self.subtract(x, self.V[y], self.V[x]);
    }

    // 0x8XYE - Bitshift left
    // Classic:  Vx = Vy << 1
    // Quirk:    Vx <<= 1
    pub(super) fn opcode_0x8XYE(&mut self, x: usize, y: usize)
        requires
            x < 16,
            y < 16,
        ensures
            final(self)@ == old(self)@.op_shift_left(x as int, y as int),
    {
        let source = if self.quirk_shift {
            self.V[x]
        } else {
            self.V[y]
        };
        assert(source << 1u8 == (source * 2 % 0x100) as u8 && (source & 0x80) >> 7u8 == source
            / 0x80) by (bit_vector);
        self.write_vf(x, source << 1u8, (source & 0x80) >> 7u8);
        self.advance(2);
    }

    // 0x9XY0 - Skip next instruction if Vx != Vy
    pub(super) fn opcode_0x9XY0(&mut self, x: usize, y: usize)
        requires
            x < 16,
            y < 16,
        ensures
            final(self)@ == old(self)@.skip_if(old(self)@.v[x as int] != old(self)@.v[y as int]),
    {
        self.skip_if(self.V[x] != self.V[y]);
    }

    // 0xANNN - I = nnn
    pub(super) fn opcode_0xANNN(&mut self, nnn: u16)
        ensures
            final(self)@ == (CpuView { i: nnn, ..old(self)@ }).step(),
    {
        proof {
            use_type_invariant(&*self);
        }
        self.I = nnn;
        assert(self@.i == nnn);
        self.advance(2);
    }

    // 0xBNNN - PC = nnn + V0
    // Classic:  PC = nnn + V0
    // Quirk:    PC = xnn + Vx
    pub(super) fn opcode_0xBNNN(&mut self, nnn: u16)
        requires
            nnn < 0x1000,
        ensures
            final(self)@ == old(self)@.op_jump_offset(nnn),
    {
        proof {
            use_type_invariant(&*self);
        }
        let offset = if self.quirk_jump {
            self.V[(nnn / 0x100) as usize]
        } else {
            self.V[0]
        };
        let target = nnn + offset as u16;
        self.PC = target;
        assert(self@.pc == target);
    }

    // 0xCXNN - Vx = random & nn
    pub(super) fn opcode_0xCXNN(&mut self, x: usize, nn: u8, random: u8)
        requires
            x < 16,
        ensures
            final(self)@ == old(self)@.with_v(x as int, random & nn).step(),
    {
        proof {
            use_type_invariant(&*self);
        }
        self.V[x] = random & nn;
        self.advance(2);
    }

    // 0xDXYN - draw(Vx, Vy, n)
    pub(super) fn opcode_0xDXYN(&mut self, x: usize, y: usize, n: usize) -> (res: Result<(), Error>)
        requires
            x < 16,
            y < 16,
            n < 16,
        ensures
            old(self)@.leads_to(
                old(self)@.op_draw(
                    old(self)@.v[x as int] as int,
                    old(self)@.v[y as int] as int,
                    n as int,
                ),
                final(self)@,
                res,
            ),
    {
        let drawn = self.draw_sprite(self.V[x] as usize, self.V[y] as usize, n);
        match drawn {
            Ok(()) => {
                self.advance(2);
                Ok(())
            },
            Err(e) => Err(e),
        }
    }

    /// Skips if the key that `Vx` names is pressed or not, as `wanted` says.
    pub(super) fn skip_on_key(&mut self, x: usize, wanted: bool) -> (res: Result<(), Error>)
        requires
            x < 16,
        ensures
            old(self)@.leads_to(old(self)@.op_skip_key(x as int, wanted), final(self)@, res),
    {
        let key = self.V[x] as usize;
        if key >= 16 {
            return Err(Error::InvalidKey);
        }
        self.skip_if(self.keys[key] == wanted);
        Ok(())
    }

    // 0xEX9E - Skip next instruction if key(Vx) is pressed
    pub(super) fn opcode_0xEX9E(&mut self, x: usize) -> (res: Result<(), Error>)
        requires
            x < 16,
        ensures
            old(self)@.leads_to(old(self)@.op_skip_key(x as int, true), final(self)@, res),
    {
        self.skip_on_key(x, true)
    }

    // 0xEXA1 - Skip next instruction if key(Vx) is not pressed
    pub(super) fn opcode_0xEXA1(&mut self, x: usize) -> (res: Result<(), Error>)
        requires
            x < 16,
        ensures
            old(self)@.leads_to(old(self)@.op_skip_key(x as int, false), final(self)@, res),
    {
        self.skip_on_key(x, false)
    }

    // 0xF000 NNNN - XO-CHIP - I = nnnn
    pub(super) fn opcode_xochip_0xF000(&mut self)
        ensures
            final(self)@ == old(self)@.op_load_i_long(),
    {
        proof {
            use_type_invariant(&*self);
        }
        self.I = self.next_opcode_ext;
        assert(self@.i == self@.next_opcode_ext);
        self.advance(4);
    }

    // 0xFN01 - XO-CHIP - Select plane(s) N
    pub(super) fn opcode_xochip_0xFN01(&mut self, x: usize)
        ensures
            final(self)@ == old(self)@.with_vmem(
                VideoMemoryView { plane: plane_of(x as int), ..old(self)@.vmem },
            ).step(),
    {
        proof {
            use_type_invariant(&*self);
        }
        let plane = match x % 4 {
            0 => Plane::Neither,
            1 => Plane::First,
            2 => Plane::Second,
            _ => Plane::Both,
        };
        self.vmem.select_plane(plane);
        assert(self@.vmem == (VideoMemoryView { plane: plane_of(x as int), ..old(self)@.vmem }));
        self.advance(2);
    }

    // 0xF002 - XO-CHIP - Load the audio pattern at I
    pub(super) fn opcode_xochip_0xF002(&mut self) -> (res: Result<(), Error>)
        ensures
            old(self)@.leads_to(old(self)@.op_audio(), final(self)@, res),
    {
        proof {
            use_type_invariant(&*self);
        }
        let start = self.I as usize;
        if start + 16 > MEMORY_SIZE {
            return Err(Error::MemoryOutOfBounds);
        }
        let mut buffer = [0u8; 16];
        load_bytes(&mut buffer, 0, self.mem.as_slice(), start, 16);
        self.audio_buffer = Some(buffer);
        assert(buffer@ =~= self.mem@.subrange(start as int, start + 16));
        assert(self@.audio_buffer == Some(buffer@));
        self.advance(2);
        Ok(())
    }

    // 0xFX07 - Vx = DT
    pub(super) fn opcode_0xFX07(&mut self, x: usize)
        requires
            x < 16,
        ensures
            final(self)@ == old(self)@.with_v(x as int, old(self)@.dt).step(),
    {
        proof {
            use_type_invariant(&*self);
        }
        self.V[x] = self.DT;
        self.advance(2);
    }

    // 0xFX0A - Vx = get_key()
    pub(super) fn opcode_0xFX0A(&mut self, x: usize)
        requires
            x < 16,
        ensures
            final(self)@ == (CpuView { key_wait: true, key_reg: x, ..old(self)@ }).step(),
    {
        proof {
            use_type_invariant(&*self);
        }
        self.key_wait = true;
        assert(self@.key_wait);
        self.key_reg = x;
        assert(self@.key_reg == x);
        self.advance(2);
    }

    // 0xFX15 - DT = Vx
    pub(super) fn opcode_0xFX15(&mut self, x: usize)
        requires
            x < 16,
        ensures
            final(self)@ == (CpuView { dt: old(self)@.v[x as int], ..old(self)@ }).step(),
    {
        proof {
            use_type_invariant(&*self);
        }
        self.DT = self.V[x];
        assert(self@.dt == self@.v[x as int]);
        self.advance(2);
    }

    // 0xFX18 - ST = Vx
    pub(super) fn opcode_0xFX18(&mut self, x: usize)
        requires
            x < 16,
        ensures
            final(self)@ == (CpuView { st: old(self)@.v[x as int], ..old(self)@ }).step(),
    {
        proof {
            use_type_invariant(&*self);
        }
        self.ST = self.V[x];
        assert(self@.st == self@.v[x as int]);
        self.advance(2);
    }

    // 0xFX1E - I += Vx
    // A sum that leaves memory sets VF, which some programs rely on.
    pub(super) fn opcode_0xFX1E(&mut self, x: usize)
        requires
            x < 16,
        ensures
            final(self)@ == old(self)@.op_add_i(x as int),
    {
        proof {
            use_type_invariant(&*self);
        }
        let sum = self.I as u32 + self.V[x] as u32;
        self.set_index(sum);
        if sum as usize >= MEMORY_SIZE {
            self.V[0xF] = 1;
        }
        self.advance(2);
    }

    // 0xFX29 - I = sprite_add(Vx)
    pub(super) fn opcode_0xFX29(&mut self, x: usize)
        requires
            x < 16,
        ensures
            final(self)@ == (CpuView { i: (old(self)@.v[x as int] * 5) as u16, ..old(self)@ }).step(),
    {
        proof {
            use_type_invariant(&*self);
        }
        let target = self.V[x] as u16 * 5;
        self.I = target;
        assert(self@.i == target);
        self.advance(2);
    }

    // 0xFX30 - SCHIP - I = 10-byte sprite_add(Vx)
    pub(super) fn opcode_schip_0xFX30(&mut self, x: usize)
        requires
            x < 16,
        ensures
            final(self)@ == (CpuView {
                i: (0x50 + old(self)@.v[x as int] * 10) as u16,
                ..old(self)@
            }).step(),
    {
        proof {
            use_type_invariant(&*self);
        }
        let target = 0x50 + self.V[x] as u16 * 10;
        self.I = target;
        assert(self@.i == target);
        self.advance(2);
    }

    // 0xFX33 - set_BCD(Vx)
    pub(super) fn opcode_0xFX33(&mut self, x: usize) -> (res: Result<(), Error>)
        requires
            x < 16,
        ensures
            old(self)@.leads_to(old(self)@.op_bcd(x as int), final(self)@, res),
    {
        proof {
            use_type_invariant(&*self);
        }
        let start = self.I as usize;
        if start + 2 >= MEMORY_SIZE {
            return Err(Error::MemoryOutOfBounds);
        }
        let value = self.V[x];
        let digits: [u8; 3] = [value / 100, (value % 100) / 10, value % 10];
        copy_bytes(&mut self.mem, start, &digits, 0, 3);
        assert(digits@.subrange(0, 3) =~= seq![value / 100, value % 100 / 10, value % 10]);
        self.advance(2);
        Ok(())
    }

    /// Moves the index register past a transfer of registers `0..=x` unless
    /// the load-store quirk is on, then goes to the next instruction.
    pub(super) fn finish_transfer(&mut self, x: usize)
        requires
            x < 16,
        ensures
            final(self)@ == old(self)@.after_transfer(x as int),
    {
        if !self.quirk_load_store {
            self.set_index(self.I as u32 + x as u32 + 1);
        }
        self.advance(2);
    }

    // 0xFX55 - reg_dump(Vx, &I)
    // Classic:  I is incremented
    // Quirk:    I is not incremented
    pub(super) fn opcode_0xFX55(&mut self, x: usize) -> (res: Result<(), Error>)
        requires
            x < 16,
        ensures
            old(self)@.leads_to(old(self)@.op_store(x as int), final(self)@, res),
    {
        proof {
            use_type_invariant(&*self);
        }
        let start = self.I as usize;
        if start + x >= MEMORY_SIZE {
            return Err(Error::MemoryOutOfBounds);
        }
        copy_bytes(&mut self.mem, start, &self.V, 0, x + 1);
        self.finish_transfer(x);
        Ok(())
    }

    // 0xFX65 - reg_load(Vx, &I)
    // Classic:  I is incremented
    // Quirk:    I is not incremented
    pub(super) fn opcode_0xFX65(&mut self, x: usize) -> (res: Result<(), Error>)
        requires
            x < 16,
        ensures
            old(self)@.leads_to(old(self)@.op_load(x as int), final(self)@, res),
    {
        proof {
            use_type_invariant(&*self);
        }
        let start = self.I as usize;
        if start + x >= MEMORY_SIZE {
            return Err(Error::MemoryOutOfBounds);
        }
        load_bytes(&mut self.V, 0, self.mem.as_slice(), start, x + 1);
        self.finish_transfer(x);
        Ok(())
    }

    // 0xFX75 - SCHIP - Store V0..VX in the flag registers (X < 8)
    pub(super) fn opcode_schip_0xFX75(&mut self, x: usize) -> (res: Result<(), Error>)
        requires
            x < 16,
        ensures
            old(self)@.leads_to(old(self)@.op_store_flags(x as int), final(self)@, res),
    {
        proof {
            use_type_invariant(&*self);
        }
        if x >= 8 {
            return Err(Error::InvalidFlagRegister);
        }
        load_bytes(&mut self.RPL, 0, &self.V, 0, x + 1);
        self.advance(2);
        Ok(())
    }

    // 0xFX85 - SCHIP - Read V0..VX from the flag registers (X < 8)
    pub(super) fn opcode_schip_0xFX85(&mut self, x: usize) -> (res: Result<(), Error>)
        requires
            x < 16,
        ensures
            old(self)@.leads_to(old(self)@.op_load_flags(x as int), final(self)@, res),
    {
        proof {
            use_type_invariant(&*self);
        }
        if x >= 8 {
            return Err(Error::InvalidFlagRegister);
        }
        load_bytes(&mut self.V, 0, &self.RPL, 0, x + 1);
        self.advance(2);
        Ok(())
    }

    /// Writes `value` to register `reg` and `vf` to the flag register, in
    /// the order that the VF-order quirk asks for.
    pub(super) fn write_vf(&mut self, reg: usize, value: u8, vf: u8)
        requires
            reg < 16,
        ensures
            final(self)@ == old(self)@.with_v_and_flag(reg as int, value, vf),
    {
        proof {
            use_type_invariant(&*self);
        }
        if self.quirk_vf_order {
            self.V[reg] = value;
            self.V[0xF] = vf;
        } else {
            self.V[0xF] = vf;
            self.V[reg] = value;
        }
    }
}

} // verus!

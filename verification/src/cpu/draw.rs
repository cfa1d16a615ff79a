//! Sprite drawing: `DXYN`.
//!
//! A sprite is 8 pixels wide and `n` rows high, or 16 rows for `n == 0`; in
//! extended mode, or with the draw quirk in any mode, a sprite with `n == 0`
//! is 16 pixels wide. Its rows lie in memory from the index register on,
//! one byte per row, or two for a wide sprite. With both planes selected the
//! rows for the second plane follow those for the first. Pixels are combined
//! with the screen by exclusive or; columns wrap around the screen, rows wrap
//! or are dropped as the vertical wrapping says. `VF` tells whether a pixel
//! that was set has been cleared.

use crate::cpu::model::CpuView;
use crate::cpu::model::MEMORY_SIZE;
use crate::cpu::Error;
use crate::cpu::CPU;
use crate::video_memory::Plane;
use crate::video_memory::VideoMemory;
use crate::video_memory::PLANE_CELLS;
use crate::video_memory::VideoMemoryView;
use crate::video_memory::VideoMode;
use vstd::prelude::*;

verus! {

/// Shape and place of a sprite on one plane.
pub struct Sprite {
    /// The plane drawn on: `Plane::First` or `Plane::Second`.
    pub plane: Plane,
    /// Address of the first row in memory.
    pub addr: int,
    /// Column of the screen for the sprite's left edge, before wrapping.
    pub x: int,
    /// Row of the screen for the sprite's top edge, before wrapping.
    pub y: int,
    /// Whether the sprite is 16 pixels wide.
    pub wide: bool,
    /// Number of rows.
    pub height: int,
    /// Whether rows below the screen wrap to its top.
    pub wrap: bool,
}

impl Sprite {
    /// Number of columns.
    pub open spec fn width(self) -> int {
        if self.wide {
            16
        } else {
            8
        }
    }

    /// Number of bytes that the rows take in memory.
    pub open spec fn bytes(self) -> int {
        if self.wide {
            2 * self.height
        } else {
            self.height
        }
    }

    /// The pixels of row `r`, the leftmost in the highest of `width` bits.
    pub open spec fn row(self, mem: Seq<u8>, r: int) -> u16 {
        if self.wide {
            (mem[self.addr + 2 * r] * 0x100 + mem[self.addr + 2 * r + 1]) as u16
        } else {
            mem[self.addr + r] as u16
        }
    }

    /// Whether the pixel in column `c` of a row with pixels `bits` is set.
    pub open spec fn bit(self, bits: u16, c: int) -> bool {
        (bits >> ((self.width() - 1 - c) as u16)) & 1 == 1
    }

    /// The screen and the collision flag after columns `c` and up of a row
    /// with pixels `bits` were drawn on screen row `py`.
    #[verifier::opaque]
    pub open spec fn draw_row(
        self,
        vm: VideoMemoryView,
        py: int,
        bits: u16,
        c: int,
        hit: bool,
    ) -> (VideoMemoryView, bool)
        decreases self.width() - c,
    {
        if c >= self.width() {
            (vm, hit)
        } else {
            let px = (self.x + c) % vm.width();
            let bit = self.bit(bits, c);
            let was = vm.pixel(self.plane, px, py);
            self.draw_row(vm.set_pixel(self.plane, px, py, was != bit), py, bits, c + 1, hit || (bit && was))
        }
    }

    /// The screen and the collision flag after rows `r` and up were drawn.
    #[verifier::opaque]
    pub open spec fn draw_rows(
        self,
        vm: VideoMemoryView,
        mem: Seq<u8>,
        r: int,
        hit: bool,
    ) -> (VideoMemoryView, bool)
        decreases self.height - r,
    {
        if r >= self.height {
            (vm, hit)
        } else if self.y + r >= vm.height() && !self.wrap {
            self.draw_rows(vm, mem, r + 1, hit)
        } else {
            let drawn = self.draw_row(vm, (self.y + r) % vm.height(), self.row(mem, r), 0, hit);
            self.draw_rows(drawn.0, mem, r + 1, drawn.1)
        }
    }

    /// The screen after the sprite was drawn, and whether it collided.
    pub open spec fn draw(self, vm: VideoMemoryView, mem: Seq<u8>) -> (VideoMemoryView, bool) {
        self.draw_rows(vm, mem, 0, false)
    }
}

/// Every logical pixel of the screen lies within the rendered picture.
pub proof fn lemma_pixel_in_bounds(vm: VideoMemoryView, px: int, py: int)
    requires
        0 <= px < vm.width(),
        0 <= py < vm.height(),
    ensures
        0 <= vm.pixel_index(px, py) <= vm.pixel_last_index(px, py) < vm.cell_count(),
        vm.cell_count() <= PLANE_CELLS,
{
}

/// Writing a pixel changes neither the mode, nor the selection, nor the
/// planes' sizes.
pub proof fn lemma_set_pixel_keeps_shape(
    vm: VideoMemoryView,
    plane: Plane,
    px: int,
    py: int,
    value: bool,
)
    requires
        vm.wf(),
        0 <= px < vm.width(),
        0 <= py < vm.height(),
    ensures
        vm.set_pixel(plane, px, py, value).mode == vm.mode,
        vm.set_pixel(plane, px, py, value).plane == vm.plane,
        vm.set_pixel(plane, px, py, value).wf(),
{
}

impl Sprite {
    /// Drawing part of a row changes neither the mode, nor the selection,
    /// nor the planes' sizes.
    pub proof fn lemma_draw_row_keeps_shape(
        self,
        vm: VideoMemoryView,
        py: int,
        bits: u16,
        c: int,
        hit: bool,
    )
        requires
            vm.wf(),
            0 <= py < vm.height(),
        ensures
            self.draw_row(vm, py, bits, c, hit).0.mode == vm.mode,
            self.draw_row(vm, py, bits, c, hit).0.plane == vm.plane,
            self.draw_row(vm, py, bits, c, hit).0.wf(),
        decreases self.width() - c,
    {
        reveal(Sprite::draw_row);
        if c < self.width() {
            let px = (self.x + c) % vm.width();
            let bit = self.bit(bits, c);
            let was = vm.pixel(self.plane, px, py);
            let next = vm.set_pixel(self.plane, px, py, was != bit);
            lemma_set_pixel_keeps_shape(vm, self.plane, px, py, was != bit);
            self.lemma_draw_row_keeps_shape(next, py, bits, c + 1, hit || (bit && was));
        }
    }
}

impl Sprite {
    /// Drawing rows changes neither the mode, nor the selection, nor the
    /// planes' sizes.
    pub proof fn lemma_draw_rows_keeps_shape(
        self,
        vm: VideoMemoryView,
        mem: Seq<u8>,
        r: int,
        hit: bool,
    )
        requires
            vm.wf(),
        ensures
            self.draw_rows(vm, mem, r, hit).0.mode == vm.mode,
            self.draw_rows(vm, mem, r, hit).0.plane == vm.plane,
            self.draw_rows(vm, mem, r, hit).0.wf(),
        decreases self.height - r,
    {
        reveal(Sprite::draw_rows);
        if r < self.height {
            if self.y + r >= vm.height() && !self.wrap {
                self.lemma_draw_rows_keeps_shape(vm, mem, r + 1, hit);
            } else {
                let py = (self.y + r) % vm.height();
                let drawn = self.draw_row(vm, py, self.row(mem, r), 0, hit);
                self.lemma_draw_row_keeps_shape(vm, py, self.row(mem, r), 0, hit);
                self.lemma_draw_rows_keeps_shape(drawn.0, mem, r + 1, drawn.1);
            }
        }
    }

    /// Drawing a sprite changes neither the mode, nor the selection, nor
    /// the planes' sizes.
    pub proof fn lemma_draw_keeps_shape(self, vm: VideoMemoryView, mem: Seq<u8>)
        requires
            vm.wf(),
        ensures
            self.draw(vm, mem).0.mode == vm.mode,
            self.draw(vm, mem).0.plane == vm.plane,
            self.draw(vm, mem).0.wf(),
    {
        self.lemma_draw_rows_keeps_shape(vm, mem, 0, false);
    }
}

impl CpuView {
    /// Whether a sprite of `n` rows is 16 pixels wide.
    pub open spec fn sprite_wide(self, n: int) -> bool {
        (self.vmem.mode == VideoMode::Extended || self.quirk_draw) && n == 0
    }

    /// The sprite that `DXYN` draws on `plane` at `(x, y)` from `addr`.
    pub open spec fn sprite(self, plane: Plane, addr: int, x: int, y: int, n: int) -> Sprite {
        Sprite {
            plane: plane,
            addr: addr,
            x: x,
            y: y,
            wide: self.sprite_wide(n),
            height: if n == 0 {
                16
            } else {
                n
            },
            wrap: self.vertical_wrapping,
        }
    }

    /// Number of selected planes.
    pub open spec fn plane_count(self) -> int {
        match self.vmem.plane {
            Plane::Neither => 0,
            Plane::Both => 2,
            _ => 1,
        }
    }

    /// Number of bytes of memory that `DXYN` reads.
    pub open spec fn sprite_bytes(self, n: int) -> int {
        self.plane_count() * self.sprite(Plane::First, 0, 0, 0, n).bytes()
    }

    /// The screen after `DXYN` drew at `(x, y)` on every selected plane,
    /// and whether any plane collided. The rows for the second plane lie
    /// behind those for the first where both are selected.
    pub open spec fn drawn(self, x: int, y: int, n: int) -> (VideoMemoryView, bool) {
        let first = self.sprite(Plane::First, self.i as int, x, y, n);
        let one = if self.vmem.plane.has_first() {
            first.draw(self.vmem, self.mem)
        } else {
            (self.vmem, false)
        };
        let second = self.sprite(
            Plane::Second,
            if self.vmem.plane.has_first() {
                self.i + first.bytes()
            } else {
                self.i as int
            },
            x,
            y,
            n,
        );
        let two = if self.vmem.plane.has_second() {
            second.draw(one.0, self.mem)
        } else {
            (one.0, false)
        };
        (two.0, one.1 || two.1)
    }

    /// `DXYN` with `x` and `y` the values of the two registers: draws the
    /// sprite on each selected plane, sets `VF` to 1 if any plane collided
    /// and to 0 if none did, and sets the draw flag.
    pub open spec fn op_draw(self, x: int, y: int, n: int) -> Result<CpuView, Error> {
        if self.i + self.sprite_bytes(n) > MEMORY_SIZE {
            Err(Error::MemoryOutOfBounds)
        } else {
            Ok(
                CpuView {
                    vmem: self.drawn(x, y, n).0,
                    v: self.v.update(
                        0xF,
                        if self.drawn(x, y, n).1 {
                            1u8
                        } else {
                            0u8
                        },
                    ),
                    draw: true,
                    ..self
                }.step(),
            )
        }
    }
}

impl CpuView {
    /// Drawing changes neither the mode, nor the selection, nor the planes'
    /// sizes.
    pub proof fn lemma_drawn_keeps_shape(self, x: int, y: int, n: int)
        requires
            self.vmem.wf(),
        ensures
            self.drawn(x, y, n).0.mode == self.vmem.mode,
            self.drawn(x, y, n).0.plane == self.vmem.plane,
            self.drawn(x, y, n).0.wf(),
    {
        let first = self.sprite(Plane::First, self.i as int, x, y, n);
        first.lemma_draw_keeps_shape(self.vmem, self.mem);
        let one = if self.vmem.plane.has_first() {
            first.draw(self.vmem, self.mem)
        } else {
            (self.vmem, false)
        };
        let second = self.sprite(
            Plane::Second,
            if self.vmem.plane.has_first() {
                self.i + first.bytes()
            } else {
                self.i as int
            },
            x,
            y,
            n,
        );
        second.lemma_draw_keeps_shape(one.0, self.mem);
    }
}

/// Draws one row of a sprite on screen row `py` and tells whether it
/// collided or `hit` was set.
fn draw_row(
    vmem: &mut VideoMemory,
    plane: Plane,
    x: usize,
    py: usize,
    bits: u16,
    wide: bool,
    hit: bool,
    Ghost(sprite): Ghost<Sprite>,
) -> (collided: bool)
    requires
        plane == Plane::First || plane == Plane::Second,
        x < 256,
        py < old(vmem)@.height(),
        sprite.plane == plane,
        sprite.x == x,
        sprite.wide == wide,
    ensures
        (final(vmem)@, collided) == sprite.draw_row(old(vmem)@, py as int, bits, 0, hit),
    no_unwind
{
    proof {
        use_type_invariant(&*vmem);
    }
    let width: usize = if wide {
        16
    } else {
        8
    };
    let screen_width = vmem.width();
    let ghost goal = sprite.draw_row(old(vmem)@, py as int, bits, 0, hit);
    let mut collision = hit;
    let mut c: usize = 0;
    while c < width
        invariant
            plane == Plane::First || plane == Plane::Second,
            x < 256,
            c <= width,
            width == sprite.width(),
            sprite.plane == plane,
            sprite.x == x,
            screen_width == vmem@.width(),
            vmem@.wf(),
            py < vmem@.height(),
            sprite.draw_row(vmem@, py as int, bits, c as int, collision) == goal,
        decreases width - c,
    {
        let ghost before = vmem@;
        let ghost hit_before = collision;
        let px = (x + c) % screen_width;
        proof {
            lemma_pixel_in_bounds(before, px as int, py as int);
        }
        let bit = (bits >> ((width - 1 - c) as u16)) & 1 == 1;
        let was = vmem.get_plane(plane, px, py);
        if bit && was {
            collision = true;
        }
        vmem.set_plane(plane, px, py, was != bit);
        proof {
            lemma_set_pixel_keeps_shape(before, plane, px as int, py as int, was != bit);
            assert(bit == sprite.bit(bits, c as int));
            assert(sprite.draw_row(before, py as int, bits, c as int, hit_before)
                == sprite.draw_row(vmem@, py as int, bits, c + 1, collision)) by {
                reveal(Sprite::draw_row);
            }
        }
        c += 1;
    }
    assert(sprite.draw_row(vmem@, py as int, bits, c as int, collision) == (vmem@, collision)) by {
        reveal(Sprite::draw_row);
    }
    collision
}

/// Draws the sprite whose rows lie in `mem` at `addr` on one plane and tells
/// whether it collided.
fn draw_plane(
    vmem: &mut VideoMemory,
    mem: &[u8],
    plane: Plane,
    addr: usize,
    x: usize,
    y: usize,
    wide: bool,
    height: usize,
    wrap: bool,
    Ghost(sprite): Ghost<Sprite>,
) -> (collided: bool)
    requires
        plane == Plane::First || plane == Plane::Second,
        x < 256,
        y < 256,
        1 <= height <= 16,
        sprite.plane == plane,
        sprite.addr == addr,
        sprite.x == x,
        sprite.y == y,
        sprite.wide == wide,
        sprite.height == height,
        sprite.wrap == wrap,
        addr + sprite.bytes() <= mem@.len() <= MEMORY_SIZE,
    ensures
        (final(vmem)@, collided) == sprite.draw(old(vmem)@, mem@),
        final(vmem)@.mode == old(vmem)@.mode,
        final(vmem)@.plane == old(vmem)@.plane,
    no_unwind
{
    proof {
        use_type_invariant(&*vmem);
    }
    let last_line = vmem.height();
    let ghost goal = sprite.draw(old(vmem)@, mem@);
    let mut collision = false;
    let mut r: usize = 0;
    while r < height
        invariant
            plane == Plane::First || plane == Plane::Second,
            x < 256,
            y < 256,
            r <= height <= 16,
            sprite.plane == plane,
            sprite.addr == addr,
            sprite.x == x,
            sprite.y == y,
            sprite.wide == wide,
            sprite.height == height,
            sprite.wrap == wrap,
            addr + sprite.bytes() <= mem@.len() <= MEMORY_SIZE,
            last_line == vmem@.height(),
            vmem@.wf(),
            vmem@.mode == old(vmem)@.mode,
            vmem@.plane == old(vmem)@.plane,
            sprite.draw_rows(vmem@, mem@, r as int, collision) == goal,
        decreases height - r,
    {
        let ghost before = vmem@;
        let ghost hit_before = collision;
        let row = y + r;
        if row < last_line || wrap {
            let bits: u16 = if wide {
                mem[addr + 2 * r] as u16 * 0x100 + mem[addr + 2 * r + 1] as u16
            } else {
                mem[addr + r] as u16
            };
            let py = row % last_line;
            proof {
                sprite.lemma_draw_row_keeps_shape(before, py as int, bits, 0, hit_before);
            }
            collision = draw_row(vmem, plane, x, py, bits, wide, collision, Ghost(sprite));
            proof {
                assert(bits == sprite.row(mem@, r as int));
                assert(sprite.draw_rows(before, mem@, r as int, hit_before) == sprite.draw_rows(
                    vmem@,
                    mem@,
                    r + 1,
                    collision,
                )) by {
                    reveal(Sprite::draw_rows);
                }
            }
        } else {
            assert(sprite.draw_rows(vmem@, mem@, r as int, collision) == sprite.draw_rows(
                vmem@,
                mem@,
                r + 1,
                collision,
            )) by {
                reveal(Sprite::draw_rows);
            }
        }
        r += 1;
    }
    assert(sprite.draw_rows(vmem@, mem@, r as int, collision) == (vmem@, collision)) by {
        reveal(Sprite::draw_rows);
    }
    collision
}

/// Draws the sprite in `mem` at `start` on every selected plane of `vmem`
/// and tells whether any plane collided.
fn draw_planes(
    vmem: &mut VideoMemory,
    mem: &[u8],
    start: usize,
    x: usize,
    y: usize,
    n: usize,
    wide: bool,
    wrap: bool,
    Ghost(cpu): Ghost<CpuView>,
) -> (collided: bool)
    requires
        x < 256,
        y < 256,
        n < 16,
        cpu.vmem == old(vmem)@,
        cpu.mem == mem@,
        cpu.i == start,
        cpu.vertical_wrapping == wrap,
        cpu.sprite_wide(n as int) == wide,
        mem@.len() == MEMORY_SIZE,
        start + cpu.sprite_bytes(n as int) <= MEMORY_SIZE,
    ensures
        (final(vmem)@, collided) == cpu.drawn(x as int, y as int, n as int),
    no_unwind
{
    proof {
        use_type_invariant(&*vmem);
    }
    let rows: usize = if n == 0 {
        16
    } else {
        n
    };
    let len = if wide {
        2 * rows
    } else {
        rows
    };
    let selected = vmem.current_plane();
    let ghost first = cpu.sprite(Plane::First, start as int, x as int, y as int, n as int);
    let mut addr = start;
    let mut collision = false;
    if selected == Plane::First || selected == Plane::Both {
        collision =
        draw_plane(vmem, mem, Plane::First, addr, x, y, wide, rows, wrap, Ghost(first));
        addr += len;
    }
    let ghost second = cpu.sprite(Plane::Second, addr as int, x as int, y as int, n as int);
    if selected == Plane::Second || selected == Plane::Both {
        let hit = draw_plane(vmem, mem, Plane::Second, addr, x, y, wide, rows, wrap, Ghost(second));
        collision = collision || hit;
    }
    collision
}

impl CPU {
    /// Draws the sprite of `height` rows at the index register on every
    /// selected plane, at column `x` and row `y`, and sets `VF` and the draw
    /// flag.
    pub(super) fn draw_sprite(&mut self, x: usize, y: usize, height: usize) -> (res: Result<
        (),
        Error,
    >)
        requires
            x < 256,
            y < 256,
            height < 16,
        ensures
            match old(self)@.op_draw(x as int, y as int, height as int) {
                Ok(next) => res == Ok::<(), Error>(()) && final(self)@.step() == next,
                Err(e) => res == Err::<(), Error>(e) && final(self)@ == old(self)@,
            },
    {
        proof {
            use_type_invariant(&*self);
        }
        let big_sprite = (self.vmem.video_mode() == VideoMode::Extended || self.quirk_draw)
            && height == 0;
        let rows: usize = if height == 0 {
            16
        } else {
            height
        };
        let len = if big_sprite {
            2 * rows
        } else {
            rows
        };
        let selected = self.vmem.current_plane();
        let count: usize = match selected {
            Plane::Neither => 0,
            Plane::Both => 2,
            _ => 1,
        };
        let start = self.I as usize;
        if start + count * len > MEMORY_SIZE {
            return Err(Error::MemoryOutOfBounds);
        }
        let wrap = self.vertical_wrapping;
        let ghost before = self@;
        proof {
            before.lemma_drawn_keeps_shape(x as int, y as int, height as int);
        }
        let collision = draw_planes(
            &mut self.vmem,
            self.mem.as_slice(),
            start,
            x,
            y,
            height,
            big_sprite,
            wrap,
            Ghost(before),
        );
        assert(self@.vmem == before.drawn(x as int, y as int, height as int).0);
        self.V[0xF] = if collision {
            1
        } else {
            0
        };
        self.draw = true;
        assert(self@.draw);
        Ok(())
    }
}

} // verus!

//! What drawing a sprite comes to, pixel by pixel: every pixel of the screen
//! that a set pixel of the sprite lands on is inverted, and every other
//! pixel stays as it was.

use crate::cpu::draw::Sprite;
use crate::video_memory::Plane;
use crate::video_memory::VideoMemoryView;
use crate::video_memory::VideoMode;
use vstd::prelude::*;

verus! {

impl Sprite {
    /// The column of the sprite that lands on column `px` of a screen
    /// `width` pixels wide, if it is below the sprite's width.
    pub open spec fn column_at(self, width: int, px: int) -> int {
        (px - self.x) % width
    }

    /// The row of the sprite that lands on row `py` of a screen `height`
    /// pixels high, if it is within the sprite's height.
    pub open spec fn row_at(self, height: int, py: int) -> int {
        if self.wrap {
            (py - self.y) % height
        } else {
            py - self.y
        }
    }

    /// Whether a set pixel of the sprite lands on the pixel `(px, py)` of
    /// the screen `vm`.
    pub open spec fn covers(self, vm: VideoMemoryView, mem: Seq<u8>, px: int, py: int) -> bool {
        let c = self.column_at(vm.width(), px);
        let r = self.row_at(vm.height(), py);
        0 <= r < self.height && c < self.width() && self.bit(self.row(mem, r), c)
    }

    /// Whether the sprite can be drawn: it lies on one plane, at a place
    /// that two registers can name, and has 1 to 16 rows.
    pub open spec fn drawable(self) -> bool {
        &&& self.plane == Plane::First || self.plane == Plane::Second
        &&& 0 <= self.x < 256
        &&& 0 <= self.y < 256
        &&& 1 <= self.height <= 16
    }
}

/// Writing a pixel sets that pixel and leaves every other pixel of the
/// screen as it was.
pub proof fn lemma_set_pixel_pixel(
    vm: VideoMemoryView,
    plane: Plane,
    px: int,
    py: int,
    value: bool,
    qx: int,
    qy: int,
)
    requires
        vm.wf(),
        plane == Plane::First || plane == Plane::Second,
        0 <= px < vm.width(),
        0 <= py < vm.height(),
        0 <= qx < vm.width(),
        0 <= qy < vm.height(),
    ensures
        vm.set_pixel(plane, px, py, value).pixel(plane, qx, qy) == if qx == px && qy == py {
            value
        } else {
            vm.pixel(plane, qx, qy)
        },
{
    let after = vm.set_pixel(plane, px, py, value);
    if vm.mode == VideoMode::Default {
        let q = (2 * qy) * 128 + 2 * qx;
        assert(vm.pixel_index(qx, qy) == q);
        assert(after.pixel_index(qx, qy) == q);
        assert(vm.index(2 * px, 2 * py) == (2 * py) * 128 + 2 * px);
        assert(vm.index(2 * px + 1, 2 * py) == (2 * py) * 128 + 2 * px + 1);
        assert(vm.index(2 * px, 2 * py + 1) == (2 * py + 1) * 128 + 2 * px);
        assert(vm.index(2 * px + 1, 2 * py + 1) == (2 * py + 1) * 128 + 2 * px + 1);
    } else if vm.mode == VideoMode::HiRes {
        assert(vm.pixel_index(qx, qy) == qy * 64 + qx);
        assert(vm.index(px, py) == py * 64 + px);
    } else {
        assert(vm.pixel_index(qx, qy) == qy * 128 + qx);
        assert(vm.index(px, py) == py * 128 + px);
    }
}

/// On a line of `w` places that wraps around, place `q` is `c` places
/// behind place `x` exactly if `c` is the distance from `x` to `q`.
proof fn lemma_wrapped_place(x: int, c: int, w: int, q: int)
    requires
        w == 32 || w == 64 || w == 128,
        0 <= x < 256,
        0 <= c < 16,
        0 <= q < w,
    ensures
        (q == (x + c) % w) == ((q - x) % w == c),
        0 <= (q - x) % w,
{
    if w == 32 {
        assert((q == (x + c) % 32) == ((q - x) % 32 == c));
    } else if w == 64 {
        assert((q == (x + c) % 64) == ((q - x) % 64 == c));
    } else {
        assert((q == (x + c) % 128) == ((q - x) % 128 == c));
    }
}

impl Sprite {
    /// Drawing the columns from `c` on of a row with pixels `bits` on screen
    /// row `py` inverts the pixels of that row on which a set pixel of
    /// these columns lands, and no other pixel.
    pub proof fn lemma_draw_row_pixel(
        self,
        vm: VideoMemoryView,
        py: int,
        bits: u16,
        c: int,
        hit: bool,
        qx: int,
        qy: int,
    )
        requires
            vm.wf(),
            self.drawable(),
            0 <= c,
            0 <= py < vm.height(),
            0 <= qx < vm.width(),
            0 <= qy < vm.height(),
        ensures
            self.draw_row(vm, py, bits, c, hit).0.pixel(self.plane, qx, qy) == (vm.pixel(
                self.plane,
                qx,
                qy,
            ) != (qy == py && c <= self.column_at(vm.width(), qx) < self.width() && self.bit(
                bits,
                self.column_at(vm.width(), qx),
            ))),
        decreases self.width() - c,
    {
        reveal(Sprite::draw_row);
        if c < self.width() {
            let px = (self.x + c) % vm.width();
            let bit = self.bit(bits, c);
            let was = vm.pixel(self.plane, px, py);
            let next = vm.set_pixel(self.plane, px, py, was != bit);
            crate::cpu::draw::lemma_set_pixel_keeps_shape(vm, self.plane, px, py, was != bit);
            lemma_set_pixel_pixel(vm, self.plane, px, py, was != bit, qx, qy);
            self.lemma_draw_row_pixel(next, py, bits, c + 1, hit || (bit && was), qx, qy);
            lemma_wrapped_place(self.x, c, vm.width(), qx);
            let q_col = self.column_at(vm.width(), qx);
            assert((qx == px) == (q_col == c));
            assert(next.pixel(self.plane, qx, qy) == if qx == px && qy == py {
                was != bit
            } else {
                vm.pixel(self.plane, qx, qy)
            });
            assert(self.draw_row(vm, py, bits, c, hit) == self.draw_row(
                next,
                py,
                bits,
                c + 1,
                hit || (bit && was),
            ));
        }
    }

    /// Drawing the rows from `r` on inverts the pixels on which a set pixel
    /// of these rows lands, and no other pixel.
    pub proof fn lemma_draw_rows_pixel(
        self,
        vm: VideoMemoryView,
        mem: Seq<u8>,
        r: int,
        hit: bool,
        qx: int,
        qy: int,
    )
        requires
            vm.wf(),
            self.drawable(),
            0 <= r,
            0 <= qx < vm.width(),
            0 <= qy < vm.height(),
        ensures
            self.draw_rows(vm, mem, r, hit).0.pixel(self.plane, qx, qy) == (vm.pixel(
                self.plane,
                qx,
                qy,
            ) != (r <= self.row_at(vm.height(), qy) && self.covers(vm, mem, qx, qy))),
        decreases self.height - r,
    {
        reveal(Sprite::draw_rows);
        if r < self.height {
            let h = vm.height();
            if self.y + r >= h && !self.wrap {
                self.lemma_draw_rows_pixel(vm, mem, r + 1, hit, qx, qy);
            } else {
                let py = (self.y + r) % h;
                let bits = self.row(mem, r);
                let drawn = self.draw_row(vm, py, bits, 0, hit);
                self.lemma_draw_row_keeps_shape(vm, py, bits, 0, hit);
                self.lemma_draw_row_pixel(vm, py, bits, 0, hit, qx, qy);
                self.lemma_draw_rows_pixel(drawn.0, mem, r + 1, drawn.1, qx, qy);
                lemma_wrapped_place(self.y, r, h, qy);
                lemma_wrapped_place(self.x, 0, vm.width(), qx);
                assert((qy == py) == (self.row_at(h, qy) == r));
            }
        }
    }
}

impl Sprite {
    /// Whether column `k` of a row with pixels `bits` is set and lands on a
    /// set pixel of row `py` of the screen `vm`.
    pub open spec fn column_hits(self, vm: VideoMemoryView, py: int, bits: u16, k: int) -> bool {
        self.bit(bits, k) && vm.pixel(self.plane, (self.x + k) % vm.width(), py)
    }

    /// Whether a set pixel of the sprite lands on the set pixel `(px, py)`
    /// of the screen `vm`.
    #[verifier::opaque]
    pub open spec fn hits(self, vm: VideoMemoryView, mem: Seq<u8>, px: int, py: int) -> bool {
        &&& 0 <= px < vm.width()
        &&& 0 <= py < vm.height()
        &&& self.covers(vm, mem, px, py)
        &&& vm.pixel(self.plane, px, py)
    }

    /// Drawing the columns from `c` on of a row collides exactly if one of
    /// them hits.
    pub proof fn lemma_draw_row_hit(self, vm: VideoMemoryView, py: int, bits: u16, c: int, hit: bool)
        requires
            vm.wf(),
            self.drawable(),
            0 <= c,
            0 <= py < vm.height(),
        ensures
            self.draw_row(vm, py, bits, c, hit).1 == (hit || exists|k: int|
                c <= k < self.width() && #[trigger] self.column_hits(vm, py, bits, k)),
        decreases self.width() - c,
    {
        reveal(Sprite::draw_row);
        if c < self.width() {
            let w = vm.width();
            let px = (self.x + c) % w;
            let bit = self.bit(bits, c);
            let was = vm.pixel(self.plane, px, py);
            let next = vm.set_pixel(self.plane, px, py, was != bit);
            crate::cpu::draw::lemma_set_pixel_keeps_shape(vm, self.plane, px, py, was != bit);
            self.lemma_draw_row_hit(next, py, bits, c + 1, hit || (bit && was));
            assert forall|k: int| c + 1 <= k < self.width() implies self.column_hits(
                next,
                py,
                bits,
                k,
            ) == self.column_hits(vm, py, bits, k) by {
                let qx = (self.x + k) % w;
                lemma_wrapped_place(self.x, c, w, qx);
                lemma_wrapped_place(self.x, k, w, qx);
                lemma_set_pixel_pixel(vm, self.plane, px, py, was != bit, qx, py);
            }
            let rest = exists|k: int|
                c + 1 <= k < self.width() && #[trigger] self.column_hits(next, py, bits, k);
            let all = exists|k: int|
                c <= k < self.width() && #[trigger] self.column_hits(vm, py, bits, k);
            if rest {
                let k = choose|k: int|
                    c + 1 <= k < self.width() && #[trigger] self.column_hits(next, py, bits, k);
                assert(self.column_hits(vm, py, bits, k));
            }
            if bit && was {
                assert(self.column_hits(vm, py, bits, c));
            }
            if all {
                let k = choose|k: int|
                    c <= k < self.width() && #[trigger] self.column_hits(vm, py, bits, k);
                if k != c {
                    assert(self.column_hits(next, py, bits, k));
                }
            }
        }
    }

    /// In a row of the sprite that is drawn, a column hits exactly if a set
    /// pixel of the sprite hits in the screen row that it lands on.
    pub proof fn lemma_row_hits(self, vm: VideoMemoryView, mem: Seq<u8>, r: int)
        requires
            vm.wf(),
            self.drawable(),
            0 <= r < self.height,
            self.wrap || self.y + r < vm.height(),
        ensures
            (exists|k: int|
                0 <= k < self.width() && #[trigger] self.column_hits(
                    vm,
                    (self.y + r) % vm.height(),
                    self.row(mem, r),
                    k,
                )) == (exists|px: int| #[trigger]
                self.hits(vm, mem, px, (self.y + r) % vm.height())),
            self.row_at(vm.height(), (self.y + r) % vm.height()) == r,
            0 <= (self.y + r) % vm.height() < vm.height(),
    {
        reveal(Sprite::hits);
        let h = vm.height();
        let w = vm.width();
        let py0 = (self.y + r) % h;
        let bits = self.row(mem, r);
        lemma_wrapped_place(self.y, r, h, py0);
        let by_column = exists|k: int|
            0 <= k < self.width() && #[trigger] self.column_hits(vm, py0, bits, k);
        let by_pixel = exists|px: int| #[trigger] self.hits(vm, mem, px, py0);
        if by_column {
            let k = choose|k: int|
                0 <= k < self.width() && #[trigger] self.column_hits(vm, py0, bits, k);
            let px = (self.x + k) % w;
            lemma_wrapped_place(self.x, k, w, px);
            assert(self.hits(vm, mem, px, py0));
        }
        if by_pixel {
            let px = choose|px: int| #[trigger] self.hits(vm, mem, px, py0);
            let k = self.column_at(w, px);
            lemma_wrapped_place(self.x, 0, w, px);
            lemma_wrapped_place(self.x, k, w, px);
            assert(self.column_hits(vm, py0, bits, k));
        }
    }

    /// Drawing a row changes no hit in another row.
    pub proof fn lemma_other_rows_hit(
        self,
        vm: VideoMemoryView,
        mem: Seq<u8>,
        py0: int,
        bits: u16,
        hit: bool,
        px: int,
        py: int,
    )
        requires
            vm.wf(),
            self.drawable(),
            0 <= py0 < vm.height(),
            py != py0,
        ensures
            self.hits(self.draw_row(vm, py0, bits, 0, hit).0, mem, px, py) == self.hits(
                vm,
                mem,
                px,
                py,
            ),
    {
        reveal(Sprite::hits);
        self.lemma_draw_row_keeps_shape(vm, py0, bits, 0, hit);
        if 0 <= px < vm.width() && 0 <= py < vm.height() {
            self.lemma_draw_row_pixel(vm, py0, bits, 0, hit, px, py);
        }
    }

    /// A pixel hits only in a row of the sprite.
    pub proof fn lemma_hits_in_rows(self, vm: VideoMemoryView, mem: Seq<u8>, px: int, py: int)
        requires
            self.hits(vm, mem, px, py),
        ensures
            0 <= self.row_at(vm.height(), py) < self.height,
            0 <= py < vm.height(),
            self.wrap || self.y + self.row_at(vm.height(), py) < vm.height(),
    {
        reveal(Sprite::hits);
    }

    /// Drawing the rows from `r` on collides exactly if a set pixel of
    /// these rows hits.
    pub proof fn lemma_draw_rows_hit(self, vm: VideoMemoryView, mem: Seq<u8>, r: int, hit: bool)
        requires
            vm.wf(),
            self.drawable(),
            0 <= r,
        ensures
            self.draw_rows(vm, mem, r, hit).1 == (hit || exists|px: int, py: int|
                r <= self.row_at(vm.height(), py) && #[trigger] self.hits(vm, mem, px, py)),
        decreases self.height - r,
    {
        reveal(Sprite::draw_rows);
        let h = vm.height();
        let all = exists|px: int, py: int|
            r <= self.row_at(h, py) && #[trigger] self.hits(vm, mem, px, py);
        if r >= self.height {
            if all {
                let (px, py) = choose|px: int, py: int|
                    r <= self.row_at(h, py) && #[trigger] self.hits(vm, mem, px, py);
                self.lemma_hits_in_rows(vm, mem, px, py);
            }
        } else if self.y + r >= h && !self.wrap {
            self.lemma_draw_rows_hit(vm, mem, r + 1, hit);
            let rest = exists|px: int, py: int|
                r + 1 <= self.row_at(h, py) && #[trigger] self.hits(vm, mem, px, py);
            if all {
                let (px, py) = choose|px: int, py: int|
                    r <= self.row_at(h, py) && #[trigger] self.hits(vm, mem, px, py);
                self.lemma_hits_in_rows(vm, mem, px, py);
                assert(r + 1 <= self.row_at(h, py) && self.hits(vm, mem, px, py));
            }
        } else {
            let py0 = (self.y + r) % h;
            let bits = self.row(mem, r);
            let drawn = self.draw_row(vm, py0, bits, 0, hit);
            self.lemma_row_hits(vm, mem, r);
            self.lemma_draw_row_keeps_shape(vm, py0, bits, 0, hit);
            self.lemma_draw_row_hit(vm, py0, bits, 0, hit);
            self.lemma_draw_rows_hit(drawn.0, mem, r + 1, drawn.1);
            let in_row = exists|px: int| #[trigger] self.hits(vm, mem, px, py0);
            let rest = exists|px: int, py: int|
                r + 1 <= self.row_at(h, py) && #[trigger] self.hits(drawn.0, mem, px, py);
            if in_row {
                let px = choose|px: int| #[trigger] self.hits(vm, mem, px, py0);
                assert(r <= self.row_at(h, py0) && self.hits(vm, mem, px, py0));
            }
            if rest {
                let (px, py) = choose|px: int, py: int|
                    r + 1 <= self.row_at(h, py) && #[trigger] self.hits(drawn.0, mem, px, py);
                self.lemma_other_rows_hit(vm, mem, py0, bits, hit, px, py);
                assert(r <= self.row_at(h, py) && self.hits(vm, mem, px, py));
            }
            if all {
                let (px, py) = choose|px: int, py: int|
                    r <= self.row_at(h, py) && #[trigger] self.hits(vm, mem, px, py);
                if py == py0 {
                    assert(self.hits(vm, mem, px, py0));
                } else {
                    self.lemma_hits_in_rows(vm, mem, px, py);
                    lemma_wrapped_place(self.y, r, h, py);
                    self.lemma_other_rows_hit(vm, mem, py0, bits, hit, px, py);
                    assert(r + 1 <= self.row_at(h, py) && self.hits(drawn.0, mem, px, py));
                }
            }
        }
    }
}

/// Drawing a sprite collides exactly if one of its set pixels lands on a
/// pixel of its plane that was set.
pub proof fn law_draw_collision(sprite: Sprite, vm: VideoMemoryView, mem: Seq<u8>)
    requires
        vm.wf(),
        sprite.drawable(),
    ensures
        sprite.draw(vm, mem).1 == exists|px: int, py: int| #[trigger]
            sprite.hits(vm, mem, px, py),
{
    sprite.lemma_draw_rows_hit(vm, mem, 0, false);
    let left = exists|px: int, py: int|
        0 <= sprite.row_at(vm.height(), py) && #[trigger] sprite.hits(vm, mem, px, py);
    let right = exists|px: int, py: int| #[trigger] sprite.hits(vm, mem, px, py);
    if right {
        let (px, py) = choose|px: int, py: int| #[trigger] sprite.hits(vm, mem, px, py);
        sprite.lemma_hits_in_rows(vm, mem, px, py);
        assert(0 <= sprite.row_at(vm.height(), py) && sprite.hits(vm, mem, px, py));
    }
}

/// Drawing a sprite inverts every pixel of its plane on which one of its
/// set pixels lands and leaves every other pixel of that plane as it was:
/// the pixels are combined by exclusive or.
pub proof fn law_draw_xor(sprite: Sprite, vm: VideoMemoryView, mem: Seq<u8>, px: int, py: int)
    requires
        vm.wf(),
        sprite.drawable(),
        0 <= px < vm.width(),
        0 <= py < vm.height(),
    ensures
        sprite.draw(vm, mem).0.pixel(sprite.plane, px, py) == (vm.pixel(sprite.plane, px, py)
            != sprite.covers(vm, mem, px, py)),
{
    sprite.lemma_draw_rows_pixel(vm, mem, 0, false, px, py);
    if sprite.covers(vm, mem, px, py) {
        assert(0 <= sprite.row_at(vm.height(), py));
    }
}

/// Drawing the same sprite twice gives every pixel of the screen back.
pub proof fn law_draw_twice(sprite: Sprite, vm: VideoMemoryView, mem: Seq<u8>, px: int, py: int)
    requires
        vm.wf(),
        sprite.drawable(),
        0 <= px < vm.width(),
        0 <= py < vm.height(),
    ensures
        sprite.draw(sprite.draw(vm, mem).0, mem).0.pixel(sprite.plane, px, py) == vm.pixel(
            sprite.plane,
            px,
            py,
        ),
{
    let once = sprite.draw(vm, mem).0;
    sprite.lemma_draw_keeps_shape(vm, mem);
    law_draw_xor(sprite, vm, mem, px, py);
    law_draw_xor(sprite, once, mem, px, py);
}

} // verus!

//! Bit-plane video memory: two boolean planes of 128x64 cells, a resolution
//! mode that decides how logical pixels map onto cells, and scrolling.
//!
//! The planes are always stored at the largest resolution. In
//! `VideoMode::Default` a logical pixel covers a 2x2 block of cells, so that
//! scrolling, which works on cells, moves the picture by half a pixel per
//! cell. In the other modes a pixel is one cell.

use vstd::prelude::*;

verus! {

/// Resolution mode of the display.
#[derive(Copy, Clone, Debug, PartialEq, Eq, Structural)]
pub enum VideoMode {
    /// 64x32 logical pixels, each covering a 2x2 block of cells.
    Default,
    /// 64x64 logical pixels, one cell each.
    HiRes,
    /// 128x64 logical pixels, one cell each.
    Extended,
}

/// Selection of bit-planes.
#[derive(Copy, Clone, Debug, PartialEq, Eq, Structural)]
pub enum Plane {
    /// No plane.
    Neither,
    First,
    Second,
    Both,
}

impl Plane {
    /// Whether a write through this selection reaches the first plane.
    pub open spec fn has_first(self) -> bool {
        self == Plane::First || self == Plane::Both
    }

    /// Whether a write through this selection reaches the second plane.
    pub open spec fn has_second(self) -> bool {
        self == Plane::Second || self == Plane::Both
    }
}

/// Number of cells that each plane holds, whatever the mode.
pub const PLANE_CELLS: usize = 8192;

/// The framebuffer: two planes of cells, the resolution mode and the plane
/// selection that `clear`, `set_all` and the scroll operations act on.
pub struct VideoMemory {
    vmem1: Vec<bool>,
    vmem2: Vec<bool>,
    video_mode: VideoMode,
    plane: Plane,
}

/// Mathematical model of a `VideoMemory`.
pub struct VideoMemoryView {
    /// Cells of the first plane, row by row.
    pub first: Seq<bool>,
    /// Cells of the second plane, row by row.
    pub second: Seq<bool>,
    pub mode: VideoMode,
    /// The selected plane(s).
    pub plane: Plane,
}

impl View for VideoMemory {
    type V = VideoMemoryView;

    closed spec fn view(&self) -> VideoMemoryView {
        VideoMemoryView {
            first: self.vmem1@,
            second: self.vmem2@,
            mode: self.video_mode,
            plane: self.plane,
        }
    }
}

/// Cells of a plane after its contents moved by `(dx, dy)` cells inside the
/// top-left `rw` x `rh` rectangle of rows of `rw` cells: the cell at
/// `(x, y)` takes the value that `(x - dx, y - dy)` had, or `false` where that
/// lies outside the rectangle. Cells beyond the rectangle keep their value.
pub open spec fn shifted_cells(cells: Seq<bool>, rw: int, rh: int, dx: int, dy: int) -> Seq<bool> {
    Seq::new(
        cells.len(),
        |i: int|
            if i < rw * rh {
                let sx = i % rw - dx;
                let sy = i / rw - dy;
                0 <= sx < rw && 0 <= sy < rh && cells[sy * rw + sx]
            } else {
                cells[i]
            },
    )
}

impl VideoMemoryView {
    /// Both planes have their full size.
    pub open spec fn wf(self) -> bool {
        &&& self.first.len() == PLANE_CELLS
        &&& self.second.len() == PLANE_CELLS
    }

    /// Logical width in pixels.
    pub open spec fn width(self) -> int {
        match self.mode {
            VideoMode::Default => 64,
            VideoMode::HiRes => 64,
            VideoMode::Extended => 128,
        }
    }

    /// Logical height in pixels.
    pub open spec fn height(self) -> int {
        match self.mode {
            VideoMode::Default => 32,
            VideoMode::HiRes => 64,
            VideoMode::Extended => 64,
        }
    }

    /// Width of the rendered picture in cells.
    pub open spec fn render_width(self) -> int {
        match self.mode {
            VideoMode::HiRes => 64,
            _ => 128,
        }
    }

    /// Height of the rendered picture in cells.
    pub open spec fn render_height(self) -> int {
        64
    }

    /// Number of cells of the rendered picture.
    pub open spec fn cell_count(self) -> int {
        self.render_width() * self.render_height()
    }

    /// Index of the cell at column `x` of row `y`.
    pub open spec fn index(self, x: int, y: int) -> int {
        y * self.render_width() + x
    }

    /// Cells per pixel along each axis.
    pub open spec fn scale(self) -> int {
        if self.mode == VideoMode::Default {
            2
        } else {
            1
        }
    }

    /// Index of the top-left cell of the logical pixel `(x, y)`.
    pub open spec fn pixel_index(self, x: int, y: int) -> int {
        self.index(self.scale() * x, self.scale() * y)
    }

    /// Index of the last cell that the logical pixel `(x, y)` covers.
    pub open spec fn pixel_last_index(self, x: int, y: int) -> int {
        self.index(self.scale() * x + self.scale() - 1, self.scale() * y + self.scale() - 1)
    }

    /// Value of cell `index` as read through `plane`: a read through no plane
    /// yields `false`.
    pub open spec fn cell(self, plane: Plane, index: int) -> bool {
        match plane {
            Plane::First => self.first[index],
            Plane::Second => self.second[index],
            _ => false,
        }
    }

    /// Value of the logical pixel `(x, y)` as read through `plane`: that of
    /// its top-left cell.
    pub open spec fn pixel(self, plane: Plane, x: int, y: int) -> bool {
        self.cell(plane, self.pixel_index(x, y))
    }

    /// Cell `index` written with `value` on the planes that `plane` selects.
    pub open spec fn set_cell(self, plane: Plane, index: int, value: bool) -> VideoMemoryView {
        VideoMemoryView {
            first: if plane.has_first() {
                self.first.update(index, value)
            } else {
                self.first
            },
            second: if plane.has_second() {
                self.second.update(index, value)
            } else {
                self.second
            },
            ..self
        }
    }

    /// Every cell of the logical pixel `(x, y)` written with `value` on the
    /// planes that `plane` selects.
    pub open spec fn set_pixel(self, plane: Plane, x: int, y: int, value: bool) -> VideoMemoryView {
        if self.mode == VideoMode::Default {
            self.set_cell(plane, self.index(2 * x, 2 * y), value).set_cell(
                plane,
                self.index(2 * x + 1, 2 * y),
                value,
            ).set_cell(plane, self.index(2 * x, 2 * y + 1), value).set_cell(
                plane,
                self.index(2 * x + 1, 2 * y + 1),
                value,
            )
        } else {
            self.set_cell(plane, self.index(x, y), value)
        }
    }

    /// Every cell of the selected plane(s) set to `value`.
    pub open spec fn fill(self, value: bool) -> VideoMemoryView {
        VideoMemoryView {
            first: if self.plane.has_first() {
                Seq::new(self.first.len(), |i: int| value)
            } else {
                self.first
            },
            second: if self.plane.has_second() {
                Seq::new(self.second.len(), |i: int| value)
            } else {
                self.second
            },
            ..self
        }
    }

    /// The rendered picture of the selected plane(s) moved by `(dx, dy)`
    /// cells, vacated cells `false`.
    pub open spec fn shift(self, dx: int, dy: int) -> VideoMemoryView {
        VideoMemoryView {
            first: if self.plane.has_first() {
                shifted_cells(self.first, self.render_width(), self.render_height(), dx, dy)
            } else {
                self.first
            },
            second: if self.plane.has_second() {
                shifted_cells(self.second, self.render_width(), self.render_height(), dx, dy)
            } else {
                self.second
            },
            ..self
        }
    }
}

/// In default mode a pixel is a block of 2x2 cells: writing the pixel
/// `(x, y)` through `plane` sets the cells in the columns `2x` and `2x + 1`
/// of the rows `2y` and `2y + 1`, and no other cell. In the other modes a
/// pixel is the one cell in column `x` of row `y`.
pub proof fn law_pixel_cells(
    vm: VideoMemoryView,
    plane: Plane,
    x: int,
    y: int,
    value: bool,
    index: int,
)
    requires
        vm.wf(),
        plane == Plane::First || plane == Plane::Second,
        0 <= x < vm.width(),
        0 <= y < vm.height(),
        0 <= index < PLANE_CELLS,
    ensures
        vm.set_pixel(plane, x, y, value).cell(plane, index) == if vm.scale() * x <= index
            % vm.render_width() < vm.scale() * (x + 1) && vm.scale() * y <= index
            / vm.render_width() < vm.scale() * (y + 1) {
            value
        } else {
            vm.cell(plane, index)
        },
{
    if vm.mode == VideoMode::Default {
        assert(vm.index(2 * x, 2 * y) == (2 * y) * 128 + 2 * x);
        assert(vm.index(2 * x + 1, 2 * y) == (2 * y) * 128 + 2 * x + 1);
        assert(vm.index(2 * x, 2 * y + 1) == (2 * y + 1) * 128 + 2 * x);
        assert(vm.index(2 * x + 1, 2 * y + 1) == (2 * y + 1) * 128 + 2 * x + 1);
    } else if vm.mode == VideoMode::HiRes {
        assert(vm.index(x, y) == y * 64 + x);
    } else {
        assert(vm.index(x, y) == y * 128 + x);
    }
}

/// Scrolling moves the picture: after a scroll by `(dx, dy)` the cell in
/// column `x` of row `y` of a selected plane holds what the cell `dx` columns
/// to the left and `dy` rows above held, and `false` where there is no such
/// cell.
pub proof fn law_scroll_cells(vm: VideoMemoryView, dx: int, dy: int, x: int, y: int)
    requires
        vm.wf(),
        vm.plane == Plane::First || vm.plane == Plane::Second,
        0 <= x < vm.render_width(),
        0 <= y < vm.render_height(),
    ensures
        vm.shift(dx, dy).cell(vm.plane, vm.index(x, y)) == (0 <= x - dx < vm.render_width() && 0
            <= y - dy < vm.render_height() && vm.cell(vm.plane, vm.index(x - dx, y - dy))),
{
    let rw = vm.render_width();
    let i = vm.index(x, y);
    if rw == 64 {
        assert(i == y * 64 + x);
        assert(i % 64 == x && i / 64 == y);
        assert(vm.index(x - dx, y - dy) == (y - dy) * 64 + (x - dx));
    } else {
        assert(i == y * 128 + x);
        assert(i % 128 == x && i / 128 == y);
        assert(vm.index(x - dx, y - dy) == (y - dy) * 128 + (x - dx));
    }
}

/// Sets every element of `cells` to `value`.
fn fill_cells(cells: &mut Vec<bool>, value: bool)
    ensures
        final(cells)@ == Seq::new(old(cells)@.len(), |i: int| value),
    no_unwind
{
    let n = cells.len();
    let mut i: usize = 0;
    while i < n
        invariant
            n == cells@.len(),
            i <= n,
            forall|j: int| 0 <= j < i ==> cells@[j] == value,
        decreases n - i,
    {
        cells[i] = value;
        i += 1;
    }
    assert(cells@ =~= Seq::new(old(cells)@.len(), |i: int| value));
}

/// Splits a cell index into its column and row, for rows of 64 or 128 cells.
proof fn lemma_cell_coordinates(rw: int, i: int)
    requires
        rw == 64 || rw == 128,
        0 <= i < rw * 64,
    ensures
        0 <= i % rw < rw,
        0 <= i / rw < 64,
        i == (i / rw) * rw + i % rw,
{
    if rw == 64 {
        assert(i == (i / 64) * 64 + i % 64);
    } else {
        assert(i == (i / 128) * 128 + i % 128);
    }
}

/// Moves the picture towards higher coordinates by `(dx, dy)` cells, in place.
/// Walks the cells from the last to the first, so that each source cell is
/// read before it is overwritten.
fn shift_cells_forward(cells: &mut Vec<bool>, rw: usize, rh: usize, dx: usize, dy: usize)
    requires
        rw == 64 || rw == 128,
        rh == 64,
        old(cells)@.len() == PLANE_CELLS,
    ensures
        final(cells)@ == shifted_cells(old(cells)@, rw as int, rh as int, dx as int, dy as int),
    no_unwind
{
    let count = rw * rh;
    let ghost goal = shifted_cells(old(cells)@, rw as int, rh as int, dx as int, dy as int);
    let mut i: usize = count;
    while i > 0
        invariant
            rw == 64 || rw == 128,
            rh == 64,
            count == rw * rh,
            i <= count,
            old(cells)@.len() == PLANE_CELLS,
            cells@.len() == PLANE_CELLS,
            goal == shifted_cells(old(cells)@, rw as int, rh as int, dx as int, dy as int),
            forall|j: int| 0 <= j < i ==> cells@[j] == old(cells)@[j],
            forall|j: int| count <= j < PLANE_CELLS ==> cells@[j] == old(cells)@[j],
            forall|j: int| i <= j < count ==> cells@[j] == goal[j],
        decreases i,
    {
        i -= 1;
        proof {
            lemma_cell_coordinates(rw as int, i as int);
        }
        let x = i % rw;
        let y = i / rw;
        let value = if x >= dx && y >= dy {
            proof {
                let s = (y - dy) * rw + (x - dx);
                assert(0 <= s <= i) by {
                    if rw == 64 {
                        assert(s == (y - dy) * 64 + (x - dx));
                    } else {
                        assert(s == (y - dy) * 128 + (x - dx));
                    }
                }
            }
            cells[(y - dy) * rw + (x - dx)]
        } else {
            false
        };
        cells[i] = value;
    }
    assert(cells@ =~= goal);
}

/// Moves the picture towards lower coordinates by `(dx, dy)` cells, in place.
/// Walks the cells from the first to the last.
fn shift_cells_backward(cells: &mut Vec<bool>, rw: usize, rh: usize, dx: usize, dy: usize)
    requires
        rw == 64 || rw == 128,
        rh == 64,
        old(cells)@.len() == PLANE_CELLS,
    ensures
        final(cells)@ == shifted_cells(
            old(cells)@,
            rw as int,
            rh as int,
            -(dx as int),
            -(dy as int),
        ),
    no_unwind
{
    let count = rw * rh;
    let ghost goal = shifted_cells(old(cells)@, rw as int, rh as int, -(dx as int), -(dy as int));
    let mut i: usize = 0;
    while i < count
        invariant
            rw == 64 || rw == 128,
            rh == 64,
            count == rw * rh,
            i <= count,
            old(cells)@.len() == PLANE_CELLS,
            cells@.len() == PLANE_CELLS,
            goal == shifted_cells(
                old(cells)@,
                rw as int,
                rh as int,
                -(dx as int),
                -(dy as int),
            ),
            forall|j: int| i <= j < PLANE_CELLS ==> cells@[j] == old(cells)@[j],
            forall|j: int| 0 <= j < i ==> cells@[j] == goal[j],
        decreases count - i,
    {
        proof {
            lemma_cell_coordinates(rw as int, i as int);
        }
        let x = i % rw;
        let y = i / rw;
        let value = if dx < rw - x && dy < rh - y {
            proof {
                let s = (y + dy) * rw + (x + dx);
                assert(i <= s < count) by {
                    if rw == 64 {
                        assert(s == (y + dy) * 64 + (x + dx));
                    } else {
                        assert(s == (y + dy) * 128 + (x + dx));
                    }
                }
            }
            cells[(y + dy) * rw + (x + dx)]
        } else {
            false
        };
        cells[i] = value;
        i += 1;
    }
    assert(cells@ =~= goal);
}

impl VideoMemory {
    const WIDTH_DEFAULT: usize = 64;

    const HEIGHT_DEFAULT: usize = 32;

    const WIDTH_HIRES: usize = 64;

    const HEIGHT_HIRES: usize = 64;

    const WIDTH_EXTENDED: usize = 128;

    const HEIGHT_EXTENDED: usize = 64;

    /// Holds of every `VideoMemory`: its model is well-formed.
    #[verifier::type_invariant]
    pub open spec fn wf(&self) -> bool {
        self@.wf()
    }

    /// An empty screen in `VideoMode::Default` with the first plane selected.
    pub fn new() -> (r: Self)
        ensures
            r@.wf(),
            r@.first == Seq::new(PLANE_CELLS as nat, |i: int| false),
            r@.second == Seq::new(PLANE_CELLS as nat, |i: int| false),
            r@.mode == VideoMode::Default,
            r@.plane == Plane::First,
    {
        let r = Self {
            vmem1: vec![false; 128 * 64],
            vmem2: vec![false; 128 * 64],
            video_mode: VideoMode::Default,
            plane: Plane::First,
        };
        assert(r.vmem1@ =~= Seq::new(PLANE_CELLS as nat, |i: int| false));
        assert(r.vmem2@ =~= Seq::new(PLANE_CELLS as nat, |i: int| false));
        r
    }

    /// A screen made of the two planes given, or nothing where a plane has
    /// not `PLANE_CELLS` cells.
    pub fn from_parts(first: Vec<bool>, second: Vec<bool>, mode: VideoMode, plane: Plane) -> (r:
        Option<Self>)
        ensures
            r is Some <==> first@.len() == PLANE_CELLS && second@.len() == PLANE_CELLS,
            r matches Some(vmem) ==> vmem@ == (VideoMemoryView {
                first: first@,
                second: second@,
                mode: mode,
                plane: plane,
            }),
    {
        if first.len() == PLANE_CELLS && second.len() == PLANE_CELLS {
            Some(Self { vmem1: first, vmem2: second, video_mode: mode, plane })
        } else {
            None
        }
    }

    /// The cells of the first plane, row by row.
    pub fn first_plane(&self) -> (r: &[bool])
        ensures
            r@ == self@.first,
    {
        self.vmem1.as_slice()
    }

    /// The cells of the second plane, row by row.
    pub fn second_plane(&self) -> (r: &[bool])
        ensures
            r@ == self@.second,
    {
        self.vmem2.as_slice()
    }

    pub fn select_plane(&mut self, plane: Plane)
        ensures
            final(self)@ == (VideoMemoryView { plane: plane, ..old(self)@ }),
        no_unwind
    {
        proof {
            use_type_invariant(&*self);
        }
        self.plane = plane;
    }

    pub fn current_plane(&self) -> (r: Plane)
        ensures
            r == self@.plane,
        no_unwind
    {
        self.plane
    }

    pub fn video_mode(&self) -> (r: VideoMode)
        ensures
            r == self@.mode,
        no_unwind
    {
        self.video_mode
    }

    /// Switches the resolution mode. The cells stay as they are.
    pub fn set_video_mode(&mut self, mode: VideoMode)
        ensures
            final(self)@ == (VideoMemoryView { mode: mode, ..old(self)@ }),
        no_unwind
    {
        proof {
            use_type_invariant(&*self);
        }
        self.video_mode = mode;
    }

    /// Writes the logical pixel `(x, y)` on the planes that `plane` selects.
    pub fn set_plane(&mut self, plane: Plane, x: usize, y: usize, value: bool)
        requires
            0 <= old(self)@.pixel_last_index(x as int, y as int) < old(self)@.cell_count(),
        ensures
            final(self)@ == old(self)@.set_pixel(plane, x as int, y as int, value),
        no_unwind
    {
        // In default video mode the 64x32 screen is stored at 128x64, so that
        // the scroll operations can move it by half a pixel.
        proof {
            if self@.mode == VideoMode::Default {
                assert(self@.pixel_last_index(x as int, y as int) == (2 * y + 1) * 128 + 2 * x + 1);
            }
        }
        if self.video_mode == VideoMode::Default {
            let (x, y) = (x * 2, y * 2);
            self.set_index_plane(plane, self.to_index(x, y), value);
            self.set_index_plane(plane, self.to_index(x + 1, y), value);
            self.set_index_plane(plane, self.to_index(x, y + 1), value);
            self.set_index_plane(plane, self.to_index(x + 1, y + 1), value);
        } else {
            self.set_index_plane(plane, self.to_index(x, y), value);
        }
    }

    fn set_index_plane(&mut self, plane: Plane, index: usize, value: bool)
        requires
            index < old(self)@.cell_count(),
        ensures
            final(self)@ == old(self)@.set_cell(plane, index as int, value),
        no_unwind
    {
        proof {
            use_type_invariant(&*self);
        }
        match plane {
            Plane::Neither => (),
            Plane::First => self.vmem1[index] = value,
            Plane::Second => self.vmem2[index] = value,
            Plane::Both => {
                self.vmem1[index] = value;
                self.vmem2[index] = value;
            },
        }
    }

    /// Sets every cell of the selected plane(s) to `false`.
    pub fn clear(&mut self)
        ensures
            final(self)@ == old(self)@.fill(false),
        no_unwind
    {
        self.set_all(false);
    }

    /// Sets every cell of the selected plane(s) to `value`.
    pub fn set_all(&mut self, value: bool)
        ensures
            final(self)@ == old(self)@.fill(value),
        no_unwind
    {
        proof {
            use_type_invariant(&*self);
        }
        match self.plane {
            Plane::Neither => (),
            Plane::First => fill_cells(&mut self.vmem1, value),
            Plane::Second => fill_cells(&mut self.vmem2, value),
            Plane::Both => {
                fill_cells(&mut self.vmem1, value);
                fill_cells(&mut self.vmem2, value);
            },
        }
    }

    pub fn width(&self) -> (r: usize)
        ensures
            r == self@.width(),
        no_unwind
    {
        match self.video_mode {
            VideoMode::Default => Self::WIDTH_DEFAULT,
            VideoMode::HiRes => Self::WIDTH_HIRES,
            VideoMode::Extended => Self::WIDTH_EXTENDED,
        }
    }

    pub fn height(&self) -> (r: usize)
        ensures
            r == self@.height(),
        no_unwind
    {
        match self.video_mode {
            VideoMode::Default => Self::HEIGHT_DEFAULT,
            VideoMode::HiRes => Self::HEIGHT_HIRES,
            VideoMode::Extended => Self::HEIGHT_EXTENDED,
        }
    }

    /// Returns the render width.
    /// This differs from the screen width in default mode, which is rendered
    /// at the extended size.
    pub fn render_width(&self) -> (r: usize)
        ensures
            r == self@.render_width(),
        no_unwind
    {
        match self.video_mode {
            VideoMode::Default | VideoMode::Extended => Self::WIDTH_EXTENDED,
            VideoMode::HiRes => Self::WIDTH_HIRES,
        }
    }

    /// Returns the render height.
    pub fn render_height(&self) -> (r: usize)
        ensures
            r == self@.render_height(),
        no_unwind
    {
        match self.video_mode {
            VideoMode::Default | VideoMode::Extended => Self::HEIGHT_EXTENDED,
            VideoMode::HiRes => Self::HEIGHT_HIRES,
        }
    }

    /// Index of the cell at column `x` of row `y`.
    pub fn to_index(&self, x: usize, y: usize) -> (r: usize)
        requires
            self@.index(x as int, y as int) <= usize::MAX,
        ensures
            r == self@.index(x as int, y as int),
        no_unwind
    {
        assert(y * self@.render_width() <= self@.index(x as int, y as int)) by (nonlinear_arith)
            requires
                self@.index(x as int, y as int) == y * self@.render_width() + x,
                x >= 0,
        ;
        y * self.render_width() + x
    }

    /// Reads cell `index` through `plane`.
    pub fn get_index_plane(&self, plane: Plane, index: usize) -> (r: bool)
        requires
            index < self@.cell_count(),
            plane != Plane::Both,
        ensures
            r == self@.cell(plane, index as int),
        no_unwind
    {
        proof {
            use_type_invariant(self);
        }
        match plane {
            Plane::Neither => false,
            Plane::First => self.vmem1[index],
            Plane::Second => self.vmem2[index],
            Plane::Both => false,
        }
    }

    /// Reads the logical pixel `(x, y)` through `plane`.
    pub fn get_plane(&self, plane: Plane, x: usize, y: usize) -> (r: bool)
        requires
            0 <= self@.pixel_index(x as int, y as int) < self@.cell_count(),
            plane != Plane::Both,
        ensures
            r == self@.pixel(plane, x as int, y as int),
        no_unwind
    {
        proof {
            if self@.mode == VideoMode::Default {
                assert(self@.pixel_index(x as int, y as int) == (2 * y) * 128 + 2 * x);
            }
        }
        let (x, y) = if self.video_mode == VideoMode::Default {
            (x * 2, y * 2)
        } else {
            (x, y)
        };
        self.get_index_plane(plane, self.to_index(x, y))
    }

    /// Scrolls the selected plane(s) down by `lines` rows of cells.
    pub fn scroll_down(&mut self, lines: usize)
        ensures
            final(self)@ == old(self)@.shift(0, lines as int),
        no_unwind
    {
        proof {
            use_type_invariant(&*self);
        }
        let rw = self.render_width();
        let rh = self.render_height();
        if self.plane == Plane::First || self.plane == Plane::Both {
            shift_cells_forward(&mut self.vmem1, rw, rh, 0, lines);
        }
        if self.plane == Plane::Second || self.plane == Plane::Both {
            shift_cells_forward(&mut self.vmem2, rw, rh, 0, lines);
        }
    }

    /// Scrolls the selected plane(s) up by `lines` rows of cells.
    pub fn scroll_up(&mut self, lines: usize)
        ensures
            final(self)@ == old(self)@.shift(0, -(lines as int)),
        no_unwind
    {
        proof {
            use_type_invariant(&*self);
        }
        let rw = self.render_width();
        let rh = self.render_height();
        if self.plane == Plane::First || self.plane == Plane::Both {
            shift_cells_backward(&mut self.vmem1, rw, rh, 0, lines);
        }
        if self.plane == Plane::Second || self.plane == Plane::Both {
            shift_cells_backward(&mut self.vmem2, rw, rh, 0, lines);
        }
    }

    /// Scrolls the selected plane(s) left by 4 columns of cells.
    pub fn scroll_left(&mut self)
        ensures
            final(self)@ == old(self)@.shift(-4, 0),
        no_unwind
    {
        proof {
            use_type_invariant(&*self);
        }
        let rw = self.render_width();
        let rh = self.render_height();
        if self.plane == Plane::First || self.plane == Plane::Both {
            shift_cells_backward(&mut self.vmem1, rw, rh, 4, 0);
        }
        if self.plane == Plane::Second || self.plane == Plane::Both {
            shift_cells_backward(&mut self.vmem2, rw, rh, 4, 0);
        }
    }

    /// Scrolls the selected plane(s) right by 4 columns of cells.
    pub fn scroll_right(&mut self)
        ensures
            final(self)@ == old(self)@.shift(4, 0),
        no_unwind
    {
        proof {
            use_type_invariant(&*self);
        }
        let rw = self.render_width();
        let rh = self.render_height();
        if self.plane == Plane::First || self.plane == Plane::Both {
            shift_cells_forward(&mut self.vmem1, rw, rh, 4, 0);
        }
        if self.plane == Plane::Second || self.plane == Plane::Both {
            shift_cells_forward(&mut self.vmem2, rw, rh, 4, 0);
        }
    }
}

} // verus!

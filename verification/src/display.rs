//! The picture: the two planes of the video memory turned into colours.

use crate::video_memory::Plane;
use crate::video_memory::VideoMemory;
use crate::video_memory::VideoMemoryView;
use vstd::prelude::*;

verus! {

/// Number of bytes of a frame buffer: three for each of 128x64 cells.
pub const FRAME_BYTES: usize = 24576;

/// The colours of the background and of a cell set on the first plane, on
/// the second, and on both, as red, green and blue.
pub struct Palette {
    pub color_bg: [u8; 3],
    pub color_plane_1: [u8; 3],
    pub color_plane_2: [u8; 3],
    pub color_plane_both: [u8; 3],
}

impl Palette {
    /// The colour of a cell with the given values on the two planes.
    pub open spec fn color(self, first: bool, second: bool) -> Seq<u8> {
        if first && second {
            self.color_plane_both@
        } else if first {
            self.color_plane_1@
        } else if second {
            self.color_plane_2@
        } else {
            self.color_bg@
        }
    }
}

/// A picture of the screen: three bytes for each cell, row by row, and the
/// size of the picture in cells.
pub struct Frame {
    pub buffer: Vec<u8>,
    pub width: u32,
    pub height: u32,
}

/// The bytes of a frame buffer after the picture of `vmem` was drawn into
/// `buffer` with the colours of `palette`.
pub open spec fn painted(buffer: Seq<u8>, vmem: VideoMemoryView, palette: Palette) -> Seq<u8> {
    Seq::new(
        buffer.len(),
        |k: int|
            if k < 3 * vmem.cell_count() {
                palette.color(vmem.first[k / 3], vmem.second[k / 3])[k % 3]
            } else {
                buffer[k]
            },
    )
}

impl Frame {
    /// An empty picture with a buffer of `FRAME_BYTES` bytes.
    pub fn new() -> (r: Self)
        ensures
            r.buffer@ == Seq::new(FRAME_BYTES as nat, |k: int| 0u8),
            r.width == 0,
            r.height == 0,
    {
        let buffer = vec![0u8; 24576];
        assert(buffer@ =~= Seq::new(FRAME_BYTES as nat, |k: int| 0u8));
        Self { buffer, width: 0, height: 0 }
    }

    /// Draws the picture of `vmem` with the colours of `palette`: every
    /// cell of the rendered picture gets the colour of its two planes, and
    /// the frame the size of the rendered picture.
    pub fn copy_frame(&mut self, vmem: &VideoMemory, palette: &Palette)
        requires
            old(self).buffer@.len() == FRAME_BYTES,
        ensures
            final(self).buffer@ == painted(old(self).buffer@, vmem@, *palette),
            final(self).width == vmem@.render_width(),
            final(self).height == vmem@.render_height(),
    {
        proof {
            use_type_invariant(vmem);
        }
        let count = vmem.render_width() * vmem.render_height();
        let ghost goal = painted(old(self).buffer@, vmem@, *palette);
        let mut idx: usize = 0;
        while idx < count
            invariant
                idx <= count,
                count == vmem@.cell_count(),
                count <= 8192,
                vmem@.wf(),
                self.buffer@.len() == FRAME_BYTES,
                old(self).buffer@.len() == FRAME_BYTES,
                goal == painted(old(self).buffer@, vmem@, *palette),
                forall|k: int| 0 <= k < 3 * idx ==> self.buffer@[k] == goal[k],
                forall|k: int| 3 * idx <= k < FRAME_BYTES ==> self.buffer@[k] == old(self).buffer@[k],
            decreases count - idx,
        {
            let buf_idx = idx * 3;
            let first = vmem.get_index_plane(Plane::First, idx);
            let second = vmem.get_index_plane(Plane::Second, idx);
            let color = if first && second {
                palette.color_plane_both
            } else if first {
                palette.color_plane_1
            } else if second {
                palette.color_plane_2
            } else {
                palette.color_bg
            };
            assert(color@ == palette.color(vmem@.first[idx as int], vmem@.second[idx as int]));
            self.buffer[buf_idx] = color[0];
            self.buffer[buf_idx + 1] = color[1];
            self.buffer[buf_idx + 2] = color[2];
            proof {
                assert(buf_idx / 3 == idx && (buf_idx + 1) / 3 == idx && (buf_idx + 2) / 3 == idx);
                assert(buf_idx % 3 == 0 && (buf_idx + 1) % 3 == 1 && (buf_idx + 2) % 3 == 2);
                assert(goal[buf_idx as int] == color@[0]);
                assert(goal[buf_idx + 1] == color@[1]);
                assert(goal[buf_idx + 2] == color@[2]);
            }
            idx += 1;
        }
        self.width = vmem.render_width() as u32;
        self.height = vmem.render_height() as u32;
        assert(self.buffer@ =~= goal);
    }
}

} // verus!

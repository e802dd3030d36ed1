//! The palette: every video byte maps to one 32-bit RGBA pixel, through
//! a 4-color palette on its low two bits or a 16-color palette on its
//! low four bits.

use vstd::prelude::*;
use crate::state::{Chip8, VRAM_SIZE};

verus! {

/// The red, green and blue of a video byte. The color depends on the
/// byte and the 16-color toggle alone.
pub open spec fn palette_rgb(sixteen: bool, b: u8) -> (u8, u8, u8) {
    if sixteen {
        if b == 0x0 { (0x00u8, 0x00u8, 0x00u8) }
        else if b == 0x1 { (0xffu8, 0xffu8, 0xffu8) }
        else if b == 0x2 { (0xaau8, 0xaau8, 0xaau8) }
        else if b == 0x3 { (0x55u8, 0x55u8, 0x55u8) }
        else if b == 0x4 { (0xffu8, 0x00u8, 0x00u8) }
        else if b == 0x5 { (0x00u8, 0xffu8, 0x00u8) }
        else if b == 0x6 { (0x00u8, 0x00u8, 0xffu8) }
        else if b == 0x7 { (0xffu8, 0xffu8, 0x00u8) }
        else if b == 0x8 { (0x88u8, 0x00u8, 0x00u8) }
        else if b == 0x9 { (0x00u8, 0x88u8, 0x00u8) }
        else if b == 0xa { (0x00u8, 0x00u8, 0x88u8) }
        else if b == 0xb { (0x88u8, 0x88u8, 0x00u8) }
        else if b == 0xc { (0xffu8, 0x00u8, 0xffu8) }
        else if b == 0xd { (0x00u8, 0xffu8, 0xffu8) }
        else if b == 0xe { (0x88u8, 0x00u8, 0x88u8) }
        else { (0x00u8, 0x88u8, 0x88u8) }
    } else {
        let low = b & 3;
        if low == 0 { (0x22u8, 0x22u8, 0x22u8) }
        else if low == 1 { (0xffu8, 0xffu8, 0xffu8) }
        else if low == 2 { (0x00u8, 0x44u8, 0xaau8) }
        else { (0xaau8, 0x55u8, 0x00u8) }
    }
}

impl Chip8 {
    /// Render the video buffer as RGBA: cell `k` becomes the four bytes
    /// `frame[4k .. 4k+4]`, its color a function of the cell's byte and
    /// the 16-color toggle alone, with alpha always opaque.
    pub fn draw(&self, frame: &mut Vec<u8>)
        requires
            self.wf(),
            old(frame)@.len() == 4 * VRAM_SIZE,
        ensures
            final(frame)@.len() == 4 * VRAM_SIZE,
            forall|k: int| 0 <= k < VRAM_SIZE ==> {
                let (r, g, b) = palette_rgb(self.quirk_16_colors, #[trigger] self@.vram[k]);
                &&& final(frame)@[4 * k] == r
                &&& final(frame)@[4 * k + 1] == g
                &&& final(frame)@[4 * k + 2] == b
                &&& final(frame)@[4 * k + 3] == 0xffu8
            },
    {
        let mut k: usize = 0;
        while k < VRAM_SIZE
            invariant
                self.wf(),
                frame@.len() == 4 * VRAM_SIZE,
                k <= VRAM_SIZE,
                forall|j: int| 0 <= j < k ==> {
                    let (r, g, b) = palette_rgb(self.quirk_16_colors, #[trigger] self@.vram[j]);
                    &&& frame@[4 * j] == r
                    &&& frame@[4 * j + 1] == g
                    &&& frame@[4 * j + 2] == b
                    &&& frame@[4 * j + 3] == 0xffu8
                },
            decreases VRAM_SIZE - k,
        {
            let c = self.vram[k];
            let (r, g, b): (u8, u8, u8) = if self.quirk_16_colors {
                if c == 0x0 { (0x00, 0x00, 0x00) }
                else if c == 0x1 { (0xff, 0xff, 0xff) }
                else if c == 0x2 { (0xaa, 0xaa, 0xaa) }
                else if c == 0x3 { (0x55, 0x55, 0x55) }
                else if c == 0x4 { (0xff, 0x00, 0x00) }
                else if c == 0x5 { (0x00, 0xff, 0x00) }
                else if c == 0x6 { (0x00, 0x00, 0xff) }
                else if c == 0x7 { (0xff, 0xff, 0x00) }
                else if c == 0x8 { (0x88, 0x00, 0x00) }
                else if c == 0x9 { (0x00, 0x88, 0x00) }
                else if c == 0xa { (0x00, 0x00, 0x88) }
                else if c == 0xb { (0x88, 0x88, 0x00) }
                else if c == 0xc { (0xff, 0x00, 0xff) }
                else if c == 0xd { (0x00, 0xff, 0xff) }
                else if c == 0xe { (0x88, 0x00, 0x88) }
                else { (0x00, 0x88, 0x88) }
            } else {
                let low = c & 3;
                if low == 0 { (0x22, 0x22, 0x22) }
                else if low == 1 { (0xff, 0xff, 0xff) }
                else if low == 2 { (0x00, 0x44, 0xaa) }
                else { (0xaa, 0x55, 0x00) }
            };
            proof {
                assert(palette_rgb(self.quirk_16_colors, self@.vram[k as int]) == (r, g, b));
            }
            frame.set(4 * k, r);
            frame.set(4 * k + 1, g);
            frame.set(4 * k + 2, b);
            frame.set(4 * k + 3, 0xff);
            k += 1;
        }
    }
}

} // verus!

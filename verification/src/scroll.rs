//! The scroll engine: moves the video buffer by whole rows or columns,
//! per plane, leaving planes outside the current plane mask untouched.

use vstd::prelude::*;
use crate::state::{ArchState, Chip8, VRAM_SIZE};

verus! {

/// The mask that keeps the planes outside the current plane mask.
pub open spec fn mask_keep(plane: u8) -> u8 {
    (0xff - plane) as u8
}

/// One scroll-down pass by `n` rows: every cell keeps its unmasked
/// planes and receives the masked planes of the cell `n` rows above;
/// the top `n` rows are cleared in the masked planes.
pub open spec fn scroll_down_once_spec(vram: Seq<u8>, plane: u8, n: int) -> Seq<u8> {
    Seq::new(VRAM_SIZE as nat, |k: int| {
        let row = k / 128;
        if row < n {
            vram[k] & mask_keep(plane)
        } else {
            (vram[k] & mask_keep(plane)) | (vram[k - 128 * n] & plane)
        }
    })
}

/// One scroll-up pass by `n` rows.
pub open spec fn scroll_up_once_spec(vram: Seq<u8>, plane: u8, n: int) -> Seq<u8> {
    Seq::new(VRAM_SIZE as nat, |k: int| {
        let row = k / 128;
        if row >= 64 - n {
            vram[k] & mask_keep(plane)
        } else {
            (vram[k] & mask_keep(plane)) | (vram[k + 128 * n] & plane)
        }
    })
}

/// One scroll-right pass by four columns.
pub open spec fn scroll_right_once_spec(vram: Seq<u8>, plane: u8) -> Seq<u8> {
    Seq::new(VRAM_SIZE as nat, |k: int| {
        let col = k % 128;
        if col < 4 {
            vram[k] & mask_keep(plane)
        } else {
            (vram[k] & mask_keep(plane)) | (vram[k - 4] & plane)
        }
    })
}

/// One scroll-left pass by four columns.
pub open spec fn scroll_left_once_spec(vram: Seq<u8>, plane: u8) -> Seq<u8> {
    Seq::new(VRAM_SIZE as nat, |k: int| {
        let col = k % 128;
        if col >= 124 {
            vram[k] & mask_keep(plane)
        } else {
            (vram[k] & mask_keep(plane)) | (vram[k + 4] & plane)
        }
    })
}

/// Bound used to show scrolled cells stay inside the palette range.
pub proof fn lemma_blend_bound(d: u8, s: u8, plane: u8)
    requires
        d < 16,
        s < 16,
        plane < 16,
    ensures
        (d & mask_keep(plane)) < 16,
        ((d & mask_keep(plane)) | (s & plane)) < 16,
{
    assert(plane < 16 && d < 16 && s < 16 ==> ((d & ((0xff - plane) as u8)) < 16
        && ((d & ((0xff - plane) as u8)) | (s & plane)) < 16)) by (bit_vector);
}

/// One executable scroll-down pass.
pub fn scroll_down_pass(vram: &Vec<u8>, plane: u8, n: usize) -> (v: Vec<u8>)
    requires
        vram@.len() == VRAM_SIZE,
        n <= 16,
    ensures
        v@ == scroll_down_once_spec(vram@, plane, n as int),
{
    let mut v: Vec<u8> = Vec::new();
    let mut k: usize = 0;
    while k < VRAM_SIZE
        invariant
            vram@.len() == VRAM_SIZE,
            n <= 16,
            k <= VRAM_SIZE,
            v@.len() == k,
            forall|j: int| 0 <= j < k ==> v@[j] == scroll_down_once_spec(vram@, plane, n as int)[j],
        decreases VRAM_SIZE - k,
    {
        let row = k / 128;
        let val = if row < n {
            vram[k] & (0xff - plane)
        } else {
            (vram[k] & (0xff - plane)) | (vram[k - 128 * n] & plane)
        };
        v.push(val);
        k += 1;
    }
    proof {
        assert(v@ =~= scroll_down_once_spec(vram@, plane, n as int));
    }
    v
}

/// One executable scroll-up pass.
pub fn scroll_up_pass(vram: &Vec<u8>, plane: u8, n: usize) -> (v: Vec<u8>)
    requires
        vram@.len() == VRAM_SIZE,
        n <= 16,
    ensures
        v@ == scroll_up_once_spec(vram@, plane, n as int),
{
    let mut v: Vec<u8> = Vec::new();
    let mut k: usize = 0;
    while k < VRAM_SIZE
        invariant
            vram@.len() == VRAM_SIZE,
            n <= 16,
            k <= VRAM_SIZE,
            v@.len() == k,
            forall|j: int| 0 <= j < k ==> v@[j] == scroll_up_once_spec(vram@, plane, n as int)[j],
        decreases VRAM_SIZE - k,
    {
        let row = k / 128;
        let val = if row + n >= 64 {
            vram[k] & (0xff - plane)
        } else {
            (vram[k] & (0xff - plane)) | (vram[k + 128 * n] & plane)
        };
        v.push(val);
        k += 1;
    }
    proof {
        assert(v@ =~= scroll_up_once_spec(vram@, plane, n as int));
    }
    v
}

/// One executable scroll-right pass.
pub fn scroll_right_pass(vram: &Vec<u8>, plane: u8) -> (v: Vec<u8>)
    requires
        vram@.len() == VRAM_SIZE,
    ensures
        v@ == scroll_right_once_spec(vram@, plane),
{
    let mut v: Vec<u8> = Vec::new();
    let mut k: usize = 0;
    while k < VRAM_SIZE
        invariant
            vram@.len() == VRAM_SIZE,
            k <= VRAM_SIZE,
            v@.len() == k,
            forall|j: int| 0 <= j < k ==> v@[j] == scroll_right_once_spec(vram@, plane)[j],
        decreases VRAM_SIZE - k,
    {
        let col = k % 128;
        let val = if col < 4 {
            vram[k] & (0xff - plane)
        } else {
            (vram[k] & (0xff - plane)) | (vram[k - 4] & plane)
        };
        v.push(val);
        k += 1;
    }
    proof {
        assert(v@ =~= scroll_right_once_spec(vram@, plane));
    }
    v
}

/// One executable scroll-left pass.
pub fn scroll_left_pass(vram: &Vec<u8>, plane: u8) -> (v: Vec<u8>)
    requires
        vram@.len() == VRAM_SIZE,
    ensures
        v@ == scroll_left_once_spec(vram@, plane),
{
    let mut v: Vec<u8> = Vec::new();
    let mut k: usize = 0;
    while k < VRAM_SIZE
        invariant
            vram@.len() == VRAM_SIZE,
            k <= VRAM_SIZE,
            v@.len() == k,
            forall|j: int| 0 <= j < k ==> v@[j] == scroll_left_once_spec(vram@, plane)[j],
        decreases VRAM_SIZE - k,
    {
        let col = k % 128;
        let val = if col >= 124 {
            vram[k] & (0xff - plane)
        } else {
            (vram[k] & (0xff - plane)) | (vram[k + 4] & plane)
        };
        v.push(val);
        k += 1;
    }
    proof {
        assert(v@ =~= scroll_left_once_spec(vram@, plane));
    }
    v
}

/// Clearing the screen keeps only the planes outside the plane mask.
pub open spec fn clear_spec(vram: Seq<u8>, plane: u8) -> Seq<u8> {
    vram.map(|k: int, b: u8| b & mask_keep(plane))
}

impl Chip8 {
    /// The clear opcode: blank every cell in the planes of the current
    /// plane mask.
    pub fn clear_screen(&mut self)
        requires
            old(self).wf(),
        ensures
            final(self).wf(),
            final(self)@ == (ArchState { vram: clear_spec(old(self)@.vram, old(self)@.plane),
                ..old(self)@ }),
            final(self).blocks@ == old(self).blocks@,
            final(self).try_jit@ == old(self).try_jit@,
    {
        let ghost m0 = self@;
        let mask = 0xff - self.plane;
        let mut k: usize = 0;
        while k < VRAM_SIZE
            invariant
                self.vram@.len() == VRAM_SIZE,
                mask == mask_keep(m0.plane),
                k <= VRAM_SIZE,
                self@ == (ArchState { vram: self@.vram, ..m0 }),
                forall|j: int| 0 <= j < k ==> self.vram@[j] == (m0.vram[j] & mask_keep(m0.plane)),
                forall|j: int| k <= j < VRAM_SIZE ==> self.vram@[j] == m0.vram[j],
                self.blocks@ == old(self).blocks@,
                self.try_jit@ == old(self).try_jit@,
                self.cache_wf(),
            decreases VRAM_SIZE - k,
        {
            let b = self.vram[k];
            self.vram.set(k, b & mask);
            k += 1;
        }
        proof {
            assert(self@.vram =~= clear_spec(m0.vram, m0.plane));
            assert(self@ =~= (ArchState { vram: clear_spec(m0.vram, m0.plane), ..m0 }));
            assert forall|j: int| 0 <= j < VRAM_SIZE implies self@.vram[j] < 16 by {
                lemma_blend_bound(m0.vram[j], 0, m0.plane);
            }
        }
    }

    /// One scroll step in the given direction: down or up by `n` rows,
    /// or right or left by four columns, in the planes of the current
    /// plane mask.
    pub fn scroll_down(&mut self, n: usize)
        requires
            old(self).wf(),
            n <= 16,
        ensures
            final(self).wf(),
            final(self)@ == (ArchState { vram: scroll_down_once_spec(old(self)@.vram,
                old(self)@.plane, n as int), ..old(self)@ }),
            final(self).blocks@ == old(self).blocks@,
            final(self).try_jit@ == old(self).try_jit@,
    {
        let ghost m0 = self@;
        let v = scroll_down_pass(&self.vram, self.plane, n);
        self.vram = v;
        proof {
            assert(self@ =~= (ArchState { vram: scroll_down_once_spec(m0.vram, m0.plane, n as int),
                ..m0 }));
            assert forall|j: int| 0 <= j < VRAM_SIZE implies self@.vram[j] < 16 by {
                scroll_cell_bound(m0, j, self@.vram[j], n as int);
            }
        }
    }

    /// See `scroll_down`.
    pub fn scroll_up(&mut self, n: usize)
        requires
            old(self).wf(),
            n <= 16,
        ensures
            final(self).wf(),
            final(self)@ == (ArchState { vram: scroll_up_once_spec(old(self)@.vram,
                old(self)@.plane, n as int), ..old(self)@ }),
            final(self).blocks@ == old(self).blocks@,
            final(self).try_jit@ == old(self).try_jit@,
    {
        let ghost m0 = self@;
        let v = scroll_up_pass(&self.vram, self.plane, n);
        self.vram = v;
        proof {
            assert(self@ =~= (ArchState { vram: scroll_up_once_spec(m0.vram, m0.plane, n as int),
                ..m0 }));
            assert forall|j: int| 0 <= j < VRAM_SIZE implies self@.vram[j] < 16 by {
                scroll_cell_bound(m0, j, self@.vram[j], n as int);
            }
        }
    }

    /// See `scroll_down`.
    pub fn scroll_right(&mut self)
        requires
            old(self).wf(),
        ensures
            final(self).wf(),
            final(self)@ == (ArchState { vram: scroll_right_once_spec(old(self)@.vram,
                old(self)@.plane), ..old(self)@ }),
            final(self).blocks@ == old(self).blocks@,
            final(self).try_jit@ == old(self).try_jit@,
    {
        let ghost m0 = self@;
        let v = scroll_right_pass(&self.vram, self.plane);
        self.vram = v;
        proof {
            assert(self@ =~= (ArchState { vram: scroll_right_once_spec(m0.vram, m0.plane),
                ..m0 }));
            assert forall|j: int| 0 <= j < VRAM_SIZE implies self@.vram[j] < 16 by {
                scroll_cell_bound(m0, j, self@.vram[j], 0);
            }
        }
    }

    /// See `scroll_down`.
    pub fn scroll_left(&mut self)
        requires
            old(self).wf(),
        ensures
            final(self).wf(),
            final(self)@ == (ArchState { vram: scroll_left_once_spec(old(self)@.vram,
                old(self)@.plane), ..old(self)@ }),
            final(self).blocks@ == old(self).blocks@,
            final(self).try_jit@ == old(self).try_jit@,
    {
        let ghost m0 = self@;
        let v = scroll_left_pass(&self.vram, self.plane);
        self.vram = v;
        proof {
            assert(self@ =~= (ArchState { vram: scroll_left_once_spec(m0.vram, m0.plane),
                ..m0 }));
            assert forall|j: int| 0 <= j < VRAM_SIZE implies self@.vram[j] < 16 by {
                scroll_cell_bound(m0, j, self@.vram[j], 0);
            }
        }
    }
}

/// Any blend of two in-range cells through the plane mask stays in the
/// palette range.
proof fn scroll_cell_bound(m: ArchState, j: int, val: u8, n: int)
    requires
        m.wf(),
        0 <= j < VRAM_SIZE,
        val == (m.vram[j] & mask_keep(m.plane)) || exists|s: int|
            0 <= s < VRAM_SIZE && val == ((m.vram[j] & mask_keep(m.plane)) | (m.vram[s] & m.plane)),
    ensures
        val < 16,
{
    if val == (m.vram[j] & mask_keep(m.plane)) {
        lemma_blend_bound(m.vram[j], 0, m.plane);
    } else {
        let s = choose|s: int|
            0 <= s < VRAM_SIZE && val == ((m.vram[j] & mask_keep(m.plane)) | (m.vram[s]
                & m.plane));
        lemma_blend_bound(m.vram[j], m.vram[s], m.plane);
    }
}

} // verus!

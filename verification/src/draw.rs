//! The sprite engine: XOR rendering of 8xN and 16x16 sprites onto up to
//! four bitplanes, with per-quirk clipping or wrap-around, lo-res drawn
//! as hi-res with doubled pixels.

use vstd::prelude::*;
use crate::state::{ArchState, Chip8, VRAM_SIZE, MEM_SIZE};

verus! {

/// XOR one plane bit into one cell (hi-res) or a 2x2 block of cells
/// (lo-res); the collision flag reports whether any touched cell had the
/// plane bit set before.
pub open spec fn plot_spec(vram: Seq<u8>, planeid: u8, offs: int, hires: bool) -> (Seq<u8>, bool) {
    if hires {
        (vram.update(offs, vram[offs] ^ planeid), vram[offs] & planeid != 0)
    } else {
        let hit = (vram[offs] & planeid) + (vram[offs + 1] & planeid) + (vram[offs + 128]
            & planeid) + (vram[offs + 129] & planeid) != 0;
        let v = vram.update(offs, vram[offs] ^ planeid);
        let v = v.update(offs + 1, v[offs + 1] ^ planeid);
        let v = v.update(offs + 128, v[offs + 128] ^ planeid);
        let v = v.update(offs + 129, v[offs + 129] ^ planeid);
        (v, hit)
    }
}

/// Draw bits `j..8` of `byte` at row `drawy`, starting at column `drawx`;
/// returns the new video buffer, the collision flag of these bits, and
/// the column after the last bit.
#[verifier::opaque]
pub open spec fn draw_bits_spec(
    vram: Seq<u8>,
    planeid: u8,
    hires: bool,
    clip: bool,
    drawy: int,
    drawx: int,
    byte: u8,
    j: int,
) -> (Seq<u8>, bool, int)
    decreases 8 - j,
{
    if j >= 8 {
        (vram, false, drawx)
    } else if clip && drawx >= 128 {
        (vram, false, drawx)
    } else {
        let dx = drawx % 128;
        let bit_set = byte & 0x80 != 0;
        let offs = drawy * 128 + dx;
        let (v1, c1) = if bit_set {
            plot_spec(vram, planeid, offs, hires)
        } else {
            (vram, false)
        };
        let stride: int = if hires {
            1
        } else {
            2
        };
        let (v2, c2, fx) = draw_bits_spec(v1, planeid, hires, clip, drawy, dx + stride,
            (byte << 1) as u8, j + 1);
        (v2, c1 || c2, fx)
    }
}

/// Draw the `bw` remaining bytes of one sprite row, bytes
/// `mem[src + i] ..`; the column carries over from byte to byte.
#[verifier::opaque]
pub open spec fn draw_row_spec(
    mem: Seq<u8>,
    vram: Seq<u8>,
    planeid: u8,
    hires: bool,
    clip: bool,
    src: int,
    i: int,
    bw: int,
    drawy: int,
    drawx: int,
) -> (Seq<u8>, bool)
    decreases bw,
{
    if bw <= 0 {
        (vram, false)
    } else {
        let byte = mem[src + i];
        let (v1, c1, dx) = draw_bits_spec(vram, planeid, hires, clip, drawy, drawx, byte, 0);
        let (v2, c2) = draw_row_spec(mem, v1, planeid, hires, clip, src, i + 1, bw - 1, drawy, dx);
        (v2, c1 || c2)
    }
}

/// Draw the rows of one plane's sprite image, from byte offset `i` on:
/// each row consumes `byte_width` bytes; the row coordinate advances by
/// one (hi-res) or two (lo-res), wrapping to the top exactly at the
/// bottom edge unless the clipping quirk stops the sprite there.
#[verifier::opaque]
pub open spec fn draw_rows_spec(
    mem: Seq<u8>,
    vram: Seq<u8>,
    planeid: u8,
    hires: bool,
    clip: bool,
    src: int,
    i: int,
    num_bytes: int,
    byte_width: int,
    startx: int,
    drawy: int,
) -> (Seq<u8>, bool)
    decreases (if i < num_bytes { num_bytes - i } else { 0int }),
{
    if i >= num_bytes || byte_width <= 0 {
        (vram, false)
    } else {
        let (v1, c1) = draw_row_spec(mem, vram, planeid, hires, clip, src, i, byte_width, drawy,
            startx);
        let stride: int = if hires {
            1
        } else {
            2
        };
        let dy = drawy + stride;
        if dy == 64 {
            if clip {
                (v1, c1)
            } else {
                let (v2, c2) = draw_rows_spec(mem, v1, planeid, hires, clip, src, i + byte_width,
                    num_bytes, byte_width, startx, 0);
                (v2, c1 || c2)
            }
        } else {
            let (v2, c2) = draw_rows_spec(mem, v1, planeid, hires, clip, src, i + byte_width,
                num_bytes, byte_width, startx, dy);
            (v2, c1 || c2)
        }
    }
}

/// Draw the sprite once per plane bit of `plane` at or above `planeid`,
/// each pass consuming the next `num_bytes` bytes of guest memory;
/// returns the buffer, the combined collision flag, and the source
/// pointer after the last pass.
#[verifier::opaque]
pub open spec fn draw_planes_spec(
    mem: Seq<u8>,
    vram: Seq<u8>,
    plane: u8,
    planeid: int,
    hires: bool,
    clip: bool,
    src: int,
    num_bytes: int,
    byte_width: int,
    startx: int,
    starty: int,
) -> (Seq<u8>, bool, int)
    decreases (if planeid < 16 { 16 - planeid } else { 0int }),
{
    if planeid >= 16 || planeid <= 0 {
        (vram, false, src)
    } else if plane & (planeid as u8) != 0 {
        let (v1, c1) = draw_rows_spec(mem, vram, planeid as u8, hires, clip, src, 0, num_bytes,
            byte_width, startx, starty);
        let (v2, c2, s2) = draw_planes_spec(mem, v1, plane, planeid * 2, hires, clip,
            src + num_bytes, num_bytes, byte_width, startx, starty);
        (v2, c1 || c2, s2)
    } else {
        draw_planes_spec(mem, vram, plane, planeid * 2, hires, clip, src, num_bytes, byte_width,
            startx, starty)
    }
}

/// Source bytes a sprite draw consumes for the plane bits of `plane`
/// at or above position `planeid`: `nb` bytes for each set bit.
#[verifier::opaque]
pub open spec fn draw_span(plane: u8, planeid: int, nb: int) -> int
    decreases (if planeid < 16 { 16 - planeid } else { 0int }),
{
    if planeid >= 16 || planeid <= 0 {
        0
    } else if plane & (planeid as u8) != 0 {
        nb + draw_span(plane, planeid * 2, nb)
    } else {
        draw_span(plane, planeid * 2, nb)
    }
}

proof fn lemma_xor_lt16(a: u8, p: u8)
    requires
        a < 16,
        p < 16,
    ensures
        (a ^ p) < 16,
        (a & p) <= 15,
{
    assert(a < 16 && p < 16 ==> ((a ^ p) < 16 && (a & p) <= 15)) by (bit_vector);
}

proof fn lemma_mod128_even(d: u16)
    requires
        d % 2 == 0,
    ensures
        (d % 128) % 2 == 0,
{
    assert(d % 2 == 0 ==> (d % 128) % 2 == 0) by (bit_vector);
}

/// XOR one source bit into the video buffer: one cell in hi-res, a 2x2
/// block in lo-res.
fn plot(vram: &mut Vec<u8>, planeid: u8, drawy: usize, drawx: usize, hires: bool) -> (c: bool)
    requires
        old(vram)@.len() == VRAM_SIZE,
        forall|k: int| 0 <= k < VRAM_SIZE ==> old(vram)@[k] < 16,
        planeid < 16,
        drawy < 64,
        drawx < 128,
        !hires ==> drawy % 2 == 0 && drawx % 2 == 0,
    ensures
        final(vram)@.len() == VRAM_SIZE,
        forall|k: int| 0 <= k < VRAM_SIZE ==> final(vram)@[k] < 16,
        (final(vram)@, c) == plot_spec(old(vram)@, planeid, (drawy * 128 + drawx) as int, hires),
{
    let offs = drawy * 128 + drawx;
    if hires {
        let a = vram[offs];
        let hit = a & planeid != 0;
        vram.set(offs, a ^ planeid);
        proof {
            lemma_xor_lt16(a, planeid);
        }
        hit
    } else {
        let a0 = vram[offs];
        let a1 = vram[offs + 1];
        let a2 = vram[offs + 128];
        let a3 = vram[offs + 129];
        proof {
            lemma_xor_lt16(a0, planeid);
            lemma_xor_lt16(a1, planeid);
            lemma_xor_lt16(a2, planeid);
            lemma_xor_lt16(a3, planeid);
        }
        let hit = (a0 & planeid) + (a1 & planeid) + (a2 & planeid) + (a3 & planeid) != 0;
        vram.set(offs, a0 ^ planeid);
        vram.set(offs + 1, a1 ^ planeid);
        vram.set(offs + 128, a2 ^ planeid);
        vram.set(offs + 129, a3 ^ planeid);
        hit
    }
}

/// Draw the eight bits of one sprite byte; returns the collision flag
/// and the column after the last bit.
fn draw_byte(
    vram: &mut Vec<u8>,
    planeid: u8,
    hires: bool,
    clip: bool,
    drawy: usize,
    drawx0: usize,
    byte0: u8,
) -> (r: (bool, usize))
    requires
        old(vram)@.len() == VRAM_SIZE,
        forall|k: int| 0 <= k < VRAM_SIZE ==> old(vram)@[k] < 16,
        planeid < 16,
        drawy < 64,
        drawx0 <= 129,
        !hires ==> drawy % 2 == 0 && drawx0 % 2 == 0,
    ensures
        final(vram)@.len() == VRAM_SIZE,
        forall|k: int| 0 <= k < VRAM_SIZE ==> final(vram)@[k] < 16,
        (final(vram)@, r.0, r.1 as int) == draw_bits_spec(old(vram)@, planeid, hires, clip,
            drawy as int, drawx0 as int, byte0, 0),
        r.1 <= 129,
        !hires ==> r.1 % 2 == 0,
{
    let ghost target = draw_bits_spec(old(vram)@, planeid, hires, clip, drawy as int,
        drawx0 as int, byte0, 0);
    let mut drawx = drawx0;
    let mut byte = byte0;
    let mut xord = false;
    let mut j: usize = 0;
    let stride: usize = if hires {
        1
    } else {
        2
    };
    while j < 8
        invariant
            vram@.len() == VRAM_SIZE,
            forall|k: int| 0 <= k < VRAM_SIZE ==> vram@[k] < 16,
            planeid < 16,
            drawy < 64,
            drawx <= 129,
            !hires ==> drawy % 2 == 0 && drawx % 2 == 0,
            stride == (if hires { 1int } else { 2 }),
            j <= 8,
            ({
                let suf = draw_bits_spec(vram@, planeid, hires, clip, drawy as int, drawx as int,
                    byte, j as int);
                target == (suf.0, xord || suf.1, suf.2)
            }),
        decreases 8 - j,
    {
        proof {
            reveal_with_fuel(draw_bits_spec, 2);
        }
        if clip && drawx >= 128 {
            j += 1;
        } else {
            let dx = drawx % 128;
            proof {
                if !hires {
                    lemma_mod128_even(drawx as u16);
                    assert(drawx as u16 % 128 == (drawx % 128) as u16);
                }
            }
            let bit_set = byte & 0x80 != 0;
            if bit_set {
                let c1 = plot(vram, planeid, drawy, dx, hires);
                xord = xord || c1;
            }
            byte = byte << 1;
            drawx = dx + stride;
            j += 1;
        }
    }
    proof {
        reveal_with_fuel(draw_bits_spec, 2);
    }
    (xord, drawx)
}

/// Draw one sprite row of `bw` bytes (1 or 2), `mem[src + i] ..`.
fn draw_row(
    mem: &Vec<u8>,
    vram: &mut Vec<u8>,
    planeid: u8,
    hires: bool,
    clip: bool,
    src: usize,
    i: usize,
    bw: usize,
    drawy: usize,
    startx: usize,
) -> (c: bool)
    requires
        mem@.len() == MEM_SIZE,
        old(vram)@.len() == VRAM_SIZE,
        forall|k: int| 0 <= k < VRAM_SIZE ==> old(vram)@[k] < 16,
        planeid < 16,
        drawy < 64,
        startx < 128,
        bw == 1 || bw == 2,
        src + i + bw <= MEM_SIZE,
        !hires ==> drawy % 2 == 0 && startx % 2 == 0,
    ensures
        final(vram)@.len() == VRAM_SIZE,
        forall|k: int| 0 <= k < VRAM_SIZE ==> final(vram)@[k] < 16,
        (final(vram)@, c) == draw_row_spec(mem@, old(vram)@, planeid, hires, clip, src as int,
            i as int, bw as int, drawy as int, startx as int),
{
    proof {
        reveal_with_fuel(draw_row_spec, 4);
    }
    let byte = mem[src + i];
    let (c1, dx) = draw_byte(vram, planeid, hires, clip, drawy, startx, byte);
    if bw == 2 {
        let byte2 = mem[src + i + 1];
        let (c2, _dx2) = draw_byte(vram, planeid, hires, clip, drawy, dx, byte2);
        c1 || c2
    } else {
        c1
    }
}

/// Draw all rows of one plane's sprite image.
fn draw_plane_rows(
    mem: &Vec<u8>,
    vram: &mut Vec<u8>,
    planeid: u8,
    hires: bool,
    clip: bool,
    src: usize,
    num_bytes: usize,
    byte_width: usize,
    startx: usize,
    starty: usize,
) -> (c: bool)
    requires
        mem@.len() == MEM_SIZE,
        old(vram)@.len() == VRAM_SIZE,
        forall|k: int| 0 <= k < VRAM_SIZE ==> old(vram)@[k] < 16,
        planeid < 16,
        starty < 64,
        startx < 128,
        byte_width == 1 || (byte_width == 2 && num_bytes % 2 == 0),
        src + num_bytes <= MEM_SIZE,
        !hires ==> starty % 2 == 0 && startx % 2 == 0,
    ensures
        final(vram)@.len() == VRAM_SIZE,
        forall|k: int| 0 <= k < VRAM_SIZE ==> final(vram)@[k] < 16,
        (final(vram)@, c) == draw_rows_spec(mem@, old(vram)@, planeid, hires, clip, src as int, 0,
            num_bytes as int, byte_width as int, startx as int, starty as int),
{
    let ghost target = draw_rows_spec(mem@, old(vram)@, planeid, hires, clip, src as int, 0,
        num_bytes as int, byte_width as int, startx as int, starty as int);
    let mut i: usize = 0;
    let mut drawy = starty;
    let mut done = false;
    let mut xord = false;
    let stride: usize = if hires {
        1
    } else {
        2
    };
    while i < num_bytes && !done
        invariant
            mem@.len() == MEM_SIZE,
            vram@.len() == VRAM_SIZE,
            forall|k: int| 0 <= k < VRAM_SIZE ==> vram@[k] < 16,
            planeid < 16,
            drawy < 64,
            startx < 128,
            byte_width == 1 || (byte_width == 2 && num_bytes % 2 == 0),
            byte_width == 2 ==> i % 2 == 0,
            src + num_bytes <= MEM_SIZE,
            i <= num_bytes,
            !hires ==> drawy % 2 == 0 && startx % 2 == 0,
            stride == (if hires { 1int } else { 2 }),
            ({
                if done {
                    target == (vram@, xord)
                } else {
                    let suf = draw_rows_spec(mem@, vram@, planeid, hires, clip, src as int,
                        i as int, num_bytes as int, byte_width as int, startx as int,
                        drawy as int);
                    target == (suf.0, xord || suf.1)
                }
            }),
        decreases num_bytes - i,
    {
        proof {
            reveal_with_fuel(draw_rows_spec, 2);
        }
        let c1 = draw_row(mem, vram, planeid, hires, clip, src, i, byte_width, drawy, startx);
        xord = xord || c1;
        i += byte_width;
        let dy = drawy + stride;
        if dy == 64 {
            if clip {
                done = true;
            } else {
                drawy = 0;
            }
        } else {
            drawy = dy;
        }
    }
    proof {
        reveal_with_fuel(draw_rows_spec, 2);
    }
    xord
}

/// Draw a sprite once per set plane bit of `plane`, consuming
/// `num_bytes` source bytes per pass from `mem[src0..]`; returns the
/// collision flag that belongs in VF.
pub fn draw_planes(
    mem: &Vec<u8>,
    vram: &mut Vec<u8>,
    plane: u8,
    hires: bool,
    clip: bool,
    src0: usize,
    num_bytes: usize,
    byte_width: usize,
    startx: usize,
    starty: usize,
) -> (c: bool)
    requires
        mem@.len() == MEM_SIZE,
        old(vram)@.len() == VRAM_SIZE,
        forall|k: int| 0 <= k < VRAM_SIZE ==> old(vram)@[k] < 16,
        plane < 16,
        starty < 64,
        startx < 128,
        byte_width == 1 || (byte_width == 2 && num_bytes % 2 == 0),
        num_bytes <= 32,
        src0 < MEM_SIZE,
        src0 + draw_span(plane, 1, num_bytes as int) <= MEM_SIZE,
        !hires ==> starty % 2 == 0 && startx % 2 == 0,
    ensures
        final(vram)@.len() == VRAM_SIZE,
        forall|k: int| 0 <= k < VRAM_SIZE ==> final(vram)@[k] < 16,
        ({
            let r = draw_planes_spec(mem@, old(vram)@, plane, 1, hires, clip, src0 as int,
                num_bytes as int, byte_width as int, startx as int, starty as int);
            final(vram)@ == r.0 && c == r.1
        }),
{
    let ghost target = draw_planes_spec(mem@, old(vram)@, plane, 1, hires, clip, src0 as int,
        num_bytes as int, byte_width as int, startx as int, starty as int);
    let mut planeid: u8 = 1;
    let mut src = src0;
    let mut xord = false;
    while planeid < 16
        invariant
            mem@.len() == MEM_SIZE,
            vram@.len() == VRAM_SIZE,
            forall|k: int| 0 <= k < VRAM_SIZE ==> vram@[k] < 16,
            plane < 16,
            starty < 64,
            startx < 128,
            byte_width == 1 || (byte_width == 2 && num_bytes % 2 == 0),
            planeid == 1 || planeid == 2 || planeid == 4 || planeid == 8 || planeid == 16,
            src + draw_span(plane, planeid as int, num_bytes as int) <= MEM_SIZE,
            num_bytes <= 32,
            src <= MEM_SIZE + 128,
            !hires ==> starty % 2 == 0 && startx % 2 == 0,
            ({
                let suf = draw_planes_spec(mem@, vram@, plane, planeid as int, hires, clip,
                    src as int, num_bytes as int, byte_width as int, startx as int, starty as int);
                target == (suf.0, xord || suf.1, suf.2)
            }),
        decreases 16 - planeid,
    {
        proof {
            reveal_with_fuel(draw_planes_spec, 2);
            reveal_with_fuel(draw_span, 2);
        }
        if plane & planeid != 0 {
            proof {
                lemma_draw_span_nonneg(plane, planeid as int * 2, num_bytes as int);
            }
            let c1 = draw_plane_rows(mem, vram, planeid, hires, clip, src, num_bytes, byte_width,
                startx, starty);
            xord = xord || c1;
            src += num_bytes;
        }
        planeid *= 2;
    }
    proof {
        reveal_with_fuel(draw_planes_spec, 2);
    }
    xord
}

/// The non-negativity of the remaining source span.
pub(crate) proof fn lemma_draw_span_nonneg(plane: u8, planeid: int, nb: int)
    requires
        nb >= 0,
    ensures
        draw_span(plane, planeid, nb) >= 0,
    decreases (if planeid < 16 { 16 - planeid } else { 0int }),
{
    reveal_with_fuel(draw_span, 2);
    if planeid >= 16 || planeid <= 0 {
    } else {
        lemma_draw_span_nonneg(plane, planeid * 2, nb);
    }
}

} // verus!

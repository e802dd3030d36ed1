//! Verified opcode operations: the arithmetic and logic group with its
//! flag policy, register save and load with the memory quirk,
//! binary-coded decimal, conditional skip with the long-form rule, and
//! the cacheable-opcode predicate.

use vstd::prelude::*;
use crate::state::{ArchState, Chip8, Chip8System, MEM_SIZE};


verus! {

/// The 16-bit big-endian word at `a`.
pub open spec fn fetch16(m: ArchState, a: int) -> u16 {
    ((m.mem[a] as u16) << 8) | (m.mem[a + 1] as u16)
}

/// Whether the instruction at the program counter is the four-byte
/// long-form opcode: only the XO-CHIP variant has it.
pub open spec fn is_long_op(m: ArchState) -> bool {
    &&& m.system == Chip8System::XOCHIP
    &&& m.mem[m.pc as int] == 0xf0
    &&& m.mem[m.pc as int + 1] == 0x00
}

/// The register file after an arithmetic or logic opcode over
/// registers `x` and `y`. For `|`, `&` and `^` the flag register is
/// zeroed afterwards under the flag-reset quirk; add sets VF to the
/// carry, the subtractions to not-borrow, the shifts to the shifted-out
/// bit of the operand, which is VX under the shifting quirk and VY
/// otherwise. The flag write always lands after the result, so a
/// result stored in VF is overwritten by the flag.
pub open spec fn alu_spec(regs: Seq<u8>, x: int, y: int, n: int, shifting: bool, vf_reset: bool)
    -> Seq<u8> {
    let rx = regs[x];
    let ry = regs[y];
    if n == 0 {
        regs.update(x, ry)
    } else if n == 1 {
        let r1 = regs.update(x, rx | ry);
        if vf_reset {
            r1.update(15, 0u8)
        } else {
            r1
        }
    } else if n == 2 {
        let r1 = regs.update(x, rx & ry);
        if vf_reset {
            r1.update(15, 0u8)
        } else {
            r1
        }
    } else if n == 3 {
        let r1 = regs.update(x, rx ^ ry);
        if vf_reset {
            r1.update(15, 0u8)
        } else {
            r1
        }
    } else if n == 4 {
        let sum = rx as int + ry as int;
        regs.update(x, (sum % 256) as u8).update(15, if sum > 255 {
            1u8
        } else {
            0u8
        })
    } else if n == 5 {
        let res = if rx >= ry {
            (rx - ry) as u8
        } else {
            (rx as int + 256 - ry as int) as u8
        };
        regs.update(x, res).update(15, if rx >= ry {
            1u8
        } else {
            0u8
        })
    } else if n == 6 {
        let src = if shifting {
            rx
        } else {
            ry
        };
        regs.update(x, src >> 1).update(15, src & 1)
    } else if n == 7 {
        let res = if ry >= rx {
            (ry - rx) as u8
        } else {
            (ry as int + 256 - rx as int) as u8
        };
        regs.update(x, res).update(15, if ry >= rx {
            1u8
        } else {
            0u8
        })
    } else {
        let src = if shifting {
            rx
        } else {
            ry
        };
        regs.update(x, ((src as int * 2) % 256) as u8).update(15, src >> 7)
    }
}

/// The arithmetic and logic engine over a register file.
pub fn alu_regs(regs0: &Vec<u8>, x: usize, y: usize, n: usize, shifting: bool, vf_reset: bool)
    -> (r: Vec<u8>)
    requires
        regs0@.len() == 16,
        x < 16,
        y < 16,
        n <= 7 || n == 0xe,
    ensures
        r@ == alu_spec(regs0@, x as int, y as int, n as int, shifting, vf_reset),
        r@.len() == 16,
{
    let mut regs = regs0.clone();
    proof {
        assert(regs@ == regs0@);
    }
    let rx = regs[x];
    let ry = regs[y];
    if n == 0 {
        regs.set(x, ry);
    } else if n == 1 {
        regs.set(x, rx | ry);
        if vf_reset {
            regs.set(15, 0);
        }
    } else if n == 2 {
        regs.set(x, rx & ry);
        if vf_reset {
            regs.set(15, 0);
        }
    } else if n == 3 {
        regs.set(x, rx ^ ry);
        if vf_reset {
            regs.set(15, 0);
        }
    } else if n == 4 {
        let sum = rx as u16 + ry as u16;
        regs.set(x, (sum % 256) as u8);
        regs.set(15, if sum > 255 { 1 } else { 0 });
    } else if n == 5 {
        let res = if rx >= ry { rx - ry } else { ((rx as u16 + 256 - ry as u16) % 256) as u8 };
        regs.set(x, res);
        regs.set(15, if rx >= ry { 1 } else { 0 });
    } else if n == 6 {
        let src = if shifting { rx } else { ry };
        regs.set(x, src >> 1);
        regs.set(15, src & 1);
    } else if n == 7 {
        let res = if ry >= rx { ry - rx } else { ((ry as u16 + 256 - rx as u16) % 256) as u8 };
        regs.set(x, res);
        regs.set(15, if ry >= rx { 1 } else { 0 });
    } else {
        let src = if shifting { rx } else { ry };
        regs.set(x, ((src as u16 * 2) % 256) as u8);
        regs.set(15, src >> 7);
    }
    regs
}

/// The opcodes the block cache is willing to hold: everything but the
/// scrolls, the plane and audio loads, the jump-plus-register, the font
/// pointers, the pitch, and the persistent flag file.
pub open spec fn cacheable_op(op: u16) -> bool {
    let n0 = op >> 12;
    let nnn = op & 0xfff;
    let nn = op & 0xff;
    let n = op & 0xf;
    if n0 == 0x0 {
        nnn == 0x0e0 || nnn == 0x0ee || nnn == 0x0fe || nnn == 0x0ff
    } else if n0 == 0x5 {
        n == 0 || n == 2 || n == 3
    } else if n0 == 0xf {
        nn == 0x00 || nn == 0x07 || nn == 0x0a || nn == 0x15 || nn == 0x18 || nn == 0x1e
            || nn == 0x33 || nn == 0x55 || nn == 0x65
    } else {
        (0x1 <= n0 && n0 <= 0x4) || (0x6 <= n0 && n0 <= 0xa) || n0 == 0xc || n0 == 0xd
            || n0 == 0xe
    }
}

impl Chip8 {
    /// Advance the program counter over the next instruction: by four
    /// bytes when it is the long-form opcode, else by two.
    #[verifier::rlimit(100)]
    pub fn skip_ins(&mut self)
        requires
            old(self).wf(),
            old(self)@.pc + 2 <= 0xffff,
            is_long_op(old(self)@) ==> old(self)@.pc + 4 <= 0xffff,
        ensures
            final(self).wf(),
            final(self)@ == (ArchState {
                pc: if is_long_op(old(self)@) {
                    (old(self)@.pc + 4) as u16
                } else {
                    (old(self)@.pc + 2) as u16
                },
                ..old(self)@
            }),
            final(self).blocks@ == old(self).blocks@,
            final(self).try_jit@ == old(self).try_jit@,
    {
        let ghost m0 = self@;
        let pc = self.pc as usize;
        if self.system == Chip8System::XOCHIP && self.mem[pc] == 0xf0 && self.mem[pc + 1] == 0x00 {
            self.pc = self.pc + 4;
        } else {
            self.pc = self.pc + 2;
        }
        proof {
            assert(self@ =~= (ArchState {
                pc: if is_long_op(m0) { (m0.pc + 4) as u16 } else { (m0.pc + 2) as u16 },
                ..m0
            }));
        }
    }

    /// One arithmetic or logic opcode over registers `x` and `y`:
    /// the register file is rewritten as `alu_spec` says; every other
    /// field is kept.
    pub fn alu(&mut self, x: usize, y: usize, n: usize)
        requires
            old(self).wf(),
            x < 16,
            y < 16,
            n <= 7 || n == 0xe,
        ensures
            final(self).wf(),
            final(self)@ == (ArchState {
                regs: alu_spec(old(self)@.regs, x as int, y as int, n as int,
                    old(self)@.quirk_shifting, old(self)@.quirk_vf_reset),
                ..old(self)@
            }),
            final(self).blocks@ == old(self).blocks@,
            final(self).try_jit@ == old(self).try_jit@,
    {
        let ghost m0 = self@;
        self.regs = alu_regs(&self.regs, x, y, n, self.quirk_shifting, self.quirk_vf_reset);
        proof {
            assert(self@ =~= (ArchState {
                regs: alu_spec(m0.regs, x as int, y as int, n as int, m0.quirk_shifting,
                    m0.quirk_vf_reset),
                ..m0
            }));
        }
    }

    /// The binary-coded-decimal opcode: the three decimal digits of VX
    /// land at the index register, most significant first.
    pub fn bcd(&mut self, x: usize)
        requires
            old(self).wf(),
            x < 16,
            old(self)@.i + 2 < MEM_SIZE,
        ensures
            final(self).wf(),
            final(self)@ == (ArchState {
                mem: old(self)@.mem
                    .update(old(self)@.i as int, old(self)@.regs[x as int] / 100)
                    .update(old(self)@.i as int + 1, (old(self)@.regs[x as int] % 100) / 10)
                    .update(old(self)@.i as int + 2, (old(self)@.regs[x as int] % 100) % 10),
                ..old(self)@
            }),
            final(self).blocks@ == old(self).blocks@,
            final(self).try_jit@ == old(self).try_jit@,
    {
        let ghost m0 = self@;
        let mut value = self.regs[x];
        let i = self.i as usize;
        let h = value / 100;
        value = value % 100;
        let t = value / 10;
        let u = value % 10;
        self.mem.set(i, h);
        self.mem.set(i + 1, t);
        self.mem.set(i + 2, u);
        proof {
            assert(self@ =~= (ArchState {
                mem: m0.mem
                    .update(m0.i as int, m0.regs[x as int] / 100)
                    .update(m0.i as int + 1, (m0.regs[x as int] % 100) / 10)
                    .update(m0.i as int + 2, (m0.regs[x as int] % 100) % 10),
                ..m0
            }));
        }
    }

    /// The register save opcode: V0..=VX land at the index register;
    /// under the memory quirk the index register then advances by
    /// exactly X+1.
    #[verifier::rlimit(100)]
    pub fn save_regs(&mut self, x: usize)
        requires
            old(self).wf(),
            x < 16,
            old(self)@.i + x < MEM_SIZE,
            old(self)@.quirk_memory ==> old(self)@.i + x + 1 <= 0xffff,
        ensures
            final(self).wf(),
            final(self)@ == (ArchState {
                mem: old(self)@.mem.map(|a: int, b: u8| {
                    if old(self)@.i <= a <= old(self)@.i + x {
                        old(self)@.regs[a - old(self)@.i]
                    } else {
                        b
                    }
                }),
                i: if old(self)@.quirk_memory {
                    (old(self)@.i + x + 1) as u16
                } else {
                    old(self)@.i
                },
                ..old(self)@
            }),
            final(self).blocks@ == old(self).blocks@,
            final(self).try_jit@ == old(self).try_jit@,
    {
        let ghost m0 = self@;
        let base = self.i as usize;
        let mut k: usize = 0;
        while k <= x
            invariant
                self.mem@.len() == MEM_SIZE,
                self.regs@.len() == 16,
                x < 16,
                base == m0.i,
                base + x < MEM_SIZE,
                k <= x + 1,
                self@ == (ArchState { mem: self@.mem, ..m0 }),
                self.blocks@ == old(self).blocks@,
                self.try_jit@ == old(self).try_jit@,
                self.cache_wf(),
                forall|a: int| 0 <= a < MEM_SIZE && !(base <= a < base + k)
                    ==> self.mem@[a] == m0.mem[a],
                forall|a: int| base <= a < base + k ==> self.mem@[a] == m0.regs[a - base],
            decreases x + 1 - k,
        {
            self.mem.set(base + k, self.regs[k]);
            k += 1;
        }
        self.i = if self.quirk_memory {
            self.i + x as u16 + 1
        } else {
            self.i
        };
        proof {
            assert(self@.mem =~= m0.mem.map(|a: int, b: u8| {
                if m0.i <= a <= m0.i + x {
                    m0.regs[a - m0.i]
                } else {
                    b
                }
            }));
            assert(self@ =~= (ArchState {
                mem: self@.mem,
                i: if m0.quirk_memory {
                    (m0.i + x + 1) as u16
                } else {
                    m0.i
                },
                ..m0
            }));
        }
    }

    /// The register load opcode: V0..=VX are filled from the index
    /// register; under the memory quirk the index register then
    /// advances by exactly X+1.
    #[verifier::rlimit(100)]
    pub fn load_regs(&mut self, x: usize)
        requires
            old(self).wf(),
            x < 16,
            old(self)@.i + x < MEM_SIZE,
            old(self)@.quirk_memory ==> old(self)@.i + x + 1 <= 0xffff,
        ensures
            final(self).wf(),
            final(self)@ == (ArchState {
                regs: Seq::new(16, |r: int| {
                    if r <= x {
                        old(self)@.mem[old(self)@.i + r]
                    } else {
                        old(self)@.regs[r]
                    }
                }),
                i: if old(self)@.quirk_memory {
                    (old(self)@.i + x + 1) as u16
                } else {
                    old(self)@.i
                },
                ..old(self)@
            }),
            final(self).blocks@ == old(self).blocks@,
            final(self).try_jit@ == old(self).try_jit@,
    {
        let ghost m0 = self@;
        let base = self.i as usize;
        let mut k: usize = 0;
        while k <= x
            invariant
                self.regs@.len() == 16,
                self.mem@.len() == MEM_SIZE,
                x < 16,
                base == m0.i,
                base + x < MEM_SIZE,
                k <= x + 1,
                self@ == (ArchState { regs: self@.regs, ..m0 }),
                self.blocks@ == old(self).blocks@,
                self.try_jit@ == old(self).try_jit@,
                self.cache_wf(),
                forall|r: int| 0 <= r < 16 && !(r < k) ==> self.regs@[r] == m0.regs[r],
                forall|r: int| 0 <= r < k ==> self.regs@[r] == m0.mem[base + r],
            decreases x + 1 - k,
        {
            let b = self.mem[base + k];
            self.regs.set(k, b);
            k += 1;
        }
        self.i = if self.quirk_memory {
            self.i + x as u16 + 1
        } else {
            self.i
        };
        proof {
            assert(self@.regs =~= Seq::new(16, |r: int| {
                if r <= x {
                    m0.mem[m0.i + r]
                } else {
                    m0.regs[r]
                }
            }));
            assert(self@ =~= (ArchState {
                regs: self@.regs,
                i: if m0.quirk_memory {
                    (m0.i + x + 1) as u16
                } else {
                    m0.i
                },
                ..m0
            }));
        }
    }

    /// The register-range save opcode: VX..=VY land at the index
    /// register, which is left unchanged; nothing happens when Y is
    /// below X.
    #[verifier::rlimit(100)]
    pub fn save_range(&mut self, x: usize, y: usize)
        requires
            old(self).wf(),
            x < 16,
            y < 16,
            x <= y ==> old(self)@.i + (y - x) < MEM_SIZE,
        ensures
            final(self).wf(),
            final(self)@ == (ArchState {
                mem: old(self)@.mem.map(|a: int, b: u8| {
                    if x <= y && old(self)@.i <= a <= old(self)@.i + (y - x) {
                        old(self)@.regs[x + (a - old(self)@.i)]
                    } else {
                        b
                    }
                }),
                ..old(self)@
            }),
            final(self).blocks@ == old(self).blocks@,
            final(self).try_jit@ == old(self).try_jit@,
    {
        let ghost m0 = self@;
        let base = self.i as usize;
        let mut reg = x;
        while reg <= y
            invariant
                self.mem@.len() == MEM_SIZE,
                self.regs@.len() == 16,
                x < 16,
                y < 16,
                x <= reg,
                reg <= y + 1 || reg == x,
                base == m0.i,
                x <= y ==> base + (y - x) < MEM_SIZE,
                self@ == (ArchState { mem: self@.mem, ..m0 }),
                self.blocks@ == old(self).blocks@,
                self.try_jit@ == old(self).try_jit@,
                self.cache_wf(),
                forall|a: int| 0 <= a < MEM_SIZE && !(base <= a < base + (reg - x))
                    ==> self.mem@[a] == m0.mem[a],
                forall|a: int| base <= a < base + (reg - x) ==> self.mem@[a] == m0.regs[x + (a
                    - base)],
            decreases y + 1 - reg,
        {
            self.mem.set(base + (reg - x), self.regs[reg]);
            reg += 1;
        }
        proof {
            assert(self@.mem =~= m0.mem.map(|a: int, b: u8| {
                if x <= y && m0.i <= a <= m0.i + (y - x) {
                    m0.regs[x + (a - m0.i)]
                } else {
                    b
                }
            }));
            assert(self@ =~= (ArchState { mem: self@.mem, ..m0 }));
        }
    }

    /// The register-range load opcode: VX..=VY are filled from the
    /// index register, which is left unchanged; nothing happens when Y
    /// is below X.
    #[verifier::rlimit(100)]
    pub fn load_range(&mut self, x: usize, y: usize)
        requires
            old(self).wf(),
            x < 16,
            y < 16,
            x <= y ==> old(self)@.i + (y - x) < MEM_SIZE,
        ensures
            final(self).wf(),
            final(self)@ == (ArchState {
                regs: Seq::new(16, |r: int| {
                    if x <= r <= y {
                        old(self)@.mem[old(self)@.i + (r - x)]
                    } else {
                        old(self)@.regs[r]
                    }
                }),
                ..old(self)@
            }),
            final(self).blocks@ == old(self).blocks@,
            final(self).try_jit@ == old(self).try_jit@,
    {
        let ghost m0 = self@;
        let base = self.i as usize;
        let mut reg = x;
        while reg <= y
            invariant
                self.mem@.len() == MEM_SIZE,
                self.regs@.len() == 16,
                x < 16,
                y < 16,
                x <= reg,
                reg <= y + 1 || reg == x,
                base == m0.i,
                x <= y ==> base + (y - x) < MEM_SIZE,
                self@ == (ArchState { regs: self@.regs, ..m0 }),
                self.blocks@ == old(self).blocks@,
                self.try_jit@ == old(self).try_jit@,
                self.cache_wf(),
                forall|r: int| 0 <= r < 16 && !(x <= r < reg) ==> self.regs@[r] == m0.regs[r],
                forall|r: int| x <= r < reg ==> self.regs@[r] == m0.mem[base + (r - x)],
            decreases y + 1 - reg,
        {
            let b = self.mem[base + (reg - x)];
            self.regs.set(reg, b);
            reg += 1;
        }
        proof {
            assert(self@.regs =~= Seq::new(16, |r: int| {
                if x <= r <= y {
                    m0.mem[m0.i + (r - x)]
                } else {
                    m0.regs[r]
                }
            }));
            assert(self@ =~= (ArchState { regs: self@.regs, ..m0 }));
        }
    }

    /// Whether the block cache may hold the instruction at `pc`: the
    /// address must still be eligible and its opcode in the cacheable
    /// set.
    pub fn jittable(&self, pc: u16) -> (b: bool)
        requires
            self.wf(),
            pc < 0x4000,
        ensures
            b == (self.try_jit@[pc as int] && cacheable_op(fetch16(self@, pc as int))),
    {
        if !self.try_jit[pc as usize] {
            return false;
        }
        let op = ((self.mem[pc as usize] as u16) << 8) | (self.mem[pc as usize + 1] as u16);
        let n0 = op >> 12;
        let nnn = op & 0xfff;
        let nn = op & 0xff;
        let n = op & 0xf;
        if n0 == 0x0 {
            nnn == 0x0e0 || nnn == 0x0ee || nnn == 0x0fe || nnn == 0x0ff
        } else if n0 == 0x5 {
            n == 0 || n == 2 || n == 3
        } else if n0 == 0xf {
            nn == 0x00 || nn == 0x07 || nn == 0x0a || nn == 0x15 || nn == 0x18 || nn == 0x1e
                || nn == 0x33 || nn == 0x55 || nn == 0x65
        } else {
            (0x1 <= n0 && n0 <= 0x4) || (0x6 <= n0 && n0 <= 0xa) || n0 == 0xc || n0 == 0xd
                || n0 == 0xe
        }
    }
}

} // verus!

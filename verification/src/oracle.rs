//! The memory-access oracle: before execution, the list of guest
//! addresses the next instruction will read or write, for the
//! watchpoint collaborator.

use vstd::prelude::*;
use crate::ops::fetch16;
use crate::state::{ArchState, Chip8, Chip8System, MEM_SIZE};

verus! {

/// Number of set bits among the four plane bits.
pub open spec fn popcount4(p: u8) -> int {
    (if p & 1 != 0 { 1int } else { 0 }) + (if p & 2 != 0 { 1int } else { 0 })
        + (if p & 4 != 0 { 1int } else { 0 }) + (if p & 8 != 0 { 1int } else { 0 })
}

/// `len` consecutive accesses of one kind starting at `base`.
pub open spec fn range_accesses(base: int, len: int, is_read: bool) -> Seq<(u16, bool)> {
    Seq::new(len as nat, |k: int| (((base + k) as u16), is_read))
}

/// The accesses of the next instruction: empty while halted; the
/// register range stores and loads, the sprite source bytes, the audio
/// pattern, the decimal digits, and the register file saves and loads.
pub open spec fn accesses_spec(m: ArchState) -> Seq<(u16, bool)> {
    if m.halted {
        Seq::empty()
    } else {
        let op = fetch16(m, m.pc as int);
        let n0 = op >> 12;
        let x = (op >> 8) & 0xf;
        let y = (op >> 4) & 0xf;
        let nn = op & 0xff;
        let n = op & 0xf;
        if n0 == 0x5 && n == 2 && m.system == Chip8System::XOCHIP && y >= x {
            range_accesses(m.i as int, y - x + 1, false)
        } else if n0 == 0x5 && n == 3 && m.system == Chip8System::XOCHIP && y >= x {
            range_accesses(m.i as int, y - x + 1, true)
        } else if n0 == 0xd {
            range_accesses(m.i as int, (if n == 0 {
                32int
            } else {
                n as int
            }) * popcount4(m.plane), true)
        } else if n0 == 0xf && nn == 0x02 && x == 0 {
            range_accesses(m.i as int, 16, true)
        } else if n0 == 0xf && nn == 0x33 {
            range_accesses(m.i as int, 3, false)
        } else if n0 == 0xf && nn == 0x55 {
            range_accesses(m.i as int, x + 1, false)
        } else if n0 == 0xf && nn == 0x65 {
            range_accesses(m.i as int, x + 1, true)
        } else {
            Seq::empty()
        }
    }
}

/// When the oracle can enumerate: the opcode is readable and every
/// listed address fits in the guest address space.
pub open spec fn oracle_ok(m: ArchState) -> bool {
    m.halted || (m.pc <= 0xfffe && (accesses_spec(m).len() == 0 || m.i + accesses_spec(m).len()
        <= MEM_SIZE))
}

impl Chip8 {
    /// Enumerate the guest accesses of the next instruction, paired
    /// with whether each is a read.
    #[verifier::rlimit(100)]
    pub fn check_mem_access(&self) -> (r: Vec<(u16, bool)>)
        requires
            self.wf(),
            oracle_ok(self@),
        ensures
            r@ == accesses_spec(self@),
    {
        let mut ret: Vec<(u16, bool)> = Vec::new();
        if self.halted {
            proof {
                assert(ret@ =~= accesses_spec(self@));
            }
            return ret;
        }
        let pc = self.pc as usize;
        let op = ((self.mem[pc] as u16) << 8) | (self.mem[pc + 1] as u16);
        let n0 = op >> 12;
        let x = (op >> 8) & 0xf;
        let y = (op >> 4) & 0xf;
        let nn = op & 0xff;
        let n = op & 0xf;
        let mut len: usize = 0;
        let mut is_read = false;
        if n0 == 0x5 && n == 2 {
            if self.system == Chip8System::XOCHIP && y >= x {
                len = (y - x) as usize + 1;
                is_read = false;
            }
        } else if n0 == 0x5 && n == 3 {
            if self.system == Chip8System::XOCHIP && y >= x {
                len = (y - x) as usize + 1;
                is_read = true;
            }
        } else if n0 == 0xd {
            let nb: usize = if n == 0 {
                32
            } else {
                n as usize
            };
            let cnt: usize = (if self.plane & 1 != 0 { 1 } else { 0 }) + (if self.plane & 2 != 0 {
                1
            } else {
                0
            }) + (if self.plane & 4 != 0 { 1 } else { 0 }) + (if self.plane & 8 != 0 {
                1
            } else {
                0
            });
            len = nb * cnt;
            is_read = true;
        } else if n0 == 0xf && nn == 0x02 && x == 0 {
            len = 16;
            is_read = true;
        } else if n0 == 0xf && nn == 0x33 {
            len = 3;
            is_read = false;
        } else if n0 == 0xf && nn == 0x55 {
            len = x as usize + 1;
            is_read = false;
        } else if n0 == 0xf && nn == 0x65 {
            len = x as usize + 1;
            is_read = true;
        }
        proof {
            assert(accesses_spec(self@) == range_accesses(self@.i as int, len as int, is_read)
                || (len == 0 && accesses_spec(self@) == Seq::<(u16, bool)>::empty()));
        }
        let base = self.i as usize;
        let mut k: usize = 0;
        while k < len
            invariant
                base == self@.i,
                base + len <= MEM_SIZE,
                k <= len,
                ret@.len() == k,
                forall|j: int| 0 <= j < k ==> ret@[j] == (((base + j) as u16), is_read),
            decreases len - k,
        {
            ret.push(((base + k) as u16, is_read));
            k += 1;
        }
        proof {
            if len == 0 {
                assert(ret@ =~= accesses_spec(self@));
            } else {
                assert(ret@ =~= range_accesses(self@.i as int, len as int, is_read));
            }
        }
        ret
    }
}

} // verus!

//! Watchpoints over guest memory: address ranges armed for reads,
//! writes or both, checked against the access list of the next
//! instruction.

use vstd::prelude::*;

verus! {

/// One armed watchpoint: an inclusive address range and the access
/// kinds it fires on.
pub struct Watchpoint {
    pub addr_start: u16,
    pub addr_end: u16,
    pub read: bool,
    pub write: bool,
}

/// Whether one access hits one watchpoint: the address lies in the
/// range and the watchpoint is armed for that kind of access.
pub open spec fn wp_hit(w: Watchpoint, addr: u16, is_read: bool) -> bool {
    &&& w.addr_start <= addr <= w.addr_end
    &&& (if is_read {
        w.read
    } else {
        w.write
    })
}

/// The set of armed watchpoints, together with the edit state of the
/// configuration panel that owns it.
pub struct Watchpoints {
    pub addr_start: String,
    pub addr_end: String,
    pub read: bool,
    pub write: bool,
    pub watchpoints: Vec<Watchpoint>,
}

impl Watchpoints {
    /// No watchpoints armed, the edit fields empty.
    pub fn new() -> (r: Watchpoints)
        ensures
            r.watchpoints@.len() == 0,
            r.addr_start@ == Seq::<char>::empty(),
            r.addr_end@ == Seq::<char>::empty(),
            r.read == false,
            r.write == false,
    {
        Watchpoints {
            addr_start: String::new(),
            addr_end: String::new(),
            read: false,
            write: false,
            watchpoints: Vec::new(),
        }
    }

    /// Whether one access hits any armed watchpoint.
    pub fn check(&mut self, addr: u16, is_read: bool) -> (r: bool)
        ensures
            *final(self) == *old(self),
            r == exists|j: int|
                0 <= j < old(self).watchpoints@.len() && wp_hit(
                    old(self).watchpoints@[j],
                    addr,
                    is_read,
                ),
    {
        let mut k: usize = 0;
        while k < self.watchpoints.len()
            invariant
                *self == *old(self),
                k <= self.watchpoints@.len(),
                forall|j: int| 0 <= j < k ==> !wp_hit(self.watchpoints@[j], addr, is_read),
            decreases self.watchpoints@.len() - k,
        {
            let w = &self.watchpoints[k];
            if addr >= w.addr_start && addr <= w.addr_end {
                if !(is_read && !w.read) && !(!is_read && !w.write) {
                    return true;
                }
            }
            k += 1;
        }
        false
    }

    /// Whether any access of the list hits any armed watchpoint.
    pub fn check_mem_access(&mut self, accesses: Vec<(u16, bool)>) -> (r: bool)
        ensures
            *final(self) == *old(self),
            r == exists|i: int, j: int|
                0 <= i < accesses@.len() && 0 <= j < old(self).watchpoints@.len() && wp_hit(
                    old(self).watchpoints@[j],
                    accesses@[i].0,
                    accesses@[i].1,
                ),
    {
        let mut i: usize = 0;
        while i < accesses.len()
            invariant
                *self == *old(self),
                i <= accesses@.len(),
                forall|a: int, j: int|
                    0 <= a < i && 0 <= j < self.watchpoints@.len() ==> !wp_hit(
                        self.watchpoints@[j],
                        accesses@[a].0,
                        accesses@[a].1,
                    ),
            decreases accesses@.len() - i,
        {
            let (addr, is_read) = accesses[i];
            if self.check(addr, is_read) {
                return true;
            }
            i += 1;
        }
        false
    }
}

} // verus!

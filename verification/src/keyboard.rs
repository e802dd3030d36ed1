//! The sixteen-key keypad as the core sees it: one held flag per key.
//! A windowing collaborator fills the flags each frame.

use vstd::prelude::*;

verus! {

/// The keypad state handed to the core each frame.
pub struct Keyboard {
    pub keys_held: Vec<bool>,
}

impl Keyboard {
    /// A keypad with no key held.
    pub fn new() -> (r: Keyboard)
        ensures
            r.keys_held@.len() == 16,
            forall|k: int| 0 <= k < 16 ==> r.keys_held@[k] == false,
    {
        let mut keys: Vec<bool> = Vec::new();
        let mut k: usize = 0;
        while k < 16
            invariant
                keys@.len() == k,
                k <= 16,
                forall|j: int| 0 <= j < k ==> keys@[j] == false,
            decreases 16 - k,
        {
            keys.push(false);
            k += 1;
        }
        Keyboard { keys_held: keys }
    }

    /// Record whether the key at `index` is held.
    pub fn set_key_held(&mut self, index: usize, held: bool)
        requires
            index < old(self).keys_held@.len(),
        ensures
            final(self).keys_held@ == old(self).keys_held@.update(index as int, held),
    {
        self.keys_held.set(index, held);
    }
}

} // verus!

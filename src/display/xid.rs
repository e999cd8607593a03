//! Client-side allocation of resource ids.

use vstd::prelude::*;

use crate::display::error::Error;

verus! {

/// Hands out resource ids `base | n` for `n` in `1..mask`, each once.
pub struct Xid {
    pub base: u32,
    pub mask: u32,
    /// The last `n` handed out; 0 before the first.
    pub next: u32,
}

impl Xid {
    pub open spec fn new_spec(base: u32, mask: u32) -> Xid {
        Xid { base, mask, next: 0 }
    }

    pub fn new(base: u32, mask: u32) -> (r: Xid)
        ensures
            r == Xid::new_spec(base, mask),
    {
        Xid { base, mask, next: 0 }
    }

    /// Takes the range that the server assigned at setup.
    pub fn setup(&mut self, base: u32, mask: u32)
        ensures
            *final(self) == (Xid { base, mask, next: old(self).next }),
    {
        self.base = base;
        self.mask = mask;
    }

    /// The next unused id; the range running out is terminal.
    pub fn next(&mut self) -> (r: Result<u32, Error>)
        ensures
            old(self).next + 1 < old(self).mask ==> {
                &&& r == Ok::<u32, Error>(((old(self).next + 1) as u32) | old(self).base)
                &&& *final(self) == (Xid { next: (old(self).next + 1) as u32, ..*old(self) })
            },
            old(self).next + 1 >= old(self).mask ==> r == Err::<u32, Error>(Error::RanOutOfXid)
                && *final(self) == *old(self),
    {
        if (self.next as u64) + 1 < self.mask as u64 {
            self.next = self.next + 1;
            Ok(self.next | self.base)
        } else {
            Err(Error::RanOutOfXid)
        }
    }
}

/// With a mask of contiguous low bits that the base does not touch, an id `n | base` for
/// `n` in `1..mask` lies in `(base, base | mask]`, keeps the base in the high bits, and
/// differs from the id of every other `n`.
pub proof fn lemma_id_in_range(base: u32, mask: u32, n: u32, m: u32)
    requires
        base & mask == 0,
        mask & vstd::prelude::add(mask, 1) == 0,
        0 < n < mask,
        0 < m < mask,
        n != m,
    ensures
        (n | base) & !mask == base,
        (n | base) & mask == n,
        base < (n | base) <= (base | mask),
        (n | base) != (m | base),
{
    assert((n | base) & !mask == base && (n | base) & mask == n && base < (n | base) && (n | base)
        <= (base | mask) && (n | base) != (m | base)) by (bit_vector)
        requires
            base & mask == 0,
            mask & vstd::prelude::add(mask, 1) == 0,
            0 < n < mask,
            0 < m < mask,
            n != m,
    ;
}

} // verus!

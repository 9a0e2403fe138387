use vstd::prelude::*;

use crate::command::{Command, Payload};

verus! {

/// The slots that hold commands between erasure and reconstruction.
///
/// Erasing a command moves it into a free slot and hands out the slot's index
/// as an opaque handle; reconstructing takes it out again, so that each
/// erased command is taken back at most once.
pub struct ContextTable {
    slots: Vec<Option<Payload>>,
}

impl ContextTable {
    /// The commands held, by handle.
    pub closed spec fn view(&self) -> Map<usize, Payload> {
        Map::new(
            |h: usize| h < self.slots@.len() && self.slots@[h as int] is Some,
            |h: usize| self.slots@[h as int]->Some_0,
        )
    }

    pub fn new() -> (t: Self)
        ensures
            t@ == Map::<usize, Payload>::empty(),
    {
        let t = ContextTable { slots: Vec::new() };
        assert(t@ =~= Map::<usize, Payload>::empty());
        t
    }

    /// Whether no command waits in the table.
    pub fn is_empty(&self) -> (r: bool)
        ensures
            r == (self@ == Map::<usize, Payload>::empty()),
    {
        let mut i: usize = 0;
        while i < self.slots.len()
            invariant
                i <= self.slots@.len(),
                forall|j: int| 0 <= j < i ==> self.slots@[j] is None,
            decreases self.slots@.len() - i,
        {
            if self.slots[i].is_some() {
                assert(self@.dom().contains(i));
                return false;
            }
            i = i + 1;
        }
        assert(self@ =~= Map::<usize, Payload>::empty());
        true
    }

    /// Moves `p` into a free slot and returns the slot's handle.
    pub fn insert(&mut self, p: Payload) -> (h: usize)
        ensures
            !old(self)@.dom().contains(h),
            final(self)@ == old(self)@.insert(h, p),
    {
        let mut i: usize = 0;
        while i < self.slots.len()
            invariant
                i <= self.slots@.len(),
                self.slots@ == old(self).slots@,
                forall|j: int| 0 <= j < i ==> self.slots@[j] is Some,
            decreases self.slots@.len() - i,
        {
            if self.slots[i].is_none() {
                let ghost before = self@;
                self.slots.set(i, Some(p));
                assert(self@ =~= before.insert(i, p));
                return i;
            }
            i = i + 1;
        }
        let ghost before = self@;
        self.slots.push(Some(p));
        assert(self@ =~= before.insert(i, p));
        i
    }

    /// Takes the payload under `h` out of the table, if there is one.
    pub fn take(&mut self, h: usize) -> (r: Option<Payload>)
        ensures
            r == (if old(self)@.dom().contains(h) { Some(old(self)@[h]) } else { None::<Payload> }),
            final(self)@ == old(self)@.remove(h),
    {
        if h < self.slots.len() {
            let ghost before = self@;
            let r = self.slots.remove(h);
            self.slots.insert(h, None);
            assert(self.slots@ =~= old(self).slots@.update(h as int, None));
            assert(self@ =~= before.remove(h));
            r
        } else {
            assert(self@ =~= old(self)@.remove(h));
            None
        }
    }

    /// Erases `c` into a free slot; the returned handle is the only way back
    /// to it.
    pub fn into_ctx<C: Command>(&mut self, c: C) -> (h: usize)
        ensures
            !old(self)@.dom().contains(h),
            final(self)@ == old(self)@.insert(h, c.erased()),
    {
        let p = c.into_payload();
        self.insert(p)
    }

    /// Reconstructs the command of type `C` erased under `h`, taking it out of
    /// the table. A handle that holds nothing, or a command of another type,
    /// gives `None`; either way the slot is free afterwards.
    pub fn from_ctx<C: Command>(&mut self, h: usize) -> (r: Option<C>)
        ensures
            r == (if old(self)@.dom().contains(h) { C::restored(old(self)@[h]) } else { None::<C> }),
            final(self)@ == old(self)@.remove(h),
    {
        match self.take(h) {
            Some(p) => C::from_payload(p),
            None => None,
        }
    }
}

/// Erasing a command and reconstructing it under the returned handle gives
/// back the same command and leaves the table as it was; a second
/// reconstruction under that handle finds nothing.
pub proof fn lemma_erase_then_reconstruct<C: Command>(before: Map<usize, Payload>, h: usize, c: C)
    requires
        !before.dom().contains(h),
    ensures
        before.insert(h, c.erased()).dom().contains(h),
        C::restored(before.insert(h, c.erased())[h]) == Some(c),
        before.insert(h, c.erased()).remove(h) == before,
        !before.insert(h, c.erased()).remove(h).dom().contains(h),
{
    C::lemma_restore_erased(c);
    assert(before.insert(h, c.erased()).remove(h) =~= before);
}

} // verus!

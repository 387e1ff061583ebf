//! Hook bookkeeping: the CBT hook handle and the queue of deferred size messages.

use vstd::prelude::*;

verus! {

/// A window message as the window procedure received it; handles are kept as
/// their pointer-sized values.
#[derive(Clone, Copy, Debug, PartialEq, Eq, Structural)]
pub struct WndProcCall {
    pub hwnd: usize,
    pub umsg: u32,
    pub wparam: usize,
    pub lparam: isize,
}

/// Empties the queue of deferred size messages, handing them back in the order
/// they were queued so they can be replayed to the game's own window procedure.
/// Without the game's own procedure nothing is replayed and the queue stays as it is.
pub fn drain_wm_size_buffer(buffer: &mut Vec<WndProcCall>, has_game_proc: bool) -> (replay: Vec<WndProcCall>)
    ensures
        has_game_proc ==> replay@ == old(buffer)@ && final(buffer)@.len() == 0,
        !has_game_proc ==> replay@.len() == 0 && final(buffer)@ == old(buffer)@,
{
    let mut replay: Vec<WndProcCall> = Vec::new();
    if has_game_proc {
        std::mem::swap(&mut replay, buffer);
    }
    replay
}

/// The slot that holds the installed CBT hook; 0 means no hook is installed.
#[derive(Clone, Copy, Debug, PartialEq, Eq, Structural)]
pub struct HookSlot {
    pub handle: usize,
}

/// What removing the hook does to the slot, and which handle must be unhooked.
pub open spec fn spec_take(slot: HookSlot) -> (HookSlot, Option<usize>) {
    if slot.handle != 0 {
        (HookSlot { handle: 0 }, Some(slot.handle))
    } else {
        (slot, None)
    }
}

impl HookSlot {
    /// An empty slot.
    pub fn empty() -> (s: HookSlot)
        ensures
            s.handle == 0,
    {
        HookSlot { handle: 0 }
    }

    /// Records a hook that was just installed.
    pub fn install(&mut self, handle: usize)
        ensures
            final(self).handle == handle,
    {
        self.handle = handle;
    }

    /// Takes the installed hook out of the slot, for unhooking: the slot is
    /// cleared whatever the unhook call then reports.  An empty slot gives `None`.
    pub fn take(&mut self) -> (h: Option<usize>)
        ensures
            (*final(self), h) == spec_take(*old(self)),
            old(self).handle != 0 ==> h == Some(old(self).handle) && final(self).handle == 0,
            old(self).handle == 0 ==> h == None::<usize> && final(self).handle == 0,
    {
        if self.handle != 0 {
            let h = self.handle;
            self.handle = 0;
            Some(h)
        } else {
            None
        }
    }
}

/// Removing the hook from a slot that holds any handle gives exactly that
/// handle back for unhooking and leaves the slot empty; an empty slot gives
/// nothing and stays empty.
pub proof fn lemma_take_returns_installed(slot: HookSlot)
    ensures
        slot.handle != 0 ==> spec_take(slot).1 == Some(slot.handle) && spec_take(slot).0.handle == 0,
        slot.handle == 0 ==> spec_take(slot).1 == None::<usize> && spec_take(slot).0.handle == 0,
        forall|h: usize| h != 0 ==> #[trigger] spec_take(HookSlot { handle: h }) == (HookSlot { handle: 0 }, Some(h)),
{
}

/// Removing the hook twice is the same as removing it once: the second removal
/// finds the slot empty and unhooks nothing.
pub proof fn lemma_take_idempotent(slot: HookSlot)
    ensures
        spec_take(spec_take(slot).0).1 == None::<usize>,
        spec_take(spec_take(slot).0).0 == spec_take(slot).0,
{
}

} // verus!

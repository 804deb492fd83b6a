//! The pointer interaction state machine for the control-point handles.
//!
//! Each handle is either idle, hovered, or being dragged, and at most one
//! handle is dragged at a time.  The caller computes, from handle and
//! pointer positions, which handles the pointer is over, and hands that in
//! as one flag per handle; this module keeps the state and makes the
//! decisions.  Every pointer or key event raises an invalidation flag, which
//! the caller feeds to the scan scheduler.

use vstd::prelude::*;

verus! {

/// Interaction state: one hover flag per handle, the index of the handle
/// being dragged if any, and the pending invalidation.
pub struct Controls {
    pub hovered: Vec<bool>,
    pub dragging: Option<usize>,
    pub invalidated: bool,
}

impl Controls {
    /// The dragged handle, when there is one, is a real handle.
    pub open spec fn wf(self) -> bool {
        self.dragging matches Some(i) ==> i < self.hovered.len()
    }

    /// State for `count` handles: none hovered, none dragged, nothing
    /// invalidated yet.
    pub fn new(count: usize) -> (c: Self)
        ensures
            c.wf(),
            c.hovered@.len() == count,
            forall|i: int| 0 <= i < count ==> !c.hovered@[i],
            c.dragging is None,
            !c.invalidated,
    {
        let mut hovered: Vec<bool> = Vec::new();
        let mut i: usize = 0;
        while i < count
            invariant
                i <= count,
                hovered@.len() == i,
                forall|j: int| 0 <= j < i ==> !hovered@[j],
            decreases count - i,
        {
            hovered.push(false);
            i = i + 1;
        }
        Controls { hovered, dragging: None, invalidated: false }
    }

    /// The pointer moved.  `over` says, per handle, whether the pointer is
    /// now within reach of it; the hover flags are replaced by it wholesale.
    /// Returns the handle being dragged, if any: that handle follows the
    /// pointer, and the caller moves it.
    pub fn pointer_move(&mut self, over: &Vec<bool>) -> (drag: Option<usize>)
        requires
            old(self).wf(),
            over@.len() == old(self).hovered@.len(),
        ensures
            final(self).wf(),
            final(self).hovered@ == over@,
            final(self).dragging == old(self).dragging,
            final(self).invalidated,
            drag == old(self).dragging,
    {
        let drag: Option<usize> = self.dragging;
        let mut hovered: Vec<bool> = Vec::new();
        let mut i: usize = 0;
        while i < over.len()
            invariant
                i <= over@.len(),
                hovered@.len() == i,
                forall|j: int| 0 <= j < i ==> hovered@[j] == over@[j],
            decreases over@.len() - i,
        {
            hovered.push(over[i]);
            i = i + 1;
        }
        self.hovered = hovered;
        self.invalidated = true;
        proof {
            assert(self.hovered@ =~= over@);
        }
        drag
    }

    /// A button went down.  The first handle the pointer is over, in index
    /// order, starts being dragged; if it is over none, the drag state is
    /// left as it was.  The hover flags are not touched.
    pub fn pointer_down(&mut self, over: &Vec<bool>)
        requires
            old(self).wf(),
            over@.len() == old(self).hovered@.len(),
        ensures
            final(self).wf(),
            final(self).hovered@ == old(self).hovered@,
            final(self).invalidated,
            (exists|i: int| 0 <= i < over@.len() && over@[i]) ==> {
                &&& final(self).dragging matches Some(i)
                &&& over@[i as int]
                &&& forall|j: int| 0 <= j < i ==> !over@[j]
            },
            (forall|i: int| 0 <= i < over@.len() ==> !over@[i])
                ==> final(self).dragging == old(self).dragging,
    {
        let mut i: usize = 0;
        let mut found: bool = false;
        while i < over.len() && !found
            invariant
                old(self).wf(),
                over@.len() == old(self).hovered@.len(),
                *self == *old(self),
                i <= over@.len(),
                !found ==> forall|j: int| 0 <= j < i ==> !over@[j],
                found ==> {
                    &&& 0 < i <= over@.len()
                    &&& over@[i - 1]
                    &&& forall|j: int| 0 <= j < i - 1 ==> !over@[j]
                },
            decreases over@.len() - i,
        {
            if over[i] {
                found = true;
            }
            i = i + 1;
        }
        if found {
            self.dragging = Some(i - 1);
        }
        self.invalidated = true;
    }

    /// The button was released.  The drag, if one was underway, ends, and
    /// the handle that was dragged is returned so the caller can drop it at
    /// the pointer's position.
    pub fn pointer_up(&mut self) -> (dropped: Option<usize>)
        requires
            old(self).wf(),
        ensures
            final(self).wf(),
            final(self).hovered@ == old(self).hovered@,
            final(self).dragging is None,
            final(self).invalidated,
            dropped == old(self).dragging,
    {
        let dropped: Option<usize> = self.dragging;
        self.dragging = None;
        self.invalidated = true;
        dropped
    }

    /// A key was pressed.  No handle state changes, but the scene must be
    /// redrawn.
    pub fn key_press(&mut self)
        requires
            old(self).wf(),
        ensures
            final(self).wf(),
            final(self).hovered@ == old(self).hovered@,
            final(self).dragging == old(self).dragging,
            final(self).invalidated,
    {
        self.invalidated = true;
    }

    /// Consume the invalidation flag: returns whether one was pending and
    /// clears it.  The caller forwards a `true` to the scan scheduler.
    pub fn take_invalidation(&mut self) -> (was: bool)
        requires
            old(self).wf(),
        ensures
            final(self).wf(),
            final(self).hovered@ == old(self).hovered@,
            final(self).dragging == old(self).dragging,
            !final(self).invalidated,
            was == old(self).invalidated,
    {
        let was: bool = self.invalidated;
        self.invalidated = false;
        was
    }
}

} // verus!

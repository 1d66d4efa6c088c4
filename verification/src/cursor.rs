//! Cursor-shape pass-through.
//!
//! The drawing collaborator reports, frame by frame, which pointer shape it
//! wants. The platform is only asked to change the pointer when the wish
//! differs from the one of the previous frame.

use vstd::prelude::*;

verus! {

/// A pointer shape the drawing collaborator can ask for.
#[derive(Clone, Copy, Debug, PartialEq, Eq, Structural)]
pub enum CursorShape {
    Arrow,
    TextInput,
    ResizeAll,
    ResizeNs,
    ResizeEw,
    ResizeNesw,
    ResizeNwse,
    Hand,
    NotAllowed,
}

/// Remembers the pointer wish of the previous frame.
///
/// A wish is `Some(shape)`, or `None` for a hidden pointer. Before the first
/// frame nothing is remembered, so the first wish always counts as a change.
pub struct CursorTracker {
    last: Option<Option<CursorShape>>,
}

impl View for CursorTracker {
    type V = Option<Option<CursorShape>>;

    /// The remembered wish; `None` before the first frame.
    closed spec fn view(&self) -> Option<Option<CursorShape>> {
        self.last
    }
}

impl CursorTracker {
    /// A tracker that remembers nothing yet.
    pub fn new() -> (tracker: Self)
        ensures
            tracker@ is None,
    {
        CursorTracker { last: None }
    }

    /// The remembered wish; `None` before the first frame.
    pub fn last(&self) -> (last: Option<Option<CursorShape>>)
        ensures
            last == self@,
    {
        self.last
    }

    /// Records this frame's wish and tells whether the platform has to be
    /// asked to change the pointer, which is the case exactly when the wish
    /// differs from the remembered one.
    pub fn observe(&mut self, wish: Option<CursorShape>) -> (changed: bool)
        ensures
            changed <==> old(self)@ != Some(wish),
            final(self)@ == Some(wish),
    {
        let changed = match self.last {
            None => true,
            Some(None) => wish.is_some(),
            Some(Some(previous)) => match wish {
                None => true,
                Some(shape) => previous != shape,
            },
        };
        self.last = Some(wish);
        changed
    }
}

} // verus!

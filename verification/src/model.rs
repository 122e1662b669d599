//! The data kinds the per-frame event loop works with: which top-level
//! view is active, and the mutations deferred during a render pass so
//! that the widget list is never edited while it is being walked.

use vstd::prelude::*;

verus! {

/// Which top-level view the window shows.
#[derive(Clone, Copy, PartialEq, Eq, Structural, Debug)]
pub enum ActiveView {
    WidgetView,
    UtilitiesView,
}

/// A mutation queued during a render pass and applied after it.
#[derive(Clone, Copy, PartialEq, Eq, Structural, Debug)]
pub enum QueueItem {
    /// Remove the widget at this index.
    Remove(usize),
}

} // verus!

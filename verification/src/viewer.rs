//! Tracking how many viewers have a container open, and the notifications a
//! container block entity receives when that count crosses zero.

use vstd::prelude::*;

verus! {

/// Counts viewers of one container: the count last published to listeners
/// and the current count.
#[derive(Clone, Copy, PartialEq, Eq, Structural, Debug)]
pub struct ViewerCountTracker {
    pub old_count: u16,
    pub current: u16,
}

/// What a container block entity hears when the published viewer count
/// changes. Implementations act on the world; the tracker only decides which
/// notifications fire.
pub trait ViewerCountListener {
    /// The container went from unviewed to viewed.
    fn on_container_open(&mut self) {
    }

    /// The container went from viewed to unviewed.
    fn on_container_close(&mut self) {
    }

    /// The published viewer count changed from `old_count` to `new_count`.
    fn on_viewer_count_update(&mut self, old_count: u16, new_count: u16) {
    }
}

impl ViewerCountTracker {
    /// A tracker with no viewers.
    pub fn new() -> (r: ViewerCountTracker)
        ensures
            r.old_count == 0,
            r.current == 0,
    {
        ViewerCountTracker { old_count: 0, current: 0 }
    }

    /// One more viewer opened the container; wraps like the underlying
    /// atomic counter.
    pub fn open_container(&mut self)
        ensures
            final(self).current == old(self).current.wrapping_add(1),
            final(self).old_count == old(self).old_count,
    {
        self.current = self.current.wrapping_add(1);
    }

    /// One viewer closed the container; wraps like the underlying atomic
    /// counter.
    pub fn close_container(&mut self)
        ensures
            final(self).current == old(self).current.wrapping_sub(1),
            final(self).old_count == old(self).old_count,
    {
        self.current = self.current.wrapping_sub(1);
    }

    /// Publishes the current count: swaps it into the published slot and,
    /// when it changed, notifies the listener — open when the count rose
    /// from zero, close when it fell to zero, and always the count change.
    pub fn update_viewer_count<T: ViewerCountListener>(&mut self, entity: &mut T)
        ensures
            final(self).current == old(self).current,
            final(self).old_count == old(self).current,
    {
        let current = self.current;
        let old_count = self.old_count;
        self.old_count = current;
        if old_count != current {
            if old_count > 0 && current == 0 {
                entity.on_container_close();
            } else if old_count == 0 && current > 0 {
                entity.on_container_open();
            }
            entity.on_viewer_count_update(old_count, current);
        }
    }
}

impl Default for ViewerCountTracker {
    /// A tracker with no viewers.
    fn default() -> (r: ViewerCountTracker)
        ensures
            r.old_count == 0,
            r.current == 0,
    {
        ViewerCountTracker::new()
    }
}

} // verus!

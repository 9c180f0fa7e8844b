//! A one-slot pushback wrapper over the multiplexed client-input
//! channel: an item the sink could not take is put back with `undo` and
//! is then the next item the stream yields, before anything newer is
//! pulled. This is how a chunk survives a child restart: the funnel
//! hands it back, `undo` stores it, and the next funnel run offers it to
//! the fresh sink first.

use vstd::prelude::*;

verus! {

/// Wraps the receiving end of the client-input channel with one undo
/// slot. The channel itself lives outside the library; what it yielded
/// is passed to `poll`.
pub struct ReceiverWrapper<T> {
    last_item: Option<T>,
}

impl<T> ReceiverWrapper<T> {
    /// The item put back by `undo`, if any: the next item `poll` yields.
    pub closed spec fn slot(self) -> Option<T> {
        self.last_item
    }

    /// Creates a wrapper with an empty undo slot.
    pub fn new() -> (r: ReceiverWrapper<T>)
        ensures
            r.slot() is None,
    {
        ReceiverWrapper { last_item: None }
    }

    /// Reports whether an undone item waits; while one does, the caller
    /// must not pull from the underlying channel.
    pub fn has_undone(&self) -> (r: bool)
        ensures
            r == (self.slot() is Some),
    {
        self.last_item.is_some()
    }

    /// Puts an undelivered item back; it will be yielded before anything
    /// newer.
    pub fn undo(&mut self, item: T)
        ensures
            final(self).slot() == Some(item),
    {
        self.last_item = Some(item);
    }

    /// Yields the next item: the undo slot's item if one waits there,
    /// else whatever the underlying channel yielded. While the slot is
    /// full the caller must not pull from the channel.
    pub fn poll(&mut self, upstream: Option<T>) -> (r: Option<T>)
        requires
            old(self).slot() is Some ==> upstream is None,
        ensures
            final(self).slot() is None,
            old(self).slot() matches Some(item) ==> r == Some(item),
            old(self).slot() is None ==> r == upstream,
    {
        if self.last_item.is_some() {
            return self.last_item.take();
        }
        upstream
    }
}

} // verus!

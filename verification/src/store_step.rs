use vstd::prelude::*;

verus! {

/// What a store operation does once it has read its rows: hand back a value
/// and leave the store as it was, or carry out the writes a plan describes.
#[derive(Debug, Clone)]
pub enum StoreStep<R, W> {
    /// Hand back this value; nothing is written.
    Reply(R),
    /// Write as this plan says.
    Write(W),
}

impl<R, W> StoreStep<R, W> {
    /// The step leaves every row as it was.
    pub open spec fn writes_nothing(self) -> bool {
        self is Reply
    }
}

} // verus!

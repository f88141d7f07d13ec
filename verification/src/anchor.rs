//! Places in a buffer that stay where they are while the text around them changes.

use vstd::prelude::*;

verus! {

/// The side that an anchor leans to when text is inserted right at it.
#[derive(Clone, Copy, Debug, PartialEq, Eq, Structural)]
pub enum Bias {
    Left,
    Right,
}

/// A place in a buffer: an offset into the insertion that a replica made at a moment of its clock.
/// Only the buffer can tell where that is in its text.
#[derive(Clone, Copy, Debug, PartialEq, Eq, Structural)]
pub struct Anchor {
    pub replica_id: u16,
    pub clock: u32,
    pub offset: usize,
    pub bias: Bias,
    pub buffer_id: Option<u64>,
}

} // verus!

//! The component as an entity stores it.
use vstd::prelude::*;
use crate::core_ds::account::MaxSize;

verus! {

/// One typed data slot of an entity: the payload, and the size that was
/// declared for it when it was inserted. Storage is accounted by the declared
/// size, never by the length of the payload.
#[derive(Debug, Clone)]
pub struct SerializedComponent {
    pub max_size: u64,
    pub data: Vec<u8>,
}

impl SerializedComponent {
    /// The payload fits the declared size.
    pub open spec fn wf(self) -> bool {
        self.data@.len() <= self.max_size
    }

    /// Whether the payload fits the declared size.
    pub fn is_wf(&self) -> (fits: bool)
        ensures
            fits == self.wf(),
    {
        self.data.len() as u64 <= self.max_size
    }
}

impl MaxSize for SerializedComponent {
    open spec fn record_size() -> u64 {
        12
    }

    fn get_max_size() -> (size: u64) {
        8 + 4
    }
}

} // verus!

//! The record of the action bundle.
use vstd::prelude::*;
use std::collections::BTreeMap;
use crate::runtime::{Digest, Pubkey};
use crate::core_ds::account::MaxSize;

verus! {

/// The configuration of the action bundle: who set it up, and the component
/// types it works with, each filed under the digest of the name of its
/// schema.
#[derive(Debug)]
pub struct TSABConfig {
    pub authority: Pubkey,
    pub components: BTreeMap<Digest, Pubkey>,
}

impl MaxSize for TSABConfig {
    open spec fn record_size() -> u64 {
        36
    }

    fn get_max_size() -> (size: u64) {
        32 + 4
    }
}

} // verus!

//! The metadata component.
use vstd::prelude::*;
use crate::runtime::Pubkey;
use crate::core_ds::account::MaxSize;
use crate::tsab::constant::{
    METADATA_NAME_MAX_SIZE, METADATA_SYMBOL_MAX_SIZE, METADATA_URI_MAX_SIZE,
};

verus! {

/// What the metadata component of an entity says of its token.
#[derive(Debug)]
pub struct ComponentMetadata {
    pub update_authority: Pubkey,
    pub mint: Pubkey,
    pub name: String,
    pub symbol: String,
    pub uri: String,
    pub is_mutable: bool,
}

impl MaxSize for ComponentMetadata {
    open spec fn record_size() -> u64 {
        (32 + 32 + METADATA_NAME_MAX_SIZE + METADATA_SYMBOL_MAX_SIZE + METADATA_URI_MAX_SIZE
            + 1) as u64
    }

    /// The size that is declared for every metadata component.
    fn get_max_size() -> (size: u64) {
        32 + 32 + METADATA_NAME_MAX_SIZE + METADATA_SYMBOL_MAX_SIZE + METADATA_URI_MAX_SIZE + 1
    }
}

} // verus!

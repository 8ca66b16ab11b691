//! The seed tags of the records of the registry, and the sizes it accounts
//! with.
use vstd::prelude::*;

verus! {

/// The tag that starts the seeds of an instance authority:
/// `instance_authority`.
pub const SEEDS_INSTANCEAUTHORITY_PREFIX: [u8; 18] = [
    105, 110, 115, 116, 97, 110, 99, 101, 95, 97, 117, 116, 104, 111, 114, 105, 116, 121,
];

/// The tag that starts the seeds of the registration of an action bundle:
/// `action_bundle_registration`.
pub const SEEDS_ACTIONBUNDLEREGISTRATION_PREFIX: [u8; 26] = [
    97, 99, 116, 105, 111, 110, 95, 98, 117, 110, 100, 108, 101, 95, 114, 101, 103, 105, 115, 116,
    114, 97, 116, 105, 111, 110,
];

/// The bytes kept for the locator of a component schema, its length prefix
/// of four bytes included.
pub const STRING_MAX_SIZE: u64 = 64;

/// The bytes that one granted component adds to a registration.
pub const COMPONENT_GRANT_SIZE: usize = 32;

/// The bytes that one granted instance adds to a registration.
pub const INSTANCE_GRANT_SIZE: usize = 8;

} // verus!

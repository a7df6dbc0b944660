//! Initialization result codes matching the native SDK.

use vstd::prelude::*;

verus! {

pub const OK: u32 = 0;

pub const FAILED_GENERIC: u32 = 1;

pub const NO_PLATFORM: u32 = 2;

pub const NOT_LAUNCHED_BY_PLATFORM: u32 = 3;

pub const PLATFORM_VERSION_MISMATCH: u32 = 4;

} // verus!

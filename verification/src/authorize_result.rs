//! Authorization result codes matching the native SDK.

use vstd::prelude::*;

verus! {

pub const UNKNOWN: u32 = 0;

pub const OK: u32 = 1;

pub const FAILED: u32 = 2;

pub const IN_FLIGHT: u32 = 3;

} // verus!

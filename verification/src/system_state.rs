//! System state codes matching the native SDK.

use vstd::prelude::*;

verus! {

pub const UNKNOWN: u32 = 0;

pub const PLATFORM_ONLINE: u32 = 1;

pub const PLATFORM_OFFLINE: u32 = 2;

pub const PLATFORM_SHUTDOWN: u32 = 3;

} // verus!

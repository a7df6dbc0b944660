//! Cloud save result codes matching the native SDK.

use vstd::prelude::*;

verus! {

pub const OK: u32 = 0;

pub const UNINITIALIZED: u32 = 1;

pub const NO_TAPTAP_CLIENT: u32 = 2;

pub const TAPTAP_CLIENT_OUTDATED: u32 = 3;

pub const INVALID_ARGUMENT: u32 = 4;

pub const SDK_FAILED: u32 = 5;

pub const FAILED_TO_READ_SAVE_FILE: u32 = 6;

pub const SAVE_FILE_TOO_LARGE: u32 = 7;

pub const FAILED_TO_READ_COVER_FILE: u32 = 8;

pub const COVER_FILE_TOO_LARGE: u32 = 9;

} // verus!

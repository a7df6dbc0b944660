//! Error codes reported by the native SDK inside event payloads.

use vstd::prelude::*;

verus! {

pub const SUCCESS: i64 = 0;

pub const UNKNOWN: i64 = 1;

pub const UNAUTHORIZED: i64 = 2;

pub const METHOD_NOT_ALLOWED: i64 = 3;

pub const UNIMPLEMENTED: i64 = 4;

pub const INVALID_ARGUMENTS: i64 = 5;

pub const FORBIDDEN: i64 = 6;

pub const USER_IS_DEACTIVATED: i64 = 7;

pub const INTERNAL_SERVER_ERROR: i64 = 8;

pub const INTERNAL_SDK_ERROR: i64 = 9;

pub const NETWORK_ERROR: i64 = 10;

pub const CLOUD_SAVE_INVALID_FILE_SIZE: i64 = 400000;

pub const CLOUD_SAVE_UPLOAD_RATE_LIMIT: i64 = 400001;

pub const CLOUD_SAVE_FILE_NOT_FOUND: i64 = 400002;

pub const CLOUD_SAVE_FILE_COUNT_LIMIT_PER_CLIENT: i64 = 400003;

pub const CLOUD_SAVE_STORAGE_SIZE_LIMIT_PER_CLIENT: i64 = 400004;

pub const CLOUD_SAVE_TOTAL_STORAGE_SIZE_LIMIT: i64 = 400005;

pub const CLOUD_SAVE_TIMEOUT: i64 = 400006;

pub const CLOUD_SAVE_CONCURRENT_CALL_DISALLOWED: i64 = 400007;

pub const CLOUD_SAVE_STORAGE_SERVER_ERROR: i64 = 400008;

pub const CLOUD_SAVE_INVALID_NAME: i64 = 400009;

} // verus!

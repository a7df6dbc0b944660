//! Event identifiers matching the native SDK's callback categories.

use vstd::prelude::*;

verus! {

pub const UNKNOWN: u32 = 0;

pub const SYSTEM_STATE_CHANGED: u32 = 1;

pub const AUTHORIZE_FINISHED: u32 = 2002;

pub const GAME_PLAYABLE_STATUS_CHANGED: u32 = 4001;

pub const DLC_PLAYABLE_STATUS_CHANGED: u32 = 4002;

pub const CLOUD_SAVE_LIST: u32 = 6001;

pub const CLOUD_SAVE_CREATE: u32 = 6002;

pub const CLOUD_SAVE_UPDATE: u32 = 6003;

pub const CLOUD_SAVE_DELETE: u32 = 6004;

pub const CLOUD_SAVE_GET_DATA: u32 = 6005;

pub const CLOUD_SAVE_GET_COVER: u32 = 6006;

} // verus!

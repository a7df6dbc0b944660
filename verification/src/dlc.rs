//! DLC ownership and store operations.

use vstd::prelude::*;

use crate::error::{TapSdkError, nul_position, str_nul_index};
use crate::sdk::TapSdk;

verus! {

/// Whether the user owns the given DLC.
///
/// `native_owned` is the native check's answer.  An uninitialized context
/// answers `false`, and so does a DLC identifier with an embedded terminator
/// byte, both without consulting the native layer.
pub fn is_dlc_owned(sdk: &TapSdk, dlc_id: &str, native_owned: bool) -> (r: bool)
    ensures
        r == (sdk@.initialized && str_nul_index(dlc_id@) is None && native_owned),
{
    if !sdk.is_initialized() {
        return false;
    }
    match nul_position(dlc_id) {
        Some(_) => false,
        None => native_owned,
    }
}

/// Show the store page for the given DLC.
///
/// `native_shown` is the native call's answer.  An uninitialized context
/// fails with `NotInitialized`, a DLC identifier with an embedded terminator
/// byte with `NulError`, both before any native call.
pub fn show_dlc_store(sdk: &TapSdk, dlc_id: &str, native_shown: bool) -> (r: Result<
    bool,
    TapSdkError,
>)
    ensures
        !sdk@.initialized ==> r == Err::<bool, TapSdkError>(TapSdkError::NotInitialized),
        sdk@.initialized ==> (str_nul_index(dlc_id@) matches Some(i) ==> r == Err::<
            bool,
            TapSdkError,
        >(TapSdkError::NulError(i as usize))),
        sdk@.initialized && str_nul_index(dlc_id@) is None ==> r == Ok::<bool, TapSdkError>(
            native_shown,
        ),
{
    if !sdk.is_initialized() {
        return Err(TapSdkError::NotInitialized);
    }
    match nul_position(dlc_id) {
        Some(i) => Err(TapSdkError::NulError(i)),
        None => Ok(native_shown),
    }
}

} // verus!

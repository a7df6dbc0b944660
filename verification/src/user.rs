//! User authorization operations.
//!
//! Each operation checks the initialization flag and takes the native
//! layer's answer as a plain argument; when the check fails, the result is
//! fixed no matter what that answer would have been, so the edge code does
//! not consult the native layer at all.

use vstd::prelude::*;

use crate::error::{
    AuthorizeResult, TapSdkError, nul_position, spec_authorize_result, str_nul_index,
};
use crate::sdk::TapSdk;

verus! {

/// Request user authorization for the given comma-separated scopes.
///
/// `native_result` is the native request's result code.  An uninitialized
/// context fails with `NotInitialized`, a scope string with an embedded
/// terminator byte with `NulError`, both before any native call; otherwise
/// the request succeeds exactly when the native layer accepted it, and the
/// actual outcome arrives later as an authorize-finished event.
pub fn authorize(sdk: &TapSdk, scopes: &str, native_result: u32) -> (r: Result<(), TapSdkError>)
    ensures
        !sdk@.initialized ==> r == Err::<(), TapSdkError>(TapSdkError::NotInitialized),
        sdk@.initialized ==> (str_nul_index(scopes@) matches Some(i) ==> r == Err::<(),
            TapSdkError,
        >(TapSdkError::NulError(i as usize))),
        sdk@.initialized && str_nul_index(scopes@) is None ==> r == (
        if spec_authorize_result(native_result) == AuthorizeResult::Success {
            Ok::<(), TapSdkError>(())
        } else {
            Err::<(), TapSdkError>(
                TapSdkError::AuthorizeFailed(spec_authorize_result(native_result)),
            )
        }),
{
    if !sdk.is_initialized() {
        return Err(TapSdkError::NotInitialized);
    }
    match nul_position(scopes) {
        Some(i) => {
            return Err(TapSdkError::NulError(i));
        },
        None => {},
    }
    let auth_result = AuthorizeResult::from(native_result);
    match auth_result {
        AuthorizeResult::Success => Ok(()),
        _ => Err(TapSdkError::AuthorizeFailed(auth_result)),
    }
}

/// Get the current user's OpenID.
///
/// `native_success` and `native_value` are the native query's success flag
/// and output buffer.  An uninitialized context answers `None` without them,
/// and so does a failed query or an empty buffer.
pub fn get_open_id(sdk: &TapSdk, native_success: bool, native_value: String) -> (r: Option<String>)
    ensures
        !sdk@.initialized ==> r is None,
        sdk@.initialized && !native_success ==> r is None,
        sdk@.initialized && native_success && native_value@.len() == 0 ==> r is None,
        sdk@.initialized && native_success && native_value@.len() > 0 ==> r == Some(native_value),
{
    if !sdk.is_initialized() {
        return None;
    }
    if !native_success {
        return None;
    }
    if native_value.as_str().is_empty() {
        None
    } else {
        Some(native_value)
    }
}

} // verus!

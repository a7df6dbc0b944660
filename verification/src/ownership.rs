//! Game ownership check.

use vstd::prelude::*;

use crate::sdk::TapSdk;

verus! {

/// Whether the user owns the current game.
///
/// `native_owned` is the native check's answer.  An uninitialized context
/// answers `false` no matter what that answer would have been, so the edge
/// code need not consult the native layer at all.
pub fn is_game_owned(sdk: &TapSdk, native_owned: bool) -> (r: bool)
    ensures
        r == (sdk@.initialized && native_owned),
{
    if !sdk.is_initialized() {
        return false;
    }
    native_owned
}

} // verus!

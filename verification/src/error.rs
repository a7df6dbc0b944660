//! Result-code enumerations and the error type of the SDK wrapper.
//!
//! The numeric code tables are dictated by the native SDK; the spec functions
//! here are their mathematical form, and every conversion is proved against
//! them.

use vstd::prelude::*;

verus! {

/// SDK initialization result.
#[derive(Debug, Clone, Copy, PartialEq, Eq, Structural)]
pub enum InitResult {
    /// Initialization successful
    Success,
    /// Generic failure
    FailedGeneric,
    /// Platform not found
    NoPlatform,
    /// Not launched by the platform
    NotLaunchedByPlatform,
    /// Platform version mismatch
    PlatformVersionMismatch,
    /// Unknown result code
    Unknown(u32),
}

/// The initialization result denoted by a native result code.
pub open spec fn spec_init_result(code: u32) -> InitResult {
    if code == 0 {
        InitResult::Success
    } else if code == 1 {
        InitResult::FailedGeneric
    } else if code == 2 {
        InitResult::NoPlatform
    } else if code == 3 {
        InitResult::NotLaunchedByPlatform
    } else if code == 4 {
        InitResult::PlatformVersionMismatch
    } else {
        InitResult::Unknown(code)
    }
}

impl From<u32> for InitResult {
    fn from(code: u32) -> (r: Self) {
        match code {
            0 => InitResult::Success,
            1 => InitResult::FailedGeneric,
            2 => InitResult::NoPlatform,
            3 => InitResult::NotLaunchedByPlatform,
            4 => InitResult::PlatformVersionMismatch,
            _ => InitResult::Unknown(code),
        }
    }
}

impl vstd::std_specs::convert::FromSpecImpl<u32> for InitResult {
    open spec fn obeys_from_spec() -> bool {
        true
    }

    open spec fn from_spec(code: u32) -> Self {
        spec_init_result(code)
    }
}

/// Authorization request result.
#[derive(Debug, Clone, Copy, PartialEq, Eq, Structural)]
pub enum AuthorizeResult {
    /// Unknown error
    Unknown,
    /// Authorization flow started successfully
    Success,
    /// Failed to start authorization
    Failed,
    /// Authorization already in progress
    InFlight,
}

/// The authorization result denoted by a native result code.
pub open spec fn spec_authorize_result(code: u32) -> AuthorizeResult {
    if code == 1 {
        AuthorizeResult::Success
    } else if code == 2 {
        AuthorizeResult::Failed
    } else if code == 3 {
        AuthorizeResult::InFlight
    } else {
        AuthorizeResult::Unknown
    }
}

impl From<u32> for AuthorizeResult {
    fn from(code: u32) -> (r: Self) {
        match code {
            1 => AuthorizeResult::Success,
            2 => AuthorizeResult::Failed,
            3 => AuthorizeResult::InFlight,
            _ => AuthorizeResult::Unknown,
        }
    }
}

impl vstd::std_specs::convert::FromSpecImpl<u32> for AuthorizeResult {
    open spec fn obeys_from_spec() -> bool {
        true
    }

    open spec fn from_spec(code: u32) -> Self {
        spec_authorize_result(code)
    }
}

/// Cloud save operation result.
#[derive(Debug, Clone, Copy, PartialEq, Eq, Structural)]
pub enum CloudSaveResult {
    /// Request initiated successfully
    Success,
    /// SDK not initialized
    Uninitialized,
    /// Platform client not running
    NoTapTapClient,
    /// Platform client outdated
    TapTapClientOutdated,
    /// Invalid argument
    InvalidArgument,
    /// SDK internal failure
    SdkFailed,
    /// Failed to read save file
    FailedToReadSaveFile,
    /// Save file too large
    SaveFileTooLarge,
    /// Failed to read cover file
    FailedToReadCoverFile,
    /// Cover file too large
    CoverFileTooLarge,
    /// Unknown result code
    Unknown(u32),
}

/// The cloud save result denoted by a native result code.
pub open spec fn spec_cloud_save_result(code: u32) -> CloudSaveResult {
    if code == 0 {
        CloudSaveResult::Success
    } else if code == 1 {
        CloudSaveResult::Uninitialized
    } else if code == 2 {
        CloudSaveResult::NoTapTapClient
    } else if code == 3 {
        CloudSaveResult::TapTapClientOutdated
    } else if code == 4 {
        CloudSaveResult::InvalidArgument
    } else if code == 5 {
        CloudSaveResult::SdkFailed
    } else if code == 6 {
        CloudSaveResult::FailedToReadSaveFile
    } else if code == 7 {
        CloudSaveResult::SaveFileTooLarge
    } else if code == 8 {
        CloudSaveResult::FailedToReadCoverFile
    } else if code == 9 {
        CloudSaveResult::CoverFileTooLarge
    } else {
        CloudSaveResult::Unknown(code)
    }
}

impl From<u32> for CloudSaveResult {
    fn from(code: u32) -> (r: Self) {
        match code {
            0 => CloudSaveResult::Success,
            1 => CloudSaveResult::Uninitialized,
            2 => CloudSaveResult::NoTapTapClient,
            3 => CloudSaveResult::TapTapClientOutdated,
            4 => CloudSaveResult::InvalidArgument,
            5 => CloudSaveResult::SdkFailed,
            6 => CloudSaveResult::FailedToReadSaveFile,
            7 => CloudSaveResult::SaveFileTooLarge,
            8 => CloudSaveResult::FailedToReadCoverFile,
            9 => CloudSaveResult::CoverFileTooLarge,
            _ => CloudSaveResult::Unknown(code),
        }
    }
}

impl vstd::std_specs::convert::FromSpecImpl<u32> for CloudSaveResult {
    open spec fn obeys_from_spec() -> bool {
        true
    }

    open spec fn from_spec(code: u32) -> Self {
        spec_cloud_save_result(code)
    }
}

/// Platform system state.
#[derive(Debug, Clone, Copy, PartialEq, Eq, Structural)]
pub enum SystemState {
    /// Unknown state
    Unknown,
    /// Platform is online
    PlatformOnline,
    /// Platform is offline
    PlatformOffline,
    /// Platform is shutting down
    PlatformShutdown,
}

/// The system state denoted by a native state code.
pub open spec fn spec_system_state(code: u32) -> SystemState {
    if code == 1 {
        SystemState::PlatformOnline
    } else if code == 2 {
        SystemState::PlatformOffline
    } else if code == 3 {
        SystemState::PlatformShutdown
    } else {
        SystemState::Unknown
    }
}

impl From<u32> for SystemState {
    fn from(code: u32) -> (r: Self) {
        match code {
            1 => SystemState::PlatformOnline,
            2 => SystemState::PlatformOffline,
            3 => SystemState::PlatformShutdown,
            _ => SystemState::Unknown,
        }
    }
}

impl vstd::std_specs::convert::FromSpecImpl<u32> for SystemState {
    open spec fn obeys_from_spec() -> bool {
        true
    }

    open spec fn from_spec(code: u32) -> Self {
        spec_system_state(code)
    }
}


/// Main error type for SDK wrapper operations.
#[derive(Debug, Clone)]
pub enum TapSdkError {
    /// SDK initialization failed
    InitFailed { result: InitResult, message: String },
    /// SDK not initialized
    NotInitialized,
    /// Authorization failed
    AuthorizeFailed(AuthorizeResult),
    /// Cloud save operation failed to start
    CloudSaveRequestFailed(CloudSaveResult),
    /// Error code and message reported by the SDK inside an event
    ApiError { code: i64, message: String },
    /// Invalid argument provided
    InvalidArgument(String),
    /// A string argument holds an embedded terminator byte at this position
    NulError(usize),
}

impl TapSdkError {
    /// Create an API error from an SDK error code and message.
    pub fn from_api_error(code: i64, message: String) -> (r: Self)
        ensures
            r == (TapSdkError::ApiError { code, message }),
    {
        TapSdkError::ApiError { code, message }
    }

    /// Convert a raw error record into an API error, if one was attached; a
    /// null message pointer reads as an empty message.
    pub fn from_raw_error(error: &Option<crate::callback::RawSdkError>) -> (r: Option<Self>)
        ensures
            *error is None ==> r is None,
            *error matches Some(err) ==> (r matches Some(TapSdkError::ApiError { code, message })
                && code == err.code && message@ == crate::callback::spec_string_field(err.message)),
    {
        match error {
            None => None,
            Some(err) => Some(
                TapSdkError::ApiError {
                    code: err.code,
                    message: crate::callback::required_string(&err.message),
                },
            ),
        }
    }
}

/// Index of the first zero byte of a byte sequence, if any.
///
/// The native string convention terminates strings with a zero byte, so an
/// argument whose encoding holds one cannot be passed through and is rejected
/// before any native call.
pub open spec fn nul_index(bytes: Seq<u8>) -> Option<int>
    decreases bytes.len(),
{
    if bytes.len() == 0 {
        None
    } else if bytes[0] == 0 {
        Some(0int)
    } else {
        match nul_index(bytes.drop_first()) {
            None => None,
            Some(i) => Some(i + 1),
        }
    }
}

/// The index of the first zero byte of a string's encoding, if any.
pub open spec fn str_nul_index(s: Seq<char>) -> Option<int> {
    nul_index(vstd::utf8::encode_utf8(s))
}

proof fn lemma_nul_index_at(b: Seq<u8>, i: int)
    requires
        0 <= i < b.len(),
        b[i] == 0,
        forall|j: int| 0 <= j < i ==> b[j] != 0,
    ensures
        nul_index(b) == Some(i),
    decreases i,
{
    if i > 0 {
        lemma_nul_index_at(b.drop_first(), i - 1);
    }
}

proof fn lemma_nul_index_none(b: Seq<u8>)
    requires
        forall|j: int| 0 <= j < b.len() ==> b[j] != 0,
    ensures
        nul_index(b) is None,
    decreases b.len(),
{
    if b.len() > 0 {
        lemma_nul_index_none(b.drop_first());
    }
}

/// Position of the first zero byte of a string, if any, under the utf-8
/// encoding that the native boundary sees.
pub fn nul_position(s: &str) -> (r: Option<usize>)
    ensures
        match r {
            None => str_nul_index(s@) is None,
            Some(i) => str_nul_index(s@) == Some(i as int),
        },
{
    let bytes = s.as_bytes();
    let n = bytes.len();
    let mut k: usize = 0;
    while k < n
        invariant
            0 <= k <= n,
            n == bytes@.len(),
            bytes@ == vstd::utf8::encode_utf8(s@),
            forall|j: int| 0 <= j < k ==> bytes@[j] != 0,
        decreases n - k,
    {
        if bytes[k] == 0 {
            proof {
                lemma_nul_index_at(bytes@, k as int);
            }
            return Some(k);
        }
        k += 1;
    }
    proof {
        lemma_nul_index_none(bytes@);
    }
    None
}

/// The native code that denotes a system state.
pub open spec fn spec_system_state_code(state: SystemState) -> u32 {
    match state {
        SystemState::Unknown => 0,
        SystemState::PlatformOnline => 1,
        SystemState::PlatformOffline => 2,
        SystemState::PlatformShutdown => 3,
    }
}

/// Convert a system state back to its native code.
pub fn system_state_to_u32(state: SystemState) -> (r: u32)
    ensures
        r == spec_system_state_code(state),
{
    match state {
        SystemState::Unknown => 0,
        SystemState::PlatformOnline => 1,
        SystemState::PlatformOffline => 2,
        SystemState::PlatformShutdown => 3,
    }
}

/// Encoding a system state and decoding the code gives the state back.
pub proof fn lemma_system_state_code_round_trip(state: SystemState)
    ensures
        spec_system_state(spec_system_state_code(state)) == state,
{
}

} // verus!

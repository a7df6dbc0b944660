//! Tests of the result-code tables, error conversions, and cloud save
//! request validation.

use tapsdk_pc::callback::RawSdkError;
use tapsdk_pc::cloudsave::{
    CloudSave, CreateSaveRequest, UpdateSaveRequest, check_cloudsave_result,
};
use tapsdk_pc::error::{
    AuthorizeResult, CloudSaveResult, InitResult, SystemState, TapSdkError, nul_position,
    system_state_to_u32,
};
use tapsdk_pc::sdk::TapSdk;
use tapsdk_pc::{cloudsave_result, error_code, event_id, init_result};

#[test]
fn test_constants() {
    // Verify our constant definitions match expected values
    assert_eq!(init_result::OK, 0);
    assert_eq!(init_result::NO_PLATFORM, 2);
    assert_eq!(event_id::AUTHORIZE_FINISHED, 2002);
    assert_eq!(error_code::SUCCESS, 0);
    assert_eq!(cloudsave_result::OK, 0);
}

#[test]
fn test_error_types() {
    // Verify error type conversions work correctly

    // Test InitResult conversions
    assert_eq!(InitResult::from(0), InitResult::Success);
    assert_eq!(InitResult::from(2), InitResult::NoPlatform);
    assert_eq!(InitResult::from(99), InitResult::Unknown(99));

    // Test AuthorizeResult conversions
    assert_eq!(AuthorizeResult::from(0), AuthorizeResult::Unknown);
    assert_eq!(AuthorizeResult::from(1), AuthorizeResult::Success);
    assert_eq!(AuthorizeResult::from(3), AuthorizeResult::InFlight);

    // Test CloudSaveResult conversions
    assert_eq!(CloudSaveResult::from(0), CloudSaveResult::Success);
    assert_eq!(CloudSaveResult::from(1), CloudSaveResult::Uninitialized);
    assert_eq!(CloudSaveResult::from(7), CloudSaveResult::SaveFileTooLarge);

    // Test SystemState conversions
    assert_eq!(SystemState::from(0), SystemState::Unknown);
    assert_eq!(SystemState::from(1), SystemState::PlatformOnline);
    assert_eq!(SystemState::from(3), SystemState::PlatformShutdown);
}

#[test]
fn lib_test_cloudsave_without_init() {
    // The native layer answers Uninitialized for a request made before init;
    // the wrapper surfaces that as a request failure.
    let result_code = cloudsave_result::UNINITIALIZED;
    let result = check_cloudsave_result(result_code);
    assert!(
        matches!(
            result,
            Err(TapSdkError::CloudSaveRequestFailed(
                CloudSaveResult::Uninitialized
                    | CloudSaveResult::SdkFailed
                    | CloudSaveResult::NoTapTapClient
            ))
        ),
        "CloudSave list should fail when not initialized, got: {}",
        result_code
    );
}

#[test]
fn test_system_state_to_u32_round_trip() {
    for code in 0..4u32 {
        assert_eq!(system_state_to_u32(SystemState::from(code)), code);
    }
    // An out-of-table code decodes to Unknown, which encodes to 0.
    assert_eq!(system_state_to_u32(SystemState::from(99)), 0);
}

#[test]
fn test_from_api_error() {
    let err = TapSdkError::from_api_error(8, String::from("server broke"));
    match err {
        TapSdkError::ApiError { code, message } => {
            assert_eq!(code, 8);
            assert_eq!(message, "server broke");
        }
        other => panic!("Expected ApiError, got: {:?}", other),
    }
}

#[test]
fn test_from_raw_error() {
    assert!(TapSdkError::from_raw_error(&None).is_none());

    let raw = Some(RawSdkError {
        code: 5,
        message: None,
    });
    match TapSdkError::from_raw_error(&raw) {
        Some(TapSdkError::ApiError { code, message }) => {
            assert_eq!(code, 5);
            assert_eq!(message, "");
        }
        other => panic!("Expected ApiError, got: {:?}", other),
    }
}

#[test]
fn test_nul_position() {
    assert_eq!(nul_position("clean"), None);
    assert_eq!(nul_position(""), None);
    assert_eq!(nul_position("\0"), Some(0));
    assert_eq!(nul_position("ab\0cd"), Some(2));
}

fn sample_create_request() -> CreateSaveRequest {
    CreateSaveRequest {
        name: String::from("slot 1"),
        summary: String::from("before the boss"),
        extra: None,
        playtime: 3600,
        data_file_path: String::from("saves/slot1.dat"),
        cover_file_path: None,
    }
}

#[test]
fn test_cloudsave_requests_accepted() {
    let mut sdk = TapSdk::new();
    assert!(sdk.init("test_public_key", init_result::OK, String::new()).is_ok());
    let cloud = CloudSave::get(&sdk, true).expect("handle should be available");

    assert!(cloud.list(1, cloudsave_result::OK).is_ok());
    assert!(cloud.create(2, &sample_create_request(), cloudsave_result::OK).is_ok());
    assert!(cloud.delete(3, "save-1", cloudsave_result::OK).is_ok());
    assert!(cloud.get_data(4, "save-1", "file-9", cloudsave_result::OK).is_ok());
    assert!(cloud.get_cover(5, "save-1", "file-9", cloudsave_result::OK).is_ok());
}

#[test]
fn test_cloudsave_request_rejected_by_native() {
    let mut sdk = TapSdk::new();
    assert!(sdk.init("test_public_key", init_result::OK, String::new()).is_ok());
    let cloud = CloudSave::get(&sdk, true).expect("handle should be available");

    match cloud.list(1, cloudsave_result::NO_TAPTAP_CLIENT) {
        Err(TapSdkError::CloudSaveRequestFailed(r)) => {
            assert_eq!(r, CloudSaveResult::NoTapTapClient)
        }
        other => panic!("Expected CloudSaveRequestFailed, got: {:?}", other),
    }
}

#[test]
fn test_create_rejects_embedded_nul_before_native_call() {
    let mut sdk = TapSdk::new();
    assert!(sdk.init("test_public_key", init_result::OK, String::new()).is_ok());
    let cloud = CloudSave::get(&sdk, true).expect("handle should be available");

    let mut request = sample_create_request();
    request.summary = String::from("bad\0summary");
    // Whatever the native layer would have answered, the request fails on
    // the embedded terminator byte.
    match cloud.create(2, &request, cloudsave_result::OK) {
        Err(TapSdkError::NulError(pos)) => assert_eq!(pos, 3),
        other => panic!("Expected NulError, got: {:?}", other),
    }
}

#[test]
fn test_update_rejects_embedded_nul_in_uuid_first() {
    let mut sdk = TapSdk::new();
    assert!(sdk.init("test_public_key", init_result::OK, String::new()).is_ok());
    let cloud = CloudSave::get(&sdk, true).expect("handle should be available");

    let request = UpdateSaveRequest {
        uuid: String::from("\0uuid"),
        name: String::from("also\0bad"),
        summary: String::new(),
        extra: None,
        playtime: 0,
        data_file_path: String::from("saves/slot1.dat"),
        cover_file_path: None,
    };
    // The uuid is checked first, so its position is reported.
    match cloud.update(2, &request, cloudsave_result::OK) {
        Err(TapSdkError::NulError(pos)) => assert_eq!(pos, 0),
        other => panic!("Expected NulError, got: {:?}", other),
    }
}

#[test]
fn test_get_data_rejects_embedded_nul_in_file_id() {
    let mut sdk = TapSdk::new();
    assert!(sdk.init("test_public_key", init_result::OK, String::new()).is_ok());
    let cloud = CloudSave::get(&sdk, true).expect("handle should be available");

    match cloud.get_data(4, "save-1", "file\0id", cloudsave_result::OK) {
        Err(TapSdkError::NulError(pos)) => assert_eq!(pos, 4),
        other => panic!("Expected NulError, got: {:?}", other),
    }
}

#[test]
fn test_cloudsave_get_requires_native_handle() {
    let mut sdk = TapSdk::new();
    assert!(sdk.init("test_public_key", init_result::OK, String::new()).is_ok());
    assert!(CloudSave::get(&sdk, false).is_none());
    assert!(CloudSave::get(&sdk, true).is_some());
}

//! Tests of event dispatch, polling, and raw payload conversion.

use tapsdk_pc::callback::{
    RawAuthorizeFinishedResponse, RawCloudSaveInfo, RawCloudSaveListResponse, RawPayload,
    RawSdkError, RawSystemStateNotification, TapEvent, event_id, parse_cloud_save_info,
    parse_event, registered_event_ids,
};
use tapsdk_pc::error::SystemState;
use tapsdk_pc::sdk::TapSdk;

fn sample_raw_info(uuid: &str, name: &str) -> RawCloudSaveInfo {
    RawCloudSaveInfo {
        uuid: Some(String::from(uuid)),
        file_id: Some(String::from("file-9")),
        name: Some(String::from(name)),
        save_size: 1024,
        cover_size: 256,
        summary: Some(String::from("a summary")),
        extra: None,
        playtime: 77,
        created_time: 1000,
        modified_time: 2000,
    }
}

#[test]
fn test_callback_event_ids() {
    // Verify event ID constants are correct
    assert_eq!(event_id::SYSTEM_STATE_CHANGED, 1);
    assert_eq!(event_id::AUTHORIZE_FINISHED, 2002);
    assert_eq!(event_id::GAME_PLAYABLE_STATUS_CHANGED, 4001);
    assert_eq!(event_id::CLOUD_SAVE_LIST, 6001);
}

#[test]
fn test_registered_event_ids_in_order() {
    let ids = registered_event_ids();
    assert_eq!(
        ids,
        vec![1, 2002, 4001, 4002, 6001, 6002, 6003, 6004, 6005, 6006]
    );
}

#[test]
fn test_run_callbacks_without_init() {
    // Polling is safe on a fresh context and yields nothing.
    let mut sdk = TapSdk::new();
    let events = sdk.run_callbacks();
    assert!(events.is_empty());
}

#[test]
fn test_poll_empty_queue_returns_empty() {
    let mut sdk = TapSdk::new();
    assert!(sdk.poll_events().is_empty());
    // And it stays empty on a second poll.
    assert!(sdk.poll_events().is_empty());
}

#[test]
fn test_dispatch_then_poll_fifo_order() {
    let mut sdk = TapSdk::new();
    sdk.dispatch(
        event_id::SYSTEM_STATE_CHANGED,
        Some(RawPayload::SystemState(RawSystemStateNotification { state: 1 })),
    );
    sdk.dispatch(event_id::UNKNOWN, None);
    sdk.dispatch(
        event_id::SYSTEM_STATE_CHANGED,
        Some(RawPayload::SystemState(RawSystemStateNotification { state: 2 })),
    );

    let events = sdk.poll_events();
    assert_eq!(events.len(), 3);
    match &events[0] {
        TapEvent::SystemStateChanged(d) => assert_eq!(d.state, SystemState::PlatformOnline),
        other => panic!("unexpected event: {:?}", other),
    }
    match &events[1] {
        TapEvent::Unknown { event_id } => assert_eq!(*event_id, 0),
        other => panic!("unexpected event: {:?}", other),
    }
    match &events[2] {
        TapEvent::SystemStateChanged(d) => assert_eq!(d.state, SystemState::PlatformOffline),
        other => panic!("unexpected event: {:?}", other),
    }

    // The poll drained everything.
    assert!(sdk.poll_events().is_empty());
}

#[test]
fn test_dispatch_null_payload_degrades_to_unknown() {
    let mut sdk = TapSdk::new();
    sdk.dispatch(event_id::AUTHORIZE_FINISHED, None);
    let events = sdk.poll_events();
    assert_eq!(events.len(), 1);
    match &events[0] {
        TapEvent::Unknown { event_id } => assert_eq!(*event_id, 2002),
        other => panic!("unexpected event: {:?}", other),
    }
}

#[test]
fn test_dispatch_mismatched_payload_degrades_to_unknown() {
    // A system-state record arriving under the cloud-save-list category is
    // not reinterpreted: the event degrades to unknown.
    let event = parse_event(
        event_id::CLOUD_SAVE_LIST,
        Some(RawPayload::SystemState(RawSystemStateNotification { state: 1 })),
    );
    match event {
        TapEvent::Unknown { event_id } => assert_eq!(event_id, 6001),
        other => panic!("unexpected event: {:?}", other),
    }
}

#[test]
fn test_cloud_save_list_event_two_records() {
    // A cloud-save-list payload with no error record and two saves yields
    // one event with error absent and both records copied byte for byte.
    let mut sdk = TapSdk::new();
    let payload = RawPayload::CloudSaveList(RawCloudSaveListResponse {
        request_id: 42,
        error: None,
        saves: Some(vec![
            sample_raw_info("save-1", "First"),
            sample_raw_info("save-2", "Second"),
        ]),
    });
    sdk.dispatch(event_id::CLOUD_SAVE_LIST, Some(payload));

    let events = sdk.poll_events();
    assert_eq!(events.len(), 1);
    match &events[0] {
        TapEvent::CloudSaveList(data) => {
            assert_eq!(data.request_id, 42);
            assert!(data.error.is_none());
            assert_eq!(data.saves.len(), 2);

            assert_eq!(data.saves[0].uuid, "save-1");
            assert_eq!(data.saves[0].file_id, "file-9");
            assert_eq!(data.saves[0].name, "First");
            assert_eq!(data.saves[0].save_size, 1024);
            assert_eq!(data.saves[0].cover_size, 256);
            assert_eq!(data.saves[0].summary.as_deref(), Some("a summary"));
            assert!(data.saves[0].extra.is_none());
            assert_eq!(data.saves[0].playtime, 77);
            assert_eq!(data.saves[0].created_time, 1000);
            assert_eq!(data.saves[0].modified_time, 2000);

            assert_eq!(data.saves[1].uuid, "save-2");
            assert_eq!(data.saves[1].name, "Second");
        }
        other => panic!("unexpected event: {:?}", other),
    }
}

#[test]
fn test_cloud_save_list_event_with_error() {
    let mut sdk = TapSdk::new();
    let payload = RawPayload::CloudSaveList(RawCloudSaveListResponse {
        request_id: 7,
        error: Some(RawSdkError {
            code: 10,
            message: Some(String::from("network down")),
        }),
        saves: None,
    });
    sdk.dispatch(event_id::CLOUD_SAVE_LIST, Some(payload));

    let events = sdk.poll_events();
    assert_eq!(events.len(), 1);
    match &events[0] {
        TapEvent::CloudSaveList(data) => {
            assert_eq!(data.request_id, 7);
            assert_eq!(
                data.error,
                Some((10, String::from("network down")))
            );
            assert!(data.saves.is_empty());
        }
        other => panic!("unexpected event: {:?}", other),
    }
}

#[test]
fn test_authorize_cancelled_event() {
    // An authorize-finished payload with is_cancel set and an empty error
    // string yields an event with error absent, token absent, is_cancel set.
    let mut sdk = TapSdk::new();
    let payload = RawPayload::AuthorizeFinished(RawAuthorizeFinishedResponse {
        is_cancel: true,
        error: String::new(),
        token_type: String::from("mac"),
        kid: String::from("key-1"),
        mac_key: String::from("secret"),
        mac_algorithm: String::from("hmac-sha-1"),
        scope: String::from("public_profile"),
    });
    sdk.dispatch(event_id::AUTHORIZE_FINISHED, Some(payload));

    let events = sdk.poll_events();
    assert_eq!(events.len(), 1);
    match &events[0] {
        TapEvent::AuthorizeFinished(data) => {
            assert!(data.is_cancel);
            assert!(data.error.is_none());
            assert!(data.token.is_none());
        }
        other => panic!("unexpected event: {:?}", other),
    }
}

#[test]
fn test_authorize_success_event_carries_token() {
    let payload = RawPayload::AuthorizeFinished(RawAuthorizeFinishedResponse {
        is_cancel: false,
        error: String::new(),
        token_type: String::from("mac"),
        kid: String::from("key-1"),
        mac_key: String::from("secret"),
        mac_algorithm: String::from("hmac-sha-1"),
        scope: String::from("public_profile"),
    });
    let event = parse_event(event_id::AUTHORIZE_FINISHED, Some(payload));
    match event {
        TapEvent::AuthorizeFinished(data) => {
            assert!(!data.is_cancel);
            assert!(data.error.is_none());
            let token = data.token.expect("token should be present");
            assert_eq!(token.token_type, "mac");
            assert_eq!(token.kid, "key-1");
            assert_eq!(token.mac_key, "secret");
            assert_eq!(token.mac_algorithm, "hmac-sha-1");
            assert_eq!(token.scope, "public_profile");
        }
        other => panic!("unexpected event: {:?}", other),
    }
}

#[test]
fn test_authorize_error_event_has_no_token() {
    let payload = RawPayload::AuthorizeFinished(RawAuthorizeFinishedResponse {
        is_cancel: false,
        error: String::from("denied"),
        token_type: String::new(),
        kid: String::new(),
        mac_key: String::new(),
        mac_algorithm: String::new(),
        scope: String::new(),
    });
    let event = parse_event(event_id::AUTHORIZE_FINISHED, Some(payload));
    match event {
        TapEvent::AuthorizeFinished(data) => {
            assert_eq!(data.error.as_deref(), Some("denied"));
            assert!(data.token.is_none());
        }
        other => panic!("unexpected event: {:?}", other),
    }
}

#[test]
fn test_empty_optional_fields_become_absent() {
    // A record with all-empty optional string fields converts to a record
    // whose optional fields are absent, not empty strings.
    let raw = RawCloudSaveInfo {
        uuid: Some(String::from("save-1")),
        file_id: None,
        name: Some(String::from("First")),
        save_size: 0,
        cover_size: 0,
        summary: Some(String::new()),
        extra: Some(String::new()),
        playtime: 0,
        created_time: 0,
        modified_time: 0,
    };
    let info = parse_cloud_save_info(&raw);
    assert!(info.summary.is_none());
    assert!(info.extra.is_none());
    // A null required field reads as the empty string.
    assert_eq!(info.file_id, "");
}

#[test]
fn test_event_id_method_matches_dispatch_tag() {
    let event = parse_event(
        event_id::SYSTEM_STATE_CHANGED,
        Some(RawPayload::SystemState(RawSystemStateNotification { state: 3 })),
    );
    assert_eq!(event.event_id(), event_id::SYSTEM_STATE_CHANGED);

    let unknown = parse_event(31337, None);
    assert_eq!(unknown.event_id(), 31337);
}

#[test]
fn test_default_auth_token_is_empty() {
    let token = tapsdk_pc::callback::AuthToken::default();
    assert_eq!(token.token_type, "");
    assert_eq!(token.kid, "");
    assert_eq!(token.mac_key, "");
    assert_eq!(token.mac_algorithm, "");
    assert_eq!(token.scope, "");
}

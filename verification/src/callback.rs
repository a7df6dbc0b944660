//! Owned event values delivered by the SDK, the plain-value model of the raw
//! callback payloads, and the verified conversion from raw payloads to owned
//! events.
//!
//! The native layer hands a callback a category tag and a fixed-layout record
//! whose pointer fields are only valid during the call.  The unverified edge
//! copies those records field by field into the `Raw*` types below, where a
//! nullable pointer field becomes an `Option`; everything after that copy is
//! verified: [`parse_event`] turns a raw payload into an owned [`TapEvent`],
//! degrading to [`TapEvent::Unknown`] when the payload is absent or has the
//! wrong shape for its category.

use vstd::prelude::*;

use crate::error::SystemState;
use crate::error::spec_system_state;
pub use crate::event_id;

verus! {

/// Authorization token returned after successful authorization.
#[derive(Debug, Clone)]
pub struct AuthToken {
    pub token_type: String,
    pub kid: String,
    pub mac_key: String,
    pub mac_algorithm: String,
    pub scope: String,
}

/// Mathematical view of an [`AuthToken`].
pub ghost struct AuthTokenView {
    pub token_type: Seq<char>,
    pub kid: Seq<char>,
    pub mac_key: Seq<char>,
    pub mac_algorithm: Seq<char>,
    pub scope: Seq<char>,
}

impl View for AuthToken {
    type V = AuthTokenView;

    open spec fn view(&self) -> AuthTokenView {
        AuthTokenView {
            token_type: self.token_type@,
            kid: self.kid@,
            mac_key: self.mac_key@,
            mac_algorithm: self.mac_algorithm@,
            scope: self.scope@,
        }
    }
}

/// Authorization finished event data.
#[derive(Debug, Clone)]
pub struct AuthorizeFinishedData {
    pub is_cancel: bool,
    pub error: Option<String>,
    pub token: Option<AuthToken>,
}

/// Mathematical view of an [`AuthorizeFinishedData`].
pub ghost struct AuthorizeFinishedDataView {
    pub is_cancel: bool,
    pub error: Option<Seq<char>>,
    pub token: Option<AuthTokenView>,
}

impl View for AuthorizeFinishedData {
    type V = AuthorizeFinishedDataView;

    open spec fn view(&self) -> AuthorizeFinishedDataView {
        AuthorizeFinishedDataView {
            is_cancel: self.is_cancel,
            error: match self.error {
                Some(s) => Some(s@),
                None => None,
            },
            token: match self.token {
                Some(t) => Some(t@),
                None => None,
            },
        }
    }
}

/// System state changed event data.
#[derive(Debug, Clone)]
pub struct SystemStateChangedData {
    pub state: SystemState,
}

/// Game playable status changed event data.
#[derive(Debug, Clone)]
pub struct GamePlayableStatusChangedData {
    pub is_playable: bool,
}

/// DLC playable status changed event data.
#[derive(Debug, Clone)]
pub struct DlcPlayableStatusChangedData {
    pub dlc_id: String,
    pub is_playable: bool,
}

/// Mathematical view of a [`DlcPlayableStatusChangedData`].
pub ghost struct DlcPlayableStatusChangedDataView {
    pub dlc_id: Seq<char>,
    pub is_playable: bool,
}

impl View for DlcPlayableStatusChangedData {
    type V = DlcPlayableStatusChangedDataView;

    open spec fn view(&self) -> DlcPlayableStatusChangedDataView {
        DlcPlayableStatusChangedDataView { dlc_id: self.dlc_id@, is_playable: self.is_playable }
    }
}

/// Owned copy of one cloud save's metadata.
#[derive(Debug, Clone)]
pub struct CloudSaveInfo {
    pub uuid: String,
    pub file_id: String,
    pub name: String,
    pub save_size: u32,
    pub cover_size: u32,
    pub summary: Option<String>,
    pub extra: Option<String>,
    pub playtime: u32,
    pub created_time: u32,
    pub modified_time: u32,
}

/// Mathematical view of a [`CloudSaveInfo`].
pub ghost struct CloudSaveInfoView {
    pub uuid: Seq<char>,
    pub file_id: Seq<char>,
    pub name: Seq<char>,
    pub save_size: u32,
    pub cover_size: u32,
    pub summary: Option<Seq<char>>,
    pub extra: Option<Seq<char>>,
    pub playtime: u32,
    pub created_time: u32,
    pub modified_time: u32,
}

impl View for CloudSaveInfo {
    type V = CloudSaveInfoView;

    open spec fn view(&self) -> CloudSaveInfoView {
        CloudSaveInfoView {
            uuid: self.uuid@,
            file_id: self.file_id@,
            name: self.name@,
            save_size: self.save_size,
            cover_size: self.cover_size,
            summary: match self.summary {
                Some(s) => Some(s@),
                None => None,
            },
            extra: match self.extra {
                Some(s) => Some(s@),
                None => None,
            },
            playtime: self.playtime,
            created_time: self.created_time,
            modified_time: self.modified_time,
        }
    }
}

/// Mathematical view of an optional error report: code and message.
pub ghost struct SdkErrorView {
    pub code: i64,
    pub message: Seq<char>,
}

/// View of an owned `(code, message)` error pair.
pub open spec fn spec_error_pair_view(e: Option<(i64, String)>) -> Option<SdkErrorView> {
    match e {
        Some((code, message)) => Some(SdkErrorView { code, message: message@ }),
        None => None,
    }
}

/// Cloud save list response.
#[derive(Debug, Clone)]
pub struct CloudSaveListData {
    pub request_id: i64,
    pub error: Option<(i64, String)>,
    pub saves: Vec<CloudSaveInfo>,
}

/// Mathematical view of a [`CloudSaveListData`].
pub ghost struct CloudSaveListDataView {
    pub request_id: i64,
    pub error: Option<SdkErrorView>,
    pub saves: Seq<CloudSaveInfoView>,
}

impl View for CloudSaveListData {
    type V = CloudSaveListDataView;

    open spec fn view(&self) -> CloudSaveListDataView {
        CloudSaveListDataView {
            request_id: self.request_id,
            error: spec_error_pair_view(self.error),
            saves: self.saves@.map_values(|s: CloudSaveInfo| s@),
        }
    }
}

/// Cloud save create/update response.
#[derive(Debug, Clone)]
pub struct CloudSaveCreateData {
    pub request_id: i64,
    pub error: Option<(i64, String)>,
    pub save: Option<CloudSaveInfo>,
}

/// Mathematical view of a [`CloudSaveCreateData`].
pub ghost struct CloudSaveCreateDataView {
    pub request_id: i64,
    pub error: Option<SdkErrorView>,
    pub save: Option<CloudSaveInfoView>,
}

impl View for CloudSaveCreateData {
    type V = CloudSaveCreateDataView;

    open spec fn view(&self) -> CloudSaveCreateDataView {
        CloudSaveCreateDataView {
            request_id: self.request_id,
            error: spec_error_pair_view(self.error),
            save: match self.save {
                Some(s) => Some(s@),
                None => None,
            },
        }
    }
}

/// Cloud save delete response.
#[derive(Debug, Clone)]
pub struct CloudSaveDeleteData {
    pub request_id: i64,
    pub error: Option<(i64, String)>,
    pub uuid: String,
}

/// Mathematical view of a [`CloudSaveDeleteData`].
pub ghost struct CloudSaveDeleteDataView {
    pub request_id: i64,
    pub error: Option<SdkErrorView>,
    pub uuid: Seq<char>,
}

impl View for CloudSaveDeleteData {
    type V = CloudSaveDeleteDataView;

    open spec fn view(&self) -> CloudSaveDeleteDataView {
        CloudSaveDeleteDataView {
            request_id: self.request_id,
            error: spec_error_pair_view(self.error),
            uuid: self.uuid@,
        }
    }
}

/// Cloud save get file response.
#[derive(Debug, Clone)]
pub struct CloudSaveGetFileData {
    pub request_id: i64,
    pub error: Option<(i64, String)>,
    pub data: Vec<u8>,
}

/// Mathematical view of a [`CloudSaveGetFileData`].
pub ghost struct CloudSaveGetFileDataView {
    pub request_id: i64,
    pub error: Option<SdkErrorView>,
    pub data: Seq<u8>,
}

impl View for CloudSaveGetFileData {
    type V = CloudSaveGetFileDataView;

    open spec fn view(&self) -> CloudSaveGetFileDataView {
        CloudSaveGetFileDataView {
            request_id: self.request_id,
            error: spec_error_pair_view(self.error),
            data: self.data@,
        }
    }
}

/// Events that can be received from the SDK.
#[derive(Debug, Clone)]
pub enum TapEvent {
    /// System state changed
    SystemStateChanged(SystemStateChangedData),
    /// Authorization finished
    AuthorizeFinished(AuthorizeFinishedData),
    /// Game playable status changed
    GamePlayableStatusChanged(GamePlayableStatusChangedData),
    /// DLC playable status changed
    DlcPlayableStatusChanged(DlcPlayableStatusChangedData),
    /// Cloud save list response
    CloudSaveList(CloudSaveListData),
    /// Cloud save create response
    CloudSaveCreate(CloudSaveCreateData),
    /// Cloud save update response
    CloudSaveUpdate(CloudSaveCreateData),
    /// Cloud save delete response
    CloudSaveDelete(CloudSaveDeleteData),
    /// Cloud save get data response
    CloudSaveGetData(CloudSaveGetFileData),
    /// Cloud save get cover response
    CloudSaveGetCover(CloudSaveGetFileData),
    /// Unknown event
    Unknown { event_id: u32 },
}

/// Mathematical view of a [`TapEvent`].
pub ghost enum TapEventView {
    SystemStateChanged(SystemState),
    AuthorizeFinished(AuthorizeFinishedDataView),
    GamePlayableStatusChanged(bool),
    DlcPlayableStatusChanged(DlcPlayableStatusChangedDataView),
    CloudSaveList(CloudSaveListDataView),
    CloudSaveCreate(CloudSaveCreateDataView),
    CloudSaveUpdate(CloudSaveCreateDataView),
    CloudSaveDelete(CloudSaveDeleteDataView),
    CloudSaveGetData(CloudSaveGetFileDataView),
    CloudSaveGetCover(CloudSaveGetFileDataView),
    Unknown { event_id: u32 },
}

impl View for TapEvent {
    type V = TapEventView;

    open spec fn view(&self) -> TapEventView {
        match self {
            TapEvent::SystemStateChanged(d) => TapEventView::SystemStateChanged(d.state),
            TapEvent::AuthorizeFinished(d) => TapEventView::AuthorizeFinished(d@),
            TapEvent::GamePlayableStatusChanged(d) => TapEventView::GamePlayableStatusChanged(
                d.is_playable,
            ),
            TapEvent::DlcPlayableStatusChanged(d) => TapEventView::DlcPlayableStatusChanged(d@),
            TapEvent::CloudSaveList(d) => TapEventView::CloudSaveList(d@),
            TapEvent::CloudSaveCreate(d) => TapEventView::CloudSaveCreate(d@),
            TapEvent::CloudSaveUpdate(d) => TapEventView::CloudSaveUpdate(d@),
            TapEvent::CloudSaveDelete(d) => TapEventView::CloudSaveDelete(d@),
            TapEvent::CloudSaveGetData(d) => TapEventView::CloudSaveGetData(d@),
            TapEvent::CloudSaveGetCover(d) => TapEventView::CloudSaveGetCover(d@),
            TapEvent::Unknown { event_id } => TapEventView::Unknown { event_id: *event_id },
        }
    }
}


/// Plain-value copy of the native error record: a code and a nullable
/// message pointer, copied to an owned string when present.
#[derive(Debug, Clone)]
pub struct RawSdkError {
    pub code: i64,
    pub message: Option<String>,
}

/// Plain-value copy of the native system state notification.
#[derive(Debug, Clone)]
pub struct RawSystemStateNotification {
    pub state: u32,
}

/// Plain-value copy of the native authorize finished response.  The string
/// fields are fixed-size character arrays in the native record, so each is
/// always present, possibly empty.
#[derive(Debug, Clone)]
pub struct RawAuthorizeFinishedResponse {
    pub is_cancel: bool,
    pub error: String,
    pub token_type: String,
    pub kid: String,
    pub mac_key: String,
    pub mac_algorithm: String,
    pub scope: String,
}

/// Plain-value copy of the native game playable status response.
#[derive(Debug, Clone)]
pub struct RawGamePlayableStatusChangedResponse {
    pub is_playable: bool,
}

/// Plain-value copy of the native DLC playable status response.
#[derive(Debug, Clone)]
pub struct RawDlcPlayableStatusChangedResponse {
    pub dlc_id: String,
    pub is_playable: bool,
}

/// Plain-value copy of one native cloud save record; a nullable string
/// pointer field becomes an `Option`.
#[derive(Debug, Clone)]
pub struct RawCloudSaveInfo {
    pub uuid: Option<String>,
    pub file_id: Option<String>,
    pub name: Option<String>,
    pub save_size: u32,
    pub cover_size: u32,
    pub summary: Option<String>,
    pub extra: Option<String>,
    pub playtime: u32,
    pub created_time: u32,
    pub modified_time: u32,
}

/// Plain-value copy of the native cloud save list response; a null or
/// non-positive-count record array becomes `None`.
#[derive(Debug, Clone)]
pub struct RawCloudSaveListResponse {
    pub request_id: i64,
    pub error: Option<RawSdkError>,
    pub saves: Option<Vec<RawCloudSaveInfo>>,
}

/// Plain-value copy of the native cloud save create/update response.
#[derive(Debug, Clone)]
pub struct RawCloudSaveCreateResponse {
    pub request_id: i64,
    pub error: Option<RawSdkError>,
    pub save: Option<RawCloudSaveInfo>,
}

/// Plain-value copy of the native cloud save delete response.
#[derive(Debug, Clone)]
pub struct RawCloudSaveDeleteResponse {
    pub request_id: i64,
    pub error: Option<RawSdkError>,
    pub uuid: Option<String>,
}

/// Plain-value copy of the native cloud save get data / get cover response;
/// a null or empty buffer becomes `None`.
#[derive(Debug, Clone)]
pub struct RawCloudSaveGetFileResponse {
    pub request_id: i64,
    pub error: Option<RawSdkError>,
    pub data: Option<Vec<u8>>,
}

/// One raw callback payload, tagged by the record shape the native layer
/// delivered.
#[derive(Debug, Clone)]
pub enum RawPayload {
    SystemState(RawSystemStateNotification),
    AuthorizeFinished(RawAuthorizeFinishedResponse),
    GamePlayable(RawGamePlayableStatusChangedResponse),
    DlcPlayable(RawDlcPlayableStatusChangedResponse),
    CloudSaveList(RawCloudSaveListResponse),
    CloudSaveCreate(RawCloudSaveCreateResponse),
    CloudSaveDelete(RawCloudSaveDeleteResponse),
    CloudSaveGetFile(RawCloudSaveGetFileResponse),
}

/// A required native string field: a null pointer reads as the empty string.
pub open spec fn spec_string_field(field: Option<String>) -> Seq<char> {
    match field {
        None => Seq::empty(),
        Some(s) => s@,
    }
}

/// An optional native string field: a null pointer or an empty string reads
/// as absent.
pub open spec fn spec_optional_field(field: Option<String>) -> Option<Seq<char>> {
    match field {
        None => None,
        Some(s) => if s@.len() == 0 {
            None
        } else {
            Some(s@)
        },
    }
}

/// A nullable native byte buffer: a null or empty buffer reads as empty.
pub open spec fn spec_bytes_field(data: Option<Vec<u8>>) -> Seq<u8> {
    match data {
        None => Seq::empty(),
        Some(v) => v@,
    }
}

/// The error report denoted by a raw error record, if one was attached.
pub open spec fn spec_parse_sdk_error(error: Option<RawSdkError>) -> Option<SdkErrorView> {
    match error {
        None => None,
        Some(err) => Some(
            SdkErrorView { code: err.code, message: spec_string_field(err.message) },
        ),
    }
}

/// The owned record denoted by a raw cloud save record.
pub open spec fn spec_parse_cloud_save_info(raw: RawCloudSaveInfo) -> CloudSaveInfoView {
    CloudSaveInfoView {
        uuid: spec_string_field(raw.uuid),
        file_id: spec_string_field(raw.file_id),
        name: spec_string_field(raw.name),
        save_size: raw.save_size,
        cover_size: raw.cover_size,
        summary: spec_optional_field(raw.summary),
        extra: spec_optional_field(raw.extra),
        playtime: raw.playtime,
        created_time: raw.created_time,
        modified_time: raw.modified_time,
    }
}

/// The record sequence denoted by a raw record array.
pub open spec fn spec_parse_saves(saves: Option<Vec<RawCloudSaveInfo>>) -> Seq<CloudSaveInfoView> {
    match saves {
        None => Seq::empty(),
        Some(v) => v@.map_values(|r: RawCloudSaveInfo| spec_parse_cloud_save_info(r)),
    }
}

/// The event data denoted by a raw authorize finished response: an empty
/// error string reads as no error, and a token is present exactly when the
/// flow was neither cancelled nor failed.
pub open spec fn spec_parse_authorize(raw: RawAuthorizeFinishedResponse) -> AuthorizeFinishedDataView {
    AuthorizeFinishedDataView {
        is_cancel: raw.is_cancel,
        error: if raw.error@.len() == 0 {
            None
        } else {
            Some(raw.error@)
        },
        token: if !raw.is_cancel && raw.error@.len() == 0 {
            Some(
                AuthTokenView {
                    token_type: raw.token_type@,
                    kid: raw.kid@,
                    mac_key: raw.mac_key@,
                    mac_algorithm: raw.mac_algorithm@,
                    scope: raw.scope@,
                },
            )
        } else {
            None
        },
    }
}

/// The event data denoted by a raw cloud save list response.
pub open spec fn spec_parse_list(raw: RawCloudSaveListResponse) -> CloudSaveListDataView {
    CloudSaveListDataView {
        request_id: raw.request_id,
        error: spec_parse_sdk_error(raw.error),
        saves: spec_parse_saves(raw.saves),
    }
}

/// The event data denoted by a raw cloud save create/update response.
pub open spec fn spec_parse_create(raw: RawCloudSaveCreateResponse) -> CloudSaveCreateDataView {
    CloudSaveCreateDataView {
        request_id: raw.request_id,
        error: spec_parse_sdk_error(raw.error),
        save: match raw.save {
            None => None,
            Some(info) => Some(spec_parse_cloud_save_info(info)),
        },
    }
}

/// The event data denoted by a raw cloud save delete response.
pub open spec fn spec_parse_delete(raw: RawCloudSaveDeleteResponse) -> CloudSaveDeleteDataView {
    CloudSaveDeleteDataView {
        request_id: raw.request_id,
        error: spec_parse_sdk_error(raw.error),
        uuid: spec_string_field(raw.uuid),
    }
}

/// The event data denoted by a raw cloud save get data / get cover response.
pub open spec fn spec_parse_get_file(raw: RawCloudSaveGetFileResponse) -> CloudSaveGetFileDataView {
    CloudSaveGetFileDataView {
        request_id: raw.request_id,
        error: spec_parse_sdk_error(raw.error),
        data: spec_bytes_field(raw.data),
    }
}

/// The event denoted by a category tag and a raw payload.  An absent payload,
/// an unknown category, or a payload whose shape does not belong to the
/// category all degrade to the unknown event: no partial event is ever built.
pub open spec fn spec_parse_event(event_id: u32, payload: Option<RawPayload>) -> TapEventView {
    match payload {
        None => TapEventView::Unknown { event_id },
        Some(p) => match p {
            RawPayload::SystemState(n) => if event_id == event_id::SYSTEM_STATE_CHANGED {
                TapEventView::SystemStateChanged(spec_system_state(n.state))
            } else {
                TapEventView::Unknown { event_id }
            },
            RawPayload::AuthorizeFinished(resp) => if event_id == event_id::AUTHORIZE_FINISHED {
                TapEventView::AuthorizeFinished(spec_parse_authorize(resp))
            } else {
                TapEventView::Unknown { event_id }
            },
            RawPayload::GamePlayable(resp) => if event_id
                == event_id::GAME_PLAYABLE_STATUS_CHANGED {
                TapEventView::GamePlayableStatusChanged(resp.is_playable)
            } else {
                TapEventView::Unknown { event_id }
            },
            RawPayload::DlcPlayable(resp) => if event_id == event_id::DLC_PLAYABLE_STATUS_CHANGED {
                TapEventView::DlcPlayableStatusChanged(
                    DlcPlayableStatusChangedDataView {
                        dlc_id: resp.dlc_id@,
                        is_playable: resp.is_playable,
                    },
                )
            } else {
                TapEventView::Unknown { event_id }
            },
            RawPayload::CloudSaveList(resp) => if event_id == event_id::CLOUD_SAVE_LIST {
                TapEventView::CloudSaveList(spec_parse_list(resp))
            } else {
                TapEventView::Unknown { event_id }
            },
            RawPayload::CloudSaveCreate(resp) => if event_id == event_id::CLOUD_SAVE_CREATE {
                TapEventView::CloudSaveCreate(spec_parse_create(resp))
            } else if event_id == event_id::CLOUD_SAVE_UPDATE {
                TapEventView::CloudSaveUpdate(spec_parse_create(resp))
            } else {
                TapEventView::Unknown { event_id }
            },
            RawPayload::CloudSaveDelete(resp) => if event_id == event_id::CLOUD_SAVE_DELETE {
                TapEventView::CloudSaveDelete(spec_parse_delete(resp))
            } else {
                TapEventView::Unknown { event_id }
            },
            RawPayload::CloudSaveGetFile(resp) => if event_id == event_id::CLOUD_SAVE_GET_DATA {
                TapEventView::CloudSaveGetData(spec_parse_get_file(resp))
            } else if event_id == event_id::CLOUD_SAVE_GET_COVER {
                TapEventView::CloudSaveGetCover(spec_parse_get_file(resp))
            } else {
                TapEventView::Unknown { event_id }
            },
        },
    }
}

/// Copy a required native string field, reading a null pointer as empty.
pub(crate) fn required_string(field: &Option<String>) -> (r: String)
    ensures
        r@ == spec_string_field(*field),
{
    match field {
        Some(s) => s.clone(),
        None => String::new(),
    }
}

/// Copy an optional native string field, reading a null pointer or an empty
/// string as absent.
fn optional_string(field: &Option<String>) -> (r: Option<String>)
    ensures
        (match r {
            Some(s) => Some(s@),
            None => None,
        }) == spec_optional_field(*field),
{
    match field {
        None => None,
        Some(s) => {
            if s.as_str().is_empty() {
                None
            } else {
                Some(s.clone())
            }
        },
    }
}

/// Copy a nullable native byte buffer, reading a null buffer as empty.
fn bytes_field(data: &Option<Vec<u8>>) -> (r: Vec<u8>)
    ensures
        r@ == spec_bytes_field(*data),
{
    match data {
        None => Vec::new(),
        Some(v) => {
            let mut out: Vec<u8> = Vec::new();
            let n = v.len();
            let mut i: usize = 0;
            while i < n
                invariant
                    0 <= i <= n,
                    n == v@.len(),
                    out@ == v@.subrange(0, i as int),
                decreases n - i,
            {
                let b = v[i];
                out.push(b);
                i += 1;
                proof {
                    assert(out@ =~= v@.subrange(0, i as int));
                }
            }
            proof {
                assert(v@.subrange(0, n as int) =~= v@);
            }
            out
        },
    }
}

/// Convert a raw error record into an owned code and message pair.
pub fn parse_sdk_error(error: &Option<RawSdkError>) -> (r: Option<(i64, String)>)
    ensures
        spec_error_pair_view(r) == spec_parse_sdk_error(*error),
{
    match error {
        None => None,
        Some(err) => Some((err.code, required_string(&err.message))),
    }
}

/// Convert a raw cloud save record into an owned record.
pub fn parse_cloud_save_info(info: &RawCloudSaveInfo) -> (r: CloudSaveInfo)
    ensures
        r@ == spec_parse_cloud_save_info(*info),
{
    CloudSaveInfo {
        uuid: required_string(&info.uuid),
        file_id: required_string(&info.file_id),
        name: required_string(&info.name),
        save_size: info.save_size,
        cover_size: info.cover_size,
        summary: optional_string(&info.summary),
        extra: optional_string(&info.extra),
        playtime: info.playtime,
        created_time: info.created_time,
        modified_time: info.modified_time,
    }
}

/// Convert a raw record array into owned records, in order.
fn parse_saves(saves: &Option<Vec<RawCloudSaveInfo>>) -> (r: Vec<CloudSaveInfo>)
    ensures
        r@.map_values(|s: CloudSaveInfo| s@) == spec_parse_saves(*saves),
{
    match saves {
        None => {
            let r: Vec<CloudSaveInfo> = Vec::new();
            proof {
                assert(r@.map_values(|s: CloudSaveInfo| s@) =~= spec_parse_saves(*saves));
            }
            r
        },
        Some(v) => {
            let mut out: Vec<CloudSaveInfo> = Vec::new();
            let n = v.len();
            let mut i: usize = 0;
            while i < n
                invariant
                    0 <= i <= n,
                    n == v@.len(),
                    out@.len() == i,
                    forall|j: int| 0 <= j < i ==> out@[j]@ == spec_parse_cloud_save_info(v@[j]),
                decreases n - i,
            {
                let info = parse_cloud_save_info(&v[i]);
                out.push(info);
                i += 1;
            }
            proof {
                assert(out@.map_values(|s: CloudSaveInfo| s@) =~= spec_parse_saves(*saves));
            }
            out
        },
    }
}

/// Convert one raw callback invocation into an owned event.
///
/// Every payload field is copied into the event; nothing of the raw payload
/// is referenced afterwards.  An absent payload, an unknown category, or a
/// payload of the wrong shape for its category yields [`TapEvent::Unknown`].
pub fn parse_event(event_id: u32, payload: Option<RawPayload>) -> (r: TapEvent)
    ensures
        r@ == spec_parse_event(event_id, payload),
{
    let p = match payload {
        None => {
            return TapEvent::Unknown { event_id };
        },
        Some(p) => p,
    };
    match p {
        RawPayload::SystemState(n) => {
            if event_id == event_id::SYSTEM_STATE_CHANGED {
                TapEvent::SystemStateChanged(
                    SystemStateChangedData { state: SystemState::from(n.state) },
                )
            } else {
                TapEvent::Unknown { event_id }
            }
        },
        RawPayload::AuthorizeFinished(resp) => {
            if event_id == event_id::AUTHORIZE_FINISHED {
                let has_error = !resp.error.as_str().is_empty();
                let token = if !resp.is_cancel && !has_error {
                    Some(
                        AuthToken {
                            token_type: resp.token_type,
                            kid: resp.kid,
                            mac_key: resp.mac_key,
                            mac_algorithm: resp.mac_algorithm,
                            scope: resp.scope,
                        },
                    )
                } else {
                    None
                };
                let error = if has_error {
                    Some(resp.error)
                } else {
                    None
                };
                TapEvent::AuthorizeFinished(
                    AuthorizeFinishedData { is_cancel: resp.is_cancel, error, token },
                )
            } else {
                TapEvent::Unknown { event_id }
            }
        },
        RawPayload::GamePlayable(resp) => {
            if event_id == event_id::GAME_PLAYABLE_STATUS_CHANGED {
                TapEvent::GamePlayableStatusChanged(
                    GamePlayableStatusChangedData { is_playable: resp.is_playable },
                )
            } else {
                TapEvent::Unknown { event_id }
            }
        },
        RawPayload::DlcPlayable(resp) => {
            if event_id == event_id::DLC_PLAYABLE_STATUS_CHANGED {
                TapEvent::DlcPlayableStatusChanged(
                    DlcPlayableStatusChangedData {
                        dlc_id: resp.dlc_id,
                        is_playable: resp.is_playable,
                    },
                )
            } else {
                TapEvent::Unknown { event_id }
            }
        },
        RawPayload::CloudSaveList(resp) => {
            if event_id == event_id::CLOUD_SAVE_LIST {
                let error = parse_sdk_error(&resp.error);
                let saves = parse_saves(&resp.saves);
                TapEvent::CloudSaveList(
                    CloudSaveListData { request_id: resp.request_id, error, saves },
                )
            } else {
                TapEvent::Unknown { event_id }
            }
        },
        RawPayload::CloudSaveCreate(resp) => {
            if event_id == event_id::CLOUD_SAVE_CREATE || event_id == event_id::CLOUD_SAVE_UPDATE {
                let error = parse_sdk_error(&resp.error);
                let save = match &resp.save {
                    None => None,
                    Some(info) => Some(parse_cloud_save_info(info)),
                };
                let event_data = CloudSaveCreateData { request_id: resp.request_id, error, save };
                if event_id == event_id::CLOUD_SAVE_CREATE {
                    TapEvent::CloudSaveCreate(event_data)
                } else {
                    TapEvent::CloudSaveUpdate(event_data)
                }
            } else {
                TapEvent::Unknown { event_id }
            }
        },
        RawPayload::CloudSaveDelete(resp) => {
            if event_id == event_id::CLOUD_SAVE_DELETE {
                let error = parse_sdk_error(&resp.error);
                let uuid = required_string(&resp.uuid);
                TapEvent::CloudSaveDelete(
                    CloudSaveDeleteData { request_id: resp.request_id, error, uuid },
                )
            } else {
                TapEvent::Unknown { event_id }
            }
        },
        RawPayload::CloudSaveGetFile(resp) => {
            if event_id == event_id::CLOUD_SAVE_GET_DATA || event_id
                == event_id::CLOUD_SAVE_GET_COVER {
                let error = parse_sdk_error(&resp.error);
                let data = bytes_field(&resp.data);
                let event_data = CloudSaveGetFileData { request_id: resp.request_id, error, data };
                if event_id == event_id::CLOUD_SAVE_GET_DATA {
                    TapEvent::CloudSaveGetData(event_data)
                } else {
                    TapEvent::CloudSaveGetCover(event_data)
                }
            } else {
                TapEvent::Unknown { event_id }
            }
        },
    }
}


/// The category tag that an event reports, matching the tag it was
/// dispatched under.
pub open spec fn spec_event_id_view(e: TapEventView) -> u32 {
    match e {
        TapEventView::SystemStateChanged(_) => event_id::SYSTEM_STATE_CHANGED,
        TapEventView::AuthorizeFinished(_) => event_id::AUTHORIZE_FINISHED,
        TapEventView::GamePlayableStatusChanged(_) => event_id::GAME_PLAYABLE_STATUS_CHANGED,
        TapEventView::DlcPlayableStatusChanged(_) => event_id::DLC_PLAYABLE_STATUS_CHANGED,
        TapEventView::CloudSaveList(_) => event_id::CLOUD_SAVE_LIST,
        TapEventView::CloudSaveCreate(_) => event_id::CLOUD_SAVE_CREATE,
        TapEventView::CloudSaveUpdate(_) => event_id::CLOUD_SAVE_UPDATE,
        TapEventView::CloudSaveDelete(_) => event_id::CLOUD_SAVE_DELETE,
        TapEventView::CloudSaveGetData(_) => event_id::CLOUD_SAVE_GET_DATA,
        TapEventView::CloudSaveGetCover(_) => event_id::CLOUD_SAVE_GET_COVER,
        TapEventView::Unknown { event_id } => event_id,
    }
}

impl TapEvent {
    /// The category tag of this event.
    pub fn event_id(&self) -> (r: u32)
        ensures
            r == spec_event_id_view(self@),
    {
        match self {
            TapEvent::SystemStateChanged(_) => event_id::SYSTEM_STATE_CHANGED,
            TapEvent::AuthorizeFinished(_) => event_id::AUTHORIZE_FINISHED,
            TapEvent::GamePlayableStatusChanged(_) => event_id::GAME_PLAYABLE_STATUS_CHANGED,
            TapEvent::DlcPlayableStatusChanged(_) => event_id::DLC_PLAYABLE_STATUS_CHANGED,
            TapEvent::CloudSaveList(_) => event_id::CLOUD_SAVE_LIST,
            TapEvent::CloudSaveCreate(_) => event_id::CLOUD_SAVE_CREATE,
            TapEvent::CloudSaveUpdate(_) => event_id::CLOUD_SAVE_UPDATE,
            TapEvent::CloudSaveDelete(_) => event_id::CLOUD_SAVE_DELETE,
            TapEvent::CloudSaveGetData(_) => event_id::CLOUD_SAVE_GET_DATA,
            TapEvent::CloudSaveGetCover(_) => event_id::CLOUD_SAVE_GET_COVER,
            TapEvent::Unknown { event_id } => *event_id,
        }
    }
}

/// Parsing preserves the category: whatever the payload, the event built for
/// a category tag reports that same tag.
pub proof fn lemma_parse_event_keeps_category(event_id: u32, payload: Option<RawPayload>)
    ensures
        spec_event_id_view(spec_parse_event(event_id, payload)) == event_id,
{
}

/// A raw record whose optional string fields are null or empty yields a
/// record whose optional fields are absent, never empty strings.
pub proof fn lemma_empty_optional_fields_absent(raw: RawCloudSaveInfo)
    requires
        raw.summary matches Some(s) ==> s@.len() == 0,
        raw.extra matches Some(s) ==> s@.len() == 0,
    ensures
        spec_parse_cloud_save_info(raw).summary is None,
        spec_parse_cloud_save_info(raw).extra is None,
{
}

/// The event categories for which the dispatcher is registered with the
/// native layer, in registration order.
pub fn registered_event_ids() -> (r: Vec<u32>)
    ensures
        r@ == seq![
            event_id::SYSTEM_STATE_CHANGED,
            event_id::AUTHORIZE_FINISHED,
            event_id::GAME_PLAYABLE_STATUS_CHANGED,
            event_id::DLC_PLAYABLE_STATUS_CHANGED,
            event_id::CLOUD_SAVE_LIST,
            event_id::CLOUD_SAVE_CREATE,
            event_id::CLOUD_SAVE_UPDATE,
            event_id::CLOUD_SAVE_DELETE,
            event_id::CLOUD_SAVE_GET_DATA,
            event_id::CLOUD_SAVE_GET_COVER,
        ],
{
    let mut ids: Vec<u32> = Vec::new();
    ids.push(event_id::SYSTEM_STATE_CHANGED);
    ids.push(event_id::AUTHORIZE_FINISHED);
    ids.push(event_id::GAME_PLAYABLE_STATUS_CHANGED);
    ids.push(event_id::DLC_PLAYABLE_STATUS_CHANGED);
    ids.push(event_id::CLOUD_SAVE_LIST);
    ids.push(event_id::CLOUD_SAVE_CREATE);
    ids.push(event_id::CLOUD_SAVE_UPDATE);
    ids.push(event_id::CLOUD_SAVE_DELETE);
    ids.push(event_id::CLOUD_SAVE_GET_DATA);
    ids.push(event_id::CLOUD_SAVE_GET_COVER);
    proof {
        assert(ids@ =~= seq![
            event_id::SYSTEM_STATE_CHANGED,
            event_id::AUTHORIZE_FINISHED,
            event_id::GAME_PLAYABLE_STATUS_CHANGED,
            event_id::DLC_PLAYABLE_STATUS_CHANGED,
            event_id::CLOUD_SAVE_LIST,
            event_id::CLOUD_SAVE_CREATE,
            event_id::CLOUD_SAVE_UPDATE,
            event_id::CLOUD_SAVE_DELETE,
            event_id::CLOUD_SAVE_GET_DATA,
            event_id::CLOUD_SAVE_GET_COVER,
        ]);
    }
    ids
}


impl Default for AuthToken {
    /// An empty token: every field is the empty string.
    fn default() -> (r: AuthToken)
        ensures
            r@.token_type.len() == 0,
            r@.kid.len() == 0,
            r@.mac_key.len() == 0,
            r@.mac_algorithm.len() == 0,
            r@.scope.len() == 0,
    {
        AuthToken {
            token_type: String::new(),
            kid: String::new(),
            mac_key: String::new(),
            mac_algorithm: String::new(),
            scope: String::new(),
        }
    }
}

} // verus!




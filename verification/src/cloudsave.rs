//! Cloud save operations.
//!
//! Each request function validates its string arguments against the native
//! string convention, in the same order the arguments would be marshalled,
//! and then interprets the native result code.  The request itself only
//! starts the operation: the actual outcome arrives later as an event.

use vstd::prelude::*;

use crate::error::{
    CloudSaveResult, TapSdkError, nul_position, spec_cloud_save_result, str_nul_index,
};
use crate::sdk::TapSdk;

verus! {

/// Cloud save API handle.
///
/// A value exists only for an initialized SDK whose native layer produced a
/// handle: obtain one via [`CloudSave::get`].
#[derive(Debug)]
pub struct CloudSave {
    handle: (),
}

/// Request parameters for creating a cloud save.
#[derive(Debug, Clone)]
pub struct CreateSaveRequest {
    /// Save name
    pub name: String,
    /// Save description
    pub summary: String,
    /// Developer-defined extra data (optional)
    pub extra: Option<String>,
    /// Game playtime in seconds
    pub playtime: u32,
    /// Path to the save data file
    pub data_file_path: String,
    /// Path to the cover image file (optional)
    pub cover_file_path: Option<String>,
}

/// Mathematical view of a [`CreateSaveRequest`].
pub ghost struct CreateSaveRequestView {
    pub name: Seq<char>,
    pub summary: Seq<char>,
    pub extra: Option<Seq<char>>,
    pub playtime: u32,
    pub data_file_path: Seq<char>,
    pub cover_file_path: Option<Seq<char>>,
}

impl View for CreateSaveRequest {
    type V = CreateSaveRequestView;

    open spec fn view(&self) -> CreateSaveRequestView {
        CreateSaveRequestView {
            name: self.name@,
            summary: self.summary@,
            extra: match self.extra {
                Some(s) => Some(s@),
                None => None,
            },
            playtime: self.playtime,
            data_file_path: self.data_file_path@,
            cover_file_path: match self.cover_file_path {
                Some(s) => Some(s@),
                None => None,
            },
        }
    }
}

/// Request parameters for updating a cloud save.
#[derive(Debug, Clone)]
pub struct UpdateSaveRequest {
    /// UUID of the cloud save to update
    pub uuid: String,
    /// Save name
    pub name: String,
    /// Save description
    pub summary: String,
    /// Developer-defined extra data (optional)
    pub extra: Option<String>,
    /// Game playtime in seconds
    pub playtime: u32,
    /// Path to the save data file
    pub data_file_path: String,
    /// Path to the cover image file (optional)
    pub cover_file_path: Option<String>,
}

/// Mathematical view of an [`UpdateSaveRequest`].
pub ghost struct UpdateSaveRequestView {
    pub uuid: Seq<char>,
    pub name: Seq<char>,
    pub summary: Seq<char>,
    pub extra: Option<Seq<char>>,
    pub playtime: u32,
    pub data_file_path: Seq<char>,
    pub cover_file_path: Option<Seq<char>>,
}

impl View for UpdateSaveRequest {
    type V = UpdateSaveRequestView;

    open spec fn view(&self) -> UpdateSaveRequestView {
        UpdateSaveRequestView {
            uuid: self.uuid@,
            name: self.name@,
            summary: self.summary@,
            extra: match self.extra {
                Some(s) => Some(s@),
                None => None,
            },
            playtime: self.playtime,
            data_file_path: self.data_file_path@,
            cover_file_path: match self.cover_file_path {
                Some(s) => Some(s@),
                None => None,
            },
        }
    }
}

/// The first terminator byte of an optional string argument, if any.
pub open spec fn spec_opt_nul(o: Option<Seq<char>>) -> Option<int> {
    match o {
        None => None,
        Some(s) => str_nul_index(s),
    }
}

/// The rejection a create request earns from its string arguments, checked
/// in marshalling order: name, summary, extra, data path, cover path.
pub open spec fn spec_create_nul_error(req: CreateSaveRequestView) -> Option<TapSdkError> {
    match str_nul_index(req.name) {
        Some(i) => Some(TapSdkError::NulError(i as usize)),
        None => match str_nul_index(req.summary) {
            Some(i) => Some(TapSdkError::NulError(i as usize)),
            None => match spec_opt_nul(req.extra) {
                Some(i) => Some(TapSdkError::NulError(i as usize)),
                None => match str_nul_index(req.data_file_path) {
                    Some(i) => Some(TapSdkError::NulError(i as usize)),
                    None => match spec_opt_nul(req.cover_file_path) {
                        Some(i) => Some(TapSdkError::NulError(i as usize)),
                        None => None,
                    },
                },
            },
        },
    }
}

/// The rejection an update request earns from its string arguments, checked
/// in marshalling order: uuid, name, summary, extra, data path, cover path.
pub open spec fn spec_update_nul_error(req: UpdateSaveRequestView) -> Option<TapSdkError> {
    match str_nul_index(req.uuid) {
        Some(i) => Some(TapSdkError::NulError(i as usize)),
        None => spec_create_nul_error(
            CreateSaveRequestView {
                name: req.name,
                summary: req.summary,
                extra: req.extra,
                playtime: req.playtime,
                data_file_path: req.data_file_path,
                cover_file_path: req.cover_file_path,
            },
        ),
    }
}

/// The request outcome denoted by a native cloud save result code.
pub open spec fn spec_check_cloudsave_result(result: u32) -> Result<(), TapSdkError> {
    if spec_cloud_save_result(result) == CloudSaveResult::Success {
        Ok(())
    } else {
        Err(TapSdkError::CloudSaveRequestFailed(spec_cloud_save_result(result)))
    }
}

/// Convert a native cloud save result code into a request outcome.
pub fn check_cloudsave_result(result: u32) -> (r: Result<(), TapSdkError>)
    ensures
        r == spec_check_cloudsave_result(result),
{
    let cloud_result = CloudSaveResult::from(result);
    match cloud_result {
        CloudSaveResult::Success => Ok(()),
        _ => Err(TapSdkError::CloudSaveRequestFailed(cloud_result)),
    }
}

/// Check an optional string argument for an embedded terminator byte.
fn opt_nul_position(o: &Option<String>) -> (r: Option<usize>)
    ensures
        match r {
            None => spec_opt_nul(
                match *o {
                    Some(s) => Some(s@),
                    None => None,
                },
            ) is None,
            Some(i) => spec_opt_nul(
                match *o {
                    Some(s) => Some(s@),
                    None => None,
                },
            ) == Some(i as int),
        },
{
    match o {
        None => None,
        Some(s) => nul_position(s.as_str()),
    }
}

impl CloudSave {
    /// Get the cloud save handle.
    ///
    /// `native_handle_available` says whether the native layer produced a
    /// handle.  An uninitialized context answers `None` without consulting
    /// the native layer at all.
    pub fn get(sdk: &TapSdk, native_handle_available: bool) -> (r: Option<CloudSave>)
        ensures
            r is Some <==> sdk@.initialized && native_handle_available,
    {
        if !sdk.is_initialized() {
            return None;
        }
        if native_handle_available {
            Some(CloudSave { handle: () })
        } else {
            None
        }
    }

    /// Request the list of cloud saves; the result arrives later as a
    /// cloud-save-list event carrying the same request identifier.
    pub fn list(&self, request_id: i64, native_result: u32) -> (r: Result<(), TapSdkError>)
        ensures
            r == spec_check_cloudsave_result(native_result),
    {
        check_cloudsave_result(native_result)
    }

    /// Request creation of a cloud save; the result arrives later as a
    /// cloud-save-create event carrying the same request identifier.
    ///
    /// A string argument with an embedded terminator byte is rejected with
    /// `NulError` before any native call, whatever the native layer would
    /// have answered.
    pub fn create(&self, request_id: i64, request: &CreateSaveRequest, native_result: u32) -> (r:
        Result<(), TapSdkError>)
        ensures
            r == (match spec_create_nul_error(request@) {
                Some(e) => Err(e),
                None => spec_check_cloudsave_result(native_result),
            }),
    {
        match nul_position(request.name.as_str()) {
            Some(i) => {
                return Err(TapSdkError::NulError(i));
            },
            None => {},
        }
        match nul_position(request.summary.as_str()) {
            Some(i) => {
                return Err(TapSdkError::NulError(i));
            },
            None => {},
        }
        match opt_nul_position(&request.extra) {
            Some(i) => {
                return Err(TapSdkError::NulError(i));
            },
            None => {},
        }
        match nul_position(request.data_file_path.as_str()) {
            Some(i) => {
                return Err(TapSdkError::NulError(i));
            },
            None => {},
        }
        match opt_nul_position(&request.cover_file_path) {
            Some(i) => {
                return Err(TapSdkError::NulError(i));
            },
            None => {},
        }
        check_cloudsave_result(native_result)
    }

    /// Request an update of a cloud save; the result arrives later as a
    /// cloud-save-update event carrying the same request identifier.
    ///
    /// A string argument with an embedded terminator byte is rejected with
    /// `NulError` before any native call, whatever the native layer would
    /// have answered.
    pub fn update(&self, request_id: i64, request: &UpdateSaveRequest, native_result: u32) -> (r:
        Result<(), TapSdkError>)
        ensures
            r == (match spec_update_nul_error(request@) {
                Some(e) => Err(e),
                None => spec_check_cloudsave_result(native_result),
            }),
    {
        match nul_position(request.uuid.as_str()) {
            Some(i) => {
                return Err(TapSdkError::NulError(i));
            },
            None => {},
        }
        match nul_position(request.name.as_str()) {
            Some(i) => {
                return Err(TapSdkError::NulError(i));
            },
            None => {},
        }
        match nul_position(request.summary.as_str()) {
            Some(i) => {
                return Err(TapSdkError::NulError(i));
            },
            None => {},
        }
        match opt_nul_position(&request.extra) {
            Some(i) => {
                return Err(TapSdkError::NulError(i));
            },
            None => {},
        }
        match nul_position(request.data_file_path.as_str()) {
            Some(i) => {
                return Err(TapSdkError::NulError(i));
            },
            None => {},
        }
        match opt_nul_position(&request.cover_file_path) {
            Some(i) => {
                return Err(TapSdkError::NulError(i));
            },
            None => {},
        }
        check_cloudsave_result(native_result)
    }

    /// Request deletion of a cloud save; the result arrives later as a
    /// cloud-save-delete event carrying the same request identifier.
    pub fn delete(&self, request_id: i64, uuid: &str, native_result: u32) -> (r: Result<
        (),
        TapSdkError,
    >)
        ensures
            r == (match str_nul_index(uuid@) {
                Some(i) => Err(TapSdkError::NulError(i as usize)),
                None => spec_check_cloudsave_result(native_result),
            }),
    {
        match nul_position(uuid) {
            Some(i) => {
                return Err(TapSdkError::NulError(i));
            },
            None => {},
        }
        check_cloudsave_result(native_result)
    }

    /// Request the data file of a cloud save; the result arrives later as a
    /// cloud-save-get-data event carrying the same request identifier.
    pub fn get_data(&self, request_id: i64, uuid: &str, file_id: &str, native_result: u32) -> (r:
        Result<(), TapSdkError>)
        ensures
            r == (match str_nul_index(uuid@) {
                Some(i) => Err(TapSdkError::NulError(i as usize)),
                None => match str_nul_index(file_id@) {
                    Some(i) => Err(TapSdkError::NulError(i as usize)),
                    None => spec_check_cloudsave_result(native_result),
                },
            }),
    {
        match nul_position(uuid) {
            Some(i) => {
                return Err(TapSdkError::NulError(i));
            },
            None => {},
        }
        match nul_position(file_id) {
            Some(i) => {
                return Err(TapSdkError::NulError(i));
            },
            None => {},
        }
        check_cloudsave_result(native_result)
    }

    /// Request the cover image of a cloud save; the result arrives later as
    /// a cloud-save-get-cover event carrying the same request identifier.
    pub fn get_cover(&self, request_id: i64, uuid: &str, file_id: &str, native_result: u32) -> (r:
        Result<(), TapSdkError>)
        ensures
            r == (match str_nul_index(uuid@) {
                Some(i) => Err(TapSdkError::NulError(i as usize)),
                None => match str_nul_index(file_id@) {
                    Some(i) => Err(TapSdkError::NulError(i as usize)),
                    None => spec_check_cloudsave_result(native_result),
                },
            }),
    {
        match nul_position(uuid) {
            Some(i) => {
                return Err(TapSdkError::NulError(i));
            },
            None => {},
        }
        match nul_position(file_id) {
            Some(i) => {
                return Err(TapSdkError::NulError(i));
            },
            None => {},
        }
        check_cloudsave_result(native_result)
    }
}

} // verus!

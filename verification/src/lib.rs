//! Safe, verified model of a game-store client SDK binding: result-code
//! tables, an explicitly threaded SDK context with an initialization flag and
//! a FIFO event queue, and the conversion of raw callback payloads into owned
//! event values.

pub mod authorize_result;
pub mod callback;
pub mod cloudsave;
pub mod cloudsave_result;
pub mod dlc;
pub mod error;
pub mod error_code;
pub mod event_id;
pub mod init_result;
pub mod ownership;
pub mod sdk;
pub mod system_state;
pub mod user;

pub use callback::TapEvent;
pub use cloudsave::CloudSave;
pub use error::{AuthorizeResult, CloudSaveResult, InitResult, SystemState, TapSdkError};
pub use sdk::{is_initialized, restart_app_if_necessary, TapSdk};

pub mod auth;
pub mod autostart;
pub mod capsule;
pub mod configuration;
pub mod controller;
pub mod media;
pub mod permissions;
pub mod recorder;
pub mod scheduler;
pub mod session;
pub mod shutdown;
pub mod time_map;
pub mod utils;
pub mod windows;

pub use auth::Auth;
pub use autostart::{update, AutostartChange};
pub use capsule::{
    CapsuleEnd, CapsuleState, FocusedWindow, ListenerEvent, ListenerStep, StorageTimeCapsule,
    TimeCapsule, WindowEntry,
};
pub use configuration::{Configuration, Preferences};
pub use controller::SessionController;
pub use media::{CameraController, CameraSnapshotOptions, ScreenCapture, ScreenshotOptions};
pub use permissions::{PermissionType, PermisssionsStatus};
pub use recorder::RecordCommand;
pub use scheduler::{capture_window, is_valid_capture_delay, pick_capture_delay, MEDIA_CAPTURE_LAG};
pub use session::{CapsuleOutcome, CapsuleReport, LoopPhase, Session, SessionDetail, SessionLoop};
pub use shutdown::Shutdown;
pub use time_map::{DayNumber, TrackHistory};
pub use utils::gen_rand_number;
pub use windows::{window_to_show, AppWindow};

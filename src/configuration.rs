use vstd::prelude::*;

verus! {

/// Default length of a time capsule, in seconds.
pub const DEFAULT_TIME_GAP_SECONDS: u64 = 600;

/// The user's recording preferences.
#[derive(Debug, Clone, Copy, PartialEq, Eq, Structural)]
pub struct Preferences {
    pub time_gap_duration_in_seconds: u64,
}

impl Default for Preferences {
    fn default() -> (p: Self)
        ensures
            p.time_gap_duration_in_seconds == DEFAULT_TIME_GAP_SECONDS,
    {
        Preferences { time_gap_duration_in_seconds: DEFAULT_TIME_GAP_SECONDS }
    }
}

/// The application's settings. Directories are relative to the data
/// directory.
#[derive(Debug, Clone)]
pub struct Configuration {
    pub capsule_storage_dir: String,
    pub media_storage_dir: String,
    pub launch_on_startup: bool,
    pub signin_on_launch: bool,
    pub track_on_signin: bool,
    pub enable_camera: bool,
    pub preferences: Preferences,
}

impl Default for Configuration {
    /// The settings of a first launch, before any were saved.
    fn default() -> (c: Self)
        ensures
            c.capsule_storage_dir@ == "capsules"@,
            c.media_storage_dir@ == "media"@,
            !c.launch_on_startup,
            !c.signin_on_launch,
            !c.track_on_signin,
            !c.enable_camera,
            c.preferences.time_gap_duration_in_seconds == DEFAULT_TIME_GAP_SECONDS,
    {
        Configuration {
            capsule_storage_dir: "capsules".to_string(),
            media_storage_dir: "media".to_string(),
            launch_on_startup: false,
            signin_on_launch: false,
            track_on_signin: false,
            enable_camera: false,
            preferences: Preferences::default(),
        }
    }
}

} // verus!

use vstd::prelude::*;

verus! {

/// The operating-system permissions the recorder relies on.
#[derive(Debug, Clone, Copy, PartialEq, Eq, Structural)]
pub enum PermissionType {
    Camera,
    Accessibility,
    ScreenCapture,
}

/// Which of the permissions have been granted.
#[derive(Debug, Clone, Copy, PartialEq, Eq, Structural)]
pub struct PermisssionsStatus {
    pub camera: bool,
    pub accessibility: bool,
    pub screen_capture: bool,
}

impl PermisssionsStatus {
    /// Whether every permission needed to record is granted.
    pub fn required_granted(&self) -> (r: bool)
        ensures
            r == (self.camera && self.accessibility && self.screen_capture),
    {
        self.camera && self.accessibility && self.screen_capture
    }
}

/// The system-settings page where a permission is granted.
pub open spec fn settings_page_spec(permission: PermissionType) -> Seq<char> {
    match permission {
        PermissionType::ScreenCapture => "x-apple.systempreferences:com.apple.preference.security?Privacy_ScreenCapture"@,
        PermissionType::Camera => "x-apple.systempreferences:com.apple.preference.security?Privacy_Camera"@,
        PermissionType::Accessibility => "x-apple.systempreferences:com.apple.preference.security?Privacy_Accessibility"@,
    }
}

impl PermissionType {
    /// The address of the system-settings page for this permission.
    pub fn settings_page(&self) -> (r: String)
        ensures
            r@ == settings_page_spec(*self),
    {
        match self {
            PermissionType::ScreenCapture => "x-apple.systempreferences:com.apple.preference.security?Privacy_ScreenCapture".to_string(),
            PermissionType::Camera => "x-apple.systempreferences:com.apple.preference.security?Privacy_Camera".to_string(),
            PermissionType::Accessibility => "x-apple.systempreferences:com.apple.preference.security?Privacy_Accessibility".to_string(),
        }
    }
}

} // verus!

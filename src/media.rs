use vstd::prelude::*;
use vstd::string::StringExecFns;

verus! {

/// How to take one webcam snapshot.
#[derive(Debug, Clone)]
pub struct CameraSnapshotOptions {
    pub save_path: String,
    pub selected_device: String,
    pub compress: bool,
    pub delay: u64,
}

/// Takes webcam snapshots through the camera collaborator.
#[derive(Debug, Clone, Copy)]
pub struct CameraController {}

/// Takes screenshots of every monitor through the screen collaborator.
#[derive(Debug, Clone, Copy)]
pub struct ScreenCapture {}

/// Where screenshots go.
#[derive(Debug, Clone)]
pub struct ScreenshotOptions {
    pub output: String,
}

/// The file name of a screenshot of one monitor: it carries the application
/// in front, or the monitor's name when no application is known, and the
/// time it was taken.
pub open spec fn screenshot_file_name_spec(app: Seq<char>, monitor: Seq<char>, taken_at: Seq<
    char,
>) -> Seq<char> {
    let subject = if app.len() == 0 {
        monitor
    } else {
        app
    };
    "screenshot_"@ + subject + "_"@ + taken_at + ".png"@
}

/// The file name under which a monitor's screenshot is saved.
pub fn screenshot_file_name(app: &str, monitor: &str, taken_at: &str) -> (r: String)
    ensures
        r@ == screenshot_file_name_spec(app@, monitor@, taken_at@),
{
    let subject = if app.is_empty() {
        monitor
    } else {
        app
    };
    let name = String::from_str("screenshot_");
    let name = name.concat(subject);
    let name = name.concat("_");
    let name = name.concat(taken_at);
    name.concat(".png")
}

/// The name of the webcam snapshot in a capsule's directory.
pub fn portrait_file_name() -> (r: String)
    ensures
        r@ == "portrait.png"@,
{
    "portrait.png".to_string()
}

} // verus!

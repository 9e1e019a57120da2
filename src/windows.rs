use crate::permissions::PermisssionsStatus;
use vstd::prelude::*;

verus! {

/// The application's windows.
#[derive(Debug, Clone, Copy, PartialEq, Eq, Structural)]
pub enum AppWindow {
    Login,
    Track,
    TimeCard,
    Settings,
    Permissions,
}

/// The label that identifies a window.
pub open spec fn label_spec(w: AppWindow) -> Seq<char> {
    match w {
        AppWindow::Login => "login"@,
        AppWindow::Track => "track"@,
        AppWindow::TimeCard => "time-card"@,
        AppWindow::Settings => "settings"@,
        AppWindow::Permissions => "permissions"@,
    }
}

/// The title a window is shown with.
pub open spec fn title_spec(w: AppWindow) -> Seq<char> {
    match w {
        AppWindow::Login => "login"@,
        AppWindow::Track => "track"@,
        AppWindow::TimeCard => "time card"@,
        AppWindow::Settings => "settings"@,
        AppWindow::Permissions => "permissions"@,
    }
}

/// Whether `label` names one of the windows.
pub open spec fn is_window_label(label: Seq<char>) -> bool {
    exists|w: AppWindow| label_spec(w) == label
}

fn same_text(a: &str, b: &str) -> (r: bool)
    ensures
        r == (a@ == b@),
{
    let x = a.to_string();
    let y = b.to_string();
    x == y
}

impl AppWindow {
    pub fn label(&self) -> (r: String)
        ensures
            r@ == label_spec(*self),
    {
        match self {
            AppWindow::Login => "login".to_string(),
            AppWindow::Track => "track".to_string(),
            AppWindow::TimeCard => "time-card".to_string(),
            AppWindow::Settings => "settings".to_string(),
            AppWindow::Permissions => "permissions".to_string(),
        }
    }

    pub fn title(&self) -> (r: String)
        ensures
            r@ == title_spec(*self),
    {
        match self {
            AppWindow::Login => "login".to_string(),
            AppWindow::Track => "track".to_string(),
            AppWindow::TimeCard => "time card".to_string(),
            AppWindow::Settings => "settings".to_string(),
            AppWindow::Permissions => "permissions".to_string(),
        }
    }

    /// The window a label names, if any.
    pub fn try_from_label(label: &str) -> (r: Option<AppWindow>)
        ensures
            r matches Some(w) ==> label_spec(w) == label@,
            r is None ==> !is_window_label(label@),
    {
        if same_text(label, "login") {
            Some(AppWindow::Login)
        } else if same_text(label, "track") {
            Some(AppWindow::Track)
        } else if same_text(label, "time-card") {
            Some(AppWindow::TimeCard)
        } else if same_text(label, "settings") {
            Some(AppWindow::Settings)
        } else if same_text(label, "permissions") {
            Some(AppWindow::Permissions)
        } else {
            proof {
                assert forall|w: AppWindow| label_spec(w) != label@ by {
                    match w {
                        AppWindow::Login => {},
                        AppWindow::Track => {},
                        AppWindow::TimeCard => {},
                        AppWindow::Settings => {},
                        AppWindow::Permissions => {},
                    }
                }
            }
            None
        }
    }

    /// The window a label names; the label must name one.
    pub fn from_label(label: &str) -> (r: AppWindow)
        requires
            is_window_label(label@),
        ensures
            label_spec(r) == label@,
    {
        match AppWindow::try_from_label(label) {
            Some(w) => w,
            None => AppWindow::Login,
        }
    }
}

/// The window to put in front at launch or once permissions change: the
/// permissions window until every required permission is granted, then the
/// login window for a user who is not signed in, else the tracker.
pub fn window_to_show(permissions: &PermisssionsStatus, signed_in: bool) -> (w: AppWindow)
    ensures
        !(permissions.camera && permissions.accessibility && permissions.screen_capture) ==> w
            == AppWindow::Permissions,
        permissions.camera && permissions.accessibility && permissions.screen_capture
            ==> w == if signed_in {
            AppWindow::Track
        } else {
            AppWindow::Login
        },
{
    if !permissions.required_granted() {
        AppWindow::Permissions
    } else if signed_in {
        AppWindow::Track
    } else {
        AppWindow::Login
    }
}

} // verus!

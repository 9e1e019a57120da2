use vstd::prelude::*;

verus! {

/// One entry of a capsule's focused-window log.
#[derive(Debug, Clone)]
pub struct WindowEntry {
    pub name: String,
    pub title: String,
    pub time: String,
}

/// What the focused-window collaborator reports about the window in front.
#[derive(Debug, Clone)]
pub struct FocusedWindow {
    pub app_name: String,
    pub title: String,
}

/// The outcome of one receive by an input listener on its broadcaster.
#[derive(Debug)]
pub enum ListenerEvent {
    /// An event arrived, stamped with the time it happened.
    Received(String),
    /// The listener fell behind and this many of the oldest events were dropped.
    Lagged(u64),
    /// The broadcaster is gone; nothing more will arrive.
    Closed,
}

/// What an input listener does after handling one receive.
#[derive(Debug, Clone, Copy, PartialEq, Eq, Structural)]
pub enum ListenerStep {
    Continue,
    Stop,
}

/// Why a capsule stopped recording.
#[derive(Debug, Clone, Copy, PartialEq, Eq, Structural)]
pub enum CapsuleEnd {
    /// Its fixed duration elapsed.
    Timeout,
    /// The session's cancellation signal fired first.
    Shutdown,
}

/// Where a capsule stands. Once it leaves `Recording` it does not return; a
/// capsule that is `Exiting` is persisted by moving it into storage form.
#[derive(Debug, Clone, Copy, PartialEq, Eq, Structural)]
pub enum CapsuleState {
    Recording,
    Exiting(CapsuleEnd),
}

/// One bounded interval of recorded activity within a session.
#[derive(Debug)]
pub struct TimeCapsule {
    id: String,
    session_id: String,
    mouse_clicks: Vec<String>,
    keystrokes: Vec<String>,
    windows: Vec<WindowEntry>,
    started_at: String,
    ended_at: Option<String>,
    storage_path: String,
    state: CapsuleState,
    capture_taken: bool,
}

/// The model of a capsule: its identity, its three activity logs in arrival
/// order, its recording state, and whether its one capture attempt was
/// handed out.
pub struct CapsuleView {
    pub id: String,
    pub session_id: String,
    pub started_at: String,
    pub storage_path: String,
    pub ended_at: Option<String>,
    pub mouse_clicks: Seq<String>,
    pub keystrokes: Seq<String>,
    pub windows: Seq<WindowEntry>,
    pub state: CapsuleState,
    pub capture_taken: bool,
}

/// The persisted form of a capsule: its data without the recording state.
#[derive(Debug, Clone)]
pub struct StorageTimeCapsule {
    pub id: String,
    pub session_id: String,
    pub mouse_clicks: Vec<String>,
    pub keystrokes: Vec<String>,
    pub windows: Vec<WindowEntry>,
    pub started_at: String,
    pub ended_at: Option<String>,
}

/// A listener's log after one receive: an event that arrives while the
/// capsule records is appended; a lag, a closed broadcaster, or any event
/// after recording stopped leaves the log as it is.
pub open spec fn listener_log(log: Seq<String>, recording: bool, event: ListenerEvent) -> Seq<
    String,
> {
    match event {
        ListenerEvent::Received(at) => if recording {
            log.push(at)
        } else {
            log
        },
        _ => log,
    }
}

/// A listener keeps going while its capsule records and its broadcaster is
/// alive; a lag is logged and survived.
pub open spec fn listener_step(recording: bool, event: ListenerEvent) -> ListenerStep {
    if recording && !(event is Closed) {
        ListenerStep::Continue
    } else {
        ListenerStep::Stop
    }
}

/// The application of the last window-log entry, if any.
pub open spec fn last_app(windows: Seq<WindowEntry>) -> Option<Seq<char>> {
    if windows.len() > 0 {
        Some(windows.last().name@)
    } else {
        None
    }
}

/// Neighbouring entries of a window log name different applications: an
/// entry is only added when the application in front changed.
pub open spec fn windows_alternate(windows: Seq<WindowEntry>) -> bool {
    forall|i: int| 0 <= i < windows.len() - 1 ==> (#[trigger] windows[i]).name@ != windows[i + 1].name@
}

/// Whether a look at the focused window adds an entry to the window log: the
/// capsule records, some window is in front, and its application differs from
/// the last one logged (or none was logged yet).
pub open spec fn logs_window(c: CapsuleView, window: Option<FocusedWindow>) -> bool {
    c.state == CapsuleState::Recording && match window {
        Some(w) => match last_app(c.windows) {
            Some(a) => a != w.app_name@,
            None => true,
        },
        None => false,
    }
}

/// The capsule after one look at the focused window, taken at time `at`.
pub open spec fn after_window_look(c: CapsuleView, window: Option<FocusedWindow>, at: String) -> CapsuleView {
    if logs_window(c, window) {
        let w = window->Some_0;
        CapsuleView {
            windows: c.windows.push(WindowEntry { name: w.app_name, title: w.title, time: at }),
            ..c
        }
    } else {
        c
    }
}

/// The capsule after the first end: a recording capsule moves to `Exiting`
/// with its cause and end time; an ended one stays as it is.
pub open spec fn after_end(c: CapsuleView, cause: CapsuleEnd, ended_at: String) -> CapsuleView {
    if c.state == CapsuleState::Recording {
        CapsuleView { state: CapsuleState::Exiting(cause), ended_at: Some(ended_at), ..c }
    } else {
        c
    }
}

/// Applies one receive to a listener's log.
fn apply_listener_event(log: &mut Vec<String>, recording: bool, event: ListenerEvent) -> (step:
    ListenerStep)
    ensures
        final(log)@ == listener_log(old(log)@, recording, event),
        step == listener_step(recording, event),
{
    match event {
        ListenerEvent::Received(at) => {
            if recording {
                log.push(at);
                ListenerStep::Continue
            } else {
                ListenerStep::Stop
            }
        },
        ListenerEvent::Lagged(_) => {
            if recording {
                ListenerStep::Continue
            } else {
                ListenerStep::Stop
            }
        },
        ListenerEvent::Closed => ListenerStep::Stop,
    }
}

impl View for TimeCapsule {
    type V = CapsuleView;

    closed spec fn view(&self) -> CapsuleView {
        CapsuleView {
            id: self.id,
            session_id: self.session_id,
            started_at: self.started_at,
            storage_path: self.storage_path,
            ended_at: self.ended_at,
            mouse_clicks: self.mouse_clicks@,
            keystrokes: self.keystrokes@,
            windows: self.windows@,
            state: self.state,
            capture_taken: self.capture_taken,
        }
    }
}

impl TimeCapsule {
    #[verifier::type_invariant]
    spec fn inv(&self) -> bool {
        windows_alternate(self.windows@)
    }

    /// A capsule that starts recording now, with empty logs.
    pub fn new(id: String, session_id: String, started_at: String, storage_path: String) -> (c:
        Self)
        ensures
            c@ == (CapsuleView {
                id,
                session_id,
                started_at,
                storage_path,
                ended_at: None,
                mouse_clicks: Seq::empty(),
                keystrokes: Seq::empty(),
                windows: Seq::empty(),
                state: CapsuleState::Recording,
                capture_taken: false,
            }),
    {
        let c = TimeCapsule {
            id,
            session_id,
            mouse_clicks: Vec::new(),
            keystrokes: Vec::new(),
            windows: Vec::new(),
            started_at,
            ended_at: None,
            storage_path,
            state: CapsuleState::Recording,
            capture_taken: false,
        };
        assert(c@.mouse_clicks =~= Seq::empty());
        assert(c@.keystrokes =~= Seq::empty());
        assert(c@.windows =~= Seq::empty());
        c
    }

    pub fn id(&self) -> (r: &String)
        ensures
            *r == self@.id,
    {
        &self.id
    }

    pub fn session_id(&self) -> (r: &String)
        ensures
            *r == self@.session_id,
    {
        &self.session_id
    }

    pub fn started_at(&self) -> (r: &String)
        ensures
            *r == self@.started_at,
    {
        &self.started_at
    }

    pub fn ended_at(&self) -> (r: &Option<String>)
        ensures
            *r == self@.ended_at,
    {
        &self.ended_at
    }

    pub fn storage_path(&self) -> (r: &String)
        ensures
            *r == self@.storage_path,
    {
        &self.storage_path
    }

    /// Timestamps of the mouse clicks seen, in arrival order.
    pub fn mouse_clicks(&self) -> (r: &Vec<String>)
        ensures
            r@ == self@.mouse_clicks,
    {
        &self.mouse_clicks
    }

    /// Timestamps of the keystrokes seen, in arrival order.
    pub fn keystrokes(&self) -> (r: &Vec<String>)
        ensures
            r@ == self@.keystrokes,
    {
        &self.keystrokes
    }

    /// The focused-window log, in arrival order; neighbouring entries name
    /// different applications.
    pub fn windows(&self) -> (r: &Vec<WindowEntry>)
        ensures
            r@ == self@.windows,
            windows_alternate(r@),
    {
        proof {
            use_type_invariant(self);
        }
        &self.windows
    }

    /// Whether the capsule still records.
    pub fn is_recording(&self) -> (r: bool)
        ensures
            r == (self@.state == CapsuleState::Recording),
    {
        match self.state {
            CapsuleState::Recording => true,
            CapsuleState::Exiting(_) => false,
        }
    }

    /// The capsule's state.
    pub fn state(&self) -> (r: CapsuleState)
        ensures
            r == self@.state,
    {
        self.state
    }

    /// Whether the capsule ended because the session was shut down.
    pub fn ended_by_shutdown(&self) -> (r: bool)
        ensures
            r == (self@.state == CapsuleState::Exiting(CapsuleEnd::Shutdown)),
    {
        match self.state {
            CapsuleState::Exiting(CapsuleEnd::Shutdown) => true,
            _ => false,
        }
    }

    /// Handles one receive of the mouse listener.
    pub fn on_mouse_event(&mut self, event: ListenerEvent) -> (step: ListenerStep)
        ensures
            final(self)@ == (CapsuleView {
                mouse_clicks: listener_log(
                    old(self)@.mouse_clicks,
                    old(self)@.state == CapsuleState::Recording,
                    event,
                ),
                ..old(self)@
            }),
            step == listener_step(old(self)@.state == CapsuleState::Recording, event),
    {
        proof {
            use_type_invariant(&*self);
        }
        let recording = self.is_recording();
        let mut log: Vec<String> = Vec::new();
        std::mem::swap(&mut self.mouse_clicks, &mut log);
        let step = apply_listener_event(&mut log, recording, event);
        std::mem::swap(&mut self.mouse_clicks, &mut log);
        step
    }

    /// Handles one receive of the keystroke listener.
    pub fn on_keystroke_event(&mut self, event: ListenerEvent) -> (step: ListenerStep)
        ensures
            final(self)@ == (CapsuleView {
                keystrokes: listener_log(
                    old(self)@.keystrokes,
                    old(self)@.state == CapsuleState::Recording,
                    event,
                ),
                ..old(self)@
            }),
            step == listener_step(old(self)@.state == CapsuleState::Recording, event),
    {
        proof {
            use_type_invariant(&*self);
        }
        let recording = self.is_recording();
        let mut log: Vec<String> = Vec::new();
        std::mem::swap(&mut self.keystrokes, &mut log);
        let step = apply_listener_event(&mut log, recording, event);
        std::mem::swap(&mut self.keystrokes, &mut log);
        step
    }

    /// Handles one look of the focused-window poller, taken at time `at`. An
    /// entry is added only when the application in front changed; returns
    /// whether one was.
    pub fn observe_window(&mut self, window: Option<FocusedWindow>, at: String) -> (logged: bool)
        ensures
            logged == logs_window(old(self)@, window),
            final(self)@ == after_window_look(old(self)@, window, at),
    {
        if !self.is_recording() {
            return false;
        }
        match window {
            None => false,
            Some(w) => {
                proof {
                    use_type_invariant(&*self);
                }
                let n = self.windows.len();
                let changed = if n == 0 {
                    true
                } else {
                    !(self.windows[n - 1].name == w.app_name)
                };
                if changed {
                    let entry = WindowEntry { name: w.app_name, title: w.title, time: at };
                    proof {
                        let ws = self.windows@.push(entry);
                        assert forall|i: int| 0 <= i < ws.len() - 1 implies (#[trigger] ws[i]).name@
                            != ws[i + 1].name@ by {
                            if i < n - 1 {
                                assert(ws[i] == self.windows@[i]);
                                assert(ws[i + 1] == self.windows@[i + 1]);
                            }
                        }
                    }
                    let mut log: Vec<WindowEntry> = Vec::new();
                    std::mem::swap(&mut self.windows, &mut log);
                    log.push(entry);
                    std::mem::swap(&mut self.windows, &mut log);
                    true
                } else {
                    false
                }
            },
        }
    }

    /// Hands out the capsule's one capture attempt: true the first time it is
    /// asked while the capsule records, false ever after.
    pub fn begin_capture(&mut self) -> (go: bool)
        ensures
            go == (old(self)@.state == CapsuleState::Recording && !old(self)@.capture_taken),
            final(self)@ == (CapsuleView {
                capture_taken: old(self)@.capture_taken || go,
                ..old(self)@
            }),
    {
        proof {
            use_type_invariant(&*self);
        }
        if self.is_recording() && !self.capture_taken {
            self.capture_taken = true;
            true
        } else {
            false
        }
    }

    /// Ends the recording: the first end wins and stamps `ended_at`; a later
    /// one changes nothing. Returns true if the capsule ended because of the
    /// session's shutdown, false if its time ran out.
    pub fn end(&mut self, cause: CapsuleEnd, ended_at: String) -> (shutdown: bool)
        ensures
            final(self)@ == after_end(old(self)@, cause, ended_at),
            final(self)@.state != CapsuleState::Recording,
            shutdown == (final(self)@.state == CapsuleState::Exiting(CapsuleEnd::Shutdown)),
    {
        proof {
            use_type_invariant(&*self);
        }
        if self.is_recording() {
            self.state = CapsuleState::Exiting(cause);
            self.ended_at = Some(ended_at);
        }
        self.ended_by_shutdown()
    }

    /// Moves an ended capsule into its storage form. A capsule that still
    /// records is handed back unchanged.
    pub fn into_storage(self) -> (r: Result<StorageTimeCapsule, TimeCapsule>)
        ensures
            self@.state == CapsuleState::Recording <==> r is Err,
            r matches Err(c) ==> c@ == self@,
            r matches Ok(s) ==> {
                &&& s.id == self@.id
                &&& s.session_id == self@.session_id
                &&& s.started_at == self@.started_at
                &&& s.ended_at == self@.ended_at
                &&& s.mouse_clicks@ == self@.mouse_clicks
                &&& s.keystrokes@ == self@.keystrokes
                &&& s.windows@ == self@.windows
            },
    {
        if self.is_recording() {
            return Err(self);
        }
        let TimeCapsule {
            id,
            session_id,
            mouse_clicks,
            keystrokes,
            windows,
            started_at,
            ended_at,
            ..
        } = self;
        Ok(StorageTimeCapsule {
            id,
            session_id,
            mouse_clicks,
            keystrokes,
            windows,
            started_at,
            ended_at,
        })
    }
}

/// An ended capsule is frozen: no listener receive, window look or later
/// end changes it, and its capture attempt is no longer handed out.
pub proof fn lemma_ended_capsule_is_frozen(
    c: CapsuleView,
    event: ListenerEvent,
    window: Option<FocusedWindow>,
    at: String,
    cause: CapsuleEnd,
)
    requires
        c.state != CapsuleState::Recording,
    ensures
        listener_log(c.mouse_clicks, c.state == CapsuleState::Recording, event) == c.mouse_clicks,
        listener_log(c.keystrokes, c.state == CapsuleState::Recording, event) == c.keystrokes,
        listener_step(c.state == CapsuleState::Recording, event) == ListenerStep::Stop,
        after_window_look(c, window, at) == c,
        after_end(c, cause, at) == c,
{
}

/// A look at the focused window keeps a window log alternating: the entry
/// it may add names an application other than the last one logged.
pub proof fn lemma_window_look_keeps_alternation(
    c: CapsuleView,
    window: Option<FocusedWindow>,
    at: String,
)
    requires
        windows_alternate(c.windows),
    ensures
        windows_alternate(after_window_look(c, window, at).windows),
{
    if logs_window(c, window) {
        let ws = after_window_look(c, window, at).windows;
        assert forall|i: int| 0 <= i < ws.len() - 1 implies (#[trigger] ws[i]).name@ != ws[i
            + 1].name@ by {
            if i < c.windows.len() - 1 {
                assert(ws[i] == c.windows[i]);
                assert(ws[i + 1] == c.windows[i + 1]);
            }
        }
    }
}

} // verus!

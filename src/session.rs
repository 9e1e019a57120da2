use crate::shutdown::Shutdown;
use crate::time_map::{add_to_day, clamp_u64, lemma_increments_combine, tracked_on, DayNumber};
use vstd::prelude::*;

verus! {

/// A recording session as the rest of the application sees it.
#[derive(Debug)]
pub struct Session {
    pub id: String,
    pub started_at: Option<String>,
    pub ended_at: Option<String>,
    pub is_running: bool,
    pub shutdown: Shutdown,
}

/// What is reported about a session that has been started.
#[derive(Debug, Clone)]
pub struct SessionDetail {
    pub id: String,
    pub started_at: String,
    pub ended_at: Option<String>,
}

impl Session {
    /// A session that has not been started.
    pub fn new(id: String) -> (s: Self)
        ensures
            s.id == id,
            s.started_at is None,
            s.ended_at is None,
            !s.is_running,
            !s.shutdown.cancelled(),
    {
        Session { id, started_at: None, ended_at: None, is_running: false, shutdown: Shutdown::new() }
    }

    /// Starts a fresh session with `id` at time `started_at`, unless one is
    /// running already; then nothing changes and `None` comes back.
    pub fn begin(&mut self, id: String, started_at: String) -> (r: Option<SessionDetail>)
        ensures
            old(self).is_running ==> r is None && *final(self) == *old(self),
            !old(self).is_running ==> {
                &&& r matches Some(d) && d.id == id && d.started_at == started_at && d.ended_at is None
                &&& final(self).id == id
                &&& final(self).started_at == Some(started_at)
                &&& final(self).ended_at is None
                &&& final(self).is_running
                &&& !final(self).shutdown.cancelled()
            },
    {
        if self.is_running {
            return None;
        }
        let detail = SessionDetail { id: id.clone(), started_at: started_at.clone(), ended_at: None };
        self.id = id;
        self.started_at = Some(started_at);
        self.ended_at = None;
        self.is_running = true;
        self.shutdown = Shutdown::new();
        Some(detail)
    }

    /// Marks a running session as over at time `ended_at`. `is_running` goes
    /// from true to false once; on a session that is not running this does
    /// nothing.
    pub fn finish(&mut self, ended_at: String)
        ensures
            old(self).is_running ==> {
                &&& !final(self).is_running
                &&& final(self).ended_at == Some(ended_at)
                &&& final(self).id == old(self).id
                &&& final(self).started_at == old(self).started_at
                &&& final(self).shutdown == old(self).shutdown
            },
            !old(self).is_running ==> *final(self) == *old(self),
    {
        if self.is_running {
            self.is_running = false;
            self.ended_at = Some(ended_at);
        }
    }

    /// Whether the session's cancellation handle has seen its signal.
    pub fn is_stopped(&self) -> (r: bool)
        ensures
            r == self.shutdown.cancelled(),
    {
        self.shutdown.is_shutdown()
    }

    /// The session's details, once it has been started.
    pub fn detail(&self) -> (r: Option<SessionDetail>)
        ensures
            self.started_at is None <==> r is None,
            r matches Some(d) ==> {
                &&& d.id == self.id
                &&& Some(d.started_at) == self.started_at
                &&& d.ended_at == self.ended_at
            },
    {
        match &self.started_at {
            None => None,
            Some(started_at) => Some(
                SessionDetail {
                    id: self.id.clone(),
                    started_at: started_at.clone(),
                    ended_at: self.ended_at.clone(),
                },
            ),
        }
    }
}

/// How one capsule's run came back to the session loop.
#[derive(Debug, Clone, Copy, PartialEq, Eq, Structural)]
pub enum CapsuleOutcome {
    /// The capsule's duration elapsed.
    Timeout,
    /// The session's cancellation signal fired.
    Shutdown,
    /// The capsule could not run (its storage could not be prepared).
    Failed,
}

/// Where the session loop stands.
#[derive(Debug, Clone, Copy, PartialEq, Eq, Structural)]
pub enum LoopPhase {
    /// Between capsules: the next one may start.
    Idle,
    /// A capsule records.
    Recording,
    /// The loop is over; no capsule starts again.
    Stopped,
}

/// What the loop reports about a capsule that is over: its span in seconds
/// on the loop's clock, the seconds to add to the tracker, and whether the
/// loop stops.
#[derive(Debug, Clone, Copy, PartialEq, Eq, Structural)]
pub struct CapsuleReport {
    pub started: u64,
    pub ended: u64,
    pub elapsed: u64,
    pub stop: bool,
}

/// The decisions of the session loop: when a capsule may start, when it is
/// over, how long it counted for, and whether another one follows.
///
/// Clock readings come from outside and a wall clock may step back, so the
/// loop never lets time run backwards: a capsule starts no earlier than the
/// previous one ended and ends no earlier than it started.
pub struct SessionLoop {
    phase: LoopPhase,
    current_start: u64,
    last_end: u64,
    spans: Ghost<Seq<(u64, u64)>>,
}

/// The model of the loop: its phase, the start of the capsule in progress,
/// the end of the last capsule, and the spans of all capsules so far.
pub struct LoopView {
    pub phase: LoopPhase,
    pub current_start: u64,
    pub last_end: u64,
    pub spans: Seq<(u64, u64)>,
}

/// What holds of the loop in every state: each span starts no later than it
/// ends, every capsule ends no later than any later one starts, the last span
/// ends at `last_end`, and a capsule in progress started after it.
pub open spec fn loop_invariant(v: LoopView) -> bool {
    &&& forall|i: int| 0 <= i < v.spans.len() ==> (#[trigger] v.spans[i]).0 <= v.spans[i].1
    &&& forall|i: int, j: int|
        0 <= i < j < v.spans.len() ==> (#[trigger] v.spans[i]).1 <= (#[trigger] v.spans[j]).0
    &&& v.spans.len() > 0 ==> v.spans.last().1 == v.last_end
    &&& v.phase == LoopPhase::Recording ==> v.last_end <= v.current_start
}

pub open spec fn max_u64(a: u64, b: u64) -> u64 {
    if a >= b {
        a
    } else {
        b
    }
}

/// Whether the loop stops after a capsule: a shutdown wins over everything,
/// a soft-stop request stops it after a capsule that ended any other way.
pub open spec fn stops_after(outcome: CapsuleOutcome, soft_stop: bool) -> bool {
    outcome == CapsuleOutcome::Shutdown || soft_stop
}

/// The loop after asking for a capsule at clock reading `now`: between
/// capsules one starts, no earlier than the previous one ended; otherwise
/// nothing changes.
pub open spec fn after_begin(v: LoopView, now: u64) -> LoopView {
    if v.phase == LoopPhase::Idle {
        LoopView { phase: LoopPhase::Recording, current_start: max_u64(now, v.last_end), ..v }
    } else {
        v
    }
}

/// The report on the capsule in progress when it is closed at `now`.
pub open spec fn finish_report(
    v: LoopView,
    now: u64,
    outcome: CapsuleOutcome,
    soft_stop: bool,
) -> CapsuleReport {
    let ended = max_u64(now, v.current_start);
    CapsuleReport {
        started: v.current_start,
        ended,
        elapsed: (ended - v.current_start) as u64,
        stop: stops_after(outcome, soft_stop),
    }
}

/// The loop after closing the capsule in progress at `now`; without one,
/// nothing changes.
pub open spec fn after_finish(
    v: LoopView,
    now: u64,
    outcome: CapsuleOutcome,
    soft_stop: bool,
) -> LoopView {
    if v.phase == LoopPhase::Recording {
        let rep = finish_report(v, now, outcome, soft_stop);
        LoopView {
            phase: if rep.stop {
                LoopPhase::Stopped
            } else {
                LoopPhase::Idle
            },
            current_start: v.current_start,
            last_end: rep.ended,
            spans: v.spans.push((rep.started, rep.ended)),
        }
    } else {
        v
    }
}

impl View for SessionLoop {
    type V = LoopView;

    closed spec fn view(&self) -> LoopView {
        LoopView {
            phase: self.phase,
            current_start: self.current_start,
            last_end: self.last_end,
            spans: self.spans@,
        }
    }
}

impl SessionLoop {
    #[verifier::type_invariant]
    spec fn inv(&self) -> bool {
        loop_invariant(self@)
    }

    /// A loop that has run no capsule yet.
    pub fn new() -> (l: Self)
        ensures
            l@ == (LoopView {
                phase: LoopPhase::Idle,
                current_start: 0,
                last_end: 0,
                spans: Seq::empty(),
            }),
            loop_invariant(l@),
    {
        SessionLoop {
            phase: LoopPhase::Idle,
            current_start: 0,
            last_end: 0,
            spans: Ghost(Seq::empty()),
        }
    }

    /// The loop's phase.
    pub fn phase(&self) -> (r: LoopPhase)
        ensures
            r == self@.phase,
    {
        self.phase
    }

    /// Whether the loop is over.
    pub fn is_stopped(&self) -> (r: bool)
        ensures
            r == (self@.phase == LoopPhase::Stopped),
    {
        match self.phase {
            LoopPhase::Stopped => true,
            _ => false,
        }
    }

    /// Starts the next capsule at clock reading `now`, if the loop is between
    /// capsules; returns the start it was given (never before the previous
    /// capsule's end). At most one capsule records at a time.
    pub fn begin_capsule(&mut self, now: u64) -> (start: Option<u64>)
        ensures
            loop_invariant(final(self)@),
            final(self)@ == after_begin(old(self)@, now),
            old(self)@.phase == LoopPhase::Idle <==> start is Some,
            start matches Some(s) ==> {
                &&& s == max_u64(now, old(self)@.last_end)
                &&& final(self)@ == (LoopView {
                    phase: LoopPhase::Recording,
                    current_start: s,
                    ..old(self)@
                })
            },
            start is None ==> final(self)@ == old(self)@,
    {
        proof {
            use_type_invariant(&*self);
        }
        match self.phase {
            LoopPhase::Idle => {
                let start = if now >= self.last_end {
                    now
                } else {
                    self.last_end
                };
                *self = SessionLoop {
                    phase: LoopPhase::Recording,
                    current_start: start,
                    last_end: self.last_end,
                    spans: Ghost(self.spans@),
                };
                Some(start)
            },
            _ => None,
        }
    }

    /// Closes the capsule in progress at clock reading `now`. The capsule is
    /// accounted for exactly once: its span is recorded, `elapsed` is the
    /// time it spanned, and the loop goes back to `Idle`, or to `Stopped`
    /// when the capsule ended by shutdown or a soft stop was requested.
    /// Without a capsule in progress nothing changes and `None` comes back.
    pub fn finish_capsule(&mut self, now: u64, outcome: CapsuleOutcome, soft_stop: bool) -> (r:
        Option<CapsuleReport>)
        ensures
            loop_invariant(final(self)@),
            final(self)@ == after_finish(old(self)@, now, outcome, soft_stop),
            r matches Some(rep) ==> rep == finish_report(old(self)@, now, outcome, soft_stop),
            old(self)@.phase == LoopPhase::Recording <==> r is Some,
            r is None ==> final(self)@ == old(self)@,
            r matches Some(rep) ==> {
                &&& rep.started == old(self)@.current_start
                &&& rep.ended == max_u64(now, old(self)@.current_start)
                &&& rep.elapsed == rep.ended - rep.started
                &&& rep.stop == stops_after(outcome, soft_stop)
                &&& final(self)@ == (LoopView {
                    phase: if rep.stop {
                        LoopPhase::Stopped
                    } else {
                        LoopPhase::Idle
                    },
                    current_start: old(self)@.current_start,
                    last_end: rep.ended,
                    spans: old(self)@.spans.push((rep.started, rep.ended)),
                })
            },
    {
        proof {
            use_type_invariant(&*self);
        }
        match self.phase {
            LoopPhase::Recording => {
                let started = self.current_start;
                let ended = if now >= started {
                    now
                } else {
                    started
                };
                let stop = match outcome {
                    CapsuleOutcome::Shutdown => true,
                    _ => soft_stop,
                };
                proof {
                    lemma_steps_keep_invariant(self@, now, outcome, soft_stop);
                }
                let phase = if stop {
                    LoopPhase::Stopped
                } else {
                    LoopPhase::Idle
                };
                *self = SessionLoop {
                    phase,
                    current_start: started,
                    last_end: ended,
                    spans: Ghost(self.spans@.push((started, ended))),
                };
                Some(CapsuleReport { started, ended, elapsed: ended - started, stop })
            },
            _ => None,
        }
    }
}

/// Capsules never overlap: in every state of the loop, each capsule ends no
/// later than the next one starts.
pub proof fn lemma_capsules_never_overlap(v: LoopView, i: int)
    requires
        loop_invariant(v),
        0 <= i,
        i + 1 < v.spans.len(),
    ensures
        v.spans[i].1 <= v.spans[i + 1].0,
{
    assert(v.spans[i].1 <= v.spans[i + 1].0);
}

/// Every step of the loop keeps its invariant, so in every state reached
/// from `SessionLoop::new` no two capsules overlap.
pub proof fn lemma_steps_keep_invariant(
    v: LoopView,
    now: u64,
    outcome: CapsuleOutcome,
    soft_stop: bool,
)
    requires
        loop_invariant(v),
    ensures
        loop_invariant(after_begin(v, now)),
        loop_invariant(after_finish(v, now, outcome, soft_stop)),
{
    if v.phase == LoopPhase::Recording {
        let w = after_finish(v, now, outcome, soft_stop);
        let rep = finish_report(v, now, outcome, soft_stop);
        assert forall|i: int, j: int| 0 <= i < j < w.spans.len() implies (
        #[trigger] w.spans[i]).1 <= (#[trigger] w.spans[j]).0 by {
            if j == w.spans.len() - 1 && v.spans.len() > 0 {
                assert(w.spans[i] == v.spans[i]);
                if i < v.spans.len() - 1 {
                    assert(v.spans[i].1 <= v.spans[v.spans.len() - 1].0);
                }
            } else if j < w.spans.len() - 1 {
                assert(w.spans[i] == v.spans[i]);
                assert(w.spans[j] == v.spans[j]);
            }
        }
        assert forall|i: int| 0 <= i < w.spans.len() implies (#[trigger] w.spans[i]).0
            <= w.spans[i].1 by {
            if i < v.spans.len() {
                assert(w.spans[i] == v.spans[i]);
            }
        }
    }
}

/// A shutdown during a capsule ends the session: the loop stops, and asking
/// for another capsule afterwards starts none.
pub proof fn lemma_shutdown_stops_the_loop(v: LoopView, now: u64, soft_stop: bool, later: u64)
    requires
        v.phase == LoopPhase::Recording,
    ensures
        finish_report(v, now, CapsuleOutcome::Shutdown, soft_stop).stop,
        after_finish(v, now, CapsuleOutcome::Shutdown, soft_stop).phase == LoopPhase::Stopped,
        after_begin(after_finish(v, now, CapsuleOutcome::Shutdown, soft_stop), later)
            == after_finish(v, now, CapsuleOutcome::Shutdown, soft_stop),
{
}

/// Two capsules in a row that end by timeout on one day add their wall-clock
/// spans to that day's total (which saturates at `u64::MAX`), when the clock
/// readings do not step back.
pub proof fn lemma_two_capsules_add_up(
    v: LoopView,
    m: Map<DayNumber, u64>,
    day: DayNumber,
    t1: u64,
    e1: u64,
    t2: u64,
    e2: u64,
)
    requires
        v.phase == LoopPhase::Idle,
        v.last_end <= t1 <= e1 <= t2 <= e2,
    ensures
        ({
            let s1 = after_begin(v, t1);
            let r1 = finish_report(s1, e1, CapsuleOutcome::Timeout, false);
            let s2 = after_begin(after_finish(s1, e1, CapsuleOutcome::Timeout, false), t2);
            let r2 = finish_report(s2, e2, CapsuleOutcome::Timeout, false);
            &&& !r1.stop
            &&& s2.phase == LoopPhase::Recording
            &&& r1.elapsed == e1 - t1
            &&& r2.elapsed == e2 - t2
            &&& tracked_on(add_to_day(add_to_day(m, day, r1.elapsed as nat), day, r2.elapsed as nat), day)
                == clamp_u64((tracked_on(m, day) + (e1 - t1) + (e2 - t2)) as nat)
        }),
{
    let s1 = after_begin(v, t1);
    let r1 = finish_report(s1, e1, CapsuleOutcome::Timeout, false);
    let s2 = after_begin(after_finish(s1, e1, CapsuleOutcome::Timeout, false), t2);
    let r2 = finish_report(s2, e2, CapsuleOutcome::Timeout, false);
    lemma_increments_combine(m, day, r1.elapsed as nat, r2.elapsed as nat);
}

} // verus!

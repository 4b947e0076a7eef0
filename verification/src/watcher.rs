//! The debounced directory watcher as a state machine. The machine decides;
//! its driver subscribes to the file system, keeps the timers and calls the
//! listener.

use vstd::prelude::*;
use vstd::string::*;
use crate::paths::{path_starts_with, spec_expand_tilde, PathHelper};
use crate::text::opt_text;

verus! {

/// The shortest debounce window, in milliseconds.
pub const MIN_DEBOUNCE_MS: u64 = 2000;

/// The lifecycle state of a watcher.
#[derive(Debug, Clone, Copy, PartialEq, Eq, Structural)]
pub enum WatcherState {
    /// Events are collected and the listener is called.
    Running,
    /// Events still arrive, but the listener is not called.
    Paused,
    /// Nothing is watched.
    Stopped,
}

impl WatcherState {
    /// The state's name.
    pub open spec fn spec_text(&self) -> Seq<char> {
        match self {
            WatcherState::Running => "Running"@,
            WatcherState::Paused => "Paused"@,
            WatcherState::Stopped => "Stopped"@,
        }
    }

    /// The state's name.
    pub fn to_text(&self) -> (r: String)
        ensures
            r@ == self.spec_text(),
    {
        match self {
            WatcherState::Running => String::from_str("Running"),
            WatcherState::Paused => String::from_str("Paused"),
            WatcherState::Stopped => String::from_str("Stopped"),
        }
    }
}

/// What happened to a path.
#[derive(Debug, Clone, Copy, PartialEq, Eq, Structural)]
pub enum EventKind {
    Created,
    Modified,
    Removed,
    /// Anything else the file system reports, such as an access.
    Other,
}

/// An event on a path, as the watcher hands it to the orchestrator. It is
/// used once and not kept.
#[derive(Debug)]
pub struct SyncEvent {
    pub path: String,
    pub kind: EventKind,
}

/// What the driver has to do after a lifecycle call.
#[derive(Debug, Clone, Copy, PartialEq, Eq, Structural)]
pub enum WatcherAction {
    /// Nothing.
    Nothing,
    /// Make sure the directory exists, subscribe to it, start the
    /// coalescing task, and report the outcome with `started`.
    Start,
    /// Delivery goes on; nothing to set up.
    Resumed,
    /// Delivery is suspended; the subscription stays.
    Suspended,
    /// Release the subscription and cancel the coalescing task.
    Release,
}

/// The step of starting a watcher that failed.
#[derive(Debug, Clone, Copy, PartialEq, Eq, Structural)]
pub enum StartStage {
    CreateDirectory,
    CreateWatcher,
    WatchPath,
}

/// One input of the coalescing task.
#[derive(Debug, Clone, Copy, PartialEq, Eq, Structural)]
pub enum Step {
    /// The file system reported an event.
    Event(EventKind),
    /// The debounce timer expired.
    Tick,
}

/// A watcher of one directory.
#[derive(Debug)]
pub struct FileWatcher {
    /// The watched directory.
    pub path: String,
    pub state: WatcherState,
    /// The debounce window in milliseconds, at least `MIN_DEBOUNCE_MS`.
    pub debounce_ms: u64,
    /// The kind of the last event since the last delivery.
    pub last_event: Option<EventKind>,
    /// The directory is subscribed to. One watcher holds at most one
    /// subscription: it is taken when the watcher starts and given up when
    /// it stops.
    pub subscribed: bool,
    /// The watcher ran and was stopped; it cannot run again.
    pub released: bool,
    /// Shutdown was requested.
    pub should_exit: bool,
}

/// The window that is used for a requested one.
pub open spec fn clamp_debounce(debounce_ms: u64) -> u64 {
    if debounce_ms < MIN_DEBOUNCE_MS {
        MIN_DEBOUNCE_MS
    } else {
        debounce_ms
    }
}

/// The message for a failed start.
pub open spec fn spec_start_error(stage: StartStage, path: Seq<char>, detail: Seq<char>) -> Seq<char> {
    match stage {
        StartStage::CreateDirectory => "Failed to create directory "@ + path + ": "@ + detail,
        StartStage::CreateWatcher => "Failed to create watcher: "@ + detail,
        StartStage::WatchPath => "Failed to watch path "@ + path + ": "@ + detail,
    }
}

impl FileWatcher {
    /// The type's invariant: the window is never shorter than the minimum,
    /// the directory is subscribed to exactly while the watcher runs or is
    /// paused, and a released watcher is stopped.
    pub open spec fn wf(&self) -> bool {
        &&& self.debounce_ms >= MIN_DEBOUNCE_MS
        &&& self.subscribed == (self.state != WatcherState::Stopped)
        &&& self.released ==> self.state == WatcherState::Stopped
        &&& self.state == WatcherState::Stopped ==> self.last_event is None
    }

    /// A new watcher is stopped and has seen nothing.
    pub open spec fn is_fresh(&self, debounce_ms: u64) -> bool {
        &&& self.state == WatcherState::Stopped
        &&& self.debounce_ms == clamp_debounce(debounce_ms)
        &&& self.last_event is None
        &&& !self.subscribed
        &&& !self.released
        &&& !self.should_exit
    }

    /// The watcher after `resume`, and what `resume` answers.
    pub open spec fn spec_resume(self) -> (Self, Result<WatcherAction, ()>) {
        match self.state {
            WatcherState::Paused => (
                FileWatcher { state: WatcherState::Running, last_event: None, ..self },
                Ok(WatcherAction::Resumed),
            ),
            WatcherState::Stopped => if self.released {
                (self, Err(()))
            } else {
                (self, Ok(WatcherAction::Start))
            },
            WatcherState::Running => (self, Ok(WatcherAction::Nothing)),
        }
    }

    /// The watcher after the outcome of a start was reported.
    pub open spec fn spec_started(self, ok: bool) -> Self {
        if self.state == WatcherState::Stopped && !self.released && ok {
            FileWatcher { state: WatcherState::Running, last_event: None, subscribed: true, ..self }
        } else {
            self
        }
    }

    /// The watcher after `pause`, and what the driver has to do.
    pub open spec fn spec_pause(self) -> (Self, WatcherAction) {
        if self.state == WatcherState::Running {
            (FileWatcher { state: WatcherState::Paused, ..self }, WatcherAction::Suspended)
        } else {
            (self, WatcherAction::Nothing)
        }
    }

    /// The watcher after `stop`, and what the driver has to do.
    pub open spec fn spec_stop(self) -> (Self, WatcherAction) {
        if self.state != WatcherState::Stopped {
            (
                FileWatcher {
                    state: WatcherState::Stopped,
                    last_event: None,
                    subscribed: false,
                    released: true,
                    ..self
                },
                WatcherAction::Release,
            )
        } else {
            (self, WatcherAction::Nothing)
        }
    }

    /// The watcher after an event of `kind` arrived.
    pub open spec fn spec_on_event(self, kind: EventKind) -> Self {
        if self.state == WatcherState::Stopped {
            self
        } else {
            FileWatcher { last_event: Some(kind), ..self }
        }
    }

    /// The watcher after a timer tick, and the kind that is delivered.
    pub open spec fn spec_on_tick(self) -> (Self, Option<EventKind>) {
        if self.state == WatcherState::Running && self.last_event is Some {
            (FileWatcher { last_event: None, ..self }, self.last_event)
        } else {
            (self, None)
        }
    }

    /// The watcher after a run of inputs.
    pub open spec fn spec_run(self, steps: Seq<Step>) -> Self
        decreases steps.len(),
    {
        if steps.len() == 0 {
            self
        } else {
            let before = self.spec_run(steps.drop_last());
            match steps.last() {
                Step::Event(kind) => before.spec_on_event(kind),
                Step::Tick => before.spec_on_tick().0,
            }
        }
    }

    /// The kinds the listener is called with during a run of inputs, in order.
    pub open spec fn spec_delivered(self, steps: Seq<Step>) -> Seq<EventKind>
        decreases steps.len(),
    {
        if steps.len() == 0 {
            Seq::empty()
        } else {
            let before = self.spec_run(steps.drop_last());
            let earlier = self.spec_delivered(steps.drop_last());
            match steps.last() {
                Step::Event(_) => earlier,
                Step::Tick => match before.spec_on_tick().1 {
                    Some(kind) => earlier.push(kind),
                    None => earlier,
                },
            }
        }
    }

    /// A stopped watcher of `path` with `~` expanded to `home`.
    pub fn with_home(path: &str, debounce_ms: u64, home: Option<String>) -> (r: Self)
        ensures
            r.wf(),
            r.is_fresh(debounce_ms),
            r.path@ == spec_expand_tilde(path@, opt_text(home)),
    {
        let debounce_ms = if debounce_ms < MIN_DEBOUNCE_MS {
            MIN_DEBOUNCE_MS
        } else {
            debounce_ms
        };
        FileWatcher {
            path: PathHelper::expand_tilde_in(path, home),
            state: WatcherState::Stopped,
            debounce_ms,
            last_event: None,
            subscribed: false,
            released: false,
            should_exit: false,
        }
    }

    /// A stopped watcher of `path`, with `~` expanded to the user's home
    /// directory. A window shorter than the minimum is raised to it.
    pub fn new(path: &str, debounce_ms: u64) -> (r: Self)
        ensures
            r.wf(),
            r.is_fresh(debounce_ms),
            !path_starts_with(path@, "~"@) ==> r.path@ == path@,
            exists|home: Option<Seq<char>>| r.path@ == spec_expand_tilde(path@, home),
    {
        let home = PathHelper::home_dir();
        let ghost h = opt_text(home);
        let r = Self::with_home(path, debounce_ms, home);
        proof {
            assert(r.path@ == spec_expand_tilde(path@, h));
        }
        r
    }

    /// The current state.
    pub fn get_state(&self) -> (r: WatcherState)
        ensures
            r == self.state,
    {
        self.state
    }

    /// Whether shutdown was requested.
    pub fn get_should_exit(&self) -> (r: bool)
        ensures
            r == self.should_exit,
    {
        self.should_exit
    }

    /// Requests shutdown; the coalescing task ends at its next poll.
    pub fn request_exit(&mut self)
        ensures
            *final(self) == (FileWatcher { should_exit: true, ..*old(self) }),
    {
        self.should_exit = true;
    }

    /// Starts or resumes watching. A paused watcher runs again and forgets
    /// what it saw while paused; a running one is left as it is; a new one
    /// asks its driver to start it; one that was stopped refuses.
    pub fn resume(&mut self) -> (r: Result<WatcherAction, String>)
        ensures
            old(self).wf() ==> final(self).wf(),
            *final(self) == old(self).spec_resume().0,
            r is Ok == old(self).spec_resume().1 is Ok,
            r matches Ok(a) ==> Ok::<WatcherAction, ()>(a) == old(self).spec_resume().1,
            r matches Err(m) ==> m@ == "Watcher was stopped; create a new one"@,
    {
        match self.state {
            WatcherState::Paused => {
                self.state = WatcherState::Running;
                self.last_event = None;
                Ok(WatcherAction::Resumed)
            },
            WatcherState::Stopped => {
                if self.released {
                    Err(String::from_str("Watcher was stopped; create a new one"))
                } else {
                    Ok(WatcherAction::Start)
                }
            },
            WatcherState::Running => Ok(WatcherAction::Nothing),
        }
    }

    /// Takes the outcome of the start that `resume` asked for: on success
    /// the watcher runs, on failure it stays stopped and the error is
    /// handed on. Without a pending start nothing changes.
    pub fn started(&mut self, outcome: Result<(), String>) -> (r: Result<(), String>)
        ensures
            old(self).wf() ==> final(self).wf(),
            *final(self) == old(self).spec_started(outcome is Ok),
            r == outcome,
    {
        if self.state == WatcherState::Stopped && !self.released && outcome.is_ok() {
            self.state = WatcherState::Running;
            self.last_event = None;
            self.subscribed = true;
        }
        outcome
    }

    /// The message for a start that failed at `stage` with `detail`.
    pub fn start_error(&self, stage: StartStage, detail: &str) -> (r: String)
        ensures
            r@ == spec_start_error(stage, self.path@, detail@),
    {
        match stage {
            StartStage::CreateDirectory => {
                let mut m = String::from_str("Failed to create directory ");
                m.append(self.path.as_str());
                m.append(": ");
                m.append(detail);
                m
            },
            StartStage::CreateWatcher => {
                let mut m = String::from_str("Failed to create watcher: ");
                m.append(detail);
                m
            },
            StartStage::WatchPath => {
                let mut m = String::from_str("Failed to watch path ");
                m.append(self.path.as_str());
                m.append(": ");
                m.append(detail);
                m
            },
        }
    }

    /// Suspends delivery; only a running watcher is affected.
    pub fn pause(&mut self) -> (r: WatcherAction)
        ensures
            old(self).wf() ==> final(self).wf(),
            *final(self) == old(self).spec_pause().0,
            r == old(self).spec_pause().1,
    {
        if self.state == WatcherState::Running {
            self.state = WatcherState::Paused;
            WatcherAction::Suspended
        } else {
            WatcherAction::Nothing
        }
    }

    /// Stops for good; a watcher that is not running or paused is left as
    /// it is.
    pub fn stop(&mut self) -> (r: WatcherAction)
        ensures
            old(self).wf() ==> final(self).wf(),
            *final(self) == old(self).spec_stop().0,
            r == old(self).spec_stop().1,
    {
        if self.state != WatcherState::Stopped {
            self.state = WatcherState::Stopped;
            self.last_event = None;
            self.subscribed = false;
            self.released = true;
            WatcherAction::Release
        } else {
            WatcherAction::Nothing
        }
    }

    /// Records an event; only the last one since the last delivery counts.
    pub fn on_event(&mut self, kind: EventKind)
        ensures
            old(self).wf() ==> final(self).wf(),
            *final(self) == old(self).spec_on_event(kind),
    {
        if self.state != WatcherState::Stopped {
            self.last_event = Some(kind);
        }
    }

    /// The debounce timer expired: the kind to call the listener with, if
    /// the watcher runs and an event arrived since the last delivery.
    pub fn on_tick(&mut self) -> (r: Option<EventKind>)
        ensures
            old(self).wf() ==> final(self).wf(),
            *final(self) == old(self).spec_on_tick().0,
            r == old(self).spec_on_tick().1,
    {
        if self.state == WatcherState::Running && self.last_event.is_some() {
            let kind = self.last_event;
            self.last_event = None;
            kind
        } else {
            None
        }
    }

    /// The cancellation poll: whether the coalescing task is to end.
    pub fn on_cancel_poll(&self) -> (r: bool)
        ensures
            r == self.should_exit,
    {
        self.should_exit
    }
}

/// The inputs of a burst: every kind as an event, in order.
pub open spec fn burst(kinds: Seq<EventKind>) -> Seq<Step> {
    kinds.map_values(|k: EventKind| Step::Event(k))
}

/// During a burst the listener is not called, and afterwards the watcher
/// remembers the burst's last kind.
pub proof fn lemma_burst(w: FileWatcher, kinds: Seq<EventKind>)
    requires
        w.state != WatcherState::Stopped,
    ensures
        w.spec_delivered(burst(kinds)) == Seq::<EventKind>::empty(),
        w.spec_run(burst(kinds)).state == w.state,
        kinds.len() > 0 ==> w.spec_run(burst(kinds)) == (FileWatcher {
            last_event: Some(kinds.last()),
            ..w
        }),
        kinds.len() == 0 ==> w.spec_run(burst(kinds)) == w,
    decreases kinds.len(),
{
    if kinds.len() > 0 {
        lemma_burst(w, kinds.drop_last());
        assert(burst(kinds).drop_last() =~= burst(kinds.drop_last()));
        assert(burst(kinds).last() == Step::Event(kinds.last()));
    }
}

/// Debounce collapsing: a running watcher that receives any number of
/// events, at least one, and then a timer tick calls its listener exactly
/// once, with the kind of the last event; a further tick calls nobody.
pub proof fn lemma_debounce_collapses(w: FileWatcher, kinds: Seq<EventKind>)
    requires
        w.state == WatcherState::Running,
        kinds.len() > 0,
    ensures
        w.spec_delivered(burst(kinds).push(Step::Tick)) == seq![kinds.last()],
        w.spec_delivered(burst(kinds).push(Step::Tick).push(Step::Tick)) == seq![kinds.last()],
{
    lemma_burst(w, kinds);
    let one = burst(kinds).push(Step::Tick);
    assert(one.drop_last() =~= burst(kinds));
    assert(w.spec_delivered(one) =~= seq![kinds.last()]);
    let two = one.push(Step::Tick);
    assert(two.drop_last() =~= one);
    assert(w.spec_run(one).last_event is None);
}

/// Quiet-window silence: a watcher that has nothing pending calls nobody
/// when the timer ticks, however often.
pub proof fn lemma_quiet_window(w: FileWatcher, ticks: nat)
    requires
        w.last_event is None,
    ensures
        w.spec_delivered(Seq::new(ticks, |i: int| Step::Tick)) == Seq::<EventKind>::empty(),
        w.spec_run(Seq::new(ticks, |i: int| Step::Tick)) == w,
    decreases ticks,
{
    if ticks > 0 {
        lemma_quiet_window(w, (ticks - 1) as nat);
        assert(Seq::new(ticks, |i: int| Step::Tick).drop_last() =~= Seq::new(
            (ticks - 1) as nat,
            |i: int| Step::Tick,
        ));
    }
}

/// While paused, a watcher calls nobody, whatever arrives.
pub proof fn lemma_paused_is_silent(w: FileWatcher, steps: Seq<Step>)
    requires
        w.state == WatcherState::Paused,
    ensures
        w.spec_delivered(steps) == Seq::<EventKind>::empty(),
        w.spec_run(steps).state == WatcherState::Paused,
    decreases steps.len(),
{
    if steps.len() > 0 {
        lemma_paused_is_silent(w, steps.drop_last());
    }
}

/// Lifecycle legality: resuming a running watcher changes nothing; pausing
/// changes nothing unless the watcher runs; stopping twice is stopping once.
pub proof fn lemma_lifecycle_no_ops(w: FileWatcher)
    ensures
        w.state == WatcherState::Running ==> w.spec_resume() == (w, Ok::<WatcherAction, ()>(WatcherAction::Nothing)),
        w.state != WatcherState::Running ==> w.spec_pause() == (w, WatcherAction::Nothing),
        w.spec_stop().0.spec_stop() == (w.spec_stop().0, WatcherAction::Nothing),
        w.spec_stop().0.state == WatcherState::Stopped,
{
}

/// A watcher that ran and was stopped stays stopped: no lifecycle call and
/// no input changes it.
pub proof fn lemma_stopped_is_terminal(w: FileWatcher, ok: bool, kind: EventKind)
    requires
        w.wf(),
        w.released,
    ensures
        w.spec_resume().0 == w,
        w.spec_resume().1 is Err,
        w.spec_started(ok) == w,
        w.spec_pause().0 == w,
        w.spec_stop().0 == w,
        w.spec_on_event(kind) == w,
        w.spec_on_tick() == (w, None::<EventKind>),
{
}

/// A subscription is asked for only by a watcher that holds none, and
/// pausing keeps the one that is held.
pub proof fn lemma_single_subscription(w: FileWatcher)
    requires
        w.wf(),
    ensures
        w.spec_resume().1 == Ok::<WatcherAction, ()>(WatcherAction::Start) ==> !w.subscribed,
        w.spec_pause().0.subscribed == w.subscribed,
        !w.spec_stop().0.subscribed,
{
}

/// Every watcher that `stop` has acted on is released, so the law above
/// applies to it.
pub proof fn lemma_stop_releases(w: FileWatcher)
    requires
        w.wf(),
        w.state != WatcherState::Stopped,
    ensures
        w.spec_stop().0.wf(),
        w.spec_stop().0.released,
{
}

} // verus!

//! The asynchronous image load, modeled as a verified state machine.
//!
//! A load request resolves at most once, on whichever of its two
//! notifications — success or failure — arrives first; the other is
//! ignored if it arrives later. Only the success edge leads to an image
//! draw. The single-use rendezvous each notification travels through is
//! modeled by `OneShot`. Host glue registers the real callbacks, awaits
//! the first arrival, and performs the action the state machine returns.

use vstd::prelude::*;

verus! {

/// A single-use rendezvous: it accepts at most one value, and a later
/// send can never overwrite the first.
pub struct OneShot<T> {
    slot: Option<T>,
}

impl<T> OneShot<T> {
    /// Whether a value has been sent into the channel.
    pub closed spec fn is_sent(self) -> bool {
        self.slot is Some
    }

    /// The value the channel holds, if one was sent.
    pub closed spec fn value(self) -> Option<T> {
        self.slot
    }

    /// A fresh, empty channel.
    pub fn new() -> (c: Self)
        ensures
            !c.is_sent(),
            c.value() is None,
    {
        OneShot { slot: None }
    }

    /// Sends a value. Exactly the first send is accepted; a send on an
    /// already-resolved channel is refused and leaves the channel
    /// unchanged, so the first value is never silently overwritten.
    pub fn send(&mut self, v: T) -> (accepted: bool)
        ensures
            accepted == !old(self).is_sent(),
            final(self).is_sent(),
            !old(self).is_sent() ==> final(self).value() == Some(v),
            old(self).is_sent() ==> *final(self) == *old(self),
    {
        if self.slot.is_some() {
            false
        } else {
            self.slot = Some(v);
            true
        }
    }

    /// Consumes the channel and yields the value sent into it, if any.
    pub fn recv(self) -> (r: Option<T>)
        ensures
            r == self.value(),
    {
        self.slot
    }
}

/// Outcome notification of a host image fetch, as the callbacks deliver
/// it.
#[derive(Debug, Clone, Copy, PartialEq, Eq, Structural)]
pub enum LoadEvent {
    /// The image was fetched and decoded.
    Success,
    /// The fetch or decode failed.
    Failure,
}

/// Per-load state: a request resolves at most once, into a terminal
/// state. There is no edge back to `Requested` — no retry.
#[derive(Debug, Clone, Copy, PartialEq, Eq, Structural)]
pub enum LoadState {
    /// The fetch was issued; no notification has arrived yet.
    Requested,
    /// The success notification arrived first.
    Loaded,
    /// The failure notification arrived first.
    Failed,
}

/// What the host glue must do after a notification is delivered.
#[derive(Debug, Clone, Copy, PartialEq, Eq, Structural)]
pub enum LoadAction {
    /// Blit the loaded image at the given origin.
    DrawImageAt(i64, i64),
    /// Log the failure; the draw is skipped and nothing is retried.
    ReportFailure,
    /// The load already resolved: the late notification is dropped.
    Ignore,
}

/// The state after one notification: the first arrival decides, a
/// terminal state absorbs everything.
pub open spec fn next_state(s: LoadState, e: LoadEvent) -> LoadState {
    if s is Requested {
        match e {
            LoadEvent::Success => LoadState::Loaded,
            LoadEvent::Failure => LoadState::Failed,
        }
    } else {
        s
    }
}

/// The action one notification provokes: a first success draws the image
/// at the fixed origin (0, 0), a first failure is reported, and anything
/// after resolution is ignored.
pub open spec fn action_of(s: LoadState, e: LoadEvent) -> LoadAction {
    if s is Requested {
        match e {
            LoadEvent::Success => LoadAction::DrawImageAt(0, 0),
            LoadEvent::Failure => LoadAction::ReportFailure,
        }
    } else {
        LoadAction::Ignore
    }
}

/// The state machine of one image load.
pub struct ImageLoader {
    state: LoadState,
}

impl ImageLoader {
    /// The loader's current state.
    pub closed spec fn state(self) -> LoadState {
        self.state
    }

    /// A loader for a freshly issued request.
    pub fn new() -> (l: ImageLoader)
        ensures
            l.state() is Requested,
    {
        ImageLoader { state: LoadState::Requested }
    }

    /// Delivers one notification and returns the action it provokes.
    /// The first arrival wins; later notifications leave the resolved
    /// state unchanged and provoke nothing.
    pub fn deliver(&mut self, e: LoadEvent) -> (a: LoadAction)
        ensures
            final(self).state() == next_state(old(self).state(), e),
            a == action_of(old(self).state(), e),
    {
        match self.state {
            LoadState::Requested => match e {
                LoadEvent::Success => {
                    self.state = LoadState::Loaded;
                    LoadAction::DrawImageAt(0, 0)
                },
                LoadEvent::Failure => {
                    self.state = LoadState::Failed;
                    LoadAction::ReportFailure
                },
            },
            _ => LoadAction::Ignore,
        }
    }
}

/// The state after a whole sequence of notifications.
pub open spec fn run_state(s: LoadState, events: Seq<LoadEvent>) -> LoadState
    decreases events.len(),
{
    if events.len() == 0 {
        s
    } else {
        run_state(next_state(s, events[0]), events.drop_first())
    }
}

/// How many image draws a sequence of notifications provokes.
pub open spec fn draw_count(s: LoadState, events: Seq<LoadEvent>) -> nat
    decreases events.len(),
{
    if events.len() == 0 {
        0nat
    } else {
        (if action_of(s, events[0]) is DrawImageAt {
            1nat
        } else {
            0nat
        }) + draw_count(next_state(s, events[0]), events.drop_first())
    }
}

/// How many failure reports a sequence of notifications provokes.
pub open spec fn report_count(s: LoadState, events: Seq<LoadEvent>) -> nat
    decreases events.len(),
{
    if events.len() == 0 {
        0nat
    } else {
        (if action_of(s, events[0]) is ReportFailure {
            1nat
        } else {
            0nat
        }) + report_count(next_state(s, events[0]), events.drop_first())
    }
}

/// A resolved load is silent: once the state left `Requested`, no later
/// notification can provoke a draw or a report.
pub proof fn lemma_resolved_is_silent(s: LoadState, events: Seq<LoadEvent>)
    requires
        !(s is Requested),
    ensures
        draw_count(s, events) == 0,
        report_count(s, events) == 0,
        run_state(s, events) == s,
    decreases events.len(),
{
    if events.len() > 0 {
        lemma_resolved_is_silent(next_state(s, events[0]), events.drop_first());
    }
}

/// The image draw happens at most once, over any delivery sequence.
pub proof fn lemma_draw_at_most_once(events: Seq<LoadEvent>)
    ensures
        draw_count(LoadState::Requested, events) <= 1,
{
    if events.len() > 0 {
        lemma_resolved_is_silent(next_state(LoadState::Requested, events[0]), events.drop_first());
    }
}

/// First arrival wins: over any non-empty delivery sequence from a fresh
/// request, a success arriving first provokes exactly one image draw and
/// no failure report, and a failure arriving first provokes no draw at
/// all and exactly one report.
pub proof fn lemma_first_arrival_wins(events: Seq<LoadEvent>)
    requires
        events.len() > 0,
    ensures
        events[0] is Success ==> draw_count(LoadState::Requested, events) == 1 && report_count(
            LoadState::Requested,
            events,
        ) == 0,
        events[0] is Failure ==> draw_count(LoadState::Requested, events) == 0 && report_count(
            LoadState::Requested,
            events,
        ) == 1,
{
    lemma_resolved_is_silent(next_state(LoadState::Requested, events[0]), events.drop_first());
}

} // verus!

use vstd::prelude::*;

verus! {

/// How long an attempt to open the log file may block before it is retried
/// (a named pipe blocks until its writer appears), and how long to wait
/// after a failed open, in milliseconds.
pub const OPEN_RETRY_MS: u64 = 1000;

/// Where the follower stands.
#[derive(Clone, Copy, Debug, PartialEq, Eq, Structural)]
pub enum FollowerState {
    /// No file is open; the next action opens it.
    Opening,
    /// A file is open and read line by line.
    Following,
    /// Cancelled; nothing more is done.
    Stopped,
}

/// What happened since the last action.
#[derive(Clone, Copy, Debug, PartialEq, Eq, Structural)]
pub enum FollowerEvent {
    /// The shared termination signal fired.
    Cancelled,
    /// The file was opened.
    Opened,
    /// The file could not be opened.
    OpenFailed,
    /// Opening blocked for longer than the retry interval.
    OpenTimedOut,
    /// A wait before reopening ended.
    Waited,
    /// A line was read and the file is still in place.
    Line,
    /// Nothing new was there to read and the file is still in place.
    EndOfFile,
    /// After a read, the file turned out to be removed or renamed away.
    Removed,
    /// Reading failed.
    ReadFailed,
}

/// What the caller is to do next.
#[derive(Clone, Copy, Debug, PartialEq, Eq, Structural)]
pub enum FollowerAction {
    /// Open the file afresh, for at most `OPEN_RETRY_MS`.
    Open,
    /// Wait this many milliseconds, then report `Waited`.
    Wait(u64),
    /// Drop any earlier handle and read the newly opened file from byte 0.
    ReadFromStart,
    /// Read the next line.
    ReadNext,
    /// Hand the line just read to the log processor, then read the next one.
    Deliver,
    /// Sleep this many milliseconds, then read the next line.
    Sleep(u64),
    /// Stop following.
    Stop,
}

/// A log follower: its state and the interval at which it looks for new
/// lines at the end of the file.
#[derive(Clone, Copy, Debug)]
pub struct LogFollower {
    pub state: FollowerState,
    pub poll_interval_ms: u64,
}

/// The next state and action of a follower in state `s` after event `e`.
/// Cancellation wins in every state. A failed open is retried after a wait,
/// one that blocked is retried at once. A line is delivered only where the
/// file was still in place after it was read; a removed file or a failed
/// read sends the follower back to opening. At the end of the file it
/// sleeps one poll interval and reads again.
pub open spec fn next(s: FollowerState, poll: u64, e: FollowerEvent) -> (FollowerState, FollowerAction) {
    if e == FollowerEvent::Cancelled || s == FollowerState::Stopped {
        (FollowerState::Stopped, FollowerAction::Stop)
    } else if s == FollowerState::Opening {
        match e {
            FollowerEvent::Opened => (FollowerState::Following, FollowerAction::ReadFromStart),
            FollowerEvent::OpenFailed => (FollowerState::Opening, FollowerAction::Wait(OPEN_RETRY_MS)),
            _ => (FollowerState::Opening, FollowerAction::Open),
        }
    } else {
        match e {
            FollowerEvent::Line => (FollowerState::Following, FollowerAction::Deliver),
            FollowerEvent::EndOfFile => (FollowerState::Following, FollowerAction::Sleep(poll)),
            FollowerEvent::Removed => (FollowerState::Opening, FollowerAction::Open),
            FollowerEvent::ReadFailed => (FollowerState::Opening, FollowerAction::Open),
            _ => (FollowerState::Following, FollowerAction::ReadNext),
        }
    }
}

impl LogFollower {
    /// A follower that has yet to open its file; the first action is `Open`.
    pub fn new(poll_interval_ms: u64) -> (r: LogFollower)
        ensures
            r.state == FollowerState::Opening,
            r.poll_interval_ms == poll_interval_ms,
    {
        LogFollower { state: FollowerState::Opening, poll_interval_ms }
    }

    /// Takes in what happened and says what to do next.
    pub fn step(&mut self, event: FollowerEvent) -> (r: FollowerAction)
        ensures
            (final(self).state, r) == next(old(self).state, old(self).poll_interval_ms, event),
            final(self).poll_interval_ms == old(self).poll_interval_ms,
    {
        let (s, a) = match (self.state, event) {
            (_, FollowerEvent::Cancelled) | (FollowerState::Stopped, _) => (
                FollowerState::Stopped,
                FollowerAction::Stop,
            ),
            (FollowerState::Opening, FollowerEvent::Opened) => (
                FollowerState::Following,
                FollowerAction::ReadFromStart,
            ),
            (FollowerState::Opening, FollowerEvent::OpenFailed) => (
                FollowerState::Opening,
                FollowerAction::Wait(OPEN_RETRY_MS),
            ),
            (FollowerState::Opening, _) => (FollowerState::Opening, FollowerAction::Open),
            (FollowerState::Following, FollowerEvent::Line) => (
                FollowerState::Following,
                FollowerAction::Deliver,
            ),
            (FollowerState::Following, FollowerEvent::EndOfFile) => (
                FollowerState::Following,
                FollowerAction::Sleep(self.poll_interval_ms),
            ),
            (FollowerState::Following, FollowerEvent::Removed)
            | (FollowerState::Following, FollowerEvent::ReadFailed) => (
                FollowerState::Opening,
                FollowerAction::Open,
            ),
            (FollowerState::Following, _) => (FollowerState::Following, FollowerAction::ReadNext),
        };
        self.state = s;
        a
    }
}

/// When the followed file is removed and a new one is created at its path,
/// the follower notices it at the read that follows, and reads come at most
/// one poll interval apart while it follows; no line read from the removed
/// file is delivered; it opens the path again and reads the new file from
/// its first byte.
pub proof fn law_rotation_reopens_from_start(poll: u64)
    ensures
        forall|e: FollowerEvent|
            #![trigger next(FollowerState::Following, poll, e)]
            e != FollowerEvent::Cancelled ==> match next(FollowerState::Following, poll, e).1 {
                FollowerAction::Sleep(ms) => ms == poll,
                FollowerAction::Wait(_) => false,
                _ => true,
            },
        forall|e: FollowerEvent|
            #![trigger next(FollowerState::Following, poll, e)]
            next(FollowerState::Following, poll, e).1 == FollowerAction::Deliver ==> e
                == FollowerEvent::Line,
        next(FollowerState::Following, poll, FollowerEvent::Removed) == (
            FollowerState::Opening,
            FollowerAction::Open,
        ),
        next(FollowerState::Opening, poll, FollowerEvent::Opened) == (
            FollowerState::Following,
            FollowerAction::ReadFromStart,
        ),
{
}

/// The state after a run of events from state `s`.
pub open spec fn after(s: FollowerState, poll: u64, events: Seq<FollowerEvent>) -> FollowerState
    decreases events.len(),
{
    if events.len() == 0 {
        s
    } else {
        next(after(s, poll, events.drop_last()), poll, events.last()).0
    }
}

/// A follower that is opening (as it is after its file was removed) reads
/// lines again only from a file that it opened anew: every run of events
/// that brings it back to following holds an `Opened` event, whose action is
/// to read the new file from its start.
pub proof fn law_follows_only_after_reopening(poll: u64, events: Seq<FollowerEvent>)
    ensures
        after(FollowerState::Opening, poll, events) == FollowerState::Following ==> events.contains(
            FollowerEvent::Opened,
        ),
    decreases events.len(),
{
    if events.len() > 0 && after(FollowerState::Opening, poll, events) == FollowerState::Following {
        let pre = events.drop_last();
        law_follows_only_after_reopening(poll, pre);
        if after(FollowerState::Opening, poll, pre) == FollowerState::Following {
            let k = choose|k: int| 0 <= k < pre.len() && pre[k] == FollowerEvent::Opened;
            assert(events[k] == FollowerEvent::Opened);
        } else {
            assert(events[events.len() - 1] == FollowerEvent::Opened);
        }
    }
}

/// Cancellation stops the follower from any state, and a stopped follower
/// stays stopped.
pub proof fn law_cancellation_stops(s: FollowerState, poll: u64, e: FollowerEvent)
    ensures
        next(s, poll, FollowerEvent::Cancelled) == (FollowerState::Stopped, FollowerAction::Stop),
        next(FollowerState::Stopped, poll, e) == (FollowerState::Stopped, FollowerAction::Stop),
{
}

} // verus!

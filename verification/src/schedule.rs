//! The periodic sync loop as a state machine: the caller does the outside
//! work that an action names and reports what came of it as an event.

use crate::instant::AuthoritativeInstant;
use crate::reply::{lossy_text, parse_nist_response, parse_reply_bytes, reply_millis};
use vstd::prelude::*;

verus! {

/// The longest wait, in milliseconds, that the loop asks for in one piece.
pub const POLL_MILLIS: u64 = 1000;

/// An interval of zero minutes was asked for.
#[derive(Clone, Copy, Debug, PartialEq, Eq, Structural)]
pub struct ConfigError;

impl ConfigError {
    /// What to tell the user.
    pub fn message(&self) -> (r: &'static str)
        ensures
            r@ == "Interval must be higher than 0"@,
    {
        "Interval must be higher than 0"
    }
}

/// The time between two syncs: a whole number of minutes, at least one.
#[derive(Clone, Copy, Debug, PartialEq, Eq, Structural)]
pub struct SyncInterval {
    minutes: u64,
}

impl View for SyncInterval {
    type V = int;

    /// The interval in minutes.
    closed spec fn view(&self) -> int {
        self.minutes as int
    }
}

impl SyncInterval {
    /// Whether the interval is one that `new` hands out.
    pub open spec fn wf(&self) -> bool {
        self@ >= 1
    }

    /// The interval in milliseconds.
    pub open spec fn millis(&self) -> int {
        self@ * 60000
    }

    /// An interval of `minutes` minutes; none of zero minutes.
    pub fn new(minutes: u64) -> (r: Result<SyncInterval, ConfigError>)
        ensures
            match r {
                Ok(interval) => minutes >= 1 && interval@ == minutes && interval.wf(),
                Err(_) => minutes == 0,
            },
    {
        if minutes >= 1 {
            Ok(SyncInterval { minutes })
        } else {
            Err(ConfigError)
        }
    }

    /// The interval in minutes.
    pub fn minutes(&self) -> (r: u64)
        ensures
            r == self@,
            self.wf() ==> r >= 1,
    {
        self.minutes
    }

    /// The word for the unit in an announcement of the interval.
    pub fn unit_label(&self) -> (r: &'static str)
        ensures
            r@ == (if self@ == 1 {
                "minute"@
            } else {
                "minutes"@
            }),
    {
        if self.minutes == 1 {
            "minute"
        } else {
            "minutes"
        }
    }

    /// Whether, at `now`, a whole interval has passed since `anchor`.
    pub fn elapsed(&self, anchor: AuthoritativeInstant, now: AuthoritativeInstant) -> (r: bool)
        ensures
            r == (now@ >= anchor@ + self.millis()),
    {
        let passed: i128 = now.millis as i128 - anchor.millis as i128;
        let whole: i128 = self.minutes as i128 * 60000;
        passed >= whole
    }
}

/// Why a sync did not come about.
#[derive(Debug, PartialEq, Eq)]
pub enum SyncError {
    /// The time source could not be reached or read.
    Network,
    /// The reply named no instant.
    Format,
    /// The system refused to let this process set the clock.
    Permission,
    /// Setting the clock failed for another reason, which the platform gave
    /// in these words.
    Platform(String),
}

impl Clone for SyncError {
    fn clone(&self) -> (r: Self)
        ensures
            r == *self,
    {
        match self {
            SyncError::Network => SyncError::Network,
            SyncError::Format => SyncError::Format,
            SyncError::Permission => SyncError::Permission,
            SyncError::Platform(text) => SyncError::Platform(text.clone()),
        }
    }
}

impl SyncError {
    /// The text of `message`: the platform's own words for a failure of the
    /// platform, and fixed words for the others.
    pub open spec fn message_text(self) -> Seq<char> {
        match self {
            SyncError::Network => "Error reaching the time server"@,
            SyncError::Format => "Error reading the time server's reply"@,
            SyncError::Permission => "Error setting system time, check your permissions."@,
            SyncError::Platform(text) => text@,
        }
    }

    /// What to tell the user.
    pub fn message(&self) -> (r: &str)
        ensures
            r@ == self.message_text(),
    {
        match self {
            SyncError::Network => "Error reaching the time server",
            SyncError::Format => "Error reading the time server's reply",
            SyncError::Permission => "Error setting system time, check your permissions.",
            SyncError::Platform(text) => text.as_str(),
        }
    }
}

/// What the outside world asks of the loop while it sleeps.
#[derive(Clone, Copy, Debug, PartialEq, Eq, Structural)]
pub enum LifecycleSignal {
    /// No signal came.
    Nothing,
    /// A stop was requested.
    StopRequested,
    /// The channel that would carry a stop request is gone.
    ChannelClosed,
}

/// Why the loop ended.
#[derive(Debug, PartialEq, Eq)]
pub enum StopReason {
    /// A stop was requested.
    Requested,
    /// The channel that would carry a stop request is gone.
    ChannelClosed,
    /// A sync failed.
    Failed(SyncError),
}

impl Clone for StopReason {
    fn clone(&self) -> (r: Self)
        ensures
            r == *self,
    {
        match self {
            StopReason::Requested => StopReason::Requested,
            StopReason::ChannelClosed => StopReason::ChannelClosed,
            StopReason::Failed(error) => StopReason::Failed(error.clone()),
        }
    }
}

/// Where the loop stands.
#[derive(Debug, PartialEq, Eq)]
pub enum Phase {
    /// A reply of the time source is awaited.
    Fetching,
    /// The clock is being set to the instant that the reply named.
    Applying(AuthoritativeInstant),
    /// The clock was set to the instant; the next sync is due one interval
    /// after it.
    Sleeping(AuthoritativeInstant),
    /// The loop has ended.
    Stopped(StopReason),
}

impl Clone for Phase {
    fn clone(&self) -> (r: Self)
        ensures
            r == *self,
    {
        match self {
            Phase::Fetching => Phase::Fetching,
            Phase::Applying(instant) => Phase::Applying(*instant),
            Phase::Sleeping(anchor) => Phase::Sleeping(*anchor),
            Phase::Stopped(reason) => Phase::Stopped(reason.clone()),
        }
    }
}

/// What the caller reports to the loop.
#[derive(Debug)]
pub enum Event {
    /// The time source could not be reached or read.
    FetchFailed,
    /// The time source sent these bytes.
    Received(Vec<u8>),
    /// The time source sent this text.
    Reply(String),
    /// The clock was set.
    ClockSet,
    /// The system refused to let this process set the clock.
    ClockDenied,
    /// Setting the clock failed for another reason, which the platform gave
    /// in these words.
    ClockFailed(String),
    /// A wait ended: at `now`, with `signal` received during it.
    Woke { now: AuthoritativeInstant, signal: LifecycleSignal },
}

/// What the caller is to do next.
#[derive(Debug, PartialEq, Eq)]
pub enum Action {
    /// Ask the time source for its reply: report `FetchFailed`, `Received`
    /// or `Reply`.
    Fetch,
    /// Set the clock to the instant: report `ClockSet`, `ClockDenied` or
    /// `ClockFailed`.
    SetClock(AuthoritativeInstant),
    /// Wait for a signal, for this many milliseconds at most: report `Woke`.
    Wait(u64),
    /// Leave the loop.
    Exit(StopReason),
}

/// The phase after a reply: the clock is to be set to the instant it names,
/// or the loop ends where it names none.
pub open spec fn phase_after_reply(text: Seq<char>) -> Phase {
    match reply_millis(text) {
        Some(millis) => Phase::Applying(AuthoritativeInstant { millis: millis as i64 }),
        None => Phase::Stopped(StopReason::Failed(SyncError::Format)),
    }
}

/// The phase after a wait that began in `Sleeping(anchor)`.
pub open spec fn phase_after_wait(
    interval: SyncInterval,
    anchor: AuthoritativeInstant,
    now: AuthoritativeInstant,
    signal: LifecycleSignal,
) -> Phase {
    match signal {
        LifecycleSignal::StopRequested => Phase::Stopped(StopReason::Requested),
        LifecycleSignal::ChannelClosed => Phase::Stopped(StopReason::ChannelClosed),
        LifecycleSignal::Nothing => if now@ >= anchor@ + interval.millis() {
            Phase::Fetching
        } else {
            Phase::Sleeping(anchor)
        },
    }
}

/// The phase that follows `phase` on `event`. An event that does not answer
/// the phase's action changes nothing.
pub open spec fn next_phase(interval: SyncInterval, phase: Phase, event: Event) -> Phase {
    match (phase, event) {
        (Phase::Fetching, Event::FetchFailed) => Phase::Stopped(
            StopReason::Failed(SyncError::Network),
        ),
        (Phase::Fetching, Event::Received(bytes)) => phase_after_reply(lossy_text(bytes@)),
        (Phase::Fetching, Event::Reply(text)) => phase_after_reply(text@),
        (Phase::Applying(instant), Event::ClockSet) => Phase::Sleeping(instant),
        (Phase::Applying(_), Event::ClockDenied) => Phase::Stopped(
            StopReason::Failed(SyncError::Permission),
        ),
        (Phase::Applying(_), Event::ClockFailed(text)) => Phase::Stopped(
            StopReason::Failed(SyncError::Platform(text)),
        ),
        (Phase::Sleeping(anchor), Event::Woke { now, signal }) => phase_after_wait(
            interval,
            anchor,
            now,
            signal,
        ),
        (_, _) => phase,
    }
}

/// The action that a phase asks for.
pub open spec fn action_of(phase: Phase) -> Action {
    match phase {
        Phase::Fetching => Action::Fetch,
        Phase::Applying(instant) => Action::SetClock(instant),
        Phase::Sleeping(_) => Action::Wait(POLL_MILLIS),
        Phase::Stopped(reason) => Action::Exit(reason),
    }
}

/// The sync loop: its interval and where it stands.
#[derive(Debug, PartialEq, Eq)]
pub struct Scheduler {
    interval: SyncInterval,
    phase: Phase,
}

impl Clone for Scheduler {
    fn clone(&self) -> (r: Self)
        ensures
            r == *self,
    {
        Scheduler { interval: self.interval, phase: self.phase.clone() }
    }
}

impl Scheduler {
    /// The interval between syncs.
    pub closed spec fn interval_spec(&self) -> SyncInterval {
        self.interval
    }

    /// Where the loop stands.
    pub closed spec fn phase_spec(&self) -> Phase {
        self.phase
    }

    /// Whether the loop is one that `new` and `step` hand out.
    pub open spec fn wf(&self) -> bool {
        self.interval_spec().wf()
    }

    /// A loop that begins with a sync, without delay.
    pub fn new(interval: SyncInterval) -> (r: Scheduler)
        requires
            interval.wf(),
        ensures
            r.wf(),
            r.interval_spec() == interval,
            r.phase_spec() == Phase::Fetching,
    {
        Scheduler { interval, phase: Phase::Fetching }
    }

    /// The interval between syncs.
    #[verifier::when_used_as_spec(interval_spec)]
    pub fn interval(&self) -> (r: SyncInterval)
        ensures
            r == self.interval_spec(),
            self.wf() ==> r.wf(),
    {
        self.interval
    }

    /// Where the loop stands.
    pub fn phase(&self) -> (r: &Phase)
        ensures
            *r == self.phase_spec(),
    {
        &self.phase
    }

    /// What the caller is to do next.
    pub fn action(&self) -> (r: Action)
        ensures
            r == action_of(self.phase_spec()),
    {
        match &self.phase {
            Phase::Fetching => Action::Fetch,
            Phase::Applying(instant) => Action::SetClock(*instant),
            Phase::Sleeping(_) => Action::Wait(POLL_MILLIS),
            Phase::Stopped(reason) => Action::Exit(reason.clone()),
        }
    }

    /// Whether the loop has ended.
    pub fn is_stopped(&self) -> (r: bool)
        ensures
            r == (self.phase_spec() is Stopped),
    {
        match &self.phase {
            Phase::Stopped(_) => true,
            _ => false,
        }
    }

    /// The loop after `event`.
    pub fn step(self, event: Event) -> (r: Scheduler)
        requires
            self.wf(),
        ensures
            r.wf(),
            r.interval() == self.interval(),
            r.phase_spec() == next_phase(self.interval(), self.phase_spec(), event),
    {
        let interval: SyncInterval = self.interval;
        let phase: Phase = match (self.phase, event) {
            (Phase::Fetching, Event::FetchFailed) => Phase::Stopped(
                StopReason::Failed(SyncError::Network),
            ),
            (Phase::Fetching, Event::Received(bytes)) => match parse_reply_bytes(bytes.as_slice()) {
                Ok(instant) => Phase::Applying(instant),
                Err(_) => Phase::Stopped(StopReason::Failed(SyncError::Format)),
            },
            (Phase::Fetching, Event::Reply(text)) => match parse_nist_response(text.as_str()) {
                Ok(instant) => Phase::Applying(instant),
                Err(_) => Phase::Stopped(StopReason::Failed(SyncError::Format)),
            },
            (Phase::Applying(instant), Event::ClockSet) => Phase::Sleeping(instant),
            (Phase::Applying(_), Event::ClockDenied) => Phase::Stopped(
                StopReason::Failed(SyncError::Permission),
            ),
            (Phase::Applying(_), Event::ClockFailed(text)) => Phase::Stopped(
                StopReason::Failed(SyncError::Platform(text)),
            ),
            (Phase::Sleeping(anchor), Event::Woke { now, signal }) => match signal {
                LifecycleSignal::StopRequested => Phase::Stopped(StopReason::Requested),
                LifecycleSignal::ChannelClosed => Phase::Stopped(StopReason::ChannelClosed),
                LifecycleSignal::Nothing => if interval.elapsed(anchor, now) {
                    Phase::Fetching
                } else {
                    Phase::Sleeping(anchor)
                },
            },
            (phase, _) => phase,
        };
        Scheduler { interval, phase }
    }
}

/// After a sync at `anchor` the loop sleeps, and the first wait that ends at
/// or after `anchor` plus the interval, and no earlier one, leads to the next
/// sync. Nothing but `anchor` and the interval enters: not the instant at
/// which the sync began, nor the time it took.
pub proof fn lemma_next_sync_one_interval_after_anchor(
    interval: SyncInterval,
    anchor: AuthoritativeInstant,
    now: AuthoritativeInstant,
)
    requires
        interval.wf(),
    ensures
        next_phase(interval, Phase::Applying(anchor), Event::ClockSet) == Phase::Sleeping(anchor),
        next_phase(
            interval,
            Phase::Sleeping(anchor),
            Event::Woke { now, signal: LifecycleSignal::Nothing },
        ) == (if now@ >= anchor@ + interval@ * 60000 {
            Phase::Fetching
        } else {
            Phase::Sleeping(anchor)
        }),
        action_of(Phase::Fetching) == Action::Fetch,
{
}

/// While it sleeps the loop asks for waits of a second at most, and the
/// first wait that ends with a stop signal ends the loop, however much of the
/// interval is left.
pub proof fn lemma_stop_signal_ends_sleep(
    interval: SyncInterval,
    anchor: AuthoritativeInstant,
    now: AuthoritativeInstant,
    signal: LifecycleSignal,
)
    requires
        interval.wf(),
        signal != LifecycleSignal::Nothing,
    ensures
        action_of(Phase::Sleeping(anchor)) == Action::Wait(POLL_MILLIS),
        POLL_MILLIS <= 1000,
        next_phase(interval, Phase::Sleeping(anchor), Event::Woke { now, signal }) is Stopped,
        action_of(
            next_phase(interval, Phase::Sleeping(anchor), Event::Woke { now, signal }),
        ) is Exit,
{
}

/// A failure at any stage of a sync ends the loop, and an ended loop stays
/// ended: no event leads to another attempt.
pub proof fn lemma_failure_is_final(interval: SyncInterval, phase: Phase, event: Event)
    requires
        interval.wf(),
    ensures
        phase is Stopped ==> next_phase(interval, phase, event) == phase,
        phase is Fetching && event is FetchFailed ==> next_phase(interval, phase, event) is Stopped,
        phase is Applying && (event is ClockDenied || event is ClockFailed) ==> next_phase(
            interval,
            phase,
            event,
        ) is Stopped,
        phase is Fetching && event is Reply && reply_millis(event->Reply_0@).is_none()
            ==> next_phase(interval, phase, event) is Stopped,
        phase is Fetching && event is Received && reply_millis(
            lossy_text(event->Received_0@),
        ).is_none() ==> next_phase(interval, phase, event) is Stopped,
{
}

/// A clock that could not be set ends the loop with an error that tells the
/// two causes apart: a refusal advises to check the permissions, and any
/// other failure hands on the platform's own words, unchanged.
pub proof fn lemma_clock_failure_keeps_its_message(
    interval: SyncInterval,
    instant: AuthoritativeInstant,
    text: String,
)
    requires
        interval.wf(),
    ensures
        next_phase(interval, Phase::Applying(instant), Event::ClockFailed(text)) == Phase::Stopped(
            StopReason::Failed(SyncError::Platform(text)),
        ),
        action_of(next_phase(interval, Phase::Applying(instant), Event::ClockFailed(text)))
            == Action::Exit(StopReason::Failed(SyncError::Platform(text))),
        SyncError::Platform(text).message_text() == text@,
        next_phase(interval, Phase::Applying(instant), Event::ClockDenied) == Phase::Stopped(
            StopReason::Failed(SyncError::Permission),
        ),
        SyncError::Permission.message_text()
            == "Error setting system time, check your permissions."@,
{
}

} // verus!

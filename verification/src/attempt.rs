//! One attempt to connect, as a state machine.
//!
//! An attempt first obtains a byte stream along its route, then upgrades
//! that stream to a WebSocket connection, then splits the connection into
//! its two halves. One deadline runs over all of it. The one who holds the
//! sockets and the clock does what the attempt's action says and reports
//! what happened; the attempt decides what that means.

use std::time::Duration;
use url::Url;
use vstd::prelude::*;

use crate::error::{Error, SocksError};
use crate::mode::ConnectionMode;
use crate::socks::{Phase, SUCCEEDED, VERSION};
use crate::target::{spec_route, Route, RouteView};

verus! {

/// How far an attempt has come.
#[derive(Debug, Clone, Copy, PartialEq, Eq, Structural, Hash)]
pub enum Stage {
    /// The byte stream is being obtained: a TCP connection, a tunnel
    /// through the proxy, or a circuit through the anonymity network.
    Transport,
    /// The stream stands and is being upgraded: TLS where the URL asks for
    /// it, then the WebSocket handshake.
    Upgrade,
    /// The connection stands.
    Established,
    /// The attempt failed, and with it everything it had opened.
    Failed(Error),
}

/// What happened since the last action.
#[derive(Debug, Clone, Copy, PartialEq, Eq, Structural, Hash)]
pub enum Event {
    /// The byte stream was obtained.
    TransportReady,
    /// The stream was upgraded.
    Upgraded,
    /// The step that was under way failed.
    Failed(Error),
    /// The deadline passed.
    DeadlineElapsed,
}

/// What is to be done next.
#[derive(Debug, Clone, Copy, PartialEq, Eq, Structural, Hash)]
pub enum Action {
    /// Obtain the byte stream along the attempt's route.
    OpenTransport,
    /// Upgrade the stream to a WebSocket connection.
    Upgrade,
    /// Split the connection into its sending and its receiving half and
    /// hand both out.
    Split,
    /// Drop whatever was opened and report the error.
    Release(Error),
}

impl Event {
    /// What the end of a SOCKS5 handshake means to the attempt that runs
    /// it: a handshake that was established has obtained the byte stream,
    /// one that failed has failed the attempt with a proxy error. A
    /// handshake that is not over means nothing yet.
    pub open spec fn spec_of_handshake(phase: Phase) -> Option<Event> {
        match phase {
            Phase::Established => Some(Event::TransportReady),
            Phase::Failed(e) => Some(Event::Failed(Error::Proxy(e))),
            _ => None,
        }
    }

    /// The event that the phase of a SOCKS5 handshake stands for, if the
    /// handshake is over.
    pub fn of_handshake(phase: Phase) -> (event: Option<Event>)
        ensures
            event == Event::spec_of_handshake(phase),
    {
        match phase {
            Phase::Established => Some(Event::TransportReady),
            Phase::Failed(e) => Some(Event::Failed(Error::Proxy(e))),
            _ => None,
        }
    }
}

impl Stage {
    /// Whether the attempt is over.
    pub open spec fn is_final(self) -> bool {
        self is Established || self is Failed
    }

    /// The stage after an event. A failure or the deadline ends an attempt
    /// that is under way; a step that succeeded leads to the next one; an
    /// attempt that is over stays as it is, and so does one that is told of
    /// a success it was not waiting for.
    pub open spec fn after(self, event: Event) -> Stage {
        match (self, event) {
            (Stage::Transport, Event::TransportReady) => Stage::Upgrade,
            (Stage::Upgrade, Event::Upgraded) => Stage::Established,
            (Stage::Transport, Event::Failed(e)) => Stage::Failed(e),
            (Stage::Upgrade, Event::Failed(e)) => Stage::Failed(e),
            (Stage::Transport, Event::DeadlineElapsed) => Stage::Failed(Error::Timeout),
            (Stage::Upgrade, Event::DeadlineElapsed) => Stage::Failed(Error::Timeout),
            _ => self,
        }
    }

    /// The action that a stage asks for.
    pub open spec fn spec_action(self) -> Action {
        match self {
            Stage::Transport => Action::OpenTransport,
            Stage::Upgrade => Action::Upgrade,
            Stage::Established => Action::Split,
            Stage::Failed(e) => Action::Release(e),
        }
    }

    /// The stage after a run of events.
    pub open spec fn after_all(self, events: Seq<Event>) -> Stage
        decreases events.len(),
    {
        if events.len() == 0 {
            self
        } else {
            self.after(events[0]).after_all(events.drop_first())
        }
    }

    /// The stage after `event`.
    pub fn next(self, event: Event) -> (stage: Stage)
        ensures
            stage == self.after(event),
    {
        match self {
            Stage::Transport => match event {
                Event::TransportReady => Stage::Upgrade,
                Event::Upgraded => Stage::Transport,
                Event::Failed(e) => Stage::Failed(e),
                Event::DeadlineElapsed => Stage::Failed(Error::Timeout),
            },
            Stage::Upgrade => match event {
                Event::TransportReady => Stage::Upgrade,
                Event::Upgraded => Stage::Established,
                Event::Failed(e) => Stage::Failed(e),
                Event::DeadlineElapsed => Stage::Failed(Error::Timeout),
            },
            Stage::Established => Stage::Established,
            Stage::Failed(e) => Stage::Failed(e),
        }
    }

    /// The action that the stage asks for.
    pub fn action(self) -> (action: Action)
        ensures
            action == self.spec_action(),
    {
        match self {
            Stage::Transport => Action::OpenTransport,
            Stage::Upgrade => Action::Upgrade,
            Stage::Established => Action::Split,
            Stage::Failed(e) => Action::Release(e),
        }
    }
}

/// An attempt to connect: the route it takes and the stage it is at.
#[derive(Debug, Clone, PartialEq, Eq, Hash)]
pub struct Attempt {
    pub route: Route,
    pub stage: Stage,
}

/// The mathematical value of an [`Attempt`].
pub struct AttemptView {
    pub route: RouteView,
    pub stage: Stage,
}

impl View for Attempt {
    type V = AttemptView;

    open spec fn view(&self) -> AttemptView {
        AttemptView { route: self.route@, stage: self.stage }
    }
}

impl Attempt {
    /// An attempt to connect to `url` under `mode`, about to obtain its byte
    /// stream. Where the mode needs a target by name and the URL names
    /// none, there is no attempt, and nothing was opened or sent.
    pub fn begin(url: &Url, mode: &ConnectionMode) -> (attempt: Result<Attempt, Error>)
        ensures
            match attempt {
                Ok(a) => spec_route(*url, mode@) == Ok::<RouteView, Error>(a@.route)
                    && a@.stage == Stage::Transport,
                Err(e) => spec_route(*url, mode@) == Err::<RouteView, Error>(e),
            },
    {
        match Route::plan(url, mode) {
            Ok(route) => Ok(Attempt { route, stage: Stage::Transport }),
            Err(e) => Err(e),
        }
    }

    /// Takes note of `event` and returns the action that is due now.
    pub fn on(&mut self, event: Event) -> (action: Action)
        ensures
            final(self)@.route == old(self)@.route,
            final(self)@.stage == old(self)@.stage.after(event),
            action == final(self)@.stage.spec_action(),
    {
        self.stage = self.stage.next(event);
        self.stage.action()
    }
}

/// A run of events can be taken in two parts.
pub proof fn lemma_run_in_two_parts(stage: Stage, events: Seq<Event>, i: int)
    requires
        0 <= i <= events.len(),
    ensures
        stage.after_all(events) == stage.after_all(events.take(i)).after_all(events.skip(i)),
    decreases i,
{
    if i == 0 {
        assert(events.take(0).len() == 0);
        assert(events.skip(0) =~= events);
    } else {
        lemma_run_in_two_parts(stage.after(events[0]), events.drop_first(), i - 1);
        assert(events.take(i).drop_first() =~= events.drop_first().take(i - 1));
        assert(events.skip(i) =~= events.drop_first().skip(i - 1));
    }
}

/// An attempt that is over stays as it is: nothing that is reported later,
/// a late deadline least of all, undoes a connection or revives a failed
/// attempt. There is no second try.
pub proof fn lemma_over_is_over(stage: Stage, events: Seq<Event>)
    requires
        stage.is_final(),
    ensures
        stage.after_all(events) == stage,
    decreases events.len(),
{
    if events.len() > 0 {
        lemma_over_is_over(stage, events.drop_first());
    }
}

/// The deadline ends an attempt at whatever stage it is under way: if the
/// deadline passes before the attempt is over, the attempt has failed with
/// `Timeout` for good, and the action is to release all that was opened.
pub proof fn lemma_deadline_fails_attempt(stage: Stage, events: Seq<Event>, i: int)
    requires
        0 <= i < events.len(),
        events[i] == Event::DeadlineElapsed,
        !stage.after_all(events.take(i)).is_final(),
    ensures
        stage.after_all(events) == Stage::Failed(Error::Timeout),
        stage.after_all(events).spec_action() == Action::Release(Error::Timeout),
{
    let before = stage.after_all(events.take(i));
    let rest = events.skip(i);
    lemma_run_in_two_parts(stage, events, i);
    assert(rest[0] == events[i]);
    lemma_over_is_over(before.after(rest[0]), rest.drop_first());
}

/// The first failure decides: if a step fails before the attempt is over,
/// the attempt has failed with that error for good. No other transport is
/// tried in its place.
pub proof fn lemma_failure_fails_attempt(stage: Stage, events: Seq<Event>, i: int, error: Error)
    requires
        0 <= i < events.len(),
        events[i] == Event::Failed(error),
        !stage.after_all(events.take(i)).is_final(),
    ensures
        stage.after_all(events) == Stage::Failed(error),
        stage.after_all(events).spec_action() == Action::Release(error),
{
    let before = stage.after_all(events.take(i));
    let rest = events.skip(i);
    lemma_run_in_two_parts(stage, events, i);
    assert(rest[0] == events[i]);
    lemma_over_is_over(before.after(rest[0]), rest.drop_first());
}

/// A connection stands only when both steps were reported done, the
/// transport before the upgrade: there is no success by halves.
pub proof fn lemma_established_took_both_steps(events: Seq<Event>)
    requires
        Stage::Transport.after_all(events) is Established,
    ensures
        exists|i: int, j: int|
            0 <= i < j < events.len() && events[i] == Event::TransportReady && events[j]
                == Event::Upgraded,
{
    let i = lemma_left_stage(Stage::Transport, events);
    let rest = events.skip(i + 1);
    lemma_run_up_to(Stage::Transport, events, i);
    if Stage::Transport.after(events[i]) is Failed {
        lemma_over_is_over(Stage::Transport.after(events[i]), rest);
    }
    let j = lemma_left_stage(Stage::Upgrade, rest);
    lemma_run_up_to(Stage::Upgrade, rest, j);
    if Stage::Upgrade.after(rest[j]) is Failed {
        lemma_over_is_over(Stage::Upgrade.after(rest[j]), rest.skip(j + 1));
    }
    assert(rest[j] == events[i + 1 + j]);
    assert(events[i] == Event::TransportReady && events[i + 1 + j] == Event::Upgraded);
}

/// A run whose first `i` events change nothing goes on from the event at
/// `i`.
proof fn lemma_run_up_to(stage: Stage, events: Seq<Event>, i: int)
    requires
        0 <= i < events.len(),
        stage.after_all(events.take(i)) == stage,
    ensures
        stage.after_all(events) == stage.after(events[i]).after_all(events.skip(i + 1)),
{
    lemma_run_in_two_parts(stage, events, i);
    let rest = events.skip(i);
    assert(rest[0] == events[i]);
    assert(rest.drop_first() =~= events.skip(i + 1));
}

/// A run that ends in another stage than it began in holds the event that
/// led out of the first stage; until then the stage did not change.
proof fn lemma_left_stage(stage: Stage, events: Seq<Event>) -> (i: int)
    requires
        stage.after_all(events) != stage,
    ensures
        0 <= i < events.len(),
        stage.after_all(events.take(i)) == stage,
        stage.after(events[i]) != stage,
    decreases events.len(),
{
    if stage.after(events[0]) != stage {
        assert(events.take(0).len() == 0);
        0
    } else {
        let k = lemma_left_stage(stage, events.drop_first());
        assert(events.take(k + 1).drop_first() =~= events.drop_first().take(k));
        k + 1
    }
}

/// A proxy that answers the request with a reply code other than zero
/// fails the attempt with a proxy error that carries the code, which is not
/// the error of a network that cannot be reached.
pub proof fn lemma_proxy_refusal_fails_attempt(head: Seq<u8>)
    requires
        head.len() == 4,
        head[0] == VERSION,
        head[1] != SUCCEEDED,
    ensures
        ({
            let refusal = Error::Proxy(SocksError::Rejected(head[1]));
            &&& Event::spec_of_handshake(Phase::ReplyHead.after(head)) == Some(
                Event::Failed(refusal),
            )
            &&& Stage::Transport.after(Event::Failed(refusal)) == Stage::Failed(refusal)
            &&& refusal != Error::Network
        }),
{
}

/// The time that is left of `timeout` when `elapsed` of it has passed, both
/// in the same unit: the difference, and nothing once the deadline has
/// come.
pub open spec fn spec_remaining(timeout: u64, elapsed: u64) -> u64 {
    if elapsed >= timeout {
        0
    } else {
        (timeout - elapsed) as u64
    }
}

/// The time that is left of `timeout` when `elapsed` of it has passed. One
/// deadline runs over all steps of an attempt, so each step is given what
/// the steps before it have left.
pub fn remaining(timeout: u64, elapsed: u64) -> (left: u64)
    ensures
        left == spec_remaining(timeout, elapsed),
{
    if elapsed >= timeout {
        0
    } else {
        timeout - elapsed
    }
}

/// The steps of an attempt share one budget: what is left never grows as
/// time passes, never exceeds the timeout, and what has passed and what is
/// left make up the timeout until the deadline has come.
pub proof fn lemma_remaining_is_one_budget(timeout: u64, earlier: u64, later: u64)
    requires
        earlier <= later,
    ensures
        spec_remaining(timeout, later) <= spec_remaining(timeout, earlier) <= timeout,
        later <= timeout ==> later + spec_remaining(timeout, later) == timeout,
        later >= timeout ==> spec_remaining(timeout, later) == 0,
{
}

/// The whole seconds of a duration.
pub uninterp spec fn duration_secs(d: Duration) -> u64;

/// The part of a duration below one second, in nanoseconds.
pub uninterp spec fn duration_subsec_nanos(d: Duration) -> u32;

/// Trusted: `Duration::from_secs` of std makes a duration of that many
/// whole seconds and nothing more.
pub assume_specification[ Duration::from_secs ](secs: u64) -> (d: Duration)
    ensures
        duration_secs(d) == secs,
        duration_subsec_nanos(d) == 0,
;

/// The seconds that an attempt may take where its caller sets no limit.
pub const DEFAULT_TIMEOUT_SECS: u64 = 60;

/// The time that an attempt may take: the caller's limit, or one minute
/// where the caller sets none.
pub fn timeout_or_default(timeout: Option<Duration>) -> (limit: Duration)
    ensures
        match timeout {
            Some(t) => limit == t,
            None => duration_secs(limit) == DEFAULT_TIMEOUT_SECS && duration_subsec_nanos(limit)
                == 0,
        },
{
    match timeout {
        Some(t) => t,
        None => Duration::from_secs(DEFAULT_TIMEOUT_SECS),
    }
}

} // verus!

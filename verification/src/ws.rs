//! The alert engine of one client connection: the handshake, the two units
//! of work that run while the connection is active, and the ledger that
//! keeps a controller from being reported again before its cooldown is over.
//!
//! Sending, receiving and sleeping are left to the caller. The library
//! decides what happens next from what happened last.

use crate::controller::{controller_views, Controller, ControllerView};
use crate::settings::{Profile, Settings};
use crate::text::{decimal, push_decimal};
use core::ops::ControlFlow;
use vstd::hash_map::*;
use vstd::prelude::*;
use vstd::string::*;

verus! {

/// Seconds between two checks of the batteries, in production and while
/// developing.
pub const BATTERY_CHECK_INTERVAL: u64 = 60;

pub const BATTERY_CHECK_INTERVAL_DEVELOPMENT: u64 = 10;

/// Seconds before the same controller is reported again, in production and
/// while developing.
pub const BATTERY_ALERT_INTERVAL: u64 = 3600;

pub const BATTERY_ALERT_INTERVAL_DEVELOPMENT: u64 = 60;

/// A battery below this capacity is low.
pub const LOW_BATTERY_CAPACITY: u8 = 20;

/// The close frame of a connection.
#[derive(Debug)]
pub struct CloseFrame {
    pub code: u16,
    pub reason: String,
}

/// A message of the connection, in either direction.
#[derive(Debug)]
pub enum Message {
    Text(String),
    Binary(Vec<u8>),
    Ping(Vec<u8>),
    Pong(Vec<u8>),
    Close(Option<CloseFrame>),
}

/// What an attempt to receive brought.
#[derive(Debug)]
pub enum Inbound {
    Message(Message),
    /// Reading failed: the client is gone.
    ReadError,
    /// The stream has ended.
    EndOfStream,
}

/// One of the two units of work of an active connection.
#[derive(Debug, Clone, Copy, PartialEq, Eq, Structural)]
pub enum Worker {
    /// Checks the batteries and sends the alerts.
    Poller,
    /// Reads what the client sends.
    Receiver,
}

/// Where a connection stands.
#[derive(Debug, Clone, Copy, PartialEq, Eq, Structural)]
pub enum EngineState {
    /// The connection was accepted.
    Connecting,
    /// The heartbeat probe is on its way (`probe_sent` is false), or the
    /// client's first message is awaited.
    Handshaking { probe_sent: bool },
    /// Both units run, or `stopped` has ended and the other one was told
    /// to.
    Active { stopped: Option<Worker> },
    /// Both units have stopped and the connection is being released.
    Closing,
    /// The connection is over.
    Closed,
}

/// What happened on a connection.
#[derive(Debug, Clone, Copy, PartialEq, Eq, Structural)]
pub enum EngineEvent {
    /// The engine was started.
    Started,
    /// The heartbeat probe was sent.
    ProbeSent,
    /// The heartbeat probe could not be sent.
    ProbeFailed,
    /// The client's first message came, and it is not a close frame; or the
    /// stream ended before one came.
    Greeted,
    /// The client's first message is a close frame, or reading it failed.
    Refused,
    /// A unit has stopped.
    Stopped(Worker),
    /// The connection was released.
    Released,
}

/// What to do next on a connection.
#[derive(Debug, Clone, Copy, PartialEq, Eq, Structural)]
pub enum EngineAction {
    /// Nothing: the event does not belong to the state.
    Nothing,
    /// Send the heartbeat probe.
    SendProbe,
    /// Wait for one message of the client.
    AwaitMessage,
    /// Split the channel and start both units.
    StartWorkers,
    /// Tell a unit to stop.
    Abort(Worker),
    /// Release the connection.
    Release,
}

/// The unit that is not `worker`.
pub open spec fn other_worker(worker: Worker) -> Worker {
    match worker {
        Worker::Poller => Worker::Receiver,
        Worker::Receiver => Worker::Poller,
    }
}

/// The state that follows a state on an event, and what to do then. An
/// event that does not belong to the state changes nothing.
pub open spec fn next_step(state: EngineState, event: EngineEvent) -> (EngineState, EngineAction) {
    match (state, event) {
        (EngineState::Connecting, EngineEvent::Started) => (
            EngineState::Handshaking { probe_sent: false },
            EngineAction::SendProbe,
        ),
        (EngineState::Handshaking { probe_sent: false }, EngineEvent::ProbeSent) => (
            EngineState::Handshaking { probe_sent: true },
            EngineAction::AwaitMessage,
        ),
        (EngineState::Handshaking { probe_sent: false }, EngineEvent::ProbeFailed) => (
            EngineState::Closed,
            EngineAction::Release,
        ),
        (EngineState::Handshaking { probe_sent: true }, EngineEvent::Greeted) => (
            EngineState::Active { stopped: None },
            EngineAction::StartWorkers,
        ),
        (EngineState::Handshaking { probe_sent: true }, EngineEvent::Refused) => (
            EngineState::Closed,
            EngineAction::Release,
        ),
        (EngineState::Active { stopped: None }, EngineEvent::Stopped(worker)) => (
            EngineState::Active { stopped: Some(worker) },
            EngineAction::Abort(other_worker(worker)),
        ),
        (EngineState::Active { stopped: Some(first) }, EngineEvent::Stopped(worker)) => if worker
            == other_worker(first) {
            (EngineState::Closing, EngineAction::Release)
        } else {
            (state, EngineAction::Nothing)
        },
        (EngineState::Closing, EngineEvent::Released) => (
            EngineState::Closed,
            EngineAction::Nothing,
        ),
        _ => (state, EngineAction::Nothing),
    }
}

/// Whether a message is a close frame.
pub open spec fn is_close(msg: Message) -> bool {
    msg is Close
}

/// The event that the client's first answer stands for: a close frame or
/// a failed read refuse the connection, anything else greets it, the end of
/// the stream included.
pub open spec fn handshake_event(inbound: Inbound) -> EngineEvent {
    match inbound {
        Inbound::Message(msg) => if is_close(msg) {
            EngineEvent::Refused
        } else {
            EngineEvent::Greeted
        },
        Inbound::ReadError => EngineEvent::Refused,
        Inbound::EndOfStream => EngineEvent::Greeted,
    }
}

/// Whether the receiving unit goes on after what it received: it ends with
/// a close frame, a failed read, and the end of the stream.
pub open spec fn receiver_goes_on(inbound: Inbound) -> bool {
    inbound matches Inbound::Message(msg) && !is_close(msg)
}

/// Whether a controller's battery is low: under a fifth and draining.
pub open spec fn is_low_battery(c: ControllerView) -> bool {
    c.capacity < LOW_BATTERY_CAPACITY && c.is_discharging()
}

/// Whether a controller is to be reported at `now`: its battery is low, and
/// it was never reported or the cooldown has passed since.
pub open spec fn alert_due(ledger: Map<Seq<char>, u64>, c: ControllerView, now: u64, cooldown: u64)
    -> bool {
    is_low_battery(c) && (!ledger.contains_key(c.id()) || now - ledger[c.id()] >= cooldown)
}

/// The ledger after a controller was observed at `now`: a report is
/// entered under the controller's key, and nothing else changes.
pub open spec fn ledger_after(
    ledger: Map<Seq<char>, u64>,
    c: ControllerView,
    now: u64,
    cooldown: u64,
) -> Map<Seq<char>, u64> {
    if alert_due(ledger, c, now, cooldown) {
        ledger.insert(c.id(), now)
    } else {
        ledger
    }
}

/// The text that reports a controller.
pub open spec fn alert_message(c: ControllerView) -> Seq<char> {
    c.name + " is low on battery ("@ + decimal(c.capacity as nat) + "%)"@
}

/// The ledger after the controllers `cs` were observed at `now`, one after
/// the other.
pub open spec fn ledger_after_all(
    ledger: Map<Seq<char>, u64>,
    cs: Seq<ControllerView>,
    now: u64,
    cooldown: u64,
) -> Map<Seq<char>, u64>
    decreases cs.len(),
{
    if cs.len() == 0 {
        ledger
    } else {
        ledger_after(ledger_after_all(ledger, cs.drop_last(), now, cooldown), cs.last(), now, cooldown)
    }
}

/// The reports that observing the controllers `cs` at `now` gives, in the
/// order of the controllers.
pub open spec fn alerts(
    ledger: Map<Seq<char>, u64>,
    cs: Seq<ControllerView>,
    now: u64,
    cooldown: u64,
) -> Seq<Seq<char>>
    decreases cs.len(),
{
    if cs.len() == 0 {
        Seq::empty()
    } else {
        let before = alerts(ledger, cs.drop_last(), now, cooldown);
        if alert_due(
            ledger_after_all(ledger, cs.drop_last(), now, cooldown),
            cs.last(),
            now,
            cooldown,
        ) {
            before.push(alert_message(cs.last()))
        } else {
            before
        }
    }
}

/// The texts of a list of strings.
pub open spec fn texts(v: Seq<String>) -> Seq<Seq<char>> {
    Seq::new(v.len(), |i: int| v[i]@)
}

/// Seconds between two checks of the batteries.
pub fn battery_check_interval(profile: Profile) -> (r: u64)
    ensures
        r == (match profile {
            Profile::Development => BATTERY_CHECK_INTERVAL_DEVELOPMENT,
            Profile::Production => BATTERY_CHECK_INTERVAL,
        }),
{
    match profile {
        Profile::Development => BATTERY_CHECK_INTERVAL_DEVELOPMENT,
        Profile::Production => BATTERY_CHECK_INTERVAL,
    }
}

/// Seconds before the same controller is reported again.
pub fn battery_alert_interval(profile: Profile) -> (r: u64)
    ensures
        r == (match profile {
            Profile::Development => BATTERY_ALERT_INTERVAL_DEVELOPMENT,
            Profile::Production => BATTERY_ALERT_INTERVAL,
        }),
{
    match profile {
        Profile::Development => BATTERY_ALERT_INTERVAL_DEVELOPMENT,
        Profile::Production => BATTERY_ALERT_INTERVAL,
    }
}

/// The heartbeat probe that opens the handshake.
pub fn heartbeat_probe() -> (r: Message)
    ensures
        r matches Message::Ping(payload) && payload@ == seq![1u8, 2u8, 3u8],
{
    let mut payload: Vec<u8> = Vec::new();
    payload.push(1);
    payload.push(2);
    payload.push(3);
    assert(payload@ =~= seq![1u8, 2u8, 3u8]);
    Message::Ping(payload)
}

/// Looks at a message of the client. Only a close frame breaks off.
pub fn process_message(msg: &Message) -> (r: ControlFlow<(), ()>)
    ensures
        r is Break <==> is_close(*msg),
{
    match msg {
        Message::Close(_) => ControlFlow::Break(()),
        _ => ControlFlow::Continue(()),
    }
}

/// The event that the client's first answer stands for.
pub fn classify_handshake(inbound: &Inbound) -> (r: EngineEvent)
    ensures
        r == handshake_event(*inbound),
{
    match inbound {
        Inbound::Message(msg) => match process_message(msg) {
            ControlFlow::Break(_) => EngineEvent::Refused,
            ControlFlow::Continue(_) => EngineEvent::Greeted,
        },
        Inbound::ReadError => EngineEvent::Refused,
        Inbound::EndOfStream => EngineEvent::Greeted,
    }
}

/// Whether the receiving unit goes on after what it received.
pub fn receiver_continues(inbound: &Inbound) -> (r: bool)
    ensures
        r == receiver_goes_on(*inbound),
{
    match inbound {
        Inbound::Message(msg) => match process_message(msg) {
            ControlFlow::Break(_) => false,
            ControlFlow::Continue(_) => true,
        },
        _ => false,
    }
}

/// The unit that is not `worker`.
pub fn other(worker: Worker) -> (r: Worker)
    ensures
        r == other_worker(worker),
{
    match worker {
        Worker::Poller => Worker::Receiver,
        Worker::Receiver => Worker::Poller,
    }
}

/// Takes a connection one step on: the state that follows, and what to do
/// then.
pub fn step(state: EngineState, event: EngineEvent) -> (r: (EngineState, EngineAction))
    ensures
        r == next_step(state, event),
        state == EngineState::Closed ==> r.0 == EngineState::Closed,
        r.1 == EngineAction::StartWorkers ==> state == (EngineState::Handshaking {
            probe_sent: true,
        }) && r.0 == (EngineState::Active { stopped: None }),
{
    match state {
        EngineState::Connecting => match event {
            EngineEvent::Started => (
                EngineState::Handshaking { probe_sent: false },
                EngineAction::SendProbe,
            ),
            _ => (state, EngineAction::Nothing),
        },
        EngineState::Handshaking { probe_sent } => {
            if !probe_sent {
                match event {
                    EngineEvent::ProbeSent => (
                        EngineState::Handshaking { probe_sent: true },
                        EngineAction::AwaitMessage,
                    ),
                    EngineEvent::ProbeFailed => (EngineState::Closed, EngineAction::Release),
                    _ => (state, EngineAction::Nothing),
                }
            } else {
                match event {
                    EngineEvent::Greeted => (
                        EngineState::Active { stopped: None },
                        EngineAction::StartWorkers,
                    ),
                    EngineEvent::Refused => (EngineState::Closed, EngineAction::Release),
                    _ => (state, EngineAction::Nothing),
                }
            }
        },
        EngineState::Active { stopped } => match event {
            EngineEvent::Stopped(worker) => match stopped {
                None => (
                    EngineState::Active { stopped: Some(worker) },
                    EngineAction::Abort(other(worker)),
                ),
                Some(first) => if worker == other(first) {
                    (EngineState::Closing, EngineAction::Release)
                } else {
                    (state, EngineAction::Nothing)
                },
            },
            _ => (state, EngineAction::Nothing),
        },
        EngineState::Closing => match event {
            EngineEvent::Released => (EngineState::Closed, EngineAction::Nothing),
            _ => (state, EngineAction::Nothing),
        },
        EngineState::Closed => (state, EngineAction::Nothing),
    }
}

/// When each controller was last reported, by identity key. A ledger lives
/// as long as its connection; entries are added and renewed, never removed.
pub struct AlertLedger {
    last_alerts: StringHashMap<u64>,
}

impl View for AlertLedger {
    type V = Map<Seq<char>, u64>;

    closed spec fn view(&self) -> Map<Seq<char>, u64> {
        self.last_alerts@
    }
}

impl AlertLedger {
    /// A ledger without entries.
    pub fn new() -> (r: AlertLedger)
        ensures
            r@ == Map::<Seq<char>, u64>::empty(),
    {
        AlertLedger { last_alerts: StringHashMap::new() }
    }

    /// When the controller with the key `id` was last reported, if ever.
    pub fn last_alert(&self, id: &str) -> (r: Option<u64>)
        ensures
            r == (if self@.contains_key(id@) {
                Some(self@[id@])
            } else {
                None
            }),
    {
        match self.last_alerts.get(id) {
            Some(at) => Some(*at),
            None => None,
        }
    }

    /// Observes a controller at `now`, in seconds. Where its battery is
    /// low and it was not reported within the last `cooldown` seconds, the
    /// report is entered in the ledger and its text is returned.
    pub fn observe(&mut self, controller: &Controller, now: u64, cooldown: u64) -> (r: Option<
        String,
    >)
        ensures
            r is Some <==> alert_due(old(self)@, controller@, now, cooldown),
            r is Some ==> r.unwrap()@ == alert_message(controller@),
            final(self)@ == ledger_after(old(self)@, controller@, now, cooldown),
    {
        let low_battery = controller.capacity < LOW_BATTERY_CAPACITY && controller.is_discharging();
        if !low_battery {
            return None;
        }
        let id = controller.id();
        let due = match self.last_alerts.get(id.as_str()) {
            None => true,
            Some(last_alert) => now >= *last_alert && now - *last_alert >= cooldown,
        };
        if !due {
            return None;
        }
        self.last_alerts.insert(id, now);
        let mut message = controller.name.clone();
        message.append(" is low on battery (");
        push_decimal(&mut message, controller.capacity as u64);
        message.append("%)");
        Some(message)
    }
}

/// What the polling unit does after a send.
#[derive(Debug, Clone, Copy, PartialEq, Eq, Structural)]
pub enum PollerStep {
    /// Go on with the next report.
    Continue,
    /// Stop; this is the number of reports that were sent in all.
    Finished(u64),
}

/// The polling unit of a connection: its ledger, its cooldown, and the
/// number of reports it has sent.
pub struct Poller {
    ledger: AlertLedger,
    cooldown: u64,
    sent: u64,
}

impl Poller {
    pub closed spec fn ledger(&self) -> Map<Seq<char>, u64> {
        self.ledger@
    }

    pub closed spec fn cooldown(&self) -> u64 {
        self.cooldown
    }

    pub closed spec fn sent(&self) -> u64 {
        self.sent
    }

    /// A polling unit with an empty ledger and the cooldown of the profile.
    pub fn new(profile: Profile) -> (r: Poller)
        ensures
            r.ledger() == Map::<Seq<char>, u64>::empty(),
            r.sent() == 0,
            r.cooldown() == (match profile {
                Profile::Development => BATTERY_ALERT_INTERVAL_DEVELOPMENT,
                Profile::Production => BATTERY_ALERT_INTERVAL,
            }),
    {
        Poller { ledger: AlertLedger::new(), cooldown: battery_alert_interval(profile), sent: 0 }
    }

    /// The number of reports that were sent so far.
    pub fn sent_count(&self) -> (r: u64)
        ensures
            r == self.sent(),
    {
        self.sent
    }

    /// When the controller with the key `id` was last reported, if ever.
    pub fn last_alert(&self, id: &str) -> (r: Option<u64>)
        ensures
            r == (if self.ledger().contains_key(id@) {
                Some(self.ledger()[id@])
            } else {
                None
            }),
    {
        self.ledger.last_alert(id)
    }

    /// Whether the batteries are to be checked in this cycle: only while
    /// the user wants notifications.
    pub fn should_check(settings: &Settings) -> (r: bool)
        ensures
            r == settings.notifications,
    {
        settings.notifications
    }

    /// Observes one controller at `now`, in seconds, and returns the text
    /// of its report where one is due.
    pub fn observe(&mut self, controller: &Controller, now: u64) -> (r: Option<String>)
        ensures
            r is Some <==> alert_due(old(self).ledger(), controller@, now, old(self).cooldown()),
            r is Some ==> r.unwrap()@ == alert_message(controller@),
            final(self).ledger() == ledger_after(
                old(self).ledger(),
                controller@,
                now,
                old(self).cooldown(),
            ),
            final(self).cooldown() == old(self).cooldown(),
            final(self).sent() == old(self).sent(),
    {
        self.ledger.observe(controller, now, self.cooldown)
    }

    /// Observes the controllers of one enumeration at `now`, in seconds,
    /// and returns the texts of the reports that are due, in the order of
    /// the controllers.
    pub fn poll(&mut self, controllers: &Vec<Controller>, now: u64) -> (r: Vec<String>)
        ensures
            texts(r@) == alerts(
                old(self).ledger(),
                controller_views(controllers@),
                now,
                old(self).cooldown(),
            ),
            final(self).ledger() == ledger_after_all(
                old(self).ledger(),
                controller_views(controllers@),
                now,
                old(self).cooldown(),
            ),
            final(self).cooldown() == old(self).cooldown(),
            final(self).sent() == old(self).sent(),
    {
        let ghost views = controller_views(controllers@);
        let mut out: Vec<String> = Vec::new();
        let mut i: usize = 0;
        assert(views.take(0) =~= Seq::<ControllerView>::empty());
        assert(texts(out@) =~= Seq::<Seq<char>>::empty());
        while i < controllers.len()
            invariant
                i <= controllers@.len(),
                views == controller_views(controllers@),
                self.cooldown() == old(self).cooldown(),
                self.sent() == old(self).sent(),
                texts(out@) == alerts(
                    old(self).ledger(),
                    views.take(i as int),
                    now,
                    old(self).cooldown(),
                ),
                self.ledger() == ledger_after_all(
                    old(self).ledger(),
                    views.take(i as int),
                    now,
                    old(self).cooldown(),
                ),
            decreases controllers@.len() - i,
        {
            proof {
                let next = views.take(i + 1);
                assert(next.drop_last() =~= views.take(i as int));
                assert(next.last() == controllers@[i as int]@);
            }
            match self.observe(&controllers[i], now) {
                Some(message) => {
                    let ghost before = out@;
                    out.push(message);
                    assert(texts(out@) =~= texts(before).push(message@));
                },
                None => {},
            }
            i += 1;
        }
        assert(views.take(i as int) =~= views);
        out
    }

    /// Takes note of how a send ended. A report that was delivered is
    /// counted; one that was not ends the unit, which then gives the number
    /// of reports it has sent.
    pub fn record_send(&mut self, delivered: bool) -> (r: PollerStep)
        ensures
            final(self).ledger() == old(self).ledger(),
            final(self).cooldown() == old(self).cooldown(),
            delivered ==> r == PollerStep::Continue && final(self).sent() == (if old(self).sent()
                < u64::MAX {
                (old(self).sent() + 1) as u64
            } else {
                u64::MAX
            }),
            !delivered ==> r == PollerStep::Finished(old(self).sent()) && final(self).sent() == old(
                self,
            ).sent(),
    {
        if delivered {
            if self.sent < u64::MAX {
                self.sent += 1;
            }
            PollerStep::Continue
        } else {
            PollerStep::Finished(self.sent)
        }
    }
}

/// A controller that was reported at `reported` is reported again at `now`
/// exactly if the cooldown has passed since, as long as its battery stays
/// low; until then the ledger holds the time of that report.
pub proof fn lemma_cooldown(
    ledger: Map<Seq<char>, u64>,
    c: ControllerView,
    reported: u64,
    now: u64,
    cooldown: u64,
)
    requires
        alert_due(ledger, c, reported, cooldown),
    ensures
        ledger_after(ledger, c, reported, cooldown)[c.id()] == reported,
        alert_due(ledger_after(ledger, c, reported, cooldown), c, now, cooldown) <==> now
            - reported >= cooldown,
{
}

/// Once a connection is closed it stays closed, and nothing is left to do.
pub proof fn lemma_closed_is_final(event: EngineEvent)
    ensures
        next_step(EngineState::Closed, event) == (EngineState::Closed, EngineAction::Nothing),
{
}

} // verus!

//! The bridge as a state machine. A pump takes one event of its transport at
//! a time and answers with the next state and the action to perform; what
//! performs the action and waits for the next event is outside this crate.

use crate::document::{Document, Value};
use crate::inbound::{
    decoded, decoded_payload, lemma_accepted_is_exact, well_formed, ConversionError,
    InboundMessage, SchemaViolation, ValidationError, MQTT2ROSData,
};
use crate::outbound::{encoded, OutboundMessage, ROS2MQTTData};
use crate::shutdown::ShutdownCoordinator;
use crate::topic::{
    find_by_mqtt_name, find_by_ros_name, lemma_found_is_entry, registry, Topic, TopicNames,
    MQTT_QOS,
};
use vstd::prelude::*;

verus! {

/// How long the middleware is given to process its pending work on one
/// keepalive tick, in milliseconds.
pub const SPIN_TIMEOUT_MS: u64 = 10;

/// The time between two keepalive ticks, in milliseconds.
pub const SPIN_INTERVAL_MS: u64 = 100;

/// Where a bridge, or one of its pumps, stands in its life.
#[derive(Clone, Copy, PartialEq, Eq, Debug, Structural)]
pub enum BridgeState {
    /// The connections are being acquired.
    Starting,
    /// Events are relayed.
    Running,
    /// The end was asked for: nothing new is accepted.
    Draining,
    /// Terminal.
    Stopped,
}

/// Which connection could not be acquired.
#[derive(Clone, Copy, PartialEq, Eq, Debug, Structural)]
pub enum StartupError {
    Middleware,
    Broker,
    Both,
}

/// Everything that can go wrong in a bridge.
#[derive(Clone, Copy, PartialEq, Eq, Debug, Structural)]
pub enum BridgeError {
    /// An event named a topic that the registry does not hold.
    UnknownTopic,
    /// A payload from the broker was not of the required shape.
    SchemaViolation(SchemaViolation),
    /// A payload of the required shape held a number that the message cannot.
    ConversionError(ConversionError),
    /// A connection failed.
    TransportError,
    /// A connection could not be acquired.
    StartupError(StartupError),
}

/// The bridge error for a payload that was not accepted.
pub open spec fn rejection(e: ValidationError) -> BridgeError {
    match e {
        ValidationError::SchemaViolation(v) => BridgeError::SchemaViolation(v),
        ValidationError::ConversionError(c) => BridgeError::ConversionError(c),
    }
}

impl BridgeError {
    /// The bridge error for a payload that was not accepted.
    pub fn from_validation(e: ValidationError) -> (error: BridgeError)
        ensures
            error == rejection(e),
    {
        match e {
            ValidationError::SchemaViolation(v) => BridgeError::SchemaViolation(v),
            ValidationError::ConversionError(c) => BridgeError::ConversionError(c),
        }
    }
}

/// What a pump is told.
#[derive(Debug, PartialEq, Eq)]
pub enum Event {
    /// The attempt to acquire the two connections has ended.
    Acquired { middleware: bool, broker: bool },
    /// The middleware delivered a message on the topic of that name.
    FromMiddleware { topic: String, message: ROS2MQTTData },
    /// The broker delivered a payload on the topic of that name. The payload
    /// is absent where it could not be read as a document.
    FromBroker { topic: String, payload: Option<Value> },
    /// The keepalive interval has passed.
    Tick,
    /// The last publication went through.
    Delivered,
    /// The transport failed; `recoverable` where a retry may help.
    TransportFailed { recoverable: bool },
    /// The connections of the session have been released.
    Released,
}

/// What a pump asks for.
#[derive(Debug, PartialEq, Eq)]
pub enum Action {
    /// Nothing.
    Idle,
    /// Publish the document at the broker, under the topic's broker name.
    PublishToBroker { topic: Topic, payload: Value, qos: i32 },
    /// Publish the message in the middleware, under the topic's name there.
    PublishToMiddleware { topic: Topic, message: MQTT2ROSData },
    /// Let the middleware process its pending work for at most this long.
    Spin { timeout_ms: u64 },
    /// Log the error and go on: the event was dropped.
    Drop { error: BridgeError },
    /// Raise the shared signal and leave the loop: the session ends.
    Escalate,
    /// Leave the loop: the pump takes no further event. Its connection is
    /// kept until the session releases both.
    Exit,
    /// Give up before running: log the error and leave with a failure.
    Fail { error: BridgeError },
}

/// What an `Event` stands for.
pub enum EventContent {
    Acquired { middleware: bool, broker: bool },
    FromMiddleware { topic: Seq<char>, message: OutboundMessage },
    FromBroker { topic: Seq<char>, payload: Option<Document> },
    Tick,
    Delivered,
    TransportFailed { recoverable: bool },
    Released,
}

/// What an `Action` stands for.
pub enum ActionContent {
    Idle,
    PublishToBroker { topic: TopicNames, payload: Document, qos: i32 },
    PublishToMiddleware { topic: TopicNames, message: InboundMessage },
    Spin { timeout_ms: u64 },
    Drop { error: BridgeError },
    Escalate,
    Exit,
    Fail { error: BridgeError },
}

impl View for Event {
    type V = EventContent;

    open spec fn view(&self) -> EventContent {
        match self {
            Event::Acquired { middleware, broker } => EventContent::Acquired {
                middleware: *middleware,
                broker: *broker,
            },
            Event::FromMiddleware { topic, message } => EventContent::FromMiddleware {
                topic: topic@,
                message: message@,
            },
            Event::FromBroker { topic, payload } => EventContent::FromBroker {
                topic: topic@,
                payload: match payload {
                    Some(v) => Some(v@),
                    None => None,
                },
            },
            Event::Tick => EventContent::Tick,
            Event::Delivered => EventContent::Delivered,
            Event::TransportFailed { recoverable } => EventContent::TransportFailed {
                recoverable: *recoverable,
            },
            Event::Released => EventContent::Released,
        }
    }
}

impl View for Action {
    type V = ActionContent;

    open spec fn view(&self) -> ActionContent {
        match self {
            Action::Idle => ActionContent::Idle,
            Action::PublishToBroker { topic, payload, qos } => ActionContent::PublishToBroker {
                topic: topic@,
                payload: payload@,
                qos: *qos,
            },
            Action::PublishToMiddleware { topic, message } => ActionContent::PublishToMiddleware {
                topic: topic@,
                message: message@,
            },
            Action::Spin { timeout_ms } => ActionContent::Spin { timeout_ms: *timeout_ms },
            Action::Drop { error } => ActionContent::Drop { error: *error },
            Action::Escalate => ActionContent::Escalate,
            Action::Exit => ActionContent::Exit,
            Action::Fail { error } => ActionContent::Fail { error: *error },
        }
    }
}

impl ActionContent {
    /// Whether the action hands a message on to the other side.
    pub open spec fn forwards(self) -> bool {
        self is PublishToBroker || self is PublishToMiddleware
    }
}

/// One of the two relays of a bridge.
#[derive(Clone, Copy, PartialEq, Eq, Debug, Structural)]
pub struct Pump {
    /// Where the pump stands.
    pub state: BridgeState,
    /// How many transport failures in a row it has seen.
    pub failures: u32,
    /// How many transport failures in a row it lets pass.
    pub retry_limit: u32,
    /// Why it gave up, if it did.
    pub fault: Option<BridgeError>,
}

/// The startup error for the outcome of acquiring the two connections, if
/// either failed.
pub open spec fn startup_error(middleware: bool, broker: bool) -> Option<StartupError> {
    if middleware && broker {
        None
    } else if broker {
        Some(StartupError::Middleware)
    } else if middleware {
        Some(StartupError::Broker)
    } else {
        Some(StartupError::Both)
    }
}

/// What a running pump does with a message of the middleware: look the topic
/// up by its middleware name, encode, publish at the broker, at least once.
pub open spec fn relay_outbound(topic: Seq<char>, message: OutboundMessage) -> ActionContent {
    match find_by_ros_name(registry(), topic) {
        None => ActionContent::Drop { error: BridgeError::UnknownTopic },
        Some(t) => ActionContent::PublishToBroker {
            topic: t,
            payload: encoded(message),
            qos: MQTT_QOS,
        },
    }
}

/// What a running pump does with a payload of the broker: look the topic up
/// by its broker name, decode, publish in the middleware; drop what is not
/// accepted.
pub open spec fn relay_inbound(topic: Seq<char>, payload: Option<Document>) -> ActionContent {
    match find_by_mqtt_name(registry(), topic) {
        None => ActionContent::Drop { error: BridgeError::UnknownTopic },
        Some(t) => match decoded_payload(payload) {
            Ok(message) => ActionContent::PublishToMiddleware { topic: t, message },
            Err(e) => ActionContent::Drop { error: rejection(e) },
        },
    }
}

/// One step of a pump: the next state and the action, from the state, from
/// whether the shared signal is raised, and from the event.
pub open spec fn step_of(pump: Pump, triggered: bool, event: EventContent) -> (Pump, ActionContent) {
    match pump.state {
        BridgeState::Starting => match event {
            EventContent::Acquired { middleware, broker } => match startup_error(
                middleware,
                broker,
            ) {
                Some(e) => (
                    Pump {
                        state: BridgeState::Stopped,
                        fault: Some(BridgeError::StartupError(e)),
                        ..pump
                    },
                    ActionContent::Fail { error: BridgeError::StartupError(e) },
                ),
                None => if triggered {
                    (Pump { state: BridgeState::Draining, ..pump }, ActionContent::Exit)
                } else {
                    (Pump { state: BridgeState::Running, ..pump }, ActionContent::Idle)
                },
            },
            _ => if triggered {
                (Pump { state: BridgeState::Stopped, ..pump }, ActionContent::Idle)
            } else {
                (pump, ActionContent::Idle)
            },
        },
        BridgeState::Running => if triggered {
            (Pump { state: BridgeState::Draining, ..pump }, ActionContent::Exit)
        } else {
            match event {
                EventContent::FromMiddleware { topic, message } => (
                    pump,
                    relay_outbound(topic, message),
                ),
                EventContent::FromBroker { topic, payload } => (pump, relay_inbound(topic, payload)),
                EventContent::Tick => (pump, ActionContent::Spin { timeout_ms: SPIN_TIMEOUT_MS }),
                EventContent::Delivered => (Pump { failures: 0, ..pump }, ActionContent::Idle),
                EventContent::TransportFailed { recoverable } => if recoverable && pump.failures
                    < pump.retry_limit {
                    (
                        Pump { failures: (pump.failures + 1) as u32, ..pump },
                        ActionContent::Drop { error: BridgeError::TransportError },
                    )
                } else {
                    (
                        Pump {
                            state: BridgeState::Draining,
                            fault: Some(BridgeError::TransportError),
                            ..pump
                        },
                        ActionContent::Escalate,
                    )
                },
                EventContent::Acquired { .. } => (pump, ActionContent::Idle),
                EventContent::Released => (pump, ActionContent::Idle),
            }
        },
        BridgeState::Draining => match event {
            EventContent::Released => (
                Pump { state: BridgeState::Stopped, ..pump },
                ActionContent::Idle,
            ),
            _ => (pump, ActionContent::Idle),
        },
        BridgeState::Stopped => (pump, ActionContent::Idle),
    }
}

impl Pump {
    /// A pump that has not started and has seen no failure.
    pub open spec fn new_pump(retry_limit: u32) -> Pump {
        Pump { state: BridgeState::Starting, failures: 0, retry_limit, fault: None }
    }

    /// A pump that has not started, and that lets `retry_limit` transport
    /// failures in a row pass before it ends the session.
    pub fn new(retry_limit: u32) -> (pump: Pump)
        ensures
            pump == Pump::new_pump(retry_limit),
    {
        Pump { state: BridgeState::Starting, failures: 0, retry_limit, fault: None }
    }

    /// Takes one event. The signal is looked at first: once it is raised,
    /// the event is discarded.
    pub fn step(&mut self, signal: &ShutdownCoordinator, event: Event) -> (action: Action)
        ensures
            (*final(self), action@) == step_of(*old(self), signal@, event@),
    {
        let triggered = signal.is_triggered();
        match self.state {
            BridgeState::Starting => match event {
                Event::Acquired { middleware, broker } => {
                    if middleware && broker {
                        if triggered {
                            self.state = BridgeState::Draining;
                            Action::Exit
                        } else {
                            self.state = BridgeState::Running;
                            Action::Idle
                        }
                    } else {
                        let which = if broker {
                            StartupError::Middleware
                        } else if middleware {
                            StartupError::Broker
                        } else {
                            StartupError::Both
                        };
                        self.state = BridgeState::Stopped;
                        self.fault = Some(BridgeError::StartupError(which));
                        Action::Fail { error: BridgeError::StartupError(which) }
                    }
                },
                _ => {
                    if triggered {
                        self.state = BridgeState::Stopped;
                    }
                    Action::Idle
                },
            },
            BridgeState::Running => {
                if triggered {
                    self.state = BridgeState::Draining;
                    return Action::Exit;
                }
                match event {
                    Event::FromMiddleware { topic, message } => match Topic::ros_topic(
                        topic.as_str(),
                    ) {
                        None => Action::Drop { error: BridgeError::UnknownTopic },
                        Some(t) => Action::PublishToBroker {
                            topic: t,
                            payload: message.serialize(),
                            qos: MQTT_QOS,
                        },
                    },
                    Event::FromBroker { topic, payload } => match Topic::mqtt_topic(
                        topic.as_str(),
                    ) {
                        None => Action::Drop { error: BridgeError::UnknownTopic },
                        Some(t) => match MQTT2ROSData::decode(payload.as_ref()) {
                            Ok(message) => Action::PublishToMiddleware { topic: t, message },
                            Err(e) => Action::Drop { error: BridgeError::from_validation(e) },
                        },
                    },
                    Event::Tick => Action::Spin { timeout_ms: SPIN_TIMEOUT_MS },
                    Event::Delivered => {
                        self.failures = 0;
                        Action::Idle
                    },
                    Event::TransportFailed { recoverable } => {
                        if recoverable && self.failures < self.retry_limit {
                            self.failures = self.failures + 1;
                            Action::Drop { error: BridgeError::TransportError }
                        } else {
                            self.state = BridgeState::Draining;
                            self.fault = Some(BridgeError::TransportError);
                            Action::Escalate
                        }
                    },
                    Event::Acquired { .. } => Action::Idle,
                    Event::Released => Action::Idle,
                }
            },
            BridgeState::Draining => match event {
                Event::Released => {
                    self.state = BridgeState::Stopped;
                    Action::Idle
                },
                _ => Action::Idle,
            },
            BridgeState::Stopped => Action::Idle,
        }
    }
}

/// The two sides of a bridge.
#[derive(Clone, Copy, PartialEq, Eq, Debug, Structural)]
pub enum Side {
    Middleware,
    Broker,
}

/// A bridge at run time: its two pumps and the signal they share. The
/// connections themselves belong to whoever performs the actions.
#[derive(Clone, Copy, PartialEq, Eq, Debug, Structural)]
pub struct BridgeSession {
    pub middleware: Pump,
    pub broker: Pump,
    pub shutdown: ShutdownCoordinator,
}

/// The state of a bridge with pumps in the states `a` and `b`: stopped when
/// both are, starting while either is, running while both are, and draining
/// in between.
pub open spec fn joint_state(a: BridgeState, b: BridgeState) -> BridgeState {
    if a is Stopped && b is Stopped {
        BridgeState::Stopped
    } else if a is Starting || b is Starting {
        BridgeState::Starting
    } else if a is Running && b is Running {
        BridgeState::Running
    } else {
        BridgeState::Draining
    }
}

/// One step of a session: the pump on `side` takes the event under the
/// session's signal, and an escalation raises that signal at once.
pub open spec fn session_step_of(s: BridgeSession, side: Side, event: EventContent) -> (
    BridgeSession,
    ActionContent,
) {
    let (pump, action) = step_of(
        match side {
            Side::Middleware => s.middleware,
            Side::Broker => s.broker,
        },
        s.shutdown@,
        event,
    );
    let shutdown = if action is Escalate {
        s.shutdown.raised()
    } else {
        s.shutdown
    };
    match side {
        Side::Middleware => (BridgeSession { middleware: pump, shutdown, ..s }, action),
        Side::Broker => (BridgeSession { broker: pump, shutdown, ..s }, action),
    }
}

/// A session after its signal has been raised.
pub open spec fn triggered_of(s: BridgeSession) -> BridgeSession {
    BridgeSession { shutdown: s.shutdown.raised(), ..s }
}

/// Whether a pump has left its loop.
pub open spec fn has_left(state: BridgeState) -> bool {
    state is Draining || state is Stopped
}

/// The release of a session's connections. Nothing is released before both
/// pumps have left their loops; then both are told, and the session is
/// stopped.
pub open spec fn release_of(s: BridgeSession) -> (BridgeSession, bool) {
    if has_left(s.middleware.state) && has_left(s.broker.state) {
        (
            BridgeSession {
                middleware: step_of(s.middleware, s.shutdown@, EventContent::Released).0,
                broker: step_of(s.broker, s.shutdown@, EventContent::Released).0,
                ..s
            },
            true,
        )
    } else {
        (s, false)
    }
}

/// The exit code of the process for a session: zero unless a pump gave up.
pub open spec fn exit_code_of(s: BridgeSession) -> i32 {
    if s.middleware.fault is None && s.broker.fault is None {
        0
    } else {
        1
    }
}

impl BridgeSession {
    /// A session that has not started: both pumps starting, the signal down.
    pub fn new(retry_limit: u32) -> (session: BridgeSession)
        ensures
            session.middleware == Pump::new_pump(retry_limit),
            session.broker == Pump::new_pump(retry_limit),
            !session.shutdown@,
    {
        BridgeSession {
            middleware: Pump::new(retry_limit),
            broker: Pump::new(retry_limit),
            shutdown: ShutdownCoordinator::new(),
        }
    }

    /// Where the bridge as a whole stands.
    pub fn state(&self) -> (state: BridgeState)
        ensures
            state == joint_state(self.middleware.state, self.broker.state),
    {
        let a = self.middleware.state;
        let b = self.broker.state;
        if a == BridgeState::Stopped && b == BridgeState::Stopped {
            BridgeState::Stopped
        } else if a == BridgeState::Starting || b == BridgeState::Starting {
            BridgeState::Starting
        } else if a == BridgeState::Running && b == BridgeState::Running {
            BridgeState::Running
        } else {
            BridgeState::Draining
        }
    }

    /// Raises the shared signal. Raising it again changes nothing.
    pub fn trigger(&mut self)
        ensures
            *final(self) == triggered_of(*old(self)),
            final(self).shutdown@,
    {
        self.shutdown.trigger();
    }

    /// Hands one event to the pump on `side`.
    pub fn step(&mut self, side: Side, event: Event) -> (action: Action)
        ensures
            (*final(self), action@) == session_step_of(*old(self), side, event@),
    {
        let signal = self.shutdown;
        let action = match side {
            Side::Middleware => self.middleware.step(&signal, event),
            Side::Broker => self.broker.step(&signal, event),
        };
        if let Action::Escalate = action {
            self.shutdown.trigger();
        }
        action
    }

    /// Says whether the connections may be released now, which is when both
    /// pumps have left their loops, and if so tells both pumps that they are.
    pub fn release(&mut self) -> (released: bool)
        ensures
            (*final(self), released) == release_of(*old(self)),
    {
        let middleware_left = self.middleware.state == BridgeState::Draining
            || self.middleware.state == BridgeState::Stopped;
        let broker_left = self.broker.state == BridgeState::Draining || self.broker.state
            == BridgeState::Stopped;
        if middleware_left && broker_left {
            let signal = self.shutdown;
            let _ = self.middleware.step(&signal, Event::Released);
            let _ = self.broker.step(&signal, Event::Released);
            true
        } else {
            false
        }
    }

    /// The exit code of the process: zero after a clean end, not zero where
    /// a connection could not be acquired or a transport failed for good.
    pub fn exit_code(&self) -> (code: i32)
        ensures
            code == exit_code_of(*self),
    {
        if self.middleware.fault.is_none() && self.broker.fault.is_none() {
            0
        } else {
            1
        }
    }
}

/// The actions of a pump that takes `events` one after the other.
pub open spec fn actions_of(pump: Pump, triggered: bool, events: Seq<EventContent>) -> Seq<
    ActionContent,
>
    decreases events.len(),
{
    if events.len() == 0 {
        Seq::empty()
    } else {
        let (next, action) = step_of(pump, triggered, events[0]);
        seq![action] + actions_of(next, triggered, events.drop_first())
    }
}

/// Once the signal is raised, no step forwards a message or spins the
/// middleware, whatever the event, and the pump is left draining or stopped.
pub proof fn lemma_no_forwarding_after_trigger(pump: Pump, event: EventContent)
    ensures
        !step_of(pump, true, event).1.forwards(),
        !(step_of(pump, true, event).1 is Spin),
        step_of(pump, true, event).0.state is Draining || step_of(pump, true, event).0.state
            is Stopped,
{
}

/// Once the signal is raised, a pump is stopped after two steps: one that
/// sees the signal, whatever the event, and one that tells it of the release.
pub proof fn lemma_stopped_within_two_steps(pump: Pump, event: EventContent)
    ensures
        step_of(step_of(pump, true, event).0, true, EventContent::Released).0.state is Stopped,
{
}

/// A pump that has left its loop forwards nothing and never runs again, and
/// a stopped pump stays as it is.
pub proof fn lemma_draining_is_final(pump: Pump, triggered: bool, event: EventContent)
    requires
        has_left(pump.state),
    ensures
        step_of(pump, triggered, event).1 is Idle,
        has_left(step_of(pump, triggered, event).0.state),
        pump.state is Stopped ==> step_of(pump, triggered, event).0 == pump,
{
}

/// Nothing is released while a pump is still in its loop: the release
/// changes nothing then, and says so.
pub proof fn lemma_no_release_before_both_left(s: BridgeSession)
    requires
        !has_left(s.middleware.state) || !has_left(s.broker.state),
    ensures
        release_of(s) == (s, false),
{
}

/// After `trigger`, each pump leaves its loop at the next event, whatever it
/// is, without forwarding it; the connections can then be released, and the
/// session is stopped.
pub proof fn lemma_session_stops_after_trigger(
    s: BridgeSession,
    first: EventContent,
    second: EventContent,
)
    ensures
        ({
            let s0 = triggered_of(s);
            let s1 = session_step_of(s0, Side::Middleware, first).0;
            let s2 = session_step_of(s1, Side::Broker, second).0;
            let s3 = release_of(s2).0;
            &&& !session_step_of(s0, Side::Middleware, first).1.forwards()
            &&& !session_step_of(s1, Side::Broker, second).1.forwards()
            &&& release_of(s2).1
            &&& joint_state(s3.middleware.state, s3.broker.state) is Stopped
            &&& exit_code_of(s3) == exit_code_of(s2)
        }),
{
    crate::shutdown::lemma_trigger_idempotent(s.shutdown);
}

/// A payload that is not accepted leaves a running pump as it was: the
/// payload is dropped, and whatever comes next is handled as if the payload
/// had never come.
pub proof fn lemma_rejected_payload_changes_nothing(
    pump: Pump,
    topic: Seq<char>,
    payload: Option<Document>,
    rest: Seq<EventContent>,
)
    requires
        pump.state is Running,
        decoded_payload(payload) is Err,
    ensures
        step_of(pump, false, EventContent::FromBroker { topic, payload }).0 == pump,
        step_of(pump, false, EventContent::FromBroker { topic, payload }).1 is Drop,
        actions_of(pump, false, seq![EventContent::FromBroker { topic, payload }] + rest) == seq![
            step_of(pump, false, EventContent::FromBroker { topic, payload }).1,
        ] + actions_of(pump, false, rest),
{
    let bad = EventContent::FromBroker { topic, payload };
    let events = seq![bad] + rest;
    assert(events[0] == bad);
    assert(events.drop_first() =~= rest);
}

/// A pump answers each event with exactly one action, in the order of the
/// events.
pub proof fn lemma_one_action_per_event(pump: Pump, triggered: bool, events: Seq<EventContent>)
    ensures
        actions_of(pump, triggered, events).len() == events.len(),
    decreases events.len(),
{
    if events.len() > 0 {
        lemma_one_action_per_event(
            step_of(pump, triggered, events[0]).0,
            triggered,
            events.drop_first(),
        );
    }
}

/// Nothing is forwarded but by a running pump under a lowered signal, and
/// nothing that was not validated: a document goes to the broker only as the
/// encoding of the message that came, under the broker name of the entry
/// found for the message's topic, at least once; a message goes to the
/// middleware only as the decoding of the payload that came, which it passed
/// in full, under the middleware name of the entry found for its topic.
pub proof fn lemma_forwarded_is_validated(pump: Pump, triggered: bool, event: EventContent)
    ensures
        match step_of(pump, triggered, event).1 {
            ActionContent::PublishToBroker { topic, payload, qos } => {
                &&& pump.state is Running
                &&& !triggered
                &&& event is FromMiddleware
                &&& registry().contains(topic)
                &&& topic.ros_name == event->FromMiddleware_topic
                &&& payload == encoded(event->FromMiddleware_message)
                &&& qos == MQTT_QOS
            },
            ActionContent::PublishToMiddleware { topic, message } => {
                &&& pump.state is Running
                &&& !triggered
                &&& event is FromBroker
                &&& registry().contains(topic)
                &&& topic.mqtt_name == event->FromBroker_topic
                &&& event->FromBroker_payload is Some
                &&& decoded(event->FromBroker_payload->Some_0) == Ok::<
                    InboundMessage,
                    ValidationError,
                >(message)
                &&& well_formed(message->SpinCommands_0)
            },
            _ => true,
        },
{
    match event {
        EventContent::FromMiddleware { topic, message } => {
            lemma_found_is_entry(registry(), topic);
        },
        EventContent::FromBroker { topic, payload } => {
            lemma_found_is_entry(registry(), topic);
            if payload is Some && decoded(payload->Some_0) is Ok {
                lemma_accepted_is_exact(payload->Some_0);
            }
        },
        _ => {},
    }
}

/// A message, a payload or a tick leaves a running pump as it was, whether
/// it is forwarded or dropped: no failure to resolve, to decode or to
/// convert stops the pump or counts against it.
pub proof fn lemma_messages_leave_pump_unchanged(pump: Pump, event: EventContent)
    requires
        pump.state is Running,
        event is FromMiddleware || event is FromBroker || event is Tick,
    ensures
        step_of(pump, false, event).0 == pump,
{
}

} // verus!

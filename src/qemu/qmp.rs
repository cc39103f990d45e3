//! The VM control protocol: the messages exchanged with the monitor, their
//! encoding, and the state of one control connection.
use vstd::prelude::*;

use crate::error::{Error, ErrorKind};
use crate::text::{decimal, decimal_of, json_string, json_string_of, same_text};
use crate::{Event, EventKind, Key, Status};

verus! {

/// Version announced by the monitor in its greeting
#[derive(Copy, Clone, Debug, PartialEq, Eq, Structural)]
pub struct QemuVersion {
    pub major: usize,
    pub minor: usize,
    pub micro: usize,
}

/// Kinds of key encoding
#[derive(Copy, Clone, Debug, PartialEq, Eq, Structural)]
pub enum KeyValueKind {
    Qcode,
    Number,
}

/// One key of a send-key command, as the protocol names it
#[derive(Clone, Debug)]
pub enum KeyValue {
    Qcode { data: String },
    Number { data: usize },
}

/// The protocol encoding of `key`.
pub open spec fn is_key_value_of(value: KeyValue, key: Key) -> bool {
    match key {
        Key::Enter => value matches KeyValue::Qcode { data } && data@ == "ret"@,
    }
}

/// JSON text of one key.
pub open spec fn key_value_json(value: KeyValue) -> Seq<char> {
    match value {
        KeyValue::Qcode { data } => "{\"type\":\"qcode\",\"data\":"@ + json_string_of(data@) + "}"@,
        KeyValue::Number { data } => "{\"type\":\"number\",\"data\":"@ + decimal_of(data as nat)
            + "}"@,
    }
}

/// JSON text of a list of keys, separated by commas.
pub open spec fn keys_json(keys: Seq<KeyValue>) -> Seq<char>
    decreases keys.len(),
{
    if keys.len() == 0 {
        Seq::empty()
    } else if keys.len() == 1 {
        key_value_json(keys[0])
    } else {
        keys_json(keys.drop_last()) + ","@ + key_value_json(keys.last())
    }
}

impl KeyValue {
    /// The protocol encoding of a key.
    pub fn from_key(key: Key) -> (r: KeyValue)
        ensures
            is_key_value_of(r, key),
    {
        match key {
            Key::Enter => KeyValue::Qcode { data: "ret".to_string() },
        }
    }

    /// JSON text of this key.
    pub fn to_json(&self) -> (r: String)
        ensures
            r@ == key_value_json(*self),
    {
        match self {
            KeyValue::Qcode { data } => {
                let mut r = "{\"type\":\"qcode\",\"data\":".to_string();
                let quoted = json_string(data.as_str());
                r.append(quoted.as_str());
                r.append("}");
                r
            },
            KeyValue::Number { data } => {
                let mut r = "{\"type\":\"number\",\"data\":".to_string();
                let digits = decimal(*data);
                r.append(digits.as_str());
                r.append("}");
                r
            },
        }
    }
}

/// Arguments of a send-key command
#[derive(Clone, Debug)]
pub struct KeyCommand {
    pub keys: Vec<KeyValue>,
}

impl KeyCommand {
    /// A command that presses `keys` in order.
    pub fn from_keys(keys: &[Key]) -> (r: KeyCommand)
        ensures
            r.keys@.len() == keys@.len(),
            forall|i: int| 0 <= i < keys@.len() ==> is_key_value_of(#[trigger] r.keys@[i], keys@[i]),
    {
        let mut values: Vec<KeyValue> = Vec::new();
        let mut i: usize = 0;
        while i < keys.len()
            invariant
                i <= keys@.len(),
                values@.len() == i,
                forall|j: int| 0 <= j < i ==> is_key_value_of(#[trigger] values@[j], keys@[j]),
            decreases keys@.len() - i,
        {
            values.push(KeyValue::from_key(keys[i]));
            i += 1;
        }
        KeyCommand { keys: values }
    }

    /// JSON text of the key list, without the brackets.
    pub fn keys_json(&self) -> (r: String)
        ensures
            r@ == keys_json(self.keys@),
    {
        let mut r = String::new();
        let mut i: usize = 0;
        while i < self.keys.len()
            invariant
                i <= self.keys@.len(),
                r@ == keys_json(self.keys@.subrange(0, i as int)),
            decreases self.keys@.len() - i,
        {
            let item = self.keys[i].to_json();
            let ghost before = self.keys@.subrange(0, i as int);
            let ghost after = self.keys@.subrange(0, i + 1);
            assert(after.drop_last() =~= before);
            if i > 0 {
                r.append(",");
            } else {
                assert(r@ =~= Seq::<char>::empty());
            }
            r.append(item.as_str());
            i += 1;
            assert(r@ =~= keys_json(after));
        }
        assert(self.keys@.subrange(0, self.keys@.len() as int) =~= self.keys@);
        r
    }
}

/// A command to the monitor
#[derive(Clone, Debug)]
pub enum QmpCommand {
    QmpCapabilities,
    SendKey(KeyCommand),
    QueryStatus,
    Stop,
    Cont,
    Quit,
    SystemPowerdown,
}

/// JSON text of a command.
pub open spec fn command_json(command: QmpCommand) -> Seq<char> {
    match command {
        QmpCommand::QmpCapabilities => "{\"execute\":\"qmp_capabilities\"}"@,
        QmpCommand::SendKey(keys) => "{\"execute\":\"send-key\",\"arguments\":{\"keys\":["@
            + keys_json(keys.keys@) + "]}}"@,
        QmpCommand::QueryStatus => "{\"execute\":\"query-status\"}"@,
        QmpCommand::Stop => "{\"execute\":\"stop\"}"@,
        QmpCommand::Cont => "{\"execute\":\"cont\"}"@,
        QmpCommand::Quit => "{\"execute\":\"quit\"}"@,
        QmpCommand::SystemPowerdown => "{\"execute\":\"system_powerdown\"}"@,
    }
}

/// What goes on the wire for a command: its JSON text and a line break.
pub open spec fn command_frame(command: QmpCommand) -> Seq<char> {
    command_json(command) + "\n"@
}

impl QmpCommand {
    /// JSON text of this command.
    pub fn to_json(&self) -> (r: String)
        ensures
            r@ == command_json(*self),
    {
        match self {
            QmpCommand::QmpCapabilities => "{\"execute\":\"qmp_capabilities\"}".to_string(),
            QmpCommand::SendKey(keys) => {
                let mut r = "{\"execute\":\"send-key\",\"arguments\":{\"keys\":[".to_string();
                let list = keys.keys_json();
                r.append(list.as_str());
                r.append("]}}");
                r
            },
            QmpCommand::QueryStatus => "{\"execute\":\"query-status\"}".to_string(),
            QmpCommand::Stop => "{\"execute\":\"stop\"}".to_string(),
            QmpCommand::Cont => "{\"execute\":\"cont\"}".to_string(),
            QmpCommand::Quit => "{\"execute\":\"quit\"}".to_string(),
            QmpCommand::SystemPowerdown => "{\"execute\":\"system_powerdown\"}".to_string(),
        }
    }

    /// The line that sends this command.
    pub fn to_frame(&self) -> (r: String)
        ensures
            r@ == command_frame(*self),
    {
        let mut r = self.to_json();
        r.append("\n");
        r
    }
}

/// Result of a status query
#[derive(Clone, Debug)]
pub struct QmpStatusInfo {
    /// If all vCPUs are runnable.
    pub running: bool,
    /// If vCPUs are in single step mode
    pub singlestep: bool,
    /// The run state of the system
    pub status: String,
}

/// The system status that a run state stands for, if it is a known one.
pub open spec fn status_of_run_state(state: Seq<char>) -> Option<Status> {
    if state == "running"@ {
        Some(Status::Running)
    } else if state == "shutdown"@ {
        Some(Status::Shutdown)
    } else if state == "paused"@ {
        Some(Status::Paused)
    } else if state == "save-vm"@ {
        Some(Status::Paused)
    } else {
        None
    }
}

impl QmpStatusInfo {
    /// Translates the run state into a system status; an unknown run state
    /// is a harness error.
    pub fn to_status(&self) -> (r: Result<Status, Error>)
        ensures
            status_of_run_state(self.status@) matches Some(st) ==> r == Ok::<Status, Error>(st),
            status_of_run_state(self.status@) is None ==> (r matches Err(e) && e.kind
                == ErrorKind::HarnessError && e.message@ == "Unsupported status: "@
                + self.status@),
    {
        let state = self.status.as_str();
        if same_text(state, "running") {
            Ok(Status::Running)
        } else if same_text(state, "shutdown") {
            Ok(Status::Shutdown)
        } else if same_text(state, "paused") {
            Ok(Status::Paused)
        } else if same_text(state, "save-vm") {
            Ok(Status::Paused)
        } else {
            let mut message = "Unsupported status: ".to_string();
            message.append(state);
            Err(Error::new(ErrorKind::HarnessError, message.as_str()))
        }
    }
}

/// An empty return value
#[derive(Copy, Clone, Debug)]
pub struct QmpEmptyReturn {}

/// The value returned by a successful command
#[derive(Clone, Debug)]
pub enum QmpReturn {
    StatusInfo(QmpStatusInfo),
    Empty(QmpEmptyReturn),
}

impl QmpReturn {
    /// The system status in the value returned by a status query; any other
    /// value is a harness error.
    pub fn to_status(&self) -> (r: Result<Status, Error>)
        ensures
            self matches QmpReturn::StatusInfo(info) ==> (status_of_run_state(info.status@) matches Some(
                st,
            ) ==> r == Ok::<Status, Error>(st)),
            r is Ok <==> (self matches QmpReturn::StatusInfo(info) && status_of_run_state(
                info.status@,
            ) is Some),
            r matches Err(e) ==> e.kind == ErrorKind::HarnessError,
    {
        match self {
            QmpReturn::StatusInfo(info) => info.to_status(),
            QmpReturn::Empty(_) => Err(Error::new(ErrorKind::HarnessError, "Unexpected return")),
        }
    }
}

/// Time at which the monitor emitted an event
#[derive(Copy, Clone, Debug, PartialEq, Eq, Structural)]
pub struct QmpTimestamp {
    pub seconds: u64,
    pub microseconds: u64,
}

/// Microseconds since the Unix epoch at `t`.
pub open spec fn timestamp_micros(t: QmpTimestamp) -> nat {
    t.seconds as nat * 1000000 + t.microseconds as nat
}

impl QmpTimestamp {
    /// Microseconds since the Unix epoch.
    pub fn micros(&self) -> (r: u128)
        ensures
            r as nat == timestamp_micros(*self),
    {
        let seconds = self.seconds as u128;
        assert(seconds * 1000000 <= 0xffff_ffff_ffff_ffffu128 * 1000000) by (nonlinear_arith)
            requires
                seconds <= 0xffff_ffff_ffff_ffffu128,
        ;
        seconds * 1000000 + self.microseconds as u128
    }
}

/// A message from the monitor: a command's result, or an event
#[derive(Clone, Debug)]
pub enum QmpResponse {
    Success { return_data: QmpReturn },
    Error { error: String },
    Event { timestamp: QmpTimestamp, event: String },
}

/// The kind of event that an event name stands for, if it is a known one.
pub open spec fn event_kind_of(name: Seq<char>) -> Option<EventKind> {
    if name == "POWERDOWN"@ {
        Some(EventKind::Shutdown)
    } else if name == "STOP"@ {
        Some(EventKind::Pause)
    } else if name == "RESUME"@ {
        Some(EventKind::Resume)
    } else {
        None
    }
}

/// The event that an event frame stands for; unknown names give none.
pub open spec fn event_of(timestamp: QmpTimestamp, name: Seq<char>) -> Option<Event> {
    match event_kind_of(name) {
        Some(kind) => Some(Event { kind, timestamp: timestamp_micros(timestamp) as u128 }),
        None => None,
    }
}

/// Translates an event frame into an event; unknown names give none.
pub fn create_event(timestamp: QmpTimestamp, event: &str) -> (r: Option<Event>)
    ensures
        r == event_of(timestamp, event@),
{
    let kind = if same_text(event, "POWERDOWN") {
        EventKind::Shutdown
    } else if same_text(event, "STOP") {
        EventKind::Pause
    } else if same_text(event, "RESUME") {
        EventKind::Resume
    } else {
        return None;
    };
    Some(Event { kind, timestamp: timestamp.micros() })
}

/// Where a control connection stands in its exchange with the monitor
#[derive(Copy, Clone, Debug, PartialEq, Eq, Structural)]
pub enum QmpPhase {
    /// Connected; the greeting has not arrived yet.
    Greeting,
    /// The capabilities command is sent; its acknowledgment is awaited.
    Handshake,
    /// Usable, with no command in flight.
    Ready,
    /// A command is in flight; its result is awaited.
    Waiting,
    /// The monitor refused the handshake; the connection cannot be used.
    Failed,
}

/// What the owner of a connection does with a message that arrived
#[derive(Clone, Debug)]
pub enum QmpAction {
    /// Hand the event to every subscriber, then keep waiting.
    Deliver(Event),
    /// Nothing to do for this message; keep waiting.
    Skip,
    /// The command in flight succeeded with this value.
    Complete(QmpReturn),
    /// The command in flight, or the connection, failed.
    Fail(Error),
}

/// Whether a message from the monitor is awaited in phase `p`.
pub open spec fn awaits_response(p: QmpPhase) -> bool {
    p == QmpPhase::Handshake || p == QmpPhase::Waiting
}

/// The phase after `response` arrives in phase `p`.
pub open spec fn phase_after(p: QmpPhase, response: QmpResponse) -> QmpPhase {
    if !awaits_response(p) {
        p
    } else {
        match response {
            QmpResponse::Success { .. } => QmpPhase::Ready,
            QmpResponse::Error { .. } => if p == QmpPhase::Handshake {
                QmpPhase::Failed
            } else {
                QmpPhase::Ready
            },
            QmpResponse::Event { .. } => p,
        }
    }
}

/// The event handed to subscribers when `response` arrives in phase `p`.
pub open spec fn delivery(p: QmpPhase, response: QmpResponse) -> Option<Event> {
    if awaits_response(p) {
        match response {
            QmpResponse::Event { timestamp, event } => event_of(timestamp, event@),
            _ => None,
        }
    } else {
        None
    }
}

/// State of one control connection: its phase and the version that the
/// monitor announced.
#[derive(Copy, Clone, Debug)]
pub struct QmpSession {
    phase: QmpPhase,
    version: Option<QemuVersion>,
}

impl QmpSession {
    pub closed spec fn spec_phase(&self) -> QmpPhase {
        self.phase
    }

    pub closed spec fn spec_version(&self) -> Option<QemuVersion> {
        self.version
    }

    /// A connection whose greeting has not arrived yet.
    pub fn new() -> (r: QmpSession)
        ensures
            r.spec_phase() == QmpPhase::Greeting,
            r.spec_version() is None,
    {
        QmpSession { phase: QmpPhase::Greeting, version: None }
    }

    pub fn phase(&self) -> (r: QmpPhase)
        ensures
            r == self.spec_phase(),
    {
        self.phase
    }

    /// The version that the monitor announced, once it has.
    pub fn version(&self) -> (r: Option<QemuVersion>)
        ensures
            r == self.spec_version(),
    {
        self.version
    }

    /// Takes the greeting: keeps its version and gives the line that sends
    /// the capabilities command. Outside the greeting phase this is a harness
    /// error and nothing changes.
    pub fn greet(&mut self, version: QemuVersion) -> (r: Result<String, Error>)
        ensures
            old(self).spec_phase() == QmpPhase::Greeting ==> (r matches Ok(line) && line@
                == command_frame(QmpCommand::QmpCapabilities) && final(self).spec_phase()
                == QmpPhase::Handshake && final(self).spec_version() == Some(version)),
            old(self).spec_phase() != QmpPhase::Greeting ==> (r matches Err(e) && e.kind
                == ErrorKind::HarnessError && *final(self) == *old(self)),
    {
        if self.phase != QmpPhase::Greeting {
            return Err(Error::new(ErrorKind::HarnessError, "Greeting already received"));
        }
        self.phase = QmpPhase::Handshake;
        self.version = Some(version);
        Ok(QmpCommand::QmpCapabilities.to_frame())
    }

    /// Starts a command: gives the line that sends it. Only one command is in
    /// flight at a time: outside the ready phase this is a harness error and
    /// nothing changes.
    pub fn begin(&mut self, command: &QmpCommand) -> (r: Result<String, Error>)
        ensures
            old(self).spec_phase() == QmpPhase::Ready ==> (r matches Ok(line) && line@
                == command_frame(*command) && final(self).spec_phase() == QmpPhase::Waiting),
            old(self).spec_phase() != QmpPhase::Ready ==> (r matches Err(e) && e.kind
                == ErrorKind::HarnessError && final(self).spec_phase() == old(
                self,
            ).spec_phase()),
            final(self).spec_version() == old(self).spec_version(),
    {
        if self.phase != QmpPhase::Ready {
            return Err(Error::new(ErrorKind::HarnessError, "Connection not ready for a command"));
        }
        self.phase = QmpPhase::Waiting;
        Ok(command.to_frame())
    }

    /// Takes the next message from the monitor. A result or an error ends the
    /// command in flight; an event frame is handed on (unknown names are
    /// skipped) and the wait goes on. A message that nothing awaits is a
    /// harness error.
    pub fn receive(&mut self, response: QmpResponse) -> (r: QmpAction)
        ensures
            final(self).spec_phase() == phase_after(old(self).spec_phase(), response),
            final(self).spec_version() == old(self).spec_version(),
            delivery(old(self).spec_phase(), response) matches Some(ev) ==> r == QmpAction::Deliver(
                ev,
            ),
            r matches QmpAction::Deliver(ev) ==> delivery(old(self).spec_phase(), response) == Some(
                ev,
            ),
            !awaits_response(old(self).spec_phase()) ==> (r matches QmpAction::Fail(e) && e.kind
                == ErrorKind::HarnessError),
            awaits_response(old(self).spec_phase()) ==> match response {
                QmpResponse::Success { return_data } => r == QmpAction::Complete(return_data),
                QmpResponse::Error { error } => r matches QmpAction::Fail(e) && e.kind
                    == ErrorKind::HarnessError && e.message@ == error@,
                QmpResponse::Event { timestamp, event } => match event_of(timestamp, event@) {
                    Some(ev) => r == QmpAction::Deliver(ev),
                    None => r is Skip,
                },
            },
    {
        if self.phase != QmpPhase::Handshake && self.phase != QmpPhase::Waiting {
            return QmpAction::Fail(Error::new(ErrorKind::HarnessError, "Unexpected message"));
        }
        match response {
            QmpResponse::Success { return_data } => {
                self.phase = QmpPhase::Ready;
                QmpAction::Complete(return_data)
            },
            QmpResponse::Error { error } => {
                self.phase = if self.phase == QmpPhase::Handshake {
                    QmpPhase::Failed
                } else {
                    QmpPhase::Ready
                };
                QmpAction::Fail(Error::new(ErrorKind::HarnessError, error.as_str()))
            },
            QmpResponse::Event { timestamp, event } => match create_event(timestamp, event.as_str()) {
                Some(ev) => QmpAction::Deliver(ev),
                None => QmpAction::Skip,
            },
        }
    }

    /// The channel failed while a message was awaited (a broken or malformed
    /// line): the command in flight is given up, and a connection still in
    /// its handshake becomes unusable.
    pub fn abort(&mut self)
        ensures
            final(self).spec_version() == old(self).spec_version(),
            final(self).spec_phase() == match old(self).spec_phase() {
                QmpPhase::Waiting => QmpPhase::Ready,
                QmpPhase::Handshake => QmpPhase::Failed,
                p => p,
            },
    {
        if self.phase == QmpPhase::Waiting {
            self.phase = QmpPhase::Ready;
        } else if self.phase == QmpPhase::Handshake {
            self.phase = QmpPhase::Failed;
        }
    }
}

/// Events handed to subscribers while `responses` arrive one after another,
/// starting in phase `p`.
pub open spec fn deliveries(p: QmpPhase, responses: Seq<QmpResponse>) -> Seq<Event>
    decreases responses.len(),
{
    if responses.len() == 0 {
        Seq::empty()
    } else {
        let first = match delivery(p, responses[0]) {
            Some(e) => seq![e],
            None => Seq::empty(),
        };
        first + deliveries(phase_after(p, responses[0]), responses.drop_first())
    }
}

/// Events that the recognized event frames among `responses` stand for, in
/// order.
pub open spec fn frame_events(responses: Seq<QmpResponse>) -> Seq<Event>
    decreases responses.len(),
{
    if responses.len() == 0 {
        Seq::empty()
    } else {
        let first = match responses[0] {
            QmpResponse::Event { timestamp, event } => match event_of(timestamp, event@) {
                Some(e) => seq![e],
                None => Seq::empty(),
            },
            _ => Seq::empty(),
        };
        first + frame_events(responses.drop_first())
    }
}

/// While a command is in flight, every recognized event frame that arrives
/// before its result is handed to the subscribers exactly once, in the order
/// of arrival, and nothing else is: if all messages but the last are event
/// frames, the deliveries are the events of the frames.
pub proof fn lemma_events_delivered_in_order(p: QmpPhase, responses: Seq<QmpResponse>)
    requires
        awaits_response(p),
        forall|i: int| 0 <= i < responses.len() - 1 ==> #[trigger] responses[i] is Event,
    ensures
        deliveries(p, responses) == frame_events(responses),
    decreases responses.len(),
{
    if responses.len() > 0 {
        let rest = responses.drop_first();
        if responses.len() > 1 {
            assert(responses[0] is Event);
            assert forall|i: int| 0 <= i < rest.len() - 1 implies #[trigger] rest[i] is Event by {
                assert(rest[i] == responses[i + 1]);
            }
            assert(awaits_response(phase_after(p, responses[0])));
            lemma_events_delivered_in_order(phase_after(p, responses[0]), rest);
        } else {
            assert(rest.len() == 0);
            assert(deliveries(phase_after(p, responses[0]), rest) == Seq::<Event>::empty());
            assert(frame_events(rest) == Seq::<Event>::empty());
        }
        assert(deliveries(p, responses) =~= frame_events(responses));
    }
}

/// Once the command in flight has its result, the messages that follow hand
/// nothing to the subscribers.
pub proof fn lemma_nothing_delivered_when_idle(responses: Seq<QmpResponse>)
    ensures
        deliveries(QmpPhase::Ready, responses) == Seq::<Event>::empty(),
    decreases responses.len(),
{
    if responses.len() > 0 {
        lemma_nothing_delivered_when_idle(responses.drop_first());
    }
}

/// The phase after `responses` arrive one after another, starting in phase
/// `p`.
pub open spec fn phase_after_all(p: QmpPhase, responses: Seq<QmpResponse>) -> QmpPhase
    decreases responses.len(),
{
    if responses.len() == 0 {
        p
    } else {
        phase_after_all(phase_after(p, responses[0]), responses.drop_first())
    }
}

/// Deliveries over consecutive runs of messages (one command after another
/// on the same connection) are those of the first run followed by those of
/// the second: no event is lost, repeated or reordered between commands.
pub proof fn lemma_deliveries_concatenate(
    p: QmpPhase,
    first: Seq<QmpResponse>,
    second: Seq<QmpResponse>,
)
    ensures
        deliveries(p, first + second) == deliveries(p, first) + deliveries(
            phase_after_all(p, first),
            second,
        ),
    decreases first.len(),
{
    if first.len() == 0 {
        assert(first + second =~= second);
        assert(deliveries(p, first) == Seq::<Event>::empty());
        assert(Seq::<Event>::empty() + deliveries(p, second) =~= deliveries(p, second));
    } else {
        let all = first + second;
        assert(all[0] == first[0]);
        assert(all.drop_first() =~= first.drop_first() + second);
        lemma_deliveries_concatenate(phase_after(p, first[0]), first.drop_first(), second);
        let head = match delivery(p, first[0]) {
            Some(e) => seq![e],
            None => Seq::<Event>::empty(),
        };
        assert(head + (deliveries(phase_after(p, first[0]), first.drop_first()) + deliveries(
            phase_after_all(p, first),
            second,
        )) =~= (head + deliveries(phase_after(p, first[0]), first.drop_first())) + deliveries(
            phase_after_all(p, first),
            second,
        ));
    }
}

} // verus!

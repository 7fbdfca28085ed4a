//! One probe as a state machine. The machine decides; its driver performs the
//! network work that each action names and hands back the event that came of
//! it. The cancellation signal is looked at before every piece of blocking
//! work, and nowhere else.

use vstd::prelude::*;
use vstd::utf8::{decode_utf8, valid_utf8};
use crate::channel::{called_off, is_called_off, poll_signal};
use crate::error::ProbeError;
use crate::itdog::req::{initial_request, negotiated, ReqClient, ReqView};
use crate::text::{chars_of, contains, occurs, text_of};

verus! {

/// How many records wait in a probe's output channel before the probe has to
/// wait for its consumer.
pub const CHANNEL_CAPACITY: usize = 128;

/// Where a probe stands.
#[derive(Debug, Clone, Copy, PartialEq, Eq, Structural)]
pub enum Phase {
    Negotiating,
    Connecting,
    Upgrading,
    Streaming,
    Draining,
    Closed,
}

/// What the machine waits for: the work it last asked for.
#[derive(Debug, Clone, Copy, PartialEq, Eq, Structural)]
pub enum Stage {
    /// Nothing was asked for yet.
    Idle,
    /// The negotiation request is out.
    Negotiating,
    /// The connection is being opened and secured.
    Connecting,
    /// The protocol upgrade is being shaken hands on.
    Upgrading,
    /// The first message is being sent.
    Sending,
    /// A frame is being read.
    Reading,
    /// A record is being handed to the consumer.
    Delivering,
    /// The close frame is being sent.
    Draining,
    /// The end-of-stream marker is being handed to the consumer.
    Finishing,
    /// The probe is over.
    Stopped,
}

/// The kind of a frame read from the stream.
#[derive(Debug, Clone, Copy, PartialEq, Eq, Structural)]
pub enum FrameKind {
    Continuation,
    Text,
    Binary,
    Close,
    Ping,
    Pong,
}

/// What came of the work that the machine asked for.
pub enum Event {
    /// The probe is set going.
    Started,
    /// The service answered the negotiation request with this page.
    Page(String),
    /// The connection stands and is secured.
    Connected,
    /// The service accepted the protocol upgrade.
    Upgraded,
    /// The first message went out.
    Sent,
    /// A frame came in.
    Frame(FrameKind, Vec<u8>),
    /// The consumer took the record.
    Delivered,
    /// The text was no record.
    Undecodable,
    /// The consumer is gone.
    ConsumerGone,
    /// The close frame was sent, or could not be.
    CloseSent,
    /// The consumer took the end-of-stream marker.
    Finished,
    /// The network work failed.
    Failed,
}

/// What the driver is to do next.
pub enum Action {
    /// Post the negotiation request and hand back the page.
    Negotiate,
    /// Open the connection to the service and secure it.
    Connect,
    /// Perform the protocol upgrade.
    Upgrade,
    /// Send this text as one frame.
    Send(String),
    /// Read the next frame.
    Read,
    /// Decode this text as a record and hand it to the consumer, waiting
    /// while the consumer's queue is full.
    Deliver(String),
    /// Send a close frame; whether it goes out does not matter.
    Close,
    /// Hand the end-of-stream marker to the consumer.
    Finish,
    /// Stop: this is the probe's outcome.
    Stop(Result<(), ProbeError>),
}

/// An event as plain values.
pub enum EventView {
    Started,
    Page(Seq<char>),
    Connected,
    Upgraded,
    Sent,
    Frame(FrameKind, Seq<u8>),
    Delivered,
    Undecodable,
    ConsumerGone,
    CloseSent,
    Finished,
    Failed,
}

/// An action as plain values.
pub enum ActionView {
    Negotiate,
    Connect,
    Upgrade,
    Send(Seq<char>),
    Read,
    Deliver(Seq<char>),
    Close,
    Finish,
    Stop(Result<(), ProbeError>),
}

impl View for Event {
    type V = EventView;

    open spec fn view(&self) -> EventView {
        match self {
            Event::Started => EventView::Started,
            Event::Page(html) => EventView::Page(html@),
            Event::Connected => EventView::Connected,
            Event::Upgraded => EventView::Upgraded,
            Event::Sent => EventView::Sent,
            Event::Frame(kind, bytes) => EventView::Frame(*kind, bytes@),
            Event::Delivered => EventView::Delivered,
            Event::Undecodable => EventView::Undecodable,
            Event::ConsumerGone => EventView::ConsumerGone,
            Event::CloseSent => EventView::CloseSent,
            Event::Finished => EventView::Finished,
            Event::Failed => EventView::Failed,
        }
    }
}

impl View for Action {
    type V = ActionView;

    open spec fn view(&self) -> ActionView {
        match self {
            Action::Negotiate => ActionView::Negotiate,
            Action::Connect => ActionView::Connect,
            Action::Upgrade => ActionView::Upgrade,
            Action::Send(text) => ActionView::Send(text@),
            Action::Read => ActionView::Read,
            Action::Deliver(text) => ActionView::Deliver(text@),
            Action::Close => ActionView::Close,
            Action::Finish => ActionView::Finish,
            Action::Stop(outcome) => ActionView::Stop(*outcome),
        }
    }
}

/// A probe's state as plain values.
pub struct ClientState {
    /// The negotiation request.
    pub req: ReqView,
    /// What the machine waits for.
    pub stage: Stage,
    /// The first message of the stream, once negotiated.
    pub payload: Seq<char>,
    /// Why the probe failed, if it did.
    pub failure: Option<ProbeError>,
}

/// The text that marks the last frame of a stream.
pub open spec fn finished_marker() -> Seq<char> {
    "\"type\":\"finished\""@
}

/// The state of a probe that nothing was asked of yet.
pub open spec fn fresh(key: Seq<char>, host: Seq<char>) -> ClientState {
    ClientState {
        req: initial_request(key, host),
        stage: Stage::Idle,
        payload: Seq::empty(),
        failure: None,
    }
}

/// The phase that a stage belongs to.
pub open spec fn phase_of(stage: Stage) -> Phase {
    match stage {
        Stage::Idle | Stage::Negotiating => Phase::Negotiating,
        Stage::Connecting => Phase::Connecting,
        Stage::Upgrading => Phase::Upgrading,
        Stage::Sending | Stage::Reading | Stage::Delivering => Phase::Streaming,
        Stage::Draining => Phase::Draining,
        Stage::Finishing | Stage::Stopped => Phase::Closed,
    }
}

/// `event` is an answer to what the machine waits for at `stage`.
pub open spec fn answers(stage: Stage, event: EventView) -> bool {
    match stage {
        Stage::Idle => event is Started,
        Stage::Negotiating => event is Page || event is Failed,
        Stage::Connecting => event is Connected || event is Failed,
        Stage::Upgrading => event is Upgraded || event is Failed,
        Stage::Sending => event is Sent || event is Failed,
        Stage::Reading => event is Frame || event is Failed,
        Stage::Delivering => event is Delivered || event is Undecodable || event is ConsumerGone,
        Stage::Draining => event is CloseSent || event is Failed,
        Stage::Finishing => event is Finished || event is ConsumerGone,
        Stage::Stopped => false,
    }
}

/// The probe's outcome, given why it failed, if it did.
pub open spec fn outcome_of(failure: Option<ProbeError>) -> Result<(), ProbeError> {
    match failure {
        Some(e) => Err(e),
        None => Ok(()),
    }
}

/// The probe closes: the end-of-stream marker is next.
pub open spec fn close(s: ClientState, failure: Option<ProbeError>) -> (ClientState, ActionView) {
    (ClientState { stage: Stage::Finishing, failure: failure, ..s }, ActionView::Finish)
}

/// The probe goes on to blocking work, unless it was cancelled: then it
/// closes, without an error.
pub open spec fn proceed(s: ClientState, cancelled: bool, stage: Stage, action: ActionView) -> (
    ClientState,
    ActionView,
) {
    if cancelled {
        close(s, None)
    } else {
        (ClientState { stage: stage, ..s }, action)
    }
}

/// The probe drains: the close frame is next.
pub open spec fn drain(s: ClientState) -> (ClientState, ActionView) {
    (ClientState { stage: Stage::Draining, ..s }, ActionView::Close)
}

/// What a text frame leads to: the last frame drains the probe, any other
/// text is a record to deliver, and bytes that are no text fail the probe.
pub open spec fn on_text(s: ClientState, bytes: Seq<u8>) -> (ClientState, ActionView) {
    if !valid_utf8(bytes) {
        close(s, Some(ProbeError::Decode))
    } else if occurs(decode_utf8(bytes), finished_marker()) {
        drain(s)
    } else {
        (ClientState { stage: Stage::Delivering, ..s }, ActionView::Deliver(decode_utf8(bytes)))
    }
}

/// Whether the machine looks at the cancellation signal when `event` meets
/// `stage`: it does wherever blocking work may come next.
pub open spec fn polls(stage: Stage, event: EventView) -> bool {
    match (stage, event) {
        (Stage::Idle, EventView::Started) => true,
        (Stage::Negotiating, EventView::Page(_)) => true,
        (Stage::Connecting, EventView::Connected) => true,
        (Stage::Upgrading, EventView::Upgraded) => true,
        (Stage::Sending, EventView::Sent) => true,
        (Stage::Reading, EventView::Frame(kind, _)) => kind != FrameKind::Text && kind
            != FrameKind::Close,
        (Stage::Delivering, EventView::Delivered) => true,
        _ => false,
    }
}

/// The next state and the action that `event` leads to from `s`, where
/// `cancelled` says whether the cancellation signal was found set. It is
/// meant for an event that answers `s.stage`; any other leaves `s` as it is.
pub open spec fn transition(s: ClientState, event: EventView, cancelled: bool) -> (
    ClientState,
    ActionView,
) {
    match (s.stage, event) {
        (Stage::Idle, EventView::Started) => proceed(
            s,
            cancelled,
            Stage::Negotiating,
            ActionView::Negotiate,
        ),
        (Stage::Negotiating, EventView::Page(html)) => match negotiated(s.req, html) {
            Err(e) => close(s, Some(e)),
            Ok(msg) => proceed(
                ClientState { payload: msg, ..s },
                cancelled,
                Stage::Connecting,
                ActionView::Connect,
            ),
        },
        (Stage::Negotiating, EventView::Failed) => close(s, Some(ProbeError::Transport)),
        (Stage::Connecting, EventView::Connected) => proceed(
            s,
            cancelled,
            Stage::Upgrading,
            ActionView::Upgrade,
        ),
        (Stage::Connecting, EventView::Failed) => close(s, Some(ProbeError::Transport)),
        (Stage::Upgrading, EventView::Upgraded) => proceed(
            s,
            cancelled,
            Stage::Sending,
            ActionView::Send(s.payload),
        ),
        (Stage::Upgrading, EventView::Failed) => close(s, Some(ProbeError::Handshake)),
        (Stage::Sending, EventView::Sent) => proceed(s, cancelled, Stage::Reading, ActionView::Read),
        (Stage::Sending, EventView::Failed) => close(s, Some(ProbeError::Transport)),
        (Stage::Reading, EventView::Frame(kind, bytes)) => match kind {
            FrameKind::Text => on_text(s, bytes),
            FrameKind::Close => drain(s),
            _ => proceed(s, cancelled, Stage::Reading, ActionView::Read),
        },
        (Stage::Reading, EventView::Failed) => close(s, Some(ProbeError::Transport)),
        (Stage::Delivering, EventView::Delivered) => proceed(
            s,
            cancelled,
            Stage::Reading,
            ActionView::Read,
        ),
        (Stage::Delivering, EventView::Undecodable) => close(s, Some(ProbeError::Decode)),
        (Stage::Delivering, EventView::ConsumerGone) => (
            ClientState { stage: Stage::Stopped, failure: Some(ProbeError::ChannelClosed), ..s },
            ActionView::Stop(Err(ProbeError::ChannelClosed)),
        ),
        (Stage::Draining, EventView::CloseSent) => close(s, s.failure),
        (Stage::Draining, EventView::Failed) => close(s, s.failure),
        (Stage::Finishing, EventView::Finished) => (
            ClientState { stage: Stage::Stopped, ..s },
            ActionView::Stop(outcome_of(s.failure)),
        ),
        (Stage::Finishing, EventView::ConsumerGone) => {
            let failure = match s.failure {
                Some(e) => e,
                None => ProbeError::ChannelClosed,
            };
            (
                ClientState { stage: Stage::Stopped, failure: Some(failure), ..s },
                ActionView::Stop(Err(failure)),
            )
        },
        _ => (s, ActionView::Stop(outcome_of(s.failure))),
    }
}

/// One probe of the measurement service.
#[derive(Debug)]
pub struct ItdogClient {
    req: ReqClient,
    cancell: tokio::sync::oneshot::Receiver<bool>,
    stage: Stage,
    payload: String,
    failure: Option<ProbeError>,
}

impl View for ItdogClient {
    type V = ClientState;

    closed spec fn view(&self) -> ClientState {
        ClientState {
            req: self.req@,
            stage: self.stage,
            payload: self.payload@,
            failure: self.failure,
        }
    }
}

impl ItdogClient {
    /// A probe of `host` whose token is derived with `key`, and which
    /// `cancell` can call off.
    pub fn new(key: &str, host: &str, cancell: tokio::sync::oneshot::Receiver<bool>) -> (ret: Self)
        ensures
            ret@ == fresh(key@, host@),
    {
        Self {
            req: ReqClient::new(key, host),
            cancell,
            stage: Stage::Idle,
            payload: String::new(),
            failure: None,
        }
    }

    /// The negotiation request of this probe.
    pub fn request(&self) -> (ret: &ReqClient)
        ensures
            ret@ == self@.req,
    {
        &self.req
    }

    /// What the machine waits for.
    pub fn stage(&self) -> (ret: Stage)
        ensures
            ret == self@.stage,
    {
        self.stage
    }

    /// Where the probe stands.
    pub fn phase(&self) -> (ret: Phase)
        ensures
            ret == phase_of(self@.stage),
    {
        match self.stage {
            Stage::Idle | Stage::Negotiating => Phase::Negotiating,
            Stage::Connecting => Phase::Connecting,
            Stage::Upgrading => Phase::Upgrading,
            Stage::Sending | Stage::Reading | Stage::Delivering => Phase::Streaming,
            Stage::Draining => Phase::Draining,
            Stage::Finishing | Stage::Stopped => Phase::Closed,
        }
    }

    /// Why the probe failed, if it did.
    pub fn failure(&self) -> (ret: Option<ProbeError>)
        ensures
            ret == self@.failure,
    {
        self.failure
    }

    /// Whether `event` is an answer to what the machine waits for.
    pub fn awaits(&self, event: &Event) -> (ret: bool)
        ensures
            ret == answers(self@.stage, event@),
    {
        match self.stage {
            Stage::Idle => matches!(event, Event::Started),
            Stage::Negotiating => matches!(event, Event::Page(_) | Event::Failed),
            Stage::Connecting => matches!(event, Event::Connected | Event::Failed),
            Stage::Upgrading => matches!(event, Event::Upgraded | Event::Failed),
            Stage::Sending => matches!(event, Event::Sent | Event::Failed),
            Stage::Reading => matches!(event, Event::Frame(_, _) | Event::Failed),
            Stage::Delivering => matches!(
                event,
                Event::Delivered | Event::Undecodable | Event::ConsumerGone
            ),
            Stage::Draining => matches!(event, Event::CloseSent | Event::Failed),
            Stage::Finishing => matches!(event, Event::Finished | Event::ConsumerGone),
            Stage::Stopped => false,
        }
    }

    /// Whether the cancellation signal is looked at when `event` comes in.
    pub fn consults(&self, event: &Event) -> (ret: bool)
        ensures
            ret == polls(self@.stage, event@),
    {
        match (self.stage, event) {
            (Stage::Idle, Event::Started) => true,
            (Stage::Negotiating, Event::Page(_)) => true,
            (Stage::Connecting, Event::Connected) => true,
            (Stage::Upgrading, Event::Upgraded) => true,
            (Stage::Sending, Event::Sent) => true,
            (Stage::Reading, Event::Frame(kind, _)) => !matches!(
                kind,
                FrameKind::Text | FrameKind::Close
            ),
            (Stage::Delivering, Event::Delivered) => true,
            _ => false,
        }
    }

    fn close(&mut self, failure: Option<ProbeError>) -> (action: Action)
        ensures
            (final(self)@, action@) == close(old(self)@, failure),
    {
        self.stage = Stage::Finishing;
        self.failure = failure;
        Action::Finish
    }

    fn drain(&mut self) -> (action: Action)
        ensures
            (final(self)@, action@) == drain(old(self)@),
    {
        self.stage = Stage::Draining;
        Action::Close
    }

    fn proceed(&mut self, cancelled: bool, stage: Stage, action: Action) -> (next: Action)
        ensures
            (final(self)@, next@) == proceed(old(self)@, cancelled, stage, action@),
    {
        if cancelled {
            self.close(None)
        } else {
            self.stage = stage;
            action
        }
    }

    fn on_text(&mut self, bytes: Vec<u8>) -> (action: Action)
        ensures
            (final(self)@, action@) == on_text(old(self)@, bytes@),
    {
        match text_of(bytes) {
            None => self.close(Some(ProbeError::Decode)),
            Some(text) => {
                let chars = chars_of(text.as_str());
                let marker = chars_of("\"type\":\"finished\"");
                if contains(chars.as_slice(), marker.as_slice()) {
                    self.drain()
                } else {
                    self.stage = Stage::Delivering;
                    Action::Deliver(text)
                }
            },
        }
    }

    /// Takes `event`, which answers what the machine waits for, and says what
    /// to do next. `cancelled` is what a look at the cancellation signal
    /// found; it counts only where blocking work would come next.
    pub fn advance(&mut self, event: Event, cancelled: bool) -> (action: Action)
        requires
            answers(old(self)@.stage, event@),
        ensures
            (final(self)@, action@) == transition(old(self)@, event@, cancelled),
    {
        match event {
            Event::Started => self.proceed(cancelled, Stage::Negotiating, Action::Negotiate),
            Event::Page(html) => match self.req.req_wssocket_msg(html.as_str()) {
                Err(e) => self.close(Some(e)),
                Ok(msg) => {
                    self.payload = msg;
                    self.proceed(cancelled, Stage::Connecting, Action::Connect)
                },
            },
            Event::Connected => self.proceed(cancelled, Stage::Upgrading, Action::Upgrade),
            Event::Upgraded => {
                let payload = self.payload.clone();
                self.proceed(cancelled, Stage::Sending, Action::Send(payload))
            },
            Event::Sent => self.proceed(cancelled, Stage::Reading, Action::Read),
            Event::Frame(kind, bytes) => match kind {
                FrameKind::Text => self.on_text(bytes),
                FrameKind::Close => self.drain(),
                _ => self.proceed(cancelled, Stage::Reading, Action::Read),
            },
            Event::Delivered => self.proceed(cancelled, Stage::Reading, Action::Read),
            Event::Undecodable => self.close(Some(ProbeError::Decode)),
            Event::ConsumerGone => {
                let failure = match (self.stage, self.failure) {
                    (Stage::Finishing, Some(e)) => e,
                    _ => ProbeError::ChannelClosed,
                };
                self.stage = Stage::Stopped;
                self.failure = Some(failure);
                Action::Stop(Err(failure))
            },
            Event::CloseSent => {
                let failure = self.failure;
                self.close(failure)
            },
            Event::Finished => {
                self.stage = Stage::Stopped;
                match self.failure {
                    Some(e) => Action::Stop(Err(e)),
                    None => Action::Stop(Ok(())),
                }
            },
            Event::Failed => match self.stage {
                Stage::Upgrading => self.close(Some(ProbeError::Handshake)),
                Stage::Draining => {
                    let failure = self.failure;
                    self.close(failure)
                },
                _ => self.close(Some(ProbeError::Transport)),
            },
        }
    }

    /// Takes `event`, which answers what the machine waits for, and says what
    /// to do next. Where blocking work would come next, the cancellation
    /// signal is looked at first, once and without waiting: a probe that was
    /// called off closes instead, without an error. Nowhere else is the
    /// signal looked at, and what a look brings counts as `called_off` says.
    pub fn step(&mut self, event: Event) -> (action: Action)
        requires
            answers(old(self)@.stage, event@),
        ensures
            exists|polled: Option<bool>|
                (final(self)@, action@) == transition(
                    old(self)@,
                    event@,
                    polls(old(self)@.stage, event@) && called_off(polled),
                ),
            !polls(old(self)@.stage, event@) ==> (final(self)@, action@) == transition(
                old(self)@,
                event@,
                false,
            ),
    {
        let polled: Option<bool> = if self.consults(&event) {
            poll_signal(&mut self.cancell)
        } else {
            None
        };
        let cancelled = is_called_off(polled);
        let action = self.advance(event, cancelled);
        assert((self@, action@) == transition(
            old(self)@,
            event@,
            polls(old(self)@.stage, event@) && called_off(polled),
        ));
        action
    }
}

/// Where the machine does not look at the signal, the signal makes no
/// difference.
pub proof fn lemma_unpolled(s: ClientState, event: EventView, cancelled: bool)
    requires
        !polls(s.stage, event),
    ensures
        transition(s, event, cancelled) == transition(s, event, false),
{
}

/// One step of a run: an event, and what a look at the cancellation signal
/// would find when it comes in.
pub struct Step {
    pub event: EventView,
    pub cancelled: bool,
}

/// Each event of `steps` answers what the machine waits for when it comes in.
pub open spec fn orderly(s: ClientState, steps: Seq<Step>) -> bool
    decreases steps.len(),
{
    steps.len() == 0 || (answers(s.stage, steps[0].event) && orderly(
        transition(s, steps[0].event, steps[0].cancelled).0,
        steps.drop_first(),
    ))
}

/// The actions that the machine hands out along `steps`, in their order.
pub open spec fn emitted(s: ClientState, steps: Seq<Step>) -> Seq<ActionView>
    decreases steps.len(),
{
    if steps.len() == 0 {
        Seq::empty()
    } else {
        let next = transition(s, steps[0].event, steps[0].cancelled);
        seq![next.1] + emitted(next.0, steps.drop_first())
    }
}

/// How often `actions` asks for the end-of-stream marker.
pub open spec fn end_markers(actions: Seq<ActionView>) -> nat
    decreases actions.len(),
{
    if actions.len() == 0 {
        0
    } else if actions[0] is Finish {
        1 + end_markers(actions.drop_first())
    } else {
        end_markers(actions.drop_first())
    }
}

/// How far a stage is along the way of a probe.
pub open spec fn rank(stage: Stage) -> nat {
    match stage {
        Stage::Idle => 0,
        Stage::Negotiating => 1,
        Stage::Connecting => 2,
        Stage::Upgrading => 3,
        Stage::Sending => 4,
        Stage::Reading => 5,
        Stage::Delivering => 5,
        Stage::Draining => 6,
        Stage::Finishing => 7,
        Stage::Stopped => 8,
    }
}

/// A probe never goes back: no event takes it to an earlier stage.
pub proof fn lemma_never_goes_back(s: ClientState, event: EventView, cancelled: bool)
    requires
        answers(s.stage, event),
    ensures
        rank(transition(s, event, cancelled).0.stage) >= rank(s.stage),
        transition(s, event, cancelled).0.req == s.req,
{
}

/// A probe that finds the signal set where it looks at it closes at once and
/// without an error, unless the page that just came in fails the negotiation.
pub proof fn lemma_cancel_closes(s: ClientState, event: EventView)
    requires
        polls(s.stage, event),
        event matches EventView::Page(html) ==> negotiated(s.req, html) is Ok,
    ensures
        transition(s, event, true).1 == ActionView::Finish,
        transition(s, event, true).0.stage == Stage::Finishing,
        transition(s, event, true).0.failure is None,
{
}

/// A probe that is called off before it was set going asks for no network
/// work at all: it hands its consumer the end-of-stream marker and stops
/// without an error.
pub proof fn lemma_cancel_before_connect(key: Seq<char>, host: Seq<char>)
    ensures
        emitted(
            fresh(key, host),
            seq![
                Step { event: EventView::Started, cancelled: true },
                Step { event: EventView::Finished, cancelled: true },
            ],
        ) == seq![ActionView::Finish, ActionView::Stop(Ok(()))],
        orderly(
            fresh(key, host),
            seq![
                Step { event: EventView::Started, cancelled: true },
                Step { event: EventView::Finished, cancelled: true },
            ],
        ),
{
    let first = Step { event: EventView::Started, cancelled: true };
    let second = Step { event: EventView::Finished, cancelled: true };
    let steps = seq![first, second];
    let s1 = transition(fresh(key, host), first.event, true).0;
    let s2 = transition(s1, second.event, true).0;
    assert(steps.drop_first() =~= seq![second]);
    assert(seq![second].drop_first() =~= Seq::<Step>::empty());
    assert(emitted(s2, Seq::<Step>::empty()) =~= Seq::<ActionView>::empty());
    assert(emitted(s1, seq![second]) =~= seq![ActionView::Stop(Ok(()))]);
    assert(emitted(fresh(key, host), steps) =~= seq![
        ActionView::Finish,
        ActionView::Stop(Ok(())),
    ]);
    assert(orderly(s2, Seq::<Step>::empty()));
    assert(orderly(s1, seq![second]));
}

/// The frame that holds the marker of the last frame drains the probe: a
/// close frame is next, and the frame's text is not delivered.
pub proof fn lemma_last_frame_drains(s: ClientState, bytes: Seq<u8>, cancelled: bool)
    requires
        s.stage == Stage::Reading,
        valid_utf8(bytes),
        occurs(decode_utf8(bytes), finished_marker()),
    ensures
        transition(s, EventView::Frame(FrameKind::Text, bytes), cancelled) == drain(s),
        transition(s, EventView::Frame(FrameKind::Text, bytes), cancelled).1 == ActionView::Close,
{
}

/// Once a probe drains or has closed, it asks for nothing but the
/// end-of-stream marker and the stop: no record is delivered any more, and
/// nothing is read.
pub proof fn lemma_closing_delivers_nothing(s: ClientState, steps: Seq<Step>, i: int)
    requires
        rank(s.stage) >= rank(Stage::Draining),
        orderly(s, steps),
        0 <= i < emitted(s, steps).len(),
    ensures
        emitted(s, steps)[i] is Finish || emitted(s, steps)[i] is Stop,
    decreases steps.len(),
{
    if steps.len() > 0 {
        let next = transition(s, steps[0].event, steps[0].cancelled);
        if i > 0 {
            lemma_closing_delivers_nothing(next.0, steps.drop_first(), i - 1);
        }
    }
}

/// Along any run a probe asks for the end-of-stream marker at most once, and
/// not at all once it has asked for it.
pub proof fn lemma_one_end_marker(s: ClientState, steps: Seq<Step>)
    requires
        orderly(s, steps),
    ensures
        end_markers(emitted(s, steps)) <= 1,
        rank(s.stage) >= rank(Stage::Finishing) ==> end_markers(emitted(s, steps)) == 0,
    decreases steps.len(),
{
    if steps.len() > 0 {
        let next = transition(s, steps[0].event, steps[0].cancelled);
        let rest = emitted(next.0, steps.drop_first());
        lemma_one_end_marker(next.0, steps.drop_first());
        assert((seq![next.1] + rest).drop_first() =~= rest);
        assert(next.1 is Finish ==> next.0.stage == Stage::Finishing);
    }
}

} // verus!

//! The websocket manager's decisions. The manager runs three tasks (reader,
//! writer, pinger) around one shared link state; each task's step is a
//! function here from the link state and what happened to the next link
//! state and what to do.

use vstd::prelude::*;
use crate::text::{decimal, decimal_string, decimal_value, lemma_decimal_reads_back};

verus! {

/// A request to send on the socket: an id to answer it by, and the text to
/// send.
#[derive(Clone, Debug, PartialEq, Eq)]
pub struct WsRequest {
    pub id: String,
    pub payload: String,
}

/// A message for the user: data received from the socket (no id), or an
/// error about the request with the given id.
#[derive(Clone, Debug, PartialEq, Eq)]
pub struct WsResponse {
    pub id: Option<String>,
    pub data: String,
    pub is_error: bool,
}

/// The mathematical form of a [`WsResponse`].
pub struct WsResponseView {
    pub id: Option<Seq<char>>,
    pub data: Seq<char>,
    pub is_error: bool,
}

impl View for WsResponse {
    type V = WsResponseView;

    open spec fn view(&self) -> WsResponseView {
        WsResponseView {
            id: match self.id {
                Some(i) => Some(i@),
                None => None,
            },
            data: self.data@,
            is_error: self.is_error,
        }
    }
}

/// A span of time: whole seconds and the nanoseconds beyond them.
#[derive(Clone, Copy, Debug, PartialEq, Eq, Structural)]
pub struct TimeSpan {
    pub secs: u64,
    pub nanos: u32,
}

impl TimeSpan {
    /// Whether the nanoseconds stay below one second.
    pub open spec fn wf(self) -> bool {
        self.nanos < 1_000_000_000
    }

    /// Whether `self` is shorter than `other` (seconds first, then
    /// nanoseconds).
    pub open spec fn shorter(self, other: TimeSpan) -> bool {
        self.secs < other.secs || (self.secs == other.secs && self.nanos < other.nanos)
    }

    /// Whether `self` is not longer than `other`.
    pub open spec fn not_longer(self, other: TimeSpan) -> bool {
        !other.shorter(self)
    }

    /// The shorter of `self` and `other`; `self` when they are equal.
    pub open spec fn spec_min(self, other: TimeSpan) -> TimeSpan {
        if other.shorter(self) { other } else { self }
    }

    /// A span of `secs` whole seconds.
    pub fn from_secs(secs: u64) -> (r: TimeSpan)
        ensures
            r == (TimeSpan { secs, nanos: 0 }),
            r.wf(),
    {
        TimeSpan { secs, nanos: 0 }
    }

    /// The shorter of `self` and `other`; `self` when they are equal.
    pub fn min(self, other: TimeSpan) -> (r: TimeSpan)
        ensures
            r == self.spec_min(other),
    {
        if other.secs < self.secs || (other.secs == self.secs && other.nanos < self.nanos) {
            other
        } else {
            self
        }
    }
}

/// The manager's settings.
#[derive(Clone, Debug)]
pub struct WsConfig {
    pub url: String,
    pub ping_interval: TimeSpan,
    pub reconnect_enabled: bool,
    pub max_reconnect_delay: TimeSpan,
    pub read_timeout: TimeSpan,
    pub write_timeout: TimeSpan,
}

impl Default for WsConfig {
    /// No url; ping every 30 s; reconnect, waiting at most 60 s between
    /// attempts; give up a read after 90 s and a write after 5 s.
    fn default() -> (r: Self)
        ensures
            r.url@.len() == 0,
            r.ping_interval == (TimeSpan { secs: 30, nanos: 0 }),
            r.reconnect_enabled,
            r.max_reconnect_delay == (TimeSpan { secs: 60, nanos: 0 }),
            r.read_timeout == (TimeSpan { secs: 90, nanos: 0 }),
            r.write_timeout == (TimeSpan { secs: 5, nanos: 0 }),
    {
        WsConfig {
            url: String::new(),
            ping_interval: TimeSpan::from_secs(30),
            reconnect_enabled: true,
            max_reconnect_delay: TimeSpan::from_secs(60),
            read_timeout: TimeSpan::from_secs(90),
            write_timeout: TimeSpan::from_secs(5),
        }
    }
}

/// The state the manager's tasks share: whether the manager was stopped,
/// whether the link is up, how many reconnect attempts were made since
/// data last arrived, and whether a socket writer is installed.
#[derive(Clone, Copy, Debug, PartialEq, Eq, Structural)]
pub struct LinkState {
    pub stopped: bool,
    pub connected: bool,
    pub reconnect_attempts: u64,
    pub writer_ready: bool,
}

/// A fresh manager: not stopped, not connected, no attempts, no writer.
pub open spec fn initial_link() -> LinkState {
    LinkState { stopped: false, connected: false, reconnect_attempts: 0, writer_ready: false }
}

/// After the first connection: writer installed, connected, attempts reset.
pub open spec fn started_link(s: LinkState) -> LinkState {
    LinkState { connected: true, reconnect_attempts: 0, writer_ready: true, ..s }
}

/// After `stop`: stopped, disconnected, writer removed.
pub open spec fn stopped_link(s: LinkState) -> LinkState {
    LinkState { stopped: true, connected: false, writer_ready: false, ..s }
}

impl LinkState {
    /// The state of a manager that was just made.
    pub fn new() -> (r: LinkState)
        ensures
            r == initial_link(),
            !r.stopped && !r.connected && r.reconnect_attempts == 0 && !r.writer_ready,
    {
        LinkState { stopped: false, connected: false, reconnect_attempts: 0, writer_ready: false }
    }

    /// The state once the first connection is up and its writer installed.
    pub fn started(self) -> (r: LinkState)
        ensures
            r == started_link(self),
            r.connected && r.writer_ready && r.reconnect_attempts == 0 && r.stopped == self.stopped,
    {
        LinkState { connected: true, reconnect_attempts: 0, writer_ready: true, ..self }
    }

    /// The state after `stop`, and whether an installed writer must be
    /// closed.
    pub fn stop(self) -> (r: (LinkState, bool))
        ensures
            r.0 == stopped_link(self),
            r.1 == self.writer_ready,
            r.0.stopped && !r.0.connected && !r.0.writer_ready && r.0.reconnect_attempts
                == self.reconnect_attempts,
    {
        (LinkState { stopped: true, connected: false, writer_ready: false, ..self }, self.writer_ready)
    }

    /// Whether the link is up.
    pub fn is_connected(&self) -> (r: bool)
        ensures
            r == self.connected,
    {
        self.connected
    }

    /// The reconnect attempts made since data last arrived.
    pub fn get_reconnect_attempts(&self) -> (r: u64)
        ensures
            r == self.reconnect_attempts,
    {
        self.reconnect_attempts
    }
}

/// What the socket reader saw: a frame of some kind, an error, the end of
/// the stream, or no frame within the read timeout.
pub enum ReaderEvent {
    Text(String),
    Binary(usize),
    Ping,
    Pong,
    Close,
    Frame,
    Error,
    Ended,
    TimedOut,
}

/// Whether the reader read a frame (of any kind, a close frame included).
pub open spec fn is_frame(e: ReaderEvent) -> bool {
    match e {
        ReaderEvent::Error | ReaderEvent::Ended | ReaderEvent::TimedOut => false,
        _ => true,
    }
}

/// Whether the reader read a frame other than a close frame: it goes on
/// reading.
pub open spec fn is_delivery(e: ReaderEvent) -> bool {
    is_frame(e) && !(e is Close)
}

/// Whether the reader lost the link: a close frame, an error, the end of the
/// stream, or a read timeout.
pub open spec fn is_link_loss(e: ReaderEvent) -> bool {
    !is_delivery(e)
}

/// The reader's next state: any frame read, a close frame included, resets
/// the reconnect attempts; a lost link marks the manager disconnected.
pub open spec fn reader_next(s: LinkState, e: ReaderEvent) -> LinkState {
    LinkState {
        reconnect_attempts: if is_frame(e) { 0 } else { s.reconnect_attempts },
        connected: if is_link_loss(e) { false } else { s.connected },
        ..s
    }
}

/// The text reported for a binary frame of `len` bytes.
pub open spec fn binary_note(len: nat) -> Seq<char> {
    "Binary data: "@ + decimal(len) + " bytes"@
}

/// What the reader hands to the user: text frames as they are, binary
/// frames as a note of their size, nothing for other events.
pub open spec fn reader_output(e: ReaderEvent) -> Option<WsResponseView> {
    match e {
        ReaderEvent::Text(t) => Some(WsResponseView { id: None, data: t@, is_error: false }),
        ReaderEvent::Binary(n) => Some(
            WsResponseView { id: None, data: binary_note(n as nat), is_error: false },
        ),
        _ => None,
    }
}

/// The mathematical form of an optional response.
pub open spec fn response_view(r: Option<WsResponse>) -> Option<WsResponseView> {
    match r {
        Some(x) => Some(x@),
        None => None,
    }
}

/// One step of the reader: its next state, what it hands to the user, and
/// whether it goes on reading (if not, it reports the disconnection).
pub struct ReaderStep {
    pub state: LinkState,
    pub response: Option<WsResponse>,
    pub keep_reading: bool,
}

/// The reader's step on `event`.
pub fn reader_step(state: LinkState, event: ReaderEvent) -> (r: ReaderStep)
    ensures
        r.state == reader_next(state, event),
        response_view(r.response) == reader_output(event),
        r.keep_reading == is_delivery(event),
        r.state.stopped == state.stopped && r.state.writer_ready == state.writer_ready,
        (event is Error || event is Ended || event is TimedOut) ==> !r.keep_reading
            && !r.state.connected && r.state.reconnect_attempts == state.reconnect_attempts,
        event is Close ==> !r.keep_reading && !r.state.connected && r.state.reconnect_attempts == 0,
        (event is Text || event is Binary || event is Ping || event is Pong || event is Frame)
            ==> r.keep_reading && r.state.connected == state.connected
            && r.state.reconnect_attempts == 0,
        event matches ReaderEvent::Text(t) ==> r.response matches Some(resp) && resp.id is None
            && resp.data@ == t@ && !resp.is_error,
        !(event is Text || event is Binary) ==> r.response is None,
{
    match event {
        ReaderEvent::Text(t) => ReaderStep {
            state: LinkState { reconnect_attempts: 0, ..state },
            response: Some(WsResponse { id: None, data: t, is_error: false }),
            keep_reading: true,
        },
        ReaderEvent::Binary(n) => {
            let mut data = String::from_str("Binary data: ");
            data.append(decimal_string(n as u64).as_str());
            data.append(" bytes");
            ReaderStep {
                state: LinkState { reconnect_attempts: 0, ..state },
                response: Some(WsResponse { id: None, data, is_error: false }),
                keep_reading: true,
            }
        },
        ReaderEvent::Ping | ReaderEvent::Pong | ReaderEvent::Frame => ReaderStep {
            state: LinkState { reconnect_attempts: 0, ..state },
            response: None,
            keep_reading: true,
        },
        ReaderEvent::Close => ReaderStep {
            state: LinkState { reconnect_attempts: 0, connected: false, ..state },
            response: None,
            keep_reading: false,
        },
        ReaderEvent::Error | ReaderEvent::Ended | ReaderEvent::TimedOut => {
            ReaderStep {
                state: LinkState { connected: false, ..state },
                response: None,
                keep_reading: false,
            }
        },
    }
}

/// Whether a reader on a reconnected link goes on: any frame, a close frame
/// included, keeps it reading; an error, the end of the stream or a
/// timeout ends it.
pub open spec fn resumed_continues(e: ReaderEvent) -> bool {
    match e {
        ReaderEvent::Error | ReaderEvent::Ended | ReaderEvent::TimedOut => false,
        _ => true,
    }
}

/// The next state of a reader on a reconnected link: a frame resets the
/// reconnect attempts; the end of reading marks the manager disconnected.
pub open spec fn resumed_next(s: LinkState, e: ReaderEvent) -> LinkState {
    if resumed_continues(e) {
        LinkState { reconnect_attempts: 0, ..s }
    } else {
        LinkState { connected: false, ..s }
    }
}

/// One step of the reader on a reconnected link (its frames are not handed
/// on): the next state and whether it goes on reading.
pub fn resumed_reader_step(state: LinkState, event: &ReaderEvent) -> (r: (LinkState, bool))
    ensures
        r.0 == resumed_next(state, *event),
        r.1 == resumed_continues(*event),
        (*event is Error || *event is Ended || *event is TimedOut) ==> !r.1 && !r.0.connected
            && r.0.reconnect_attempts == state.reconnect_attempts,
        !(*event is Error || *event is Ended || *event is TimedOut) ==> r.1 && r.0.connected
            == state.connected && r.0.reconnect_attempts == 0,
        r.0.stopped == state.stopped && r.0.writer_ready == state.writer_ready,
{
    match event {
        ReaderEvent::Error | ReaderEvent::Ended | ReaderEvent::TimedOut => (
            LinkState { connected: false, ..state },
            false,
        ),
        _ => (LinkState { reconnect_attempts: 0, ..state }, true),
    }
}

/// Whether the manager's tasks go on: until the manager is stopped.
pub open spec fn keeps_running_spec(s: LinkState) -> bool {
    !s.stopped
}

/// Whether a task of the manager goes on with its loop: every loop (reader,
/// reconnect, writer, pinger) ends once the manager is stopped.
pub fn keeps_running(state: &LinkState) -> (r: bool)
    ensures
        r == keeps_running_spec(*state),
        r == !state.stopped,
{
    !state.stopped
}

/// Whether a reader that stopped reading goes on to reconnect.
pub open spec fn may_reconnect(s: LinkState, reconnect_enabled: bool) -> bool {
    reconnect_enabled && !s.stopped
}

/// Whether to reconnect once reading has ended: only when reconnecting is
/// enabled and the manager was not stopped.
pub fn should_reconnect(state: &LinkState, config: &WsConfig) -> (r: bool)
    ensures
        r == may_reconnect(*state, config.reconnect_enabled),
        r == (config.reconnect_enabled && !state.stopped),
{
    config.reconnect_enabled && !state.stopped
}

/// `2` to the power `n`.
pub open spec fn pow2(n: nat) -> nat
    decreases n,
{
    if n == 0 { 1 } else { 2 * pow2((n - 1) as nat) }
}

/// The exponent of the backoff after `attempts` earlier attempts: the
/// attempt count taken as a `u32` (its low 32 bits), at most 6.
pub open spec fn backoff_exponent(attempts: u64) -> nat {
    let low = attempts as int % 0x1_0000_0000;
    if low < 6 { low as nat } else { 6 }
}

/// The wait before a reconnect attempt: `2^e` seconds for the backoff
/// exponent `e`, but no longer than `max_delay`.
pub open spec fn backoff_delay(attempts: u64, max_delay: TimeSpan) -> TimeSpan {
    TimeSpan { secs: pow2(backoff_exponent(attempts)) as u64, nanos: 0 }.spec_min(max_delay)
}

/// The attempt counter after one more attempt (wrapping at `u64::MAX`).
pub open spec fn next_attempts(a: u64) -> u64 {
    if a == u64::MAX { 0 } else { (a + 1) as u64 }
}

/// The plan for the next reconnect attempt: none once stopped; else the
/// state with one more attempt counted, and the wait before it.
pub open spec fn reconnect_plan(s: LinkState, max_delay: TimeSpan) -> Option<(LinkState, TimeSpan)> {
    if s.stopped {
        None
    } else {
        Some(
            (
                LinkState { reconnect_attempts: next_attempts(s.reconnect_attempts), ..s },
                backoff_delay(s.reconnect_attempts, max_delay),
            ),
        )
    }
}

proof fn lemma_pow2_small(n: nat)
    requires
        n <= 6,
    ensures
        1 <= pow2(n) <= 64,
        pow2(n) == (if n == 0 { 1nat } else if n == 1 { 2 } else if n == 2 { 4 } else if n == 3 { 8 }
            else if n == 4 { 16 } else if n == 5 { 32 } else { 64 }),
{
    reveal_with_fuel(pow2, 7);
}

/// The wait before a reconnect attempt that follows `attempts` earlier ones.
pub fn reconnect_backoff(attempts: u64, max_delay: TimeSpan) -> (r: TimeSpan)
    ensures
        r == backoff_delay(attempts, max_delay),
{
    let low: u64 = attempts % 0x1_0000_0000;
    let secs: u64 = if low == 0 {
        1
    } else if low == 1 {
        2
    } else if low == 2 {
        4
    } else if low == 3 {
        8
    } else if low == 4 {
        16
    } else if low == 5 {
        32
    } else {
        64
    };
    proof {
        lemma_pow2_small(backoff_exponent(attempts));
    }
    TimeSpan::from_secs(secs).min(max_delay)
}

/// Starts a reconnect attempt: `None` once the manager is stopped; else the
/// state with the attempt counted, and how long to wait before connecting.
pub fn begin_reconnect(state: LinkState, max_delay: TimeSpan) -> (r: Option<(LinkState, TimeSpan)>)
    ensures
        r == reconnect_plan(state, max_delay),
{
    if state.stopped {
        None
    } else {
        let attempts = state.reconnect_attempts;
        let next = if attempts == u64::MAX { 0 } else { attempts + 1 };
        Some((LinkState { reconnect_attempts: next, ..state }, reconnect_backoff(attempts, max_delay)))
    }
}

/// The state once a reconnect attempt has connected.
pub open spec fn reconnected_link(s: LinkState) -> LinkState {
    LinkState { connected: true, ..s }
}

/// The state once a reconnect attempt has connected: the link is up.
pub fn on_reconnected(state: LinkState) -> (r: LinkState)
    ensures
        r == reconnected_link(state),
        r.connected && r.stopped == state.stopped && r.writer_ready == state.writer_ready
            && r.reconnect_attempts == state.reconnect_attempts,
{
    LinkState { connected: true, ..state }
}

/// What the writer does with a request.
pub enum WriteDecision {
    /// Write `payload` on the socket, for the request `id`.
    Send { id: String, payload: String },
    /// Do not write; hand this error to the user.
    Reject(WsResponse),
}

/// Whether the writer writes requests: the link is up and a writer is
/// installed.
pub open spec fn writer_accepts(s: LinkState) -> bool {
    s.connected && s.writer_ready
}

/// The error the writer reports when it does not write a request.
pub open spec fn rejection_text(s: LinkState) -> Seq<char> {
    if !s.connected { "Not connected"@ } else { "Writer not available"@ }
}

/// The writer's decision on `request`: write it when the link is up and a
/// writer is installed; otherwise answer its id with an error, "Not
/// connected" or "Writer not available".
pub fn writer_on_request(state: &LinkState, request: WsRequest) -> (r: WriteDecision)
    ensures
        state.connected && state.writer_ready ==> (r matches WriteDecision::Send { id, payload } && id@
            == request.id@ && payload@ == request.payload@),
        !(state.connected && state.writer_ready) ==> (r matches WriteDecision::Reject(resp) && resp@ == (
        WsResponseView {
            id: Some(request.id@),
            data: rejection_text(*state),
            is_error: true,
        })),
        !state.connected ==> (r matches WriteDecision::Reject(resp) && resp.data@ == "Not connected"@),
        state.connected && !state.writer_ready ==> (r matches WriteDecision::Reject(resp) && resp.data@
            == "Writer not available"@),
{
    if !state.connected {
        WriteDecision::Reject(
            WsResponse { id: Some(request.id), data: String::from_str("Not connected"), is_error: true },
        )
    } else if state.writer_ready {
        WriteDecision::Send { id: request.id, payload: request.payload }
    } else {
        WriteDecision::Reject(
            WsResponse {
                id: Some(request.id),
                data: String::from_str("Writer not available"),
                is_error: true,
            },
        )
    }
}

/// How writing a request on the socket went.
pub enum SendOutcome {
    Sent,
    /// The write failed with this error text.
    Failed(String),
    /// The write did not finish within the write timeout.
    TimedOut,
}

/// The error text for a write that did not go through.
pub open spec fn send_failure_text(outcome: SendOutcome) -> Seq<char> {
    match outcome {
        SendOutcome::Failed(e) => "Send error: "@ + e@,
        _ => "Send timeout"@,
    }
}

/// The answer to a written request: nothing when the write went through,
/// else an error for its id.
pub fn send_outcome_response(request_id: String, outcome: SendOutcome) -> (r: Option<WsResponse>)
    ensures
        outcome is Sent ==> r is None,
        !(outcome is Sent) ==> (r matches Some(resp) && resp@ == (WsResponseView {
            id: Some(request_id@),
            data: send_failure_text(outcome),
            is_error: true,
        })),
        outcome matches SendOutcome::Failed(e) ==> (r matches Some(resp) && resp.data@ == "Send error: "@
            + e@),
        outcome is TimedOut ==> (r matches Some(resp) && resp.data@ == "Send timeout"@),
{
    match outcome {
        SendOutcome::Sent => None,
        SendOutcome::Failed(e) => {
            let mut data = String::from_str("Send error: ");
            data.append(e.as_str());
            Some(WsResponse { id: Some(request_id), data, is_error: true })
        },
        SendOutcome::TimedOut => Some(
            WsResponse { id: Some(request_id), data: String::from_str("Send timeout"), is_error: true },
        ),
    }
}

/// News of the link that the reader gives the writer.
pub enum LinkEvent {
    /// A new connection is up; its writer comes with the event.
    Reconnected,
    /// The link was lost.
    Disconnected,
}

/// The writer's state after link news: a new connection installs its
/// writer; a lost link marks the manager disconnected.
pub open spec fn link_event_next(s: LinkState, e: LinkEvent) -> LinkState {
    match e {
        LinkEvent::Reconnected => LinkState { writer_ready: true, ..s },
        LinkEvent::Disconnected => LinkState { connected: false, ..s },
    }
}

/// The writer's step on link news.
pub fn writer_on_link_event(state: LinkState, event: LinkEvent) -> (r: LinkState)
    ensures
        r == link_event_next(state, event),
        r.stopped == state.stopped && r.reconnect_attempts == state.reconnect_attempts,
        event is Reconnected ==> r.writer_ready && r.connected == state.connected,
        event is Disconnected ==> !r.connected && r.writer_ready == state.writer_ready,
{
    match event {
        LinkEvent::Reconnected => LinkState { writer_ready: true, ..state },
        LinkEvent::Disconnected => LinkState { connected: false, ..state },
    }
}

/// Whether a ping goes out at a tick: only when the link is up and a writer
/// is installed.
pub fn ping_due(state: &LinkState) -> (r: bool)
    ensures
        r == writer_accepts(*state),
        r == (state.connected && state.writer_ready),
{
    state.connected && state.writer_ready
}

/// The error text for a request that could not be queued, given the queue's
/// error text.
pub fn queue_error_message(e: &str) -> (r: String)
    ensures
        r@ == "Failed to queue request: "@ + e@,
{
    let mut r = String::from_str("Failed to queue request: ");
    r.append(e);
    r
}

/// The answer a request gets from the writer, given how its write went
/// (the outcome matters only when the request was written).
pub open spec fn request_answer(s: LinkState, id: Seq<char>, outcome: SendOutcome) -> Option<WsResponseView> {
    if !writer_accepts(s) {
        Some(WsResponseView { id: Some(id), data: rejection_text(s), is_error: true })
    } else if outcome is Sent {
        None
    } else {
        Some(WsResponseView { id: Some(id), data: send_failure_text(outcome), is_error: true })
    }
}

/// No request is lost silently, and every response is marked: a request
/// that was not written, or whose write failed or timed out, is answered by
/// an error that carries its id; only a request written successfully goes
/// unanswered; data read from the socket carries no id and is not an error.
pub proof fn lemma_request_answered(s: LinkState, id: Seq<char>, outcome: SendOutcome, e: ReaderEvent)
    ensures
        request_answer(s, id, outcome) is None <==> (writer_accepts(s) && outcome is Sent),
        request_answer(s, id, outcome) matches Some(r) ==> r.id == Some(id) && r.is_error,
        reader_output(e) matches Some(r) ==> r.id is None && !r.is_error,
{
}

/// Stopping is final: `stop` leaves the manager stopped, disconnected and
/// without a writer (so it writes no request and sends no ping), whatever
/// the state before; and once the manager is stopped, no step of any task
/// clears the stop, no reconnect is planned, and reading never turns into
/// reconnecting.
pub proof fn lemma_stop_is_final(
    s: LinkState,
    e: ReaderEvent,
    news: LinkEvent,
    max_delay: TimeSpan,
    reconnect_enabled: bool,
)
    ensures
        stopped_link(s).stopped,
        !stopped_link(s).connected,
        !stopped_link(s).writer_ready,
        !writer_accepts(stopped_link(s)),
        !keeps_running_spec(stopped_link(s)),
        stopped_link(s).reconnect_attempts == s.reconnect_attempts,
        s.stopped ==> reader_next(s, e).stopped,
        s.stopped ==> resumed_next(s, e).stopped,
        s.stopped ==> link_event_next(s, news).stopped,
        s.stopped ==> reconnected_link(s).stopped,
        s.stopped ==> started_link(s).stopped,
        s.stopped ==> !may_reconnect(s, reconnect_enabled),
        s.stopped ==> reconnect_plan(s, max_delay) is None,
{
}

/// Any frame that arrives, a close frame included, resets the count of
/// reconnect attempts; a frame other than a close frame keeps the reader
/// going; a lost link (close frame, error, end of stream, timeout) ends
/// reading and marks the manager disconnected; an error, the end of the
/// stream or a timeout leaves the count as it was.
pub proof fn lemma_reader_events(s: LinkState, e: ReaderEvent)
    ensures
        is_frame(e) ==> reader_next(s, e).reconnect_attempts == 0,
        !is_frame(e) ==> reader_next(s, e).reconnect_attempts == s.reconnect_attempts,
        is_delivery(e) ==> reader_next(s, e).connected == s.connected,
        is_link_loss(e) ==> !reader_next(s, e).connected && reader_output(e) is None,
        reader_next(s, e).stopped == s.stopped,
        reader_next(s, e).writer_ready == s.writer_ready,
{
}

/// The wait before a reconnect never exceeds the configured maximum nor
/// 64 seconds, and is a whole number of seconds unless the maximum is what
/// bounds it.
pub proof fn lemma_backoff_bounded(attempts: u64, max_delay: TimeSpan)
    ensures
        backoff_delay(attempts, max_delay).not_longer(max_delay),
        backoff_delay(attempts, max_delay).not_longer(TimeSpan { secs: 64, nanos: 0 }),
        max_delay.wf() ==> backoff_delay(attempts, max_delay).wf(),
        backoff_delay(attempts, max_delay) == max_delay || backoff_delay(attempts, max_delay).nanos
            == 0,
{
    lemma_pow2_small(backoff_exponent(attempts));
}

/// The wait grows with the number of attempts: after more attempts the wait
/// is never shorter (while the count fits in 32 bits, as the exponent is
/// taken from the count's low 32 bits).
pub proof fn lemma_backoff_monotone(a: u64, b: u64, max_delay: TimeSpan)
    requires
        a <= b < 0x1_0000_0000,
    ensures
        backoff_delay(a, max_delay).not_longer(backoff_delay(b, max_delay)),
{
    lemma_pow2_small(backoff_exponent(a));
    lemma_pow2_small(backoff_exponent(b));
}

/// The wait doubles with each attempt until it reaches 64 seconds or the
/// configured maximum.
pub proof fn lemma_backoff_doubles(a: u64, max_delay: TimeSpan)
    requires
        a < 6,
        (TimeSpan { secs: pow2((a + 1) as nat) as u64, nanos: 0 }).not_longer(max_delay),
    ensures
        backoff_delay((a + 1) as u64, max_delay).secs == 2 * backoff_delay(a, max_delay).secs,
        backoff_delay((a + 1) as u64, max_delay).nanos == 0,
{
    lemma_pow2_small(a as nat);
    lemma_pow2_small((a + 1) as nat);
}

/// Data resets the backoff: after a frame arrives (or after the first
/// connection), the next reconnect attempt is counted as the first and waits
/// one second, or the configured maximum if that is shorter.
pub proof fn lemma_backoff_restarts(s: LinkState, e: ReaderEvent, max_delay: TimeSpan)
    requires
        !s.stopped,
    ensures
        is_frame(e) ==> reconnect_plan(reader_next(s, e), max_delay) == Some(
            (
                LinkState { reconnect_attempts: 1, ..reader_next(s, e) },
                (TimeSpan { secs: 1, nanos: 0 }).spec_min(max_delay),
            ),
        ),
        reconnect_plan(started_link(s), max_delay) == Some(
            (
                LinkState { reconnect_attempts: 1, ..started_link(s) },
                (TimeSpan { secs: 1, nanos: 0 }).spec_min(max_delay),
            ),
        ),
{
    lemma_pow2_small(0);
}

/// How the reconnect count moves: it is reset to 0 by the first connection
/// and by every frame either reader reads; it grows by one (wrapping) with
/// each reconnect attempt begun; nothing else changes it. So it counts the
/// reconnect attempts begun since the latest start or frame read.
pub proof fn lemma_attempt_count_steps(s: LinkState, e: ReaderEvent, news: LinkEvent, max_delay: TimeSpan)
    ensures
        initial_link().reconnect_attempts == 0,
        started_link(s).reconnect_attempts == 0,
        reader_next(s, e).reconnect_attempts == (if is_frame(e) { 0 } else { s.reconnect_attempts }),
        resumed_next(s, e).reconnect_attempts == (if resumed_continues(e) { 0 } else {
            s.reconnect_attempts
        }),
        link_event_next(s, news).reconnect_attempts == s.reconnect_attempts,
        reconnected_link(s).reconnect_attempts == s.reconnect_attempts,
        stopped_link(s).reconnect_attempts == s.reconnect_attempts,
        reconnect_plan(s, max_delay) matches Some(p) ==> p.0.reconnect_attempts == next_attempts(
            s.reconnect_attempts,
        ),
{
}

/// When the link counts as up: only the first connection and a successful
/// reconnect set it; the main reader's loss of the link (close frame, error,
/// end of stream, timeout), the reconnected reader's end (error, end of
/// stream, timeout; a close frame does not end it), a disconnection notice
/// and `stop` clear it; no other step changes it.
pub proof fn lemma_connected_steps(s: LinkState, e: ReaderEvent, news: LinkEvent, max_delay: TimeSpan)
    ensures
        !initial_link().connected,
        started_link(s).connected,
        reconnected_link(s).connected,
        !stopped_link(s).connected,
        reader_next(s, e).connected == (s.connected && !is_link_loss(e)),
        resumed_next(s, e).connected == (s.connected && resumed_continues(e)),
        link_event_next(s, news).connected == (s.connected && news is Reconnected),
        reconnect_plan(s, max_delay) matches Some(p) ==> p.0.connected == s.connected,
{
}

/// The mathematical form of a [`WsRequest`].
pub struct WsRequestView {
    pub id: Seq<char>,
    pub payload: Seq<char>,
}

impl View for WsRequest {
    type V = WsRequestView;

    open spec fn view(&self) -> WsRequestView {
        WsRequestView { id: self.id@, payload: self.payload@ }
    }
}

/// The positions, in queue order, of the requests the writer writes when it
/// handles the first `n` requests of its queue, the `i`-th with the link in
/// state `states[i]`.
pub open spec fn written_positions(states: Seq<LinkState>, n: nat) -> Seq<int>
    decreases n,
{
    if n == 0 {
        Seq::empty()
    } else {
        let before = written_positions(states, (n - 1) as nat);
        if writer_accepts(states[n - 1]) {
            before.push(n - 1)
        } else {
            before
        }
    }
}

/// The payloads the writer writes on the socket for a queue of requests,
/// in the order it writes them.
pub open spec fn written_payloads(states: Seq<LinkState>, queue: Seq<WsRequestView>) -> Seq<
    Seq<char>,
> {
    written_positions(states, queue.len()).map_values(|i: int| queue[i].payload)
}

/// The answers the writer gives a queue of requests: one slot per request,
/// holding its answer or nothing.
pub open spec fn queue_answers(
    states: Seq<LinkState>,
    queue: Seq<WsRequestView>,
    outcomes: Seq<SendOutcome>,
) -> Seq<Option<WsResponseView>> {
    Seq::new(queue.len(), |i: int| request_answer(states[i], queue[i].id, outcomes[i]))
}

/// The writer handles its queue in order, writes each request at most once,
/// and answers each at most once: the writes are the payloads of the
/// requests it accepts, in queue order with no repeats (a subsequence of the
/// queue's payloads), and each request has a single answer slot, which holds
/// an error carrying that request's id unless the request was written
/// successfully.
pub proof fn lemma_queue_handled_in_order(
    states: Seq<LinkState>,
    queue: Seq<WsRequestView>,
    outcomes: Seq<SendOutcome>,
)
    requires
        states.len() == queue.len(),
        outcomes.len() == queue.len(),
    ensures
        ({
            let pos = written_positions(states, queue.len());
            &&& written_payloads(states, queue).len() == pos.len()
            &&& forall|k: int| 0 <= k < pos.len() ==> 0 <= #[trigger] pos[k] < queue.len()
                && writer_accepts(states[pos[k]]) && written_payloads(states, queue)[k]
                == queue[pos[k]].payload
            &&& forall|j: int, k: int| 0 <= j < k < pos.len() ==> #[trigger] pos[j] < #[trigger] pos[k]
            &&& forall|i: int| 0 <= i < queue.len() && writer_accepts(#[trigger] states[i]) ==> pos.contains(i)
        }),
        queue_answers(states, queue, outcomes).len() == queue.len(),
        forall|i: int| 0 <= i < queue.len() ==> (#[trigger] queue_answers(states, queue, outcomes)[i] is None
            <==> (writer_accepts(states[i]) && outcomes[i] is Sent)),
        forall|i: int| 0 <= i < queue.len() ==> (#[trigger] queue_answers(states, queue, outcomes)[i] matches Some(r)
            ==> r.id == Some(queue[i].id) && r.is_error),
{
    lemma_written_positions(states, queue.len());
}

proof fn lemma_written_positions(states: Seq<LinkState>, n: nat)
    requires
        states.len() >= n,
    ensures
        ({
            let pos = written_positions(states, n);
            &&& forall|k: int| 0 <= k < pos.len() ==> 0 <= #[trigger] pos[k] < n && writer_accepts(states[pos[k]])
            &&& forall|j: int, k: int| 0 <= j < k < pos.len() ==> #[trigger] pos[j] < #[trigger] pos[k]
            &&& forall|i: int| 0 <= i < n && writer_accepts(#[trigger] states[i]) ==> pos.contains(i)
        }),
    decreases n,
{
    if n > 0 {
        let m = (n - 1) as nat;
        lemma_written_positions(states, m);
        let before = written_positions(states, m);
        let pos = written_positions(states, n);
        if writer_accepts(states[m as int]) {
            assert(pos == before.push(m as int));
            assert forall|i: int| 0 <= i < n && writer_accepts(#[trigger] states[i]) implies pos.contains(i) by {
                if i < m {
                    let k = choose|k: int| 0 <= k < before.len() && before[k] == i;
                    assert(pos[k] == i);
                } else {
                    assert(pos[pos.len() - 1] == i);
                }
            }
        }
    }
}

/// A reader on a reconnected link stops exactly when the link is lost to an
/// error, the end of the stream or a read timeout; it then marks the
/// manager disconnected and leaves the reconnect count alone. Every other
/// event (any frame, a close frame included) keeps it reading, resets the
/// count and leaves the link status alone.
pub proof fn lemma_resumed_reader_ends_on_loss(s: LinkState, e: ReaderEvent)
    ensures
        (e is Error || e is Ended || e is TimedOut) ==> !resumed_continues(e) && !resumed_next(
            s,
            e,
        ).connected && resumed_next(s, e).reconnect_attempts == s.reconnect_attempts,
        !(e is Error || e is Ended || e is TimedOut) ==> resumed_continues(e) && resumed_next(
            s,
            e,
        ).connected == s.connected && resumed_next(s, e).reconnect_attempts == 0,
        resumed_next(s, e).stopped == s.stopped,
        resumed_next(s, e).writer_ready == s.writer_ready,
{
}

/// The schedule of reconnect attempts. A stopped manager plans none. Else
/// the attempt is counted (wrapping at `u64::MAX`) and the wait before it is
/// `2^k` seconds, where `k` is the count's low 32 bits capped at 6 (1, 2, 4,
/// 8, 16, 32, then 64 s), unless the configured maximum is shorter, in which
/// case the wait is that maximum.
pub proof fn lemma_reconnect_schedule(s: LinkState, max_delay: TimeSpan)
    ensures
        s.stopped ==> reconnect_plan(s, max_delay) is None,
        !s.stopped ==> ({
            let a = s.reconnect_attempts;
            let low = a as int % 0x1_0000_0000;
            let raw: int = if low == 0 { 1 } else if low == 1 { 2 } else if low == 2 { 4 } else if low == 3 {
                8
            } else if low == 4 { 16 } else if low == 5 { 32 } else { 64 };
            let wait = if max_delay.secs < raw { max_delay } else { TimeSpan { secs: raw as u64, nanos: 0 } };
            let counted = LinkState {
                reconnect_attempts: if a == u64::MAX { 0 } else { (a + 1) as u64 },
                ..s
            };
            reconnect_plan(s, max_delay) == Some((counted, wait))
        }),
{
    lemma_pow2_small(backoff_exponent(s.reconnect_attempts));
}

/// The writer writes a request exactly when the link is up and a writer is
/// installed, whatever the reconnect count and the stop flag; otherwise it
/// answers "Not connected" when the link is down and "Writer not available"
/// when it is up without a writer. Pings go out under the same condition.
pub proof fn lemma_writer_decides_on_link(s: LinkState, attempts: u64, stopped: bool)
    ensures
        writer_accepts(s) == (s.connected && s.writer_ready),
        writer_accepts(s) == writer_accepts(LinkState { reconnect_attempts: attempts, stopped, ..s }),
        !s.connected ==> rejection_text(s) == "Not connected"@,
        s.connected && !s.writer_ready ==> rejection_text(s) == "Writer not available"@,
{
}

/// A text frame is handed to the user unchanged; a binary frame of `n`
/// bytes is reported as `Binary data: `, then the decimal digits of `n`
/// (which read back as `n`), then ` bytes`. Neither carries an id or is an
/// error.
pub proof fn lemma_reader_reports(t: String, n: usize)
    ensures
        reader_output(ReaderEvent::Text(t)) == Some(WsResponseView { id: None, data: t@, is_error: false }),
        reader_output(ReaderEvent::Binary(n)) matches Some(r) && r.id is None && !r.is_error && ({
            let d = r.data;
            &&& d.len() >= 20
            &&& d.subrange(0, 13) == "Binary data: "@
            &&& d.subrange(d.len() - 6, d.len() as int) == " bytes"@
            &&& forall|i: int| 13 <= i < d.len() - 6 ==> '0' <= #[trigger] d[i] <= '9'
            &&& decimal_value(d.subrange(13, d.len() - 6)) == n
        }),
{
    reveal_strlit("Binary data: ");
    reveal_strlit(" bytes");
    lemma_decimal_reads_back(n as nat);
    let digits = decimal(n as nat);
    let d = binary_note(n as nat);
    assert(d.subrange(0, 13) =~= "Binary data: "@);
    assert(d.subrange(d.len() - 6, d.len() as int) =~= " bytes"@);
    assert(d.subrange(13, d.len() - 6) =~= digits);
    assert forall|i: int| 13 <= i < d.len() - 6 implies '0' <= #[trigger] d[i] <= '9' by {
        assert(d[i] == digits[i - 13]);
    }
}

/// The tasks run exactly until the manager is stopped: whether they go on
/// does not depend on the link status, the writer or the reconnect count;
/// a fresh manager's tasks run, and a stopped manager's do not.
pub proof fn lemma_tasks_run_until_stopped(s: LinkState, connected: bool, attempts: u64, writer_ready: bool)
    ensures
        keeps_running_spec(s) == keeps_running_spec(
            LinkState { connected, reconnect_attempts: attempts, writer_ready, ..s },
        ),
        keeps_running_spec(initial_link()),
        !keeps_running_spec(stopped_link(s)),
{
}

} // verus!

//! The conversation with `codex app-server`: the requests the worker sends,
//! the responses and notifications it waits for, and what it hands the panel.
//! The worker's I/O loop feeds each event to [`Session::step`] and performs
//! what the step asks for.
use vstd::prelude::*;
use crate::json::{
    JsonValue, JsonModel, lemma_lookup_well_formed, JsonNumber, NumberModel, entries_model, lemma_object_model, i64_of,
    str_of, opt_model,
};
use crate::clock::now_timestamp;
use crate::wire::{LineRead, json_string, json_text};
use crate::limits::{
    UsageSnapshot, SnapshotModel, CodexError, ErrorModel, snapshot_model, merged_limits,
    parse_snapshot_at, merge_rate_limits_notification, protocol_error, clock_error, clock_error_text, lemma_merge_keeps_well_formed,
};

verus! {

/// Milliseconds the subscribed worker waits for a message before it looks at
/// its commands again.
pub const COMMAND_CHECK_INTERVAL_MS: u64 = 250;

/// Seconds the worker waits before it starts a new session after a failure.
pub const RECONNECT_DELAY_SECS: u64 = 10;

/// What the worker tells the panel.
#[derive(Debug, Clone)]
pub enum WorkerUpdate {
    /// A session is being opened.
    Querying,
    /// A fresh snapshot of the quota.
    Snapshot(UsageSnapshot),
    /// The session failed; `at` is when, in seconds since the Unix epoch.
    Error { message: String, at: i64 },
}

/// What the panel tells the worker.
#[derive(Debug, Clone, Copy)]
pub enum WorkerCommand {
    /// Close the session and stop.
    Stop,
    /// Repeat the account and rate-limit reads now.
    Refresh,
}

/// The progress of one session with the app-server.
pub enum Session {
    /// `initialize` was sent; waiting for response 1.
    Initializing,
    /// `account/read` was sent; waiting for response 2.
    ReadingAccount,
    /// `account/rateLimits/read` was sent; waiting for response 3.
    ReadingLimits { account: JsonValue },
    /// Both responses are in; merging `account/rateLimits/updated` notifications.
    Subscribed { account: JsonValue, limits: JsonValue },
    /// The session is over.
    Finished,
}

/// What happened since the last step.
pub enum SessionEvent {
    /// The app-server wrote a JSON message.
    Message(JsonValue),
    /// Reading or decoding the app-server's output failed.
    ReaderFailed(CodexError),
    /// The app-server's output ended.
    ReaderClosed,
    /// No message arrived within the polling interval.
    Idle,
    /// The panel asked the worker to stop, or went away.
    StopRequested,
    /// The panel asked for fresh reads.
    RefreshRequested,
    /// A snapshot could not be handed to the panel.
    UiClosed,
}

/// How a session ended.
pub enum SessionEnd {
    /// The panel asked to stop.
    Stopped,
    /// The session failed.
    Failed(CodexError),
}

/// What the worker must do after a step.
pub struct SessionStep {
    /// Messages to write to the app-server, in order.
    pub send: Vec<JsonValue>,
    /// A snapshot to hand to the panel.
    pub snapshot: Option<UsageSnapshot>,
    /// Set when the session is over.
    pub end: Option<SessionEnd>,
}

// ---------------------------------------------------------------------------
// Models
// ---------------------------------------------------------------------------

pub enum SessionModel {
    Initializing,
    ReadingAccount,
    ReadingLimits(JsonModel),
    Subscribed(JsonModel, JsonModel),
    Finished,
}

pub enum EventModel {
    Message(JsonModel),
    ReaderFailed(ErrorModel),
    ReaderClosed,
    Idle,
    StopRequested,
    RefreshRequested,
    UiClosed,
}

pub enum EndModel {
    Stopped,
    Failed(ErrorModel),
}

pub struct StepModel {
    pub send: Seq<JsonModel>,
    pub snapshot: Option<SnapshotModel>,
    pub end: Option<EndModel>,
}

impl View for Session {
    type V = SessionModel;

    open spec fn view(&self) -> SessionModel {
        match self {
            Session::Initializing => SessionModel::Initializing,
            Session::ReadingAccount => SessionModel::ReadingAccount,
            Session::ReadingLimits { account } => SessionModel::ReadingLimits(account@),
            Session::Subscribed { account, limits } => SessionModel::Subscribed(account@, limits@),
            Session::Finished => SessionModel::Finished,
        }
    }
}

impl View for SessionEvent {
    type V = EventModel;

    open spec fn view(&self) -> EventModel {
        match self {
            SessionEvent::Message(m) => EventModel::Message(m@),
            SessionEvent::ReaderFailed(e) => EventModel::ReaderFailed(e@),
            SessionEvent::ReaderClosed => EventModel::ReaderClosed,
            SessionEvent::Idle => EventModel::Idle,
            SessionEvent::StopRequested => EventModel::StopRequested,
            SessionEvent::RefreshRequested => EventModel::RefreshRequested,
            SessionEvent::UiClosed => EventModel::UiClosed,
        }
    }
}

impl View for SessionEnd {
    type V = EndModel;

    open spec fn view(&self) -> EndModel {
        match self {
            SessionEnd::Stopped => EndModel::Stopped,
            SessionEnd::Failed(e) => EndModel::Failed(e@),
        }
    }
}

impl View for SessionStep {
    type V = StepModel;

    open spec fn view(&self) -> StepModel {
        StepModel {
            send: Seq::new(self.send@.len(), |i: int| self.send@[i]@),
            snapshot: match self.snapshot {
                Some(s) => Some(s@),
                None => None,
            },
            end: match self.end {
                Some(e) => Some(e@),
                None => None,
            },
        }
    }
}

// ---------------------------------------------------------------------------
// Requests
// ---------------------------------------------------------------------------

pub open spec fn int_model(n: u64) -> JsonModel {
    JsonModel::Number(NumberModel::PosInt(n))
}

/// `{"id": 1, "method": "initialize", "params": {"clientInfo": {"name":
/// "codex-tray", "version": version}, "capabilities": {}}}`
pub open spec fn initialize_request_model(version: Seq<char>) -> JsonModel {
    JsonModel::Object(
        seq![
            ("id"@, int_model(1)),
            ("method"@, JsonModel::Text("initialize"@)),
            (
                "params"@,
                JsonModel::Object(
                    seq![
                        (
                            "clientInfo"@,
                            JsonModel::Object(
                                seq![
                                    ("name"@, JsonModel::Text("codex-tray"@)),
                                    ("version"@, JsonModel::Text(version)),
                                ],
                            ),
                        ),
                        ("capabilities"@, JsonModel::Object(Seq::empty())),
                    ],
                ),
            ),
        ],
    )
}

/// `{"method": "initialized"}`
pub open spec fn initialized_notification_model() -> JsonModel {
    JsonModel::Object(seq![("method"@, JsonModel::Text("initialized"@))])
}

/// `{"id": 2, "method": "account/read", "params": {"refreshToken": false}}`
pub open spec fn account_read_request_model() -> JsonModel {
    JsonModel::Object(
        seq![
            ("id"@, int_model(2)),
            ("method"@, JsonModel::Text("account/read"@)),
            ("params"@, JsonModel::Object(seq![("refreshToken"@, JsonModel::Bool(false))])),
        ],
    )
}

/// `{"id": 3, "method": "account/rateLimits/read"}`
pub open spec fn limits_read_request_model() -> JsonModel {
    JsonModel::Object(
        seq![("id"@, int_model(3)), ("method"@, JsonModel::Text("account/rateLimits/read"@))],
    )
}

fn member(key: &str, value: JsonValue) -> (r: (String, JsonValue))
    ensures
        r.0@ == key@,
        r.1@ == value@,
{
    (key.to_owned(), value)
}

fn text(s: &str) -> (r: JsonValue)
    ensures
        r@ == JsonModel::Text(s@),
{
    JsonValue::String(s.to_owned())
}

fn object(entries: Vec<(String, JsonValue)>) -> (r: JsonValue)
    ensures
        r@ == JsonModel::Object(entries_model(entries@)),
{
    proof {
        lemma_object_model(entries);
    }
    JsonValue::Object(entries)
}

/// The `initialize` request, announcing this client and its version.
pub fn initialize_request(version: &str) -> (r: JsonValue)
    ensures
        r@ == initialize_request_model(version@),
{
    let info_entries = vec![member("name", text("codex-tray")), member("version", text(version))];
    proof {
        assert(entries_model(info_entries@) =~= seq![
            ("name"@, JsonModel::Text("codex-tray"@)),
            ("version"@, JsonModel::Text(version@)),
        ]);
    }
    let client_info = object(info_entries);
    let capabilities = object(Vec::new());
    proof {
        assert(capabilities@->Object_0 =~= Seq::empty());
    }
    let params_entries = vec![member("clientInfo", client_info), member("capabilities", capabilities)];
    let ghost info_model = client_info@;
    proof {
        assert(entries_model(params_entries@) =~= seq![
            ("clientInfo"@, info_model),
            ("capabilities"@, JsonModel::Object(Seq::empty())),
        ]);
    }
    let params = object(params_entries);
    let ghost params_model = params@;
    let request = vec![
        member("id", JsonValue::Number(JsonNumber::PosInt(1))),
        member("method", text("initialize")),
        member("params", params),
    ];
    proof {
        assert(entries_model(request@) =~= seq![
            ("id"@, int_model(1)),
            ("method"@, JsonModel::Text("initialize"@)),
            ("params"@, params_model),
        ]);
    }
    object(request)
}

/// The `initialized` notification that follows the `initialize` response.
pub fn initialized_notification() -> (r: JsonValue)
    ensures
        r@ == initialized_notification_model(),
{
    let entries = vec![member("method", text("initialized"))];
    proof {
        assert(entries_model(entries@) =~= seq![("method"@, JsonModel::Text("initialized"@))]);
    }
    object(entries)
}

/// The `account/read` request (request 2), without a token refresh.
pub fn account_read_request() -> (r: JsonValue)
    ensures
        r@ == account_read_request_model(),
{
    let params_entries = vec![member("refreshToken", JsonValue::Bool(false))];
    proof {
        assert(entries_model(params_entries@) =~= seq![("refreshToken"@, JsonModel::Bool(false))]);
    }
    let params = object(params_entries);
    let entries = vec![
        member("id", JsonValue::Number(JsonNumber::PosInt(2))),
        member("method", text("account/read")),
        member("params", params),
    ];
    proof {
        assert(entries_model(entries@) =~= seq![
            ("id"@, int_model(2)),
            ("method"@, JsonModel::Text("account/read"@)),
            ("params"@, JsonModel::Object(seq![("refreshToken"@, JsonModel::Bool(false))])),
        ]);
    }
    object(entries)
}

/// The `account/rateLimits/read` request (request 3).
pub fn limits_read_request() -> (r: JsonValue)
    ensures
        r@ == limits_read_request_model(),
{
    let entries = vec![
        member("id", JsonValue::Number(JsonNumber::PosInt(3))),
        member("method", text("account/rateLimits/read")),
    ];
    proof {
        assert(entries_model(entries@) =~= seq![
            ("id"@, int_model(3)),
            ("method"@, JsonModel::Text("account/rateLimits/read"@)),
        ]);
    }
    object(entries)
}

// ---------------------------------------------------------------------------
// The protocol
// ---------------------------------------------------------------------------

/// A step that asks for nothing.
pub open spec fn quiet() -> StepModel {
    StepModel { send: Seq::empty(), snapshot: None, end: None }
}

/// A step that writes `messages`.
pub open spec fn sends(messages: Seq<JsonModel>) -> StepModel {
    StepModel { send: messages, snapshot: None, end: None }
}

/// A step that hands `snapshot` to the panel.
pub open spec fn delivers(snapshot: SnapshotModel) -> StepModel {
    StepModel { send: Seq::empty(), snapshot: Some(snapshot), end: None }
}

/// A step that ends the session.
pub open spec fn ends(end: EndModel) -> StepModel {
    StepModel { send: Seq::empty(), snapshot: None, end: Some(end) }
}

/// A step that ends the session with a protocol error.
pub open spec fn fails(text: Seq<char>) -> StepModel {
    ends(EndModel::Failed(ErrorModel::Protocol(text)))
}

/// The `id` of a message, as `Value::as_i64` reads it.
pub open spec fn message_id(message: JsonModel) -> Option<i64> {
    i64_of(message.get("id"@))
}

/// A message answers request `id`: anything else is passed over while the
/// session waits for that response.
pub open spec fn answers(message: JsonModel, id: i64) -> bool {
    message_id(message) == Some(id)
}

/// The session after a message arrives, and what the worker must do.
pub open spec fn on_message(s: SessionModel, m: JsonModel, now: i64) -> (SessionModel, StepModel) {
    match s {
        SessionModel::Initializing => if !answers(m, 1) {
            (s, quiet())
        } else if m.get("error"@) is Some {
            (SessionModel::Finished, fails(json_text(m.get("error"@)->0)))
        } else {
            (
                SessionModel::ReadingAccount,
                sends(seq![initialized_notification_model(), account_read_request_model()]),
            )
        },
        SessionModel::ReadingAccount => if !answers(m, 2) {
            (s, quiet())
        } else if m.get("error"@) is Some {
            (SessionModel::Finished, fails(json_text(m.get("error"@)->0)))
        } else {
            (SessionModel::ReadingLimits(m), sends(seq![limits_read_request_model()]))
        },
        SessionModel::ReadingLimits(account) => if !answers(m, 3) {
            (s, quiet())
        } else if m.get("error"@) is Some {
            (SessionModel::Finished, fails(json_text(m.get("error"@)->0)))
        } else {
            match snapshot_model(account, m, now) {
                Ok(snapshot) => (SessionModel::Subscribed(account, m), delivers(snapshot)),
                Err(text) => (SessionModel::Finished, fails(text)),
            }
        },
        SessionModel::Subscribed(account, limits) => if str_of(m.get("method"@)) != Some(
            "account/rateLimits/updated"@,
        ) {
            (s, quiet())
        } else {
            match m.get("params"@) {
                None => (SessionModel::Finished, fails("в уведомлении лимитов нет params"@)),
                Some(params) => {
                    let (merged, err) = merged_limits(limits, params);
                    match err {
                        Some(text) => (SessionModel::Finished, fails(text)),
                        None => match snapshot_model(account, merged, now) {
                            Ok(snapshot) => (
                                SessionModel::Subscribed(account, merged),
                                delivers(snapshot),
                            ),
                            Err(text) => (SessionModel::Finished, fails(text)),
                        },
                    }
                },
            }
        },
        SessionModel::Finished => (s, quiet()),
    }
}

/// The session after an event at time `now`, and what the worker must do.
/// Commands are only looked at once the session is subscribed; a finished
/// session ignores everything.
pub open spec fn session_next(s: SessionModel, e: EventModel, now: i64) -> (SessionModel, StepModel) {
    if s is Finished {
        (s, quiet())
    } else {
        match e {
            EventModel::Message(m) => on_message(s, m, now),
            EventModel::ReaderFailed(err) => (SessionModel::Finished, ends(EndModel::Failed(err))),
            EventModel::ReaderClosed => (
                SessionModel::Finished,
                fails("канал чтения app-server неожиданно закрылся"@),
            ),
            EventModel::Idle => (s, quiet()),
            EventModel::StopRequested => if s is Subscribed {
                (SessionModel::Finished, ends(EndModel::Stopped))
            } else {
                (s, quiet())
            },
            EventModel::RefreshRequested => if s is Subscribed {
                (SessionModel::ReadingAccount, sends(seq![account_read_request_model()]))
            } else {
                (s, quiet())
            },
            EventModel::UiClosed => (SessionModel::Finished, fails("канал интерфейса закрыт"@)),
        }
    }
}

fn quiet_step() -> (r: SessionStep)
    ensures
        r@ == quiet(),
{
    let r = SessionStep { send: Vec::new(), snapshot: None, end: None };
    proof {
        assert(r@.send =~= Seq::<JsonModel>::empty());
    }
    r
}

fn end_step(end: SessionEnd) -> (r: SessionStep)
    ensures
        r@ == ends(end@),
{
    let r = SessionStep { send: Vec::new(), snapshot: None, end: Some(end) };
    proof {
        assert(r@.send =~= Seq::<JsonModel>::empty());
    }
    r
}

fn failed_step(text: &str) -> (r: SessionStep)
    ensures
        r@ == fails(text@),
{
    end_step(SessionEnd::Failed(protocol_error(text)))
}

fn refused_step(error: &JsonValue) -> (r: SessionStep)
    ensures
        r@ == fails(json_text(error@)),
{
    end_step(SessionEnd::Failed(CodexError::Protocol(json_string(error))))
}

fn snapshot_step(snapshot: UsageSnapshot) -> (r: SessionStep)
    ensures
        r@ == delivers(snapshot@),
{
    let r = SessionStep { send: Vec::new(), snapshot: Some(snapshot), end: None };
    proof {
        assert(r@.send =~= Seq::<JsonModel>::empty());
    }
    r
}

fn answers_exec(message: &JsonValue, id: i64) -> (r: bool)
    ensures
        r == answers(message@, id),
{
    match message.get("id") {
        Some(v) => match v.as_i64() {
            Some(n) => n == id,
            None => false,
        },
        None => false,
    }
}

/// What a response to request `id` does while the session waits for it:
/// `None` where it is not that response, else the error member or `Ok`.
fn check_response(message: &JsonValue, id: i64) -> (r: Option<Result<(), JsonValue>>)
    ensures
        match r {
            None => !answers(message@, id),
            Some(Ok(())) => answers(message@, id) && message@.get("error"@) is None,
            Some(Err(e)) => answers(message@, id) && message@.get("error"@) == Some(e@),
        },
{
    if !answers_exec(message, id) {
        return None;
    }
    match message.get("error") {
        Some(e) => Some(Err(e.deep_clone())),
        None => Some(Ok(())),
    }
}

impl Session {
    /// A new session and the `initialize` request that opens it.
    pub fn start(version: &str) -> (r: (Session, JsonValue))
        ensures
            r.0@ == SessionModel::Initializing,
            r.1@ == initialize_request_model(version@),
    {
        (Session::Initializing, initialize_request(version))
    }

    /// Whether the worker should look at its commands between messages
    /// (only a subscribed session does).
    pub fn polls_commands(&self) -> (r: bool)
        ensures
            r == self@ is Subscribed,
    {
        match self {
            Session::Subscribed { .. } => true,
            _ => false,
        }
    }

    /// Whether the session is over.
    pub fn is_finished(&self) -> (r: bool)
        ensures
            r == self@ is Finished,
    {
        match self {
            Session::Finished => true,
            _ => false,
        }
    }

    /// Advances the session by one event that happened at time `now`.
    pub fn step(self, event: SessionEvent, now: i64) -> (r: (Session, SessionStep))
        ensures
            ({
                let (next, step) = session_next(self@, event@, now);
                r.0@ == next && r.1@ == step
            }),
    {
        if self.is_finished() {
            return (self, quiet_step());
        }
        match event {
            SessionEvent::Message(m) => self.on_message(m, now),
            SessionEvent::ReaderFailed(e) => (Session::Finished, end_step(SessionEnd::Failed(e))),
            SessionEvent::ReaderClosed => (
                Session::Finished,
                failed_step("канал чтения app-server неожиданно закрылся"),
            ),
            SessionEvent::Idle => (self, quiet_step()),
            SessionEvent::StopRequested => if self.polls_commands() {
                (Session::Finished, end_step(SessionEnd::Stopped))
            } else {
                (self, quiet_step())
            },
            SessionEvent::RefreshRequested => if self.polls_commands() {
                let step = SessionStep { send: vec![account_read_request()], snapshot: None, end: None };
                proof {
                    assert(step@.send =~= seq![account_read_request_model()]);
                }
                (Session::ReadingAccount, step)
            } else {
                (self, quiet_step())
            },
            SessionEvent::UiClosed => (Session::Finished, failed_step("канал интерфейса закрыт")),
        }
    }

    /// Advances the session by one event that happens now. Where the step
    /// would hand over a snapshot but the system clock reads before the epoch,
    /// the session fails with the clock error instead.
    pub fn step_now(self, event: SessionEvent) -> (r: (Session, SessionStep))
        ensures
            (exists|now: i64| now >= 0 && #[trigger] session_next(self@, event@, now) == (r.0@, r.1@))
                || (session_next(self@, event@, 0).1.snapshot is Some && r.0@ is Finished && r.1@
                == fails(clock_error_text())),
    {
        match now_timestamp() {
            Some(now) => {
                let r = self.step(event, now);
                assert(session_next(self@, event@, now) == (r.0@, r.1@));
                r
            },
            None => {
                let (next, step) = self.step(event, 0);
                if step.snapshot.is_some() {
                    (Session::Finished, end_step(SessionEnd::Failed(clock_error())))
                } else {
                    assert(session_next(self@, event@, 0) == (next@, step@));
                    (next, step)
                }
            },
        }
    }

    fn on_message(self, m: JsonValue, now: i64) -> (r: (Session, SessionStep))
        ensures
            ({
                let (next, step) = on_message(self@, m@, now);
                r.0@ == next && r.1@ == step
            }),
    {
        match self {
            Session::Initializing => match check_response(&m, 1) {
                None => (Session::Initializing, quiet_step()),
                Some(Err(e)) => (Session::Finished, refused_step(&e)),
                Some(Ok(())) => {
                    let send = vec![initialized_notification(), account_read_request()];
                    let step = SessionStep { send, snapshot: None, end: None };
                    proof {
                        assert(step@.send =~= seq![
                            initialized_notification_model(),
                            account_read_request_model(),
                        ]);
                    }
                    (Session::ReadingAccount, step)
                },
            },
            Session::ReadingAccount => match check_response(&m, 2) {
                None => (Session::ReadingAccount, quiet_step()),
                Some(Err(e)) => (Session::Finished, refused_step(&e)),
                Some(Ok(())) => {
                    let send = vec![limits_read_request()];
                    let step = SessionStep { send, snapshot: None, end: None };
                    proof {
                        assert(step@.send =~= seq![limits_read_request_model()]);
                    }
                    (Session::ReadingLimits { account: m }, step)
                },
            },
            Session::ReadingLimits { account } => match check_response(&m, 3) {
                None => (Session::ReadingLimits { account }, quiet_step()),
                Some(Err(e)) => (Session::Finished, refused_step(&e)),
                Some(Ok(())) => match parse_snapshot_at(&account, &m, now) {
                    Ok(snapshot) => (
                        Session::Subscribed { account, limits: m },
                        snapshot_step(snapshot),
                    ),
                    Err(e) => (Session::Finished, end_step(SessionEnd::Failed(e))),
                },
            },
            Session::Subscribed { account, limits } => {
                let is_update = match m.get("method") {
                    Some(method) => match method.as_str() {
                        Some(name) => {
                            let owned = name.to_owned();
                            let expected = String::from_str("account/rateLimits/updated");
                            owned == expected
                        },
                        None => false,
                    },
                    None => false,
                };
                if !is_update {
                    return (Session::Subscribed { account, limits }, quiet_step());
                }
                let params = match m.get("params") {
                    Some(p) => p,
                    None => {
                        return (
                            Session::Finished,
                            failed_step("в уведомлении лимитов нет params"),
                        );
                    },
                };
                let mut limits = limits;
                match merge_rate_limits_notification(&mut limits, params) {
                    Err(e) => (Session::Finished, end_step(SessionEnd::Failed(e))),
                    Ok(()) => match parse_snapshot_at(&account, &limits, now) {
                        Ok(snapshot) => (Session::Subscribed { account, limits }, snapshot_step(snapshot)),
                        Err(e) => (Session::Finished, end_step(SessionEnd::Failed(e))),
                    },
                }
            },
            Session::Finished => (Session::Finished, quiet_step()),
        }
    }
}

// ---------------------------------------------------------------------------
// The app-server's output
// ---------------------------------------------------------------------------

/// What the reader passes on for one read, and whether it keeps reading:
/// a document is passed on and reading goes on; the end of the stream, a
/// malformed line or a failed read is passed on as an error and reading stops.
pub fn reader_step(read: LineRead) -> (r: (Result<JsonValue, CodexError>, bool))
    ensures
        match read {
            LineRead::End => r.0 matches Err(e) && e.is_protocol("app-server завершил поток событий"@)
                && !r.1,
            LineRead::Parsed(v) => r.0 == Ok::<JsonValue, CodexError>(v) && r.1,
            LineRead::Malformed(d) => r.0 matches Err(e) && e@ == ErrorModel::Json(d@) && !r.1,
            LineRead::Failed(d) => r.0 matches Err(e) && e@ == ErrorModel::Io(d@) && !r.1,
        },
{
    match read {
        LineRead::End => (Err(protocol_error("app-server завершил поток событий")), false),
        LineRead::Parsed(v) => (Ok(v), true),
        LineRead::Malformed(d) => (Err(CodexError::Json(d)), false),
        LineRead::Failed(d) => (Err(CodexError::Io(d)), false),
    }
}

// ---------------------------------------------------------------------------
// The worker between sessions
// ---------------------------------------------------------------------------

/// How the wait before reconnecting ended.
#[derive(Clone, Copy, Debug, PartialEq, Eq, Structural)]
pub enum ReconnectWait {
    /// The panel asked to stop.
    Stop,
    /// The panel went away.
    Disconnected,
    /// The delay passed with no command.
    TimedOut,
    /// The panel asked for fresh reads.
    Refresh,
}

/// Whether the worker opens a new session after the wait: when the delay
/// passed without a command, or the panel asked for fresh reads.
pub fn reconnects_after(wait: ReconnectWait) -> (r: bool)
    ensures
        r == (wait == ReconnectWait::TimedOut || wait == ReconnectWait::Refresh),
{
    match wait {
        ReconnectWait::TimedOut | ReconnectWait::Refresh => true,
        ReconnectWait::Stop | ReconnectWait::Disconnected => false,
    }
}

/// The update that reports a failed session at time `at`: the error's text.
pub fn failure_update(error: &CodexError, at: i64) -> (r: WorkerUpdate)
    ensures
        r matches WorkerUpdate::Error { message, at: when } && message@ == error.message_model()
            && when == at,
{
    WorkerUpdate::Error { message: error.message(), at }
}

/// The time recorded for a failure when the system clock reads before the
/// epoch; it lies outside chrono's range, so the panel shows it as unknown.
pub const UNKNOWN_TIME: i64 = -9_223_372_036_854_775_808;

/// The update that reports a failed session now (at [`UNKNOWN_TIME`] where the
/// clock reads before the epoch).
pub fn report_failure(error: &CodexError) -> (r: WorkerUpdate)
    ensures
        r matches WorkerUpdate::Error { message, at } && message@ == error.message_model() && (at
            >= 0 || at == UNKNOWN_TIME),
{
    let at = match now_timestamp() {
        Some(t) => t,
        None => UNKNOWN_TIME,
    };
    failure_update(error, at)
}

// ---------------------------------------------------------------------------
// Laws of the protocol
// ---------------------------------------------------------------------------

/// The response each waiting phase expects.
pub open spec fn expected_id(s: SessionModel) -> Option<i64> {
    match s {
        SessionModel::Initializing => Some(1),
        SessionModel::ReadingAccount => Some(2),
        SessionModel::ReadingLimits(_) => Some(3),
        _ => None,
    }
}

/// While a response is awaited, any other message is passed over: the
/// session stays as it is and nothing is done.
pub proof fn lemma_other_messages_passed_over(s: SessionModel, m: JsonModel, now: i64)
    requires
        expected_id(s) matches Some(id) && !answers(m, id),
    ensures
        session_next(s, EventModel::Message(m), now) == (s, quiet()),
{
}

/// An `error` in the awaited response ends the session with a protocol error
/// that holds the JSON text of that member.
pub proof fn lemma_refused_request_ends_session(s: SessionModel, m: JsonModel, now: i64)
    requires
        expected_id(s) matches Some(id) && answers(m, id),
        m.get("error"@) is Some,
    ensures
        session_next(s, EventModel::Message(m), now) == (
            SessionModel::Finished,
            fails(json_text(m.get("error"@)->0)),
        ),
{
}

/// A finished session stays finished and asks for nothing.
pub proof fn lemma_finished_is_final(e: EventModel, now: i64)
    ensures
        session_next(SessionModel::Finished, e, now) == (SessionModel::Finished, quiet()),
{
}

/// Every snapshot handed to the panel is the one that the session's account
/// response and its (merged) rate-limit response describe at that moment, and
/// the session is then subscribed to those responses.
pub proof fn lemma_delivered_snapshot_matches_responses(s: SessionModel, e: EventModel, now: i64)
    requires
        session_next(s, e, now).1.snapshot is Some,
    ensures
        session_next(s, e, now).0 matches SessionModel::Subscribed(account, limits)
            && snapshot_model(account, limits, now) == Ok::<SnapshotModel, Seq<char>>(
            session_next(s, e, now).1.snapshot->0,
        ),
{
    if let EventModel::Message(m) = e {
        match s {
            SessionModel::ReadingLimits(account) => {
                assert(session_next(s, e, now) == on_message(s, m, now));
            },
            SessionModel::Subscribed(account, limits) => {
                assert(session_next(s, e, now) == on_message(s, m, now));
            },
            _ => {},
        }
    }
}

/// A step either ends the session, or hands over a snapshot, or sends
/// requests, or does nothing; and the session ends exactly when it becomes
/// finished.
pub proof fn lemma_step_shape(s: SessionModel, e: EventModel, now: i64)
    ensures
        ({
            let (next, step) = session_next(s, e, now);
            &&& (step.end is Some) == (next is Finished && !(s is Finished))
            &&& step.end is Some ==> step.send.len() == 0 && step.snapshot is None
            &&& step.snapshot is Some ==> step.send.len() == 0
        }),
{
}

/// The panel's stop request ends a subscribed session, and only a subscribed
/// session looks at it.
pub proof fn lemma_stop_ends_subscription(s: SessionModel, now: i64)
    ensures
        s is Subscribed ==> session_next(s, EventModel::StopRequested, now) == (
            SessionModel::Finished,
            ends(EndModel::Stopped),
        ),
        !(s is Subscribed) ==> session_next(s, EventModel::StopRequested, now) == (s, quiet()),
{
}

/// The panel's refresh request repeats both reads over the open connection:
/// a subscribed session sends `account/read` again; its response leads to
/// `account/rateLimits/read`, and that response to a fresh snapshot of the
/// two new responses. A session that is not subscribed passes it over.
pub proof fn lemma_refresh_repeats_reads(
    account: JsonModel,
    limits: JsonModel,
    r2: JsonModel,
    r3: JsonModel,
    now: i64,
)
    requires
        answers(r2, 2) && r2.get("error"@) is None,
        answers(r3, 3) && r3.get("error"@) is None,
    ensures
        session_next(SessionModel::Subscribed(account, limits), EventModel::RefreshRequested, now) == (
            SessionModel::ReadingAccount,
            sends(seq![account_read_request_model()]),
        ),
        session_next(SessionModel::ReadingAccount, EventModel::Message(r2), now) == (
            SessionModel::ReadingLimits(r2),
            sends(seq![limits_read_request_model()]),
        ),
        session_next(SessionModel::ReadingLimits(r2), EventModel::Message(r3), now) == match snapshot_model(
            r2,
            r3,
            now,
        ) {
            Ok(snapshot) => (SessionModel::Subscribed(r2, r3), delivers(snapshot)),
            Err(text) => (SessionModel::Finished, fails(text)),
        },
{
}

/// Only a subscribed session acts on a refresh request.
pub proof fn lemma_refresh_only_when_subscribed(s: SessionModel, now: i64)
    requires
        !(s is Subscribed),
    ensures
        session_next(s, EventModel::RefreshRequested, now) == (s, quiet()),
{
}

/// The handshake: after response 1 the session sends `initialized` and
/// `account/read`; after response 2, `account/rateLimits/read`; after
/// response 3 it hands over the snapshot the two responses describe and
/// subscribes to them.
pub proof fn lemma_handshake(r1: JsonModel, r2: JsonModel, r3: JsonModel, now: i64)
    requires
        answers(r1, 1) && r1.get("error"@) is None,
        answers(r2, 2) && r2.get("error"@) is None,
        answers(r3, 3) && r3.get("error"@) is None,
        snapshot_model(r2, r3, now) is Ok,
    ensures
        session_next(SessionModel::Initializing, EventModel::Message(r1), now) == (
            SessionModel::ReadingAccount,
            sends(seq![initialized_notification_model(), account_read_request_model()]),
        ),
        session_next(SessionModel::ReadingAccount, EventModel::Message(r2), now) == (
            SessionModel::ReadingLimits(r2),
            sends(seq![limits_read_request_model()]),
        ),
        session_next(SessionModel::ReadingLimits(r2), EventModel::Message(r3), now) == (
            SessionModel::Subscribed(r2, r3),
            delivers(snapshot_model(r2, r3, now)->Ok_0),
        ),
{
}

/// Losing the app-server's output, or a failed read, ends any live session
/// with a failure, after which the worker reconnects.
pub proof fn lemma_reader_loss_ends_session(s: SessionModel, err: ErrorModel, now: i64)
    requires
        !(s is Finished),
    ensures
        session_next(s, EventModel::ReaderClosed, now) == (
            SessionModel::Finished,
            fails("канал чтения app-server неожиданно закрылся"@),
        ),
        session_next(s, EventModel::ReaderFailed(err), now) == (
            SessionModel::Finished,
            ends(EndModel::Failed(err)),
        ),
{
}

/// The documents a session holds are well-formed.
pub open spec fn session_well_formed(s: SessionModel) -> bool {
    match s {
        SessionModel::ReadingLimits(account) => account.well_formed(),
        SessionModel::Subscribed(account, limits) => account.well_formed() && limits.well_formed(),
        _ => true,
    }
}

/// Fed well-formed messages, a session only ever holds well-formed
/// documents: merging notifications keeps every object's keys distinct.
pub proof fn lemma_session_keeps_well_formed(s: SessionModel, e: EventModel, now: i64)
    requires
        session_well_formed(s),
        e matches EventModel::Message(m) ==> m.well_formed(),
    ensures
        session_well_formed(session_next(s, e, now).0),
{
    if let EventModel::Message(m) = e {
        if let SessionModel::Subscribed(account, limits) = s {
            if let JsonModel::Object(entries) = m {
                lemma_lookup_well_formed(entries, "params"@);
                if let Some(params) = m.get("params"@) {
                    lemma_merge_keeps_well_formed(limits, params);
                }
            }
            assert(session_next(s, e, now) == on_message(s, m, now));
        }
    }
}

} // verus!

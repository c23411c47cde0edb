//! Bookkeeping of the websocket watcher that follows the Mayhem program's logs.

use vstd::prelude::*;

use crate::clock::{is_clock_reading, unix_time_nanos};
use crate::config::AppConfig;
use crate::text::{abbreviate, can_abbreviate, option_view, spec_abbreviate, strings_view};
use vstd::utf8::encode_utf8;

verus! {

/// Where raw activity was observed.
#[derive(Debug, Clone, Copy, PartialEq, Eq, Structural)]
pub enum RawActivitySourceKind {
    WebSocketLogs,
}

impl RawActivitySourceKind {
    pub fn as_str(&self) -> (r: &'static str)
        ensures
            r@ == "websocket_logs"@,
    {
        match self {
            RawActivitySourceKind::WebSocketLogs => "websocket_logs",
        }
    }
}

/// What kind of raw activity was observed.
#[derive(Debug, Clone, Copy, PartialEq, Eq, Structural)]
pub enum RawActivityKind {
    MayhemLogMatch,
}

impl RawActivityKind {
    pub fn as_str(&self) -> (r: &'static str)
        ensures
            r@ == "mayhem_log_match"@,
    {
        match self {
            RawActivityKind::MayhemLogMatch => "mayhem_log_match",
        }
    }
}

/// A log notification that mentions the Mayhem program, before decoding.
#[derive(Debug, Clone)]
pub struct RawMayhemCandidate {
    pub source_kind: RawActivitySourceKind,
    pub activity_kind: RawActivityKind,
    pub rpc_label: String,
    /// When it was observed, in nanoseconds since the Unix epoch.
    pub observed_at: i128,
    pub signature: String,
    pub slot: u64,
    pub err: Option<String>,
    pub logs: Vec<String>,
    pub matched_program_id: String,
}

/// The health of the watcher.
#[derive(Debug, Clone, Copy, PartialEq, Eq, Structural)]
pub enum WatcherMode {
    Connecting,
    Healthy,
    Silent,
    Disconnected,
}

impl WatcherMode {
    pub fn as_str(&self) -> (r: &'static str)
        ensures
            r@ == (match self {
                WatcherMode::Connecting => "connecting"@,
                WatcherMode::Healthy => "healthy"@,
                WatcherMode::Silent => "silent"@,
                WatcherMode::Disconnected => "disconnected"@,
            }),
    {
        match self {
            WatcherMode::Connecting => "connecting",
            WatcherMode::Healthy => "healthy",
            WatcherMode::Silent => "silent",
            WatcherMode::Disconnected => "disconnected",
        }
    }
}

/// The watcher's counters and what it saw last.
#[derive(Debug, Clone)]
pub struct WatcherState {
    pub enabled: bool,
    pub source_kind: RawActivitySourceKind,
    pub rpc_label: String,
    pub mode: WatcherMode,
    pub matched_program_id: String,
    pub total_notifications_seen: u64,
    pub total_candidates_forwarded: u64,
    pub ignored_notifications: u64,
    pub reconnect_count: u64,
    /// When the last event was observed, in nanoseconds since the Unix epoch.
    pub last_event_at: Option<i128>,
    pub last_signature: Option<String>,
    pub last_slot: Option<u64>,
}

/// The fields of a `logsNotification` message that the watcher reads.
#[derive(Debug, Clone)]
pub struct LogsNotificationEntry {
    pub signature: String,
    pub slot: u64,
    /// The transaction error, rendered as JSON text, when there was one.
    pub err: Option<String>,
    pub logs: Vec<String>,
}

/// A websocket text message, as far as the watcher tells messages apart.
#[derive(Debug, Clone)]
pub enum WsTextMessage {
    /// Not JSON, or a `logsNotification` without the expected fields.
    Malformed,
    /// JSON whose `method` is not `logsNotification`.
    OtherMethod,
    /// A well-formed `logsNotification`.
    LogsNotification(LogsNotificationEntry),
}

/// A websocket text message that could not be read.
#[derive(Debug, Clone, Copy, PartialEq, Eq, Structural)]
pub struct MalformedWsMessage;

/// What the watcher task does when it starts.
#[derive(Debug, Clone, Copy, PartialEq, Eq, Structural)]
pub enum WatcherStart {
    /// The watcher is switched off.
    Disabled,
    /// The watcher is on but its websocket is switched off.
    WebSocketDisabled,
    /// Subscribe and watch.
    Run,
}

/// The mode of a watcher whose last event (if any) was observed at
/// `last_event_at`, read at time `now`: silent once more than `silence`
/// nanoseconds have passed, healthy before that, connecting when the last
/// event lies in the future; with no event yet, connecting until a first
/// reconnect and disconnected after.
pub open spec fn spec_mode_at(
    last_event_at: Option<i128>,
    reconnect_count: u64,
    now: i128,
    silence: u128,
) -> WatcherMode {
    match last_event_at {
        Some(at) => {
            if now < at {
                WatcherMode::Connecting
            } else if now - at > silence {
                WatcherMode::Silent
            } else {
                WatcherMode::Healthy
            }
        },
        None => {
            if reconnect_count == 0 {
                WatcherMode::Connecting
            } else {
                WatcherMode::Disconnected
            }
        },
    }
}

/// The watcher state after reading a text message observed at `observed_at`.
pub open spec fn spec_after_message(
    s: WatcherState,
    message: WsTextMessage,
    observed_at: i128,
) -> WatcherState {
    match message {
        WsTextMessage::Malformed => s,
        WsTextMessage::OtherMethod => s,
        WsTextMessage::LogsNotification(n) => WatcherState {
            total_notifications_seen: (s.total_notifications_seen + 1) as u64,
            total_candidates_forwarded: (s.total_candidates_forwarded + 1) as u64,
            last_event_at: Some(observed_at),
            last_signature: Some(n.signature),
            last_slot: Some(n.slot),
            mode: WatcherMode::Healthy,
            ..s
        },
    }
}

/// `c` is the candidate built from notification `n` by a watcher with
/// state `s`, observed at `observed_at`.
pub open spec fn candidate_for(
    c: RawMayhemCandidate,
    n: LogsNotificationEntry,
    s: WatcherState,
    config: AppConfig,
    observed_at: i128,
) -> bool {
    &&& c.source_kind == RawActivitySourceKind::WebSocketLogs
    &&& c.activity_kind == RawActivityKind::MayhemLogMatch
    &&& c.rpc_label@ == s.rpc_label@
    &&& c.observed_at == observed_at
    &&& c.signature@ == n.signature@
    &&& c.slot == n.slot
    &&& option_view(c.err) == option_view(n.err)
    &&& strings_view(c.logs@) == strings_view(n.logs@)
    &&& c.matched_program_id@ == config.watcher.mayhem.program_id@
}

/// The counters that reading `message` increments are below their limit.
pub open spec fn can_count(s: WatcherState, message: WsTextMessage) -> bool {
    match message {
        WsTextMessage::Malformed => true,
        WsTextMessage::OtherMethod => true,
        WsTextMessage::LogsNotification(_) => {
            &&& s.total_notifications_seen < u64::MAX
            &&& s.total_candidates_forwarded < u64::MAX
        },
    }
}

/// Every log notification is forwarded as a candidate, so the two counters
/// move together: equal before a message means equal after it, and no
/// counter ever goes down.
pub proof fn lemma_counters_move_together(s: WatcherState, message: WsTextMessage, observed_at: i128)
    requires
        can_count(s, message),
    ensures
        ({
            let t = spec_after_message(s, message, observed_at);
            &&& s.total_notifications_seen == s.total_candidates_forwarded
                ==> t.total_notifications_seen == t.total_candidates_forwarded
            &&& s.total_notifications_seen <= t.total_notifications_seen
            &&& s.total_candidates_forwarded <= t.total_candidates_forwarded
            &&& s.ignored_notifications <= t.ignored_notifications
            &&& s.reconnect_count == t.reconnect_count
        }),
{
}

/// A watcher that has just observed an event reads healthy, whatever the
/// silence threshold; it turns silent exactly when more time than the
/// threshold has passed since.
pub proof fn lemma_fresh_event_is_healthy(at: i128, reconnect_count: u64, now: i128, silence: u128)
    ensures
        spec_mode_at(Some(at), reconnect_count, at, silence) == WatcherMode::Healthy,
        at <= now ==> (spec_mode_at(Some(at), reconnect_count, now, silence)
            == WatcherMode::Silent <==> now - at > silence),
{
}

/// With no event seen, a watcher is connecting until its first reconnect and
/// disconnected from then on; after an event at `at`, it reads connecting when
/// `now` lies before `at`, silent when more than `silence` nanoseconds have
/// passed, and healthy otherwise.
pub proof fn lemma_mode_rules(
    last_event_at: Option<i128>,
    reconnect_count: u64,
    now: i128,
    silence: u128,
)
    ensures
        last_event_at is None ==> (spec_mode_at(last_event_at, reconnect_count, now, silence)
            == WatcherMode::Connecting <==> reconnect_count == 0),
        last_event_at is None && reconnect_count > 0 ==> spec_mode_at(
            last_event_at,
            reconnect_count,
            now,
            silence,
        ) == WatcherMode::Disconnected,
        last_event_at matches Some(at) ==> {
            &&& now < at ==> spec_mode_at(last_event_at, reconnect_count, now, silence)
                == WatcherMode::Connecting
            &&& at <= now && now - at > silence ==> spec_mode_at(
                last_event_at,
                reconnect_count,
                now,
                silence,
            ) == WatcherMode::Silent
            &&& at <= now && now - at <= silence ==> spec_mode_at(
                last_event_at,
                reconnect_count,
                now,
                silence,
            ) == WatcherMode::Healthy
        },
        last_event_at is Some ==> spec_mode_at(last_event_at, reconnect_count, now, silence)
            != WatcherMode::Disconnected,
{
}

/// Reading a log notification observed at `t` makes it the last event,
/// whatever was seen before: its time, signature and slot are remembered,
/// both counters go up by one, the watcher is healthy, and nothing else
/// changes. A malformed message or one for another method changes nothing.
pub proof fn lemma_notification_is_last_event(
    s: WatcherState,
    n: LogsNotificationEntry,
    t: i128,
)
    ensures
        ({
            let r = spec_after_message(s, WsTextMessage::LogsNotification(n), t);
            &&& r.last_event_at == Some(t)
            &&& r.last_signature == Some(n.signature)
            &&& r.last_slot == Some(n.slot)
            &&& r.mode == WatcherMode::Healthy
            &&& r.total_notifications_seen == s.total_notifications_seen + 1
                || s.total_notifications_seen == u64::MAX
            &&& r.total_candidates_forwarded == s.total_candidates_forwarded + 1
                || s.total_candidates_forwarded == u64::MAX
            &&& r.ignored_notifications == s.ignored_notifications
            &&& r.reconnect_count == s.reconnect_count
            &&& r.enabled == s.enabled
            &&& r.rpc_label == s.rpc_label
            &&& r.matched_program_id == s.matched_program_id
            &&& r.source_kind == s.source_kind
        }),
        spec_after_message(s, WsTextMessage::Malformed, t) == s,
        spec_after_message(s, WsTextMessage::OtherMethod, t) == s,
        spec_mode_at(Some(t), s.reconnect_count, t, 0) == WatcherMode::Healthy,
{
}

/// A candidate comes from the websocket logs as a Mayhem log match, carries
/// the notification's signature, slot, error and logs, the watcher's RPC
/// label, the configured program and the time it was observed.
pub proof fn lemma_candidate_fields(
    c: RawMayhemCandidate,
    n: LogsNotificationEntry,
    s: WatcherState,
    config: AppConfig,
    t: i128,
)
    requires
        candidate_for(c, n, s, config, t),
    ensures
        c.source_kind == RawActivitySourceKind::WebSocketLogs,
        c.activity_kind == RawActivityKind::MayhemLogMatch,
        c.observed_at == t,
        c.signature@ == n.signature@,
        c.slot == n.slot,
        c.err is Some <==> n.err is Some,
        c.err matches Some(e) ==> e@ == n.err->0@,
        c.logs@.len() == n.logs@.len(),
        forall|i: int| 0 <= i < c.logs@.len() ==> #[trigger] c.logs@[i]@ == n.logs@[i]@,
        c.rpc_label@ == s.rpc_label@,
        c.matched_program_id@ == config.watcher.mayhem.program_id@,
{
    assert(strings_view(c.logs@).len() == strings_view(n.logs@).len());
    assert forall|i: int| 0 <= i < c.logs@.len() implies #[trigger] c.logs@[i]@ == n.logs@[i]@ by {
        assert(strings_view(c.logs@)[i] == strings_view(n.logs@)[i]);
    }
}

/// The state after a subscription attempt starts: connecting.
pub open spec fn spec_after_connecting(s: WatcherState) -> WatcherState {
    WatcherState { mode: WatcherMode::Connecting, ..s }
}

/// The state after a subscription attempt fails: one more reconnect, and
/// disconnected.
pub open spec fn spec_after_disconnect(s: WatcherState) -> WatcherState {
    WatcherState {
        reconnect_count: (s.reconnect_count + 1) as u64,
        mode: WatcherMode::Disconnected,
        ..s
    }
}

/// The state after `k` subscription attempts that each start and then fail.
pub open spec fn spec_after_failed_attempts(s: WatcherState, k: nat) -> WatcherState
    decreases k,
{
    if k == 0 {
        s
    } else {
        spec_after_disconnect(spec_after_connecting(spec_after_failed_attempts(s, (k - 1) as nat)))
    }
}

/// After `k` failed subscription attempts the reconnect count has grown by
/// exactly `k`; once at least one attempt failed the watcher is disconnected;
/// nothing but the count and the mode changes. From a fresh watcher
/// ([`WatcherState::new`], count 0) the `k`-th failure is reported with
/// count `k`.
pub proof fn lemma_failed_attempts_count(s: WatcherState, k: nat)
    requires
        s.reconnect_count + k <= u64::MAX,
    ensures
        spec_after_failed_attempts(s, k).reconnect_count == s.reconnect_count + k,
        k > 0 ==> spec_after_failed_attempts(s, k).mode == WatcherMode::Disconnected,
        k == 0 ==> spec_after_failed_attempts(s, k) == s,
        spec_after_failed_attempts(s, k) == (WatcherState {
            reconnect_count: spec_after_failed_attempts(s, k).reconnect_count,
            mode: spec_after_failed_attempts(s, k).mode,
            ..s
        }),
    decreases k,
{
    if k > 0 {
        lemma_failed_attempts_count(s, (k - 1) as nat);
    }
}

/// Reading messages and recomputing the mode never touch the reconnect
/// count, so only failed attempts move it.
pub proof fn lemma_only_failures_count_reconnects(
    s: WatcherState,
    message: WsTextMessage,
    observed_at: i128,
    now: i128,
    silence: u128,
)
    ensures
        spec_after_message(s, message, observed_at).reconnect_count == s.reconnect_count,
        (WatcherState {
            mode: spec_mode_at(s.last_event_at, s.reconnect_count, now, silence),
            ..s
        }).reconnect_count == s.reconnect_count,
        spec_after_connecting(s).reconnect_count == s.reconnect_count,
{
}

/// The nanoseconds from `earlier` to `later`, which never exceed `u128`.
fn elapsed_nanos(earlier: i128, later: i128) -> (r: u128)
    requires
        earlier <= later,
    ensures
        r == later - earlier,
{
    if earlier >= 0 || later < 0 {
        (later - earlier) as u128
    } else {
        (later as u128) + ((-(earlier + 1)) as u128) + 1
    }
}

/// Whole seconds from a last event at `last_event_at` to `now`, both in
/// nanoseconds since the Unix epoch; `None` when the event lies after `now`.
pub fn event_age_secs(last_event_at: i128, now: i128) -> (r: Option<u128>)
    ensures
        r == (if now < last_event_at {
            None
        } else {
            Some(((now - last_event_at) / 1_000_000_000) as u128)
        }),
{
    if now < last_event_at {
        None
    } else {
        Some(elapsed_nanos(last_event_at, now) / 1_000_000_000)
    }
}

/// What the watcher task does at start, by its configuration.
pub fn watcher_start_decision(config: &AppConfig) -> (r: WatcherStart)
    ensures
        r == (if !config.watcher.enabled {
            WatcherStart::Disabled
        } else if !config.watcher.websocket.enabled {
            WatcherStart::WebSocketDisabled
        } else {
            WatcherStart::Run
        }),
{
    if !config.watcher.enabled {
        WatcherStart::Disabled
    } else if !config.watcher.websocket.enabled {
        WatcherStart::WebSocketDisabled
    } else {
        WatcherStart::Run
    }
}

/// `format!("{}...{}", &value[..6], &value[len - 4..])` for values longer than
/// 12 bytes; shorter values are kept whole.
pub fn shorten_signature(value: &str) -> (r: String)
    requires
        can_abbreviate(encode_utf8(value@), 12, 6, 4),
    ensures
        r@ == spec_abbreviate(value@, 12, 6, 4),
{
    abbreviate(value, 12, 6, 4)
}

impl WatcherState {
    /// A fresh watcher state: connecting, with every counter at zero and
    /// nothing seen yet.
    pub fn new(config: &AppConfig) -> (r: WatcherState)
        ensures
            r.enabled == config.watcher.enabled,
            r.source_kind == RawActivitySourceKind::WebSocketLogs,
            r.rpc_label == config.network.http_rpc.label,
            r.mode == WatcherMode::Connecting,
            r.matched_program_id == config.watcher.mayhem.program_id,
            r.total_notifications_seen == 0,
            r.total_candidates_forwarded == 0,
            r.ignored_notifications == 0,
            r.reconnect_count == 0,
            r.last_event_at is None,
            r.last_signature is None,
            r.last_slot is None,
    {
        WatcherState {
            enabled: config.watcher.enabled,
            source_kind: RawActivitySourceKind::WebSocketLogs,
            rpc_label: config.network.http_rpc.label.clone(),
            mode: WatcherMode::Connecting,
            matched_program_id: config.watcher.mayhem.program_id.clone(),
            total_notifications_seen: 0,
            total_candidates_forwarded: 0,
            ignored_notifications: 0,
            reconnect_count: 0,
            last_event_at: None,
            last_signature: None,
            last_slot: None,
        }
    }

    /// Recompute the mode as read at time `now`, with `silence_warning_after`
    /// nanoseconds of quiet making the watcher silent.
    pub fn recompute_mode_at(&mut self, now: i128, silence_warning_after: u128)
        ensures
            *final(self) == (WatcherState {
                mode: spec_mode_at(
                    old(self).last_event_at,
                    old(self).reconnect_count,
                    now,
                    silence_warning_after,
                ),
                ..*old(self)
            }),
    {
        self.mode = match self.last_event_at {
            Some(last_event_at) => {
                if now < last_event_at {
                    WatcherMode::Connecting
                } else if elapsed_nanos(last_event_at, now) > silence_warning_after {
                    WatcherMode::Silent
                } else {
                    WatcherMode::Healthy
                }
            },
            None => {
                if self.reconnect_count == 0 {
                    WatcherMode::Connecting
                } else {
                    WatcherMode::Disconnected
                }
            },
        };
    }

    /// Recompute the mode as of now, with `silence_warning_after`
    /// nanoseconds of quiet making the watcher silent. The current time is
    /// read from the clock, so the contract says the mode is the one for
    /// some reading of it.
    pub fn recompute_mode(&mut self, silence_warning_after: u128)
        ensures
            exists|now: i128|
                is_clock_reading(now as int) && *final(self) == (WatcherState {
                    mode: #[trigger] spec_mode_at(
                        old(self).last_event_at,
                        old(self).reconnect_count,
                        now,
                        silence_warning_after,
                    ),
                    ..*old(self)
                }),
    {
        let now = unix_time_nanos();
        self.recompute_mode_at(now, silence_warning_after);
    }

    /// Start a subscription attempt: the watcher is connecting again.
    pub fn mark_connecting(&mut self)
        ensures
            *final(self) == spec_after_connecting(*old(self)),
    {
        self.mode = WatcherMode::Connecting;
    }

    /// Read one text message observed at `observed_at`: a malformed message
    /// is an error and changes nothing, a message for another method changes
    /// nothing, and a log notification is counted, remembered and turned into
    /// a candidate.
    pub fn handle_ws_text_message_at(
        &mut self,
        message: WsTextMessage,
        config: &AppConfig,
        observed_at: i128,
    ) -> (r: Result<Option<RawMayhemCandidate>, MalformedWsMessage>)
        requires
            can_count(*old(self), message),
        ensures
            *final(self) == spec_after_message(*old(self), message, observed_at),
            r is Err <==> message is Malformed,
            r matches Ok(c) ==> (c is Some <==> message is LogsNotification),
            r matches Ok(Some(c)) ==> candidate_for(
                c,
                message->LogsNotification_0,
                *old(self),
                *config,
                observed_at,
            ),
    {
        match message {
            WsTextMessage::Malformed => Err(MalformedWsMessage),
            WsTextMessage::OtherMethod => Ok(None),
            WsTextMessage::LogsNotification(notification) => {
                self.total_notifications_seen = self.total_notifications_seen + 1;
                let candidate = RawMayhemCandidate {
                    source_kind: RawActivitySourceKind::WebSocketLogs,
                    activity_kind: RawActivityKind::MayhemLogMatch,
                    rpc_label: self.rpc_label.clone(),
                    observed_at,
                    signature: notification.signature.clone(),
                    slot: notification.slot,
                    err: notification.err,
                    logs: notification.logs,
                    matched_program_id: config.watcher.mayhem.program_id.clone(),
                };
                self.total_candidates_forwarded = self.total_candidates_forwarded + 1;
                self.last_event_at = Some(observed_at);
                self.last_signature = Some(notification.signature);
                self.last_slot = Some(notification.slot);
                self.mode = WatcherMode::Healthy;
                Ok(Some(candidate))
            },
        }
    }

    /// Read one text message as of now; see [`Self::handle_ws_text_message_at`].
    /// The observation time is read from the clock and left open by the contract.
    pub fn handle_ws_text_message(&mut self, message: WsTextMessage, config: &AppConfig) -> (r:
        Result<Option<RawMayhemCandidate>, MalformedWsMessage>)
        requires
            can_count(*old(self), message),
        ensures
            exists|observed_at: i128|
                is_clock_reading(observed_at as int) && *final(self) == #[trigger] spec_after_message(
                    *old(self),
                    message,
                    observed_at,
                ) && (r matches Ok(Some(c)) ==> candidate_for(
                    c,
                    message->LogsNotification_0,
                    *old(self),
                    *config,
                    observed_at,
                )),
            r is Err <==> message is Malformed,
            r matches Ok(c) ==> (c is Some <==> message is LogsNotification),
    {
        let observed_at = unix_time_nanos();
        self.handle_ws_text_message_at(message, config, observed_at)
    }

    /// Count a text message that could not be read.
    pub fn record_ignored_notification(&mut self)
        requires
            old(self).ignored_notifications < u64::MAX,
        ensures
            *final(self) == (WatcherState {
                ignored_notifications: (old(self).ignored_notifications + 1) as u64,
                ..*old(self)
            }),
    {
        self.ignored_notifications = self.ignored_notifications + 1;
    }

    /// Note that the subscription failed: one more reconnect, and disconnected.
    pub fn record_disconnect(&mut self)
        requires
            old(self).reconnect_count < u64::MAX,
        ensures
            *final(self) == spec_after_disconnect(*old(self)),
    {
        self.reconnect_count = self.reconnect_count + 1;
        self.mode = WatcherMode::Disconnected;
    }
}

} // verus!

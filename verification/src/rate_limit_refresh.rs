//! The decisions of the rate-limit refresh.
//!
//! A refresh probes one account with a minimal request in order to harvest a
//! fresh rate-limit snapshot. The caller does the work that waits: it opens
//! the stream, reads it, keeps the two deadlines and talks to the stores and
//! to the interface. After each thing that happened it asks the run what to
//! do about it. A run goes through two stages, opening the stream and
//! reading it, each with a time window of its own, and then is done.

use vstd::prelude::*;
use vstd::string::StringExecFns;
use crate::account::{AccountSwitchingMode, AuthMode};
use crate::account_id::{str_view, string_view};

verus! {

/// The time window of each stage, in seconds.
pub const RATE_LIMIT_REFRESH_TIMEOUT_SECS: u64 = 45;

/// The status by which the provider refuses a request as unauthorized.
pub const STATUS_UNAUTHORIZED: u16 = 401;

/// Why opening the stream failed, as far as the refresh tells causes apart.
#[derive(Clone, Copy, Debug, PartialEq, Eq, Structural)]
pub enum ProbeError {
    /// The provider answered with an unexpected status.
    UnexpectedStatus(u16),
    /// The credentials cannot be refreshed any more.
    AuthRefreshPermanent,
    /// Anything else.
    Other,
}

impl ProbeError {
    /// The failure shows that the account's credentials are not valid: the
    /// request was refused as unauthorized, or the credentials cannot be
    /// refreshed.
    pub open spec fn is_auth_failure(self) -> bool {
        match self {
            ProbeError::UnexpectedStatus(status) => status == STATUS_UNAUTHORIZED,
            ProbeError::AuthRefreshPermanent => true,
            ProbeError::Other => false,
        }
    }

    /// Tells whether the failure shows that the account's credentials are
    /// not valid.
    pub fn invalidates_auth(&self) -> (r: bool)
        ensures
            r == self.is_auth_failure(),
    {
        match self {
            ProbeError::UnexpectedStatus(status) => *status == STATUS_UNAUTHORIZED,
            ProbeError::AuthRefreshPermanent => true,
            ProbeError::Other => false,
        }
    }
}

/// What the stream handed out.
#[derive(Clone, Copy, Debug, PartialEq, Eq, Structural)]
pub enum StreamItem {
    /// An event that carries a rate-limit snapshot.
    RateLimits,
    /// The terminal event.
    Completed,
    /// Any other event.
    Other,
    /// The stream failed while it was read.
    Failed,
}

/// What happened, as the caller reports it to the run.
#[derive(Clone, Copy, Debug, PartialEq, Eq, Structural)]
pub enum RefreshEvent {
    /// No background worker could be had for the run.
    WorkerUnavailable,
    /// The runtime of the run could not be built.
    RuntimeFailed,
    /// The credentials of the probed account could not be made ready.
    AuthFailed,
    /// The client for the probe could not be built.
    ClientFailed,
    /// The stream is open.
    StreamOpened,
    /// Opening the stream failed.
    OpenFailed(ProbeError),
    /// The stream did not open within its window.
    OpenTimedOut,
    /// The stream handed out an item.
    Item(StreamItem),
    /// The stream ended.
    StreamEnded,
    /// Neither a snapshot nor the terminal event came within the window.
    ReadTimedOut,
}

/// Why a refresh failed.
#[derive(Clone, Copy, Debug, PartialEq, Eq, Structural)]
pub enum RefreshFailure {
    WorkerUnavailable,
    RuntimeUnavailable,
    AuthUnavailable,
    ClientUnavailable,
    OpenFailed,
    OpenTimedOut,
    ReadFailed,
    ReadTimedOut,
    SnapshotMissing,
}

impl RefreshFailure {
    /// The text of the failure, as the interface shows it.
    pub open spec fn message_text(self) -> Seq<char> {
        match self {
            RefreshFailure::WorkerUnavailable =>
                "Failed to refresh rate limits: background worker unavailable"@,
            RefreshFailure::RuntimeUnavailable =>
                "Failed to refresh rate limits: building rate limit refresh runtime"@,
            RefreshFailure::AuthUnavailable =>
                "Failed to refresh rate limits: building auth for stored account"@,
            RefreshFailure::ClientUnavailable =>
                "Failed to refresh rate limits: initializing debug logger"@,
            RefreshFailure::OpenFailed =>
                "Failed to refresh rate limits: requesting rate limit snapshot"@,
            RefreshFailure::OpenTimedOut =>
                "Failed to refresh rate limits: requesting rate limit snapshot timed out after 45s"@,
            RefreshFailure::ReadFailed =>
                "Failed to refresh rate limits: reading rate limit refresh stream"@,
            RefreshFailure::ReadTimedOut =>
                "Failed to refresh rate limits: waiting for rate limit snapshot timed out after 45s"@,
            RefreshFailure::SnapshotMissing =>
                "Failed to refresh rate limits: rate limit snapshot missing from response"@,
        }
    }

    /// Returns the text of the failure.
    pub fn message(&self) -> (text: String)
        ensures
            text@ == self.message_text(),
    {
        match self {
            RefreshFailure::WorkerUnavailable => String::from_str(
                "Failed to refresh rate limits: background worker unavailable",
            ),
            RefreshFailure::RuntimeUnavailable => String::from_str(
                "Failed to refresh rate limits: building rate limit refresh runtime",
            ),
            RefreshFailure::AuthUnavailable => String::from_str(
                "Failed to refresh rate limits: building auth for stored account",
            ),
            RefreshFailure::ClientUnavailable => String::from_str(
                "Failed to refresh rate limits: initializing debug logger",
            ),
            RefreshFailure::OpenFailed => String::from_str(
                "Failed to refresh rate limits: requesting rate limit snapshot",
            ),
            RefreshFailure::OpenTimedOut => String::from_str(
                "Failed to refresh rate limits: requesting rate limit snapshot timed out after 45s",
            ),
            RefreshFailure::ReadFailed => String::from_str(
                "Failed to refresh rate limits: reading rate limit refresh stream",
            ),
            RefreshFailure::ReadTimedOut => String::from_str(
                "Failed to refresh rate limits: waiting for rate limit snapshot timed out after 45s",
            ),
            RefreshFailure::SnapshotMissing => String::from_str(
                "Failed to refresh rate limits: rate limit snapshot missing from response",
            ),
        }
    }
}

/// The failure that an event reports about setting the run up, for the
/// events that report one.
pub open spec fn setup_failure(event: RefreshEvent) -> Option<RefreshFailure> {
    match event {
        RefreshEvent::WorkerUnavailable => Some(RefreshFailure::WorkerUnavailable),
        RefreshEvent::RuntimeFailed => Some(RefreshFailure::RuntimeUnavailable),
        RefreshEvent::AuthFailed => Some(RefreshFailure::AuthUnavailable),
        RefreshEvent::ClientFailed => Some(RefreshFailure::ClientUnavailable),
        _ => None,
    }
}

/// Returns the failure that an event reports about setting the run up.
fn as_setup_failure(event: RefreshEvent) -> (r: Option<RefreshFailure>)
    ensures
        r == setup_failure(event),
{
    match event {
        RefreshEvent::WorkerUnavailable => Some(RefreshFailure::WorkerUnavailable),
        RefreshEvent::RuntimeFailed => Some(RefreshFailure::RuntimeUnavailable),
        RefreshEvent::AuthFailed => Some(RefreshFailure::AuthUnavailable),
        RefreshEvent::ClientFailed => Some(RefreshFailure::ClientUnavailable),
        _ => None,
    }
}

/// Where a run stands.
#[derive(Clone, Copy, Debug, PartialEq, Eq, Structural)]
pub enum RefreshPhase {
    /// Waiting for the stream to open.
    Opening,
    /// Waiting for a snapshot or the terminal event.
    Reading,
    /// Over, with a snapshot.
    Succeeded,
    /// Over, without one.
    Failed(RefreshFailure),
}

/// Something the caller is to do on behalf of the run, as a mathematical
/// value.
pub enum EffectView {
    RecordAuthInvalidHint { account_id: Seq<char>, plan: Option<Seq<char>> },
    PersistSnapshot { account_id: Seq<char>, plan: Option<Seq<char>> },
    EmitTelemetry,
    NotifySnapshotStored { account_id: Seq<char> },
    NotifyFetchFailed { failure: RefreshFailure },
}

/// Something the caller is to do on behalf of the run.
#[derive(Clone, Debug, PartialEq, Eq)]
pub enum RefreshEffect {
    /// Store the hint that the account's credentials are not valid, under
    /// the account and its plan.
    RecordAuthInvalidHint { account_id: String, plan: Option<String> },
    /// Store the harvested snapshot, under the account and its plan.
    PersistSnapshot { account_id: String, plan: Option<String> },
    /// Send the harvested snapshot to the interface as a full event.
    EmitTelemetry,
    /// Tell the interface that the refresh for the account is over.
    NotifySnapshotStored { account_id: String },
    /// Tell the interface that the refresh failed.
    NotifyFetchFailed { failure: RefreshFailure },
}

impl View for RefreshEffect {
    type V = EffectView;

    open spec fn view(&self) -> EffectView {
        match self {
            RefreshEffect::RecordAuthInvalidHint {
                account_id,
                plan,
            } => EffectView::RecordAuthInvalidHint { account_id: account_id@, plan: string_view(*plan) },
            RefreshEffect::PersistSnapshot { account_id, plan } => EffectView::PersistSnapshot {
                account_id: account_id@,
                plan: string_view(*plan),
            },
            RefreshEffect::EmitTelemetry => EffectView::EmitTelemetry,
            RefreshEffect::NotifySnapshotStored { account_id } => EffectView::NotifySnapshotStored {
                account_id: account_id@,
            },
            RefreshEffect::NotifyFetchFailed { failure } => EffectView::NotifyFetchFailed {
                failure: *failure,
            },
        }
    }
}

/// The effects as mathematical values, in order.
pub open spec fn effect_views(effects: Seq<RefreshEffect>) -> Seq<EffectView> {
    effects.map_values(|e: RefreshEffect| e@)
}

/// A run as a mathematical value.
pub struct RunView {
    pub phase: RefreshPhase,
    /// The run is visible: its snapshot goes to the interface as a full
    /// event.
    pub emit_ui: bool,
    /// A failure is reported to the interface.
    pub notify_on_failure: bool,
    /// The account under which the snapshot is stored, if one is known.
    pub account_id: Option<Seq<char>>,
    /// The plan of that account, if it is known.
    pub plan: Option<Seq<char>>,
    /// How many items the stream handed out.
    pub events_seen: nat,
}

impl RunView {
    /// The run is over.
    pub open spec fn is_over(self) -> bool {
        self.phase is Succeeded || self.phase is Failed
    }

    /// The notice that the refresh for the account is over. A visible run
    /// sends none, and neither does a run without a known account.
    pub open spec fn stored_notice(self) -> Seq<EffectView> {
        match self.account_id {
            Some(account_id) => if self.emit_ui {
                Seq::empty()
            } else {
                seq![EffectView::NotifySnapshotStored { account_id }]
            },
            None => Seq::empty(),
        }
    }

    /// The report of a failure, where failures are reported.
    pub open spec fn failure_notice(self, failure: RefreshFailure) -> Seq<EffectView> {
        if self.notify_on_failure {
            seq![EffectView::NotifyFetchFailed { failure }]
        } else {
            Seq::empty()
        }
    }

    /// The hint that the credentials are not valid, for a known account and
    /// a failure that shows it.
    pub open spec fn auth_hint(self, error: ProbeError) -> Seq<EffectView> {
        match self.account_id {
            Some(account_id) => if error.is_auth_failure() {
                seq![EffectView::RecordAuthInvalidHint { account_id, plan: self.plan }]
            } else {
                Seq::empty()
            },
            None => Seq::empty(),
        }
    }

    /// What a successful run leaves behind: the snapshot is stored for a
    /// known account, and then shown by a visible run or announced by a
    /// silent one.
    pub open spec fn success_effects(self) -> Seq<EffectView> {
        let persisted = match self.account_id {
            Some(account_id) => seq![EffectView::PersistSnapshot { account_id, plan: self.plan }],
            None => Seq::empty(),
        };
        if self.emit_ui {
            persisted + seq![EffectView::EmitTelemetry]
        } else {
            persisted + self.stored_notice()
        }
    }

    /// What a failed run leaves behind once its stream was asked for: the
    /// notice that the refresh is over, then the report of the failure.
    pub open spec fn failure_effects(self, failure: RefreshFailure) -> Seq<EffectView> {
        self.stored_notice() + self.failure_notice(failure)
    }

    /// The run with one more item counted.
    pub open spec fn counted(self) -> RunView {
        RunView {
            events_seen: if self.events_seen < usize::MAX {
                self.events_seen + 1
            } else {
                self.events_seen
            },
            ..self
        }
    }

    /// The run in another phase.
    pub open spec fn moved_to(self, phase: RefreshPhase) -> RunView {
        RunView { phase, ..self }
    }

    /// The run after `event`, and what the caller is to do.
    ///
    /// A run that could not be set up fails before it asked for a stream,
    /// and only the failure is reported. An event that does not belong to
    /// the stage that the run is in changes nothing and asks for nothing.
    pub open spec fn step(self, event: RefreshEvent) -> (RunView, Seq<EffectView>) {
        match (self.phase, event) {
            (
                RefreshPhase::Opening,
                RefreshEvent::WorkerUnavailable
                | RefreshEvent::RuntimeFailed
                | RefreshEvent::AuthFailed
                | RefreshEvent::ClientFailed,
            ) => (
                self.moved_to(RefreshPhase::Failed(setup_failure(event)->Some_0)),
                self.failure_notice(setup_failure(event)->Some_0),
            ),
            (RefreshPhase::Opening, RefreshEvent::StreamOpened) => (
                self.moved_to(RefreshPhase::Reading),
                Seq::empty(),
            ),
            (RefreshPhase::Opening, RefreshEvent::OpenFailed(error)) => (
                self.moved_to(RefreshPhase::Failed(RefreshFailure::OpenFailed)),
                self.auth_hint(error) + self.failure_effects(RefreshFailure::OpenFailed),
            ),
            (RefreshPhase::Opening, RefreshEvent::OpenTimedOut) => (
                self.moved_to(RefreshPhase::Failed(RefreshFailure::OpenTimedOut)),
                self.failure_effects(RefreshFailure::OpenTimedOut),
            ),
            (RefreshPhase::Reading, RefreshEvent::Item(StreamItem::RateLimits)) => (
                self.counted().moved_to(RefreshPhase::Succeeded),
                self.success_effects(),
            ),
            (RefreshPhase::Reading, RefreshEvent::Item(StreamItem::Completed)) => (
                self.counted().moved_to(RefreshPhase::Failed(RefreshFailure::SnapshotMissing)),
                self.failure_effects(RefreshFailure::SnapshotMissing),
            ),
            (RefreshPhase::Reading, RefreshEvent::Item(StreamItem::Other)) => (
                self.counted(),
                Seq::empty(),
            ),
            (RefreshPhase::Reading, RefreshEvent::Item(StreamItem::Failed)) => (
                self.counted().moved_to(RefreshPhase::Failed(RefreshFailure::ReadFailed)),
                self.failure_effects(RefreshFailure::ReadFailed),
            ),
            (RefreshPhase::Reading, RefreshEvent::StreamEnded) => (
                self.moved_to(RefreshPhase::Failed(RefreshFailure::SnapshotMissing)),
                self.failure_effects(RefreshFailure::SnapshotMissing),
            ),
            (RefreshPhase::Reading, RefreshEvent::ReadTimedOut) => (
                self.moved_to(RefreshPhase::Failed(RefreshFailure::ReadTimedOut)),
                self.failure_effects(RefreshFailure::ReadTimedOut),
            ),
            _ => (self, Seq::empty()),
        }
    }
}

/// One refresh, from the request for a stream to its end.
pub struct RefreshRun {
    phase: RefreshPhase,
    emit_ui: bool,
    notify_on_failure: bool,
    account_id: Option<String>,
    plan: Option<String>,
    events_seen: usize,
}

impl View for RefreshRun {
    type V = RunView;

    closed spec fn view(&self) -> RunView {
        RunView {
            phase: self.phase,
            emit_ui: self.emit_ui,
            notify_on_failure: self.notify_on_failure,
            account_id: string_view(self.account_id),
            plan: string_view(self.plan),
            events_seen: self.events_seen as nat,
        }
    }
}

/// The account under which a refresh stores its snapshot: the account that
/// is probed, and the active account where none is named.
pub fn resolve_record_account(probed: Option<&str>, active: Option<&str>) -> (r: Option<String>)
    ensures
        string_view(r) == crate::reactive::effective_current(
            str_view(probed),
            str_view(active),
        ),
{
    match probed {
        Some(id) => Some(id.to_owned()),
        None => match active {
            Some(id) => Some(id.to_owned()),
            None => None,
        },
    }
}

/// The kind of credentials that a probe of the active account uses.
pub fn probe_auth_mode(using_chatgpt_auth: bool) -> (mode: AuthMode)
    ensures
        mode == if using_chatgpt_auth {
            AuthMode::ChatGPT
        } else {
            AuthMode::ApiKey
        },
{
    if using_chatgpt_auth {
        AuthMode::ChatGPT
    } else {
        AuthMode::ApiKey
    }
}

/// The switching settings of a request.
#[derive(Clone, Copy, Debug, PartialEq, Eq, Structural)]
pub struct SwitchingSettings {
    pub auto_switch_accounts_on_rate_limit: bool,
    pub api_key_fallback_on_all_accounts_limited: bool,
    pub account_switching_mode: AccountSwitchingMode,
}

/// The settings under which a probe is sent: a probe never switches
/// accounts, whatever the settings of the session are.
pub fn probe_settings(session: SwitchingSettings) -> (probe: SwitchingSettings)
    ensures
        !probe.auto_switch_accounts_on_rate_limit,
        probe.account_switching_mode == AccountSwitchingMode::Manual,
        probe.api_key_fallback_on_all_accounts_limited
            == session.api_key_fallback_on_all_accounts_limited,
{
    SwitchingSettings {
        auto_switch_accounts_on_rate_limit: false,
        api_key_fallback_on_all_accounts_limited: session.api_key_fallback_on_all_accounts_limited,
        account_switching_mode: AccountSwitchingMode::Manual,
    }
}

/// The request that a probe sends.
#[derive(Clone, Debug, PartialEq, Eq)]
pub struct ProbePrompt {
    /// Whether the provider keeps the exchange.
    pub store: bool,
    pub user_instructions: Option<String>,
    pub base_instructions_override: Option<String>,
    /// The one message of the user.
    pub input: String,
    /// The tag under which the request is logged.
    pub log_tag: String,
}

/// Returns the request that a probe sends: it is not kept by the provider,
/// carries the instructions of the session, and asks for the shortest
/// answer there is.
pub fn probe_prompt(user_instructions: Option<String>, base_instructions: Option<String>) -> (prompt:
    ProbePrompt)
    ensures
        !prompt.store,
        prompt.user_instructions == user_instructions,
        prompt.base_instructions_override == base_instructions,
        prompt.input@ == "Yield immediately with only the message \"ok\""@,
        prompt.log_tag@ == "tui/rate_limit_refresh"@,
{
    ProbePrompt {
        store: false,
        user_instructions,
        base_instructions_override: base_instructions,
        input: String::from_str("Yield immediately with only the message \"ok\""),
        log_tag: String::from_str("tui/rate_limit_refresh"),
    }
}

/// The notice that a refresh for the account is over, if one is to be sent:
/// a visible run sends none, and neither does a run without a known account.
pub fn maybe_emit_snapshot_stored(emit_ui: bool, account_id: Option<&str>) -> (notice: Option<
    RefreshEffect,
>)
    ensures
        match notice {
            Some(effect) => {
                &&& !emit_ui
                &&& account_id matches Some(id)
                &&& effect@ == (EffectView::NotifySnapshotStored { account_id: id@ })
            },
            None => emit_ui || account_id is None,
        },
{
    if emit_ui {
        return None;
    }
    match account_id {
        Some(id) => Some(RefreshEffect::NotifySnapshotStored { account_id: id.to_owned() }),
        None => None,
    }
}

/// The hint that the account's credentials are not valid, if one is to be
/// stored: the account must be known and the failure must show it.
pub fn maybe_record_auth_invalid_hint(
    account_id: Option<&str>,
    plan: Option<&str>,
    error: ProbeError,
) -> (hint: Option<RefreshEffect>)
    ensures
        match hint {
            Some(effect) => {
                &&& error.is_auth_failure()
                &&& account_id matches Some(id)
                &&& effect@ == (EffectView::RecordAuthInvalidHint {
                    account_id: id@,
                    plan: str_view(plan),
                })
            },
            None => !error.is_auth_failure() || account_id is None,
        },
{
    match account_id {
        Some(id) => {
            if error.invalidates_auth() {
                Some(
                    RefreshEffect::RecordAuthInvalidHint {
                        account_id: id.to_owned(),
                        plan: owned(plan),
                    },
                )
            } else {
                None
            }
        },
        None => None,
    }
}

impl RefreshRun {
    /// Starts a run for the account `account_id` with the plan `plan`. It
    /// waits for its stream to open.
    pub fn start(
        account_id: Option<String>,
        plan: Option<String>,
        emit_ui: bool,
        notify_on_failure: bool,
    ) -> (run: RefreshRun)
        ensures
            run@ == (RunView {
                phase: RefreshPhase::Opening,
                emit_ui,
                notify_on_failure,
                account_id: string_view(account_id),
                plan: string_view(plan),
                events_seen: 0,
            }),
    {
        RefreshRun {
            phase: RefreshPhase::Opening,
            emit_ui,
            notify_on_failure,
            account_id,
            plan,
            events_seen: 0,
        }
    }

    /// Returns where the run stands.
    pub fn phase(&self) -> (phase: RefreshPhase)
        ensures
            phase == self@.phase,
    {
        self.phase
    }

    /// Tells whether the run is over.
    pub fn is_done(&self) -> (r: bool)
        ensures
            r == self@.is_over(),
    {
        match self.phase {
            RefreshPhase::Succeeded | RefreshPhase::Failed(_) => true,
            _ => false,
        }
    }

    /// Returns how many items the stream handed out.
    pub fn events_seen(&self) -> (n: usize)
        ensures
            n == self@.events_seen,
    {
        self.events_seen
    }

    /// Returns the time window of the stage that the run is in, in seconds.
    /// The window opens when the stage is entered; a run that is over waits
    /// for nothing.
    pub fn stage_timeout_secs(&self) -> (window: Option<u64>)
        ensures
            window == if self@.is_over() {
                None
            } else {
                Some(RATE_LIMIT_REFRESH_TIMEOUT_SECS)
            },
    {
        if self.is_done() {
            None
        } else {
            Some(RATE_LIMIT_REFRESH_TIMEOUT_SECS)
        }
    }

    /// Adds the notice that the refresh is over, where one is to be sent.
    fn push_stored_notice(&self, effects: &mut Vec<RefreshEffect>)
        ensures
            effect_views(final(effects)@) == effect_views(old(effects)@) + self@.stored_notice(),
    {
        let ghost before = effect_views(effects@);
        match maybe_emit_snapshot_stored(self.emit_ui, opt_str(&self.account_id)) {
            Some(effect) => {
                effects.push(effect);
                assert(effect_views(effects@) =~= before.push(effect@));
            },
            None => {},
        }
        assert(effect_views(effects@) =~= before + self@.stored_notice());
    }

    /// Adds what a failed run leaves behind.
    fn push_failure_effects(&self, effects: &mut Vec<RefreshEffect>, failure: RefreshFailure)
        ensures
            effect_views(final(effects)@) == effect_views(old(effects)@) + self@.failure_effects(
                failure,
            ),
    {
        let ghost before = effect_views(effects@);
        self.push_stored_notice(effects);
        let ghost middle = effect_views(effects@);
        if self.notify_on_failure {
            let effect = RefreshEffect::NotifyFetchFailed { failure };
            effects.push(effect);
            assert(effect_views(effects@) =~= middle.push(effect@));
        }
        assert(effect_views(effects@) =~= before + self@.failure_effects(failure));
    }

    /// Counts one more item of the stream.
    fn count_item(&mut self)
        ensures
            final(self)@ == old(self)@.counted(),
    {
        if self.events_seen < usize::MAX {
            self.events_seen = self.events_seen + 1;
        }
    }

    /// Takes in what happened and returns what the caller is to do, in
    /// order.
    pub fn on_event(&mut self, event: RefreshEvent) -> (effects: Vec<RefreshEffect>)
        ensures
            final(self)@ == old(self)@.step(event).0,
            effect_views(effects@) == old(self)@.step(event).1,
    {
        let mut effects: Vec<RefreshEffect> = Vec::new();
        assert(effect_views(effects@) =~= Seq::empty());
        match (self.phase, event) {
            (
                RefreshPhase::Opening,
                RefreshEvent::WorkerUnavailable
                | RefreshEvent::RuntimeFailed
                | RefreshEvent::AuthFailed
                | RefreshEvent::ClientFailed,
            ) => {
                if let Some(failure) = as_setup_failure(event) {
                    if self.notify_on_failure {
                        let effect = RefreshEffect::NotifyFetchFailed { failure };
                        effects.push(effect);
                        assert(effect_views(effects@) =~= seq![effect@]);
                    }
                    self.phase = RefreshPhase::Failed(failure);
                }
            },
            (RefreshPhase::Opening, RefreshEvent::StreamOpened) => {
                self.phase = RefreshPhase::Reading;
            },
            (RefreshPhase::Opening, RefreshEvent::OpenFailed(error)) => {
                match maybe_record_auth_invalid_hint(
                    opt_str(&self.account_id),
                    opt_str(&self.plan),
                    error,
                ) {
                    Some(effect) => {
                        effects.push(effect);
                        assert(effect_views(effects@) =~= seq![effect@]);
                    },
                    None => {},
                }
                assert(effect_views(effects@) =~= self@.auth_hint(error));
                self.push_failure_effects(&mut effects, RefreshFailure::OpenFailed);
                self.phase = RefreshPhase::Failed(RefreshFailure::OpenFailed);
            },
            (RefreshPhase::Opening, RefreshEvent::OpenTimedOut) => {
                self.push_failure_effects(&mut effects, RefreshFailure::OpenTimedOut);
                self.phase = RefreshPhase::Failed(RefreshFailure::OpenTimedOut);
            },
            (RefreshPhase::Reading, RefreshEvent::Item(StreamItem::RateLimits)) => {
                match &self.account_id {
                    Some(id) => {
                        let effect = RefreshEffect::PersistSnapshot {
                            account_id: id.clone(),
                            plan: owned(opt_str(&self.plan)),
                        };
                        effects.push(effect);
                        assert(effect_views(effects@) =~= seq![effect@]);
                    },
                    None => {},
                }
                if self.emit_ui {
                    let ghost before = effect_views(effects@);
                    effects.push(RefreshEffect::EmitTelemetry);
                    assert(effect_views(effects@) =~= before.push(EffectView::EmitTelemetry));
                } else {
                    self.push_stored_notice(&mut effects);
                }
                assert(effect_views(effects@) =~= self@.success_effects());
                self.count_item();
                self.phase = RefreshPhase::Succeeded;
            },
            (RefreshPhase::Reading, RefreshEvent::Item(StreamItem::Completed)) => {
                self.push_failure_effects(&mut effects, RefreshFailure::SnapshotMissing);
                self.count_item();
                self.phase = RefreshPhase::Failed(RefreshFailure::SnapshotMissing);
            },
            (RefreshPhase::Reading, RefreshEvent::Item(StreamItem::Other)) => {
                self.count_item();
            },
            (RefreshPhase::Reading, RefreshEvent::Item(StreamItem::Failed)) => {
                self.push_failure_effects(&mut effects, RefreshFailure::ReadFailed);
                self.count_item();
                self.phase = RefreshPhase::Failed(RefreshFailure::ReadFailed);
            },
            (RefreshPhase::Reading, RefreshEvent::StreamEnded) => {
                self.push_failure_effects(&mut effects, RefreshFailure::SnapshotMissing);
                self.phase = RefreshPhase::Failed(RefreshFailure::SnapshotMissing);
            },
            (RefreshPhase::Reading, RefreshEvent::ReadTimedOut) => {
                self.push_failure_effects(&mut effects, RefreshFailure::ReadTimedOut);
                self.phase = RefreshPhase::Failed(RefreshFailure::ReadTimedOut);
            },
            _ => {},
        }
        effects
    }
}

/// Copies an optional string.
fn owned(text: Option<&str>) -> (r: Option<String>)
    ensures
        string_view(r) == str_view(text),
{
    match text {
        Some(s) => Some(s.to_owned()),
        None => None,
    }
}

/// Borrows the string of an optional string.
fn opt_str(id: &Option<String>) -> (r: Option<&str>)
    ensures
        str_view(r) == string_view(*id),
{
    match id {
        Some(s) => Some(s.as_str()),
        None => None,
    }
}

/// A run that is over takes nothing in: whatever is reported to it changes
/// nothing and asks for nothing.
pub proof fn lemma_finished_run_is_final(run: RunView, event: RefreshEvent)
    requires
        run.is_over(),
    ensures
        run.step(event) == (run, Seq::<EffectView>::empty()),
{
}

/// A silent run for a known account always announces its end: the step that
/// ends it, with or without a snapshot, asks for the notice that the refresh
/// for the account is over, unless the run could not be set up at all.
pub proof fn lemma_silent_run_announces_its_end(run: RunView, event: RefreshEvent)
    requires
        !run.is_over(),
        !run.emit_ui,
        run.account_id is Some,
        run.step(event).0.is_over(),
        setup_failure(event) is None,
    ensures
        run.step(event).1.contains(
            EffectView::NotifySnapshotStored { account_id: run.account_id->Some_0 },
        ),
{
    let notice = EffectView::NotifySnapshotStored { account_id: run.account_id->Some_0 };
    let effects = run.step(event).1;
    assert(run.stored_notice() =~= seq![notice]);
    assert(run.stored_notice()[0] == notice);
    match (run.phase, event) {
        (RefreshPhase::Opening, RefreshEvent::OpenFailed(error)) => {
            let at = run.auth_hint(error).len() as int;
            assert(effects[at] == notice);
        },
        (RefreshPhase::Reading, RefreshEvent::Item(StreamItem::RateLimits)) => {
            assert(effects[1] == notice);
        },
        _ => {
            assert(effects[0] == notice);
        },
    }
}

/// A run that fails neither stores nor shows a snapshot.
pub proof fn lemma_failed_run_keeps_no_snapshot(run: RunView, event: RefreshEvent, k: int)
    requires
        !run.is_over(),
        run.step(event).0.phase is Failed,
        0 <= k < run.step(event).1.len(),
    ensures
        !(run.step(event).1[k] is PersistSnapshot),
        !(run.step(event).1[k] is EmitTelemetry),
{
}

/// The hint that credentials are not valid is stored only for a stream that
/// could not be opened because the request was refused as unauthorized or
/// the credentials cannot be refreshed, and only for a known account.
pub proof fn lemma_auth_hint_only_on_auth_failure(run: RunView, event: RefreshEvent, k: int)
    requires
        0 <= k < run.step(event).1.len(),
        run.step(event).1[k] is RecordAuthInvalidHint,
    ensures
        run.phase is Opening,
        event matches RefreshEvent::OpenFailed(error) && error.is_auth_failure(),
        run.account_id == Some(run.step(event).1[k]->RecordAuthInvalidHint_account_id),
{
}

} // verus!

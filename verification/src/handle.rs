//! The operations of a running runtime, as its handle offers them.
//!
//! An operation that needs the network or the disk is split: one function decides what is
//! done, and another one turns what came of it into the answer.

use vstd::prelude::*;

use crate::api::{AgentVersion, ApiError, DeleteError, Platform, ReqTunnelsCreateV1, ReqTunnelsCreateV1View, TunnelCreateErrorV1, TunnelProtocolV1View, TunnelType};
use crate::claim::{active_after, claim_page, claim_url, finish_claim, generate_claim_code, is_claim_code};
use crate::error::{IoFailure, RuntimeError, RuntimeErrorView};
use crate::http_client::{AuthState, HttpClient, HttpClientView};
use crate::ipc::{protocol, protocol_info};
use crate::model::{
    AccountLoginUrlResponse, AccountResponse, AccountResponseView, AccountStatus, AgentLifecycle,
    AgentLifecycleView, ClaimResponse, CommandResponse, CommandResponseView, ConnectionStats,
    ServiceErrorCode, ServiceErrorView, ServicePhase, ServiceStatus, ServiceStatusView,
    ServiceUpdate, ServiceUpdateView,
    SubscribeResponse, SubscribeResponseView, SubscriptionSnapshotView, TunnelCreateResponse,
    TunnelCreateResponseView, TunnelListResponse, TunnelListResponseView, TunnelProtocol,
};
use crate::options::{platform_for_options, RuntimeOptions, RuntimeOptionsView, VersionDetails, VersionDetailsView};
use crate::outside::uuid_parse;
use crate::runtime::{setup_failure, Effect, EffectView, NextView, SupervisorEventView, SupervisorView};
use crate::secret::{reset_secret_file, write_failure, LoadedSecretView, SecretSource, SecretSourceView};
use crate::state::{
    agent_state, fresh_link, guest_link, last_summary, news_of, seconds_between, state_view,
    summary_of, uptime_secs, GuestLoginCache, PollNews, RunData, StateCache, StatePolling,
    StatusContext, StatusContextView,
};
use crate::text::{copy_opt, opt_text, owned, trimmed};
use crate::tunnels::{
    agent_uuid, api_error, bad_tunnel_id, client_error, create_failure_error,
    create_minecraft_request, create_request, generic_error, map_generic_api_error,
    map_tunnel_create_error, map_tunnel_delete_error, no_provisioning, not_ready, parse_tunnel_id,
    raw_protocol, request_view, response_error, secret_provisioning_state_error, tunnel_list,
    tunnel_request, valid_call_error,
};

verus! {

/// The state of a runtime that its handles share.
pub struct RuntimeInner {
    pub state_cache: StateCache,
    /// Whether the runtime stops.
    pub cancelled: bool,
    pub status_context: StatusContext,
    pub secret_source: SecretSource,
    /// Whether a secret can be handed over to be stored.
    pub can_provision: bool,
    /// The API client in use.
    pub api: Option<HttpClient>,
    pub guest_login_cache: GuestLoginCache,
    /// The code of the active claim.
    pub claim_code: Option<String>,
    pub api_base: String,
    pub version: VersionDetails,
    pub agent_version: AgentVersion,
    pub platform: Platform,
}

/// A handle by which a host controls its runtime.
pub struct PlayitHandle {
    pub inner: RuntimeInner,
}

/// The model of a [`PlayitHandle`].
#[verifier::ext_equal]
pub struct HandleView {
    pub state: SubscriptionSnapshotView,
    pub cancelled: bool,
    pub context: StatusContextView,
    pub source: SecretSourceView,
    pub can_provision: bool,
    pub api: Option<HttpClientView>,
    pub login: Option<(Seq<char>, u64)>,
    pub claim_code: Option<Seq<char>>,
    pub api_base: Seq<char>,
    pub version: VersionDetailsView,
    pub agent_version: AgentVersion,
    pub platform: Platform,
}

impl View for PlayitHandle {
    type V = HandleView;

    open spec fn view(&self) -> HandleView {
        HandleView {
            state: self.inner.state_cache@,
            cancelled: self.inner.cancelled,
            context: self.inner.status_context@,
            source: self.inner.secret_source@,
            can_provision: self.inner.can_provision,
            api: match self.inner.api {
                Some(client) => Some(client@),
                None => None,
            },
            login: self.inner.guest_login_cache@,
            claim_code: opt_text(self.inner.claim_code),
            api_base: self.inner.api_base@,
            version: self.inner.version@,
            agent_version: self.inner.agent_version,
            platform: self.inner.platform,
        }
    }
}

/// The error for an operation that needs the API before a client is in use.
pub open spec fn api_not_ready() -> RuntimeErrorView {
    api_error(ServiceErrorCode::ApiUnavailable, "The Playit API is not ready yet."@, true)
}

fn api_not_ready_error() -> (r: RuntimeError)
    ensures
        r@ == api_not_ready(),
{
    RuntimeError::api(
        ServiceErrorCode::ApiUnavailable,
        owned("The Playit API is not ready yet."),
        true,
    )
}

impl HandleView {
    /// Why a secret cannot be provisioned now, if so.
    pub open spec fn provisioning_refused(self) -> Option<RuntimeErrorView> {
        if self.cancelled {
            Some(RuntimeErrorView::Stopped)
        } else if !(self.state.lifecycle is WaitingForSecret) {
            Some(no_provisioning(self.state.lifecycle))
        } else if !self.can_provision {
            Some(self.source.provisioning_error())
        } else {
            None
        }
    }

    /// The status at a moment.
    pub open spec fn status(self, now: u64) -> ServiceStatusView {
        ServiceStatusView {
            uptime_secs: seconds_between(self.context.start_time, now),
            ..self.state.status
        }
    }

    /// The handle after its API client was replaced by one with a secret, or dropped.
    pub open spec fn with_api(self, secret: Option<Seq<char>>) -> HandleView {
        HandleView {
            api: match secret {
                Some(secret) => Some(
                    HttpClientView {
                        api_base: self.api_base,
                        auth_header: Some("Agent-Key "@ + trimmed(secret)),
                    },
                ),
                None => None,
            },
            ..self
        }
    }

    /// The handle after something that the supervisor asked for.
    pub open spec fn performed(self, effect: EffectView, pid: u32, now: u64) -> HandleView {
        match effect {
            EffectView::Publish { phase, has_secret, last_error, lifecycle } => HandleView {
                state: SubscriptionSnapshotView {
                    status: self.context.status(phase, has_secret, last_error, pid, now),
                    lifecycle,
                    ..self.state
                },
                ..self
            },
            EffectView::SetApi(secret) => self.with_api(secret),
            EffectView::RefreshOrigins => self,
        }
    }

    /// The handle after all that the supervisor asked for, one after the other.
    pub open spec fn performed_all(self, effects: Seq<EffectView>, pid: u32, now: u64) -> HandleView
        decreases effects.len(),
    {
        if effects.len() == 0 {
            self
        } else {
            self.performed_all(effects.drop_last(), pid, now).performed(effects.last(), pid, now)
        }
    }

    /// Two handles that differ in nothing but the secret: that of an inline source, and the
    /// credential of the API client.
    pub open spec fn same_but_secret(self, other: HandleView) -> bool {
        &&& other == (HandleView { source: other.source, api: other.api, ..self })
        &&& self.source.same_but_secret(other.source)
        &&& match (self.api, other.api) {
            (Some(a), Some(b)) => a.api_base == b.api_base,
            (None, None) => true,
            _ => false,
        }
    }

    /// What the account is known by.
    pub open spec fn account(self) -> AccountResponseView {
        let claim_url = match self.claim_code {
            Some(code) => Some(claim_page(code)),
            None => None,
        };
        match self.state.lifecycle {
            AgentLifecycleView::Running(state) => AccountResponseView {
                status: state.account_status,
                agent_id: if state.agent_id.len() > 0 {
                    Some(state.agent_id)
                } else {
                    None
                },
                login_link: state.login_link,
                claim_url,
            },
            _ => AccountResponseView {
                status: AccountStatus::Unknown,
                agent_id: None,
                login_link: None,
                claim_url,
            },
        }
    }
}

// ---------------------------------------------------------------------------
// Setting up
// ---------------------------------------------------------------------------

/// What follows a poll of the API.
pub enum PollOutcome {
    /// Tell this change; whether the API answers again, and what is new.
    Told { update: ServiceUpdate, recovered: bool, news: PollNews },
    /// Tell nothing; whether the API answered before.
    Silent { was_available: bool },
}

/// The handle of a new runtime, whose version's variant has the UUID `variant_id`.
pub open spec fn new_handle(
    options: RuntimeOptionsView,
    source: SecretSourceView,
    context: StatusContextView,
    can_provision: bool,
    variant_id: u128,
    current_platform: Platform,
) -> HandleView {
    HandleView {
        state: SubscriptionSnapshotView::empty(),
        cancelled: false,
        context,
        source,
        can_provision,
        api: None,
        login: None,
        claim_code: None,
        api_base: options.api_base,
        version: options.version,
        agent_version: AgentVersion {
            variant_id,
            version_major: options.version.major,
            version_minor: options.version.minor,
            version_patch: options.version.patch,
        },
        platform: if options.platform_docker {
            Platform::Docker
        } else {
            current_platform
        },
    }
}

/// The state of a new runtime: fails where the version's variant is no UUID.
pub fn make_inner(
    options: &RuntimeOptions,
    source: SecretSource,
    status_context: StatusContext,
    can_provision: bool,
    current_platform: Platform,
) -> (r: Result<RuntimeInner, RuntimeError>)
    ensures
        match uuid_parse(options@.version.variant_id) {
            Ok(variant_id) => {
                &&& r is Ok
                &&& (PlayitHandle { inner: r->Ok_0 })@ == new_handle(
                    options@,
                    source@,
                    status_context@,
                    can_provision,
                    variant_id,
                    current_platform,
                )
            },
            Err(error) => r is Err && r->Err_0@ == setup_failure(
                "invalid variant ID "@ + options@.version.variant_id + ": "@ + error,
                false,
            ),
        },
{
    let agent_version = match options.version.agent_version() {
        Ok(version) => version,
        Err(error) => return Err(RuntimeError::setup(error, false)),
    };
    Ok(
        RuntimeInner {
            state_cache: StateCache::default(),
            cancelled: false,
            status_context,
            secret_source: source,
            can_provision,
            api: None,
            guest_login_cache: GuestLoginCache::new(),
            claim_code: None,
            api_base: options.api_base.clone(),
            version: options.version.clone(),
            agent_version,
            platform: platform_for_options(options, current_platform),
        },
    )
}

impl PlayitHandle {
    /// Ask the runtime to stop.
    pub fn request_shutdown(&mut self)
        ensures
            final(self)@ == (HandleView { cancelled: true, ..old(self)@ }),
            final(self).inner.api == old(self).inner.api,
    {
        self.inner.cancelled = true;
    }

    /// Talk to the API with a secret, or not at all.
    pub fn set_api(&mut self, secret: Option<String>)
        ensures
            final(self)@ == old(self)@.with_api(opt_text(secret)),
    {
        self.inner.api = match secret {
            Some(secret) => Some(
                HttpClient::new_with_auth(
                    self.inner.api_base.clone(),
                    AuthState::agent_key(secret),
                ),
            ),
            None => None,
        };
    }

    /// Keep a new state, and the two changes to tell subscribers, in order.
    pub fn publish_state(&mut self, status: ServiceStatus, lifecycle: AgentLifecycle) -> (r: (
        ServiceUpdate,
        ServiceUpdate,
    ))
        ensures
            final(self)@ == (HandleView {
                state: SubscriptionSnapshotView {
                    status: status@,
                    lifecycle: lifecycle@,
                    ..old(self)@.state
                },
                ..old(self)@
            }),
            final(self).inner.api == old(self).inner.api,
            r.0@ == ServiceUpdateView::Status(status@),
            r.1@ == ServiceUpdateView::Lifecycle(lifecycle@),
    {
        self.inner.state_cache.set_status(status.clone());
        self.inner.state_cache.set_lifecycle(lifecycle.clone());
        (ServiceUpdate::Status(status), ServiceUpdate::Lifecycle(lifecycle))
    }

    /// Keep a new status alone, and the change to tell subscribers.
    pub fn publish_status(&mut self, status: ServiceStatus) -> (r: ServiceUpdate)
        ensures
            final(self)@ == (HandleView {
                state: SubscriptionSnapshotView { status: status@, ..old(self)@.state },
                ..old(self)@
            }),
            final(self).inner.api == old(self).inner.api,
            r@ == ServiceUpdateView::Status(status@),
    {
        self.inner.state_cache.set_status(status.clone());
        ServiceUpdate::Status(status)
    }

    /// Keep new counts, and the change to tell subscribers.
    pub fn publish_stats(&mut self, stats: ConnectionStats) -> (r: ServiceUpdate)
        ensures
            final(self)@ == (HandleView {
                state: SubscriptionSnapshotView { stats, ..old(self)@.state },
                ..old(self)@
            }),
            final(self).inner.api == old(self).inner.api,
            r@ == ServiceUpdateView::Stats(stats),
    {
        self.inner.state_cache.set_stats(stats);
        ServiceUpdate::Stats(stats)
    }

    /// Note what a poll of the API gave: what it says of the running agent is kept and told,
    /// and a poll that failed changes and tells nothing.
    pub fn state_polled(
        &mut self,
        polling: &mut StatePolling,
        reply: Option<&RunData>,
        login_link: Option<String>,
    ) -> (r: PollOutcome)
        ensures
            final(self).inner.api == old(self).inner.api,
            match reply {
                Some(data) => {
                    let state = state_view(
                        *data,
                        old(self)@.context.version,
                        opt_text(login_link),
                        old(self)@.context.start_time,
                    );
                    let lifecycle = AgentLifecycleView::Running(state);
                    &&& final(self)@ == (HandleView {
                        state: SubscriptionSnapshotView { lifecycle, ..old(self)@.state },
                        ..old(self)@
                    })
                    &&& final(polling).api_available
                    &&& last_summary(*final(polling)) == Some(summary_of(state))
                    &&& r matches PollOutcome::Told { update, recovered, news }
                    &&& update@ == ServiceUpdateView::Lifecycle(lifecycle)
                    &&& recovered == (!old(polling).api_available && last_summary(
                        *old(polling),
                    ) is Some)
                    &&& news == news_of(last_summary(*old(polling)), state)
                },
                None => {
                    &&& final(self)@ == old(self)@
                    &&& !final(polling).api_available
                    &&& final(polling).last_running_summary == old(polling).last_running_summary
                    &&& r == (PollOutcome::Silent { was_available: old(polling).api_available })
                },
            },
    {
        match reply {
            Some(data) => {
                let recovered = polling.answered();
                let state = agent_state(
                    data,
                    self.inner.status_context.version.as_str(),
                    login_link,
                    self.inner.status_context.start_time,
                );
                let news = polling.polled(&state);
                let lifecycle = AgentLifecycle::Running(state);
                self.inner.state_cache.set_lifecycle(lifecycle.clone());
                PollOutcome::Told { update: ServiceUpdate::Lifecycle(lifecycle), recovered, news }
            },
            None => PollOutcome::Silent { was_available: polling.failed() },
        }
    }

    /// Carry out what the supervisor asks for, in process `pid` at the moment `now`: the two
    /// changes to tell subscribers, in order, if the state is told. What the API knows of
    /// the tunnels' origins is no part of the handle.
    pub fn perform(&mut self, effect: Effect, pid: u32, now: u64) -> (r: Option<
        (ServiceUpdate, ServiceUpdate),
    >)
        ensures
            final(self)@ == old(self)@.performed(effect@, pid, now),
            match effect@ {
                EffectView::Publish { phase, has_secret, last_error, lifecycle } => {
                    &&& r matches Some(updates)
                    &&& updates.0@ == ServiceUpdateView::Status(
                        old(self)@.context.status(phase, has_secret, last_error, pid, now),
                    )
                    &&& updates.1@ == ServiceUpdateView::Lifecycle(lifecycle)
                },
                _ => r is None,
            },
    {
        match effect {
            Effect::Publish { phase, has_secret, last_error, lifecycle } => {
                let status = self.inner.status_context.status(
                    phase,
                    has_secret,
                    last_error,
                    pid,
                    now,
                );
                Some(self.publish_state(status, lifecycle))
            },
            Effect::SetApi(secret) => {
                self.set_api(secret);
                None
            },
            Effect::RefreshOrigins => None,
        }
    }
}

// ---------------------------------------------------------------------------
// Reading the state
// ---------------------------------------------------------------------------

impl PlayitHandle {
    /// The status at the moment `now`.
    pub fn status(&self, now: u64) -> (r: ServiceStatus)
        ensures
            r@ == self@.status(now),
    {
        let mut status = self.inner.state_cache.status();
        status.uptime_secs = uptime_secs(self.inner.status_context.start_time, now);
        status
    }

    pub fn lifecycle(&self) -> (r: AgentLifecycle)
        ensures
            r@ == self@.state.lifecycle,
    {
        self.inner.state_cache.lifecycle()
    }

    pub fn stats(&self) -> (r: ConnectionStats)
        ensures
            r == self@.state.stats,
    {
        self.inner.state_cache.stats()
    }

    /// What a new subscriber starts from, at the moment `now`.
    pub fn subscription_snapshot(&self, now: u64) -> (r: SubscribeResponse)
        ensures
            r@ == (SubscribeResponseView {
                protocol: protocol(),
                snapshot: SubscriptionSnapshotView { status: self@.status(now), ..self@.state },
            }),
    {
        let mut snapshot = self.inner.state_cache.subscription_snapshot();
        snapshot.status = self.status(now);
        SubscribeResponse { protocol: protocol_info(), snapshot }
    }

    /// The secret file, if the secret comes from one.
    pub fn secret_path(&self) -> (r: Option<String>)
        ensures
            opt_text(r) == match self@.source {
                SecretSourceView::File { path } => Some(path),
                SecretSourceView::Inline { .. } => None,
            },
    {
        match self.inner.secret_source.secret_path() {
            Some(path) => Some(owned(path)),
            None => None,
        }
    }

    /// Refuse an operation of a runtime that stops.
    pub fn ensure_running(&self) -> (r: Result<(), RuntimeError>)
        ensures
            if self@.cancelled {
                r == Err::<(), RuntimeError>(RuntimeError::Stopped)
            } else {
                r is Ok
            },
    {
        if self.inner.cancelled {
            Err(RuntimeError::stopped())
        } else {
            Ok(())
        }
    }

    /// The page of the active claim.
    pub fn claim_url(&self) -> (r: Option<String>)
        ensures
            opt_text(r) == match self@.claim_code {
                Some(code) => Some(claim_page(code)),
                None => None,
            },
    {
        match &self.inner.claim_code {
            Some(code) => Some(claim_url(code.as_str())),
            None => None,
        }
    }

    /// What is known of the account.
    pub fn account(&self) -> (r: Result<AccountResponse, RuntimeError>)
        ensures
            if self@.cancelled {
                r == Err::<AccountResponse, RuntimeError>(RuntimeError::Stopped)
            } else {
                r is Ok && r->Ok_0@ == self@.account()
            },
    {
        match self.ensure_running() {
            Ok(_) => {},
            Err(error) => return Err(error),
        }
        let claim_url = self.claim_url();
        match &self.inner.state_cache.lifecycle {
            AgentLifecycle::Running(state) => Ok(
                AccountResponse {
                    status: state.account_status,
                    agent_id: if state.agent_id.as_str().is_empty() {
                        None
                    } else {
                        Some(state.agent_id.clone())
                    },
                    login_link: copy_opt(&state.login_link),
                    claim_url,
                },
            ),
            _ => Ok(
                AccountResponse {
                    status: AccountStatus::Unknown,
                    agent_id: None,
                    login_link: None,
                    claim_url,
                },
            ),
        }
    }

    /// The tunnels of the running agent.
    pub fn list_tunnels(&self) -> (r: Result<TunnelListResponse, RuntimeError>)
        ensures
            if self@.cancelled {
                r == Err::<TunnelListResponse, RuntimeError>(RuntimeError::Stopped)
            } else {
                match self@.state.lifecycle {
                    AgentLifecycleView::Running(state) => r is Ok && r->Ok_0@ == (
                    TunnelListResponseView {
                        tunnels: state.tunnels,
                        pending_tunnels: state.pending_tunnels,
                    }),
                    other => r is Err && r->Err_0@ == not_ready("list tunnels"@, other),
                }
            },
    {
        match self.ensure_running() {
            Ok(_) => {},
            Err(error) => return Err(error),
        }
        tunnel_list(self.inner.state_cache.lifecycle())
    }
}

// ---------------------------------------------------------------------------
// Login links
// ---------------------------------------------------------------------------

/// How a login link is come by.
pub enum LoginUrlPlan {
    /// The link is at hand.
    Known(AccountLoginUrlResponse),
    /// Ask the API for a guest session with this client.
    Ask(HttpClient),
}

impl PlayitHandle {
    /// How a login link is come by at the moment `now`: the last one if it is fresh, else a
    /// new one.
    pub fn account_login_url(&self, now: u64) -> (r: Result<LoginUrlPlan, RuntimeError>)
        ensures
            if self@.cancelled {
                r == Err::<LoginUrlPlan, RuntimeError>(RuntimeError::Stopped)
            } else {
                match fresh_link(self@.login, now) {
                    Some(link) => r matches Ok(LoginUrlPlan::Known(known)) && known.login_url@
                        == link,
                    None => match self.inner.api {
                        Some(api) => r == Ok::<LoginUrlPlan, RuntimeError>(LoginUrlPlan::Ask(api)),
                        None => r is Err && r->Err_0@ == api_not_ready(),
                    },
                }
            },
    {
        match self.ensure_running() {
            Ok(_) => {},
            Err(error) => return Err(error),
        }
        match self.inner.guest_login_cache.lookup(now) {
            Some(link) => return Ok(
                LoginUrlPlan::Known(AccountLoginUrlResponse { login_url: link }),
            ),
            None => {},
        }
        match &self.inner.api {
            Some(api) => Ok(LoginUrlPlan::Ask(api.clone())),
            None => Err(api_not_ready_error()),
        }
    }

    /// The login link of a new guest session, given its key; it is kept for a while.
    pub fn account_login_answer<F>(
        &mut self,
        answer: Result<String, ApiError<F>>,
        now: u64,
    ) -> (r: Result<AccountLoginUrlResponse, RuntimeError>)
        requires
            answer matches Err(error) ==> valid_call_error(error),
        ensures
            match answer {
                Ok(session_key) => {
                    &&& r is Ok
                    &&& r->Ok_0.login_url@ == guest_link(session_key@)
                    &&& final(self)@ == (HandleView {
                        login: Some((guest_link(session_key@), now)),
                        ..old(self)@
                    })
                },
                Err(error) => {
                    &&& r is Err
                    &&& r->Err_0@ == generic_error("guest login"@, error)
                    &&& final(self)@ == old(self)@
                },
            },
            final(self).inner.api == old(self).inner.api,
    {
        match answer {
            Ok(session_key) => {
                let link = self.inner.guest_login_cache.store(session_key.as_str(), now);
                Ok(AccountLoginUrlResponse { login_url: link })
            },
            Err(error) => Err(map_generic_api_error("guest login", error)),
        }
    }
}

// ---------------------------------------------------------------------------
// Claims
// ---------------------------------------------------------------------------

/// A claim that was asked for, and the code of the claim to begin, if it is a new one.
pub struct ClaimStart {
    pub response: ClaimResponse,
    pub begin: Option<String>,
}

impl PlayitHandle {
    /// Begin a claim, or name the one that is active.
    pub fn start_claim(&mut self) -> (r: Result<ClaimStart, RuntimeError>)
        ensures
            final(self).inner.api == old(self).inner.api,
            match old(self)@.provisioning_refused() {
                Some(error) => r is Err && r->Err_0@ == error && final(self)@ == old(self)@,
                None => {
                    &&& r is Ok
                    &&& final(self)@.claim_code matches Some(code)
                    &&& r->Ok_0.response.claim_url@ == claim_page(code)
                    &&& final(self)@ == (HandleView { claim_code: Some(code), ..old(self)@ })
                    &&& match old(self)@.claim_code {
                        Some(active) => code == active && r->Ok_0.begin is None,
                        None => is_claim_code(code) && opt_text(r->Ok_0.begin) == Some(code),
                    }
                },
            },
    {
        match self.check_provisioning() {
            Ok(_) => {},
            Err(error) => return Err(error),
        }
        match &self.inner.claim_code {
            Some(code) => {
                return Ok(
                    ClaimStart {
                        response: ClaimResponse { claim_url: claim_url(code.as_str()) },
                        begin: None,
                    },
                );
            },
            None => {},
        }
        let code = generate_claim_code();
        let url = claim_url(code.as_str());
        self.inner.claim_code = Some(code.clone());
        Ok(ClaimStart { response: ClaimResponse { claim_url: url }, begin: Some(code) })
    }

    fn check_provisioning(&self) -> (r: Result<(), RuntimeError>)
        ensures
            match self@.provisioning_refused() {
                Some(error) => r is Err && r->Err_0@ == error,
                None => r is Ok,
            },
    {
        if self.inner.cancelled {
            return Err(RuntimeError::stopped());
        }
        match &self.inner.state_cache.lifecycle {
            AgentLifecycle::WaitingForSecret => {},
            lifecycle => return Err(secret_provisioning_state_error(lifecycle)),
        }
        if !self.inner.can_provision {
            return Err(self.inner.secret_source.provisioning_error());
        }
        Ok(())
    }

    /// The claim of `code` ended.
    pub fn claim_finished(&mut self, code: &str)
        ensures
            final(self)@ == (HandleView {
                claim_code: active_after(old(self)@.claim_code, code@),
                ..old(self)@
            }),
            final(self).inner.api == old(self).inner.api,
    {
        let active = copy_opt(&self.inner.claim_code);
        self.inner.claim_code = finish_claim(active, code);
    }
}

// ---------------------------------------------------------------------------
// Tunnels
// ---------------------------------------------------------------------------

/// A request to send to the API, and the client to send it with.
pub struct ApiCall<T> {
    pub client: HttpClient,
    pub request: T,
}

/// What is sent where an operation is not refused: the request, once an API client is in
/// use.
pub open spec fn planned(
    handle: PlayitHandle,
    request: Result<ReqTunnelsCreateV1View, RuntimeErrorView>,
) -> Result<ReqTunnelsCreateV1View, RuntimeErrorView> {
    if handle@.cancelled {
        Err(RuntimeErrorView::Stopped)
    } else {
        match request {
            Err(error) => Err(error),
            Ok(request) => if handle@.api is Some {
                Ok(request)
            } else {
                Err(api_not_ready())
            },
        }
    }
}

impl PlayitHandle {
    fn plan(&self, request: Result<ReqTunnelsCreateV1, RuntimeError>) -> (r: Result<
        ApiCall<ReqTunnelsCreateV1>,
        RuntimeError,
    >)
        requires
            !self@.cancelled,
        ensures
            match r {
                Ok(call) => planned(*self, request_view(request)) == Ok::<
                    ReqTunnelsCreateV1View,
                    RuntimeErrorView,
                >(call.request@) && self.inner.api == Some(call.client),
                Err(error) => planned(*self, request_view(request)) == Err::<
                    ReqTunnelsCreateV1View,
                    RuntimeErrorView,
                >(error@),
            },
    {
        let request = match request {
            Ok(request) => request,
            Err(error) => return Err(error),
        };
        match &self.inner.api {
            Some(api) => Ok(ApiCall { client: api.clone(), request }),
            None => Err(api_not_ready_error()),
        }
    }

    /// The request for a tunnel of one plain port. `local_ip` is the IP address that the
    /// local address denotes, in its canonical form.
    pub fn create_tunnel(
        &self,
        local_port: u16,
        protocol: TunnelProtocol,
        local_address: Option<String>,
        local_ip: Option<String>,
        name: Option<String>,
    ) -> (r: Result<ApiCall<ReqTunnelsCreateV1>, RuntimeError>)
        ensures
            match r {
                Ok(call) => planned(
                    *self,
                    tunnel_request(
                        self@.state.lifecycle,
                        local_port,
                        opt_text(local_address),
                        opt_text(local_ip),
                        opt_text(name),
                        raw_protocol(protocol),
                        agent_uuid(self@.state.lifecycle),
                    ),
                ) == Ok::<ReqTunnelsCreateV1View, RuntimeErrorView>(call.request@)
                    && self.inner.api == Some(call.client),
                Err(error) => planned(
                    *self,
                    tunnel_request(
                        self@.state.lifecycle,
                        local_port,
                        opt_text(local_address),
                        opt_text(local_ip),
                        opt_text(name),
                        raw_protocol(protocol),
                        agent_uuid(self@.state.lifecycle),
                    ),
                ) == Err::<ReqTunnelsCreateV1View, RuntimeErrorView>(error@),
            },
    {
        match self.ensure_running() {
            Ok(_) => {},
            Err(error) => return Err(error),
        }
        let request = create_request(
            self.inner.state_cache.lifecycle(),
            local_port,
            protocol,
            local_address,
            local_ip,
            name,
        );
        self.plan(request)
    }

    /// The request for a tunnel to a Minecraft server.
    pub fn create_minecraft_java_tunnel(
        &self,
        local_port: u16,
        local_address: Option<String>,
        local_ip: Option<String>,
        name: Option<String>,
    ) -> (r: Result<ApiCall<ReqTunnelsCreateV1>, RuntimeError>)
        ensures
            match r {
                Ok(call) => planned(
                    *self,
                    tunnel_request(
                        self@.state.lifecycle,
                        local_port,
                        opt_text(local_address),
                        opt_text(local_ip),
                        opt_text(name),
                        TunnelProtocolV1View::TunnelType(TunnelType::MinecraftJava),
                        agent_uuid(self@.state.lifecycle),
                    ),
                ) == Ok::<ReqTunnelsCreateV1View, RuntimeErrorView>(call.request@)
                    && self.inner.api == Some(call.client),
                Err(error) => planned(
                    *self,
                    tunnel_request(
                        self@.state.lifecycle,
                        local_port,
                        opt_text(local_address),
                        opt_text(local_ip),
                        opt_text(name),
                        TunnelProtocolV1View::TunnelType(TunnelType::MinecraftJava),
                        agent_uuid(self@.state.lifecycle),
                    ),
                ) == Err::<ReqTunnelsCreateV1View, RuntimeErrorView>(error@),
            },
    {
        match self.ensure_running() {
            Ok(_) => {},
            Err(error) => return Err(error),
        }
        let request = create_minecraft_request(
            self.inner.state_cache.lifecycle(),
            local_port,
            local_address,
            local_ip,
            name,
        );
        self.plan(request)
    }

    /// The request to delete a tunnel: its ID.
    pub fn delete_tunnel(&self, tunnel_id: &str) -> (r: Result<ApiCall<u128>, RuntimeError>)
        ensures
            if self@.cancelled {
                r == Err::<ApiCall<u128>, RuntimeError>(RuntimeError::Stopped)
            } else {
                match uuid_parse(trimmed(tunnel_id@)) {
                    Err(_) => r is Err && r->Err_0@ == bad_tunnel_id(),
                    Ok(id) => match self.inner.api {
                        Some(api) => r == Ok::<ApiCall<u128>, RuntimeError>(
                            ApiCall { client: api, request: id },
                        ),
                        None => r is Err && r->Err_0@ == api_not_ready(),
                    },
                }
            },
    {
        match self.ensure_running() {
            Ok(_) => {},
            Err(error) => return Err(error),
        }
        let id: u128 = match parse_tunnel_id(tunnel_id) {
            Ok(id) => id,
            Err(error) => return Err(error),
        };
        match &self.inner.api {
            Some(api) => Ok(ApiCall { client: api.clone(), request: id }),
            None => Err(api_not_ready_error()),
        }
    }
}

/// The answer to a request for a tunnel, given the text of the new tunnel's ID.
pub fn create_tunnel_answer(answer: Result<String, ApiError<TunnelCreateErrorV1>>) -> (r: Result<
    TunnelCreateResponse,
    RuntimeError,
>)
    requires
        answer matches Err(error) ==> valid_call_error(error),
    ensures
        match answer {
            Ok(tunnel_id) => r is Ok && r->Ok_0@ == (TunnelCreateResponseView {
                tunnel_id: tunnel_id@,
                message: Some("Tunnel creation accepted"@),
            }),
            Err(ApiError::Fail(failure)) => r is Err && r->Err_0@ == create_failure_error(failure),
            Err(ApiError::ApiError(error)) => r is Err && r->Err_0@ == response_error(
                "tunnel creation"@,
                error@,
                ServiceErrorCode::InvalidTunnelRequest,
            ),
            Err(ApiError::ClientError(error)) => r is Err && r->Err_0@ == client_error(
                "tunnel creation"@,
                error@,
            ),
        },
{
    match answer {
        Ok(tunnel_id) => Ok(
            TunnelCreateResponse { tunnel_id, message: Some(owned("Tunnel creation accepted")) },
        ),
        Err(error) => Err(map_tunnel_create_error(error)),
    }
}

/// The answer to a request to delete a tunnel.
pub fn delete_tunnel_answer(answer: Result<(), ApiError<DeleteError>>) -> (r: Result<
    CommandResponse,
    RuntimeError,
>)
    requires
        answer matches Err(error) ==> valid_call_error(error),
    ensures
        match answer {
            Ok(_) => r is Ok && r->Ok_0@ == (CommandResponseView {
                accepted: true,
                message: Some("Tunnel deletion accepted"@),
            }),
            Err(ApiError::Fail(DeleteError::TunnelNotFound)) => r is Err && r->Err_0@ == api_error(
                ServiceErrorCode::TunnelNotFound,
                "The requested tunnel does not exist."@,
                false,
            ),
            Err(ApiError::ApiError(error)) => r is Err && r->Err_0@ == response_error(
                "tunnel deletion"@,
                error@,
                ServiceErrorCode::InvalidTunnelRequest,
            ),
            Err(ApiError::ClientError(error)) => r is Err && r->Err_0@ == client_error(
                "tunnel deletion"@,
                error@,
            ),
        },
{
    match answer {
        Ok(_) => Ok(
            CommandResponse { accepted: true, message: Some(owned("Tunnel deletion accepted")) },
        ),
        Err(error) => Err(map_tunnel_delete_error(error)),
    }
}

// ---------------------------------------------------------------------------
// The secret
// ---------------------------------------------------------------------------

/// What became of a secret that was handed over to be stored.
pub enum ProvisionOutcome {
    /// The runtime stopped before the secret was taken, or before it was stored.
    Stopped,
    /// The secret was stored, or was not.
    Answered(Result<(), String>),
}

impl PlayitHandle {
    /// Whether a secret may be handed over to be stored.
    pub fn set_secret(&self) -> (r: Result<(), RuntimeError>)
        ensures
            match self@.provisioning_refused() {
                Some(error) => r is Err && r->Err_0@ == error,
                None => r is Ok,
            },
    {
        self.check_provisioning()
    }

    /// The secret file to remove.
    pub fn reset_secret(&self) -> (r: Result<String, RuntimeError>)
        ensures
            if self@.cancelled {
                r == Err::<String, RuntimeError>(RuntimeError::Stopped)
            } else {
                match self@.source {
                    SecretSourceView::File { path } => r is Ok && r->Ok_0@ == path,
                    SecretSourceView::Inline { .. } => r is Err && r->Err_0@
                        == self@.source.reset_error(),
                }
            },
    {
        match self.ensure_running() {
            Ok(_) => {},
            Err(error) => return Err(error),
        }
        match self.inner.secret_source.secret_path() {
            Some(path) => Ok(owned(path)),
            None => Err(self.inner.secret_source.reset_error()),
        }
    }

    /// The answer after the secret file was removed, or was not. Without its secret the
    /// runtime stops.
    pub fn reset_secret_answer(&mut self, path: &str, removed: Result<(), IoFailure>) -> (r: Result<
        CommandResponse,
        RuntimeError,
    >)
        ensures
            final(self).inner.api == old(self).inner.api,
            final(self)@ == if r is Ok {
                HandleView { cancelled: true, ..old(self)@ }
            } else {
                old(self)@
            },
            match removed {
                Ok(_) => r is Ok && r->Ok_0@ == (CommandResponseView {
                    accepted: true,
                    message: Some(
                        "Deleted secret file at "@ + path@
                            + ". Start the runtime again to reprovision a new secret."@,
                    ),
                }),
                Err(failure) => if failure.kind == crate::error::IoErrorKind::NotFound {
                    r is Ok && r->Ok_0@ == (CommandResponseView {
                        accepted: true,
                        message: Some("Secret file was already absent at "@ + path@ + "."@),
                    })
                } else {
                    r is Err && r->Err_0@ == write_failure(
                        "Failed to delete secret file "@ + path@ + ": "@ + failure.message@,
                    )
                },
            },
    {
        let message = match reset_secret_file(path, removed) {
            Ok(message) => message,
            Err(error) => return Err(error),
        };
        self.request_shutdown();
        Ok(CommandResponse { accepted: true, message: Some(message) })
    }
}

/// The answer to a caller who provisioned a secret.
pub fn set_secret_answer(outcome: ProvisionOutcome) -> (r: Result<CommandResponse, RuntimeError>)
    ensures
        match outcome {
            ProvisionOutcome::Stopped => r == Err::<CommandResponse, RuntimeError>(
                RuntimeError::Stopped,
            ),
            ProvisionOutcome::Answered(Ok(_)) => r is Ok && r->Ok_0@ == (CommandResponseView {
                accepted: true,
                message: Some("secret provisioned"@),
            }),
            ProvisionOutcome::Answered(Err(message)) => r is Err && r->Err_0@ == write_failure(
                message@,
            ),
        },
{
    match outcome {
        ProvisionOutcome::Stopped => Err(RuntimeError::stopped()),
        ProvisionOutcome::Answered(Ok(_)) => Ok(
            CommandResponse { accepted: true, message: Some(owned("secret provisioned")) },
        ),
        ProvisionOutcome::Answered(Err(message)) => Err(
            RuntimeError::secret(ServiceErrorCode::SecretWriteFailed, message, true),
        ),
    }
}

// ---------------------------------------------------------------------------
// Laws
// ---------------------------------------------------------------------------

/// What a start of a claim leaves behind, for a handle that does not refuse it: the active
/// code, which is the one that was active if there was one.
pub open spec fn claim_started(before: HandleView, after: HandleView) -> bool {
    &&& before.provisioning_refused() is None
    &&& after.claim_code is Some
    &&& after == (HandleView { claim_code: after.claim_code, ..before })
    &&& before.claim_code is Some ==> after.claim_code == before.claim_code
}

/// Starting a claim again while it is active changes nothing and names the same page.
pub proof fn claims_start_once(first: HandleView, second: HandleView, third: HandleView)
    requires
        claim_started(first, second),
        claim_started(second, third),
    ensures
        third == second,
        claim_page(third.claim_code->0) == claim_page(second.claim_code->0),
{
}

/// A runtime that stops takes no secret and begins no claim, whatever its state is, and says
/// that another try may help.
pub proof fn stopped_runtimes_refuse(handle: HandleView)
    requires
        handle.cancelled,
    ensures
        handle.provisioning_refused() == Some(RuntimeErrorView::Stopped),
        RuntimeErrorView::Stopped.service_error().code == ServiceErrorCode::ApiUnavailable,
        RuntimeErrorView::Stopped.service_error().retryable,
{
}

/// The API is talked to with the secret that the agent is set up with, and with none while
/// a new one is waited for after the API refused the old one.
pub proof fn one_secret_is_used(
    handle: HandleView,
    supervisor: SupervisorView,
    event: SupervisorEventView,
    cancelled: bool,
    pid: u32,
    now: u64,
)
    ensures
        ({
            let step = supervisor.after(event, cancelled).1;
            let after = handle.performed_all(step.effects, pid, now);
            &&& step.next matches NextView::BuildAgent { secret } ==> after.api == handle.with_api(
                Some(secret),
            ).api
            &&& step.next is AwaitSecret && event is AgentBuilt ==> after.api is None
            &&& step.next is AwaitSecret ==> after.state.lifecycle is WaitingForSecret
            &&& step.next is BuildAgent ==> after.state.lifecycle is Starting
        }),
{
    let step = supervisor.after(event, cancelled).1;
    reveal_with_fuel(HandleView::performed_all, 5);
    if step.next is BuildAgent {
        let front = step.effects.drop_last();
        assert(front.drop_last().last() == EffectView::SetApi(
            Some(supervisor.after(event, cancelled).0.secret),
        ));
        assert(front.last() == EffectView::RefreshOrigins);
    }
    if step.next is AwaitSecret {
        assert(step.effects.last() is Publish);
        if event is AgentBuilt {
            assert(step.effects.drop_last() =~= seq![EffectView::SetApi(None)]);
            assert(step.effects.drop_last().last() == EffectView::SetApi(None));
        }
    }
}

/// Two effects that tell subscribers the same.
pub open spec fn told_alike(a: EffectView, b: EffectView) -> bool {
    a == b || (a matches EffectView::SetApi(Some(_)) && b matches EffectView::SetApi(Some(_)))
}

/// Two events that differ in nothing but the secret.
pub open spec fn same_event_but_secret(a: SupervisorEventView, b: SupervisorEventView) -> bool {
    ||| a == b
    ||| a matches SupervisorEventView::Loaded(LoadedSecretView::Ready(_)) && b
        matches SupervisorEventView::Loaded(LoadedSecretView::Ready(_))
    ||| a matches SupervisorEventView::Provisioned(Ok(Some(_))) && b
        matches SupervisorEventView::Provisioned(Ok(Some(_)))
}

/// No state that is told depends on the agent's secret: whatever the secret is, subscribers
/// get the same changes, and the handle stays the same but for the secret.
pub proof fn states_hide_the_secret(
    handles: (HandleView, HandleView),
    supervisors: (SupervisorView, SupervisorView),
    events: (SupervisorEventView, SupervisorEventView),
    cancelled: bool,
    pid: u32,
    now: u64,
)
    requires
        handles.0.same_but_secret(handles.1),
        supervisors.0.source.same_but_secret(supervisors.1.source),
        supervisors.1 == (SupervisorView {
            source: supervisors.1.source,
            secret: supervisors.1.secret,
            ..supervisors.0
        }),
        same_event_but_secret(events.0, events.1),
    ensures
        ({
            let a = supervisors.0.after(events.0, cancelled).1.effects;
            let b = supervisors.1.after(events.1, cancelled).1.effects;
            &&& a.len() == b.len()
            &&& forall|i: int| 0 <= i < a.len() ==> told_alike(#[trigger] a[i], b[i])
            &&& handles.0.performed_all(a, pid, now).same_but_secret(
                handles.1.performed_all(b, pid, now),
            )
        }),
{
    let a = supervisors.0.after(events.0, cancelled).1.effects;
    let b = supervisors.1.after(events.1, cancelled).1.effects;
    lemma_performed_alike(handles.0, handles.1, a, b, pid, now);
}

proof fn lemma_performed_alike(
    one: HandleView,
    other: HandleView,
    a: Seq<EffectView>,
    b: Seq<EffectView>,
    pid: u32,
    now: u64,
)
    requires
        one.same_but_secret(other),
        a.len() == b.len(),
        forall|i: int| 0 <= i < a.len() ==> told_alike(#[trigger] a[i], b[i]),
    ensures
        one.performed_all(a, pid, now).same_but_secret(other.performed_all(b, pid, now)),
    decreases a.len(),
{
    if a.len() > 0 {
        assert forall|i: int| 0 <= i < a.drop_last().len() implies told_alike(
            #[trigger] a.drop_last()[i],
            b.drop_last()[i],
        ) by {
            assert(a.drop_last()[i] == a[i]);
        }
        lemma_performed_alike(one, other, a.drop_last(), b.drop_last(), pid, now);
        assert(told_alike(a[a.len() - 1], b[a.len() - 1]));
    }
}

/// A secret is taken only while the runtime waits for one and can store it.
pub proof fn secrets_are_taken_only_when_awaited(handle: HandleView)
    ensures
        handle.provisioning_refused() is None <==> !handle.cancelled && handle.state.lifecycle
            is WaitingForSecret && handle.can_provision,
{
}

/// An agent without an ID is shown without one, never with an empty one.
pub proof fn empty_agent_ids_are_not_shown(handle: HandleView)
    ensures
        handle.account().agent_id matches Some(id) ==> id.len() > 0,
        !(handle.state.lifecycle is Running) ==> handle.account().status == AccountStatus::Unknown
            && handle.account().agent_id is None && handle.account().login_link is None,
{
}

/// The API is talked to at the address that was configured, with the agent's secret as its
/// credential, or not at all; nothing else changes with the client.
pub proof fn clients_carry_the_secret(handle: HandleView, secret: Seq<char>)
    ensures
        handle.with_api(Some(secret)).api == Some(
            HttpClientView {
                api_base: handle.api_base,
                auth_header: Some("Agent-Key "@ + trimmed(secret)),
            },
        ),
        handle.with_api(None).api is None,
        forall|other: Option<Seq<char>>|
            (HandleView { api: handle.api, ..#[trigger] handle.with_api(other) }) == handle,
{
    assert forall|other: Option<Seq<char>>|
        (HandleView { api: handle.api, ..#[trigger] handle.with_api(other) }) == handle by {
        assert((HandleView { api: handle.api, ..handle.with_api(other) }) =~= handle);
    }
}

/// What the supervisor tells is what clients see from then on: the phase, whether there is a
/// secret, the last error and the state of the agent, of this process and runtime. The counts,
/// the client of the API, the claim and the rest stay as they are.
pub proof fn told_states_are_kept(
    handle: HandleView,
    phase: ServicePhase,
    has_secret: bool,
    last_error: Option<ServiceErrorView>,
    lifecycle: AgentLifecycleView,
    pid: u32,
    now: u64,
)
    ensures
        ({
            let after = handle.performed(
                EffectView::Publish { phase, has_secret, last_error, lifecycle },
                pid,
                now,
            );
            &&& after.state.status.phase == phase
            &&& after.state.status.has_secret == has_secret
            &&& after.state.status.last_error == last_error
            &&& after.state.status.pid == pid
            &&& after.state.status.version == handle.context.version
            &&& after.state.status.secret_path == handle.context.secret_path
            &&& after.state.lifecycle == lifecycle
            &&& after.state.stats == handle.state.stats
            &&& (HandleView { state: handle.state, ..after }) == handle
        }),
        handle.performed(EffectView::RefreshOrigins, pid, now) == handle,
        forall|secret: Option<Seq<char>>| #[trigger]
            handle.performed(EffectView::SetApi(secret), pid, now) == handle.with_api(secret),
{
    let after = handle.performed(
        EffectView::Publish { phase, has_secret, last_error, lifecycle },
        pid,
        now,
    );
    assert((HandleView { state: handle.state, ..after }) =~= handle);
}

/// A status is the one that was told last, but for the time since the start, which goes on.
pub proof fn statuses_age(handle: HandleView, now: u64)
    ensures
        handle.status(now) == (ServiceStatusView {
            uptime_secs: handle.status(now).uptime_secs,
            ..handle.state.status
        }),
        now >= handle.context.start_time ==> handle.status(now).uptime_secs * 1000 <= now
            - handle.context.start_time < (handle.status(now).uptime_secs + 1) * 1000,
        now < handle.context.start_time ==> handle.status(now).uptime_secs == 0,
{
}

/// What is told of the account is what the running agent's state says, and the page of the claim
/// that is active, if one is.
pub proof fn accounts_are_told_as_known(handle: HandleView)
    ensures
        handle.claim_code matches Some(code) ==> handle.account().claim_url == Some(
            "https://playit.gg/claim/"@ + code,
        ),
        handle.claim_code is None ==> handle.account().claim_url is None,
        handle.state.lifecycle matches AgentLifecycleView::Running(state) ==> {
            &&& handle.account().status == state.account_status
            &&& handle.account().login_link == state.login_link
            &&& state.agent_id.len() > 0 ==> handle.account().agent_id == Some(state.agent_id)
            &&& state.agent_id.len() == 0 ==> handle.account().agent_id is None
        },
{
}

/// A secret is refused for the first of these reasons that holds: the runtime stops, it does not
/// wait for one, or it has nowhere to store one.
pub proof fn refused_secrets_get_a_reason(handle: HandleView)
    ensures
        handle.cancelled ==> handle.provisioning_refused() == Some(RuntimeErrorView::Stopped),
        !handle.cancelled && !(handle.state.lifecycle is WaitingForSecret)
            ==> handle.provisioning_refused() == Some(no_provisioning(handle.state.lifecycle)),
        !handle.cancelled && handle.state.lifecycle is WaitingForSecret && !handle.can_provision
            ==> handle.provisioning_refused() == Some(handle.source.provisioning_error()),
{
}

/// A request is sent as it was made, once the API can be talked to; a runtime that stops sends
/// none, and the error of a wrong request comes before that of a missing client, which may be
/// there later.
pub proof fn requests_are_sent_as_made(
    handle: PlayitHandle,
    request: Result<ReqTunnelsCreateV1View, RuntimeErrorView>,
)
    ensures
        planned(handle, request) is Ok <==> !handle@.cancelled && request is Ok && handle@.api
            is Some,
        planned(handle, request) is Ok ==> planned(handle, request) == request,
        handle@.cancelled ==> planned(handle, request) == Err::<
            ReqTunnelsCreateV1View,
            RuntimeErrorView,
        >(RuntimeErrorView::Stopped),
        !handle@.cancelled && request is Err ==> planned(handle, request) == request,
        !handle@.cancelled && request is Ok && handle@.api is None ==> planned(handle, request)
            is Err && planned(handle, request)->Err_0.service_error().code
            == ServiceErrorCode::ApiUnavailable && planned(
            handle,
            request,
        )->Err_0.service_error().retryable,
{
}

/// A new runtime does not stop, has no client of the API, no claim and no login link; it knows
/// the version and the address that it was configured with, and its platform.
pub proof fn new_runtimes_know_their_options(
    options: RuntimeOptionsView,
    source: SecretSourceView,
    context: StatusContextView,
    can_provision: bool,
    variant_id: u128,
    current_platform: Platform,
)
    ensures
        ({
            let handle = new_handle(
                options,
                source,
                context,
                can_provision,
                variant_id,
                current_platform,
            );
            &&& !handle.cancelled
            &&& handle.api is None
            &&& handle.login is None
            &&& handle.claim_code is None
            &&& handle.source == source
            &&& handle.context == context
            &&& handle.can_provision == can_provision
            &&& handle.api_base == options.api_base
            &&& handle.version == options.version
            &&& handle.agent_version == (AgentVersion {
                variant_id,
                version_major: options.version.major,
                version_minor: options.version.minor,
                version_patch: options.version.patch,
            })
            &&& options.platform_docker ==> handle.platform == Platform::Docker
            &&& !options.platform_docker ==> handle.platform == current_platform
        }),
{
}

} // verus!

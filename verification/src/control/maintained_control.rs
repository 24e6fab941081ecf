//! Keeping the control channel alive: pings, keep-alives, failures and reconnects.

use vstd::prelude::*;

use super::{same_addresses, SocketAddress};

verus! {

/// After so many failures in a row the channel is set up anew, on a new socket.
pub const HARD_RECONNECT_FAILURE_THRESHOLD: u32 = 3;

/// The time between two pings, in milliseconds.
pub const PING_INTERVAL: u64 = 1_000;

/// The time without an answer after which the channel counts as lost, in milliseconds.
pub const PONG_TIMEOUT: u64 = 6_000;

/// How many messages one update reads at most.
pub const MESSAGES_PER_UPDATE: u32 = 30;

/// How many waits without a message end an update.
pub const TIMEOUTS_PER_UPDATE: u32 = 10;

/// Whether the control channel works.
#[derive(Clone, Copy, Debug, PartialEq, Eq, Structural)]
pub enum ControlConnectionState {
    Connected,
    Reconnecting,
}

/// The state of the control channel. Times are in milliseconds since the Unix epoch.
pub struct MaintainedControl {
    pub last_keep_alive: u64,
    pub last_ping: u64,
    /// When the endpoint last answered; 0 once the channel counted as lost.
    pub last_pong: u64,
    pub last_udp_auth: u64,
    pub last_control_targets: Vec<SocketAddress>,
    pub control_state: ControlConnectionState,
    pub soft_reconnect_failures: u32,
    pub hard_reconnect_requested: bool,
}

/// The model of a [`MaintainedControl`].
#[verifier::ext_equal]
pub struct MaintainedControlView {
    pub last_keep_alive: u64,
    pub last_ping: u64,
    pub last_pong: u64,
    pub last_udp_auth: u64,
    pub last_control_targets: Seq<SocketAddress>,
    pub control_state: ControlConnectionState,
    pub soft_reconnect_failures: u32,
    pub hard_reconnect_requested: bool,
}

impl View for MaintainedControl {
    type V = MaintainedControlView;

    open spec fn view(&self) -> MaintainedControlView {
        MaintainedControlView {
            last_keep_alive: self.last_keep_alive,
            last_ping: self.last_ping,
            last_pong: self.last_pong,
            last_udp_auth: self.last_udp_auth,
            last_control_targets: self.last_control_targets@,
            control_state: self.control_state,
            soft_reconnect_failures: self.soft_reconnect_failures,
            hard_reconnect_requested: self.hard_reconnect_requested,
        }
    }
}

impl MaintainedControlView {
    /// A new socket is asked for only after enough failures.
    pub open spec fn valid(self) -> bool {
        self.hard_reconnect_requested ==> self.soft_reconnect_failures
            >= HARD_RECONNECT_FAILURE_THRESHOLD
    }

    pub open spec fn with_state(self, control_state: ControlConnectionState) -> Self {
        MaintainedControlView { control_state, ..self }
    }

    /// One more failure.
    pub open spec fn with_failure(self) -> Self {
        let failures = if self.soft_reconnect_failures < u32::MAX {
            (self.soft_reconnect_failures + 1) as u32
        } else {
            u32::MAX
        };
        MaintainedControlView {
            soft_reconnect_failures: failures,
            hard_reconnect_requested: self.hard_reconnect_requested || failures
                >= HARD_RECONNECT_FAILURE_THRESHOLD,
            ..self
        }
    }

    /// A channel that was just set up: everything is due, nothing failed.
    pub open spec fn renewed(self, now: u64) -> Self {
        MaintainedControlView {
            last_pong: now,
            last_ping: 0,
            last_keep_alive: 0,
            last_udp_auth: 0,
            soft_reconnect_failures: 0,
            hard_reconnect_requested: false,
            control_state: ControlConnectionState::Connected,
            ..self
        }
    }
}

impl MaintainedControl {
    /// The channel after its setup at the moment `now`.
    pub fn setup(targets: Vec<SocketAddress>, now: u64) -> (r: Self)
        ensures
            r@ == (MaintainedControlView {
                last_keep_alive: 0,
                last_ping: 0,
                last_pong: now,
                last_udp_auth: 0,
                last_control_targets: targets@,
                control_state: ControlConnectionState::Connected,
                soft_reconnect_failures: 0,
                hard_reconnect_requested: false,
            }),
            r@.valid(),
    {
        MaintainedControl {
            last_keep_alive: 0,
            last_ping: 0,
            last_pong: now,
            last_udp_auth: 0,
            last_control_targets: targets,
            control_state: ControlConnectionState::Connected,
            soft_reconnect_failures: 0,
            hard_reconnect_requested: false,
        }
    }

    /// Note a failure: how many there were in a row.
    pub fn note_control_failure(&mut self) -> (r: u32)
        ensures
            final(self)@ == old(self)@.with_failure(),
            r == final(self)@.soft_reconnect_failures,
    {
        if self.soft_reconnect_failures < u32::MAX {
            self.soft_reconnect_failures = self.soft_reconnect_failures + 1;
        }
        if self.soft_reconnect_failures >= HARD_RECONNECT_FAILURE_THRESHOLD {
            self.hard_reconnect_requested = true;
        }
        self.soft_reconnect_failures
    }

    /// Whether a new socket is asked for; asks only once for each request.
    pub fn take_hard_reconnect_request(&mut self) -> (r: bool)
        ensures
            r == old(self)@.hard_reconnect_requested,
            final(self)@ == (MaintainedControlView {
                hard_reconnect_requested: false,
                ..old(self)@
            }),
    {
        let requested = self.hard_reconnect_requested;
        self.hard_reconnect_requested = false;
        requested
    }

    fn set_control_state(&mut self, state: ControlConnectionState)
        ensures
            final(self)@ == old(self)@.with_state(state),
    {
        if self.control_state != state {
            self.control_state = state;
        }
    }

    fn renew(&mut self, now: u64)
        ensures
            final(self)@ == old(self)@.renewed(now),
    {
        self.last_pong = now;
        self.last_ping = 0;
        self.last_keep_alive = 0;
        self.last_udp_auth = 0;
        self.soft_reconnect_failures = 0;
        self.hard_reconnect_requested = false;
        self.set_control_state(ControlConnectionState::Connected);
    }
}

// ---------------------------------------------------------------------------
// One update
// ---------------------------------------------------------------------------

/// How far an update is.
#[derive(Clone, Copy, Debug, PartialEq, Eq, Structural)]
pub struct UpdateProgress {
    /// The time that the update works with.
    pub now: u64,
    /// How often a message was waited for.
    pub waits: u32,
    /// How many of those waits brought none.
    pub timeouts: u32,
}

/// What a wait for a message brought.
#[derive(Clone, Copy, Debug, PartialEq, Eq, Structural)]
pub enum FeedOutcome {
    /// A client to connect to, in the current or the old form of the message.
    NewClient,
    /// The details of the UDP channel.
    UdpChannelDetails,
    /// The session is no longer authorized.
    Unauthorized,
    /// A pong, which arrived at the moment `now`.
    Pong { now: u64 },
    /// Any other answer.
    OtherResponse,
    /// Nothing that could be read.
    Unreadable,
    /// No message in time.
    TimedOut,
}

/// What came of an update's last action.
#[derive(Clone, Copy, Debug, PartialEq, Eq, Structural)]
pub enum UpdateEvent {
    /// The update begins; whether the session is expired.
    Begin { expired: bool },
    /// Whether the session was authenticated, and when.
    Authenticated { ok: bool, now: u64 },
    /// The time.
    Time { now: u64 },
    /// Whether the ping was sent.
    PingSent { ok: bool },
    /// When the session expires.
    ExpiresAt { at: u64 },
    /// Whether the keep-alive was sent.
    KeepAliveSent { ok: bool },
    Received(FeedOutcome),
    /// The time after the last message was waited for.
    Ended { now: u64 },
}

/// What an update does next.
#[derive(Clone, Copy, Debug, PartialEq, Eq, Structural)]
pub enum UpdateAction {
    /// Authenticate the session.
    Authenticate,
    /// Wait two seconds; the update brought nothing.
    BackOff,
    /// Read the clock.
    ReadTime,
    /// Send a ping.
    SendPing { now: u64 },
    /// Read when the session expires.
    ReadExpiry,
    /// Send a keep-alive.
    SendKeepAlive,
    /// Wait for a message.
    Receive,
    /// Read the clock for the last time.
    ReadEnd,
    /// The update brought the message that was just received.
    Deliver,
    /// The update brought nothing.
    Nothing,
}

/// The next action, and whether the session is to be marked as expired before it.
#[derive(Clone, Copy, Debug, PartialEq, Eq, Structural)]
pub struct UpdateStep {
    pub expire: bool,
    pub action: UpdateAction,
}

/// The time between two keep-alives, in milliseconds: short while the session is about to
/// expire.
pub open spec fn keep_alive_interval(expires_at: u64, now: u64) -> u64 {
    if expires_at < now + 30_000 {
        10_000
    } else {
        60_000
    }
}

/// The clock did not run backwards past what the channel remembers.
pub open spec fn clock_fits(
    control: MaintainedControlView,
    progress: UpdateProgress,
    event: UpdateEvent,
) -> bool {
    match event {
        UpdateEvent::Time { now } => now >= control.last_ping,
        UpdateEvent::ExpiresAt { at } => progress.now >= control.last_keep_alive,
        UpdateEvent::Ended { now } => control.last_pong == 0 || now >= control.last_pong,
        UpdateEvent::Received(_) => progress.waits < MESSAGES_PER_UPDATE && progress.timeouts
            < TIMEOUTS_PER_UPDATE,
        _ => true,
    }
}

pub open spec fn step_of(action: UpdateAction) -> UpdateStep {
    UpdateStep { expire: false, action }
}

/// What follows an event of an update.
pub open spec fn update_step(
    control: MaintainedControlView,
    progress: UpdateProgress,
    event: UpdateEvent,
) -> (MaintainedControlView, UpdateProgress, UpdateStep) {
    match event {
        UpdateEvent::Begin { expired } => if expired {
            (
                control.with_state(ControlConnectionState::Reconnecting),
                progress,
                step_of(UpdateAction::Authenticate),
            )
        } else {
            (control, progress, step_of(UpdateAction::ReadTime))
        },
        UpdateEvent::Authenticated { ok, now } => if ok {
            (
                MaintainedControlView {
                    soft_reconnect_failures: 0,
                    hard_reconnect_requested: false,
                    last_pong: now,
                    control_state: ControlConnectionState::Connected,
                    ..control
                },
                progress,
                step_of(UpdateAction::ReadTime),
            )
        } else {
            (control.with_failure(), progress, step_of(UpdateAction::BackOff))
        },
        UpdateEvent::Time { now } => {
            let timed = UpdateProgress { now, ..progress };
            if now - control.last_ping > PING_INTERVAL {
                (
                    MaintainedControlView { last_ping: now, ..control },
                    timed,
                    step_of(UpdateAction::SendPing { now }),
                )
            } else {
                (control, timed, step_of(UpdateAction::ReadExpiry))
            }
        },
        UpdateEvent::PingSent { ok } => if ok {
            (control, progress, step_of(UpdateAction::ReadExpiry))
        } else {
            (
                control.with_failure(),
                progress,
                UpdateStep { expire: true, action: UpdateAction::ReadExpiry },
            )
        },
        UpdateEvent::ExpiresAt { at } => if progress.now - control.last_keep_alive
            > keep_alive_interval(at, progress.now) {
            (
                MaintainedControlView { last_keep_alive: progress.now, ..control },
                progress,
                step_of(UpdateAction::SendKeepAlive),
            )
        } else {
            (control, progress, step_of(UpdateAction::Receive))
        },
        UpdateEvent::KeepAliveSent { ok } => if ok {
            (control, progress, step_of(UpdateAction::Receive))
        } else {
            (
                control.with_failure(),
                progress,
                UpdateStep { expire: true, action: UpdateAction::Receive },
            )
        },
        UpdateEvent::Received(outcome) => {
            let waited = UpdateProgress {
                waits: (progress.waits + 1) as u32,
                timeouts: if outcome == FeedOutcome::TimedOut {
                    (progress.timeouts + 1) as u32
                } else {
                    progress.timeouts
                },
                ..progress
            };
            let more = if waited.waits < MESSAGES_PER_UPDATE && waited.timeouts
                < TIMEOUTS_PER_UPDATE {
                UpdateAction::Receive
            } else {
                UpdateAction::ReadEnd
            };
            match outcome {
                FeedOutcome::NewClient => (control, waited, step_of(UpdateAction::Deliver)),
                FeedOutcome::UdpChannelDetails => (control, waited, step_of(UpdateAction::Deliver)),
                FeedOutcome::Unauthorized => (
                    control.with_state(ControlConnectionState::Reconnecting),
                    waited,
                    UpdateStep { expire: true, action: more },
                ),
                FeedOutcome::Pong { now } => (
                    MaintainedControlView { last_pong: now, ..control },
                    waited,
                    step_of(more),
                ),
                _ => (control, waited, step_of(more)),
            }
        },
        UpdateEvent::Ended { now } => if control.last_pong != 0 && now - control.last_pong
            > PONG_TIMEOUT {
            (
                (MaintainedControlView { last_pong: 0, ..control }).with_state(
                    ControlConnectionState::Reconnecting,
                ).with_failure(),
                progress,
                UpdateStep { expire: true, action: UpdateAction::Nothing },
            )
        } else {
            (control, progress, step_of(UpdateAction::Nothing))
        },
    }
}

impl UpdateProgress {
    /// An update that begins.
    pub fn begin() -> (r: Self)
        ensures
            r == (UpdateProgress { now: 0, waits: 0, timeouts: 0 }),
    {
        UpdateProgress { now: 0, waits: 0, timeouts: 0 }
    }
}

impl MaintainedControl {
    /// What follows an event of an update.
    pub fn update(&mut self, progress: &mut UpdateProgress, event: UpdateEvent) -> (r: UpdateStep)
        requires
            clock_fits(old(self)@, *old(progress), event),
        ensures
            (final(self)@, *final(progress), r) == update_step(old(self)@, *old(progress), event),
    {
        let mut expire = false;
        let action = match event {
            UpdateEvent::Begin { expired } => if expired {
                self.set_control_state(ControlConnectionState::Reconnecting);
                UpdateAction::Authenticate
            } else {
                UpdateAction::ReadTime
            },
            UpdateEvent::Authenticated { ok, now } => if ok {
                self.soft_reconnect_failures = 0;
                self.hard_reconnect_requested = false;
                self.last_pong = now;
                self.set_control_state(ControlConnectionState::Connected);
                UpdateAction::ReadTime
            } else {
                let _ = self.note_control_failure();
                UpdateAction::BackOff
            },
            UpdateEvent::Time { now } => {
                progress.now = now;
                if now - self.last_ping > PING_INTERVAL {
                    self.last_ping = now;
                    UpdateAction::SendPing { now }
                } else {
                    UpdateAction::ReadExpiry
                }
            },
            UpdateEvent::PingSent { ok } => {
                if !ok {
                    let _ = self.note_control_failure();
                    expire = true;
                }
                UpdateAction::ReadExpiry
            },
            UpdateEvent::ExpiresAt { at } => {
                let now: u64 = progress.now;
                let left: u64 = if at > now {
                    at - now
                } else {
                    0
                };
                let interval: u64 = if left < 30_000 {
                    10_000
                } else {
                    60_000
                };
                if interval < now - self.last_keep_alive {
                    self.last_keep_alive = now;
                    UpdateAction::SendKeepAlive
                } else {
                    UpdateAction::Receive
                }
            },
            UpdateEvent::KeepAliveSent { ok } => {
                if !ok {
                    let _ = self.note_control_failure();
                    expire = true;
                }
                UpdateAction::Receive
            },
            UpdateEvent::Received(outcome) => {
                progress.waits = progress.waits + 1;
                if outcome == FeedOutcome::TimedOut {
                    progress.timeouts = progress.timeouts + 1;
                }
                let more = if progress.waits < MESSAGES_PER_UPDATE && progress.timeouts
                    < TIMEOUTS_PER_UPDATE {
                    UpdateAction::Receive
                } else {
                    UpdateAction::ReadEnd
                };
                match outcome {
                    FeedOutcome::NewClient | FeedOutcome::UdpChannelDetails =>
                        UpdateAction::Deliver,
                    FeedOutcome::Unauthorized => {
                        self.set_control_state(ControlConnectionState::Reconnecting);
                        expire = true;
                        more
                    },
                    FeedOutcome::Pong { now } => {
                        self.last_pong = now;
                        more
                    },
                    _ => more,
                }
            },
            UpdateEvent::Ended { now } => {
                if self.last_pong != 0 && now - self.last_pong > PONG_TIMEOUT {
                    self.last_pong = 0;
                    self.set_control_state(ControlConnectionState::Reconnecting);
                    let _ = self.note_control_failure();
                    expire = true;
                }
                UpdateAction::Nothing
            },
        };
        UpdateStep { expire, action }
    }
}

// ---------------------------------------------------------------------------
// UDP session
// ---------------------------------------------------------------------------

impl MaintainedControl {
    /// Whether the UDP session is to be authenticated at the moment `now`: not if that was
    /// done less than `min_wait` milliseconds ago.
    pub fn send_udp_session_auth(&mut self, now: u64, min_wait: u64) -> (r: bool)
        requires
            old(self)@.last_udp_auth + min_wait <= u64::MAX,
        ensures
            r == (now >= old(self)@.last_udp_auth + min_wait),
            final(self)@ == if r {
                MaintainedControlView { last_udp_auth: now, ..old(self)@ }
            } else {
                old(self)@
            },
    {
        if now < self.last_udp_auth + min_wait {
            return false;
        }
        self.last_udp_auth = now;
        true
    }

    /// Note whether the authentication of the UDP session was sent: whether the session is
    /// to be marked as expired.
    pub fn udp_session_auth_sent(&mut self, ok: bool) -> (expire: bool)
        ensures
            expire == !ok,
            final(self)@ == if ok {
                old(self)@
            } else {
                old(self)@.with_failure()
            },
    {
        if !ok {
            let _ = self.note_control_failure();
        }
        !ok
    }
}

// ---------------------------------------------------------------------------
// Another endpoint
// ---------------------------------------------------------------------------

/// The addresses by which two connections are told apart: that of this machine, as the
/// endpoint sees it, and that of the tunnel server.
#[derive(Clone, Copy, Debug, PartialEq, Eq, Structural)]
pub struct PongAddresses {
    pub client: SocketAddress,
    pub tunnel: SocketAddress,
}

impl MaintainedControl {
    /// Begin to look for another endpoint. A forced search interrupts the channel at once.
    pub fn reload_control_addr(&mut self, force: bool)
        ensures
            final(self)@ == if force {
                old(self)@.with_state(ControlConnectionState::Reconnecting)
            } else {
                old(self)@
            },
    {
        if force {
            self.set_control_state(ControlConnectionState::Reconnecting);
        }
    }

    /// Whether to connect to the endpoints that were found: not to those that are in use,
    /// unless forced.
    pub fn reload_found(&mut self, addresses: &Vec<SocketAddress>, force: bool) -> (r: bool)
        ensures
            r == (force || addresses@ != old(self)@.last_control_targets),
            final(self)@ == if r {
                old(self)@.with_state(ControlConnectionState::Reconnecting)
            } else {
                old(self)@
            },
    {
        if !force && same_addresses(&self.last_control_targets, addresses) {
            return false;
        }
        self.set_control_state(ControlConnectionState::Reconnecting);
        true
    }

    /// Whether to change over to a new connection: not if both addresses are the same,
    /// unless forced.
    pub fn replace_connection(
        &mut self,
        current: &PongAddresses,
        new: &PongAddresses,
        force: bool,
    ) -> (r: bool)
        ensures
            r == (force || !(current.client.same_ip_as(new.client) && current.tunnel
                == new.tunnel)),
            final(self)@ == if r {
                old(self)@.with_state(ControlConnectionState::Reconnecting)
            } else {
                old(self)@
            },
    {
        if !force && current.client.same_ip(&new.client) && current.tunnel == new.tunnel {
            return false;
        }
        self.set_control_state(ControlConnectionState::Reconnecting);
        true
    }

    /// The new connection is authenticated and in use from the moment `now`.
    pub fn connection_replaced(&mut self, now: u64)
        ensures
            final(self)@ == old(self)@.renewed(now),
    {
        self.renew(now);
    }

    /// The search is over: these endpoints are in use from the moment `now`.
    pub fn reload_done(&mut self, addresses: Vec<SocketAddress>, now: u64)
        ensures
            final(self)@ == (MaintainedControlView {
                last_control_targets: addresses@,
                ..old(self)@.renewed(now)
            }),
    {
        self.last_control_targets = addresses;
        self.renew(now);
    }
}

// ---------------------------------------------------------------------------
// Laws
// ---------------------------------------------------------------------------

/// The third failure in a row asks for a new socket, and every later one asks again until
/// the channel works.
pub proof fn three_failures_ask_for_a_new_socket(control: MaintainedControlView)
    ensures
        control.with_failure().hard_reconnect_requested <==> control.hard_reconnect_requested
            || control.soft_reconnect_failures >= 2,
        control.soft_reconnect_failures == 0 && !control.hard_reconnect_requested ==> {
            &&& !control.with_failure().hard_reconnect_requested
            &&& !control.with_failure().with_failure().hard_reconnect_requested
            &&& control.with_failure().with_failure().with_failure().hard_reconnect_requested
        },
{
}

/// A new socket is asked for only after three failures in a row, whatever happens in an
/// update.
pub proof fn updates_keep_requests_justified(
    control: MaintainedControlView,
    progress: UpdateProgress,
    event: UpdateEvent,
)
    requires
        control.valid(),
    ensures
        update_step(control, progress, event).0.valid(),
        control.with_failure().valid(),
        forall|now: u64| #[trigger] control.renewed(now).valid(),
        (MaintainedControlView { hard_reconnect_requested: false, ..control }).valid(),
{
}

/// A session is marked as expired exactly when a message could not be sent, the endpoint
/// refused the session, or it stopped answering; each but the refusal counts as a failure.
pub proof fn expiry_is_always_justified(
    control: MaintainedControlView,
    progress: UpdateProgress,
    event: UpdateEvent,
)
    ensures
        update_step(control, progress, event).2.expire <==> {
            ||| event == (UpdateEvent::PingSent { ok: false })
            ||| event == (UpdateEvent::KeepAliveSent { ok: false })
            ||| event == UpdateEvent::Received(FeedOutcome::Unauthorized)
            ||| event matches UpdateEvent::Ended { now } && control.last_pong != 0 && now
                - control.last_pong > PONG_TIMEOUT
        },
        update_step(control, progress, event).2.expire && event != UpdateEvent::Received(
            FeedOutcome::Unauthorized,
        ) ==> update_step(control, progress, event).0.soft_reconnect_failures
            == control.with_failure().soft_reconnect_failures,
{
}

/// An update comes to an end: it waits for at most thirty messages, and each wait brings it
/// nearer to its end.
pub proof fn updates_come_to_an_end(
    control: MaintainedControlView,
    progress: UpdateProgress,
    event: UpdateEvent,
)
    requires
        event is Received,
        clock_fits(control, progress, event),
    ensures
        update_step(control, progress, event).1.waits == progress.waits + 1,
        update_step(control, progress, event).1.waits <= MESSAGES_PER_UPDATE,
        update_step(control, progress, event).2.action is Receive ==> update_step(
            control,
            progress,
            event,
        ).1.waits < MESSAGES_PER_UPDATE && update_step(control, progress, event).1.timeouts
            < TIMEOUTS_PER_UPDATE,
{
}

/// A session that was authenticated again leaves no trace of the failures before it, and
/// the channel counts as connected.
pub proof fn authentication_ends_the_failures(
    control: MaintainedControlView,
    progress: UpdateProgress,
    now: u64,
)
    ensures
        ({
            let after = update_step(
                control,
                progress,
                UpdateEvent::Authenticated { ok: true, now },
            ).0;
            &&& after.soft_reconnect_failures == 0
            &&& !after.hard_reconnect_requested
            &&& after.control_state == ControlConnectionState::Connected
            &&& after.last_pong == now
        }),
{
}

/// Once more than a second has passed since the last ping, the next one is sent, with the time
/// at which it is sent; before that none is. Nothing but the time of the last ping changes.
pub proof fn pings_are_sent_every_second(
    control: MaintainedControlView,
    progress: UpdateProgress,
    now: u64,
)
    ensures
        ({
            let (after, timed, step) = update_step(control, progress, UpdateEvent::Time { now });
            &&& !step.expire
            &&& timed == (UpdateProgress { now, ..progress })
            &&& now - control.last_ping > 1_000 ==> step.action == (UpdateAction::SendPing { now })
                && after == (MaintainedControlView { last_ping: now, ..control })
            &&& now - control.last_ping <= 1_000 ==> step.action == UpdateAction::ReadExpiry
                && after == control
        }),
{
}

/// The session is kept alive once a minute, and every ten seconds while less than half a minute
/// of it is left.
pub proof fn sessions_are_kept_alive(
    control: MaintainedControlView,
    progress: UpdateProgress,
    at: u64,
)
    ensures
        ({
            let (after, left, step) = update_step(
                control,
                progress,
                UpdateEvent::ExpiresAt { at },
            );
            let silent_for = progress.now - control.last_keep_alive;
            let due = silent_for > 60_000 || (silent_for > 10_000 && at - progress.now < 30_000);
            &&& !step.expire
            &&& left == progress
            &&& due ==> step.action == UpdateAction::SendKeepAlive && after
                == (MaintainedControlView { last_keep_alive: progress.now, ..control })
            &&& !due ==> step.action == UpdateAction::Receive && after == control
        }),
{
}

/// A channel that brought no pong for more than six seconds counts as lost: the session is
/// marked as expired, so that the next update authenticates it again, and the channel is no
/// longer connected. A lost channel is noticed once, and nothing else ends an update so.
pub proof fn silence_is_noticed(control: MaintainedControlView, progress: UpdateProgress, now: u64)
    ensures
        ({
            let (after, _, step) = update_step(control, progress, UpdateEvent::Ended { now });
            let lost = control.last_pong != 0 && now - control.last_pong > 6_000;
            &&& step.action == UpdateAction::Nothing
            &&& step.expire == lost
            &&& !lost ==> after == control
            &&& lost ==> {
                &&& after.control_state == ControlConnectionState::Reconnecting
                &&& after.last_pong == 0
                &&& control.soft_reconnect_failures < u32::MAX ==> after.soft_reconnect_failures
                    == control.soft_reconnect_failures + 1
                &&& after.last_ping == control.last_ping
                &&& after.last_keep_alive == control.last_keep_alive
                &&& after.last_control_targets == control.last_control_targets
                &&& forall|later: u64|
                    !(#[trigger] update_step(
                        after,
                        progress,
                        UpdateEvent::Ended { now: later },
                    )).2.expire
            }
        }),
{
}

/// A client that wants to connect, and the details of the UDP channel, are handed on at once. A
/// pong moves the time of the last answer and nothing else; a refused session stops counting as
/// connected; anything else is passed over.
pub proof fn messages_take_effect(
    control: MaintainedControlView,
    progress: UpdateProgress,
    outcome: FeedOutcome,
)
    requires
        progress.waits < 30,
        progress.timeouts < 10,
    ensures
        ({
            let (after, waited, step) = update_step(
                control,
                progress,
                UpdateEvent::Received(outcome),
            );
            &&& step.action is Deliver <==> outcome is NewClient || outcome is UdpChannelDetails
            &&& outcome matches FeedOutcome::Pong { now } ==> after == (MaintainedControlView {
                last_pong: now,
                ..control
            })
            &&& outcome is Unauthorized ==> step.expire && after == (MaintainedControlView {
                control_state: ControlConnectionState::Reconnecting,
                ..control
            })
            &&& !(outcome is Pong) && !(outcome is Unauthorized) ==> after == control
                && !step.expire
            &&& waited.now == progress.now
            &&& waited.waits == progress.waits + 1
            &&& waited.timeouts == progress.timeouts + if outcome is TimedOut {
                1int
            } else {
                0
            }
        }),
{
}

/// An update goes on to listen until it has waited thirty times, or ten times in vain.
pub proof fn updates_listen_long_enough(
    control: MaintainedControlView,
    progress: UpdateProgress,
    outcome: FeedOutcome,
)
    requires
        progress.waits < 30,
        progress.timeouts < 10,
        !(outcome is NewClient),
        !(outcome is UdpChannelDetails),
    ensures
        ({
            let action = update_step(
                control,
                progress,
                UpdateEvent::Received(outcome),
            ).2.action;
            let last = progress.waits == 29 || (outcome is TimedOut && progress.timeouts == 9);
            &&& last ==> action == UpdateAction::ReadEnd
            &&& !last ==> action == UpdateAction::Receive
        }),
{
}

/// An expired session is authenticated before anything else is done, and the channel is not
/// connected until that succeeded. A session that could not be authenticated is left alone for
/// this update; one that is not expired, or is authenticated, goes on with its update.
pub proof fn expired_sessions_are_authenticated_first(
    control: MaintainedControlView,
    progress: UpdateProgress,
    now: u64,
)
    ensures
        ({
            let (after, _, step) = update_step(
                control,
                progress,
                UpdateEvent::Begin { expired: true },
            );
            &&& step.action == UpdateAction::Authenticate
            &&& after.control_state == ControlConnectionState::Reconnecting
        }),
        update_step(control, progress, UpdateEvent::Begin { expired: false }) == (
            control,
            progress,
            UpdateStep { expire: false, action: UpdateAction::ReadTime },
        ),
        update_step(
            control,
            progress,
            UpdateEvent::Authenticated { ok: true, now },
        ).2.action == UpdateAction::ReadTime,
        ({
            let (after, _, step) = update_step(
                control,
                progress,
                UpdateEvent::Authenticated { ok: false, now },
            );
            &&& step.action == UpdateAction::BackOff
            &&& after.control_state == control.control_state
            &&& control.soft_reconnect_failures < u32::MAX ==> after.soft_reconnect_failures
                == control.soft_reconnect_failures + 1
        }),
{
}

/// What cannot be sent does not stop an update, but it counts as a failure; what was sent
/// changes nothing.
pub proof fn updates_go_on_after_sending(
    control: MaintainedControlView,
    progress: UpdateProgress,
    ok: bool,
)
    ensures
        ({
            let ping = update_step(control, progress, UpdateEvent::PingSent { ok });
            let keep_alive = update_step(control, progress, UpdateEvent::KeepAliveSent { ok });
            &&& ping.2.action == UpdateAction::ReadExpiry
            &&& keep_alive.2.action == UpdateAction::Receive
            &&& ping.2.expire == !ok
            &&& keep_alive.2.expire == !ok
            &&& ok ==> ping.0 == control && keep_alive.0 == control
            &&& !ok && control.soft_reconnect_failures < u32::MAX ==> {
                &&& ping.0.soft_reconnect_failures == control.soft_reconnect_failures + 1
                &&& keep_alive.0.soft_reconnect_failures == control.soft_reconnect_failures + 1
            }
            &&& ping.0.control_state == control.control_state
            &&& keep_alive.0.control_state == control.control_state
        }),
{
}

/// A failure is counted, and from the third one in a row on a new socket is asked for; a
/// channel that was set up anew begins without failures, as connected, with its last answer
/// now and with everything due.
pub proof fn failures_are_counted_until_the_channel_is_renewed(
    control: MaintainedControlView,
    now: u64,
)
    ensures
        control.soft_reconnect_failures < u32::MAX ==> control.with_failure()
            == (MaintainedControlView {
            soft_reconnect_failures: (control.soft_reconnect_failures + 1) as u32,
            hard_reconnect_requested: control.hard_reconnect_requested
                || control.soft_reconnect_failures >= 2,
            ..control
        }),
        control.renewed(now) == (MaintainedControlView {
            last_keep_alive: 0,
            last_ping: 0,
            last_pong: now,
            last_udp_auth: 0,
            last_control_targets: control.last_control_targets,
            control_state: ControlConnectionState::Connected,
            soft_reconnect_failures: 0,
            hard_reconnect_requested: false,
        }),
        forall|state: ControlConnectionState| #[trigger]
            control.with_state(state) == (MaintainedControlView { control_state: state, ..control }),
{
}

} // verus!

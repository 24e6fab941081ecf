//! The state that the runtime publishes: its status, and what the account's run data say.

use vstd::prelude::*;

use crate::api::{AccountStatus as ApiAccountStatus, PortType};
use crate::ipc::{protocol, protocol_info};
use crate::model::{
    AccountStatus, AgentLifecycle, AgentLifecycleView, AgentState, AgentStateView, ConnectionStats,
    NoticeState, NoticeStateView, PendingTunnelState, PendingTunnelStateView, ServiceError,
    ServiceErrorView, ServicePhase, ServiceStatus, ServiceStatusView, SubscriptionSnapshot,
    SubscriptionSnapshotView, TunnelProtocol, TunnelState, TunnelStateView,
};
use crate::text::{copy_opt, decimal, decimal_text, join2, join3, opt_text, owned, same, trim, trimmed};

verus! {

// ---------------------------------------------------------------------------
// The cached state
// ---------------------------------------------------------------------------

/// The state that direct handles and the service read.
pub struct StateCache {
    pub lifecycle: AgentLifecycle,
    pub status: ServiceStatus,
    pub stats: ConnectionStats,
}

/// The model of a [`StateCache`]: what a new subscriber starts from.
impl View for StateCache {
    type V = SubscriptionSnapshotView;

    open spec fn view(&self) -> SubscriptionSnapshotView {
        SubscriptionSnapshotView {
            status: self.status@,
            lifecycle: self.lifecycle@,
            stats: self.stats,
        }
    }
}

impl Default for StateCache {
    fn default() -> (r: Self)
        ensures
            r@ == (SubscriptionSnapshotView {
                status: ServiceStatusView::empty(),
                lifecycle: AgentLifecycleView::Starting,
                stats: ConnectionStats { bytes_in: 0, bytes_out: 0, active_tcp: 0, active_udp: 0 },
            }),
    {
        StateCache {
            lifecycle: AgentLifecycle::default(),
            status: ServiceStatus::default(),
            stats: ConnectionStats::default(),
        }
    }
}

impl StateCache {
    pub fn set_lifecycle(&mut self, lifecycle: AgentLifecycle)
        ensures
            final(self)@ == (SubscriptionSnapshotView { lifecycle: lifecycle@, ..old(self)@ }),
    {
        self.lifecycle = lifecycle;
    }

    pub fn lifecycle(&self) -> (r: AgentLifecycle)
        ensures
            r@ == self@.lifecycle,
    {
        self.lifecycle.clone()
    }

    pub fn set_status(&mut self, status: ServiceStatus)
        ensures
            final(self)@ == (SubscriptionSnapshotView { status: status@, ..old(self)@ }),
    {
        self.status = status;
    }

    pub fn status(&self) -> (r: ServiceStatus)
        ensures
            r@ == self@.status,
    {
        self.status.clone()
    }

    pub fn set_stats(&mut self, stats: ConnectionStats)
        ensures
            final(self)@ == (SubscriptionSnapshotView { stats, ..old(self)@ }),
    {
        self.stats = stats;
    }

    pub fn stats(&self) -> (r: ConnectionStats)
        ensures
            r == self@.stats,
    {
        self.stats
    }

    /// What a new subscriber starts from.
    pub fn subscription_snapshot(&self) -> (r: SubscriptionSnapshot)
        ensures
            r@ == self@,
    {
        SubscriptionSnapshot {
            status: self.status(),
            lifecycle: self.lifecycle(),
            stats: self.stats(),
        }
    }
}

// ---------------------------------------------------------------------------
// The status of the process
// ---------------------------------------------------------------------------

/// What every status of a runtime holds.
pub struct StatusContext {
    pub secret_path: Option<String>,
    pub version: String,
    /// When the runtime was started, in milliseconds since the Unix epoch.
    pub start_time: u64,
}

/// The model of a [`StatusContext`].
#[verifier::ext_equal]
pub struct StatusContextView {
    pub secret_path: Option<Seq<char>>,
    pub version: Seq<char>,
    pub start_time: u64,
}

impl View for StatusContext {
    type V = StatusContextView;

    open spec fn view(&self) -> StatusContextView {
        StatusContextView {
            secret_path: opt_text(self.secret_path),
            version: self.version@,
            start_time: self.start_time,
        }
    }
}

/// The whole seconds from one moment to another, both in milliseconds: 0 where the
/// second is not later.
pub open spec fn seconds_between(start: u64, now: u64) -> u64 {
    if now >= start {
        ((now - start) / 1000) as u64
    } else {
        0
    }
}

/// The whole seconds from one moment to another, both in milliseconds.
pub fn uptime_secs(start: u64, now: u64) -> (r: u64)
    ensures
        r == seconds_between(start, now),
{
    if now >= start {
        (now - start) / 1000
    } else {
        0
    }
}

impl StatusContextView {
    /// The status of a process at a moment. The endpoint is left empty: a runtime has
    /// none.
    pub open spec fn status(
        self,
        phase: ServicePhase,
        has_secret: bool,
        last_error: Option<ServiceErrorView>,
        pid: u32,
        now: u64,
    ) -> ServiceStatusView {
        ServiceStatusView {
            phase,
            pid,
            uptime_secs: seconds_between(self.start_time, now),
            version: self.version,
            socket_path: Seq::empty(),
            secret_path: self.secret_path,
            has_secret,
            protocol: protocol(),
            last_error,
        }
    }
}

impl StatusContext {
    pub fn new(secret_path: Option<String>, version: String, start_time: u64) -> (r: Self)
        ensures
            r@ == (StatusContextView {
                secret_path: opt_text(secret_path),
                version: version@,
                start_time,
            }),
    {
        StatusContext { secret_path, version, start_time }
    }

    /// The status of process `pid` at the moment `now`.
    pub fn status(
        &self,
        phase: ServicePhase,
        has_secret: bool,
        last_error: Option<ServiceError>,
        pid: u32,
        now: u64,
    ) -> (r: ServiceStatus)
        ensures
            r@ == self@.status(
                phase,
                has_secret,
                match last_error {
                    Some(e) => Some(e@),
                    None => None,
                },
                pid,
                now,
            ),
    {
        let r = ServiceStatus {
            phase,
            pid,
            uptime_secs: uptime_secs(self.start_time, now),
            version: self.version.clone(),
            socket_path: String::new(),
            secret_path: copy_opt(&self.secret_path),
            has_secret,
            protocol: protocol_info(),
            last_error,
        };
        assert(r.socket_path@ =~= Seq::empty());
        r
    }
}

/// A runtime on its own never reports an endpoint.
pub proof fn runtimes_have_no_endpoint(
    context: StatusContextView,
    phase: ServicePhase,
    has_secret: bool,
    last_error: Option<ServiceErrorView>,
    pid: u32,
    now: u64,
)
    ensures
        context.status(phase, has_secret, last_error, pid, now).socket_path.len() == 0,
{
}

// ---------------------------------------------------------------------------
// Run data
// ---------------------------------------------------------------------------

/// Where a tunnel's traffic goes on this machine.
#[derive(Debug)]
pub enum OriginTarget {
    Https { ip: String, http_port: u16, https_port: u16 },
    Port { ip: String, port: u16 },
}

/// A tunnel of the agent, as the API lists it. Its target is missing where its settings
/// name none.
#[derive(Debug)]
pub struct RunTunnel {
    pub id: String,
    pub name: String,
    pub display_address: String,
    pub port_type: PortType,
    pub port_count: u16,
    pub disabled_reason: Option<String>,
    pub target: Option<OriginTarget>,
}

/// A tunnel that still waits for its address, as the API lists it.
#[derive(Debug)]
pub struct RunPending {
    pub id: String,
    pub status_msg: String,
}

/// A notice, as the API lists it. A lower rank is shown first.
#[derive(Debug)]
pub struct RunNotice {
    pub rank: u32,
    pub priority: String,
    pub message: String,
    pub resolve_link: Option<String>,
}

/// What the API says of the agent and its account.
#[derive(Debug)]
pub struct RunData {
    pub agent_id: String,
    pub account_status: ApiAccountStatus,
    pub tunnels: Vec<RunTunnel>,
    pub pending: Vec<RunPending>,
    pub notices: Vec<RunNotice>,
}

impl Clone for RunNotice {
    fn clone(&self) -> (r: Self)
        ensures
            r == *self,
    {
        RunNotice {
            rank: self.rank,
            priority: self.priority.clone(),
            message: self.message.clone(),
            resolve_link: copy_opt(&self.resolve_link),
        }
    }
}

/// The address that a target is shown by.
pub open spec fn destination(target: OriginTarget) -> Seq<char> {
    match target {
        OriginTarget::Https { ip, http_port, https_port } => ip@ + " (http: "@ + decimal(
            http_port as nat,
        ) + ", https: "@ + decimal(https_port as nat) + ")"@,
        OriginTarget::Port { ip, port } => ip@ + ":"@ + decimal(port as nat),
    }
}

/// A tunnel as clients see it, given its target.
pub open spec fn tunnel_view(tunnel: RunTunnel, target: OriginTarget) -> TunnelStateView {
    TunnelStateView {
        id: tunnel.id@,
        name: if trimmed(tunnel.name@).len() > 0 {
            Some(tunnel.name@)
        } else {
            None
        },
        display_address: tunnel.display_address@,
        destination: destination(target),
        protocol: match tunnel.port_type {
            PortType::Tcp => TunnelProtocol::Tcp,
            PortType::Udp => TunnelProtocol::Udp,
            PortType::Both => TunnelProtocol::Both,
        },
        port_count: tunnel.port_count,
        local_address: Some(
            match target {
                OriginTarget::Https { ip, .. } => ip@,
                OriginTarget::Port { ip, .. } => ip@,
            },
        ),
        local_port: match target {
            OriginTarget::Https { .. } => None,
            OriginTarget::Port { port, .. } => Some(port),
        },
        is_disabled: tunnel.disabled_reason is Some,
        disabled_reason: opt_text(tunnel.disabled_reason),
    }
}

/// The tunnels that clients see: those with a target, in the order of the API.
pub open spec fn tunnels_view(tunnels: Seq<RunTunnel>) -> Seq<TunnelStateView>
    decreases tunnels.len(),
{
    if tunnels.len() == 0 {
        Seq::empty()
    } else {
        let before = tunnels_view(tunnels.drop_last());
        match tunnels.last().target {
            Some(target) => before.push(tunnel_view(tunnels.last(), target)),
            None => before,
        }
    }
}

/// The place of a notice among sorted ones: behind all of its rank or a lower one.
pub open spec fn place(sorted: Seq<RunNotice>, rank: u32) -> nat
    decreases sorted.len(),
{
    if sorted.len() == 0 || sorted.last().rank <= rank {
        sorted.len()
    } else {
        place(sorted.drop_last(), rank)
    }
}

/// The notices by rank; those of one rank stay in the order of the API.
pub open spec fn sorted_notices(notices: Seq<RunNotice>) -> Seq<RunNotice>
    decreases notices.len(),
{
    if notices.len() == 0 {
        notices
    } else {
        let before = sorted_notices(notices.drop_last());
        before.insert(place(before, notices.last().rank) as int, notices.last())
    }
}

/// A notice as clients see it.
pub open spec fn notice_view(notice: RunNotice) -> NoticeStateView {
    NoticeStateView {
        priority: notice.priority@,
        message: notice.message@,
        resolve_link: opt_text(notice.resolve_link),
    }
}

/// The account's status as clients see it.
pub open spec fn account_status_view(status: ApiAccountStatus) -> AccountStatus {
    match status {
        ApiAccountStatus::Guest => AccountStatus::Guest,
        ApiAccountStatus::EmailNotVerified => AccountStatus::EmailNotVerified,
        ApiAccountStatus::Verified => AccountStatus::Verified,
    }
}

/// The state of the agent as clients see it.
pub open spec fn state_view(
    data: RunData,
    version: Seq<char>,
    login_link: Option<Seq<char>>,
    start_time: u64,
) -> AgentStateView {
    AgentStateView {
        version,
        tunnels: tunnels_view(data.tunnels@),
        pending_tunnels: data.pending@.map_values(
            |p: RunPending| PendingTunnelStateView { id: p.id@, status_msg: p.status_msg@ },
        ),
        notices: sorted_notices(data.notices@).map_values(|n: RunNotice| notice_view(n)),
        account_status: account_status_view(data.account_status),
        agent_id: data.agent_id@,
        login_link: if data.account_status == ApiAccountStatus::Guest {
            login_link
        } else {
            None
        },
        start_time,
    }
}

fn tunnel_state(tunnel: &RunTunnel, target: &OriginTarget) -> (r: TunnelState)
    ensures
        r@ == tunnel_view(*tunnel, *target),
{
    let destination = match target {
        OriginTarget::Https { ip, http_port, https_port } => {
            let http = decimal_text(*http_port as u64);
            let https = decimal_text(*https_port as u64);
            let mut out = join3(ip.as_str(), " (http: ", http.as_str());
            out.append(", https: ");
            out.append(https.as_str());
            out.append(")");
            out
        },
        OriginTarget::Port { ip, port } => {
            let port = decimal_text(*port as u64);
            join3(ip.as_str(), ":", port.as_str())
        },
    };
    let name = if trim(tunnel.name.as_str()).is_empty() {
        None
    } else {
        Some(tunnel.name.clone())
    };
    TunnelState {
        id: tunnel.id.clone(),
        name,
        display_address: tunnel.display_address.clone(),
        destination,
        protocol: match tunnel.port_type {
            PortType::Tcp => TunnelProtocol::Tcp,
            PortType::Udp => TunnelProtocol::Udp,
            PortType::Both => TunnelProtocol::Both,
        },
        port_count: tunnel.port_count,
        local_address: Some(
            match target {
                OriginTarget::Https { ip, .. } => ip.clone(),
                OriginTarget::Port { ip, .. } => ip.clone(),
            },
        ),
        local_port: match target {
            OriginTarget::Https { .. } => None,
            OriginTarget::Port { port, .. } => Some(*port),
        },
        is_disabled: tunnel.disabled_reason.is_some(),
        disabled_reason: copy_opt(&tunnel.disabled_reason),
    }
}

fn tunnel_states(tunnels: &Vec<RunTunnel>) -> (r: Vec<TunnelState>)
    ensures
        r@.map_values(|t: TunnelState| t@) == tunnels_view(tunnels@),
{
    let mut out: Vec<TunnelState> = Vec::new();
    let mut i: usize = 0;
    assert(out@.map_values(|t: TunnelState| t@) =~= tunnels_view(tunnels@.take(0)));
    while i < tunnels.len()
        invariant
            i <= tunnels.len(),
            out@.map_values(|t: TunnelState| t@) == tunnels_view(tunnels@.take(i as int)),
        decreases tunnels.len() - i,
    {
        proof {
            assert(tunnels@.take(i + 1).drop_last() == tunnels@.take(i as int));
            assert(tunnels@.take(i + 1).last() == tunnels@[i as int]);
        }
        let ghost before = out@;
        match &tunnels[i].target {
            Some(target) => {
                let state = tunnel_state(&tunnels[i], target);
                out.push(state);
                assert(out@.map_values(|t: TunnelState| t@) =~= before.map_values(
                    |t: TunnelState| t@,
                ).push(state@));
            },
            None => {},
        }
        i = i + 1;
    }
    assert(tunnels@.take(tunnels@.len() as int) == tunnels@);
    out
}

fn pending_states(pending: &Vec<RunPending>) -> (r: Vec<PendingTunnelState>)
    ensures
        r@.map_values(|p: PendingTunnelState| p@) == pending@.map_values(
            |p: RunPending| PendingTunnelStateView { id: p.id@, status_msg: p.status_msg@ },
        ),
{
    let mut out: Vec<PendingTunnelState> = Vec::new();
    let mut i: usize = 0;
    while i < pending.len()
        invariant
            i <= pending.len(),
            out@.len() == i,
            forall|k: int|
                0 <= k < i ==> (#[trigger] out@[k])@ == (PendingTunnelStateView {
                    id: pending@[k].id@,
                    status_msg: pending@[k].status_msg@,
                }),
        decreases pending.len() - i,
    {
        out.push(
            PendingTunnelState {
                id: pending[i].id.clone(),
                status_msg: pending[i].status_msg.clone(),
            },
        );
        i = i + 1;
    }
    assert(out@.map_values(|p: PendingTunnelState| p@) =~= pending@.map_values(
        |p: RunPending| PendingTunnelStateView { id: p.id@, status_msg: p.status_msg@ },
    ));
    out
}

fn sort_notices(notices: &Vec<RunNotice>) -> (r: Vec<RunNotice>)
    ensures
        r@ == sorted_notices(notices@),
{
    let mut out: Vec<RunNotice> = Vec::new();
    let mut i: usize = 0;
    assert(out@ =~= sorted_notices(notices@.take(0)));
    while i < notices.len()
        invariant
            i <= notices.len(),
            out@ == sorted_notices(notices@.take(i as int)),
        decreases notices.len() - i,
    {
        let mut at: usize = out.len();
        assert(out@.take(out@.len() as int) == out@);
        while at > 0 && out[at - 1].rank > notices[i].rank
            invariant
                i < notices.len(),
                at <= out.len(),
                place(out@, notices@[i as int].rank) == place(
                    out@.take(at as int),
                    notices@[i as int].rank,
                ),
            decreases at,
        {
            assert(out@.take(at as int).drop_last() == out@.take(at - 1));
            at = at - 1;
        }
        proof {
            assert(notices@.take(i + 1).drop_last() == notices@.take(i as int));
            assert(notices@.take(i + 1).last() == notices@[i as int]);
        }
        out.insert(at, notices[i].clone());
        i = i + 1;
    }
    assert(notices@.take(notices@.len() as int) == notices@);
    out
}

fn notice_states(notices: &Vec<RunNotice>) -> (r: Vec<NoticeState>)
    ensures
        r@.map_values(|n: NoticeState| n@) == notices@.map_values(|n: RunNotice| notice_view(n)),
{
    let mut out: Vec<NoticeState> = Vec::new();
    let mut i: usize = 0;
    while i < notices.len()
        invariant
            i <= notices.len(),
            out@.len() == i,
            forall|k: int| 0 <= k < i ==> (#[trigger] out@[k])@ == notice_view(notices@[k]),
        decreases notices.len() - i,
    {
        out.push(
            NoticeState {
                priority: notices[i].priority.clone(),
                message: notices[i].message.clone(),
                resolve_link: copy_opt(&notices[i].resolve_link),
            },
        );
        i = i + 1;
    }
    assert(out@.map_values(|n: NoticeState| n@) =~= notices@.map_values(
        |n: RunNotice| notice_view(n),
    ));
    out
}

/// The state of the agent as clients see it. A login link is shown for a guest alone.
pub fn agent_state(
    data: &RunData,
    version: &str,
    login_link: Option<String>,
    start_time: u64,
) -> (r: AgentState)
    ensures
        r@ == state_view(*data, version@, opt_text(login_link), start_time),
{
    let sorted = sort_notices(&data.notices);
    AgentState {
        version: owned(version),
        tunnels: tunnel_states(&data.tunnels),
        pending_tunnels: pending_states(&data.pending),
        notices: notice_states(&sorted),
        account_status: match data.account_status {
            ApiAccountStatus::Guest => AccountStatus::Guest,
            ApiAccountStatus::EmailNotVerified => AccountStatus::EmailNotVerified,
            ApiAccountStatus::Verified => AccountStatus::Verified,
        },
        agent_id: data.agent_id.clone(),
        login_link: if wants_login_link(data) {
            login_link
        } else {
            None
        },
        start_time,
    }
}

/// Whether a login link is wanted for the account: guests get one.
pub fn wants_login_link(data: &RunData) -> (r: bool)
    ensures
        r == (data.account_status == ApiAccountStatus::Guest),
{
    data.account_status == ApiAccountStatus::Guest
}

/// The notices of one rank, in their order.
pub open spec fn of_rank(notices: Seq<RunNotice>, rank: u32) -> Seq<RunNotice> {
    notices.filter(|n: RunNotice| n.rank == rank)
}

proof fn lemma_place(sorted: Seq<RunNotice>, rank: u32)
    requires
        forall|i: int, j: int| 0 <= i <= j < sorted.len() ==> sorted[i].rank <= sorted[j].rank,
    ensures
        place(sorted, rank) <= sorted.len(),
        forall|i: int| 0 <= i < place(sorted, rank) ==> (#[trigger] sorted[i]).rank <= rank,
        forall|i: int|
            place(sorted, rank) <= i < sorted.len() ==> (#[trigger] sorted[i]).rank > rank,
    decreases sorted.len(),
{
    if sorted.len() > 0 && sorted.last().rank > rank {
        lemma_place(sorted.drop_last(), rank);
        let p = place(sorted, rank);
        assert forall|i: int| 0 <= i < p implies (#[trigger] sorted[i]).rank <= rank by {
            assert(sorted.drop_last()[i] == sorted[i]);
        }
        assert forall|i: int| p <= i < sorted.len() implies (#[trigger] sorted[i]).rank > rank by {
            if i < sorted.len() - 1 {
                assert(sorted.drop_last()[i] == sorted[i]);
            }
        }
    } else if sorted.len() > 0 {
        assert forall|i: int| 0 <= i < sorted.len() implies (#[trigger] sorted[i]).rank <= rank by {
            assert(sorted[i].rank <= sorted[sorted.len() - 1].rank);
        }
    }
}

proof fn lemma_filter_insert(s: Seq<RunNotice>, at: int, x: RunNotice, rank: u32)
    requires
        0 <= at <= s.len(),
        forall|i: int| at <= i < s.len() ==> (#[trigger] s[i]).rank != x.rank,
    ensures
        of_rank(s.insert(at, x), rank) == if x.rank == rank {
            of_rank(s, rank).push(x)
        } else {
            of_rank(s, rank)
        },
    decreases s.len() - at,
{
    reveal_with_fuel(Seq::filter, 2);
    if at == s.len() {
        assert(s.insert(at, x) == s.push(x));
        assert(s.push(x).drop_last() == s);
    } else {
        let t = s.insert(at, x);
        assert(t.drop_last() == s.drop_last().insert(at, x));
        assert(t.last() == s.last());
        assert(s.last().rank != x.rank) by {
            assert(s[s.len() - 1].rank != x.rank);
        }
        assert forall|i: int| at <= i < s.drop_last().len() implies (
        #[trigger] s.drop_last()[i]).rank != x.rank by {
            assert(s.drop_last()[i] == s[i]);
        }
        lemma_filter_insert(s.drop_last(), at, x, rank);
    }
}

/// Clients see all notices and no others, those of a lower rank before those of a
/// higher one, and those of one rank in the order in which the API lists them.
pub proof fn notices_are_sorted_by_rank(notices: Seq<RunNotice>, rank: u32)
    ensures
        sorted_notices(notices).len() == notices.len(),
        sorted_notices(notices).to_multiset() == notices.to_multiset(),
        forall|i: int, j: int|
            0 <= i <= j < notices.len() ==> sorted_notices(notices)[i].rank <= sorted_notices(
                notices,
            )[j].rank,
        of_rank(sorted_notices(notices), rank) == of_rank(notices, rank),
    decreases notices.len(),
{
    broadcast use vstd::seq_lib::group_to_multiset_ensures;

    if notices.len() > 0 {
        let rest = notices.drop_last();
        let x = notices.last();
        let before = sorted_notices(rest);
        notices_are_sorted_by_rank(rest, rank);
        lemma_place(before, x.rank);
        let p = place(before, x.rank) as int;
        let after = before.insert(p, x);
        assert(after == sorted_notices(notices));
        assert(rest.push(x) == notices);
        assert(after.to_multiset() == before.to_multiset().insert(x));
        assert(notices.to_multiset() == rest.to_multiset().insert(x));
        assert forall|i: int, j: int| 0 <= i <= j < after.len() implies after[i].rank
            <= after[j].rank by {
            if i < p && j > p {
                assert(before[i].rank <= before[j - 1].rank);
            } else if i > p {
                assert(before[i - 1].rank <= before[j - 1].rank);
            } else if j < p {
                assert(before[i].rank <= before[j].rank);
            }
        }
        assert forall|i: int| p <= i < before.len() implies (#[trigger] before[i]).rank
            != x.rank by {}
        lemma_filter_insert(before, p, x, rank);
        reveal_with_fuel(Seq::filter, 2);
        assert(of_rank(notices, rank) == if x.rank == rank {
            of_rank(rest, rank).push(x)
        } else {
            of_rank(rest, rank)
        });
    }
}

/// A state shows a login link for a guest account alone, and only the link that was made for
/// it; what waits for an address is shown entry by entry, in the order of the API.
pub proof fn login_links_are_for_guests(
    data: RunData,
    version: Seq<char>,
    login_link: Option<Seq<char>>,
    start_time: u64,
)
    ensures
        ({
            let state = state_view(data, version, login_link, start_time);
            &&& data.account_status != ApiAccountStatus::Guest ==> state.login_link is None
            &&& data.account_status == ApiAccountStatus::Guest ==> state.login_link == login_link
            &&& state.pending_tunnels.len() == data.pending@.len()
            &&& forall|i: int|
                0 <= i < data.pending@.len() ==> (#[trigger] state.pending_tunnels[i]).id
                    == data.pending@[i].id@ && state.pending_tunnels[i].status_msg
                    == data.pending@[i].status_msg@
            &&& state.notices.len() == sorted_notices(data.notices@).len()
        }),
{
}

/// Every tunnel that clients see has an address on this machine, and a disabled tunnel is
/// shown as such exactly if the API gives a reason.
pub proof fn shown_tunnels_have_an_origin(tunnels: Seq<RunTunnel>, i: int)
    requires
        0 <= i < tunnels_view(tunnels).len(),
    ensures
        tunnels_view(tunnels).len() <= tunnels.len(),
        tunnels_view(tunnels)[i].local_address is Some,
        tunnels_view(tunnels)[i].is_disabled == (tunnels_view(tunnels)[i].disabled_reason is Some),
    decreases tunnels.len(),
{
    if tunnels.len() > 0 {
        let before = tunnels_view(tunnels.drop_last());
        if i < before.len() {
            shown_tunnels_have_an_origin(tunnels.drop_last(), i);
        } else if before.len() > 0 {
            shown_tunnels_have_an_origin(tunnels.drop_last(), 0);
        }
    }
}

// ---------------------------------------------------------------------------
// What is logged of the state
// ---------------------------------------------------------------------------

/// The label of an account's status.
pub fn service_account_status_label(status: &AccountStatus) -> (r: &'static str)
    ensures
        r@ == status.wire(),
{
    match status {
        AccountStatus::Unknown => "unknown",
        AccountStatus::Guest => "guest",
        AccountStatus::EmailNotVerified => "email_not_verified",
        AccountStatus::Verified => "verified",
    }
}

/// The counts by which a change of the agent's state is noticed.
#[derive(Clone, Copy, Debug)]
pub struct RunningSummary {
    pub tunnel_count: usize,
    pub pending_tunnel_count: usize,
    pub disabled_tunnel_count: usize,
    pub account_status: &'static str,
}

/// The model of a [`RunningSummary`].
#[verifier::ext_equal]
pub struct RunningSummaryView {
    pub tunnel_count: nat,
    pub pending_tunnel_count: nat,
    pub disabled_tunnel_count: nat,
    pub account_status: Seq<char>,
}

impl View for RunningSummary {
    type V = RunningSummaryView;

    open spec fn view(&self) -> RunningSummaryView {
        RunningSummaryView {
            tunnel_count: self.tunnel_count as nat,
            pending_tunnel_count: self.pending_tunnel_count as nat,
            disabled_tunnel_count: self.disabled_tunnel_count as nat,
            account_status: self.account_status@,
        }
    }
}

/// How many tunnels are disabled.
pub open spec fn disabled_count(tunnels: Seq<TunnelStateView>) -> nat
    decreases tunnels.len(),
{
    if tunnels.len() == 0 {
        0
    } else {
        disabled_count(tunnels.drop_last()) + if tunnels.last().is_disabled {
            1nat
        } else {
            0nat
        }
    }
}

/// The counts of a state.
pub open spec fn summary_of(state: AgentStateView) -> RunningSummaryView {
    RunningSummaryView {
        tunnel_count: state.tunnels.len(),
        pending_tunnel_count: state.pending_tunnels.len(),
        disabled_tunnel_count: disabled_count(state.tunnels),
        account_status: state.account_status.wire(),
    }
}

impl RunningSummary {
    /// The counts of a state.
    pub fn from_state(state: &AgentState) -> (r: Self)
        ensures
            r@ == summary_of(state@),
    {
        let mut disabled: usize = 0;
        let mut i: usize = 0;
        assert(state@.tunnels.take(0) =~= Seq::empty());
        while i < state.tunnels.len()
            invariant
                i <= state.tunnels.len(),
                disabled <= i,
                disabled == disabled_count(state@.tunnels.take(i as int)),
                state@.tunnels.len() == state.tunnels.len(),
            decreases state.tunnels.len() - i,
        {
            proof {
                assert(state@.tunnels.take(i + 1).drop_last() == state@.tunnels.take(i as int));
                assert(state@.tunnels.take(i + 1).last() == state.tunnels@[i as int]@);
            }
            if state.tunnels[i].is_disabled {
                disabled = disabled + 1;
            }
            i = i + 1;
        }
        assert(state@.tunnels.take(state@.tunnels.len() as int) == state@.tunnels);
        RunningSummary {
            tunnel_count: state.tunnels.len(),
            pending_tunnel_count: state.pending_tunnels.len(),
            disabled_tunnel_count: disabled,
            account_status: service_account_status_label(&state.account_status),
        }
    }

    /// Whether two summaries hold the same counts.
    pub fn same_as(&self, other: &RunningSummary) -> (r: bool)
        ensures
            r == (self@ == other@),
    {
        let equal = self.tunnel_count == other.tunnel_count && self.pending_tunnel_count
            == other.pending_tunnel_count && self.disabled_tunnel_count
            == other.disabled_tunnel_count && same(self.account_status, other.account_status);
        assert(equal == (self@ =~= other@));
        equal
    }
}

/// What is new about a state that was polled.
#[derive(Clone, Copy, Debug, PartialEq, Eq, Structural)]
pub enum PollNews {
    /// The first state.
    Loaded,
    /// Other counts than before.
    Updated,
    /// The same counts as before.
    Unchanged,
}

/// What the polling of the agent's state remembers between two polls.
pub struct StatePolling {
    pub last_running_summary: Option<RunningSummary>,
    pub api_available: bool,
}

/// The model of what the polling remembers.
pub open spec fn last_summary(polling: StatePolling) -> Option<RunningSummaryView> {
    match polling.last_running_summary {
        Some(summary) => Some(summary@),
        None => None,
    }
}

/// What is new about a state, given the counts of the last one.
pub open spec fn news_of(last: Option<RunningSummaryView>, state: AgentStateView) -> PollNews {
    match last {
        None => PollNews::Loaded,
        Some(before) => if before == summary_of(state) {
            PollNews::Unchanged
        } else {
            PollNews::Updated
        },
    }
}

impl StatePolling {
    pub fn new() -> (r: Self)
        ensures
            last_summary(r) is None,
            !r.api_available,
    {
        StatePolling { last_running_summary: None, api_available: false }
    }

    /// Note that the API answered: whether it did not before, after it once had.
    pub fn answered(&mut self) -> (recovered: bool)
        ensures
            recovered == (!old(self).api_available && last_summary(*old(self)) is Some),
            final(self).api_available,
            final(self).last_running_summary == old(self).last_running_summary,
    {
        let recovered = !self.api_available && self.last_running_summary.is_some();
        self.api_available = true;
        recovered
    }

    /// Note the state that was polled.
    pub fn polled(&mut self, state: &AgentState) -> (news: PollNews)
        ensures
            news == news_of(last_summary(*old(self)), state@),
            last_summary(*final(self)) == Some(summary_of(state@)),
            final(self).api_available == old(self).api_available,
    {
        let summary = RunningSummary::from_state(state);
        let news = match &self.last_running_summary {
            None => PollNews::Loaded,
            Some(before) => if before.same_as(&summary) {
                PollNews::Unchanged
            } else {
                PollNews::Updated
            },
        };
        self.last_running_summary = Some(summary);
        news
    }

    /// Note that the API did not answer: whether it did before.
    pub fn failed(&mut self) -> (was_available: bool)
        ensures
            was_available == old(self).api_available,
            !final(self).api_available,
            final(self).last_running_summary == old(self).last_running_summary,
    {
        let was_available = self.api_available;
        self.api_available = false;
        was_available
    }
}

// ---------------------------------------------------------------------------
// Login links for guests
// ---------------------------------------------------------------------------

/// How long a login link is handed out again, in milliseconds.
pub const LOGIN_LINK_LIFETIME: u64 = 15_000;

/// The link that signs in with a guest session.
pub open spec fn guest_link(session_key: Seq<char>) -> Seq<char> {
    "https://playit.gg/login/guest-account/"@ + session_key
}

/// The link that signs in with a guest session.
pub fn guest_login_link(session_key: &str) -> (r: String)
    ensures
        r@ == guest_link(session_key@),
{
    join2("https://playit.gg/login/guest-account/", session_key)
}

/// The last login link, and when it was made.
pub struct GuestLoginCache {
    pub entry: Option<(String, u64)>,
}

/// The model of a [`GuestLoginCache`].
impl View for GuestLoginCache {
    type V = Option<(Seq<char>, u64)>;

    open spec fn view(&self) -> Option<(Seq<char>, u64)> {
        match self.entry {
            Some((link, at)) => Some((link@, at)),
            None => None,
        }
    }
}

/// The login link that can be handed out again at the moment `now`.
pub open spec fn fresh_link(cache: Option<(Seq<char>, u64)>, now: u64) -> Option<Seq<char>> {
    match cache {
        Some((link, at)) => if now < at || now - at < LOGIN_LINK_LIFETIME {
            Some(link)
        } else {
            None
        },
        None => None,
    }
}

impl GuestLoginCache {
    pub fn new() -> (r: Self)
        ensures
            r@ is None,
    {
        GuestLoginCache { entry: None }
    }

    /// The login link that can be handed out again at the moment `now`.
    pub fn lookup(&self, now: u64) -> (r: Option<String>)
        ensures
            opt_text(r) == fresh_link(self@, now),
    {
        match &self.entry {
            Some((link, at)) => if now < *at || now - *at < LOGIN_LINK_LIFETIME {
                Some(link.clone())
            } else {
                None
            },
            None => None,
        }
    }

    /// Make and keep the login link of a new guest session.
    pub fn store(&mut self, session_key: &str, now: u64) -> (r: String)
        ensures
            r@ == guest_link(session_key@),
            final(self)@ == Some((guest_link(session_key@), now)),
    {
        let link = guest_login_link(session_key);
        self.entry = Some((link.clone(), now));
        link
    }
}

/// A login link is handed out again for fifteen seconds, and not later.
pub proof fn login_links_expire(link: Seq<char>, at: u64, now: u64)
    requires
        at <= now,
    ensures
        fresh_link(Some((link, at)), now) == if now - at < 15_000 {
            Some(link)
        } else {
            None
        },
{
}

// ---------------------------------------------------------------------------
// Laws of what is shown
// ---------------------------------------------------------------------------

/// How many of the first `end` tunnels have a target.
pub open spec fn shown_before(tunnels: Seq<RunTunnel>, end: int) -> nat
    decreases end,
{
    if end <= 0 {
        0
    } else {
        shown_before(tunnels, end - 1) + if tunnels[end - 1].target is Some {
            1nat
        } else {
            0nat
        }
    }
}

/// Every tunnel with a target is shown, at its place among these, with the values that the API
/// gives: its own public address, identifier, protocol and number of ports, the IP address and
/// port of its target, its name unless that is blank, and why it is disabled. Nothing else is
/// shown.
pub proof fn tunnels_are_shown_as_the_api_lists_them(tunnels: Seq<RunTunnel>, i: int)
    requires
        0 <= i < tunnels.len(),
    ensures
        tunnels_view(tunnels).len() == shown_before(tunnels, tunnels.len() as int),
        tunnels[i].target matches Some(target) ==> {
            let at = shown_before(tunnels, i) as int;
            let shown = tunnels_view(tunnels)[at];
            let tunnel = tunnels[i];
            &&& at < tunnels_view(tunnels).len()
            &&& shown.id == tunnel.id@
            &&& shown.display_address == tunnel.display_address@
            &&& shown.port_count == tunnel.port_count
            &&& shown.protocol == TunnelProtocol::Tcp <==> tunnel.port_type is Tcp
            &&& shown.protocol == TunnelProtocol::Udp <==> tunnel.port_type is Udp
            &&& shown.protocol == TunnelProtocol::Both <==> tunnel.port_type is Both
            &&& target matches OriginTarget::Port { ip, port } ==> shown.local_address == Some(ip@)
                && shown.local_port == Some(port) && shown.destination == ip@ + ":"@ + decimal(
                port as nat,
            )
            &&& target matches OriginTarget::Https { ip, http_port, https_port }
                ==> shown.local_address == Some(ip@) && shown.local_port is None
                && shown.destination == ip@ + " (http: "@ + decimal(http_port as nat)
                + ", https: "@ + decimal(https_port as nat) + ")"@
            &&& trimmed(tunnel.name@).len() > 0 ==> shown.name == Some(tunnel.name@)
            &&& trimmed(tunnel.name@).len() == 0 ==> shown.name is None
            &&& shown.is_disabled <==> tunnel.disabled_reason is Some
            &&& tunnel.disabled_reason matches Some(reason) ==> shown.disabled_reason == Some(
                reason@,
            )
            &&& tunnel.disabled_reason is None ==> shown.disabled_reason is None
        },
    decreases tunnels.len(),
{
    let rest = tunnels.drop_last();
    lemma_shown_before(tunnels, rest, rest.len() as int);
    lemma_shown_count(tunnels);
    lemma_shown_before(tunnels, rest, i);
    if i < rest.len() {
        tunnels_are_shown_as_the_api_lists_them(rest, i);
        assert(tunnels[i] == rest[i]);
        if tunnels[i].target is Some {
            let at = shown_before(tunnels, i) as int;
            assert(tunnels_view(tunnels)[at] == tunnels_view(rest)[at]);
        }
    } else {
        lemma_shown_count(rest);
    }
}

proof fn lemma_shown_count(tunnels: Seq<RunTunnel>)
    ensures
        tunnels_view(tunnels).len() == shown_before(tunnels, tunnels.len() as int),
    decreases tunnels.len(),
{
    if tunnels.len() > 0 {
        lemma_shown_count(tunnels.drop_last());
        lemma_shown_before(tunnels, tunnels.drop_last(), tunnels.len() - 1);
    }
}

proof fn lemma_shown_before(tunnels: Seq<RunTunnel>, rest: Seq<RunTunnel>, end: int)
    requires
        rest == tunnels.drop_last(),
        tunnels.len() > 0,
        end <= rest.len(),
    ensures
        shown_before(tunnels, end) == shown_before(rest, end),
    decreases end,
{
    if end > 0 {
        lemma_shown_before(tunnels, rest, end - 1);
        assert(tunnels[end - 1] == rest[end - 1]);
    }
}

/// A state tells the API's own identifier of the agent and status of the account, the version
/// and the beginning of the runtime, and each notice with its priority, message and link.
pub proof fn states_tell_what_the_api_says(
    data: RunData,
    version: Seq<char>,
    login_link: Option<Seq<char>>,
    start_time: u64,
)
    ensures
        ({
            let state = state_view(data, version, login_link, start_time);
            &&& state.version == version
            &&& state.start_time == start_time
            &&& state.agent_id == data.agent_id@
            &&& state.account_status == AccountStatus::Guest <==> data.account_status is Guest
            &&& state.account_status == AccountStatus::EmailNotVerified <==> data.account_status
                is EmailNotVerified
            &&& state.account_status == AccountStatus::Verified <==> data.account_status
                is Verified
            &&& state.tunnels == tunnels_view(data.tunnels@)
            &&& state.notices.len() == data.notices@.len()
            &&& forall|i: int|
                0 <= i < data.notices@.len() ==> {
                    let notice = sorted_notices(data.notices@)[i];
                    &&& (#[trigger] state.notices[i]).priority == notice.priority@
                    &&& state.notices[i].message == notice.message@
                    &&& state.notices[i].resolve_link == opt_text(notice.resolve_link)
                }
        }),
{
    notices_are_sorted_by_rank(data.notices@, 0);
}

/// A status tells the phase, the process and the version, the time since the runtime began in
/// whole seconds, where the secret is and whether there is one, the last error, and the protocol
/// that this version speaks.
pub proof fn statuses_tell_the_time_since_the_start(
    context: StatusContextView,
    phase: ServicePhase,
    has_secret: bool,
    last_error: Option<ServiceErrorView>,
    pid: u32,
    now: u64,
)
    ensures
        ({
            let status = context.status(phase, has_secret, last_error, pid, now);
            &&& status.phase == phase
            &&& status.pid == pid
            &&& status.version == context.version
            &&& status.secret_path == context.secret_path
            &&& status.has_secret == has_secret
            &&& status.last_error == last_error
            &&& status.protocol == protocol()
            &&& now >= context.start_time ==> status.uptime_secs * 1000 <= now - context.start_time
                < (status.uptime_secs + 1) * 1000
            &&& now < context.start_time ==> status.uptime_secs == 0
        }),
{
}

/// A summary counts the tunnels, those that wait for an address, and those that are disabled.
pub proof fn summaries_count_tunnels(state: AgentStateView, tunnel: TunnelStateView)
    ensures
        summary_of(state).tunnel_count == state.tunnels.len(),
        summary_of(state).pending_tunnel_count == state.pending_tunnels.len(),
        summary_of(state).account_status == state.account_status.wire(),
        summary_of(state).disabled_tunnel_count <= state.tunnels.len(),
        state.tunnels.len() == 0 ==> summary_of(state).disabled_tunnel_count == 0,
        summary_of(
            AgentStateView { tunnels: state.tunnels.push(tunnel), ..state },
        ).disabled_tunnel_count == summary_of(state).disabled_tunnel_count + if tunnel.is_disabled {
            1int
        } else {
            0
        },
{
    lemma_disabled_count(state.tunnels);
    assert(state.tunnels.push(tunnel).drop_last() =~= state.tunnels);
}

proof fn lemma_disabled_count(tunnels: Seq<TunnelStateView>)
    ensures
        disabled_count(tunnels) <= tunnels.len(),
    decreases tunnels.len(),
{
    if tunnels.len() > 0 {
        lemma_disabled_count(tunnels.drop_last());
    }
}

/// The first state is news, and after it a state is news exactly when a count or the account's
/// status changed.
pub proof fn changed_counts_are_news(last: Option<RunningSummaryView>, state: AgentStateView)
    ensures
        news_of(last, state) is Loaded <==> last is None,
        last matches Some(before) ==> (news_of(last, state) is Unchanged <==> before.tunnel_count
            == state.tunnels.len() && before.pending_tunnel_count == state.pending_tunnels.len()
            && before.disabled_tunnel_count == disabled_count(state.tunnels)
            && before.account_status == state.account_status.wire()),
        last matches Some(before) ==> (news_of(last, state) is Updated <==> before != summary_of(
            state,
        )),
{
    if last is Some {
        assert(last->0 == summary_of(state) <==> last->0 =~= summary_of(state));
    }
}

/// A guest signs in at the page of the login with the key of the session behind it.
pub proof fn guest_links_hold_the_key(session_key: Seq<char>)
    ensures
        guest_link(session_key) == "https://playit.gg/login/guest-account/"@ + session_key,
{
}

/// A login link is handed out as it was made, or not at all: a clock that was set back does not
/// make it old, and without one there is none.
pub proof fn login_links_are_handed_out_unchanged(cache: Option<(Seq<char>, u64)>, now: u64)
    ensures
        cache is None ==> fresh_link(cache, now) is None,
        cache matches Some((link, at)) ==> (fresh_link(cache, now) is Some <==> now < at || now - at
            < 15_000) && (fresh_link(cache, now) is Some ==> fresh_link(cache, now) == Some(link)),
{
}

} // verus!

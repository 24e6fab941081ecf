//! What the owner of an account does by way of the API.

use vstd::prelude::*;

use crate::api::{ApiErrorNoFail, ApiErrorNoFailView, ClaimAgentType, RetryPolicy};
use crate::http_client::{AuthPolicy, HttpClientError};
use crate::text::{join2, owned};

verus! {

/// The credential that reading as an account takes.
pub const ACCOUNT_READ_POLICY: AuthPolicy = AuthPolicy::Account;

/// The credential that changing something as an account takes.
pub const ACCOUNT_WRITE_POLICY: AuthPolicy = AuthPolicy::Account;

/// Why a call as an account failed. No secret is ever part of it.
#[derive(Debug)]
pub enum WebApiError {
    /// The account session is no longer accepted; sign in again. The agent's secret is
    /// another matter.
    SessionExpired,
    /// The API answered with a structured error.
    Api(String),
    /// The API could not be asked.
    Transport(String),
}

/// The model of a [`WebApiError`].
#[verifier::ext_equal]
pub enum WebApiErrorView {
    SessionExpired,
    Api(Seq<char>),
    Transport(Seq<char>),
}

impl View for WebApiError {
    type V = WebApiErrorView;

    open spec fn view(&self) -> WebApiErrorView {
        match *self {
            WebApiError::SessionExpired => WebApiErrorView::SessionExpired,
            WebApiError::Api(error) => WebApiErrorView::Api(error@),
            WebApiError::Transport(error) => WebApiErrorView::Transport(error@),
        }
    }
}

impl WebApiErrorView {
    /// The error in words.
    pub open spec fn shown(self) -> Seq<char> {
        match self {
            WebApiErrorView::SessionExpired =>
                "account session expired; run `playit account login` again"@,
            WebApiErrorView::Api(error) => "playit.gg API error: "@ + error,
            WebApiErrorView::Transport(error) => "playit.gg request failed: "@ + error,
        }
    }
}

impl WebApiError {
    /// The error in words.
    pub fn to_text(&self) -> (r: String)
        ensures
            r@ == self@.shown(),
    {
        match self {
            WebApiError::SessionExpired => owned(
                "account session expired; run `playit account login` again",
            ),
            WebApiError::Api(error) => join2("playit.gg API error: ", error.as_str()),
            WebApiError::Transport(error) => join2("playit.gg request failed: ", error.as_str()),
        }
    }
}

/// The error for a call without typed failures.
pub open spec fn no_fail_error(error: ApiErrorNoFailView) -> WebApiErrorView {
    match error {
        ApiErrorNoFailView::UnexpectedFail => WebApiErrorView::Api("unexpected fail response"@),
        ApiErrorNoFailView::ApiError(error) => if error.ends_session() {
            WebApiErrorView::SessionExpired
        } else {
            WebApiErrorView::Api(error.shown())
        },
        ApiErrorNoFailView::ClientError(error) => WebApiErrorView::Transport(error.debugged()),
    }
}

/// The error for a call without typed failures.
pub fn map_no_fail(error: ApiErrorNoFail) -> (r: WebApiError)
    ensures
        r@ == no_fail_error(error@),
{
    match error {
        ApiErrorNoFail::UnexpectedFail => WebApiError::Api(owned("unexpected fail response")),
        ApiErrorNoFail::ApiError(error) => if error.ends_session() {
            WebApiError::SessionExpired
        } else {
            WebApiError::Api(error.debug_text())
        },
        ApiErrorNoFail::ClientError(error) => WebApiError::Transport(error.debug_text()),
    }
}

/// A call is reported as an expired session exactly if the API no longer accepts the
/// session: no transport failure and no other refusal is.
pub proof fn only_refused_sessions_expire(error: ApiErrorNoFailView)
    ensures
        no_fail_error(error) is SessionExpired <==> (error matches ApiErrorNoFailView::ApiError(e)
            && e.ends_session()),
        no_fail_error(error) is Transport <==> error is ClientError,
{
}

/// The error for a post that got no usable answer.
pub fn transport_error(error: HttpClientError) -> (r: WebApiError)
    ensures
        r@ == WebApiErrorView::Transport(error@.debugged()),
{
    WebApiError::Transport(error.debug_text())
}

/// What a harmless read says of a session: the read's own result does not matter.
pub fn session_checked<T>(read: Result<T, ApiErrorNoFail>) -> (r: Result<(), WebApiError>)
    ensures
        match read {
            Ok(_) => r is Ok,
            Err(error) => r is Err && r->Err_0@ == no_fail_error(error@),
        },
{
    match read {
        Ok(_) => Ok(()),
        Err(error) => Err(map_no_fail(error)),
    }
}

/// What a read as an account gave.
pub fn account_read<T>(read: Result<T, ApiErrorNoFail>) -> (r: Result<T, WebApiError>)
    ensures
        match read {
            Ok(value) => r == Ok::<T, WebApiError>(value),
            Err(error) => r is Err && r->Err_0@ == no_fail_error(error@),
        },
{
    match read {
        Ok(value) => Ok(value),
        Err(error) => Err(map_no_fail(error)),
    }
}

// ---------------------------------------------------------------------------
// Calls
// ---------------------------------------------------------------------------

/// A post to the API as an account: where to, what, and whether it may be repeated.
pub struct Post<T> {
    pub path: &'static str,
    pub policy: AuthPolicy,
    pub retry: RetryPolicy,
    pub body: T,
}

/// A post that only reads, and is sent again after a passing failure.
pub open spec fn is_read<T>(post: Post<T>, path: Seq<char>) -> bool {
    &&& post.path@ == path
    &&& post.policy == ACCOUNT_READ_POLICY
    &&& post.retry == RetryPolicy::Transient
}

/// A post that is sent once.
pub open spec fn is_post<T>(post: Post<T>, path: Seq<char>, policy: AuthPolicy) -> bool {
    &&& post.path@ == path
    &&& post.policy == policy
    &&& post.retry == RetryPolicy::Never
}

/// A request for the tunnels of the account: one of them, those of one agent, or all.
#[derive(Clone, Copy, Debug, PartialEq, Eq, Structural)]
pub struct ReqTunnelsList {
    pub tunnel_id: Option<u128>,
    pub agent_id: Option<u128>,
}

/// The request for all tunnels that the account sees. It changes nothing, so it also serves to
/// check a session.
pub fn list_tunnels() -> (r: Post<ReqTunnelsList>)
    ensures
        is_read(r, "/tunnels/list"@),
        r.body == (ReqTunnelsList { tunnel_id: None, agent_id: None }),
{
    Post {
        path: "/tunnels/list",
        policy: ACCOUNT_READ_POLICY,
        retry: RetryPolicy::Transient,
        body: ReqTunnelsList { tunnel_id: None, agent_id: None },
    }
}

/// The request for all domains that the account sees.
pub fn list_domains() -> (r: Post<()>)
    ensures
        is_read(r, "/domains/list"@),
{
    Post {
        path: "/domains/list",
        policy: ACCOUNT_READ_POLICY,
        retry: RetryPolicy::Transient,
        body: (),
    }
}

/// A request for the details of a claim.
#[derive(Debug)]
pub struct ReqClaimDetails {
    pub code: String,
}

/// What the account's side sees of a claim.
#[derive(Debug)]
pub struct ClaimDetails {
    pub agent_type: ClaimAgentType,
    pub name: String,
    pub remote_ip: String,
    pub version: String,
}

/// Why there are no details of a claim.
#[derive(Clone, Copy, Debug, PartialEq, Eq, Structural)]
pub enum ClaimDetailsFail {
    AlreadyClaimed,
    AlreadyRejected,
    ClaimExpired,
    DifferentOwner,
    WaitingForAgent,
    InvalidCode,
    Other,
}

/// The request for the details of a claim.
pub fn claim_details(code: &str) -> (r: Post<ReqClaimDetails>)
    ensures
        is_post(r, "/claim/details"@, ACCOUNT_READ_POLICY),
        r.body.code@ == code@,
{
    Post {
        path: "/claim/details",
        policy: ACCOUNT_READ_POLICY,
        retry: RetryPolicy::Never,
        body: ReqClaimDetails { code: owned(code) },
    }
}

/// A request to accept a claim.
#[derive(Debug)]
pub struct ReqClaimAccept {
    pub code: String,
    pub name: String,
    pub agent_type: ClaimAgentType,
}

/// An accepted claim: the new agent.
#[derive(Clone, Copy, Debug, PartialEq, Eq, Structural)]
pub struct ClaimAccepted {
    pub agent_id: u128,
}

/// Why a claim was not accepted.
#[derive(Clone, Copy, Debug, PartialEq, Eq, Structural)]
pub enum ClaimAcceptFail {
    InvalidCode,
    AgentNotReady,
    CodeNotFound,
    InvalidAgentType,
    ClaimAlreadyAccepted,
    ClaimRejected,
    CodeExpired,
    InvalidName,
    Other,
}

/// The request to accept a claim. It makes an agent, so it is never repeated.
pub fn accept_claim(code: &str, name: &str, agent_type: ClaimAgentType) -> (r: Post<ReqClaimAccept>)
    ensures
        is_post(r, "/claim/accept"@, ACCOUNT_WRITE_POLICY),
        r.body.code@ == code@,
        r.body.name@ == name@,
        r.body.agent_type == agent_type,
{
    Post {
        path: "/claim/accept",
        policy: ACCOUNT_WRITE_POLICY,
        retry: RetryPolicy::Never,
        body: ReqClaimAccept { code: owned(code), name: owned(name), agent_type },
    }
}

/// A request to reject a claim.
#[derive(Debug)]
pub struct ReqClaimReject {
    pub code: String,
}

/// Why a claim was not rejected.
#[derive(Clone, Copy, Debug, PartialEq, Eq, Structural)]
pub enum ClaimRejectFail {
    InvalidCode,
    CodeNotFound,
    ClaimAccepted,
    ClaimAlreadyRejected,
    Other,
}

/// The request to reject a claim.
pub fn reject_claim(code: &str) -> (r: Post<ReqClaimReject>)
    ensures
        is_post(r, "/claim/reject"@, ACCOUNT_WRITE_POLICY),
        r.body.code@ == code@,
{
    Post {
        path: "/claim/reject",
        policy: ACCOUNT_WRITE_POLICY,
        retry: RetryPolicy::Never,
        body: ReqClaimReject { code: owned(code) },
    }
}

/// An agent of the account.
#[derive(Debug)]
pub struct AgentListEntry {
    pub id: u128,
    pub name: String,
}

/// The agents of the account.
#[derive(Debug)]
pub struct AgentsList {
    pub agents: Vec<AgentListEntry>,
}

/// The request for the agents of the account.
pub fn list_agents() -> (r: Post<()>)
    ensures
        is_post(r, "/agents/list"@, ACCOUNT_READ_POLICY),
{
    Post {
        path: "/agents/list",
        policy: ACCOUNT_READ_POLICY,
        retry: RetryPolicy::Never,
        body: (),
    }
}

/// Where the tunnels of a deleted agent go: to another agent or to none.
#[derive(Clone, Copy, Debug, PartialEq, Eq, Structural)]
pub struct AgentDeleteMoveDetails {
    pub agent_id: Option<u128>,
    pub disable_tunnels: bool,
}

/// What happens to the tunnels of a deleted agent.
#[derive(Clone, Copy, Debug, PartialEq, Eq, Structural)]
pub enum TunnelsStrategy {
    MoveToAgent(AgentDeleteMoveDetails),
}

/// A request to delete an agent.
#[derive(Clone, Copy, Debug, PartialEq, Eq, Structural)]
pub struct ReqAgentsDelete {
    pub agent_id: u128,
    pub tunnels_strategy: TunnelsStrategy,
}

/// The request to delete an agent.
pub fn delete_agent(request: ReqAgentsDelete) -> (r: Post<ReqAgentsDelete>)
    ensures
        is_post(r, "/agents/delete"@, ACCOUNT_WRITE_POLICY),
        r.body == request,
{
    Post {
        path: "/agents/delete",
        policy: ACCOUNT_WRITE_POLICY,
        retry: RetryPolicy::Never,
        body: request,
    }
}

/// A request to delete a tunnel.
#[derive(Clone, Copy, Debug, PartialEq, Eq, Structural)]
pub struct ReqTunnelsDelete {
    pub tunnel_id: u128,
}

/// The request to delete a tunnel.
pub fn delete_tunnel(tunnel_id: u128) -> (r: Post<ReqTunnelsDelete>)
    ensures
        is_post(r, "/tunnels/delete"@, ACCOUNT_WRITE_POLICY),
        r.body.tunnel_id == tunnel_id,
{
    Post {
        path: "/tunnels/delete",
        policy: ACCOUNT_WRITE_POLICY,
        retry: RetryPolicy::Never,
        body: ReqTunnelsDelete { tunnel_id },
    }
}

/// The request to create a tunnel; its body is made by the caller.
pub fn create_tunnel<T>(request: T) -> (r: Post<T>)
    ensures
        is_post(r, "/tunnels/create"@, ACCOUNT_WRITE_POLICY),
        r.body == request,
{
    Post {
        path: "/tunnels/create",
        policy: ACCOUNT_WRITE_POLICY,
        retry: RetryPolicy::Never,
        body: request,
    }
}

/// A call as an account fails for one of three reasons, told apart by what came back: the session
/// is no longer accepted, the API refused or failed, or it could not be asked.
pub proof fn account_errors_are_told_apart(error: ApiErrorNoFail)
    ensures
        error is UnexpectedFail ==> no_fail_error(error@) == WebApiErrorView::Api(
            "unexpected fail response"@,
        ),
        error matches ApiErrorNoFail::ApiError(answer) ==> if answer@.ends_session() {
            no_fail_error(error@) is SessionExpired
        } else {
            no_fail_error(error@) == WebApiErrorView::Api(answer@.shown())
        },
        error matches ApiErrorNoFail::ClientError(lost) ==> no_fail_error(error@)
            == WebApiErrorView::Transport(lost@.debugged()),
{
}

/// What went wrong with a call as an account is told in words.
pub proof fn account_errors_are_told(error: WebApiErrorView)
    ensures
        error is SessionExpired ==> error.shown()
            == "account session expired; run `playit account login` again"@,
        error matches WebApiErrorView::Api(reason) ==> error.shown() == "playit.gg API error: "@
            + reason,
        error matches WebApiErrorView::Transport(reason) ==> error.shown()
            == "playit.gg request failed: "@ + reason,
{
}

/// A post that changes something is sent once, and a read may be repeated; both go out under the
/// account's own credential.
pub proof fn changes_are_posted_once<T>(post: Post<T>, path: Seq<char>, policy: AuthPolicy)
    ensures
        is_post(post, path, policy) <==> post.path@ == path && post.policy == policy && post.retry
            == RetryPolicy::Never,
        is_read(post, path) <==> post.path@ == path && post.policy == AuthPolicy::Account
            && post.retry == RetryPolicy::Transient,
        ACCOUNT_READ_POLICY == AuthPolicy::Account,
        ACCOUNT_WRITE_POLICY == AuthPolicy::Account,
{
}

} // verus!

//! Claiming an agent: the code, its page, and the flow from the page to the secret.

use vstd::prelude::*;

use crate::api::{
    ApiError, ApiResponseError, ClaimAgentType, ClaimExchangeError, ClaimSetupError,
    ClaimSetupResponse,
};
use crate::options::{version_text, VersionDetails};
use crate::outside::{
    encode_hex, hex_digit, hex_text, is_hex_digit, is_hex_text, random_bytes,
};
use crate::text::{join2, opt_text, same};

verus! {

/// How long a claim may take, in seconds.
pub const CLAIM_TIMEOUT_SECS: u64 = 600;

/// How long one request of a claim may take, in seconds.
pub const CLAIM_REQUEST_TIMEOUT_SECS: u64 = 15;

/// The number of random bytes in a claim code.
pub const CLAIM_CODE_BYTES: usize = 5;

/// The page on which the owner of an account claims the agent.
pub open spec fn claim_page(code: Seq<char>) -> Seq<char> {
    "https://playit.gg/claim/"@ + code
}

/// The page on which the owner of an account claims the agent.
pub fn claim_url(code: &str) -> (r: String)
    ensures
        r@ == claim_page(code@),
{
    join2("https://playit.gg/claim/", code)
}

/// Different codes have different pages.
pub proof fn claim_pages_tell_codes_apart(a: Seq<char>, b: Seq<char>)
    requires
        claim_page(a) == claim_page(b),
    ensures
        a == b,
{
    let n = "https://playit.gg/claim/"@.len() as int;
    assert(claim_page(a).skip(n) == a);
    assert(claim_page(b).skip(n) == b);
}

/// A claim code: the hexadecimal digits of a few bytes.
pub open spec fn is_claim_code(code: Seq<char>) -> bool {
    exists|bytes: Seq<u8>| bytes.len() == CLAIM_CODE_BYTES && code == #[trigger] hex_text(bytes)
}

/// A new random claim code.
pub fn generate_claim_code() -> (r: String)
    ensures
        is_claim_code(r@),
{
    let bytes = random_bytes(CLAIM_CODE_BYTES);
    claim_code_of(bytes.as_slice())
}

/// The claim code of some bytes.
pub fn claim_code_of(bytes: &[u8]) -> (r: String)
    ensures
        r@ == hex_text(bytes@),
{
    encode_hex(bytes)
}

/// A claim code is ten hexadecimal digits, the letters among them in lower case.
pub proof fn claim_codes_are_ten_hex_digits(code: Seq<char>)
    requires
        is_claim_code(code),
    ensures
        code.len() == 10,
        is_hex_text(code),
        forall|i: int|
            0 <= i < code.len() ==> '0' <= (#[trigger] code[i]) <= '9' || 'a' <= code[i] <= 'f',
{
    reveal_strlit("0123456789abcdef");
    let bytes = choose|bytes: Seq<u8>|
        bytes.len() == CLAIM_CODE_BYTES && code == #[trigger] hex_text(bytes);
    assert forall|i: int| 0 <= i < code.len() implies is_hex_digit(#[trigger] code[i]) && ('0'
        <= code[i] <= '9' || 'a' <= code[i] <= 'f') by {
        let b = bytes[i / 2] as int;
        assert(0 <= b / 16 < 16 && 0 <= b % 16 < 16);
        lemma_hex_digits(b / 16);
        lemma_hex_digits(b % 16);
    }
}

proof fn lemma_hex_digits(n: int)
    requires
        0 <= n < 16,
    ensures
        is_hex_digit(hex_digit(n)),
        '0' <= hex_digit(n) <= '9' || 'a' <= hex_digit(n) <= 'f',
{
    reveal_strlit("0123456789abcdef");
    assert(n == 0 || n == 1 || n == 2 || n == 3 || n == 4 || n == 5 || n == 6 || n == 7 || n == 8
        || n == 9 || n == 10 || n == 11 || n == 12 || n == 13 || n == 14 || n == 15);
}

/// The request that sets a claim up.
#[derive(Debug)]
pub struct ReqClaimSetup {
    pub code: String,
    pub agent_type: ClaimAgentType,
    pub version: String,
}

/// The request that sets a claim up, for an agent of some version.
pub fn claim_setup_request(code: &String, version: &VersionDetails) -> (r: ReqClaimSetup)
    ensures
        r.code@ == code@,
        r.agent_type == ClaimAgentType::SelfManaged,
        r.version@ == "playit "@ + version_text(version.major, version.minor, version.patch),
{
    claim_setup_request_for(code, ClaimAgentType::SelfManaged, version)
}

/// The request that sets a claim up, for an agent of some type and version.
pub fn claim_setup_request_for(
    code: &String,
    agent_type: ClaimAgentType,
    version: &VersionDetails,
) -> (r: ReqClaimSetup)
    ensures
        r.code@ == code@,
        r.agent_type == agent_type,
        r.version@ == "playit "@ + version_text(version.major, version.minor, version.patch),
{
    let number = version.version_string();
    ReqClaimSetup {
        code: code.clone(),
        agent_type,
        version: join2("playit ", number.as_str()),
    }
}

/// How a claim ended.
#[derive(Clone, Copy, Debug, PartialEq, Eq, Structural)]
pub enum ClaimEnd {
    /// The runtime stops.
    Cancelled,
    /// A request was cancelled or took too long.
    NoResponse,
    /// The owner rejected the claim.
    Rejected,
    /// The code is not or no longer known.
    CodeNotValid,
    /// The version that was sent is not acceptable.
    VersionRefused,
    /// The API refused the request.
    Refused,
    /// The API failed.
    ApiFailed,
    /// The API could not be reached.
    Unreachable,
    /// Nobody took the secret.
    SecretNotTaken,
    /// The secret could not be stored.
    SecretNotStored,
    /// The secret is stored.
    Provisioned,
}

/// What a claim does next.
#[derive(Debug)]
pub enum ClaimStep {
    /// Ask where the claim stands, unless the claim was cancelled.
    Setup,
    /// Wait so many milliseconds, unless the claim is cancelled, then ask again.
    Pause { millis: u64 },
    /// Ask for the secret.
    Exchange,
    /// Hand the secret over to be stored.
    Provision { secret: String },
    /// Wait until the secret is stored.
    Confirm,
    /// Nothing more.
    End(ClaimEnd),
}

/// What came of a claim's step. A request that was cancelled or took too long has no
/// result.
#[derive(Debug)]
pub enum ClaimEvent {
    /// Whether the claim was cancelled before a request.
    Checked { cancelled: bool },
    SetupDone(Option<Result<ClaimSetupResponse, ApiError<ClaimSetupError>>>),
    /// Whether the pause came to its end.
    Paused { completed: bool },
    ExchangeDone(Option<Result<String, ApiError<ClaimExchangeError>>>),
    /// Whether somebody took the secret.
    Handed { taken: bool },
    /// Whether the secret was stored.
    Confirmed { stored: bool },
}

/// The model of a [`ClaimStep`].
#[verifier::ext_equal]
pub enum ClaimStepView {
    Setup,
    Pause { millis: u64 },
    Exchange,
    Provision { secret: Seq<char> },
    Confirm,
    End(ClaimEnd),
}

impl View for ClaimStep {
    type V = ClaimStepView;

    open spec fn view(&self) -> ClaimStepView {
        match *self {
            ClaimStep::Setup => ClaimStepView::Setup,
            ClaimStep::Pause { millis } => ClaimStepView::Pause { millis },
            ClaimStep::Exchange => ClaimStepView::Exchange,
            ClaimStep::Provision { secret } => ClaimStepView::Provision { secret: secret@ },
            ClaimStep::Confirm => ClaimStepView::Confirm,
            ClaimStep::End(end) => ClaimStepView::End(end),
        }
    }
}

/// What follows the answer to the question where a claim stands.
pub open spec fn step_after_setup(
    result: Option<Result<ClaimSetupResponse, ApiError<ClaimSetupError>>>,
) -> ClaimStepView {
    match result {
        None => ClaimStepView::End(ClaimEnd::NoResponse),
        Some(Ok(ClaimSetupResponse::WaitingForUserVisit)) => ClaimStepView::Pause { millis: 250 },
        Some(Ok(ClaimSetupResponse::WaitingForUser)) => ClaimStepView::Pause { millis: 250 },
        Some(Ok(ClaimSetupResponse::UserRejected)) => ClaimStepView::End(ClaimEnd::Rejected),
        Some(Ok(ClaimSetupResponse::UserAccepted)) => ClaimStepView::Exchange,
        Some(Err(ApiError::Fail(ClaimSetupError::InvalidCode))) => ClaimStepView::End(
            ClaimEnd::CodeNotValid,
        ),
        Some(Err(ApiError::Fail(ClaimSetupError::CodeExpired))) => ClaimStepView::End(
            ClaimEnd::CodeNotValid,
        ),
        Some(Err(ApiError::Fail(ClaimSetupError::VersionTextTooLong))) => ClaimStepView::End(
            ClaimEnd::VersionRefused,
        ),
        Some(Err(ApiError::ApiError(ApiResponseError::Internal(_)))) => ClaimStepView::End(
            ClaimEnd::ApiFailed,
        ),
        Some(Err(ApiError::ApiError(_))) => ClaimStepView::End(ClaimEnd::Refused),
        Some(Err(ApiError::ClientError(_))) => ClaimStepView::End(ClaimEnd::Unreachable),
    }
}

/// What follows the answer to the request for the secret. Only the answer that the
/// claim is not accepted yet is asked for again: after any other failure it is not
/// known whether the code was used up.
pub open spec fn step_after_exchange(
    result: Option<Result<String, ApiError<ClaimExchangeError>>>,
) -> ClaimStepView {
    match result {
        None => ClaimStepView::End(ClaimEnd::NoResponse),
        Some(Ok(secret)) => ClaimStepView::Provision { secret: secret@ },
        Some(Err(ApiError::Fail(ClaimExchangeError::NotAccepted))) => ClaimStepView::Pause {
            millis: 1000,
        },
        Some(Err(ApiError::Fail(_))) => ClaimStepView::End(ClaimEnd::Refused),
        Some(Err(ApiError::ApiError(ApiResponseError::Internal(_)))) => ClaimStepView::End(
            ClaimEnd::ApiFailed,
        ),
        Some(Err(ApiError::ApiError(_))) => ClaimStepView::End(ClaimEnd::Refused),
        Some(Err(ApiError::ClientError(_))) => ClaimStepView::End(ClaimEnd::Unreachable),
    }
}

/// What follows a step of a claim.
pub open spec fn claim_step_after(event: ClaimEvent) -> ClaimStepView {
    match event {
        ClaimEvent::Checked { cancelled } => if cancelled {
            ClaimStepView::End(ClaimEnd::Cancelled)
        } else {
            ClaimStepView::Setup
        },
        ClaimEvent::SetupDone(result) => step_after_setup(result),
        ClaimEvent::Paused { completed } => if completed {
            ClaimStepView::Setup
        } else {
            ClaimStepView::End(ClaimEnd::Cancelled)
        },
        ClaimEvent::ExchangeDone(result) => step_after_exchange(result),
        ClaimEvent::Handed { taken } => if taken {
            ClaimStepView::Confirm
        } else {
            ClaimStepView::End(ClaimEnd::SecretNotTaken)
        },
        ClaimEvent::Confirmed { stored } => if stored {
            ClaimStepView::End(ClaimEnd::Provisioned)
        } else {
            ClaimStepView::End(ClaimEnd::SecretNotStored)
        },
    }
}

fn after_setup(result: Option<Result<ClaimSetupResponse, ApiError<ClaimSetupError>>>) -> (r:
    ClaimStep)
    ensures
        r@ == step_after_setup(result),
{
    match result {
        None => ClaimStep::End(ClaimEnd::NoResponse),
        Some(Ok(response)) => match response {
            ClaimSetupResponse::WaitingForUserVisit | ClaimSetupResponse::WaitingForUser =>
                ClaimStep::Pause { millis: 250 },
            ClaimSetupResponse::UserRejected => ClaimStep::End(ClaimEnd::Rejected),
            ClaimSetupResponse::UserAccepted => ClaimStep::Exchange,
        },
        Some(Err(error)) => match error {
            ApiError::Fail(ClaimSetupError::InvalidCode)
            | ApiError::Fail(ClaimSetupError::CodeExpired) => ClaimStep::End(
                ClaimEnd::CodeNotValid,
            ),
            ApiError::Fail(ClaimSetupError::VersionTextTooLong) => ClaimStep::End(
                ClaimEnd::VersionRefused,
            ),
            ApiError::ApiError(ApiResponseError::Internal(_)) => ClaimStep::End(
                ClaimEnd::ApiFailed,
            ),
            ApiError::ApiError(_) => ClaimStep::End(ClaimEnd::Refused),
            ApiError::ClientError(_) => ClaimStep::End(ClaimEnd::Unreachable),
        },
    }
}

fn after_exchange(result: Option<Result<String, ApiError<ClaimExchangeError>>>) -> (r: ClaimStep)
    ensures
        r@ == step_after_exchange(result),
{
    match result {
        None => ClaimStep::End(ClaimEnd::NoResponse),
        Some(Ok(secret)) => ClaimStep::Provision { secret },
        Some(Err(error)) => match error {
            ApiError::Fail(ClaimExchangeError::NotAccepted) => ClaimStep::Pause { millis: 1000 },
            ApiError::Fail(_) => ClaimStep::End(ClaimEnd::Refused),
            ApiError::ApiError(ApiResponseError::Internal(_)) => ClaimStep::End(
                ClaimEnd::ApiFailed,
            ),
            ApiError::ApiError(_) => ClaimStep::End(ClaimEnd::Refused),
            ApiError::ClientError(_) => ClaimStep::End(ClaimEnd::Unreachable),
        },
    }
}

/// What follows a step of a claim.
pub fn claim_step(event: ClaimEvent) -> (r: ClaimStep)
    ensures
        r@ == claim_step_after(event),
{
    match event {
        ClaimEvent::Checked { cancelled } => if cancelled {
            ClaimStep::End(ClaimEnd::Cancelled)
        } else {
            ClaimStep::Setup
        },
        ClaimEvent::SetupDone(result) => after_setup(result),
        ClaimEvent::Paused { completed } => if completed {
            ClaimStep::Setup
        } else {
            ClaimStep::End(ClaimEnd::Cancelled)
        },
        ClaimEvent::ExchangeDone(result) => after_exchange(result),
        ClaimEvent::Handed { taken } => if taken {
            ClaimStep::Confirm
        } else {
            ClaimStep::End(ClaimEnd::SecretNotTaken)
        },
        ClaimEvent::Confirmed { stored } => if stored {
            ClaimStep::End(ClaimEnd::Provisioned)
        } else {
            ClaimStep::End(ClaimEnd::SecretNotStored)
        },
    }
}

/// The code of the active claim after the claim of `code` ended: none, unless another
/// claim is active by then.
pub fn finish_claim(active: Option<String>, code: &str) -> (r: Option<String>)
    ensures
        opt_text(r) == active_after(opt_text(active), code@),
{
    match active {
        Some(current) => if same(current.as_str(), code) {
            None
        } else {
            Some(current)
        },
        None => None,
    }
}

/// The code of the active claim after the claim of `code` ended.
pub open spec fn active_after(active: Option<Seq<char>>, code: Seq<char>) -> Option<Seq<char>> {
    if active == Some(code) {
        None
    } else {
        active
    }
}

// ---------------------------------------------------------------------------
// Laws
// ---------------------------------------------------------------------------

/// A secret is asked for only after the owner accepted the claim, and what is handed
/// over to be stored is the secret that the API gave.
pub proof fn secrets_come_from_accepted_claims(event: ClaimEvent)
    ensures
        claim_step_after(event) is Exchange ==> event == ClaimEvent::SetupDone(
            Some(Ok(ClaimSetupResponse::UserAccepted)),
        ),
        claim_step_after(event) matches ClaimStepView::Provision { secret } ==> event
            matches ClaimEvent::ExchangeDone(Some(Ok(given))) && given@ == secret,
{
}

/// The request for the secret is repeated, after a pause, only if the API said that the
/// claim is not accepted yet: any other failure ends the claim.
pub proof fn ambiguous_exchanges_are_not_repeated(
    result: Option<Result<String, ApiError<ClaimExchangeError>>>,
)
    ensures
        step_after_exchange(result) is Pause <==> result == Some(
            Err::<String, ApiError<ClaimExchangeError>>(
                ApiError::Fail(ClaimExchangeError::NotAccepted),
            ),
        ),
        !(result matches Some(Ok(_))) && !(step_after_exchange(result) is Pause)
            ==> step_after_exchange(result) is End,
{
}

/// An event is what came of a step.
pub open spec fn comes_of(event: ClaimEvent, step: ClaimStepView) -> bool {
    match step {
        ClaimStepView::Setup => event is SetupDone,
        ClaimStepView::Pause { .. } => event is Paused,
        ClaimStepView::Exchange => event is ExchangeDone,
        ClaimStepView::Provision { .. } => event is Handed,
        ClaimStepView::Confirm => event is Confirmed,
        ClaimStepView::End(_) => false,
    }
}

/// The events of one claim, from its beginning on: each came of the step that the one before
/// it led to.
pub open spec fn is_claim_run(events: Seq<ClaimEvent>) -> bool {
    &&& events.len() > 0 ==> events[0] is Checked
    &&& forall|i: int|
        0 < i < events.len() ==> comes_of(#[trigger] events[i], claim_step_after(events[i - 1]))
}

/// A claim is never exchanged twice: in all of its run the secret is asked for again only if
/// every earlier request was answered that the claim is not accepted yet. Each request comes
/// right after the answer that the owner accepted the claim.
pub proof fn claims_are_never_exchanged_twice(events: Seq<ClaimEvent>, first: int, second: int)
    requires
        is_claim_run(events),
        0 <= first < second < events.len(),
        events[first] is ExchangeDone,
        events[second] is ExchangeDone,
    ensures
        events[first] == ClaimEvent::ExchangeDone(
            Some(Err(ApiError::Fail(ClaimExchangeError::NotAccepted))),
        ),
        events[second - 1] == ClaimEvent::SetupDone(Some(Ok(ClaimSetupResponse::UserAccepted))),
{
    assert(comes_of(events[second], claim_step_after(events[second - 1])));
    assert(comes_of(events[first + 1], claim_step_after(events[first])));
    if !(claim_step_after(events[first]) is Pause) {
        assert(comes_of(events[first + 2], claim_step_after(events[first + 1])));
        assert(comes_of(events[first + 3], claim_step_after(events[first + 2])));
    }
}

/// A cancelled claim sends no further request.
pub proof fn cancelled_claims_end(event: ClaimEvent)
    requires
        event == (ClaimEvent::Checked { cancelled: true }) || event == (ClaimEvent::Paused {
            completed: false,
        }) || event == ClaimEvent::SetupDone(None) || event == ClaimEvent::ExchangeDone(None),
    ensures
        claim_step_after(event) is End,
{
}

/// However a claim ends, its code is not active afterwards, and the end of one claim
/// leaves another one active.
pub proof fn ended_claims_are_not_active(active: Option<Seq<char>>, code: Seq<char>)
    ensures
        active_after(active, code) != Some(code),
        active != Some(code) ==> active_after(active, code) == active,
{
}

/// A claim goes where its owner takes it: while they have not decided it is asked about again
/// after a quarter of a second, an accepted claim is exchanged for its secret at once, and a
/// rejected one ends. Whatever else the API answers ends it too, and so does no answer.
pub proof fn claims_follow_their_owner(
    result: Option<Result<ClaimSetupResponse, ApiError<ClaimSetupError>>>,
)
    ensures
        ({
            let step = claim_step_after(ClaimEvent::SetupDone(result));
            let waits = result == Some(
                Ok::<ClaimSetupResponse, ApiError<ClaimSetupError>>(
                    ClaimSetupResponse::WaitingForUserVisit,
                ),
            ) || result == Some(
                Ok::<ClaimSetupResponse, ApiError<ClaimSetupError>>(
                    ClaimSetupResponse::WaitingForUser,
                ),
            );
            let accepted = result == Some(
                Ok::<ClaimSetupResponse, ApiError<ClaimSetupError>>(
                    ClaimSetupResponse::UserAccepted,
                ),
            );
            &&& step == (ClaimStepView::Pause { millis: 250 }) <==> waits
            &&& step == ClaimStepView::Exchange <==> accepted
            &&& step is End <==> !waits && !accepted
            &&& step == ClaimStepView::End(ClaimEnd::Rejected) <==> result == Some(
                Ok::<ClaimSetupResponse, ApiError<ClaimSetupError>>(
                    ClaimSetupResponse::UserRejected,
                ),
            )
            &&& step == ClaimStepView::End(ClaimEnd::NoResponse) <==> result is None
            &&& step == ClaimStepView::End(ClaimEnd::CodeNotValid) <==> (result
                matches Some(Err(ApiError::Fail(ClaimSetupError::InvalidCode))) || result
                matches Some(Err(ApiError::Fail(ClaimSetupError::CodeExpired))))
            &&& step == ClaimStepView::End(ClaimEnd::Unreachable) <==> result
                matches Some(Err(ApiError::ClientError(_)))
        }),
{
}

/// The secret of an accepted claim is handed on as it came, to be stored; a claim that the API
/// does not know as accepted yet is asked about again after a second.
pub proof fn exchanged_secrets_are_handed_on(
    result: Option<Result<String, ApiError<ClaimExchangeError>>>,
)
    ensures
        result matches Some(Ok(secret)) ==> claim_step_after(ClaimEvent::ExchangeDone(result)) == (
        ClaimStepView::Provision { secret: secret@ }),
        result matches Some(Err(ApiError::Fail(ClaimExchangeError::NotAccepted)))
            ==> claim_step_after(ClaimEvent::ExchangeDone(result)) == (ClaimStepView::Pause {
            millis: 1000,
        }),
        result is None ==> claim_step_after(ClaimEvent::ExchangeDone(result))
            == ClaimStepView::End(ClaimEnd::NoResponse),
        result matches Some(Err(ApiError::ClientError(_))) ==> claim_step_after(
            ClaimEvent::ExchangeDone(result),
        ) == ClaimStepView::End(ClaimEnd::Unreachable),
{
}

/// A claim that goes on does what comes next: it asks where it stands at its beginning and after
/// each pause, waits until the secret that it handed over is stored, and ends then.
pub proof fn claims_go_on_to_their_end(yes: bool)
    ensures
        claim_step_after(ClaimEvent::Checked { cancelled: yes }) == if yes {
            ClaimStepView::End(ClaimEnd::Cancelled)
        } else {
            ClaimStepView::Setup
        },
        claim_step_after(ClaimEvent::Paused { completed: yes }) == if yes {
            ClaimStepView::Setup
        } else {
            ClaimStepView::End(ClaimEnd::Cancelled)
        },
        claim_step_after(ClaimEvent::Handed { taken: yes }) == if yes {
            ClaimStepView::Confirm
        } else {
            ClaimStepView::End(ClaimEnd::SecretNotTaken)
        },
        claim_step_after(ClaimEvent::Confirmed { stored: yes }) == ClaimStepView::End(
            if yes {
                ClaimEnd::Provisioned
            } else {
                ClaimEnd::SecretNotStored
            },
        ),
        CLAIM_TIMEOUT_SECS == 600,
        CLAIM_REQUEST_TIMEOUT_SECS == 15,
{
}

/// A claim that ended is no longer the active one, and no other claim is touched by it; its page
/// is the one of its code.
pub proof fn ended_claims_leave_others_alone(active: Option<Seq<char>>, code: Seq<char>)
    ensures
        active == Some(code) ==> active_after(active, code) is None,
        active != Some(code) ==> active_after(active, code) == active,
        claim_page(code) == "https://playit.gg/claim/"@ + code,
{
}

/// A step of a claim is told as what it is.
pub proof fn claim_steps_say_what_they_are(step: ClaimStep)
    ensures
        step is Setup ==> step@ == ClaimStepView::Setup,
        step matches ClaimStep::Pause { millis } ==> step@ == (ClaimStepView::Pause { millis }),
        step is Exchange ==> step@ == ClaimStepView::Exchange,
        step matches ClaimStep::Provision { secret }
            ==> step@ == (ClaimStepView::Provision { secret: secret@ }),
        step is Confirm ==> step@ == ClaimStepView::Confirm,
        step matches ClaimStep::End(end) ==> step@ == ClaimStepView::End(end),
{
}

/// How a claim ended tells an API that failed from one that refused, in both of its requests.
pub proof fn failed_claims_tell_why(error: ApiResponseError)
    ensures
        ({
            let end = ClaimStepView::End(
                if error is Internal {
                    ClaimEnd::ApiFailed
                } else {
                    ClaimEnd::Refused
                },
            );
            &&& claim_step_after(
                ClaimEvent::SetupDone(
                    Some(
                        Err::<ClaimSetupResponse, ApiError<ClaimSetupError>>(
                            ApiError::ApiError(error),
                        ),
                    ),
                ),
            ) == end
            &&& claim_step_after(
                ClaimEvent::ExchangeDone(
                    Some(
                        Err::<String, ApiError<ClaimExchangeError>>(ApiError::ApiError(error)),
                    ),
                ),
            ) == end
        }),
        claim_step_after(
            ClaimEvent::SetupDone(
                Some(
                    Err::<ClaimSetupResponse, ApiError<ClaimSetupError>>(
                        ApiError::Fail(ClaimSetupError::VersionTextTooLong),
                    ),
                ),
            ),
        ) == ClaimStepView::End(ClaimEnd::VersionRefused),
        forall|refusal: ClaimExchangeError|
            refusal != ClaimExchangeError::NotAccepted ==> #[trigger] claim_step_after(
                ClaimEvent::ExchangeDone(
                    Some(Err::<String, ApiError<ClaimExchangeError>>(ApiError::Fail(refusal))),
                ),
            ) == ClaimStepView::End(ClaimEnd::Refused),
{
}

} // verus!

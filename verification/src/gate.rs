//! The authorization gate: credential extraction, bounded verification, and
//! the admit-or-reject decision.
//!
//! The caller (an HTTP middleware) drives the authorization gate in two
//! steps. It hands the extracted header to [`auth_header_step`]; on [`AuthAction::Verify`] it
//! schedules the verification as an independent task, races it against a
//! deadline, and hands the resulting [`VerifyEvent`] back through
//! [`authorize_current_user`] and [`auth_decision`]. Every step is a pure
//! function of request-local data, so no request's decision can depend on
//! another's.

use vstd::prelude::*;

use crate::STATUS_OK;
use crate::STATUS_UNAUTHORIZED;

verus! {

/// The identity attached to a request that the authorization gate admitted.
#[derive(Clone, Debug)]
pub struct CurrentUser {
    pub username: String,
}

/// The credential the authorization gate accepts, compared verbatim: no
/// scheme prefix is stripped.
pub open spec fn accepted_token() -> Seq<char> {
    "valid_token"@
}

/// Whether a credential passes verification.
pub open spec fn token_accepted(token: Seq<char>) -> bool {
    token == accepted_token()
}

/// The display name of the identity produced on a successful verification.
pub open spec fn verified_username() -> Seq<char> {
    "JohnDoe"@
}

/// The authorization gate's first step, on the authorization header as
/// extracted: a request without one (absent, or not representable as text) is rejected outright,
/// before any verification is attempted; otherwise the header's text becomes
/// the credential to verify.
pub fn auth_header_step(header: Option<String>) -> (action: AuthAction)
    ensures
        header is None ==> action is Reject,
        header matches Some(h) ==> (action matches AuthAction::Verify(token) && token@ == h@),
{
    match header {
        None => AuthAction::Reject,
        Some(h) => AuthAction::Verify(h),
    }
}

/// What the authorization gate does next after looking at the header.
pub enum AuthAction {
    /// Respond with [`STATUS_UNAUTHORIZED`]; no verification runs.
    Reject,
    /// Verify this credential under the authorization gate's deadline.
    Verify(String),
}

/// What the race between the verification task and the deadline produced.
pub enum VerifyEvent {
    /// The task finished first, with the identity it produced, if any.
    Completed(Option<CurrentUser>),
    /// The deadline elapsed first; the task is abandoned, not cancelled, and
    /// whatever it later produces is ignored.
    TimedOut,
}

/// The authorization gate's final word on a verified request.
pub enum GateDecision {
    /// Attach this identity to the request and forward it to the handler.
    Admit(CurrentUser),
    /// Respond with [`STATUS_UNAUTHORIZED`].
    Reject,
}

/// The verification itself, less the artificial delay that precedes it (the
/// delay is scheduling, performed by the task that calls this): the credential
/// is compared by exact string equality against the accepted constant, and a
/// match produces the identity with the hardcoded display name.
pub fn simulate_authentication(auth_token: &str) -> (user: Option<CurrentUser>)
    ensures
        user is Some <==> token_accepted(auth_token@),
        user matches Some(u) ==> u.username@ == verified_username(),
{
    let token: String = auth_token.to_owned();
    let accepted: String = "valid_token".to_owned();
    if token == accepted {
        Some(CurrentUser { username: "JohnDoe".to_owned() })
    } else {
        None
    }
}

/// Resolution of the deadline race: a verification that completed in time
/// hands through its result; an elapsed deadline yields no identity, whatever
/// the abandoned task would have produced.
pub fn authorize_current_user(event: VerifyEvent) -> (user: Option<CurrentUser>)
    ensures
        event matches VerifyEvent::Completed(result) ==> user == result,
        event is TimedOut ==> user is None,
{
    match event {
        VerifyEvent::Completed(result) => result,
        VerifyEvent::TimedOut => None,
    }
}

/// The authorization gate's last step: an identity in hand admits the
/// request, carrying that identity to the handler; none rejects it.
pub fn auth_decision(verified: Option<CurrentUser>) -> (decision: GateDecision)
    ensures
        verified matches Some(u) ==> (decision matches GateDecision::Admit(a)
            && a.username@ == u.username@),
        verified is None ==> decision is Reject,
{
    match verified {
        Some(u) => GateDecision::Admit(u),
        None => GateDecision::Reject,
    }
}

/// A header as the spec sees it: its text, or `None` when it was absent or
/// not representable as text.
pub open spec fn header_view(header: Option<String>) -> Option<Seq<char>> {
    match header {
        Some(h) => Some(h@),
        None => None,
    }
}

/// The status the authorization gate's whole passage gives one request, as
/// a function of that request's own data alone: the header that arrived, and whether the
/// deadline elapsed before the verification completed. Missing header, wrong
/// credential and elapsed deadline collapse to the one unauthorized code.
pub open spec fn gate_status(header: Option<Seq<char>>, timed_out: bool) -> u16 {
    match header {
        None => STATUS_UNAUTHORIZED,
        Some(token) => if timed_out {
            STATUS_UNAUTHORIZED
        } else if token_accepted(token) {
            STATUS_OK
        } else {
            STATUS_UNAUTHORIZED
        },
    }
}

/// One request's full passage through the authorization gate, composed from
/// the steps the middleware runs: extract, verify under the deadline, decide. `timed_out`
/// stands for the deadline race's outcome — when it holds, the verification's
/// result is never consulted. Returns the response status together with the
/// identity attached to the request, and the two agree: an identity is
/// attached if and only if the request is admitted, so a protected handler
/// never runs without one.
pub fn gate_outcome(header: Option<String>, timed_out: bool) -> (outcome: (
    u16,
    Option<CurrentUser>,
))
    ensures
        outcome.0 == gate_status(header_view(header), timed_out),
        outcome.1 is Some <==> outcome.0 == STATUS_OK,
        outcome.1 matches Some(u) ==> u.username@ == verified_username(),
{
    let token = match auth_header_step(header) {
        AuthAction::Reject => {
            return (STATUS_UNAUTHORIZED, None);
        },
        AuthAction::Verify(token) => token,
    };
    let event = if timed_out {
        VerifyEvent::TimedOut
    } else {
        VerifyEvent::Completed(simulate_authentication(token.as_str()))
    };
    match auth_decision(authorize_current_user(event)) {
        GateDecision::Admit(user) => (STATUS_OK, Some(user)),
        GateDecision::Reject => (STATUS_UNAUTHORIZED, None),
    }
}

/// A request without an authorization header is rejected with 401, whatever
/// the timing: no verification is even attempted.
pub proof fn lemma_missing_header_rejected(timed_out: bool)
    ensures
        gate_status(None, timed_out) == STATUS_UNAUTHORIZED,
{
}

/// A request whose header is exactly the accepted credential, verified within
/// the deadline, is admitted with 200.
pub proof fn lemma_accepted_token_admitted()
    ensures
        gate_status(Some(accepted_token()), false) == STATUS_OK,
{
}

/// A request whose header is any string other than the accepted credential is
/// rejected with 401, whether or not the verification completed in time.
pub proof fn lemma_wrong_token_rejected(token: Seq<char>, timed_out: bool)
    requires
        !token_accepted(token),
    ensures
        gate_status(Some(token), timed_out) == STATUS_UNAUTHORIZED,
{
}

/// When the deadline elapses before the verification completes, the request
/// is rejected with 401 — even one that carried the accepted credential.
pub proof fn lemma_timeout_rejected(token: Seq<char>)
    ensures
        gate_status(Some(token), true) == STATUS_UNAUTHORIZED,
{
}

/// Any number of concurrent requests, each carrying the accepted credential
/// and each verified within its deadline, all succeed: each request's status
/// is a function of its own header and its own timing alone, so no request's
/// decision blocks or is affected by another's.
pub proof fn lemma_concurrent_requests_independent(
    headers: Seq<Option<Seq<char>>>,
    timed: Seq<bool>,
)
    requires
        headers.len() == timed.len(),
        forall|i: int|
            0 <= i < headers.len() ==> headers[i] == Some(accepted_token()) && !timed[i],
    ensures
        forall|i: int|
            0 <= i < headers.len() ==> #[trigger] gate_status(headers[i], timed[i]) == STATUS_OK,
{
}

} // verus!

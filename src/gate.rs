//! The authorization gate: the decision for one request.
//!
//! The decision is taken in two steps around the one call that may suspend.
//! `check_request` looks at the origin and the credential and either decides
//! at once or asks for a review; `check_review` decides from the authority's
//! answer. The caller performs the review in between, at most once.
use crate::address::{is_loopback_address, IpAddress};
use crate::config::{Config, ConfigView};
use crate::credential::{bearer_credential, bearer_token_of};
use crate::review::{confirmed_user, confirmed_username, ReviewRequest, ReviewRequestView, ReviewResult};
use vstd::prelude::*;

verus! {

/// What the guard reads of an inbound request: where it came from, and the
/// first `Authorization` header value, if there is one.
#[derive(Clone, Debug, PartialEq, Eq)]
pub struct Request {
    pub origin: IpAddress,
    pub authorization: Option<Vec<u8>>,
}

/// The outcome for one request.
#[derive(Clone, Debug, PartialEq, Eq)]
pub enum Decision {
    /// The request proceeds.
    Allow,
    /// No usable credential, or the authority did not vouch for it.
    Unauthenticated,
    /// The authority vouched for a user who is not authorized.
    Unauthorized,
    /// The review could not be completed; the detail is for operators only.
    InternalError(String),
}

/// The text of a decision.
pub ghost enum DecisionView {
    Allow,
    Unauthenticated,
    Unauthorized,
    InternalError(Seq<char>),
}

impl View for Decision {
    type V = DecisionView;

    open spec fn view(&self) -> DecisionView {
        match self {
            Decision::Allow => DecisionView::Allow,
            Decision::Unauthenticated => DecisionView::Unauthenticated,
            Decision::Unauthorized => DecisionView::Unauthorized,
            Decision::InternalError(e) => DecisionView::InternalError(e@),
        }
    }
}

/// Marks a request that the guard let through.
#[derive(Clone, Copy, Debug, PartialEq, Eq)]
pub struct Extractor;

/// HTTP status for a request without a vouched-for credential.
pub const STATUS_UNAUTHORIZED: u16 = 401;

/// HTTP status for a request from a user who is not authorized.
pub const STATUS_FORBIDDEN: u16 = 403;

/// HTTP status for a request whose review could not be completed.
pub const STATUS_INTERNAL_SERVER_ERROR: u16 = 500;

/// The HTTP status with which a decision rejects its request, if it does.
pub open spec fn rejection_status(d: DecisionView) -> Option<u16> {
    match d {
        DecisionView::Allow => None,
        DecisionView::Unauthenticated => Some(STATUS_UNAUTHORIZED),
        DecisionView::Unauthorized => Some(STATUS_FORBIDDEN),
        DecisionView::InternalError(_) => Some(STATUS_INTERNAL_SERVER_ERROR),
    }
}

impl Decision {
    /// Whether the request proceeds: `Ok` for `Allow`, else `Err` with the
    /// HTTP status of the rejection.
    pub fn outcome(&self) -> (r: Result<Extractor, u16>)
        ensures
            r is Ok <==> self@ is Allow,
            r matches Err(code) ==> rejection_status(self@) == Some(code),
    {
        match self {
            Decision::Allow => Ok(Extractor),
            Decision::Unauthenticated => Err(STATUS_UNAUTHORIZED),
            Decision::Unauthorized => Err(STATUS_FORBIDDEN),
            Decision::InternalError(_) => Err(STATUS_INTERNAL_SERVER_ERROR),
        }
    }
}

/// What follows the first look at a request.
#[derive(Clone, Debug, PartialEq, Eq)]
pub enum Step {
    /// The guard has decided without the authority.
    Done(Decision),
    /// The authority must review this request, once, before the guard decides.
    Review(ReviewRequest),
}

/// The text of a step.
pub ghost enum StepView {
    Done(DecisionView),
    Review(ReviewRequestView),
}

impl View for Step {
    type V = StepView;

    open spec fn view(&self) -> StepView {
        match self {
            Step::Done(d) => StepView::Done(d@),
            Step::Review(r) => StepView::Review(r@),
        }
    }
}

/// The bearer credential of a request, if it presents one.
pub open spec fn credential_of(r: Request) -> Option<Seq<char>> {
    match r.authorization {
        None => None,
        Some(v) => bearer_token_of(v@),
    }
}

/// The first step for a request: loopback callers pass; other callers
/// without a credential are unauthenticated; otherwise the credential is
/// reviewed against the configured audiences.
pub open spec fn first_step(c: ConfigView, r: Request) -> StepView {
    if is_loopback_address(r.origin) {
        StepView::Done(DecisionView::Allow)
    } else {
        match credential_of(r) {
            None => StepView::Done(DecisionView::Unauthenticated),
            Some(t) => StepView::Review(ReviewRequestView { token: t, audiences: c.audiences }),
        }
    }
}

/// The decision from the authority's answer: a failed call is an internal
/// error; an answer that vouches for no username is unauthenticated; a
/// vouched username passes exactly when it is authorized.
pub open spec fn conclusion(c: ConfigView, answer: Result<Option<ReviewResult>, String>) -> DecisionView {
    match answer {
        Err(e) => DecisionView::InternalError(e@),
        Ok(status) => match confirmed_username(status) {
            None => DecisionView::Unauthenticated,
            Some(u) => if c.identities.contains(u) {
                DecisionView::Allow
            } else {
                DecisionView::Unauthorized
            },
        },
    }
}

/// The decision for a request, where `answer` is what the authority answers
/// if it is asked.
pub open spec fn gate_decision(
    c: ConfigView,
    r: Request,
    answer: Result<Option<ReviewResult>, String>,
) -> DecisionView {
    match first_step(c, r) {
        StepView::Done(d) => d,
        StepView::Review(_) => conclusion(c, answer),
    }
}

/// Which of the four outcomes a decision is, without its detail.
pub open spec fn decision_kind(d: DecisionView) -> int {
    match d {
        DecisionView::Allow => 0,
        DecisionView::Unauthenticated => 1,
        DecisionView::Unauthorized => 2,
        DecisionView::InternalError(_) => 3,
    }
}

/// Two answers of the authority that say the same: two failures, whatever
/// their detail, or the same status.
pub open spec fn same_answer(
    a: Result<Option<ReviewResult>, String>,
    b: Result<Option<ReviewResult>, String>,
) -> bool {
    (a is Err && b is Err) || a == b
}

/// A loopback caller is allowed at once, whatever credential it presents or
/// lacks, and the authority is not asked.
pub proof fn lemma_loopback_allowed(c: ConfigView, r: Request)
    requires
        is_loopback_address(r.origin),
    ensures
        first_step(c, r) == StepView::Done(DecisionView::Allow),
        forall|a: Result<Option<ReviewResult>, String>| gate_decision(c, r, a) == DecisionView::Allow,
{
}

/// Another caller without a usable bearer credential is unauthenticated, and
/// the authority is not asked.
pub proof fn lemma_missing_credential_unauthenticated(c: ConfigView, r: Request)
    requires
        !is_loopback_address(r.origin),
        credential_of(r) is None,
    ensures
        first_step(c, r) == StepView::Done(DecisionView::Unauthenticated),
        forall|a: Result<Option<ReviewResult>, String>|
            gate_decision(c, r, a) == DecisionView::Unauthenticated,
{
}

/// Another caller with a bearer credential gets exactly one review, of that
/// credential against the configured audiences, and the decision is taken
/// from its answer.
pub proof fn lemma_credential_reviewed(c: ConfigView, r: Request, token: Seq<char>)
    requires
        !is_loopback_address(r.origin),
        credential_of(r) == Some(token),
    ensures
        first_step(c, r) == StepView::Review(ReviewRequestView { token, audiences: c.audiences }),
        forall|a: Result<Option<ReviewResult>, String>| gate_decision(c, r, a) == conclusion(c, a),
{
}

/// A failed review is an internal error carrying the failure's detail,
/// whatever the configuration holds.
pub proof fn lemma_failed_review_internal_error(c1: ConfigView, c2: ConfigView, e: String)
    ensures
        conclusion(c1, Err(e)) == DecisionView::InternalError(e@),
        conclusion(c1, Err(e)) == conclusion(c2, Err(e)),
{
}

/// A review that does not say `authenticated: true`, or names no username,
/// leaves the caller unauthenticated, whatever the allow-list holds.
pub proof fn lemma_unconfirmed_unauthenticated(c: ConfigView, status: Option<ReviewResult>)
    requires
        status matches Some(s) ==> {
            ||| s.authenticated != Some(true)
            ||| s.user is None
            ||| s.user.unwrap().username is None
        },
    ensures
        conclusion(c, Ok(status)) == DecisionView::Unauthenticated,
{
}

/// A review that says `authenticated: true` for username `u` allows the
/// caller exactly when `u` is authorized, and is otherwise unauthorized.
pub proof fn lemma_confirmed_authorized_iff_listed(
    c: ConfigView,
    status: ReviewResult,
    u: String,
)
    requires
        status.authenticated == Some(true),
        status.user matches Some(info) && info.username == Some(u),
    ensures
        conclusion(c, Ok(Some(status))) == DecisionView::Allow <==> c.identities.contains(u@),
        conclusion(c, Ok(Some(status))) == DecisionView::Unauthorized
            <==> !c.identities.contains(u@),
{
}

/// The same request, under the same configuration, to an authority that
/// answers the same, is decided the same way each time.
pub proof fn lemma_repeat_same_kind(
    c: ConfigView,
    r: Request,
    a: Result<Option<ReviewResult>, String>,
    b: Result<Option<ReviewResult>, String>,
)
    requires
        same_answer(a, b),
    ensures
        decision_kind(gate_decision(c, r, a)) == decision_kind(gate_decision(c, r, b)),
{
}

/// Looks at the origin and the credential of a request, and decides or asks
/// for a review.
pub fn check_request(config: &Config, request: &Request) -> (s: Step)
    ensures
        s@ == first_step(config@, *request),
{
    if request.origin.is_loopback() {
        return Step::Done(Decision::Allow);
    }
    match bearer_credential(&request.authorization) {
        None => Step::Done(Decision::Unauthenticated),
        Some(token) => {
            let configured = config.audiences();
            let audiences = configured.clone();
            assert(audiences@ =~= configured@);
            Step::Review(ReviewRequest { token, audiences })
        },
    }
}

/// Decides from the authority's answer to a review: `Err` where the call
/// failed, with its detail, else the status it returned, if any.
pub fn check_review(config: &Config, answer: Result<Option<ReviewResult>, String>) -> (d: Decision)
    ensures
        d@ == conclusion(config@, answer),
{
    match answer {
        Err(e) => Decision::InternalError(e),
        Ok(status) => match confirmed_user(&status) {
            None => Decision::Unauthenticated,
            Some(u) => if config.is_authorized(u) {
                Decision::Allow
            } else {
                Decision::Unauthorized
            },
        },
    }
}

} // verus!

//! Retry policy for Spotify requests: one auth refresh, then bounded retries
//! of transient failures.
//!
//! [`RetryPolicy`] decides, attempt by attempt, what to do with each outcome;
//! the two helpers drive it with caller-supplied request and refresh closures.

use vstd::prelude::*;

use crate::client::{failure_message, failure_status, ClientFailure, ClientFailureKind};
use crate::text::owned;

use super::error::SpotifyServiceError;

verus! {

/// Maximum number of transient retries attempted per Spotify request.
pub const TRANSIENT_RETRY_LIMIT: usize = 2;

/// The message returned when Spotify rejects credentials it just refreshed.
pub open spec fn rejected_refresh_text() -> Seq<char> {
    "Spotify rejected refreshed credentials; reauthorization required"@
}

/// The HTTP statuses worth retrying: rate limits and server-side failures.
pub open spec fn is_transient_status_spec(status: u16) -> bool {
    status == 429 || status == 500 || status == 502 || status == 503 || status == 504
}

/// The failure says the credentials are invalid or expired.
pub open spec fn is_auth_expired(failure: ClientFailure) -> bool {
    failure.kind is InvalidToken || failure_status(failure) == Some(401u16)
}

/// The transport or I/O layer below HTTP failed.
pub open spec fn is_transient_transport(failure: ClientFailure) -> bool {
    failure.kind is Transport || failure.kind is Io
}

/// The failure is safe to retry.
pub open spec fn is_transient_failure(failure: ClientFailure) -> bool {
    (failure_status(failure) matches Some(s) && is_transient_status_spec(s))
        || is_transient_transport(failure)
}

/// Returns true when an HTTP status should be treated as transient.
pub fn is_transient_status(status: u16) -> (r: bool)
    ensures
        r == is_transient_status_spec(status),
{
    status == 429 || status == 500 || status == 502 || status == 503 || status == 504
}

/// Returns true when a client failure indicates expired or invalid Spotify auth.
pub fn is_auth_expired_error(failure: &ClientFailure) -> (r: bool)
    ensures
        r == is_auth_expired(*failure),
{
    match &failure.kind {
        ClientFailureKind::InvalidToken => true,
        ClientFailureKind::Status { status, .. } => *status == 401,
        _ => false,
    }
}

/// Returns true when an underlying transport or I/O layer failed transiently.
pub fn is_transient_transport_error(failure: &ClientFailure) -> (r: bool)
    ensures
        r == is_transient_transport(*failure),
{
    match &failure.kind {
        ClientFailureKind::Transport(_) => true,
        ClientFailureKind::Io(_) => true,
        _ => false,
    }
}

/// Returns true when a client failure is safe to retry transiently.
pub fn is_transient_client_error(failure: &ClientFailure) -> (r: bool)
    ensures
        r == is_transient_failure(*failure),
{
    let by_status = match client_error_status(failure) {
        Some(status) => is_transient_status(status),
        None => false,
    };
    by_status || is_transient_transport_error(failure)
}

/// Extracts an HTTP status code when the failure is an error response.
pub fn client_error_status(failure: &ClientFailure) -> (r: Option<u16>)
    ensures
        r == failure_status(*failure),
{
    failure.status()
}

/// Converts a Spotify client failure into a compact user-facing message.
pub fn spotify_client_error_message(failure: &ClientFailure) -> (r: String)
    ensures
        r@ == failure_message("Spotify API returned HTTP "@, *failure),
{
    failure.message_with_lead("Spotify API returned HTTP ")
}

/// How one request attempt ended, as the retry policy sees it.
#[derive(Debug, Clone, Copy, PartialEq, Eq, Structural)]
pub enum AttemptOutcome {
    /// The request succeeded.
    Succeeded,
    /// The request failed because the credentials are invalid or expired.
    AuthExpired,
    /// The request failed in a way that is safe to retry.
    Transient,
    /// The request failed in any other way.
    Failed,
}

/// What the retry policy calls for after an attempt.
#[derive(Debug, Clone, Copy, PartialEq, Eq, Structural)]
pub enum RetryStep {
    /// Return the attempt's value.
    Finish,
    /// Refresh the credentials, then try again.
    Refresh,
    /// Try again without refreshing.
    RetryTransient,
    /// Give up: the refreshed credentials were rejected too.
    Reauthorize,
    /// Give up with the attempt's own error.
    GiveUp,
}

/// State of the retry policy for one request.
#[derive(Debug, Clone, Copy, PartialEq, Eq, Structural)]
pub struct RetryPolicy {
    /// Whether the credentials have been refreshed once already.
    pub refreshed: bool,
    /// How many transient retries have been spent.
    pub transient_retries: usize,
    /// How many transient retries are allowed.
    pub transient_limit: usize,
}

/// The policy's decision on an attempt's outcome, and its state afterwards.
pub open spec fn decide(policy: RetryPolicy, outcome: AttemptOutcome) -> (RetryStep, RetryPolicy) {
    match outcome {
        AttemptOutcome::Succeeded => (RetryStep::Finish, policy),
        AttemptOutcome::AuthExpired => if !policy.refreshed {
            (RetryStep::Refresh, RetryPolicy { refreshed: true, ..policy })
        } else {
            (RetryStep::Reauthorize, policy)
        },
        AttemptOutcome::Transient => if policy.transient_retries < policy.transient_limit {
            (
                RetryStep::RetryTransient,
                RetryPolicy { transient_retries: (policy.transient_retries + 1) as usize, ..policy },
            )
        } else {
            (RetryStep::GiveUp, policy)
        },
        AttemptOutcome::Failed => (RetryStep::GiveUp, policy),
    }
}

/// Steps after which no further attempt is made.
pub open spec fn ends_run(step: RetryStep) -> bool {
    step is Finish || step is Reauthorize || step is GiveUp
}

/// The policy state is consistent: no more retries spent than allowed.
pub open spec fn policy_valid(policy: RetryPolicy) -> bool {
    policy.transient_retries <= policy.transient_limit
}

/// How many further attempts the policy can still allow before it must stop.
pub open spec fn attempts_left(policy: RetryPolicy) -> nat {
    ((if policy.refreshed {
        0int
    } else {
        1int
    }) + policy.transient_limit - policy.transient_retries) as nat
}

/// How many attempts a run takes, given the outcomes the attempts would have:
/// attempts stop at the first step that ends the run (or when outcomes run out).
pub open spec fn attempts_taken(policy: RetryPolicy, outcomes: Seq<AttemptOutcome>) -> nat
    decreases outcomes.len(),
{
    if outcomes.len() == 0 {
        0
    } else {
        let (step, next) = decide(policy, outcomes[0]);
        if ends_run(step) {
            1
        } else {
            1 + attempts_taken(next, outcomes.drop_first())
        }
    }
}

/// How many refreshes a run makes, given the outcomes the attempts would have.
pub open spec fn refreshes_made(policy: RetryPolicy, outcomes: Seq<AttemptOutcome>) -> nat
    decreases outcomes.len(),
{
    if outcomes.len() == 0 {
        0
    } else {
        let (step, next) = decide(policy, outcomes[0]);
        if ends_run(step) {
            0
        } else {
            (if step is Refresh {
                1nat
            } else {
                0nat
            }) + refreshes_made(next, outcomes.drop_first())
        }
    }
}

/// How many transient retries a run makes, given the attempts' outcomes.
pub open spec fn transient_retries_made(policy: RetryPolicy, outcomes: Seq<AttemptOutcome>) -> nat
    decreases outcomes.len(),
{
    if outcomes.len() == 0 {
        0
    } else {
        let (step, next) = decide(policy, outcomes[0]);
        if ends_run(step) {
            0
        } else {
            (if step is RetryTransient {
                1nat
            } else {
                0nat
            }) + transient_retries_made(next, outcomes.drop_first())
        }
    }
}

/// A fresh policy for one request.
pub open spec fn fresh_policy(limit: usize) -> RetryPolicy {
    RetryPolicy { refreshed: false, transient_retries: 0, transient_limit: limit }
}

impl RetryPolicy {
    /// A policy that has neither refreshed nor retried yet.
    pub fn new(transient_limit: usize) -> (r: Self)
        ensures
            r == fresh_policy(transient_limit),
    {
        RetryPolicy { refreshed: false, transient_retries: 0, transient_limit }
    }

    /// Decides what to do after an attempt with `outcome`.
    pub fn next(&mut self, outcome: AttemptOutcome) -> (step: RetryStep)
        requires
            policy_valid(*old(self)),
        ensures
            (step, *final(self)) == decide(*old(self), outcome),
            policy_valid(*final(self)),
            outcome == AttemptOutcome::Transient ==> (step == RetryStep::RetryTransient
                <==> old(self).transient_retries < old(self).transient_limit),
            final(self).transient_limit == old(self).transient_limit,
    {
        match outcome {
            AttemptOutcome::Succeeded => RetryStep::Finish,
            AttemptOutcome::AuthExpired => {
                if !self.refreshed {
                    self.refreshed = true;
                    RetryStep::Refresh
                } else {
                    RetryStep::Reauthorize
                }
            },
            AttemptOutcome::Transient => {
                if self.transient_retries < self.transient_limit {
                    self.transient_retries = self.transient_retries + 1;
                    RetryStep::RetryTransient
                } else {
                    RetryStep::GiveUp
                }
            },
            AttemptOutcome::Failed => RetryStep::GiveUp,
        }
    }
}

/// Every step that does not end the run uses up one of the attempts left.
pub proof fn lemma_step_spends_an_attempt(policy: RetryPolicy, outcome: AttemptOutcome)
    requires
        policy_valid(policy),
    ensures
        policy_valid(decide(policy, outcome).1),
        !ends_run(decide(policy, outcome).0) ==> attempts_left(decide(policy, outcome).1) + 1
            == attempts_left(policy),
{
}

/// A run takes at most one attempt more than the attempts it has left.
pub proof fn lemma_attempts_bounded(policy: RetryPolicy, outcomes: Seq<AttemptOutcome>)
    requires
        policy_valid(policy),
    ensures
        attempts_taken(policy, outcomes) <= attempts_left(policy) + 1,
        refreshes_made(policy, outcomes) <= if policy.refreshed {
            0nat
        } else {
            1nat
        },
        transient_retries_made(policy, outcomes) <= policy.transient_limit
            - policy.transient_retries,
    decreases outcomes.len(),
{
    if outcomes.len() > 0 {
        let (step, next) = decide(policy, outcomes[0]);
        lemma_step_spends_an_attempt(policy, outcomes[0]);
        if !ends_run(step) {
            lemma_attempts_bounded(next, outcomes.drop_first());
        }
    }
}

/// Whatever the attempts' outcomes, a request is tried at most
/// `limit + 2` times, credentials are refreshed at most once, and at most
/// `limit` transient retries are made.
pub proof fn law_retries_are_bounded(limit: usize, outcomes: Seq<AttemptOutcome>)
    ensures
        attempts_taken(fresh_policy(limit), outcomes) <= limit + 2,
        refreshes_made(fresh_policy(limit), outcomes) <= 1,
        transient_retries_made(fresh_policy(limit), outcomes) <= limit,
{
    lemma_attempts_bounded(fresh_policy(limit), outcomes);
}

/// A first attempt that succeeds is returned at once, with no refresh.
pub proof fn law_success_passes_through(limit: usize, outcomes: Seq<AttemptOutcome>)
    requires
        outcomes.len() > 0,
        outcomes[0] == AttemptOutcome::Succeeded,
    ensures
        attempts_taken(fresh_policy(limit), outcomes) == 1,
        refreshes_made(fresh_policy(limit), outcomes) == 0,
{
}

/// An auth failure after the refresh ends the run as a reauthorization; an
/// auth failure before it leads to a refresh.
pub proof fn law_auth_refreshes_once(policy: RetryPolicy)
    ensures
        decide(policy, AttemptOutcome::AuthExpired).0 == if policy.refreshed {
            RetryStep::Reauthorize
        } else {
            RetryStep::Refresh
        },
{
}

/// Failures that are neither auth nor transient are never retried.
pub proof fn law_other_failures_end_at_once(policy: RetryPolicy)
    ensures
        decide(policy, AttemptOutcome::Failed).0 == RetryStep::GiveUp,
{
}

/// The outcome class of a failed attempt, by the caller's predicates.
fn classify<E, A: Fn(&E) -> bool, T: Fn(&E) -> bool>(
    err: &E,
    is_refreshable_auth_error: &A,
    is_transient_error: &T,
) -> (r: AttemptOutcome)
    requires
        call_requires(*is_refreshable_auth_error, (err,)),
        call_requires(*is_transient_error, (err,)),
    ensures
        r == AttemptOutcome::AuthExpired ==> call_ensures(*is_refreshable_auth_error, (err,), true),
        r == AttemptOutcome::Transient ==> call_ensures(*is_refreshable_auth_error, (err,), false)
            && call_ensures(*is_transient_error, (err,), true),
        r == AttemptOutcome::Failed ==> call_ensures(*is_refreshable_auth_error, (err,), false)
            && call_ensures(*is_transient_error, (err,), false),
        r != AttemptOutcome::Succeeded,
{
    if is_refreshable_auth_error(err) {
        AttemptOutcome::AuthExpired
    } else if is_transient_error(err) {
        AttemptOutcome::Transient
    } else {
        AttemptOutcome::Failed
    }
}

/// The error for credentials that Spotify rejected right after a refresh.
fn rejected_refresh() -> (r: SpotifyServiceError)
    ensures
        r matches SpotifyServiceError::ReauthorizationRequired(m) && m@ == rejected_refresh_text(),
{
    SpotifyServiceError::ReauthorizationRequired(
        owned("Spotify rejected refreshed credentials; reauthorization required"),
    )
}

/// One request attempt of a run, as the run saw it: what the request
/// returned, how the policy classed it, and what the refresh that followed it
/// returned, if one did.
pub struct AttemptRecord<V, E> {
    /// What the request returned.
    pub result: Result<V, E>,
    /// The class of the attempt (`Succeeded` for a value).
    pub outcome: AttemptOutcome,
    /// The refresh made after this attempt, if any.
    pub refresh: Option<Result<(), SpotifyServiceError>>,
}

/// How a run ended.
pub enum RunEnd<V, E> {
    /// An attempt returned this value.
    Value(V),
    /// The refresh failed with this error.
    RefreshFailed(SpotifyServiceError),
    /// The credentials were rejected again after the refresh.
    Rejected,
    /// The run gave up on this request error.
    Mapped(E),
}

/// After attempt `a`, under policy `p`, the run goes on: the attempt failed
/// and the policy called for a refresh (which succeeded) or a transient retry.
pub open spec fn continues<V, E>(p: RetryPolicy, a: AttemptRecord<V, E>) -> bool {
    &&& a.result is Err
    &&& match decide(p, a.outcome).0 {
        RetryStep::Refresh => a.refresh matches Some(Ok(_)),
        RetryStep::RetryTransient => a.refresh is None,
        _ => false,
    }
}

/// Attempt `a`, under policy `p`, ends the run with `end`: a value is
/// returned, a failed refresh ends it, a second auth failure is rejected, and
/// any failure the policy gives up on ends it with that failure.
pub open spec fn ends_with<V, E>(p: RetryPolicy, a: AttemptRecord<V, E>, end: RunEnd<V, E>) -> bool {
    match a.result {
        Ok(v) => a.refresh is None && end == RunEnd::<V, E>::Value(v),
        Err(e) => match decide(p, a.outcome).0 {
            RetryStep::Refresh => a.refresh matches Some(Err(x)) && end == RunEnd::<V, E>::RefreshFailed(
                x,
            ),
            RetryStep::Reauthorize => a.refresh is None && end == RunEnd::<V, E>::Rejected,
            RetryStep::GiveUp => a.refresh is None && end == RunEnd::<V, E>::Mapped(e),
            _ => false,
        },
    }
}

/// The attempts of a run, from policy `p`, go on as the policy says until
/// the last one, which ends the run with `end`.
pub open spec fn run_ends<V, E>(p: RetryPolicy, trace: Seq<AttemptRecord<V, E>>, end: RunEnd<V, E>) -> bool
    decreases trace.len(),
{
    if trace.len() == 0 {
        false
    } else if trace.len() == 1 {
        ends_with(p, trace[0], end)
    } else {
        continues(p, trace[0]) && run_ends(decide(p, trace[0].outcome).1, trace.drop_first(), end)
    }
}

/// The attempts all go on, and leave policy `p` as `q`.
pub open spec fn runs_to<V, E>(p: RetryPolicy, trace: Seq<AttemptRecord<V, E>>, q: RetryPolicy) -> bool
    decreases trace.len(),
{
    if trace.len() == 0 {
        q == p
    } else {
        continues(p, trace[0]) && runs_to(decide(p, trace[0].outcome).1, trace.drop_first(), q)
    }
}

/// How many refreshes the attempts made.
pub open spec fn refreshes_in<V, E>(trace: Seq<AttemptRecord<V, E>>) -> nat
    decreases trace.len(),
{
    if trace.len() == 0 {
        0
    } else {
        (if trace[0].refresh is Some {
            1nat
        } else {
            0nat
        }) + refreshes_in(trace.drop_first())
    }
}

/// The class of a failure is what the two checks answered for it: auth
/// first, then transient.
pub open spec fn checks_gave<E, A: Fn(&E) -> bool, T: Fn(&E) -> bool>(
    e: E,
    outcome: AttemptOutcome,
    is_auth: A,
    is_transient: T,
) -> bool {
    match outcome {
        AttemptOutcome::AuthExpired => call_ensures(is_auth, (&e,), true),
        AttemptOutcome::Transient => call_ensures(is_auth, (&e,), false) && call_ensures(
            is_transient,
            (&e,),
            true,
        ),
        AttemptOutcome::Failed => call_ensures(is_auth, (&e,), false) && call_ensures(
            is_transient,
            (&e,),
            false,
        ),
        AttemptOutcome::Succeeded => false,
    }
}

/// The class of a failure is what the auth check answered for it.
pub open spec fn auth_check_gave<E, A: Fn(&E) -> bool>(e: E, outcome: AttemptOutcome, is_auth: A) -> bool {
    match outcome {
        AttemptOutcome::AuthExpired => call_ensures(is_auth, (&e,), true),
        AttemptOutcome::Failed => call_ensures(is_auth, (&e,), false),
        _ => false,
    }
}

/// Each part of the record is what the closures could have given: the
/// request's result, the checks' class of a failure and the refresh's result.
pub open spec fn attempt_seen<
    V,
    E,
    R: FnMut() -> Result<V, E>,
    F: FnMut() -> Result<(), SpotifyServiceError>,
    A: Fn(&E) -> bool,
    T: Fn(&E) -> bool,
>(a: AttemptRecord<V, E>, request: R, refresh: F, is_auth: A, is_transient: T) -> bool {
    &&& call_ensures(request, (), a.result)
    &&& match a.result {
        Ok(_) => a.outcome == AttemptOutcome::Succeeded,
        Err(e) => checks_gave(e, a.outcome, is_auth, is_transient),
    }
    &&& match a.refresh {
        Some(x) => call_ensures(refresh, (), x),
        None => true,
    }
}

/// As [`attempt_seen`], with the auth check alone classing failures.
pub open spec fn attempt_seen_by_auth<
    V,
    E,
    R: FnMut() -> Result<V, E>,
    F: FnMut() -> Result<(), SpotifyServiceError>,
    A: Fn(&E) -> bool,
>(a: AttemptRecord<V, E>, request: R, refresh: F, is_auth: A) -> bool {
    &&& call_ensures(request, (), a.result)
    &&& match a.result {
        Ok(_) => a.outcome == AttemptOutcome::Succeeded,
        Err(e) => auth_check_gave(e, a.outcome, is_auth),
    }
    &&& match a.refresh {
        Some(x) => call_ensures(refresh, (), x),
        None => true,
    }
}

/// `r` is what a run that ended with `end` returns.
pub open spec fn run_result<V, E, M: Fn(E) -> SpotifyServiceError>(
    r: Result<V, SpotifyServiceError>,
    end: RunEnd<V, E>,
    map_error: M,
) -> bool {
    match end {
        RunEnd::Value(v) => r == Ok::<V, SpotifyServiceError>(v),
        RunEnd::RefreshFailed(x) => r == Err::<V, SpotifyServiceError>(x),
        RunEnd::Rejected => r matches Err(SpotifyServiceError::ReauthorizationRequired(m)) && m@
            == rejected_refresh_text(),
        RunEnd::Mapped(e) => r matches Err(m) && call_ensures(map_error, (e,), m),
    }
}

proof fn lemma_runs_to_push<V, E>(
    p0: RetryPolicy,
    pre: Seq<AttemptRecord<V, E>>,
    p: RetryPolicy,
    a: AttemptRecord<V, E>,
)
    requires
        runs_to(p0, pre, p),
        continues(p, a),
    ensures
        runs_to(p0, pre.push(a), decide(p, a.outcome).1),
    decreases pre.len(),
{
    let q = decide(p, a.outcome).1;
    if pre.len() == 0 {
        assert(pre.push(a).drop_first() =~= Seq::<AttemptRecord<V, E>>::empty());
        assert(runs_to(q, Seq::<AttemptRecord<V, E>>::empty(), q));
        assert(pre.push(a)[0] == a);
    } else {
        lemma_runs_to_push(decide(p0, pre[0].outcome).1, pre.drop_first(), p, a);
        assert(pre.push(a).drop_first() =~= pre.drop_first().push(a));
        assert(pre.push(a)[0] == pre[0]);
    }
}

proof fn lemma_run_ends_push<V, E>(
    p0: RetryPolicy,
    pre: Seq<AttemptRecord<V, E>>,
    p: RetryPolicy,
    a: AttemptRecord<V, E>,
    end: RunEnd<V, E>,
)
    requires
        runs_to(p0, pre, p),
        ends_with(p, a, end),
    ensures
        run_ends(p0, pre.push(a), end),
    decreases pre.len(),
{
    if pre.len() > 0 {
        lemma_run_ends_push(decide(p0, pre[0].outcome).1, pre.drop_first(), p, a, end);
        assert(pre.push(a).drop_first() =~= pre.drop_first().push(a));
    }
}

proof fn lemma_run_bounded<V, E>(p: RetryPolicy, trace: Seq<AttemptRecord<V, E>>, end: RunEnd<V, E>)
    requires
        policy_valid(p),
        run_ends(p, trace, end),
    ensures
        trace.len() <= attempts_left(p) + 1,
        refreshes_in(trace) <= if p.refreshed {
            0nat
        } else {
            1nat
        },
    decreases trace.len(),
{
    if trace.len() == 1 {
        assert(trace.drop_first().len() == 0);
        assert(refreshes_in(trace.drop_first()) == 0);
    } else {
        lemma_step_spends_an_attempt(p, trace[0].outcome);
        lemma_run_bounded(decide(p, trace[0].outcome).1, trace.drop_first(), end);
    }
}

/// Whatever the request, the refresh and the checks do, a run makes at most
/// `limit + 2` attempts and at most one refresh.
pub proof fn law_run_is_bounded<V, E>(
    limit: usize,
    trace: Seq<AttemptRecord<V, E>>,
    end: RunEnd<V, E>,
)
    requires
        run_ends(fresh_policy(limit), trace, end),
    ensures
        trace.len() <= limit + 2,
        refreshes_in(trace) <= 1,
{
    lemma_run_bounded(fresh_policy(limit), trace, end);
}

proof fn lemma_refresh_shape<V, E>(p: RetryPolicy, trace: Seq<AttemptRecord<V, E>>, end: RunEnd<V, E>)
    requires
        run_ends(p, trace, end),
    ensures
        forall|i: int|
            0 <= i < trace.len() && (#[trigger] trace[i]).refresh is Some ==> {
                &&& trace[i].outcome == AttemptOutcome::AuthExpired
                &&& !p.refreshed
                &&& forall|j: int| 0 <= j < i ==> trace[j].outcome != AttemptOutcome::AuthExpired
            },
        end is Rejected ==> refreshes_in(trace) == if p.refreshed {
            0nat
        } else {
            1nat
        },
        end is RefreshFailed ==> refreshes_in(trace) == 1 && !p.refreshed,
    decreases trace.len(),
{
    if trace.len() == 1 {
        assert(refreshes_in(trace.drop_first()) == 0);
    } else {
        let next = decide(p, trace[0].outcome).1;
        let rest = trace.drop_first();
        lemma_refresh_shape(next, rest, end);
        assert forall|i: int|
            0 <= i < trace.len() && (#[trigger] trace[i]).refresh is Some implies {
                &&& trace[i].outcome == AttemptOutcome::AuthExpired
                &&& !p.refreshed
                &&& forall|j: int| 0 <= j < i ==> trace[j].outcome != AttemptOutcome::AuthExpired
            } by {
            if i > 0 {
                assert(trace[i] == rest[i - 1]);
                assert forall|j: int| 0 <= j < i implies trace[j].outcome
                    != AttemptOutcome::AuthExpired by {
                    if j > 0 {
                        assert(trace[j] == rest[j - 1]);
                    }
                }
            }
        }
    }
}

/// In every run, a refresh follows only an auth failure, and only the first
/// one; a run that ends in a reauthorization error, or in a failed refresh,
/// has made exactly one refresh.
pub proof fn law_refresh_follows_first_auth_failure<V, E>(
    limit: usize,
    trace: Seq<AttemptRecord<V, E>>,
    end: RunEnd<V, E>,
)
    requires
        run_ends(fresh_policy(limit), trace, end),
    ensures
        forall|i: int|
            0 <= i < trace.len() && (#[trigger] trace[i]).refresh is Some ==> {
                &&& trace[i].outcome == AttemptOutcome::AuthExpired
                &&& forall|j: int| 0 <= j < i ==> trace[j].outcome != AttemptOutcome::AuthExpired
            },
        end is Rejected ==> refreshes_in(trace) == 1,
        end is RefreshFailed ==> refreshes_in(trace) == 1,
{
    lemma_refresh_shape(fresh_policy(limit), trace, end);
}

/// Runs a request with one auth refresh attempt and bounded transient retries.
///
/// The run is the policy of [`RetryPolicy`] applied to what the request
/// actually returns: a value is returned at once; a first auth failure
/// refreshes the credentials (a failed refresh is returned as is) and tries
/// again; an auth failure after the refresh ends in a reauthorization error;
/// transient failures are retried up to `transient_retry_limit` times; any
/// other failure, or a transient one past the limit, is returned through
/// `map_error`.
pub fn run_with_refresh_and_transient_retry<
    V,
    E,
    R: FnMut() -> Result<V, E>,
    F: FnMut() -> Result<(), SpotifyServiceError>,
    A: Fn(&E) -> bool,
    T: Fn(&E) -> bool,
    M: Fn(E) -> SpotifyServiceError,
>(
    request: R,
    refresh: F,
    is_refreshable_auth_error: A,
    is_transient_error: T,
    map_error: M,
    transient_retry_limit: usize,
) -> (r: Result<V, SpotifyServiceError>)
    requires
        call_requires(request, ()),
        call_requires(refresh, ()),
        forall|e: &E| call_requires(is_refreshable_auth_error, (e,)),
        forall|e: &E| call_requires(is_transient_error, (e,)),
        forall|e: E| call_requires(map_error, (e,)),
    ensures
        exists|trace: Seq<AttemptRecord<V, E>>, end: RunEnd<V, E>|
            #![trigger run_ends(fresh_policy(transient_retry_limit), trace, end)]
            {
                &&& run_ends(fresh_policy(transient_retry_limit), trace, end)
                &&& forall|i: int|
                    0 <= i < trace.len() ==> attempt_seen(
                        #[trigger] trace[i],
                        request,
                        refresh,
                        is_refreshable_auth_error,
                        is_transient_error,
                    )
                &&& run_result(r, end, map_error)
            },
{
    let ghost request0 = request;
    let ghost refresh0 = refresh;
    let mut call_request = request;
    let mut call_refresh = refresh;
    let mut policy = RetryPolicy::new(transient_retry_limit);
    let ghost mut trace: Seq<AttemptRecord<V, E>> = Seq::empty();
    loop
        invariant
            call_request == request0,
            call_refresh == refresh0,
            request0 == request,
            refresh0 == refresh,
            policy.transient_limit == transient_retry_limit,
            policy_valid(policy),
            runs_to(fresh_policy(transient_retry_limit), trace, policy),
            forall|i: int|
                0 <= i < trace.len() ==> attempt_seen(
                    #[trigger] trace[i],
                    request0,
                    refresh0,
                    is_refreshable_auth_error,
                    is_transient_error,
                ),
            call_requires(call_request, ()),
            call_requires(call_refresh, ()),
            forall|e: &E| call_requires(is_refreshable_auth_error, (e,)),
            forall|e: &E| call_requires(is_transient_error, (e,)),
            forall|e: E| call_requires(map_error, (e,)),
        decreases attempts_left(policy),
    {
        let ghost request_before = call_request;
        let attempt = call_request();
        let ghost result = attempt;
        assert(call_ensures(request_before, (), result));
        assert(call_request == request_before);
        match attempt {
            Ok(value) => {
                let ghost rec = AttemptRecord {
                    result,
                    outcome: AttemptOutcome::Succeeded,
                    refresh: None,
                };
                let ghost end = RunEnd::<V, E>::Value(value);
                proof {
                    lemma_run_ends_push(fresh_policy(transient_retry_limit), trace, policy, rec, end);
                    assert(attempt_seen(rec, request0, refresh0, is_refreshable_auth_error, is_transient_error));
                    assert forall|i: int| 0 <= i < trace.push(rec).len() implies attempt_seen(
                        #[trigger] trace.push(rec)[i],
                        request0,
                        refresh0,
                        is_refreshable_auth_error,
                        is_transient_error,
                    ) by {
                        if i < trace.len() {
                            assert(trace.push(rec)[i] == trace[i]);
                        }
                    }
                }
                return Ok(value);
            },
            Err(err) => {
                let ghost e = err;
                let outcome = classify(&err, &is_refreshable_auth_error, &is_transient_error);
                assert(checks_gave(e, outcome, is_refreshable_auth_error, is_transient_error));
                let ghost before = policy;
                let step = policy.next(outcome);
                proof {
                    lemma_step_spends_an_attempt(before, outcome);
                }
                match step {
                    RetryStep::Refresh => {
                        let ghost refresh_before = call_refresh;
                        let refreshed = call_refresh();
                        let ghost refresh_result = refreshed;
                        assert(call_ensures(refresh_before, (), refresh_result));
                        assert(call_refresh == refresh_before);
                        let ghost rec = AttemptRecord { result, outcome, refresh: Some(refresh_result) };
                        proof {
                            assert(attempt_seen(rec, request0, refresh0, is_refreshable_auth_error, is_transient_error));
                            assert forall|i: int| 0 <= i < trace.push(rec).len() implies attempt_seen(
                                #[trigger] trace.push(rec)[i],
                                request0,
                                refresh0,
                                is_refreshable_auth_error,
                                is_transient_error,
                            ) by {
                                if i < trace.len() {
                                    assert(trace.push(rec)[i] == trace[i]);
                                }
                            }
                        }
                        match refreshed {
                            Ok(()) => {
                                proof {
                                    assert(refresh_result is Ok);
                                    assert(result == Err::<V, E>(e));
                                    assert(continues(before, rec));
                                    lemma_runs_to_push(fresh_policy(transient_retry_limit), trace, before, rec);
                                    trace = trace.push(rec);
                                }
                            },
                            Err(x) => {
                                proof {
                                    lemma_run_ends_push(
                                        fresh_policy(transient_retry_limit),
                                        trace,
                                        before,
                                        rec,
                                        RunEnd::<V, E>::RefreshFailed(x),
                                    );
                                }
                                return Err(x);
                            },
                        }
                    },
                    RetryStep::RetryTransient => {
                        let ghost rec = AttemptRecord { result, outcome, refresh: None };
                        proof {
                            assert(attempt_seen(rec, request0, refresh0, is_refreshable_auth_error, is_transient_error));
                            assert forall|i: int| 0 <= i < trace.push(rec).len() implies attempt_seen(
                                #[trigger] trace.push(rec)[i],
                                request0,
                                refresh0,
                                is_refreshable_auth_error,
                                is_transient_error,
                            ) by {
                                if i < trace.len() {
                                    assert(trace.push(rec)[i] == trace[i]);
                                }
                            }
                            lemma_runs_to_push(fresh_policy(transient_retry_limit), trace, before, rec);
                            trace = trace.push(rec);
                        }
                    },
                    RetryStep::Reauthorize => {
                        let ghost rec = AttemptRecord { result, outcome, refresh: None };
                        proof {
                            assert(attempt_seen(rec, request0, refresh0, is_refreshable_auth_error, is_transient_error));
                            assert forall|i: int| 0 <= i < trace.push(rec).len() implies attempt_seen(
                                #[trigger] trace.push(rec)[i],
                                request0,
                                refresh0,
                                is_refreshable_auth_error,
                                is_transient_error,
                            ) by {
                                if i < trace.len() {
                                    assert(trace.push(rec)[i] == trace[i]);
                                }
                            }
                            lemma_run_ends_push(
                                fresh_policy(transient_retry_limit),
                                trace,
                                before,
                                rec,
                                RunEnd::<V, E>::Rejected,
                            );
                        }
                        return Err(rejected_refresh());
                    },
                    RetryStep::Finish => {
                        proof {
                            assert(false);
                        }
                        return Err(map_error(err));
                    },
                    RetryStep::GiveUp => {
                        let ghost rec = AttemptRecord { result, outcome, refresh: None };
                        proof {
                            assert(attempt_seen(rec, request0, refresh0, is_refreshable_auth_error, is_transient_error));
                            assert forall|i: int| 0 <= i < trace.push(rec).len() implies attempt_seen(
                                #[trigger] trace.push(rec)[i],
                                request0,
                                refresh0,
                                is_refreshable_auth_error,
                                is_transient_error,
                            ) by {
                                if i < trace.len() {
                                    assert(trace.push(rec)[i] == trace[i]);
                                }
                            }
                            lemma_run_ends_push(
                                fresh_policy(transient_retry_limit),
                                trace,
                                before,
                                rec,
                                RunEnd::<V, E>::Mapped(e),
                            );
                        }
                        return Err(map_error(err));
                    },
                }
            },
        }
    }
}

/// Runs a request once, refreshes auth on the first auth-expired error, and
/// retries once.
///
/// The run is the policy of [`RetryPolicy`], with no transient retries,
/// applied to what the request actually returns: a value is returned at once;
/// a first auth failure refreshes the credentials (a failed refresh is
/// returned as is) and tries again; an auth failure after the refresh ends in
/// a reauthorization error; any other failure is returned through `map_error`.
pub fn run_with_refresh_retry<
    V,
    E,
    R: FnMut() -> Result<V, E>,
    F: FnMut() -> Result<(), SpotifyServiceError>,
    A: Fn(&E) -> bool,
    M: Fn(E) -> SpotifyServiceError,
>(
    request: R,
    refresh: F,
    is_refreshable_auth_error: A,
    map_error: M,
) -> (r: Result<V, SpotifyServiceError>)
    requires
        call_requires(request, ()),
        call_requires(refresh, ()),
        forall|e: &E| call_requires(is_refreshable_auth_error, (e,)),
        forall|e: E| call_requires(map_error, (e,)),
    ensures
        exists|trace: Seq<AttemptRecord<V, E>>, end: RunEnd<V, E>|
            #![trigger run_ends(fresh_policy(0), trace, end)]
            {
                &&& run_ends(fresh_policy(0), trace, end)
                &&& forall|i: int|
                    0 <= i < trace.len() ==> attempt_seen_by_auth(
                        #[trigger] trace[i],
                        request,
                        refresh,
                        is_refreshable_auth_error,
                    )
                &&& run_result(r, end, map_error)
            },
{
    let ghost request0 = request;
    let ghost refresh0 = refresh;
    let mut call_request = request;
    let mut call_refresh = refresh;
    let mut policy = RetryPolicy::new(0);
    let ghost mut trace: Seq<AttemptRecord<V, E>> = Seq::empty();
    loop
        invariant
            call_request == request0,
            call_refresh == refresh0,
            request0 == request,
            refresh0 == refresh,
            policy.transient_limit == 0,
            policy_valid(policy),
            runs_to(fresh_policy(0), trace, policy),
            forall|i: int|
                0 <= i < trace.len() ==> attempt_seen_by_auth(
                    #[trigger] trace[i],
                    request0,
                    refresh0,
                    is_refreshable_auth_error,
                ),
            call_requires(call_request, ()),
            call_requires(call_refresh, ()),
            forall|e: &E| call_requires(is_refreshable_auth_error, (e,)),
                forall|e: E| call_requires(map_error, (e,)),
        decreases attempts_left(policy),
    {
        let ghost request_before = call_request;
        let attempt = call_request();
        let ghost result = attempt;
        assert(call_ensures(request_before, (), result));
        assert(call_request == request_before);
        match attempt {
            Ok(value) => {
                let ghost rec = AttemptRecord {
                    result,
                    outcome: AttemptOutcome::Succeeded,
                    refresh: None,
                };
                let ghost end = RunEnd::<V, E>::Value(value);
                proof {
                    lemma_run_ends_push(fresh_policy(0), trace, policy, rec, end);
                    assert(attempt_seen_by_auth(rec, request0, refresh0, is_refreshable_auth_error));
                    assert forall|i: int| 0 <= i < trace.push(rec).len() implies attempt_seen_by_auth(
                        #[trigger] trace.push(rec)[i],
                        request0,
                        refresh0,
                        is_refreshable_auth_error,
                    ) by {
                        if i < trace.len() {
                            assert(trace.push(rec)[i] == trace[i]);
                        }
                    }
                }
                return Ok(value);
            },
            Err(err) => {
                let ghost e = err;
                let outcome = if is_refreshable_auth_error(&err) {
                    AttemptOutcome::AuthExpired
                } else {
                    AttemptOutcome::Failed
                };
                assert(auth_check_gave(e, outcome, is_refreshable_auth_error));
                let ghost before = policy;
                let step = policy.next(outcome);
                proof {
                    lemma_step_spends_an_attempt(before, outcome);
                }
                match step {
                    RetryStep::Refresh => {
                        let ghost refresh_before = call_refresh;
                        let refreshed = call_refresh();
                        let ghost refresh_result = refreshed;
                        assert(call_ensures(refresh_before, (), refresh_result));
                        assert(call_refresh == refresh_before);
                        let ghost rec = AttemptRecord { result, outcome, refresh: Some(refresh_result) };
                        proof {
                            assert(attempt_seen_by_auth(rec, request0, refresh0, is_refreshable_auth_error));
                            assert forall|i: int| 0 <= i < trace.push(rec).len() implies attempt_seen_by_auth(
                                #[trigger] trace.push(rec)[i],
                                request0,
                                refresh0,
                                is_refreshable_auth_error,
                            ) by {
                                if i < trace.len() {
                                    assert(trace.push(rec)[i] == trace[i]);
                                }
                            }
                        }
                        match refreshed {
                            Ok(()) => {
                                proof {
                                    assert(refresh_result is Ok);
                                    assert(result == Err::<V, E>(e));
                                    assert(continues(before, rec));
                                    lemma_runs_to_push(fresh_policy(0), trace, before, rec);
                                    trace = trace.push(rec);
                                }
                            },
                            Err(x) => {
                                proof {
                                    lemma_run_ends_push(
                                        fresh_policy(0),
                                        trace,
                                        before,
                                        rec,
                                        RunEnd::<V, E>::RefreshFailed(x),
                                    );
                                }
                                return Err(x);
                            },
                        }
                    },
                    RetryStep::RetryTransient => {
                        let ghost rec = AttemptRecord { result, outcome, refresh: None };
                        proof {
                            assert(attempt_seen_by_auth(rec, request0, refresh0, is_refreshable_auth_error));
                            assert forall|i: int| 0 <= i < trace.push(rec).len() implies attempt_seen_by_auth(
                                #[trigger] trace.push(rec)[i],
                                request0,
                                refresh0,
                                is_refreshable_auth_error,
                            ) by {
                                if i < trace.len() {
                                    assert(trace.push(rec)[i] == trace[i]);
                                }
                            }
                            lemma_runs_to_push(fresh_policy(0), trace, before, rec);
                            trace = trace.push(rec);
                        }
                    },
                    RetryStep::Reauthorize => {
                        let ghost rec = AttemptRecord { result, outcome, refresh: None };
                        proof {
                            assert(attempt_seen_by_auth(rec, request0, refresh0, is_refreshable_auth_error));
                            assert forall|i: int| 0 <= i < trace.push(rec).len() implies attempt_seen_by_auth(
                                #[trigger] trace.push(rec)[i],
                                request0,
                                refresh0,
                                is_refreshable_auth_error,
                            ) by {
                                if i < trace.len() {
                                    assert(trace.push(rec)[i] == trace[i]);
                                }
                            }
                            lemma_run_ends_push(
                                fresh_policy(0),
                                trace,
                                before,
                                rec,
                                RunEnd::<V, E>::Rejected,
                            );
                        }
                        return Err(rejected_refresh());
                    },
                    RetryStep::Finish => {
                        proof {
                            assert(false);
                        }
                        return Err(map_error(err));
                    },
                    RetryStep::GiveUp => {
                        let ghost rec = AttemptRecord { result, outcome, refresh: None };
                        proof {
                            assert(attempt_seen_by_auth(rec, request0, refresh0, is_refreshable_auth_error));
                            assert forall|i: int| 0 <= i < trace.push(rec).len() implies attempt_seen_by_auth(
                                #[trigger] trace.push(rec)[i],
                                request0,
                                refresh0,
                                is_refreshable_auth_error,
                            ) by {
                                if i < trace.len() {
                                    assert(trace.push(rec)[i] == trace[i]);
                                }
                            }
                            lemma_run_ends_push(
                                fresh_policy(0),
                                trace,
                                before,
                                rec,
                                RunEnd::<V, E>::Mapped(e),
                            );
                        }
                        return Err(map_error(err));
                    },
                }
            },
        }
    }
}

/// A transient failure is retried exactly while retries are left, whether or
/// not the credentials were refreshed before; a retry spends one of them and
/// changes nothing else, and giving up changes nothing.
pub proof fn law_transient_retry_ignores_refresh(policy: RetryPolicy)
    ensures
        (decide(policy, AttemptOutcome::Transient).0 == RetryStep::RetryTransient)
            <==> policy.transient_retries < policy.transient_limit,
        (decide(policy, AttemptOutcome::Transient).0 == RetryStep::GiveUp)
            <==> policy.transient_retries >= policy.transient_limit,
        decide(policy, AttemptOutcome::Transient).1.refreshed == policy.refreshed,
        decide(policy, AttemptOutcome::Transient).1.transient_limit == policy.transient_limit,
        decide(RetryPolicy { refreshed: true, ..policy }, AttemptOutcome::Transient).0 == decide(
            RetryPolicy { refreshed: false, ..policy },
            AttemptOutcome::Transient,
        ).0,
{
}

/// With at least one transient retry allowed, an auth failure, a refresh, a
/// transient failure and then a success take three attempts and one refresh,
/// and end on the success.
pub proof fn law_transient_after_refresh_is_retried(limit: usize)
    requires
        limit >= 1,
    ensures
        ({
            let outcomes = seq![
                AttemptOutcome::AuthExpired,
                AttemptOutcome::Transient,
                AttemptOutcome::Succeeded,
            ];
            &&& attempts_taken(fresh_policy(limit), outcomes) == 3
            &&& refreshes_made(fresh_policy(limit), outcomes) == 1
            &&& transient_retries_made(fresh_policy(limit), outcomes) == 1
        }),
{
    let outcomes = seq![
        AttemptOutcome::AuthExpired,
        AttemptOutcome::Transient,
        AttemptOutcome::Succeeded,
    ];
    let p1 = decide(fresh_policy(limit), AttemptOutcome::AuthExpired).1;
    let p2 = decide(p1, AttemptOutcome::Transient).1;
    assert(outcomes.drop_first() =~= seq![AttemptOutcome::Transient, AttemptOutcome::Succeeded]);
    assert(outcomes.drop_first().drop_first() =~= seq![AttemptOutcome::Succeeded]);
    assert(outcomes.drop_first().drop_first().drop_first() =~= Seq::<AttemptOutcome>::empty());
    let rest1 = outcomes.drop_first();
    let rest2 = rest1.drop_first();
    assert(decide(fresh_policy(limit), AttemptOutcome::AuthExpired).0 == RetryStep::Refresh);
    assert(decide(p1, AttemptOutcome::Transient).0 == RetryStep::RetryTransient);
    assert(rest2[0] == AttemptOutcome::Succeeded);
    assert(attempts_taken(p2, rest2) == 1);
    assert(refreshes_made(p2, rest2) == 0);
    assert(transient_retries_made(p2, rest2) == 0);
    assert(rest1[0] == AttemptOutcome::Transient);
    assert(attempts_taken(p1, rest1) == 2);
    assert(refreshes_made(p1, rest1) == 0);
    assert(transient_retries_made(p1, rest1) == 1);
    assert(outcomes[0] == AttemptOutcome::AuthExpired);
}

} // verus!

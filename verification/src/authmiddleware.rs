//! The guard in front of the protected routes.
//!
//! One request runs through the states `Start`, `TokenExtracted`,
//! `SignatureAndExpiryValidated`, `IdentityConfirmed` and ends in
//! `Authorized` or `Rejected`. The guard decides every transition; the one
//! thing it cannot do itself is ask the store, so a run has two halves:
//! [`AuthMiddleware::begin`] up to the question for the store, and
//! [`AuthMiddleware::finish`] from the store's answer on.

use vstd::prelude::*;
use crate::claims::{identity_of, Claims, ClaimsView, Identity, IdentityView, RequestContext};
use crate::errors::{AuthError, GeneralError, HttpStatus, StatusPolicy, Wording};
use crate::token::{validate, validate_outcome};

verus! {

/// What the store said when asked whether a user with the claimed id and
/// name exists.
#[derive(Clone, Copy, Debug, PartialEq, Eq, Structural)]
pub enum StoreReply {
    /// A row matches both fields.
    Found,
    /// No row matches.
    Missing,
    /// The store failed to answer.
    Unavailable,
}

impl StoreReply {
    /// The reply that an answer of the existence query stands for. The
    /// query yields one truth value, which the database may leave null;
    /// `None` outside means that the query itself failed.
    pub open spec fn of_exists(answer: Option<Option<bool>>) -> StoreReply {
        match answer {
            None => StoreReply::Unavailable,
            Some(Some(true)) => StoreReply::Found,
            Some(_) => StoreReply::Missing,
        }
    }

    /// Reads the answer of the existence query: a failure is reported as
    /// such and never taken for "no such user"; a null counts as `false`.
    pub fn from_exists(answer: Option<Option<bool>>) -> (r: StoreReply)
        ensures
            r == StoreReply::of_exists(answer),
    {
        match answer {
            None => StoreReply::Unavailable,
            Some(Some(true)) => StoreReply::Found,
            Some(_) => StoreReply::Missing,
        }
    }
}

/// The mathematical content of [`AuthMiddleware`].
pub struct GateView {
    pub secret: Option<Seq<u8>>,
    pub policy: StatusPolicy,
    pub wording: Wording,
}

/// The view of a secret that may be missing.
pub open spec fn secret_view(secret: Option<Vec<u8>>) -> Option<Seq<u8>> {
    match secret {
        Some(bytes) => Some(bytes@),
        None => None,
    }
}

/// The guard's configuration, fixed when the guard is built: the signing
/// secret, the status policy and the wording of its rejections. A guard
/// built without a secret rejects every request that carries a cookie with
/// `ServerConfig`.
pub struct AuthMiddleware {
    secret: Option<Vec<u8>>,
    policy: StatusPolicy,
    wording: Wording,
}

impl View for AuthMiddleware {
    type V = GateView;

    closed spec fn view(&self) -> GateView {
        GateView { secret: secret_view(self.secret), policy: self.policy, wording: self.wording }
    }
}

impl Clone for AuthMiddleware {
    fn clone(&self) -> (r: AuthMiddleware)
        ensures
            r@ == self@,
    {
        let secret = match &self.secret {
            Some(bytes) => {
                let copy = bytes.clone();
                assert(copy@ =~= bytes@);
                Some(copy)
            },
            None => None,
        };
        AuthMiddleware { secret, policy: self.policy, wording: self.wording }
    }
}

/// The mathematical content of [`GateState`].
pub enum GateStateView {
    Start,
    TokenExtracted { token: Seq<char> },
    SignatureAndExpiryValidated { claims: ClaimsView },
    IdentityConfirmed { identity: IdentityView },
    Authorized { identity: IdentityView },
    Rejected { error: AuthError },
}

/// Where the evaluation of one request stands.
#[derive(Debug)]
pub enum GateState {
    /// Nothing has been looked at.
    Start,
    /// The session cookie was there.
    TokenExtracted { token: String },
    /// The token is signed with the guard's secret and has not expired; the
    /// store has yet to confirm the claims.
    SignatureAndExpiryValidated { claims: Claims },
    /// The store holds the claimed user.
    IdentityConfirmed { identity: Identity },
    /// Terminal: the request goes on to the handler.
    Authorized { identity: Identity },
    /// Terminal: the request is answered with an error.
    Rejected { error: AuthError },
}

impl View for GateState {
    type V = GateStateView;

    open spec fn view(&self) -> GateStateView {
        match *self {
            GateState::Start => GateStateView::Start,
            GateState::TokenExtracted { token } => GateStateView::TokenExtracted { token: token@ },
            GateState::SignatureAndExpiryValidated { claims } => {
                GateStateView::SignatureAndExpiryValidated { claims: claims@ }
            },
            GateState::IdentityConfirmed { identity } => GateStateView::IdentityConfirmed {
                identity: identity@,
            },
            GateState::Authorized { identity } => GateStateView::Authorized { identity: identity@ },
            GateState::Rejected { error } => GateStateView::Rejected { error },
        }
    }
}

/// The mathematical content of [`GateEvent`].
pub enum GateEventView {
    Cookie(Option<Seq<char>>),
    Clock(int),
    Store(StoreReply),
    Proceed,
}

/// What the outside hands to the guard, one for each step.
#[derive(Debug)]
pub enum GateEvent {
    /// The value of the session cookie, if the request has one.
    Cookie(Option<String>),
    /// The time, in seconds since the epoch.
    Clock(u64),
    /// The store's answer.
    Store(StoreReply),
    /// Nothing new: go on.
    Proceed,
}

impl View for GateEvent {
    type V = GateEventView;

    open spec fn view(&self) -> GateEventView {
        match *self {
            GateEvent::Cookie(cookie) => GateEventView::Cookie(
                match cookie {
                    Some(token) => Some(token@),
                    None => None,
                },
            ),
            GateEvent::Clock(now) => GateEventView::Clock(now as int),
            GateEvent::Store(reply) => GateEventView::Store(reply),
            GateEvent::Proceed => GateEventView::Proceed,
        }
    }
}

impl GateStateView {
    /// The position of a state in the order of the run.
    pub open spec fn rank(self) -> nat {
        match self {
            GateStateView::Start => 0,
            GateStateView::TokenExtracted { .. } => 1,
            GateStateView::SignatureAndExpiryValidated { .. } => 2,
            GateStateView::IdentityConfirmed { .. } => 3,
            GateStateView::Authorized { .. } => 4,
            GateStateView::Rejected { .. } => 4,
        }
    }

    pub open spec fn terminal(self) -> bool {
        self is Authorized || self is Rejected
    }

    /// The one state in which the store is asked.
    pub open spec fn lookup_due(self) -> bool {
        self is SignatureAndExpiryValidated
    }
}

/// The transition function of the guard. An event that the state does not
/// wait for changes nothing; in particular a terminal state stays.
pub open spec fn gate_next(gate: GateView, state: GateStateView, event: GateEventView)
    -> GateStateView {
    match state {
        GateStateView::Start => match event {
            GateEventView::Cookie(Some(token)) => GateStateView::TokenExtracted { token },
            GateEventView::Cookie(None) => GateStateView::Rejected { error: AuthError::NoToken },
            _ => state,
        },
        GateStateView::TokenExtracted { token } => match event {
            GateEventView::Clock(now) => match gate.secret {
                None => GateStateView::Rejected { error: AuthError::ServerConfig },
                Some(secret) => match validate_outcome(token, secret, now) {
                    Ok(claims) => GateStateView::SignatureAndExpiryValidated { claims },
                    Err(error) => GateStateView::Rejected { error },
                },
            },
            _ => state,
        },
        GateStateView::SignatureAndExpiryValidated { claims } => match event {
            GateEventView::Store(StoreReply::Found) => GateStateView::IdentityConfirmed {
                identity: identity_of(claims),
            },
            GateEventView::Store(StoreReply::Missing) => GateStateView::Rejected {
                error: AuthError::IdentityNotFound,
            },
            GateEventView::Store(StoreReply::Unavailable) => GateStateView::Rejected {
                error: AuthError::IdentityStoreUnavailable,
            },
            _ => state,
        },
        GateStateView::IdentityConfirmed { identity } => match event {
            GateEventView::Proceed => GateStateView::Authorized { identity },
            _ => state,
        },
        GateStateView::Authorized { .. } => state,
        GateStateView::Rejected { .. } => state,
    }
}

/// The state in which the first half of a run ends: cookie, then clock.
pub open spec fn gate_begin(gate: GateView, cookie: Option<Seq<char>>, now: int) -> GateStateView {
    gate_next(
        gate,
        gate_next(gate, GateStateView::Start, GateEventView::Cookie(cookie)),
        GateEventView::Clock(now),
    )
}

/// The state in which the second half of a run ends: the store's answer,
/// then the last step.
pub open spec fn gate_finish(gate: GateView, state: GateStateView, reply: StoreReply)
    -> GateStateView {
    gate_next(gate, gate_next(gate, state, GateEventView::Store(reply)), GateEventView::Proceed)
}

/// The mathematical content of [`AuthOutcome`].
pub enum AuthOutcomeView {
    Authorized(IdentityView),
    Rejected(AuthError, HttpStatus),
}

/// The result of the guard's evaluation of one request.
#[derive(Debug)]
pub enum AuthOutcome {
    /// The request is forwarded, with this identity in its context.
    Authorized(Identity),
    /// The request is answered with this error and status.
    Rejected(AuthError, HttpStatus),
}

impl View for AuthOutcome {
    type V = AuthOutcomeView;

    open spec fn view(&self) -> AuthOutcomeView {
        match *self {
            AuthOutcome::Authorized(identity) => AuthOutcomeView::Authorized(identity@),
            AuthOutcome::Rejected(error, status) => AuthOutcomeView::Rejected(error, status),
        }
    }
}

/// The outcome that a terminal state stands for; a state in which the run
/// has not ended stands for none.
pub open spec fn outcome_of(gate: GateView, state: GateStateView) -> Option<AuthOutcomeView> {
    match state {
        GateStateView::Authorized { identity } => Some(AuthOutcomeView::Authorized(identity)),
        GateStateView::Rejected { error } => Some(
            AuthOutcomeView::Rejected(error, error.spec_status(gate.policy)),
        ),
        _ => None,
    }
}

/// The state in which a whole run ends, given what the outside supplies:
/// the cookie, the time, and the store's answer. The answer counts only
/// where the run asks for it.
pub open spec fn gate_run(gate: GateView, cookie: Option<Seq<char>>, now: int, reply: StoreReply)
    -> GateStateView {
    gate_finish(gate, gate_begin(gate, cookie, now), reply)
}

impl AuthMiddleware {
    /// The guard of the middleware type: the recommended status policy and
    /// the type's wording.
    pub fn new(secret: Option<Vec<u8>>) -> (r: AuthMiddleware)
        ensures
            r@ == (GateView {
                secret: secret_view(secret),
                policy: StatusPolicy::Recommended,
                wording: Wording::Service,
            }),
    {
        AuthMiddleware { secret, policy: StatusPolicy::Recommended, wording: Wording::Service }
    }

    /// The guard of the function middleware: the recommended status policy
    /// and the function's wording.
    pub fn for_function(secret: Option<Vec<u8>>) -> (r: AuthMiddleware)
        ensures
            r@ == (GateView {
                secret: secret_view(secret),
                policy: StatusPolicy::Recommended,
                wording: Wording::Function,
            }),
    {
        AuthMiddleware { secret, policy: StatusPolicy::Recommended, wording: Wording::Function }
    }

    /// A guard with the given status policy and wording.
    pub fn with_policy(secret: Option<Vec<u8>>, policy: StatusPolicy, wording: Wording) -> (r:
        AuthMiddleware)
        ensures
            r@ == (GateView { secret: secret_view(secret), policy, wording }),
    {
        AuthMiddleware { secret, policy, wording }
    }

    pub fn policy(&self) -> (p: StatusPolicy)
        ensures
            p == self@.policy,
    {
        self.policy
    }

    pub fn wording(&self) -> (w: Wording)
        ensures
            w == self@.wording,
    {
        self.wording
    }

    /// Whether the guard was built with a secret.
    pub fn has_secret(&self) -> (b: bool)
        ensures
            b == (self@.secret is Some),
    {
        self.secret.is_some()
    }

    /// Puts the guard in front of `service`.
    pub fn new_transform<S>(&self, service: S) -> (r: AuthMiddlewareService<S>)
        ensures
            r.gate@ == self@,
            r.service == service,
    {
        AuthMiddlewareService { service, gate: self.clone() }
    }

    /// One transition of the guard.
    pub fn step(&self, state: GateState, event: GateEvent) -> (r: GateState)
        ensures
            r@ == gate_next(self@, state@, event@),
    {
        match state {
            GateState::Start => match event {
                GateEvent::Cookie(Some(token)) => GateState::TokenExtracted { token },
                GateEvent::Cookie(None) => GateState::Rejected { error: AuthError::NoToken },
                _ => GateState::Start,
            },
            GateState::TokenExtracted { token } => match event {
                GateEvent::Clock(now) => match &self.secret {
                    None => GateState::Rejected { error: AuthError::ServerConfig },
                    Some(secret) => {
                        let checked = validate(token.as_str(), secret.as_slice(), now);
                        match checked {
                            Ok(claims) => GateState::SignatureAndExpiryValidated { claims },
                            Err(error) => GateState::Rejected { error },
                        }
                    },
                },
                _ => GateState::TokenExtracted { token },
            },
            GateState::SignatureAndExpiryValidated { claims } => match event {
                GateEvent::Store(StoreReply::Found) => GateState::IdentityConfirmed {
                    identity: Identity::from_claims(&claims),
                },
                GateEvent::Store(StoreReply::Missing) => GateState::Rejected {
                    error: AuthError::IdentityNotFound,
                },
                GateEvent::Store(StoreReply::Unavailable) => GateState::Rejected {
                    error: AuthError::IdentityStoreUnavailable,
                },
                _ => GateState::SignatureAndExpiryValidated { claims },
            },
            GateState::IdentityConfirmed { identity } => match event {
                GateEvent::Proceed => GateState::Authorized { identity },
                _ => GateState::IdentityConfirmed { identity },
            },
            GateState::Authorized { identity } => GateState::Authorized { identity },
            GateState::Rejected { error } => GateState::Rejected { error },
        }
    }

    /// The first half of a run: extracts the token from the session cookie
    /// and validates it at time `now`. Ends in the state that waits for the
    /// store, or in a rejection.
    pub fn begin(&self, cookie: Option<&str>, now: u64) -> (r: GateState)
        ensures
            r@ == gate_begin(
                self@,
                match cookie {
                    Some(token) => Some(token@),
                    None => None,
                },
                now as int,
            ),
            r@ is SignatureAndExpiryValidated || r@ is Rejected,
    {
        let cookie = match cookie {
            Some(token) => Some(token.to_string()),
            None => None,
        };
        let extracted = self.step(GateState::Start, GateEvent::Cookie(cookie));
        self.step(extracted, GateEvent::Clock(now))
    }

    /// What to ask the store in `state`: the claimed id and name where the
    /// token has been validated, nothing in any other state.
    pub fn lookup(&self, state: &GateState) -> (r: Option<(i32, String)>)
        ensures
            r is Some <==> state@.lookup_due(),
            r matches Some(key) ==> state@ matches GateStateView::SignatureAndExpiryValidated {
                claims,
            } && key.0 == claims.user_id && key.1@ == claims.username,
    {
        match state {
            GateState::SignatureAndExpiryValidated { claims } => Some(
                (claims.user_id(), claims.username().to_string()),
            ),
            _ => None,
        }
    }

    /// The second half of a run: takes the store's answer, and on success
    /// writes the identity into the request's context. A rejection leaves
    /// the context as it was.
    pub fn finish(&self, state: GateState, reply: StoreReply, ctx: &mut RequestContext) -> (r:
        AuthOutcome)
        requires
            state@ is SignatureAndExpiryValidated || state@ is Rejected,
            old(ctx)@ is None,
        ensures
            Some(r@) == outcome_of(self@, gate_finish(self@, state@, reply)),
            r matches AuthOutcome::Authorized(identity) ==> final(ctx)@ == Some(identity@),
            r is Rejected ==> final(ctx)@ is None,
    {
        let answered = self.step(state, GateEvent::Store(reply));
        let last = self.step(answered, GateEvent::Proceed);
        match last {
            GateState::Authorized { identity } => {
                ctx.inject(identity.clone());
                AuthOutcome::Authorized(identity)
            },
            GateState::Rejected { error } => AuthOutcome::Rejected(
                error,
                error.status(self.policy),
            ),
            _ => vstd::pervasive::unreached(),
        }
    }

    /// The response that a rejection is answered with: the status under
    /// the guard's policy and the single-message envelope in the guard's
    /// wording.
    pub fn rejection(&self, error: AuthError) -> (r: (HttpStatus, GeneralError))
        ensures
            r.0 == error.spec_status(self@.policy),
            r.1.errors@ == error.spec_message_in(self@.wording),
    {
        (error.status(self.policy), GeneralError::from_auth(error, self.wording))
    }
}

/// The guard in front of a service `S`, to which authorized requests go on.
pub struct AuthMiddlewareService<S> {
    pub service: S,
    pub gate: AuthMiddleware,
}

/// A run moves forward only: a transition either leaves the state as it is
/// or leads to a state of higher rank, so no state is entered twice, and a
/// terminal state is never left.
pub proof fn lemma_no_state_revisited(gate: GateView, state: GateStateView, event: GateEventView)
    ensures
        gate_next(gate, state, event) == state || gate_next(gate, state, event).rank()
            > state.rank(),
        state.terminal() ==> gate_next(gate, state, event) == state,
{
}

/// Every run ends in a terminal state, so it has an outcome.
pub proof fn lemma_run_terminates(
    gate: GateView,
    cookie: Option<Seq<char>>,
    now: int,
    reply: StoreReply,
)
    ensures
        gate_begin(gate, cookie, now) is SignatureAndExpiryValidated || gate_begin(
            gate,
            cookie,
            now,
        ) is Rejected,
        gate_run(gate, cookie, now, reply).terminal(),
        outcome_of(gate, gate_run(gate, cookie, now, reply)) is Some,
{
}

/// The states that a run passes through, in order: `Start`, then the state
/// after each of the four events.
pub open spec fn run_trace(gate: GateView, cookie: Option<Seq<char>>, now: int, reply: StoreReply)
    -> Seq<GateStateView> {
    let s0 = GateStateView::Start;
    let s1 = gate_next(gate, s0, GateEventView::Cookie(cookie));
    let s2 = gate_next(gate, s1, GateEventView::Clock(now));
    let s3 = gate_next(gate, s2, GateEventView::Store(reply));
    let s4 = gate_next(gate, s3, GateEventView::Proceed);
    seq![s0, s1, s2, s3, s4]
}

/// How often a run asks the store: once for each state of its trace in
/// which a lookup is due.
pub open spec fn store_lookups(
    gate: GateView,
    cookie: Option<Seq<char>>,
    now: int,
    reply: StoreReply,
) -> nat {
    run_trace(gate, cookie, now, reply).filter(|s: GateStateView| s.lookup_due()).len()
}

/// A run asks the store at most once, and exactly when the first half ends
/// with a validated token.
pub proof fn lemma_at_most_one_lookup(
    gate: GateView,
    cookie: Option<Seq<char>>,
    now: int,
    reply: StoreReply,
)
    ensures
        store_lookups(gate, cookie, now, reply) <= 1,
        store_lookups(gate, cookie, now, reply) == 1 <==> gate_begin(
            gate,
            cookie,
            now,
        ) is SignatureAndExpiryValidated,
{
    let trace = run_trace(gate, cookie, now, reply);
    reveal_with_fuel(Seq::filter, 6);
    assert(trace.drop_last().drop_last().drop_last().drop_last().drop_last() =~= Seq::empty());
}

/// A request without a session cookie is rejected with `NoToken`, whatever
/// the guard's secret, the time and the store, and the store is not asked.
pub proof fn lemma_no_cookie(gate: GateView, now: int, reply: StoreReply)
    ensures
        gate_run(gate, None, now, reply) == (GateStateView::Rejected { error: AuthError::NoToken }),
        store_lookups(gate, None, now, reply) == 0,
{
    lemma_at_most_one_lookup(gate, None, now, reply);
}

/// A guard without a secret rejects every request that has a cookie with
/// `ServerConfig`, and does not ask the store.
pub proof fn lemma_no_secret(gate: GateView, token: Seq<char>, now: int, reply: StoreReply)
    requires
        gate.secret is None,
    ensures
        gate_run(gate, Some(token), now, reply) == (GateStateView::Rejected {
            error: AuthError::ServerConfig,
        }),
        store_lookups(gate, Some(token), now, reply) == 0,
{
    lemma_at_most_one_lookup(gate, Some(token), now, reply);
}

/// A token that fails validation is rejected with the validator's error,
/// unchanged, and the store is not asked.
pub proof fn lemma_validation_error_forwarded(
    gate: GateView,
    token: Seq<char>,
    now: int,
    reply: StoreReply,
)
    requires
        gate.secret is Some,
        validate_outcome(token, gate.secret.unwrap(), now) is Err,
    ensures
        gate_run(gate, Some(token), now, reply) == (GateStateView::Rejected {
            error: validate_outcome(token, gate.secret.unwrap(), now)->Err_0,
        }),
        store_lookups(gate, Some(token), now, reply) == 0,
{
    lemma_at_most_one_lookup(gate, Some(token), now, reply);
}

/// An unexpired token, signed with the guard's secret, of a user that the
/// store still holds unchanged, is authorized, with the identity of its
/// claims.
pub proof fn lemma_valid_token_authorized(gate: GateView, token: Seq<char>, now: int)
    requires
        gate.secret is Some,
        validate_outcome(token, gate.secret.unwrap(), now) is Ok,
    ensures
        gate_run(gate, Some(token), now, StoreReply::Found) == (GateStateView::Authorized {
            identity: identity_of(validate_outcome(token, gate.secret.unwrap(), now).unwrap()),
        }),
{
}

/// A valid token of a user that the store no longer holds under the claimed
/// id and name is rejected with `IdentityNotFound`; if the store cannot
/// answer, with `IdentityStoreUnavailable`.
pub proof fn lemma_unconfirmed_rejected(gate: GateView, token: Seq<char>, now: int)
    requires
        gate.secret is Some,
        validate_outcome(token, gate.secret.unwrap(), now) is Ok,
    ensures
        gate_run(gate, Some(token), now, StoreReply::Missing) == (GateStateView::Rejected {
            error: AuthError::IdentityNotFound,
        }),
        gate_run(gate, Some(token), now, StoreReply::Unavailable) == (GateStateView::Rejected {
            error: AuthError::IdentityStoreUnavailable,
        }),
{
}

/// An expired token is rejected with `ExpiredToken` even when its signature
/// is valid, whatever the store would say.
pub proof fn lemma_expired_token_rejected(
    gate: GateView,
    token: Seq<char>,
    raw: crate::token::RawClaimsView,
    now: int,
    reply: StoreReply,
)
    requires
        gate.secret is Some,
        crate::token::token_decoding(token, gate.secret.unwrap()) == crate::token::decoded_claims(
            raw,
        ),
        raw.complete(),
        raw.claims().expires_at <= now,
    ensures
        gate_run(gate, Some(token), now, reply) == (GateStateView::Rejected {
            error: AuthError::ExpiredToken,
        }),
{
}

/// A token that is found signed with another secret, or under another
/// algorithm, is rejected with `SignatureInvalid`, whatever its claims, the
/// time and the store.
pub proof fn lemma_foreign_signature_rejected(
    gate: GateView,
    token: Seq<char>,
    now: int,
    reply: StoreReply,
)
    requires
        gate.secret is Some,
        crate::token::token_decoding(token, gate.secret.unwrap()) == crate::token::decoded_fault(
            crate::token::TokenFault::InvalidSignature,
        ) || crate::token::token_decoding(token, gate.secret.unwrap())
            == crate::token::decoded_fault(crate::token::TokenFault::InvalidAlgorithm),
    ensures
        gate_run(gate, Some(token), now, reply) == (GateStateView::Rejected {
            error: AuthError::SignatureInvalid,
        }),
{
}

/// Nothing is authorized but what passed every check: a run that ends in
/// `Authorized` had a cookie, a secret, a token valid at the time of the
/// request, and the store's confirmation, and the identity is that of the
/// token's claims.
pub proof fn lemma_authorized_only_after_all_checks(
    gate: GateView,
    cookie: Option<Seq<char>>,
    now: int,
    reply: StoreReply,
)
    requires
        gate_run(gate, cookie, now, reply) is Authorized,
    ensures
        cookie is Some,
        gate.secret is Some,
        validate_outcome(cookie.unwrap(), gate.secret.unwrap(), now) is Ok,
        reply == StoreReply::Found,
        gate_run(gate, cookie, now, reply)->Authorized_identity == identity_of(
            validate_outcome(cookie.unwrap(), gate.secret.unwrap(), now).unwrap(),
        ),
{
}

} // verus!

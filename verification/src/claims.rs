//! The data that travels through the guard: the claims a token carries, the
//! identity confirmed for one request, and the slot that hands it to handlers.

use vstd::prelude::*;

verus! {

/// The mathematical content of [`Claims`].
pub struct ClaimsView {
    pub user_id: int,
    pub username: Seq<char>,
    pub issued_at: int,
    pub expires_at: int,
}

impl ClaimsView {
    /// A token expires after it was issued, its user id is that of an
    /// `i32`, and its times are seconds that fit a `u64`.
    pub open spec fn wf(self) -> bool {
        &&& i32::MIN <= self.user_id <= i32::MAX
        &&& 0 <= self.issued_at < self.expires_at <= u64::MAX
    }
}

/// The payload of a token: who it was issued to, when, and until when.
/// Every value of this type expires after it was issued.
#[derive(Debug, PartialEq, Eq)]
pub struct Claims {
    user_id: i32,
    username: String,
    issued_at: u64,
    expires_at: u64,
}

impl View for Claims {
    type V = ClaimsView;

    closed spec fn view(&self) -> ClaimsView {
        ClaimsView {
            user_id: self.user_id as int,
            username: self.username@,
            issued_at: self.issued_at as int,
            expires_at: self.expires_at as int,
        }
    }
}

impl Clone for Claims {
    fn clone(&self) -> (r: Claims)
        ensures
            r@ == self@,
    {
        proof {
            use_type_invariant(self);
        }
        Claims {
            user_id: self.user_id,
            username: self.username.clone(),
            issued_at: self.issued_at,
            expires_at: self.expires_at,
        }
    }
}

impl Claims {
    #[verifier::type_invariant]
    spec fn inv(self) -> bool {
        self.expires_at > self.issued_at
    }

    /// Claims for `user_id` and `username`, valid from `issued_at` until
    /// `expires_at`; `None` unless the expiry lies after the issue time.
    pub fn new(user_id: i32, username: String, issued_at: u64, expires_at: u64) -> (r: Option<
        Claims,
    >)
        ensures
            r is Some <==> expires_at > issued_at,
            r matches Some(c) ==> c@.wf() && c@ == (ClaimsView {
                user_id: user_id as int,
                username: username@,
                issued_at: issued_at as int,
                expires_at: expires_at as int,
            }),
    {
        if expires_at > issued_at {
            Some(Claims { user_id, username, issued_at, expires_at })
        } else {
            None
        }
    }

    /// Checks nothing at run time: every value of the type is well formed,
    /// and a caller that holds one learns so here.
    pub fn well_formed(&self)
        ensures
            self@.wf(),
    {
        proof {
            use_type_invariant(self);
        }
    }

    pub fn user_id(&self) -> (r: i32)
        ensures
            r == self@.user_id,
    {
        self.user_id
    }

    pub fn username(&self) -> (r: &str)
        ensures
            r@ == self@.username,
    {
        self.username.as_str()
    }

    pub fn issued_at(&self) -> (r: u64)
        ensures
            r == self@.issued_at,
    {
        self.issued_at
    }

    pub fn expires_at(&self) -> (r: u64)
        ensures
            r == self@.expires_at,
    {
        self.expires_at
    }
}

/// The mathematical content of [`Identity`].
pub struct IdentityView {
    pub user_id: int,
    pub username: Seq<char>,
}

/// The identity of a claims record.
pub open spec fn identity_of(claims: ClaimsView) -> IdentityView {
    IdentityView { user_id: claims.user_id, username: claims.username }
}

/// A user whose token was valid and whom the store confirmed, for the
/// request at hand. Only the guard makes one.
#[derive(Debug, PartialEq, Eq)]
pub struct Identity {
    user_id: i32,
    username: String,
}

impl View for Identity {
    type V = IdentityView;

    closed spec fn view(&self) -> IdentityView {
        IdentityView { user_id: self.user_id as int, username: self.username@ }
    }
}

impl Clone for Identity {
    fn clone(&self) -> (r: Identity)
        ensures
            r@ == self@,
    {
        Identity { user_id: self.user_id, username: self.username.clone() }
    }
}

impl Identity {
    pub(crate) fn from_claims(claims: &Claims) -> (r: Identity)
        ensures
            r@ == identity_of(claims@),
    {
        Identity { user_id: claims.user_id, username: claims.username.clone() }
    }

    pub fn user_id(&self) -> (r: i32)
        ensures
            r == self@.user_id,
    {
        self.user_id
    }

    pub fn username(&self) -> (r: &str)
        ensures
            r@ == self@.username,
    {
        self.username.as_str()
    }
}

/// The slot of one request that carries the confirmed identity to the
/// handlers. It starts vacant, the guard fills it once, and nothing empties or
/// overwrites it.
#[derive(Debug)]
pub struct RequestContext {
    identity: Option<Identity>,
}

impl View for RequestContext {
    type V = Option<IdentityView>;

    closed spec fn view(&self) -> Option<IdentityView> {
        match self.identity {
            Some(id) => Some(id@),
            None => None,
        }
    }
}

impl RequestContext {
    /// The context of a request that nothing has authorized yet.
    pub fn new() -> (r: RequestContext)
        ensures
            r@ is None,
    {
        RequestContext { identity: None }
    }

    pub fn is_vacant(&self) -> (r: bool)
        ensures
            r == (self@ is None),
    {
        self.identity.is_none()
    }

    /// The confirmed identity, if the guard has authorized the request.
    pub fn identity(&self) -> (r: Option<&Identity>)
        ensures
            match r {
                Some(id) => self@ == Some(id@),
                None => self@ is None,
            },
    {
        self.identity.as_ref()
    }

    pub(crate) fn inject(&mut self, identity: Identity)
        requires
            old(self)@ is None,
        ensures
            final(self)@ == Some(identity@),
    {
        self.identity = Some(identity);
    }
}

} // verus!

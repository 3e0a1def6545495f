//! What the handlers answer.
//!
//! A handler alternates between deciding and asking the store. The
//! decisions are the functions of the modules below: each takes what the
//! request or the store delivered and returns a [`Step`], either the next
//! question for the store or the reply to the client.

use vstd::prelude::*;
use crate::errors::{GeneralError, HttpStatus, ValidationErrorsToBeReturned};
use crate::models::{TodoFromDB, UserFromDB};

pub mod todo;
pub mod user;

verus! {

/// What came back from a query that returns at most one row.
#[derive(Debug)]
pub enum Fetched<T> {
    Row(T),
    NoRow,
    Failed,
}

/// A question for the store.
#[derive(Debug)]
pub enum StoreQuery {
    /// The user with this name.
    FindUser { username: String },
    /// A new user; the store returns the row it made.
    InsertUser { username: String, password_hash: String },
    /// A new to-do item; the store returns the row it made.
    InsertTodo { creator_id: i32, title: String },
    /// The to-do item with this id, if it belongs to this user.
    FindTodo { id: i32, creator_id: i32 },
    /// Marks that item as done; the store returns the row it changed.
    CompleteTodo { id: i32, creator_id: i32 },
}

/// The `SameSite` attribute of a cookie.
#[derive(Clone, Copy, Debug, PartialEq, Eq, Structural)]
pub enum SameSite {
    Strict,
    Lax,
    /// `SameSite=None`: the cookie is sent on cross-site requests too.
    CrossSite,
}

/// The cookie that carries the token.
#[derive(Debug)]
pub struct SessionCookie {
    pub name: String,
    pub value: String,
    pub path: String,
    pub http_only: bool,
    pub secure: bool,
    pub same_site: SameSite,
}

/// The name of the session cookie.
pub const SESSION_COOKIE: &'static str = "accessToken";

impl SessionCookie {
    /// The session cookie for `token`: `accessToken=<token>; Path=/;
    /// HttpOnly; Secure; SameSite=None`.
    pub open spec fn carries(&self, token: Seq<char>) -> bool {
        &&& self.name@ == "accessToken"@
        &&& self.value@ == token
        &&& self.path@ == "/"@
        &&& self.http_only
        &&& self.secure
        &&& self.same_site == SameSite::CrossSite
    }

    pub fn for_token(token: &str) -> (r: SessionCookie)
        ensures
            r.carries(token@),
    {
        SessionCookie {
            name: "accessToken".to_string(),
            value: token.to_string(),
            path: "/".to_string(),
            http_only: true,
            secure: true,
            same_site: SameSite::CrossSite,
        }
    }
}

/// The body of a successful sign-in, `{ "accessToken": <token> }`.
#[derive(Debug)]
pub struct LoginResponse {
    pub access_token: String,
}

/// The JSON value that a reply carries.
#[derive(Debug)]
pub enum ReplyBody {
    Validation(ValidationErrorsToBeReturned),
    General(GeneralError),
    User(UserFromDB),
    Todo(TodoFromDB),
    Login(LoginResponse),
    /// The JSON `null`.
    Null,
}

/// A handler's reply to the client.
#[derive(Debug)]
pub struct HttpReply {
    pub status: HttpStatus,
    pub body: ReplyBody,
    pub cookie: Option<SessionCookie>,
}

impl HttpReply {
    /// A reply with `status`, the single-message envelope around `message`,
    /// and no cookie.
    pub open spec fn is_general(&self, status: HttpStatus, message: Seq<char>) -> bool {
        &&& self.status == status
        &&& self.cookie is None
        &&& self.body matches ReplyBody::General(envelope)
        &&& envelope.errors@ == message
    }

    /// A 400 reply with the list envelope around `messages`, and no cookie.
    pub open spec fn is_validation(&self, messages: Seq<Seq<char>>) -> bool {
        &&& self.status == HttpStatus::BadRequest
        &&& self.cookie is None
        &&& self.body matches ReplyBody::Validation(envelope)
        &&& envelope.errors.deep_view() == messages
    }

    /// A 200 reply with `body` and no cookie.
    pub open spec fn is_success(&self, body: ReplyBody) -> bool {
        &&& self.status == HttpStatus::Success
        &&& self.cookie is None
        &&& self.body == body
    }

    /// The 200 reply to a sign-in: the token in the body and in the
    /// session cookie.
    pub open spec fn is_login(&self, token: Seq<char>) -> bool {
        &&& self.status == HttpStatus::Success
        &&& self.cookie matches Some(cookie)
        &&& cookie.carries(token)
        &&& self.body matches ReplyBody::Login(response)
        &&& response.access_token@ == token
    }

    pub fn general(status: HttpStatus, message: &str) -> (r: HttpReply)
        ensures
            r.is_general(status, message@),
    {
        HttpReply {
            status,
            body: ReplyBody::General(GeneralError { errors: message.to_string() }),
            cookie: None,
        }
    }

    pub fn validation(messages: Vec<String>) -> (r: HttpReply)
        ensures
            r.is_validation(messages.deep_view()),
    {
        HttpReply {
            status: HttpStatus::BadRequest,
            body: ReplyBody::Validation(ValidationErrorsToBeReturned { errors: messages }),
            cookie: None,
        }
    }

    pub fn success(body: ReplyBody) -> (r: HttpReply)
        ensures
            r.is_success(body),
    {
        HttpReply { status: HttpStatus::Success, body, cookie: None }
    }

    pub fn signed_in(token: String) -> (r: HttpReply)
        ensures
            r.is_login(token@),
    {
        let cookie = SessionCookie::for_token(token.as_str());
        HttpReply {
            status: HttpStatus::Success,
            body: ReplyBody::Login(LoginResponse { access_token: token }),
            cookie: Some(cookie),
        }
    }
}

/// What a handler does next.
#[derive(Debug)]
pub enum Step {
    /// Ask the store, and come back with its answer.
    Ask(StoreQuery),
    /// Answer the client.
    Reply(HttpReply),
}

} // verus!

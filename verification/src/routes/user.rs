//! Sign-up and sign-in.

use vstd::prelude::*;
use crate::errors::HttpStatus;
use crate::models::{UserCreateToDB, UserFromDB, UserToLogin};
use crate::password::{bcrypt_check, hash_password, made_with, verify_password, PasswordCheck};
use crate::routes::{Fetched, HttpReply, ReplyBody, Step, StoreQuery};
use crate::token::{hs256_token, issue_at, issue_outcome, wire_names};

verus! {

/// The first step of both handlers: a body that breaks a rule is answered
/// with 400 and the messages; a valid one leads to the search for the user.
pub open spec fn credentials_step(body: &UserCreateToDB, step: Step) -> bool {
    if body.violations().len() > 0 {
        step matches Step::Reply(reply) && reply.is_validation(body.violations())
    } else {
        step matches Step::Ask(StoreQuery::FindUser { username }) && username@ == body.username@
    }
}

fn check_credentials(body: &UserCreateToDB) -> (step: Step)
    ensures
        credentials_step(body, step),
{
    let errors = body.validate();
    if errors.len() > 0 {
        Step::Reply(HttpReply::validation(errors))
    } else {
        Step::Ask(StoreQuery::FindUser { username: body.username.clone() })
    }
}

/// Sign-in, first step: checks the body.
pub fn login_begin(body: &UserCreateToDB) -> (step: Step)
    ensures
        credentials_step(body, step),
{
    check_credentials(body)
}

/// What a sign-in is answered with once the store has been searched.
///
/// A failed search, an unknown user, a stored hash that cannot be read, a
/// wrong password and a token that cannot be issued, which is so under an
/// empty secret alone, are each answered with 500 and their message.
/// Otherwise the reply is 200 with the token in body and cookie.
pub open spec fn login_reply(
    body: &UserCreateToDB,
    fetched: Fetched<UserToLogin>,
    secret: Seq<u8>,
    ttl: int,
    now: int,
    reply: HttpReply,
) -> bool {
    match fetched {
        Fetched::Failed => reply.is_general(
            HttpStatus::InternalServerError,
            "Issue talking to the database"@,
        ),
        Fetched::NoRow => reply.is_general(
            HttpStatus::InternalServerError,
            "User with this username not found"@,
        ),
        Fetched::Row(user) => match bcrypt_check(body.password@, user.password@) {
            None => reply.is_general(
                HttpStatus::InternalServerError,
                "Issue validating the password"@,
            ),
            Some(false) => reply.is_general(HttpStatus::InternalServerError, "Invalid password"@),
            Some(true) => match issue_outcome(user.id as int, user.username@, secret, ttl, now) {
                Err(_) => reply.is_general(
                    HttpStatus::InternalServerError,
                    "Issue generating the token"@,
                ),
                Ok(token) => reply.is_login(token),
            },
        },
    }
}

/// Sign-in, last step: judges what the store found for the user name and
/// issues the token, signed with `secret` and valid from `now` for `ttl`
/// seconds. The lifetime is positive and the expiry a second that a `u64`
/// holds.
///
/// A correct password for a stored user, under a secret that is not empty,
/// is always answered with 200, the token issued for the stored id and name
/// in the body, and the one session cookie with that token.
pub fn login_finish(
    body: &UserCreateToDB,
    fetched: Fetched<UserToLogin>,
    secret: &[u8],
    ttl: u64,
    now: u64,
) -> (reply: HttpReply)
    requires
        ttl > 0,
        now + ttl <= u64::MAX,
    ensures
        login_reply(body, fetched, secret@, ttl as int, now as int, reply),
        fetched matches Fetched::Row(user) ==> (bcrypt_check(body.password@, user.password@)
            == Some(true) && secret@.len() > 0 ==> reply.is_login(
            hs256_token(
                user.id as int,
                user.username@,
                now as int,
                now + ttl,
                secret@,
                wire_names(),
            ),
        )),
        reply.is_general(HttpStatus::InternalServerError, "Issue generating the token"@)
            ==> secret@.len() == 0,
{
    proof {
        reveal_strlit("Issue generating the token");
        reveal_strlit("Issue talking to the database");
        reveal_strlit("User with this username not found");
        reveal_strlit("Issue validating the password");
        reveal_strlit("Invalid password");
        assert("Issue generating the token"@.len() == 26);
        assert("Issue talking to the database"@.len() == 29);
        assert("User with this username not found"@.len() == 33);
        assert("Issue validating the password"@.len() == 29);
        assert("Invalid password"@.len() == 16);
    }
    let user = match fetched {
        Fetched::Failed => {
            return HttpReply::general(
                HttpStatus::InternalServerError,
                "Issue talking to the database",
            );
        },
        Fetched::NoRow => {
            return HttpReply::general(
                HttpStatus::InternalServerError,
                "User with this username not found",
            );
        },
        Fetched::Row(user) => user,
    };
    match verify_password(body.password.as_str(), user.password.as_str()) {
        PasswordCheck::Unreadable => HttpReply::general(
            HttpStatus::InternalServerError,
            "Issue validating the password",
        ),
        PasswordCheck::Mismatch => HttpReply::general(
            HttpStatus::InternalServerError,
            "Invalid password",
        ),
        PasswordCheck::Match => match issue_at(user.id, user.username.as_str(), secret, ttl, now) {
            Ok(token) => HttpReply::signed_in(token),
            Err(_) => HttpReply::general(
                HttpStatus::InternalServerError,
                "Issue generating the token",
            ),
        },
    }
}

/// Sign-up, first step: checks the body.
pub fn create_user_begin(body: &UserCreateToDB) -> (step: Step)
    ensures
        credentials_step(body, step),
{
    check_credentials(body)
}

/// What follows the hashing of a new user's password: with a hash, the
/// insertion of the user under the name of the body; without, 500.
pub open spec fn hashed_step(body: &UserCreateToDB, hashed: Option<String>, step: Step) -> bool {
    match hashed {
        None => step matches Step::Reply(reply) && reply.is_general(
            HttpStatus::InternalServerError,
            "Issue hashing the password"@,
        ),
        Some(hash) => step matches Step::Ask(StoreQuery::InsertUser { username, password_hash })
            && username@ == body.username@ && password_hash@ == hash@,
    }
}

/// Sign-up, after the hashing.
pub fn create_user_hashed(body: &UserCreateToDB, hashed: Option<String>) -> (step: Step)
    ensures
        hashed_step(body, hashed, step),
{
    match hashed {
        None => Step::Reply(
            HttpReply::general(HttpStatus::InternalServerError, "Issue hashing the password"),
        ),
        Some(hash) => Step::Ask(
            StoreQuery::InsertUser { username: body.username.clone(), password_hash: hash },
        ),
    }
}

/// What a sign-up does once the store has been searched for the name.
///
/// A failed search is answered with 500, a name that is taken with 400.
/// For a free name the password is hashed: the next step is the insertion
/// of the user with a bcrypt hash of work factor 12 that matches the
/// password, or 500 where the hasher fails.
pub open spec fn lookup_step(body: &UserCreateToDB, fetched: Fetched<UserFromDB>, step: Step)
    -> bool {
    match fetched {
        Fetched::Failed => step matches Step::Reply(reply) && reply.is_general(
            HttpStatus::InternalServerError,
            "Issue talking to the database"@,
        ),
        Fetched::Row(_) => step matches Step::Reply(reply) && reply.is_general(
            HttpStatus::BadRequest,
            "User with this username already exists"@,
        ),
        Fetched::NoRow => match step {
            Step::Reply(reply) => reply.is_general(
                HttpStatus::InternalServerError,
                "Issue hashing the password"@,
            ),
            Step::Ask(StoreQuery::InsertUser { username, password_hash }) => username@
                == body.username@ && made_with(password_hash@, 12) && bcrypt_check(
                body.password@,
                password_hash@,
            ) == Some(true),
            Step::Ask(_) => false,
        },
    }
}

/// Sign-up, second step: judges what the store found for the user name
/// and hashes the password.
pub fn create_user_found(body: &UserCreateToDB, fetched: Fetched<UserFromDB>) -> (step: Step)
    ensures
        lookup_step(body, fetched, step),
{
    match fetched {
        Fetched::Failed => Step::Reply(
            HttpReply::general(HttpStatus::InternalServerError, "Issue talking to the database"),
        ),
        Fetched::Row(_) => Step::Reply(
            HttpReply::general(HttpStatus::BadRequest, "User with this username already exists"),
        ),
        Fetched::NoRow => {
            let hashed = hash_password(body.password.as_str());
            create_user_hashed(body, hashed)
        },
    }
}

/// What is stored for a new user is never the password itself: a hash has
/// 60 characters, a password that passed the check of the body 20 at most.
pub proof fn lemma_hash_is_not_the_password(body: &UserCreateToDB, hash: Seq<char>, cost: int)
    requires
        body.violations().len() == 0,
        made_with(hash, cost),
    ensures
        hash != body.password@,
{
    if !crate::models::length_within(body.password@, 6, 20) {
        assert(body.violations().len() > 0);
    }
}

/// What a sign-up is answered with once the store has inserted: the new
/// user with 200, or 500 where the store failed or returned no row.
pub open spec fn inserted_user_reply(inserted: Fetched<UserFromDB>, reply: HttpReply) -> bool {
    match inserted {
        Fetched::Row(user) => reply.is_success(ReplyBody::User(user)),
        _ => reply.is_general(HttpStatus::InternalServerError, "Issue writing to the database"@),
    }
}

/// Sign-up, last step.
pub fn create_user_finish(inserted: Fetched<UserFromDB>) -> (reply: HttpReply)
    ensures
        inserted_user_reply(inserted, reply),
{
    match inserted {
        Fetched::Row(user) => HttpReply::success(ReplyBody::User(user)),
        _ => HttpReply::general(HttpStatus::InternalServerError, "Issue writing to the database"),
    }
}

} // verus!

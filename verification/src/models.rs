//! The records that travel between the handlers, the store and the client,
//! and the rules that a request body must meet.

use vstd::prelude::*;
use vstd::string::StrSliceExecFns;

verus! {

/// The body of a sign-up or sign-in request.
#[derive(Debug)]
pub struct UserCreateToDB {
    pub username: String,
    pub password: String,
}

/// A user as the store returns it after a sign-up.
#[derive(Debug)]
pub struct UserFromDB {
    pub username: String,
    pub id: i32,
}

/// A user as the store returns it for a sign-in, with the password hash.
#[derive(Debug)]
pub struct UserToLogin {
    pub username: String,
    pub id: i32,
    pub password: String,
}

/// A to-do item as the store returns it.
#[derive(Debug)]
pub struct TodoFromDB {
    pub creator_id: i32,
    pub id: i32,
    pub completed: bool,
    pub title: String,
}

/// The body of a request that creates a to-do item.
#[derive(Debug)]
pub struct TodoCreateToDB {
    pub title: String,
}

/// The body of a request that marks a to-do item as done.
#[derive(Debug)]
pub struct TodoId {
    id: i32,
}

/// A text of at least `min` and at most `max` characters.
pub open spec fn length_within(text: Seq<char>, min: int, max: int) -> bool {
    min <= text.len() <= max
}

/// Whether `text` has at least `min` and at most `max` characters.
pub fn check_length(text: &str, min: usize, max: usize) -> (ok: bool)
    ensures
        ok == length_within(text@, min as int, max as int),
{
    let n = text.unicode_len();
    min <= n && n <= max
}

pub open spec fn username_message() -> Seq<char> {
    "Username should be between 6 and 20 length"@
}

pub open spec fn password_message() -> Seq<char> {
    "Password should be between 6 and 20 length"@
}

pub open spec fn title_message() -> Seq<char> {
    "Todo title should be between 1 and 255 length"@
}

pub open spec fn todo_id_message() -> Seq<char> {
    "Todo id not provided"@
}

impl UserCreateToDB {
    /// The messages for the rules that the body breaks, the user name's
    /// before the password's: each has 6 to 20 characters.
    pub open spec fn violations(&self) -> Seq<Seq<char>> {
        let name = if length_within(self.username@, 6, 20) {
            Seq::<Seq<char>>::empty()
        } else {
            seq![username_message()]
        };
        let password = if length_within(self.password@, 6, 20) {
            Seq::<Seq<char>>::empty()
        } else {
            seq![password_message()]
        };
        name + password
    }

    /// Checks the body; an empty list means that it is valid.
    pub fn validate(&self) -> (errors: Vec<String>)
        ensures
            errors.deep_view() == self.violations(),
    {
        let mut errors: Vec<String> = Vec::new();
        assert(errors.deep_view() =~= Seq::<Seq<char>>::empty());
        if !check_length(self.username.as_str(), 6, 20) {
            push_message(&mut errors, "Username should be between 6 and 20 length");
        }
        if !check_length(self.password.as_str(), 6, 20) {
            push_message(&mut errors, "Password should be between 6 and 20 length");
        }
        assert(errors.deep_view() =~= self.violations());
        errors
    }
}

impl TodoCreateToDB {
    /// The messages for the rules that the body breaks: the title has 1 to
    /// 255 characters.
    pub open spec fn violations(&self) -> Seq<Seq<char>> {
        if length_within(self.title@, 1, 255) {
            Seq::<Seq<char>>::empty()
        } else {
            seq![title_message()]
        }
    }

    /// Checks the body; an empty list means that it is valid.
    pub fn validate(&self) -> (errors: Vec<String>)
        ensures
            errors.deep_view() == self.violations(),
    {
        let mut errors: Vec<String> = Vec::new();
        assert(errors.deep_view() =~= Seq::<Seq<char>>::empty());
        if !check_length(self.title.as_str(), 1, 255) {
            push_message(&mut errors, "Todo title should be between 1 and 255 length");
        }
        assert(errors.deep_view() =~= self.violations());
        errors
    }
}

impl TodoId {
    pub fn new(id: i32) -> (r: TodoId)
        ensures
            r.spec_id() == id,
    {
        TodoId { id }
    }

    pub closed spec fn spec_id(&self) -> i32 {
        self.id
    }

    #[verifier::when_used_as_spec(spec_id)]
    pub fn id(&self) -> (r: i32)
        ensures
            r == self.spec_id(),
    {
        self.id
    }

    /// The messages for the rules that the body breaks: the id is at
    /// least 1.
    pub open spec fn violations(&self) -> Seq<Seq<char>> {
        if self.spec_id() >= 1 {
            Seq::<Seq<char>>::empty()
        } else {
            seq![todo_id_message()]
        }
    }

    /// Checks the body; an empty list means that it is valid.
    pub fn validate(&self) -> (errors: Vec<String>)
        ensures
            errors.deep_view() == self.violations(),
    {
        let mut errors: Vec<String> = Vec::new();
        assert(errors.deep_view() =~= Seq::<Seq<char>>::empty());
        if self.id < 1 {
            push_message(&mut errors, "Todo id not provided");
        }
        assert(errors.deep_view() =~= self.violations());
        errors
    }
}

/// Appends `message` to a list of messages.
fn push_message(errors: &mut Vec<String>, message: &str)
    ensures
        final(errors).deep_view() == old(errors).deep_view().push(message@),
{
    let ghost before = errors.deep_view();
    errors.push(message.to_string());
    assert(errors.deep_view() =~= before.push(message@));
}

} // verus!

//! Creating a to-do item and marking one as done. Both handlers stand
//! behind the guard and act for the identity in the request's context.

use vstd::prelude::*;
use crate::claims::RequestContext;
use crate::errors::HttpStatus;
use crate::models::{TodoCreateToDB, TodoFromDB, TodoId};
use crate::routes::{Fetched, HttpReply, ReplyBody, Step, StoreQuery};

verus! {

/// The reply to a request that reached a handler without an identity.
pub open spec fn is_unidentified(reply: HttpReply) -> bool {
    reply.is_general(HttpStatus::InternalServerError, "Issue talking to the database"@)
}

fn unidentified() -> (reply: HttpReply)
    ensures
        is_unidentified(reply),
{
    HttpReply::general(HttpStatus::InternalServerError, "Issue talking to the database")
}

/// The first step of creating an item: without an identity 500; for a
/// title that breaks the rule 400 and the message; else the insertion of
/// the item for the identified user.
pub open spec fn create_todo_step(ctx: &RequestContext, body: &TodoCreateToDB, step: Step) -> bool {
    match ctx@ {
        None => step matches Step::Reply(reply) && is_unidentified(reply),
        Some(identity) => if body.violations().len() > 0 {
            step matches Step::Reply(reply) && reply.is_validation(body.violations())
        } else {
            step matches Step::Ask(StoreQuery::InsertTodo { creator_id, title }) && creator_id
                == identity.user_id && title@ == body.title@
        },
    }
}

/// Creating an item, first step.
pub fn create_todo_begin(ctx: &RequestContext, body: &TodoCreateToDB) -> (step: Step)
    ensures
        create_todo_step(ctx, body, step),
{
    let identity = match ctx.identity() {
        Some(identity) => identity,
        None => {
            return Step::Reply(unidentified());
        },
    };
    let errors = body.validate();
    if errors.len() > 0 {
        return Step::Reply(HttpReply::validation(errors));
    }
    Step::Ask(StoreQuery::InsertTodo { creator_id: identity.user_id(), title: body.title.clone() })
}

/// What creating an item is answered with once the store has inserted: the
/// item with 200, or 400 where the store failed or returned no row.
pub open spec fn inserted_todo_reply(inserted: Fetched<TodoFromDB>, reply: HttpReply) -> bool {
    match inserted {
        Fetched::Row(todo) => reply.is_success(ReplyBody::Todo(todo)),
        Fetched::NoRow => reply.is_general(
            HttpStatus::BadRequest,
            "Issue writing to the database"@,
        ),
        Fetched::Failed => reply.is_general(
            HttpStatus::BadRequest,
            "Issue writing to the database"@,
        ),
    }
}

/// Creating an item, last step.
pub fn create_todo_finish(inserted: Fetched<TodoFromDB>) -> (reply: HttpReply)
    ensures
        inserted_todo_reply(inserted, reply),
{
    match inserted {
        Fetched::Row(todo) => HttpReply::success(ReplyBody::Todo(todo)),
        Fetched::NoRow => HttpReply::general(
            HttpStatus::BadRequest,
            "Issue writing to the database",
        ),
        Fetched::Failed => HttpReply::general(
            HttpStatus::BadRequest,
            "Issue writing to the database",
        ),
    }
}

/// The first step of marking an item as done: without an identity 500; for
/// an id below 1, 400 and the message; else the search for the item among
/// those of the identified user.
pub open spec fn mark_done_step(ctx: &RequestContext, body: &TodoId, step: Step) -> bool {
    match ctx@ {
        None => step matches Step::Reply(reply) && is_unidentified(reply),
        Some(identity) => if body.violations().len() > 0 {
            step matches Step::Reply(reply) && reply.is_validation(body.violations())
        } else {
            step matches Step::Ask(StoreQuery::FindTodo { id, creator_id }) && id == body.id()
                && creator_id == identity.user_id
        },
    }
}

/// Marking an item as done, first step.
pub fn mark_done_begin(ctx: &RequestContext, body: &TodoId) -> (step: Step)
    ensures
        mark_done_step(ctx, body, step),
{
    let identity = match ctx.identity() {
        Some(identity) => identity,
        None => {
            return Step::Reply(unidentified());
        },
    };
    let errors = body.validate();
    if errors.len() > 0 {
        return Step::Reply(HttpReply::validation(errors));
    }
    Step::Ask(StoreQuery::FindTodo { id: body.id(), creator_id: identity.user_id() })
}

/// What follows the search for the item: a failed search is answered with
/// 500, no item with 404, an item that is done already with 200 and
/// `null`; an open item is marked, for the same id and user.
pub open spec fn found_todo_step(
    ctx: &RequestContext,
    body: &TodoId,
    found: Fetched<TodoFromDB>,
    step: Step,
) -> bool {
    match ctx@ {
        None => step matches Step::Reply(reply) && is_unidentified(reply),
        Some(identity) => match found {
            Fetched::Failed => step matches Step::Reply(reply) && reply.is_general(
                HttpStatus::InternalServerError,
                "Issue talking to the database"@,
            ),
            Fetched::NoRow => step matches Step::Reply(reply) && reply.is_general(
                HttpStatus::NotFound,
                "Todo not found"@,
            ),
            Fetched::Row(todo) => if todo.completed {
                step matches Step::Reply(reply) && reply.is_success(ReplyBody::Null)
            } else {
                step matches Step::Ask(StoreQuery::CompleteTodo { id, creator_id }) && id
                    == body.id() && creator_id == identity.user_id
            },
        },
    }
}

/// Marking an item as done, second step.
pub fn mark_done_found(ctx: &RequestContext, body: &TodoId, found: Fetched<TodoFromDB>) -> (step:
    Step)
    ensures
        found_todo_step(ctx, body, found, step),
{
    let identity = match ctx.identity() {
        Some(identity) => identity,
        None => {
            return Step::Reply(unidentified());
        },
    };
    match found {
        Fetched::Failed => Step::Reply(
            HttpReply::general(HttpStatus::InternalServerError, "Issue talking to the database"),
        ),
        Fetched::NoRow => Step::Reply(HttpReply::general(HttpStatus::NotFound, "Todo not found")),
        Fetched::Row(todo) => if todo.completed {
            Step::Reply(HttpReply::success(ReplyBody::Null))
        } else {
            Step::Ask(StoreQuery::CompleteTodo { id: body.id(), creator_id: identity.user_id() })
        },
    }
}

/// What marking an item is answered with once the store has updated: the
/// item with 200, 404 where no row was changed, 500 where the store failed.
pub open spec fn updated_todo_reply(updated: Fetched<TodoFromDB>, reply: HttpReply) -> bool {
    match updated {
        Fetched::Row(todo) => reply.is_success(ReplyBody::Todo(todo)),
        Fetched::NoRow => reply.is_general(HttpStatus::NotFound, "Todo not found"@),
        Fetched::Failed => reply.is_general(
            HttpStatus::InternalServerError,
            "Issue talking to the database"@,
        ),
    }
}

/// Marking an item as done, last step.
pub fn mark_done_finish(updated: Fetched<TodoFromDB>) -> (reply: HttpReply)
    ensures
        updated_todo_reply(updated, reply),
{
    match updated {
        Fetched::Row(todo) => HttpReply::success(ReplyBody::Todo(todo)),
        Fetched::NoRow => HttpReply::general(HttpStatus::NotFound, "Todo not found"),
        Fetched::Failed => HttpReply::general(
            HttpStatus::InternalServerError,
            "Issue talking to the database",
        ),
    }
}

} // verus!

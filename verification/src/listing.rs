//! The handler of the note listing: from the query string to the statement
//! that is run, and from what the database gave to the reply.

use crate::http::{
    Body, BodyView, HttpError, HttpErrorView, HttpResponse, HttpResponseView,
    STATUS_INTERNAL_SERVER_ERROR, STATUS_OK,
};
use crate::note::{notes_view, Note, NoteView};
use crate::query::{notes_query, page_of, PageQuery, Query};
use vstd::prelude::*;
use vstd::string::*;

verus! {

/// The reply to a listing that gave `notes`: status 200 and the notes, in
/// the order in which the database gave them.
pub open spec fn listing_reply(notes: Seq<NoteView>) -> HttpResponseView {
    HttpResponseView { status: 200, body: BodyView::Notes(notes) }
}

/// The failure that a database error with this message turns into: status
/// 500, and the message, as it is, under the key `error`.
pub open spec fn database_failure(message: Seq<char>) -> HttpErrorView {
    HttpErrorView {
        cause: "Internal Server Error"@,
        response: HttpResponseView {
            status: 500,
            body: BodyView::Failure { error: message },
        },
    }
}

/// What the handler answers to each outcome of the listing statement.
pub open spec fn answer_to(outcome: Result<Seq<NoteView>, Seq<char>>) -> Result<
    HttpResponseView,
    HttpErrorView,
> {
    match outcome {
        Ok(notes) => Ok(listing_reply(notes)),
        Err(message) => Err(database_failure(message)),
    }
}

/// An outcome of the listing statement as mathematical values.
pub open spec fn outcome_view(outcome: Result<Vec<Note>, String>) -> Result<
    Seq<NoteView>,
    Seq<char>,
> {
    match outcome {
        Ok(notes) => Ok(notes_view(notes@)),
        Err(message) => Err(message@),
    }
}

/// An answer of a handler as mathematical values.
pub open spec fn answer_view(answer: Result<HttpResponse, HttpError>) -> Result<
    HttpResponseView,
    HttpErrorView,
> {
    match answer {
        Ok(response) => Ok(response@),
        Err(error) => Err(error@),
    }
}

/// Turns the message of a database error into the failure of the handler.
pub fn db_error_handler(message: String) -> (error: HttpError)
    ensures
        error@ == database_failure(message@),
{
    HttpError {
        cause: "Internal Server Error".to_owned(),
        response: HttpResponse {
            status: STATUS_INTERNAL_SERVER_ERROR,
            body: Body::Failure { error: message },
        },
    }
}

/// The answer of the listing handler to what the database gave.
pub fn notes_reply(outcome: Result<Vec<Note>, String>) -> (answer: Result<HttpResponse, HttpError>)
    ensures
        answer_view(answer) == answer_to(outcome_view(outcome)),
{
    match outcome {
        Ok(notes) => Ok(HttpResponse { status: STATUS_OK, body: Body::Notes(notes) }),
        Err(message) => Err(db_error_handler(message)),
    }
}

/// Handles one request for the listing. `fetch` runs the listing statement
/// with the limit and the offset it is given, and hands back the notes or
/// the message of the error.
pub fn get_notes<F>(query: &Query, fetch: F) -> (answer: Result<HttpResponse, HttpError>) where
    F: FnOnce(PageQuery) -> Result<Vec<Note>, String>,

    requires
        call_requires(fetch, (page_of(query@),)),
    ensures
        exists|outcome: Result<Vec<Note>, String>|
            call_ensures(fetch, (page_of(query@),), outcome) && answer_view(answer) == answer_to(
                outcome_view(outcome),
            ),
{
    let page = notes_query(query);
    let outcome = fetch(page);
    let ghost fetched = outcome;
    let answer = notes_reply(outcome);
    assert(call_ensures(fetch, (page_of(query@),), fetched) && answer_view(answer) == answer_to(
        outcome_view(fetched),
    ));
    answer
}

} // verus!

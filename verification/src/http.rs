//! The plain values that stand for HTTP replies.

use crate::note::{notes_view, Note, NoteView};
use vstd::prelude::*;

verus! {

/// Status of a reply that carries what was asked for.
pub const STATUS_OK: u16 = 200;

/// Status of a reply that reports a failure on the server's side.
pub const STATUS_INTERNAL_SERVER_ERROR: u16 = 500;

/// What a reply carries. Anything but `Empty` goes out as JSON.
#[derive(Clone, Debug, PartialEq, Eq)]
pub enum Body {
    /// Nothing at all.
    Empty,
    /// An array of note objects.
    Notes(Vec<Note>),
    /// An object with the single key `error`.
    Failure { error: String },
}

/// A body as mathematical values.
pub enum BodyView {
    Empty,
    Notes(Seq<NoteView>),
    Failure { error: Seq<char> },
}

impl View for Body {
    type V = BodyView;

    open spec fn view(&self) -> BodyView {
        match self {
            Body::Empty => BodyView::Empty,
            Body::Notes(notes) => BodyView::Notes(notes_view(notes@)),
            Body::Failure { error } => BodyView::Failure { error: error@ },
        }
    }
}

/// A reply: its status and its body.
#[derive(Clone, Debug, PartialEq, Eq)]
pub struct HttpResponse {
    pub status: u16,
    pub body: Body,
}

/// A reply as mathematical values.
pub struct HttpResponseView {
    pub status: int,
    pub body: BodyView,
}

impl View for HttpResponse {
    type V = HttpResponseView;

    open spec fn view(&self) -> HttpResponseView {
        HttpResponseView { status: self.status as int, body: self.body@ }
    }
}

/// A failure of a handler: a short cause for the diagnostic stream, and the
/// reply that the client gets in place of the one it asked for.
#[derive(Clone, Debug, PartialEq, Eq)]
pub struct HttpError {
    pub cause: String,
    pub response: HttpResponse,
}

/// A handler failure as mathematical values.
pub struct HttpErrorView {
    pub cause: Seq<char>,
    pub response: HttpResponseView,
}

impl View for HttpError {
    type V = HttpErrorView;

    open spec fn view(&self) -> HttpErrorView {
        HttpErrorView { cause: self.cause@, response: self.response@ }
    }
}

impl HttpError {
    /// The reply that is sent when a handler fails with this error.
    pub fn into_response(self) -> (response: HttpResponse)
        ensures
            response == self.response,
    {
        self.response
    }
}

} // verus!

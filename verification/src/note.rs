//! The note entity as the listing hands it out.

use vstd::prelude::*;

verus! {

/// An instant in UTC, counted in microseconds from the Unix epoch.
#[derive(Clone, Copy, Debug, PartialEq, Eq, Structural)]
pub struct Timestamp {
    pub micros: i64,
}

/// A read-only projection of a stored note. The soft-delete marker of the
/// stored row is not part of it.
#[derive(Clone, Debug, PartialEq, Eq)]
pub struct Note {
    pub id: i32,
    pub title: String,
    pub description: String,
    pub created_at: Timestamp,
    pub updated_at: Option<Timestamp>,
}

/// What a note holds, as mathematical values.
pub struct NoteView {
    pub id: int,
    pub title: Seq<char>,
    pub description: Seq<char>,
    pub created_at: int,
    pub updated_at: Option<int>,
}

impl View for Note {
    type V = NoteView;

    open spec fn view(&self) -> NoteView {
        NoteView {
            id: self.id as int,
            title: self.title@,
            description: self.description@,
            created_at: self.created_at.micros as int,
            updated_at: match self.updated_at {
                Some(at) => Some(at.micros as int),
                None => None,
            },
        }
    }
}

/// The views of a run of notes, in the same order.
pub open spec fn notes_view(notes: Seq<Note>) -> Seq<NoteView> {
    notes.map_values(|note: Note| note@)
}

} // verus!

use vstd::prelude::*;
use crate::link_matcher::RegexMatch;
use crate::note::{Note, NoteView};
use crate::range::Range;

verus! {

/// One place where the content of `note` mentions `target_note`.
#[derive(Clone, Debug)]
pub struct LinkMatch {
    pub position: Range,
    pub matched_text: String,
    pub note: Note,
    pub target_note: Note,
}

/// The mathematical value of a link match.
pub struct LinkMatchView {
    pub position: Range,
    pub matched_text: Seq<char>,
    pub note: NoteView,
    pub target_note: NoteView,
}

impl View for LinkMatch {
    type V = LinkMatchView;

    open spec fn view(&self) -> LinkMatchView {
        LinkMatchView {
            position: self.position,
            matched_text: self.matched_text@,
            note: self.note@,
            target_note: self.target_note@,
        }
    }
}

/// An occurrence `(start, end, text)` attributed to a source and a target note.
pub open spec fn project(m: (usize, usize, Seq<char>), note: NoteView, target_note: NoteView) -> LinkMatchView {
    LinkMatchView {
        position: Range { start: m.0, end: m.1 },
        matched_text: m.2,
        note,
        target_note,
    }
}

impl LinkMatch {
    pub fn new_from_match(regex_match: &RegexMatch, note: &Note, target_note: &Note) -> (r: LinkMatch)
        ensures
            r@ == project(regex_match@, note@, target_note@),
    {
        LinkMatch {
            position: regex_match.position,
            matched_text: regex_match.matched_text.clone(),
            note: note.duplicate(),
            target_note: target_note.duplicate(),
        }
    }
}

} // verus!

use vstd::prelude::*;
use crate::range::Range;

verus! {

/// A planned edit of a text: put `substitute` at `position`, linking to the
/// note at `target_note_path`.
#[derive(Clone, Debug)]
pub struct Replacement {
    position: Range,
    substitute: String,
    original_substitute: String,
    target_note_path: String,
}

impl Replacement {
    pub closed spec fn position_view(self) -> Range {
        self.position
    }

    pub closed spec fn substitute_view(self) -> Seq<char> {
        self.substitute@
    }

    pub closed spec fn original_substitute_view(self) -> Seq<char> {
        self.original_substitute@
    }

    pub closed spec fn target_note_path_view(self) -> Seq<char> {
        self.target_note_path@
    }

    pub fn new(position: Range, substitute: String, original_substitute: String, target_note_path: String) -> (r:
        Replacement)
        ensures
            r.position_view() == position,
            r.substitute_view() == substitute@,
            r.original_substitute_view() == original_substitute@,
            r.target_note_path_view() == target_note_path@,
    {
        Replacement { position, substitute, original_substitute, target_note_path }
    }

    pub fn position(&self) -> (r: Range)
        ensures
            r == self.position_view(),
    {
        self.position
    }

    pub fn substitute(&self) -> (r: String)
        ensures
            r@ == self.substitute_view(),
    {
        self.substitute.clone()
    }

    pub fn original_substitute(&self) -> (r: String)
        ensures
            r@ == self.original_substitute_view(),
    {
        self.original_substitute.clone()
    }

    pub fn target_note_path(&self) -> (r: String)
        ensures
            r@ == self.target_note_path_view(),
    {
        self.target_note_path.clone()
    }
}

} // verus!

use vstd::prelude::*;
use crate::link_match::{LinkMatch, LinkMatchView};
use crate::note::{Note, NoteView};

verus! {

/// The link matches found in one note: never empty.
pub struct LinkMatchingResult {
    note: Note,
    text_link_matches: Vec<LinkMatch>,
}

pub open spec fn link_matches_view(v: Seq<LinkMatch>) -> Seq<LinkMatchView> {
    v.map_values(|m: LinkMatch| m@)
}

impl LinkMatchingResult {
    #[verifier::type_invariant]
    spec fn inv(self) -> bool {
        self.text_link_matches@.len() > 0
    }

    /// The note that was searched.
    pub closed spec fn note_view(self) -> NoteView {
        self.note@
    }

    /// The matches found in it, in order.
    pub closed spec fn matches_view(self) -> Seq<LinkMatchView> {
        link_matches_view(self.text_link_matches@)
    }

    pub fn new(note: Note, text_link_matches_vec: Vec<LinkMatch>) -> (r: LinkMatchingResult)
        requires
            text_link_matches_vec@.len() > 0,
        ensures
            r.note_view() == note@,
            r.matches_view() == link_matches_view(text_link_matches_vec@),
    {
        LinkMatchingResult { note, text_link_matches: text_link_matches_vec }
    }

    pub fn note(&self) -> (r: Note)
        ensures
            r@ == self.note_view(),
    {
        self.note.duplicate()
    }

    pub fn text_link_matches(&self) -> (r: &Vec<LinkMatch>)
        ensures
            link_matches_view(r@) == self.matches_view(),
            r@.len() > 0,
    {
        proof {
            use_type_invariant(self);
        }
        &self.text_link_matches
    }

}

} // verus!

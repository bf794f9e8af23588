use vstd::prelude::*;

verus! {

/// A note: its title, its aliases in order, and the text of its body.
#[derive(Clone, Debug)]
pub struct Note {
    pub title: String,
    pub aliases: Vec<String>,
    pub content: String,
}

/// The mathematical value of a note.
pub struct NoteView {
    pub title: Seq<char>,
    pub aliases: Seq<Seq<char>>,
    pub content: Seq<char>,
}

pub open spec fn strings_view(v: Seq<String>) -> Seq<Seq<char>> {
    v.map_values(|s: String| s@)
}

impl View for Note {
    type V = NoteView;

    open spec fn view(&self) -> NoteView {
        NoteView { title: self.title@, aliases: strings_view(self.aliases@), content: self.content@ }
    }
}

/// A copy of a list of strings, element by element.
fn copy_strings(v: &Vec<String>) -> (r: Vec<String>)
    ensures
        strings_view(r@) == strings_view(v@),
{
    let mut r: Vec<String> = Vec::new();
    let mut i: usize = 0;
    while i < v.len()
        invariant
            i <= v@.len(),
            strings_view(r@) == strings_view(v@.take(i as int)),
        decreases v@.len() - i,
    {
        let s = v[i].clone();
        assert(s@ == v@[i as int]@);
        let ghost prev = r@;
        r.push(s);
        assert(strings_view(r@) =~= strings_view(prev).push(s@));
        assert(v@.take(i as int + 1) =~= v@.take(i as int).push(v@[i as int]));
        i = i + 1;
    }
    assert(v@.take(v@.len() as int) =~= v@);
    r
}

impl Note {
    pub fn new(title: String, aliases: Vec<String>, content: String) -> (r: Note)
        ensures
            r.title == title,
            r.aliases == aliases,
            r.content == content,
    {
        Note { title, aliases, content }
    }

    pub fn title(&self) -> (r: &String)
        ensures
            r@ == self.title@,
    {
        &self.title
    }

    pub fn aliases_vec(&self) -> (r: &Vec<String>)
        ensures
            r@ == self.aliases@,
    {
        &self.aliases
    }

    pub fn content(&self) -> (r: &String)
        ensures
            r@ == self.content@,
    {
        &self.content
    }

    /// A copy of the note with the same title, aliases and content.
    pub fn duplicate(&self) -> (r: Note)
        ensures
            r@ == self@,
    {
        Note { title: self.title.clone(), aliases: copy_strings(&self.aliases), content: self.content.clone() }
    }
}

} // verus!

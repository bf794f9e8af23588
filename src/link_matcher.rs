//! Matching the titles and aliases of candidate notes against the content of a note.
use vstd::prelude::*;
use vstd::string::StringExecFns;
use vstd::utf8::is_ascii_chars;
use crate::link_match::{LinkMatch, LinkMatchView, project};
use crate::link_matching_result::{LinkMatchingResult, link_matches_view};
use crate::note::{Note, NoteView, strings_view};
use crate::range::Range;
use crate::regex_engine::{escape_literal, escaped, found_view, regex_search, search_all};

verus! {

/// One match of a pattern in a text: where it lies and what it covers.
#[derive(Clone, Debug)]
pub struct RegexMatch {
    pub position: Range,
    pub matched_text: String,
}

impl View for RegexMatch {
    type V = (usize, usize, Seq<char>);

    open spec fn view(&self) -> (usize, usize, Seq<char>) {
        (self.position.start, self.position.end, self.matched_text@)
    }
}

impl RegexMatch {
    pub fn new_from_match(start: usize, end: usize, matched_text: String) -> (r: RegexMatch)
        ensures
            r@ == (start, end, matched_text@),
    {
        RegexMatch { position: Range::new_with_usize(start, end), matched_text }
    }
}

pub open spec fn regex_matches_view(v: Seq<RegexMatch>) -> Seq<(usize, usize, Seq<char>)> {
    v.map_values(|m: RegexMatch| m@)
}

/// The terms joined by `|`, in order.
pub open spec fn joined(terms: Seq<Seq<char>>) -> Seq<char>
    decreases terms.len(),
{
    if terms.len() == 0 {
        Seq::empty()
    } else if terms.len() == 1 {
        terms[0]
    } else {
        joined(terms.drop_last()) + seq!['|'] + terms.last()
    }
}

/// The terms as one group of alternatives: `(t1|t2|...)`.
pub open spec fn alternation(terms: Seq<Seq<char>>) -> Seq<char> {
    seq!['('] + joined(terms) + seq![')']
}

/// The literal texts a note is known by: its aliases in order, then its title.
pub open spec fn search_terms(n: NoteView) -> Seq<Seq<char>> {
    n.aliases.push(n.title)
}

/// The pattern that matches any of a note's names as a whole word:
/// `\b(alias1|...|title)\b`, each name escaped.
pub open spec fn note_pattern(n: NoteView) -> Seq<char> {
    let word_boundary = seq!['\\', 'b'];
    word_boundary + alternation(search_terms(n).map_values(|t: Seq<char>| escaped(t))) + word_boundary
}

/// The successful entries, in order.
pub open spec fn kept(s: Seq<Option<(usize, usize, Seq<char>)>>) -> Seq<(usize, usize, Seq<char>)>
    decreases s.len(),
{
    if s.len() == 0 {
        Seq::empty()
    } else if s.last() is Some {
        kept(s.drop_last()).push(s.last()->0)
    } else {
        kept(s.drop_last())
    }
}

/// The matches of a pattern in a text, failed attempts left out; none when
/// the pattern does not compile.
pub open spec fn scan(pattern: Seq<char>, text: Seq<char>) -> Seq<(usize, usize, Seq<char>)> {
    match regex_search(pattern, text) {
        Some(found) => kept(found),
        None => Seq::empty(),
    }
}

/// The link matches of one target note in the content of `note`.
pub open spec fn candidate_matches(note: NoteView, target_note: NoteView) -> Seq<LinkMatchView> {
    scan(note_pattern(target_note), note.content).map_values(
        |m: (usize, usize, Seq<char>)| project(m, note, target_note),
    )
}

/// What one candidate adds: nothing when it bears the note's own title.
pub open spec fn contribution(note: NoteView, target_note: NoteView) -> Seq<LinkMatchView> {
    if target_note.title == note.title {
        Seq::empty()
    } else {
        candidate_matches(note, target_note)
    }
}

/// The link matches of all candidates, candidate after candidate.
pub open spec fn all_link_matches(note: NoteView, candidates: Seq<NoteView>) -> Seq<LinkMatchView>
    decreases candidates.len(),
{
    if candidates.len() == 0 {
        Seq::empty()
    } else {
        all_link_matches(note, candidates.drop_last()) + contribution(note, candidates.last())
    }
}

/// The occurrence lies inside `text` and its text is exactly what it covers.
pub open spec fn covers(m: (usize, usize, Seq<char>), text: Seq<char>) -> bool {
    m.0 <= m.1 <= text.len() && m.2 == text.subrange(m.0 as int, m.1 as int)
}

/// The link match lies inside `text` and its text is exactly what it covers.
pub open spec fn link_covers(m: LinkMatchView, text: Seq<char>) -> bool {
    covers((m.position.start, m.position.end, m.matched_text), text)
}

pub open spec fn notes_view(v: Seq<Note>) -> Seq<NoteView> {
    v.map_values(|n: Note| n@)
}

/// Writes the strings as one group of alternatives: `(s1|s2|...)`.
pub fn concat_as_regex_string(strings: &Vec<String>) -> (r: String)
    ensures
        r@ == alternation(strings_view(strings@)),
{
    let ghost terms = strings_view(strings@);
    proof {
        reveal_strlit("(");
        reveal_strlit(")");
    }
    let mut r = String::from_str("(");
    let mut i: usize = 0;
    while i < strings.len()
        invariant
            i <= strings@.len(),
            terms == strings_view(strings@),
            r@ == seq!['('] + joined(terms.take(i as int)),
        decreases strings@.len() - i,
    {
        let ghost prev = r@;
        if i > 0 {
            r.append("|");
        }
        r.append(strings[i].as_str());
        proof {
            let t = terms.take(i as int + 1);
            assert(t.drop_last() =~= terms.take(i as int));
            assert(t.last() == strings@[i as int]@);
            if i == 0 {
                assert(joined(t) == t[0]);
                assert(terms.take(0).len() == 0);
                assert(prev =~= seq!['(']);
                assert(r@ =~= seq!['('] + joined(t));
            } else {
                assert(joined(t) == joined(t.drop_last()) + seq!['|'] + t.last());
                reveal_strlit("|");
                assert("|"@ =~= seq!['|']);
                assert(r@ =~= seq!['('] + joined(t));
            }
        }
        i = i + 1;
    }
    assert(terms.take(strings@.len() as int) =~= terms);
    r.append(")");
    assert(r@ =~= alternation(terms));
    r
}

/// The whole-word pattern of a note's names.
fn link_pattern(note: &Note) -> (r: String)
    ensures
        r@ == note_pattern(note@),
{
    let ghost terms = search_terms(note@).map_values(|t: Seq<char>| escaped(t));
    let aliases = note.aliases_vec();
    let mut escaped_search_strings: Vec<String> = Vec::new();
    let mut i: usize = 0;
    while i < aliases.len()
        invariant
            i <= aliases@.len(),
            aliases@ == note.aliases@,
            strings_view(escaped_search_strings@) == terms.take(i as int),
            terms == search_terms(note@).map_values(|t: Seq<char>| escaped(t)),
        decreases aliases@.len() - i,
    {
        let e = escape_literal(aliases[i].as_str());
        assert(search_terms(note@)[i as int] == aliases@[i as int]@);
        assert(e@ == terms[i as int]);
        let ghost prev = escaped_search_strings@;
        escaped_search_strings.push(e);
        assert(strings_view(escaped_search_strings@) =~= strings_view(prev).push(e@));
        assert(strings_view(escaped_search_strings@) =~= terms.take(i as int + 1));
        i = i + 1;
    }
    let escaped_title = escape_literal(note.title().as_str());
    let ghost prev = escaped_search_strings@;
    escaped_search_strings.push(escaped_title);
    assert(terms.len() == aliases@.len() + 1);
    assert(terms.take(aliases@.len() as int).push(terms.last()) =~= terms);
    assert(strings_view(escaped_search_strings@) =~= strings_view(prev).push(escaped_title@));
    assert(strings_view(escaped_search_strings@) =~= terms);
    let regex_string = concat_as_regex_string(&escaped_search_strings);
    proof {
        reveal_strlit("\\b");
    }
    let mut r = String::from_str("\\b");
    r.append(regex_string.as_str());
    r.append("\\b");
    assert(r@ =~= note_pattern(note@));
    r
}

/// The matches of one target note's names in the content of one note.
struct LinkMatcherResult<'m> {
    regex_matches: Vec<RegexMatch>,
    note: &'m Note,
    target_note: &'m Note,
}

impl<'m> LinkMatcherResult<'m> {
    /// Searches the content of `note` with the pattern of `target_note`; a
    /// failed match attempt is left out.
    fn new(note: &'m Note, target_note: &'m Note) -> (r: LinkMatcherResult<'m>)
        ensures
            regex_matches_view(r.regex_matches@) == scan(note_pattern(target_note@), note@.content),
            r.note == note,
            r.target_note == target_note,
            is_ascii_chars(note@.content) ==> forall|k: int|
                0 <= k < r.regex_matches@.len() ==> covers(#[trigger] r.regex_matches@[k]@, note@.content),
    {
        let pattern = link_pattern(target_note);
        let found = search_all(pattern.as_str(), note.content().as_str());
        let mut regex_matches: Vec<RegexMatch> = Vec::new();
        match found {
            None => {},
            Some(v) => {
                let ghost fv = found_view(v@);
                let mut i: usize = 0;
                while i < v.len()
                    invariant
                        i <= v@.len(),
                        fv == found_view(v@),
                        regex_matches_view(regex_matches@) == kept(fv.take(i as int)),
                        is_ascii_chars(note@.content) ==> forall|k: int|
                            0 <= k < regex_matches@.len() ==> covers(#[trigger] regex_matches@[k]@, note@.content),
                        is_ascii_chars(note@.content) ==> forall|k: int|
                            0 <= k < v@.len() && (#[trigger] v@[k]) is Some ==> {
                                let m = v@[k]->0;
                                m.0 <= m.1 <= note@.content.len() && m.2@ == note@.content.subrange(m.0 as int, m.1 as int)
                            },
                    decreases v@.len() - i,
                {
                    let ghost prev = regex_matches@;
                    let ghost t = fv.take(i as int + 1);
                    assert(t.drop_last() =~= fv.take(i as int));
                    match &v[i] {
                        Some(m) => {
                            let rm = RegexMatch::new_from_match(m.0, m.1, m.2.clone());
                            regex_matches.push(rm);
                            assert(regex_matches_view(regex_matches@) =~= regex_matches_view(prev).push(rm@));
                            assert(regex_matches@[regex_matches@.len() - 1] == rm);
                        },
                        None => {},
                    }
                    i = i + 1;
                }
                assert(fv.take(v@.len() as int) =~= fv);
            },
        }
        LinkMatcherResult { regex_matches, note, target_note }
    }

    /// Attributes each match to the searched note and the target note.
    fn into_link_matches(self) -> (r: Vec<LinkMatch>)
        ensures
            link_matches_view(r@) == regex_matches_view(self.regex_matches@).map_values(
                |m: (usize, usize, Seq<char>)| project(m, self.note@, self.target_note@),
            ),
    {
        let ghost expected = regex_matches_view(self.regex_matches@).map_values(
            |m: (usize, usize, Seq<char>)| project(m, self.note@, self.target_note@),
        );
        let mut text_link_matches: Vec<LinkMatch> = Vec::new();
        let mut i: usize = 0;
        while i < self.regex_matches.len()
            invariant
                i <= self.regex_matches@.len(),
                expected == regex_matches_view(self.regex_matches@).map_values(
                    |m: (usize, usize, Seq<char>)| project(m, self.note@, self.target_note@),
                ),
                link_matches_view(text_link_matches@) == expected.take(i as int),
            decreases self.regex_matches@.len() - i,
        {
            let lm = LinkMatch::new_from_match(&self.regex_matches[i], self.note, self.target_note);
            let ghost prev = text_link_matches@;
            text_link_matches.push(lm);
            assert(link_matches_view(text_link_matches@) =~= link_matches_view(prev).push(lm@));
            assert(expected.take(i as int + 1) =~= expected.take(i as int).push(expected[i as int]));
            i = i + 1;
        }
        assert(expected.take(self.regex_matches@.len() as int) =~= expected);
        text_link_matches
    }
}

/// Finds, in the content of `note_to_check`, every whole-word occurrence of
/// the title or an alias of each candidate, candidate by candidate in the
/// given order and in content order within one candidate. A candidate with
/// the title of `note_to_check` is skipped. Returns `None` when nothing is
/// found, else all the matches with a copy of `note_to_check`.
pub fn get_link_matches(note_to_check: &Note, target_note_candidates: &[Note]) -> (r: Option<
    LinkMatchingResult,
>)
    ensures
        r is None <==> all_link_matches(note_to_check@, notes_view(target_note_candidates@)).len() == 0,
        r is Some ==> r->0.matches_view().len() > 0,
        r is Some ==> r->0.note_view() == note_to_check@,
        r is Some && is_ascii_chars(note_to_check@.content) ==> forall|k: int|
            0 <= k < r->0.matches_view().len() ==> link_covers(
                #[trigger] r->0.matches_view()[k],
                note_to_check@.content,
            ),
        r is Some ==> r->0.matches_view() == all_link_matches(
            note_to_check@,
            notes_view(target_note_candidates@),
        ),
{
    let ghost cands = notes_view(target_note_candidates@);
    let mut text_link_matches: Vec<LinkMatch> = Vec::new();
    let mut i: usize = 0;
    while i < target_note_candidates.len()
        invariant
            i <= target_note_candidates@.len(),
            cands == notes_view(target_note_candidates@),
            link_matches_view(text_link_matches@) == all_link_matches(note_to_check@, cands.take(i as int)),
            is_ascii_chars(note_to_check@.content) ==> forall|k: int|
                0 <= k < text_link_matches@.len() ==> link_covers(#[trigger] text_link_matches@[k]@, note_to_check@.content),
        decreases target_note_candidates@.len() - i,
    {
        let target_note = &target_note_candidates[i];
        let ghost prev = text_link_matches@;
        let ghost t = cands.take(i as int + 1);
        assert(t.drop_last() =~= cands.take(i as int));
        assert(t.last() == target_note@);
        if !target_note.title().eq(note_to_check.title()) {
            let result = LinkMatcherResult::new(note_to_check, target_note);
            let ghost rms = result.regex_matches@;
            let mut found = result.into_link_matches();
            let ghost added = found@;
            assert forall|k: int| 0 <= k < added.len() implies added[k]@ == project(rms[k]@, note_to_check@, target_note@) by {
                assert(link_matches_view(added).len() == added.len());
                assert(regex_matches_view(rms).len() == rms.len());
                assert(link_matches_view(added)[k] == added[k]@);
                assert(regex_matches_view(rms)[k] == rms[k]@);
            }
            text_link_matches.append(&mut found);
            assert(link_matches_view(text_link_matches@) =~= link_matches_view(prev) + link_matches_view(added));
            assert(link_matches_view(added) =~= candidate_matches(note_to_check@, target_note@));
        } else {
            assert(contribution(note_to_check@, target_note@) =~= Seq::empty());
            assert(link_matches_view(text_link_matches@) =~= link_matches_view(prev) + Seq::empty());
        }
        i = i + 1;
    }
    assert(cands.take(target_note_candidates@.len() as int) =~= cands);
    if text_link_matches.len() > 0 {
        Some(LinkMatchingResult::new(note_to_check.duplicate(), text_link_matches))
    } else {
        None
    }
}

/// Searching a note against a list of candidates made of two parts gives the
/// matches of the first part followed by those of the second.
pub proof fn lemma_all_link_matches_concat(note: NoteView, first: Seq<NoteView>, second: Seq<NoteView>)
    ensures
        all_link_matches(note, first + second) == all_link_matches(note, first) + all_link_matches(note, second),
    decreases second.len(),
{
    if second.len() == 0 {
        assert(first + second =~= first);
        assert(all_link_matches(note, first) + all_link_matches(note, second) =~= all_link_matches(note, first));
    } else {
        let both = first + second;
        assert(both.drop_last() =~= first + second.drop_last());
        assert(both.last() == second.last());
        lemma_all_link_matches_concat(note, first, second.drop_last());
        assert(all_link_matches(note, both) =~= all_link_matches(note, first) + all_link_matches(note, second));
    }
}

/// A note is never linked to itself: searched against itself alone, it yields
/// no match, whatever its content.
pub proof fn lemma_self_excluded(note: NoteView)
    ensures
        all_link_matches(note, seq![note]).len() == 0,
{
    let one = seq![note];
    assert(one.drop_last() =~= Seq::<NoteView>::empty());
    assert(one.last() == note);
    assert(all_link_matches(note, Seq::<NoteView>::empty()).len() == 0);
    assert(contribution(note, note).len() == 0);
}

/// With candidates `[b, c]`, neither bearing the note's title, all matches of
/// `b` in content order come first, then all matches of `c` in content order.
pub proof fn lemma_candidate_order(note: NoteView, b: NoteView, c: NoteView)
    requires
        b.title != note.title,
        c.title != note.title,
    ensures
        all_link_matches(note, seq![b, c]) == candidate_matches(note, b) + candidate_matches(note, c),
{
    let bc = seq![b, c];
    assert(bc.drop_last() =~= seq![b]);
    let one = seq![b];
    assert(one.drop_last() =~= Seq::<NoteView>::empty());
    assert(one.last() == b);
    assert(bc.last() == c);
    assert(all_link_matches(note, Seq::<NoteView>::empty()).len() == 0);
    assert(all_link_matches(note, one) =~= candidate_matches(note, b));
}

/// Matches are not merged across candidates: when a match of `b` and a match of
/// `c` cover the same span, the result for `[b, c]` holds both, one attributed
/// to each candidate.
pub proof fn lemma_overlap_kept(note: NoteView, b: NoteView, c: NoteView, i: int, j: int)
    requires
        b.title != note.title,
        c.title != note.title,
        0 <= i < candidate_matches(note, b).len(),
        0 <= j < candidate_matches(note, c).len(),
        candidate_matches(note, b)[i].position == candidate_matches(note, c)[j].position,
    ensures
        ({
            let all = all_link_matches(note, seq![b, c]);
            let k = candidate_matches(note, b).len() + j;
            &&& i < k < all.len()
            &&& all[i].position == all[k].position
            &&& all[i].target_note == b
            &&& all[k].target_note == c
        }),
{
    lemma_candidate_order(note, b, c);
}

} // verus!

use note_linker::link_match::LinkMatch;
use note_linker::link_matcher::{concat_as_regex_string, get_link_matches, RegexMatch};
use note_linker::note::Note;
use note_linker::range::Range;
use note_linker::replacement::Replacement;

fn note(title: &str, aliases: &[&str], content: &str) -> Note {
    Note::new(
        title.to_string(),
        aliases.iter().map(|a| a.to_string()).collect(),
        content.to_string(),
    )
}

fn spans(matches: &[LinkMatch]) -> Vec<(usize, usize, String, String)> {
    matches
        .iter()
        .map(|m| (m.position.start, m.position.end, m.matched_text.clone(), m.target_note.title.clone()))
        .collect()
}

#[test]
fn whole_word_title_is_found() {
    let a = note("Notes", &[], "We met about Project Alpha yesterday.");
    let b = note("Project Alpha", &[], "");
    let result = get_link_matches(&a, &[b]).expect("a match");
    let found = spans(result.text_link_matches());
    assert_eq!(found, vec![(13, 26, "Project Alpha".to_string(), "Project Alpha".to_string())]);
    assert_eq!(&a.content[13..26], "Project Alpha");
}

#[test]
fn note_never_links_to_itself() {
    let a = note("Alpha", &[], "Alpha mentions Alpha twice.");
    assert!(get_link_matches(&a, &[a.clone()]).is_none());
}

#[test]
fn same_title_candidate_is_skipped_among_others() {
    let a = note("Alpha", &[], "Alpha and Beta");
    let twin = note("Alpha", &["Beta"], "other text");
    let beta = note("Beta", &[], "");
    let result = get_link_matches(&a, &[twin, beta]).expect("a match");
    assert_eq!(spans(result.text_link_matches()), vec![(10, 14, "Beta".to_string(), "Beta".to_string())]);
}

#[test]
fn substring_of_a_word_is_rejected() {
    let a = note("Shop", &[], "the catalog is long");
    let cat = note("cat", &[], "");
    assert!(get_link_matches(&a, &[cat]).is_none());
}

#[test]
fn whole_word_kept_beside_rejected_substring() {
    let a = note("Shop", &[], "a cat in the catalog");
    let cat = note("cat", &[], "");
    let result = get_link_matches(&a, &[cat]).expect("a match");
    assert_eq!(spans(result.text_link_matches()), vec![(2, 5, "cat".to_string(), "cat".to_string())]);
}

#[test]
fn plus_signs_are_literal() {
    let lang = note("C++", &[], "");
    let a = note("Shop", &[], "a C++x b");
    let result = get_link_matches(&a, &[lang.clone()]).expect("a match");
    assert_eq!(spans(result.text_link_matches()), vec![(2, 5, "C++".to_string(), "C++".to_string())]);
    let b = note("Shop", &[], "see CCC here");
    assert!(get_link_matches(&b, &[lang]).is_none());
}

#[test]
fn parentheses_are_literal() {
    let draft = note("(draft)", &[], "");
    let a = note("Shop", &[], "x(draft)y");
    let result = get_link_matches(&a, &[draft.clone()]).expect("a match");
    assert_eq!(spans(result.text_link_matches()), vec![(1, 8, "(draft)".to_string(), "(draft)".to_string())]);
    let b = note("Shop", &[], "see draft here");
    assert!(get_link_matches(&b, &[draft]).is_none());
}

#[test]
fn no_occurrence_gives_no_result() {
    let a = note("Shop", &[], "nothing to see");
    let b = note("Alpha", &["Beta"], "");
    let c = note("Gamma", &[], "");
    assert!(get_link_matches(&a, &[b, c]).is_none());
    assert!(get_link_matches(&a, &[]).is_none());
}

#[test]
fn candidates_keep_their_order() {
    let a = note("Shop", &[], "Beta then Alpha then Beta");
    let beta = note("Beta", &[], "");
    let alpha = note("Alpha", &[], "");
    let result = get_link_matches(&a, &[beta, alpha]).expect("matches");
    assert_eq!(
        spans(result.text_link_matches()),
        vec![
            (0, 4, "Beta".to_string(), "Beta".to_string()),
            (21, 25, "Beta".to_string(), "Beta".to_string()),
            (10, 15, "Alpha".to_string(), "Alpha".to_string()),
        ]
    );
}

#[test]
fn equal_names_give_one_match_per_candidate() {
    let a = note("Shop", &[], "Alpha");
    let b = note("Alpha", &[], "");
    let c = note("Gamma", &["Alpha"], "");
    let result = get_link_matches(&a, &[b, c]).expect("matches");
    assert_eq!(
        spans(result.text_link_matches()),
        vec![
            (0, 5, "Alpha".to_string(), "Alpha".to_string()),
            (0, 5, "Alpha".to_string(), "Gamma".to_string()),
        ]
    );
}

#[test]
fn project_alpha_example() {
    let source = note("Source", &[], "See Project Alpha for details.");
    let target = note("Project Alpha", &[], "");
    let result = get_link_matches(&source, &[target]).expect("a match");
    let matches = result.text_link_matches();
    assert_eq!(matches.len(), 1);
    assert_eq!(matches[0].position, Range::new_with_usize(4, 17));
    assert_eq!(matches[0].matched_text, "Project Alpha");
    assert_eq!(result.note().content, "See Project Alpha for details.");
    assert_eq!(matches[0].note.title, "Source");
}

#[test]
fn alphabetical_example() {
    let source = note("Source", &[], "alphabetical order");
    let target = note("Alpha", &[], "");
    assert!(get_link_matches(&source, &[target]).is_none());
}

#[test]
fn aliases_come_before_the_title() {
    let source = note("Source", &[], "Project Alpha and Project");
    let target = note("Project", &["Project Alpha"], "");
    let result = get_link_matches(&source, &[target]).expect("matches");
    assert_eq!(
        spans(result.text_link_matches()),
        vec![
            (0, 13, "Project Alpha".to_string(), "Project".to_string()),
            (18, 25, "Project".to_string(), "Project".to_string()),
        ]
    );
}

#[test]
fn alias_is_matched() {
    let source = note("Source", &[], "ask PA today");
    let target = note("Project Alpha", &["PA"], "");
    let result = get_link_matches(&source, &[target]).expect("a match");
    assert_eq!(spans(result.text_link_matches()), vec![(4, 6, "PA".to_string(), "Project Alpha".to_string())]);
}

#[test]
fn regex_string_groups_alternatives() {
    let two = vec!["a".to_string(), "b\\.c".to_string()];
    assert_eq!(concat_as_regex_string(&two), "(a|b\\.c)");
    assert_eq!(concat_as_regex_string(&vec!["only".to_string()]), "(only)");
    assert_eq!(concat_as_regex_string(&vec![]), "()");
}

#[test]
fn regex_match_records_span_and_text() {
    let m = RegexMatch::new_from_match(3, 7, "word".to_string());
    assert_eq!(m.position, Range { start: 3, end: 7 });
    assert_eq!(m.matched_text, "word");
}

#[test]
fn replacement_keeps_its_fields() {
    let r = Replacement::new(
        Range::new_with_usize(2, 9),
        "[[Alpha]]".to_string(),
        "Alpha".to_string(),
        "notes/Alpha.md".to_string(),
    );
    assert_eq!(r.position(), Range { start: 2, end: 9 });
    assert_eq!(r.substitute(), "[[Alpha]]");
    assert_eq!(r.original_substitute(), "Alpha");
    assert_eq!(r.target_note_path(), "notes/Alpha.md");
}

#[test]
fn note_accessors_return_fields() {
    let n = note("T", &["x", "y"], "body");
    assert_eq!(n.title(), "T");
    assert_eq!(n.aliases_vec(), &vec!["x".to_string(), "y".to_string()]);
    assert_eq!(n.content(), "body");
    let d = n.duplicate();
    assert_eq!(d.aliases, n.aliases);
}

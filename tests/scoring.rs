use dual_sample::score::{chars_of, edit_distance_of, score, score_chars, to_upper};

#[test]
fn empty_texts_agree_fully() {
    assert_eq!(score("", ""), 100);
}

#[test]
fn text_agrees_fully_with_itself() {
    assert_eq!(score("Pack bags", "Pack bags"), 100);
    assert_eq!(score("x", "x"), 100);
}

#[test]
fn score_is_symmetric() {
    assert_eq!(score("kitten", "sitting"), score("sitting", "kitten"));
    assert_eq!(score("", "abc"), score("abc", ""));
}

#[test]
fn score_follows_the_formula() {
    // distance 3, longer length 7: 100 * 4 / 7 rounded down
    assert_eq!(score("kitten", "sitting"), 57);
    assert_eq!(score("abc", "xyz"), 0);
    assert_eq!(score("", "abc"), 0);
    assert_eq!(score("abcd", "abce"), 75);
}

#[test]
fn more_edits_never_score_higher() {
    let one = score("abcd", "abce");
    let two = score("abcd", "abxy");
    let three = score("abcd", "axyz");
    assert!(three <= two && two <= one);
}

#[test]
fn distance_counts_single_character_edits() {
    let a = chars_of("kitten");
    let b = chars_of("sitting");
    assert_eq!(edit_distance_of(&a, &b), 3);
    assert_eq!(edit_distance_of(&b, &a), 3);
    assert_eq!(edit_distance_of(&a, &chars_of("")), 6);
    assert_eq!(edit_distance_of(&chars_of("flaw"), &chars_of("lawn")), 2);
}

#[test]
fn distance_counts_characters_not_bytes() {
    assert_eq!(edit_distance_of(&chars_of("é"), &chars_of("e")), 1);
    assert_eq!(score("é", "e"), 0);
}

#[test]
fn upper_case_touches_ascii_letters_only() {
    let u = to_upper(&chars_of("Pack bags, é!"));
    let s: String = u.into_iter().collect();
    assert_eq!(s, "PACK BAGS, é!");
}

#[test]
fn score_chars_matches_score() {
    assert_eq!(score_chars(&chars_of("flaw"), &chars_of("lawn")), score("flaw", "lawn"));
    assert_eq!(score("flaw", "lawn"), 50);
}

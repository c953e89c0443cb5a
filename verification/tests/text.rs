use alpha::text::{capitalize_first, to_ascii_upper};

#[test]
fn a_name_gets_a_capital() {
    assert_eq!(capitalize_first("alpha"), "Alpha");
    assert_eq!(capitalize_first("mu"), "Mu");
    assert_eq!(capitalize_first("a"), "A");
}

#[test]
fn the_empty_string_stays_empty() {
    assert_eq!(capitalize_first(""), "");
}

#[test]
fn only_the_first_letter_changes() {
    assert_eq!(capitalize_first("alpha beta"), "Alpha beta");
    assert_eq!(capitalize_first("aLPHA"), "ALPHA");
}

#[test]
fn a_capital_or_a_digit_is_kept() {
    assert_eq!(capitalize_first("Alpha"), "Alpha");
    assert_eq!(capitalize_first("1st"), "1st");
}

#[test]
fn a_first_character_outside_ascii_is_kept() {
    assert_eq!(capitalize_first("αlpha"), "αlpha");
    assert_eq!(capitalize_first("éta"), "éta");
}

#[test]
fn ascii_capitals_of_single_characters() {
    assert_eq!(to_ascii_upper('a'), 'A');
    assert_eq!(to_ascii_upper('z'), 'Z');
    assert_eq!(to_ascii_upper('m'), 'M');
    assert_eq!(to_ascii_upper('A'), 'A');
    assert_eq!(to_ascii_upper('`'), '`');
    assert_eq!(to_ascii_upper('{'), '{');
    assert_eq!(to_ascii_upper('ω'), 'ω');
}

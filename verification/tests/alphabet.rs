use alpha::alphabet::{Alphabet, Letter, NameError};
use alpha::dataset::GREEK_ALPHABET_JSON;
use alpha::document::{load_value, read_entries, ParseError};

fn letter(name: &str, lower: &str, upper: &str) -> Letter {
    Letter { name: name.to_string(), lower: lower.to_string(), upper: upper.to_string() }
}

fn greek() -> Alphabet {
    Alphabet::import(GREEK_ALPHABET_JSON).unwrap()
}

#[test]
fn the_dataset_holds_twenty_four_letters_in_order() {
    let alphabet = greek();
    let names: Vec<&str> = alphabet.letters.iter().map(|l| l.name.as_str()).collect();
    assert_eq!(
        names,
        vec![
            "alpha", "beta", "gamma", "delta", "epsilon", "zeta", "eta", "theta", "iota",
            "kappa", "lambda", "mu", "nu", "xi", "omicron", "pi", "rho", "sigma", "tau",
            "upsilon", "phi", "chi", "psi", "omega",
        ]
    );
    assert_eq!(alphabet.len(), 24);
    assert_eq!(alphabet.letters[0], letter("alpha", "α", "Α"));
    assert_eq!(alphabet.letters[23], letter("omega", "ω", "Ω"));
    assert_eq!(alphabet.letters[17], letter("sigma", "σ", "Σ"));
}

#[test]
fn every_letter_is_found_under_its_own_name() {
    let alphabet = greek();
    for (i, l) in alphabet.letters.iter().enumerate() {
        assert_eq!(alphabet.find_exact(&l.name), Some(l));
        assert_eq!(alphabet.position(&l.name), Some(i));
    }
}

#[test]
fn lookup_is_case_sensitive() {
    let alphabet = greek();
    assert_eq!(alphabet.find_exact("Alpha"), None);
    assert_eq!(alphabet.find_exact("ALPHA"), None);
    assert_eq!(alphabet.position("Alpha"), None);
}

#[test]
fn an_unknown_or_empty_name_is_not_found() {
    let alphabet = greek();
    assert_eq!(alphabet.find_exact("alfa"), None);
    assert_eq!(alphabet.find_exact(""), None);
    assert_eq!(alphabet.find_exact("alph"), None);
    assert_eq!(alphabet.find_exact("alphaa"), None);
}

#[test]
fn lookup_returns_the_first_of_two_letters_with_one_name() {
    let alphabet = Alphabet {
        letters: vec![letter("a", "1", "2"), letter("b", "3", "4"), letter("a", "5", "6")],
    };
    assert_eq!(alphabet.find_exact("a"), Some(&letter("a", "1", "2")));
    assert_eq!(alphabet.position("a"), Some(0));
    assert_eq!(alphabet.position("b"), Some(1));
}

#[test]
fn loading_twice_gives_equal_alphabets() {
    assert_eq!(Alphabet::import(GREEK_ALPHABET_JSON), Alphabet::import(GREEK_ALPHABET_JSON));
    let text = "{\"letters\": [{\"name\": \"a\", \"lower\": \"b\", \"upper\": \"c\"}]}";
    assert_eq!(Alphabet::import(text), Alphabet::import(text));
    let broken = "{\"letters\": [{\"name\": \"a\"}]}";
    assert_eq!(Alphabet::import(broken), Alphabet::import(broken));
}

#[test]
fn a_small_document_loads() {
    let text = "{\"letters\": [{\"name\": \"mu\", \"lower\": \"μ\", \"upper\": \"Μ\"}, \
                {\"name\": \"nu\", \"lower\": \"ν\", \"upper\": \"Ν\"}]}";
    let alphabet = Alphabet::import(text).unwrap();
    assert_eq!(alphabet, Alphabet { letters: vec![letter("mu", "μ", "Μ"), letter("nu", "ν", "Ν")] });
}

#[test]
fn an_empty_list_loads_as_an_empty_alphabet() {
    let alphabet = Alphabet::import("{\"letters\": []}").unwrap();
    assert_eq!(alphabet.len(), 0);
    assert_eq!(alphabet.find_exact("alpha"), None);
}

#[test]
fn members_beyond_the_three_are_ignored() {
    let text = "{\"version\": 3, \"letters\": [{\"name\": \"mu\", \"lower\": \"μ\", \
                \"upper\": \"Μ\", \"ordinal\": 12, \"note\": null}], \"more\": [1, 2]}";
    let alphabet = Alphabet::import(text).unwrap();
    assert_eq!(alphabet, Alphabet { letters: vec![letter("mu", "μ", "Μ")] });
}

#[test]
fn escapes_in_strings_are_decoded() {
    let text = "{\"letters\": [{\"name\": \"mu\", \"lower\": \"\\u03bc\", \"upper\": \"\\u039c\"}]}";
    let alphabet = Alphabet::import(text).unwrap();
    assert_eq!(alphabet.letters[0], letter("mu", "μ", "Μ"));
}

#[test]
fn text_that_is_not_json_is_a_syntax_error() {
    for text in ["", "{", "{\"letters\": [", "letters", "{\"letters\": []} trailing"] {
        match Alphabet::import(text) {
            Err(ParseError::Syntax(message)) => assert!(!message.is_empty()),
            other => panic!("expected a syntax error, got {:?}", other),
        }
    }
}

#[test]
fn the_syntax_message_says_where() {
    match Alphabet::import("{\"letters\": [}") {
        Err(ParseError::Syntax(message)) => {
            assert!(message.contains("line 1"));
            assert!(message.contains("column 14"));
        }
        other => panic!("expected a syntax error, got {:?}", other),
    }
}

#[test]
fn a_document_without_a_list_of_letters_is_refused() {
    assert_eq!(Alphabet::import("{}"), Err(ParseError::Letters));
    assert_eq!(Alphabet::import("{\"letter\": []}"), Err(ParseError::Letters));
    assert_eq!(Alphabet::import("{\"letters\": {}}"), Err(ParseError::Letters));
    assert_eq!(Alphabet::import("{\"letters\": \"alpha\"}"), Err(ParseError::Letters));
    assert_eq!(Alphabet::import("{\"letters\": null}"), Err(ParseError::Letters));
    assert_eq!(Alphabet::import("[]"), Err(ParseError::Letters));
    assert_eq!(Alphabet::import("12"), Err(ParseError::Letters));
}

#[test]
fn an_entry_that_lacks_a_field_is_refused() {
    let no_upper = "{\"letters\": [{\"name\": \"mu\", \"lower\": \"μ\", \"upper\": \"Μ\"}, \
                    {\"name\": \"nu\", \"lower\": \"ν\"}]}";
    assert_eq!(Alphabet::import(no_upper), Err(ParseError::Entry(1)));
    let no_name = "{\"letters\": [{\"lower\": \"μ\", \"upper\": \"Μ\"}]}";
    assert_eq!(Alphabet::import(no_name), Err(ParseError::Entry(0)));
    let no_lower = "{\"letters\": [{\"name\": \"mu\", \"upper\": \"Μ\"}]}";
    assert_eq!(Alphabet::import(no_lower), Err(ParseError::Entry(0)));
}

#[test]
fn an_entry_with_a_field_of_the_wrong_type_is_refused() {
    let number = "{\"letters\": [{\"name\": \"mu\", \"lower\": 3, \"upper\": \"Μ\"}]}";
    assert_eq!(Alphabet::import(number), Err(ParseError::Entry(0)));
    let null = "{\"letters\": [{\"name\": null, \"lower\": \"μ\", \"upper\": \"Μ\"}]}";
    assert_eq!(Alphabet::import(null), Err(ParseError::Entry(0)));
    let not_an_object = "{\"letters\": [{\"name\": \"mu\", \"lower\": \"μ\", \"upper\": \"Μ\"}, \
                         {\"name\": \"nu\", \"lower\": \"ν\", \"upper\": \"Ν\"}, \"xi\"]}";
    assert_eq!(Alphabet::import(not_an_object), Err(ParseError::Entry(2)));
}

#[test]
fn the_first_faulty_entry_is_reported() {
    let text = "{\"letters\": [{\"name\": \"mu\", \"lower\": \"μ\", \"upper\": \"Μ\"}, {}, 7]}";
    assert_eq!(Alphabet::import(text), Err(ParseError::Entry(1)));
}

#[test]
fn a_faulty_entry_goes_before_a_faulty_name() {
    let text = "{\"letters\": [{\"name\": \"\", \"lower\": \"μ\", \"upper\": \"Μ\"}, {}]}";
    assert_eq!(Alphabet::import(text), Err(ParseError::Entry(1)));
}

#[test]
fn an_empty_name_is_refused() {
    let text = "{\"letters\": [{\"name\": \"mu\", \"lower\": \"μ\", \"upper\": \"Μ\"}, \
                {\"name\": \"\", \"lower\": \"ν\", \"upper\": \"Ν\"}]}";
    assert_eq!(Alphabet::import(text), Err(ParseError::Name(NameError::Empty(1))));
}

#[test]
fn a_repeated_name_is_refused() {
    let text = "{\"letters\": [{\"name\": \"mu\", \"lower\": \"μ\", \"upper\": \"Μ\"}, \
                {\"name\": \"nu\", \"lower\": \"ν\", \"upper\": \"Ν\"}, \
                {\"name\": \"mu\", \"lower\": \"m\", \"upper\": \"M\"}]}";
    assert_eq!(Alphabet::import(text), Err(ParseError::Name(NameError::Repeated(2))));
}

#[test]
fn new_accepts_valid_names_and_keeps_the_order() {
    let letters = vec![letter("b", "1", "2"), letter("a", "3", "4")];
    let alphabet = Alphabet::new(letters.clone()).unwrap();
    assert_eq!(alphabet.letters, letters);
    assert_eq!(Alphabet::new(Vec::new()), Ok(Alphabet { letters: Vec::new() }));
}

#[test]
fn new_reports_the_first_faulty_name() {
    let repeated = vec![letter("a", "", ""), letter("b", "", ""), letter("b", "", ""), letter("", "", "")];
    assert_eq!(Alphabet::new(repeated), Err(NameError::Repeated(2)));
    let empty = vec![letter("a", "", ""), letter("", "", ""), letter("a", "", "")];
    assert_eq!(Alphabet::new(empty), Err(NameError::Empty(1)));
    let both_empty = vec![letter("", "", ""), letter("", "", "")];
    assert_eq!(Alphabet::new(both_empty), Err(NameError::Empty(0)));
}

#[test]
fn names_that_differ_only_in_case_are_different_names() {
    let letters = vec![letter("mu", "μ", "Μ"), letter("Mu", "μ", "Μ")];
    assert!(Alphabet::new(letters).is_ok());
}

#[test]
fn a_cloned_letter_is_equal() {
    let l = letter("xi", "ξ", "Ξ");
    assert_eq!(l.clone(), l);
}

#[test]
fn a_parsed_value_loads_like_its_text() {
    let text = "{\"letters\": [{\"name\": \"pi\", \"lower\": \"π\", \"upper\": \"Π\"}]}";
    let value: serde_json::Value = serde_json::from_str(text).unwrap();
    assert_eq!(load_value(&value), Alphabet::import(text));
    assert_eq!(load_value(&serde_json::Value::Null), Err(ParseError::Letters));
    let greek_value: serde_json::Value = serde_json::from_str(GREEK_ALPHABET_JSON).unwrap();
    assert_eq!(load_value(&greek_value), Ok(greek()));
}

#[test]
fn entries_are_read_in_order() {
    let entries: Vec<serde_json::Value> = serde_json::from_str(
        "[{\"name\": \"pi\", \"lower\": \"π\", \"upper\": \"Π\"}, \
          {\"name\": \"pi\", \"lower\": \"p\", \"upper\": \"P\"}]",
    )
    .unwrap();
    assert_eq!(read_entries(&entries), Ok(vec![letter("pi", "π", "Π"), letter("pi", "p", "P")]));
    let bad: Vec<serde_json::Value> =
        serde_json::from_str("[{\"name\": \"pi\", \"lower\": \"π\", \"upper\": \"Π\"}, [], {}]").unwrap();
    assert_eq!(read_entries(&bad), Err(1));
}

//! Reading the letter dataset: a JSON document with one field `letters`, a
//! list of objects that each give `name`, `lower` and `upper` as strings.

use vstd::prelude::*;
use crate::alphabet::{
    is_first_name_fault, letter_names, names_valid, Alphabet, Letter, LetterView, NameError,
};

verus! {

/// `serde_json::Value`, a parsed JSON value. Nothing inside it is visible
/// here: it is read only through the functions below.
#[verifier::external_type_specification]
#[verifier::external_body]
pub struct ExValue(serde_json::Value);

/// `serde_json::Error`, the error of a failed parse. It is carried to where
/// its message is taken, and nothing is known of it.
#[verifier::external_type_specification]
#[verifier::external_body]
pub struct ExError(serde_json::Error);

/// The JSON value that `text` denotes, if `text` is one JSON document.
pub uninterp spec fn json_parse(text: Seq<char>) -> Option<serde_json::Value>;

/// The member that a JSON object has under `key`; none if the value is no
/// object or has no such member.
pub uninterp spec fn json_member(value: serde_json::Value, key: Seq<char>) -> Option<
    serde_json::Value,
>;

/// The elements of a JSON array, in order; none if the value is no array.
pub uninterp spec fn json_elements(value: serde_json::Value) -> Option<Seq<serde_json::Value>>;

/// The characters of a JSON string; none if the value is no string.
pub uninterp spec fn json_text(value: serde_json::Value) -> Option<Seq<char>>;

/// Calls `serde_json::from_str` for a `serde_json::Value`. The contract
/// claims only that the outcome is a function of the text: `json_parse`
/// names the value on success, and is none when the call reports an error.
#[verifier::external_body]
pub(crate) fn parse_value(text: &str) -> (parsed: Result<serde_json::Value, serde_json::Error>)
    ensures
        match parsed {
            Ok(value) => json_parse(text@) == Some(value),
            Err(_) => json_parse(text@) is None,
        },
{
    serde_json::from_str::<serde_json::Value>(text)
}

/// Calls `serde_json::Value::get` with a string key, which looks the key up
/// in an object and gives none for any other kind of value. The contract
/// names the outcome `json_member`.
#[verifier::external_body]
fn member<'a>(value: &'a serde_json::Value, key: &str) -> (found: Option<&'a serde_json::Value>)
    ensures
        match found {
            Some(inner) => json_member(*value, key@) == Some(*inner),
            None => json_member(*value, key@) is None,
        },
{
    value.get(key)
}

/// `serde_json::Value::as_array` gives the vector inside an array value and
/// none for any other kind of value. The contract names the vector's
/// elements `json_elements`.
pub assume_specification[ serde_json::Value::as_array ](value: &serde_json::Value) -> (found:
    Option<&Vec<serde_json::Value>>)
    ensures
        match found {
            Some(items) => json_elements(*value) == Some(items@),
            None => json_elements(*value) is None,
        },
;

/// `serde_json::Value::as_str` gives the text inside a string value and none
/// for any other kind of value. The contract names the text's characters
/// `json_text`.
pub assume_specification[ serde_json::Value::as_str ](value: &serde_json::Value) -> (found:
    Option<&str>)
    ensures
        match found {
            Some(text) => json_text(*value) == Some(text@),
            None => json_text(*value) is None,
        },
;

/// Calls `to_string` on a `serde_json::Error`: the error's message with the
/// line and column at which parsing stopped. Nothing is claimed of the text.
#[verifier::external_body]
pub(crate) fn describe(error: &serde_json::Error) -> (message: String) {
    error.to_string()
}

/// The string that `value` has under `key`, if it is an object with a
/// string there.
pub open spec fn string_field(value: serde_json::Value, key: Seq<char>) -> Option<Seq<char>> {
    match json_member(value, key) {
        Some(inner) => json_text(inner),
        None => None,
    }
}

/// Reads the string that `value` has under `key`.
fn read_string_field(value: &serde_json::Value, key: &str) -> (found: Option<String>)
    ensures
        match found {
            Some(text) => string_field(*value, key@) == Some(text@),
            None => string_field(*value, key@) is None,
        },
{
    match member(value, key) {
        Some(inner) => match inner.as_str() {
            Some(text) => Some(text.to_owned()),
            None => None,
        },
        None => None,
    }
}

/// Why a dataset could not be loaded. Loading is all or nothing: with any of
/// these there is no alphabet.
#[derive(Debug, PartialEq, Eq)]
pub enum ParseError {
    /// The text is not a JSON document. The message says where it went wrong.
    Syntax(String),
    /// The document is no object with a list under `letters`.
    Letters,
    /// The entry at this place is no object with strings under `name`,
    /// `lower` and `upper`.
    Entry(usize),
    /// The entries' names are not those of an alphabet.
    Name(NameError),
}

/// The letter that a list entry describes: an object with a string under
/// each of `name`, `lower` and `upper`. Other members are ignored.
pub open spec fn entry_letter(entry: serde_json::Value) -> Option<LetterView> {
    match (string_field(entry, "name"@), string_field(entry, "lower"@), string_field(
        entry,
        "upper"@,
    )) {
        (Some(name), Some(lower), Some(upper)) => Some(LetterView { name, lower, upper }),
        _ => None,
    }
}

/// The list that a document value has under `letters`.
pub open spec fn document_entries(root: serde_json::Value) -> Option<Seq<serde_json::Value>> {
    match json_member(root, "letters"@) {
        Some(list) => json_elements(list),
        None => None,
    }
}

/// `letters` are what `entries` describe, one for one and in order.
pub open spec fn describes(entries: Seq<serde_json::Value>, letters: Seq<Letter>) -> bool {
    &&& letters.len() == entries.len()
    &&& forall|i: int|
        0 <= i < entries.len() ==> entry_letter(#[trigger] entries[i]) == Some(letters[i]@)
}

/// `i` is the first entry that describes no letter.
pub open spec fn is_first_bad_entry(entries: Seq<serde_json::Value>, i: int) -> bool {
    &&& 0 <= i < entries.len()
    &&& entry_letter(entries[i]) is None
    &&& forall|k: int| 0 <= k < i ==> entry_letter(#[trigger] entries[k]) is Some
}

/// The names that the entries give, in order.
pub open spec fn entry_names(entries: Seq<serde_json::Value>) -> Seq<Seq<char>> {
    Seq::new(entries.len(), |i: int| entry_letter(entries[i]).unwrap().name)
}

/// Every entry describes a letter.
pub open spec fn all_entries_good(entries: Seq<serde_json::Value>) -> bool {
    forall|i: int| 0 <= i < entries.len() ==> entry_letter(#[trigger] entries[i]) is Some
}

/// What loading makes of a document value: the alphabet of the letters that
/// the entries under `letters` describe, or the first thing that is wrong.
pub open spec fn value_loads(
    root: serde_json::Value,
    loaded: Result<Alphabet, ParseError>,
) -> bool {
    match loaded {
        Ok(alphabet) => {
            &&& document_entries(root) is Some
            &&& describes(document_entries(root).unwrap(), alphabet.letters@)
            &&& alphabet.well_formed()
        },
        Err(ParseError::Syntax(_)) => false,
        Err(ParseError::Letters) => document_entries(root) is None,
        Err(ParseError::Entry(i)) => {
            &&& document_entries(root) is Some
            &&& is_first_bad_entry(document_entries(root).unwrap(), i as int)
        },
        Err(ParseError::Name(e)) => {
            &&& document_entries(root) is Some
            &&& all_entries_good(document_entries(root).unwrap())
            &&& is_first_name_fault(entry_names(document_entries(root).unwrap()), e)
        },
    }
}

/// What loading makes of a text: a syntax error if it is no JSON document,
/// and otherwise what loading makes of the value it denotes.
pub open spec fn text_loads(text: Seq<char>, loaded: Result<Alphabet, ParseError>) -> bool {
    match json_parse(text) {
        Some(root) => value_loads(root, loaded),
        None => loaded matches Err(ParseError::Syntax(_)),
    }
}

/// The letters that a list of entries describes, or the place of the first
/// entry that describes none.
pub fn read_entries(entries: &Vec<serde_json::Value>) -> (read: Result<Vec<Letter>, usize>)
    ensures
        match read {
            Ok(letters) => describes(entries@, letters@),
            Err(i) => is_first_bad_entry(entries@, i as int),
        },
{
    let n: usize = entries.len();
    let mut letters: Vec<Letter> = Vec::new();
    let mut i: usize = 0;
    while i < n
        invariant
            n == entries@.len(),
            i <= n,
            letters@.len() == i,
            forall|k: int|
                0 <= k < i ==> entry_letter(#[trigger] entries@[k]) == Some(letters@[k]@),
        decreases n - i,
    {
        let entry = &entries[i];
        let name = read_string_field(entry, "name");
        let lower = read_string_field(entry, "lower");
        let upper = read_string_field(entry, "upper");
        match (name, lower, upper) {
            (Some(name), Some(lower), Some(upper)) => {
                letters.push(Letter { name, lower, upper });
            },
            _ => {
                return Err(i);
            },
        }
        i += 1;
    }
    Ok(letters)
}

/// Loads the alphabet that a parsed document holds.
pub fn load_value(root: &serde_json::Value) -> (loaded: Result<Alphabet, ParseError>)
    ensures
        value_loads(*root, loaded),
{
    let list = match member(root, "letters") {
        Some(list) => list,
        None => {
            return Err(ParseError::Letters);
        },
    };
    let entries = match list.as_array() {
        Some(entries) => entries,
        None => {
            return Err(ParseError::Letters);
        },
    };
    let letters = match read_entries(entries) {
        Ok(letters) => letters,
        Err(i) => {
            return Err(ParseError::Entry(i));
        },
    };
    let ghost read = letters@;
    match Alphabet::new(letters) {
        Ok(alphabet) => Ok(alphabet),
        Err(e) => {
            assert(letter_names(read) =~= entry_names(entries@));
            Err(ParseError::Name(e))
        },
    }
}

/// The letters of the alphabet that a text holds: it is a JSON document with
/// a list under `letters`, every entry describes a letter, and the names are
/// those of an alphabet. None if any of this fails.
pub open spec fn document_letters(text: Seq<char>) -> Option<Seq<LetterView>> {
    match json_parse(text) {
        Some(root) => match document_entries(root) {
            Some(entries) => if all_entries_good(entries) && names_valid(entry_names(entries)) {
                Some(Seq::new(entries.len(), |i: int| entry_letter(entries[i]).unwrap()))
            } else {
                None
            },
            None => None,
        },
        None => None,
    }
}

/// A load succeeds exactly on the texts that hold an alphabet, and then
/// gives that alphabet.
pub proof fn lemma_loads_document_letters(text: Seq<char>, loaded: Result<Alphabet, ParseError>)
    requires
        text_loads(text, loaded),
    ensures
        loaded is Ok <==> document_letters(text) is Some,
        loaded is Ok ==> document_letters(text) == Some(loaded.unwrap()@),
{
    if json_parse(text) is Some && document_entries(json_parse(text).unwrap()) is Some {
        let entries = document_entries(json_parse(text).unwrap()).unwrap();
        let names = entry_names(entries);
        match loaded {
            Ok(alphabet) => {
                assert(alphabet.names() =~= names);
                assert(alphabet@ =~= Seq::new(
                    entries.len(),
                    |i: int| entry_letter(entries[i]).unwrap(),
                ));
            },
            Err(ParseError::Name(NameError::Repeated(i))) => {
                let j = choose|j: int| 0 <= j < i && #[trigger] names[j] == names[i as int];
                assert(names[j] == names[i as int]);
            },
            Err(ParseError::Name(NameError::Empty(i))) => {
                assert(names[i as int].len() == 0);
            },
            _ => {},
        }
    }
}

/// Loading is a function of the text: two loads of one document succeed or
/// fail together, and when they succeed they give equal alphabets.
pub proof fn lemma_loading_repeatable(
    text: Seq<char>,
    first: Result<Alphabet, ParseError>,
    second: Result<Alphabet, ParseError>,
)
    requires
        text_loads(text, first),
        text_loads(text, second),
    ensures
        first is Ok <==> second is Ok,
        first is Ok ==> first.unwrap()@ == second.unwrap()@,
{
    lemma_loads_document_letters(text, first);
    lemma_loads_document_letters(text, second);
}

} // verus!

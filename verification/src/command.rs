//! What a command asks for: the table, a glyph, suggestions for a name that
//! was not found, or the usage text.

use vstd::prelude::*;
use crate::alphabet::{is_absent, Alphabet, Letter};
use crate::suggest::{has_candidate, suggestion_of, Suggestions, DEFAULT_THRESHOLD};
use crate::text::{capitalize_first, capitalized};

verus! {

/// What is to be shown for a command.
#[derive(Debug, PartialEq, Eq)]
pub enum Outcome {
    /// The whole alphabet, as a table.
    Table,
    /// The glyph of the letter that was asked for, in the case asked for.
    Glyph { query: String, glyph: String },
    /// No letter has the name asked for; these are the closest names.
    Suggest { query: String, suggestions: Suggestions },
    /// No letter has the name asked for, and none is close.
    NotFound { query: String },
    /// Nothing was asked for: the usage text.
    Usage,
}

/// The glyph of `letter` in the case that `upper` selects.
pub open spec fn glyph_of(letter: Letter, upper: bool) -> Seq<char> {
    if upper {
        letter.upper@
    } else {
        letter.lower@
    }
}

/// The outcome that a command has on an alphabet. The table flag goes
/// before everything else; without it a name is looked up, and without a
/// name there is only the usage text.
pub open spec fn outcome_of(
    alphabet: Alphabet,
    letter: Option<Seq<char>>,
    table: bool,
    upper: bool,
    outcome: Outcome,
) -> bool {
    if table {
        outcome is Table
    } else {
        match letter {
            None => outcome is Usage,
            Some(name) => match outcome {
                Outcome::Glyph { query, glyph } => {
                    &&& query@ == name
                    &&& alphabet.resolve(name) is Some
                    &&& glyph@ == glyph_of(alphabet.resolve(name).unwrap(), upper)
                },
                Outcome::Suggest { query, suggestions } => {
                    &&& query@ == name
                    &&& is_absent(alphabet.names(), name)
                    &&& has_candidate(alphabet.names(), name, DEFAULT_THRESHOLD as nat)
                    &&& suggestion_of(
                        alphabet.names(),
                        name,
                        DEFAULT_THRESHOLD as nat,
                        suggestions.names(),
                        suggestions.min_distance as nat,
                    )
                },
                Outcome::NotFound { query } => {
                    &&& query@ == name
                    &&& is_absent(alphabet.names(), name)
                    &&& !has_candidate(alphabet.names(), name, DEFAULT_THRESHOLD as nat)
                },
                _ => false,
            },
        }
    }
}

/// Decides what a command shows. `letter` is the name asked for, if any;
/// `table` asks for the whole alphabet and overrides the rest; `upper`
/// selects the capital glyph.
pub fn dispatch(alphabet: &Alphabet, letter: Option<&str>, table: bool, upper: bool) -> (outcome:
    Outcome)
    ensures
        outcome_of(
            *alphabet,
            match letter {
                Some(name) => Some(name@),
                None => None,
            },
            table,
            upper,
            outcome,
        ),
{
    if table {
        return Outcome::Table;
    }
    let name = match letter {
        Some(name) => name,
        None => {
            return Outcome::Usage;
        },
    };
    match alphabet.find_exact(name) {
        Some(found) => {
            let glyph = if upper {
                found.upper.clone()
            } else {
                found.lower.clone()
            };
            Outcome::Glyph { query: name.to_owned(), glyph }
        },
        None => {
            let suggestions = alphabet.suggest(name, DEFAULT_THRESHOLD);
            if suggestions.matches.len() > 0 {
                Outcome::Suggest { query: name.to_owned(), suggestions }
            } else {
                Outcome::NotFound { query: name.to_owned() }
            }
        },
    }
}

/// The header of the alphabet table.
pub open spec fn table_header() -> Seq<Seq<char>> {
    seq!["Name"@, "Lower"@, "Upper"@]
}

/// The table row of a letter: its name with a capital, then its two glyphs.
pub open spec fn table_row(letter: Letter) -> Seq<Seq<char>> {
    seq![capitalized(letter.name@), letter.lower@, letter.upper@]
}

/// The cells of a row as sequences of characters.
pub open spec fn row_view(row: Vec<String>) -> Seq<Seq<char>> {
    Seq::new(row@.len(), |i: int| row@[i]@)
}

impl Alphabet {
    /// The alphabet as a table: the header, then one row for each letter in
    /// alphabet order.
    pub fn table(&self) -> (rows: Vec<Vec<String>>)
        ensures
            rows@.len() == self.letters@.len() + 1,
            row_view(rows@[0]) == table_header(),
            forall|i: int|
                0 <= i < self.letters@.len() ==> row_view(#[trigger] rows@[i + 1]) == table_row(
                    self.letters@[i],
                ),
    {
        let mut rows: Vec<Vec<String>> = Vec::new();
        let mut header: Vec<String> = Vec::new();
        header.push("Name".to_owned());
        header.push("Lower".to_owned());
        header.push("Upper".to_owned());
        assert(row_view(header) =~= table_header());
        rows.push(header);
        let n: usize = self.letters.len();
        let mut i: usize = 0;
        while i < n
            invariant
                n == self.letters@.len(),
                i <= n,
                rows@.len() == i + 1,
                row_view(rows@[0]) == table_header(),
                forall|k: int|
                    0 <= k < i ==> row_view(#[trigger] rows@[k + 1]) == table_row(self.letters@[k]),
            decreases n - i,
        {
            let letter = &self.letters[i];
            let mut row: Vec<String> = Vec::new();
            row.push(capitalize_first(letter.name.as_str()));
            row.push(letter.lower.clone());
            row.push(letter.upper.clone());
            assert(row_view(row) =~= table_row(*letter));
            rows.push(row);
            i += 1;
        }
        rows
    }
}

} // verus!

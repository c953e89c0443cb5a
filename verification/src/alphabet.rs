//! The alphabet store: letter records in canonical order, and exact lookup
//! of a letter by its name.

use vstd::prelude::*;
use crate::document::{
    describe, document_letters, lemma_loads_document_letters, load_value, parse_value, text_loads,
    ParseError,
};

verus! {

/// One letter: its canonical name and its two glyphs.
#[derive(Debug, PartialEq, Eq)]
pub struct Letter {
    pub name: String,
    pub lower: String,
    pub upper: String,
}

/// What a `Letter` holds, as sequences of characters.
pub struct LetterView {
    pub name: Seq<char>,
    pub lower: Seq<char>,
    pub upper: Seq<char>,
}

impl View for Letter {
    type V = LetterView;

    open spec fn view(&self) -> LetterView {
        LetterView { name: self.name@, lower: self.lower@, upper: self.upper@ }
    }
}

impl Clone for Letter {
    fn clone(&self) -> (copy: Self)
        ensures
            copy@ == self@,
    {
        Letter { name: self.name.clone(), lower: self.lower.clone(), upper: self.upper.clone() }
    }
}

/// The letters, in canonical alphabet order.
#[derive(Debug, PartialEq, Eq)]
pub struct Alphabet {
    pub letters: Vec<Letter>,
}

impl View for Alphabet {
    type V = Seq<LetterView>;

    open spec fn view(&self) -> Seq<LetterView> {
        Seq::new(self.letters@.len(), |i: int| self.letters@[i]@)
    }
}

/// The names of a sequence of letters, in the same order.
pub open spec fn letter_names(letters: Seq<Letter>) -> Seq<Seq<char>> {
    Seq::new(letters.len(), |i: int| letters[i].name@)
}

/// No name is empty, and no name occurs twice.
pub open spec fn names_valid(names: Seq<Seq<char>>) -> bool {
    &&& forall|i: int| 0 <= i < names.len() ==> (#[trigger] names[i]).len() > 0
    &&& forall|i: int, j: int|
        0 <= i < j < names.len() ==> #[trigger] names[i] != #[trigger] names[j]
}

/// `i` is the first place in `names` that holds `query`.
pub open spec fn is_first_match(names: Seq<Seq<char>>, query: Seq<char>, i: int) -> bool {
    &&& 0 <= i < names.len()
    &&& names[i] == query
    &&& forall|j: int| 0 <= j < i ==> #[trigger] names[j] != query
}

/// `query` is the name of no place in `names`.
pub open spec fn is_absent(names: Seq<Seq<char>>, query: Seq<char>) -> bool {
    forall|i: int| 0 <= i < names.len() ==> #[trigger] names[i] != query
}

/// Whether the name at `i` keeps `names` from being valid: it is empty, or an
/// earlier place holds it already.
pub open spec fn name_faulty(names: Seq<Seq<char>>, i: int) -> bool {
    names[i].len() == 0 || exists|j: int| 0 <= j < i && #[trigger] names[j] == names[i]
}

/// Why a list of letters was not accepted as an alphabet.
#[derive(Debug, PartialEq, Eq)]
pub enum NameError {
    /// The letter at this place has an empty name.
    Empty(usize),
    /// The letter at this place has the name of an earlier letter.
    Repeated(usize),
}

/// `e` reports the first place of `names` that is at fault, and what is
/// wrong with the name there.
pub open spec fn is_first_name_fault(names: Seq<Seq<char>>, e: NameError) -> bool {
    match e {
        NameError::Empty(i) => {
            &&& i < names.len()
            &&& names[i as int].len() == 0
            &&& forall|k: int| 0 <= k < i ==> !name_faulty(names, k)
        },
        NameError::Repeated(i) => {
            &&& i < names.len()
            &&& names[i as int].len() > 0
            &&& name_faulty(names, i as int)
            &&& forall|k: int| 0 <= k < i ==> !name_faulty(names, k)
        },
    }
}

impl Alphabet {
    /// The letters' names, in order.
    pub open spec fn names(&self) -> Seq<Seq<char>> {
        letter_names(self.letters@)
    }

    /// The invariant of an alphabet: every name is non-empty and unique.
    pub open spec fn well_formed(&self) -> bool {
        names_valid(self.names())
    }

    /// The letter that `query` resolves to: the first one, in order, whose
    /// name is `query` character for character. Upper and lower case differ.
    pub open spec fn resolve(&self, query: Seq<char>) -> Option<Letter> {
        if exists|i: int| is_first_match(self.names(), query, i) {
            Some(self.letters@[choose|i: int| is_first_match(self.names(), query, i)])
        } else {
            None
        }
    }

    /// Makes an alphabet of `letters`, in the order given, if their names are
    /// valid. Otherwise reports the first letter whose name is empty or was
    /// used before it.
    pub fn new(letters: Vec<Letter>) -> (made: Result<Alphabet, NameError>)
        ensures
            made is Ok <==> names_valid(letter_names(letters@)),
            match made {
                Ok(alphabet) => alphabet.letters == letters,
                Err(e) => is_first_name_fault(letter_names(letters@), e),
            },
    {
        let ghost names = letter_names(letters@);
        let alphabet = Alphabet { letters };
        let n: usize = alphabet.letters.len();
        let mut i: usize = 0;
        while i < n
            invariant
                n == alphabet.letters@.len(),
                alphabet.letters == letters,
                names == letter_names(letters@),
                i <= n,
                forall|k: int| 0 <= k < i ==> !name_faulty(names, k),
            decreases n - i,
        {
            if alphabet.letters[i].name.as_str().is_empty() {
                assert(names[i as int].len() == 0);
                return Err(NameError::Empty(i));
            }
            let mut j: usize = 0;
            while j < i
                invariant
                    n == alphabet.letters@.len(),
                    alphabet.letters == letters,
                    names == letter_names(letters@),
                    i < n,
                    names[i as int].len() > 0,
                    forall|k: int| 0 <= k < i ==> !name_faulty(names, k),
                    j <= i,
                    forall|k: int| 0 <= k < j ==> names[k] != names[i as int],
                decreases i - j,
            {
                if alphabet.letters[j].name == alphabet.letters[i].name {
                    assert(names[j as int] == names[i as int]);
                    return Err(NameError::Repeated(i));
                }
                j += 1;
            }
            i += 1;
        }
        proof {
            assert forall|a: int, b: int| 0 <= a < b < names.len() implies names[a] != names[b] by {
                assert(!name_faulty(names, b));
            }
            assert forall|a: int| 0 <= a < names.len() implies (#[trigger] names[a]).len() > 0 by {
                assert(!name_faulty(names, a));
            }
        }
        Ok(alphabet)
    }

    /// Loads the alphabet from the text of a dataset document: a JSON object
    /// whose member `letters` lists objects with the strings `name`, `lower`
    /// and `upper`. Members beyond these are ignored. Any fault fails the
    /// whole load.
    pub fn import(content: &str) -> (loaded: Result<Alphabet, ParseError>)
        ensures
            text_loads(content@, loaded),
            loaded is Ok <==> document_letters(content@) is Some,
            loaded matches Ok(alphabet) ==> document_letters(content@) == Some(alphabet@)
                && alphabet.well_formed(),
    {
        let loaded = match parse_value(content) {
            Ok(root) => load_value(&root),
            Err(e) => Err(ParseError::Syntax(describe(&e))),
        };
        proof {
            lemma_loads_document_letters(content@, loaded);
        }
        loaded
    }

    /// How many letters the alphabet has.
    pub fn len(&self) -> (n: usize)
        ensures
            n == self@.len(),
    {
        self.letters.len()
    }

    /// The place of the first letter named `query`, if there is one.
    pub fn position(&self, query: &str) -> (place: Option<usize>)
        ensures
            match place {
                Some(i) => is_first_match(self.names(), query@, i as int),
                None => is_absent(self.names(), query@),
            },
    {
        let wanted = query.to_owned();
        let n: usize = self.letters.len();
        let mut i: usize = 0;
        while i < n
            invariant
                n == self.letters@.len(),
                wanted@ == query@,
                i <= n,
                forall|k: int| 0 <= k < i ==> #[trigger] self.names()[k] != query@,
            decreases n - i,
        {
            if self.letters[i].name == wanted {
                return Some(i);
            }
            i += 1;
        }
        None
    }

    /// Exact resolution: the first letter whose name equals `query`, or none.
    /// The comparison is literal, so "Alpha" does not find "alpha".
    pub fn find_exact(&self, query: &str) -> (found: Option<&Letter>)
        ensures
            match found {
                Some(letter) => self.resolve(query@) == Some(*letter),
                None => self.resolve(query@) is None,
            },
            found is None <==> is_absent(self.names(), query@),
    {
        match self.position(query) {
            Some(i) => {
                proof {
                    lemma_resolves_to_first_match(*self, query@, i as int);
                }
                Some(&self.letters[i])
            },
            None => None,
        }
    }
}

/// At most one place is the first that holds `query`.
pub proof fn lemma_first_match_unique(names: Seq<Seq<char>>, query: Seq<char>, i: int, j: int)
    requires
        is_first_match(names, query, i),
        is_first_match(names, query, j),
    ensures
        i == j,
{
    if i < j {
        assert(names[i] != query);
    } else if j < i {
        assert(names[j] != query);
    }
}

/// A query resolves to the letter at the first place that holds it.
pub proof fn lemma_resolves_to_first_match(alphabet: Alphabet, query: Seq<char>, i: int)
    requires
        is_first_match(alphabet.names(), query, i),
    ensures
        alphabet.resolve(query) == Some(alphabet.letters@[i]),
{
    lemma_first_match_unique(
        alphabet.names(),
        query,
        i,
        choose|k: int| is_first_match(alphabet.names(), query, k),
    );
}

/// In a well-formed alphabet every letter is found under its own name.
pub proof fn lemma_own_name_resolves(alphabet: Alphabet, i: int)
    requires
        alphabet.well_formed(),
        0 <= i < alphabet.letters@.len(),
    ensures
        alphabet.resolve(alphabet.letters@[i].name@) == Some(alphabet.letters@[i]),
{
    let names = alphabet.names();
    let query = alphabet.letters@[i].name@;
    assert(names[i] == query);
    assert(is_first_match(names, query, i));
    lemma_resolves_to_first_match(alphabet, query, i);
}

} // verus!

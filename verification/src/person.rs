//! The person record and the parser that makes one from text.

use crate::error::PersonError;
use crate::split::{
    count, find, first_index, lemma_count_none, lemma_first_index, lemma_split_joined, lemma_split_len,
    lemma_split_whole, split, split_once,
};
use std::str::FromStr;
use vstd::prelude::*;
use vstd::string::*;

verus! {

/// A person: a name and a surname, both taken verbatim from the text parsed.
#[derive(Debug, PartialEq, Eq)]
pub struct Person {
    name: String,
    surname: String,
}

/// What a `Person` holds, as mathematical text.
pub ghost struct PersonView {
    pub name: Seq<char>,
    pub surname: Seq<char>,
}

impl View for Person {
    type V = PersonView;

    closed spec fn view(&self) -> PersonView {
        PersonView { name: self.name@, surname: self.surname@ }
    }
}

/// The person that `text` denotes: the text must split on `,` into exactly two
/// fields, the name and then the surname. Any other number of fields denotes
/// nobody.
pub open spec fn parse(text: Seq<char>) -> Option<PersonView> {
    let fields = split(text, ',');
    if fields.len() == 2 {
        Some(PersonView { name: fields[0], surname: fields[1] })
    } else {
        None
    }
}

impl FromStr for Person {
    type Err = PersonError;

    /// Parses `text` as `name,surname`. Nothing is trimmed. Text with fewer or
    /// more than two fields is refused as malformed.
    fn from_str(text: &str) -> (parsed: Result<Person, PersonError>)
        ensures
            (match parse(text@) {
                Some(person) => parsed is Ok && parsed->Ok_0@ == person,
                None => parsed == Err::<Person, PersonError>(PersonError::Parse),
            }),
    {
        let (name, surname) = match split_once(text, ',') {
            Some(parts) => parts,
            None => {
                proof {
                    lemma_split_whole(text@, ',');
                }
                return Err(PersonError::Parse);
            },
        };
        proof {
            lemma_split_joined(name@, surname@, ',');
            lemma_first_index(surname@, ',');
            lemma_count_none(surname@, ',');
            lemma_split_len(surname@, ',');
        }
        match find(surname, ',') {
            Some(_) => Err(PersonError::Parse),
            None => {
                proof {
                    lemma_split_whole(surname@, ',');
                }
                Ok(Person { name: name.to_owned(), surname: surname.to_owned() })
            },
        }
    }
}

impl Person {
    /// Every person comes from the parser, so neither field holds a comma.
    #[verifier::type_invariant]
    spec fn fields_hold_no_comma(&self) -> bool {
        !self.name@.contains(',') && !self.surname@.contains(',')
    }

    /// The first field of the text parsed.
    pub fn name(&self) -> (name: &str)
        ensures
            name@ == self@.name,
            !name@.contains(','),
    {
        proof {
            use_type_invariant(self);
        }
        self.name.as_str()
    }

    /// The second field of the text parsed.
    pub fn surname(&self) -> (surname: &str)
        ensures
            surname@ == self@.surname,
            !surname@.contains(','),
    {
        proof {
            use_type_invariant(self);
        }
        self.surname.as_str()
    }
}

/// A name, a comma and a surname, where neither holds a comma, denote the
/// person of exactly that name and surname.
pub proof fn lemma_parse_two_fields(name: Seq<char>, surname: Seq<char>)
    requires
        !name.contains(','),
        !surname.contains(','),
    ensures
        parse(name + seq![','] + surname) == Some((PersonView { name, surname })),
{
    lemma_split_joined(name, surname, ',');
    lemma_split_whole(surname, ',');
}

/// Text without a comma is a single field and denotes nobody. The empty text
/// is such a text.
pub proof fn lemma_parse_too_few(text: Seq<char>)
    requires
        count(text, ',') == 0,
    ensures
        split(text, ',') == seq![text],
        parse(text) is None,
{
    lemma_count_none(text, ',');
    lemma_split_whole(text, ',');
}

/// Text with two commas or more has three fields or more and denotes nobody.
pub proof fn lemma_parse_too_many(text: Seq<char>)
    requires
        count(text, ',') >= 2,
    ensures
        split(text, ',').len() >= 3,
        parse(text) is None,
{
    lemma_split_len(text, ',');
}

/// Text that denotes a person is that person's name, a comma and the surname,
/// and neither of the two holds a comma.
pub proof fn lemma_parse_fields(text: Seq<char>)
    requires
        parse(text) is Some,
    ensures
        text == parse(text)->Some_0.name + seq![','] + parse(text)->Some_0.surname,
        !parse(text)->Some_0.name.contains(','),
        !parse(text)->Some_0.surname.contains(','),
{
    lemma_first_index(text, ',');
    let at = first_index(text, ',');
    let tail = text.skip(at + 1);
    lemma_first_index(tail, ',');
    lemma_split_len(tail, ',');
    lemma_count_none(tail, ',');
    assert(text =~= text.take(at) + seq![','] + tail);
}

/// Text denotes a person exactly when it holds one comma.
pub proof fn lemma_parse_one_comma(text: Seq<char>)
    ensures
        parse(text) is Some <==> count(text, ',') == 1,
{
    lemma_split_len(text, ',');
}

} // verus!

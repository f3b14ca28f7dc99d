//! From what was read to a person: decoding the bytes as UTF-8 and parsing the
//! text, stopping at the first stage that fails.

use crate::error::PersonError;
use crate::person::{lemma_parse_one_comma, lemma_parse_two_fields, parse, Person, PersonView};
use crate::split::count;
use std::io::Error as IoError;
use std::str::FromStr;
use vstd::prelude::*;
use vstd::utf8::{
    decode_utf8, encode_utf8, encode_utf8_decode_utf8, encode_utf8_valid_utf8, valid_utf8,
};

verus! {

/// `String::from_utf8` succeeds exactly on well-formed UTF-8, and the string it
/// then returns holds the characters that the bytes encode. Of the error it
/// returns otherwise nothing is claimed.
pub assume_specification[ String::from_utf8 ](vec: Vec<u8>) -> (decoded: Result<String, std::string::FromUtf8Error>)
    ensures
        decoded is Ok <==> valid_utf8(vec@),
        decoded is Ok ==> decoded->Ok_0@ == decode_utf8(vec@),
;

/// Whether `outcome` is what decoding and parsing make of `bytes`: a failed
/// decoding where the bytes are not UTF-8, whatever text they might resemble;
/// else a malformed text where the text denotes nobody; else the person that
/// the text denotes.
pub open spec fn is_outcome_of(outcome: Result<Person, PersonError>, bytes: Seq<u8>) -> bool {
    if !valid_utf8(bytes) {
        outcome is Err && outcome->Err_0 is Utf8
    } else {
        match parse(decode_utf8(bytes)) {
            Some(person) => outcome is Ok && outcome->Ok_0@ == person,
            None => outcome == Err::<Person, PersonError>(PersonError::Parse),
        }
    }
}

/// Decodes `bytes` as UTF-8 text, all of them or none.
pub fn decode(bytes: Vec<u8>) -> (decoded: Result<String, PersonError>)
    ensures
        decoded is Ok <==> valid_utf8(bytes@),
        decoded is Ok ==> decoded->Ok_0@ == decode_utf8(bytes@),
        decoded is Err ==> decoded->Err_0 is Utf8,
{
    match String::from_utf8(bytes) {
        Ok(text) => Ok(text),
        Err(cause) => Err(PersonError::from(cause)),
    }
}

/// Decodes `bytes` and parses the text as a person.
pub fn person_from_bytes(bytes: Vec<u8>) -> (outcome: Result<Person, PersonError>)
    ensures
        is_outcome_of(outcome, bytes@),
{
    match decode(bytes) {
        Ok(text) => Person::from_str(text.as_str()),
        Err(failure) => Err(failure),
    }
}

/// Takes what the read gave, bytes or the cause of its failure, and makes a
/// person of it. A failed read is handed on with its cause, and nothing is
/// decoded.
pub fn person_from_read(read: Result<Vec<u8>, IoError>) -> (outcome: Result<Person, PersonError>)
    ensures
        (match read {
            Ok(bytes) => is_outcome_of(outcome, bytes@),
            Err(cause) => outcome == Err::<Person, PersonError>(PersonError::Io(cause)),
        }),
{
    match read {
        Ok(bytes) => person_from_bytes(bytes),
        Err(cause) => Err(PersonError::from(cause)),
    }
}

/// Bytes give a person exactly when they are UTF-8 and their text holds one
/// comma. They give a failed decoding exactly when they are not UTF-8, and
/// never a failed read.
pub proof fn lemma_outcome_cases(outcome: Result<Person, PersonError>, bytes: Seq<u8>)
    requires
        is_outcome_of(outcome, bytes),
    ensures
        outcome is Ok <==> valid_utf8(bytes) && count(decode_utf8(bytes), ',') == 1,
        outcome is Err && outcome->Err_0 is Utf8 <==> !valid_utf8(bytes),
        outcome is Err && outcome->Err_0 is Parse <==> valid_utf8(bytes) && count(decode_utf8(bytes), ',') != 1,
        !(outcome is Err && outcome->Err_0 is Io),
{
    lemma_parse_one_comma(decode_utf8(bytes));
}

/// The UTF-8 encoding of a name, a comma and a surname, where neither holds a
/// comma, gives the person of that name and surname.
pub proof fn lemma_outcome_of_encoded(
    outcome: Result<Person, PersonError>,
    name: Seq<char>,
    surname: Seq<char>,
)
    requires
        !name.contains(','),
        !surname.contains(','),
        is_outcome_of(outcome, encode_utf8(name + seq![','] + surname)),
    ensures
        outcome is Ok,
        outcome->Ok_0@ == (PersonView { name, surname }),
{
    let text = name + seq![','] + surname;
    encode_utf8_valid_utf8(text);
    encode_utf8_decode_utf8(text);
    lemma_parse_two_fields(name, surname);
}

} // verus!

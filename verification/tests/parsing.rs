use person_record::error::PersonError;
use person_record::person::Person;
use std::str::FromStr;

fn parsed(text: &str) -> (String, String) {
    let person = Person::from_str(text).unwrap();
    (person.name().to_string(), person.surname().to_string())
}

fn is_malformed(text: &str) -> bool {
    matches!(Person::from_str(text), Err(PersonError::Parse))
}

#[test]
fn two_fields_make_a_person() {
    let person = Person::from_str("Ada,Lovelace").unwrap();
    assert_eq!(person.name(), "Ada");
    assert_eq!(person.surname(), "Lovelace");
}

#[test]
fn the_first_field_is_the_name() {
    assert_eq!(parsed("a,b"), ("a".to_string(), "b".to_string()));
    assert_eq!(parsed("b,a"), ("b".to_string(), "a".to_string()));
}

#[test]
fn fields_are_taken_verbatim() {
    assert_eq!(parsed(" Ada , Lovelace "), (" Ada ".to_string(), " Lovelace ".to_string()));
    assert_eq!(parsed("Ada,Lovelace\n"), ("Ada".to_string(), "Lovelace\n".to_string()));
    assert_eq!(parsed("\tx,y;z"), ("\tx".to_string(), "y;z".to_string()));
}

#[test]
fn empty_fields_are_fields() {
    assert_eq!(parsed(","), (String::new(), String::new()));
    assert_eq!(parsed("Ada,"), ("Ada".to_string(), String::new()));
    assert_eq!(parsed(",Lovelace"), (String::new(), "Lovelace".to_string()));
}

#[test]
fn fields_may_hold_any_characters_but_the_comma() {
    assert_eq!(parsed("Zoë,Müller"), ("Zoë".to_string(), "Müller".to_string()));
    assert_eq!(parsed("日本,語"), ("日本".to_string(), "語".to_string()));
    assert_eq!(parsed("🙂,🙃🙃"), ("🙂".to_string(), "🙃🙃".to_string()));
}

#[test]
fn empty_text_is_one_empty_field() {
    assert!(is_malformed(""));
}

#[test]
fn one_field_is_malformed() {
    assert!(is_malformed("onlyname"));
    assert!(is_malformed("OnlyOneField"));
    assert!(is_malformed("Ada Lovelace"));
}

#[test]
fn three_fields_are_malformed() {
    assert!(is_malformed("a,b,c"));
    assert!(is_malformed("Ada,Lovelace,"));
    assert!(is_malformed(",Ada,Lovelace"));
    assert!(is_malformed(",,"));
}

#[test]
fn many_fields_are_malformed() {
    assert!(is_malformed("a,b,c,d,e"));
    assert!(is_malformed(",,,,"));
}

#[test]
fn parse_goes_through_the_same_parser() {
    let person: Person = "Ada,Lovelace".parse().unwrap();
    assert_eq!(person, Person::from_str("Ada,Lovelace").unwrap());
    assert_ne!(person, Person::from_str("Lovelace,Ada").unwrap());
    assert!("Ada".parse::<Person>().is_err());
}

#[test]
fn a_person_shows_both_fields() {
    let shown = format!("{:?}", Person::from_str("Ada,Lovelace").unwrap());
    assert!(shown.contains("name: \"Ada\""));
    assert!(shown.contains("surname: \"Lovelace\""));
}

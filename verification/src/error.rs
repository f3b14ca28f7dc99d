//! The ways in which reading a person fails, and what each failure says.

use std::io::Error as IoError;
use std::string::FromUtf8Error;
use vstd::prelude::*;
use vstd::std_specs::convert::FromSpecImpl;
use vstd::string::*;

verus! {

/// `std::io::Error`, carried through as an opaque value.
#[verifier::external_type_specification]
#[verifier::external_body]
pub struct ExIoError(std::io::Error);

/// `std::string::FromUtf8Error`, carried through as an opaque value.
#[verifier::external_type_specification]
#[verifier::external_body]
pub struct ExFromUtf8Error(std::string::FromUtf8Error);

/// Why no person could be read. Each failure owns the cause that the platform
/// reported, where there is one.
#[derive(Debug)]
pub enum PersonError {
    /// The resource could not be read.
    Io(IoError),
    /// The bytes read are not UTF-8 text.
    Utf8(FromUtf8Error),
    /// The text does not consist of exactly two fields.
    Parse,
}

impl PersonError {
    /// The fixed part of the message: for a failure with a cause, what stands
    /// before the cause; for a malformed text, the whole message.
    pub open spec fn label_text(&self) -> Seq<char> {
        match self {
            PersonError::Io(_) => "cannot read file: "@,
            PersonError::Utf8(_) => "not a valid string: "@,
            PersonError::Parse => "invalid person format"@,
        }
    }

    /// Whether `text` is a message of this failure: its label, followed by the
    /// cause as the platform displays it.
    pub open spec fn says(&self, text: Seq<char>) -> bool {
        match self {
            PersonError::Io(cause) => exists|shown: String|
                {
                    &&& #[trigger] to_string_from_display_ensures::<IoError>(cause, shown)
                    &&& text == self.label_text() + shown@
                },
            PersonError::Utf8(cause) => exists|shown: String|
                {
                    &&& #[trigger] to_string_from_display_ensures::<FromUtf8Error>(cause, shown)
                    &&& text == self.label_text() + shown@
                },
            PersonError::Parse => text == self.label_text(),
        }
    }

    /// The fixed part of the message.
    pub fn label(&self) -> (label: &'static str)
        ensures
            label@ == self.label_text(),
    {
        match self {
            PersonError::Io(_) => "cannot read file: ",
            PersonError::Utf8(_) => "not a valid string: ",
            PersonError::Parse => "invalid person format",
        }
    }

    /// The message of this failure: its label and, where it has a cause, the
    /// cause as the platform displays it.
    pub fn message(&self) -> (text: String)
        ensures
            self.says(text@),
    {
        let label = String::from_str(self.label());
        match self {
            PersonError::Io(cause) => {
                let shown = cause.to_string();
                label.concat(shown.as_str())
            },
            PersonError::Utf8(cause) => {
                let shown = cause.to_string();
                label.concat(shown.as_str())
            },
            PersonError::Parse => label,
        }
    }

    /// The cause of a failed read.
    pub fn read_cause(&self) -> (cause: Option<&IoError>)
        ensures
            cause == (match self {
                PersonError::Io(e) => Some(e),
                _ => None,
            }),
    {
        match self {
            PersonError::Io(e) => Some(e),
            _ => None,
        }
    }

    /// The cause of a failed decoding.
    pub fn decode_cause(&self) -> (cause: Option<&FromUtf8Error>)
        ensures
            cause == (match self {
                PersonError::Utf8(e) => Some(e),
                _ => None,
            }),
    {
        match self {
            PersonError::Utf8(e) => Some(e),
            _ => None,
        }
    }
}

impl From<IoError> for PersonError {
    fn from(err: IoError) -> (failure: PersonError) {
        PersonError::Io(err)
    }
}

impl FromSpecImpl<IoError> for PersonError {
    open spec fn obeys_from_spec() -> bool {
        true
    }

    open spec fn from_spec(err: IoError) -> PersonError {
        PersonError::Io(err)
    }
}

impl From<FromUtf8Error> for PersonError {
    fn from(err: FromUtf8Error) -> (failure: PersonError) {
        PersonError::Utf8(err)
    }
}

impl FromSpecImpl<FromUtf8Error> for PersonError {
    open spec fn obeys_from_spec() -> bool {
        true
    }

    open spec fn from_spec(err: FromUtf8Error) -> PersonError {
        PersonError::Utf8(err)
    }
}

/// Every message of a failure begins with the failure's label, and the message
/// of a malformed text is the label and no more.
pub proof fn lemma_message_begins_with_label(failure: PersonError, text: Seq<char>)
    requires
        failure.says(text),
    ensures
        failure.label_text().is_prefix_of(text),
        failure is Parse ==> text == "invalid person format"@,
{
}

} // verus!

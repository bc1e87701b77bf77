//! Numbers with a fraction, carried as the JSON text that stands for them.

use crate::json_text::{is_json_number, number_from_json};
use vstd::prelude::*;

verus! {

/// A number as JSON writes it: a text that `serde_json` reads as a number.
///
/// This library does no arithmetic on such a number. It takes the text in,
/// keeps it letter for letter and hands it out again; which 64-bit float the
/// text stands for is for the caller to say.
#[derive(Debug, PartialEq, Eq)]
pub struct JsonNumber {
    text: String,
}

impl View for JsonNumber {
    type V = Seq<char>;

    closed spec fn view(&self) -> Seq<char> {
        self.text@
    }
}

impl Clone for JsonNumber {
    fn clone(&self) -> (copy: Self)
        ensures
            copy@ == self@,
    {
        proof {
            use_type_invariant(self);
        }
        JsonNumber { text: self.text.clone() }
    }
}

impl JsonNumber {
    #[verifier::type_invariant]
    spec fn is_number(self) -> bool {
        is_json_number(self.text@)
    }

    /// The number that `text` stands for; none where `serde_json` does not
    /// read the text as a number.
    pub fn parse(text: &str) -> (r: Option<JsonNumber>)
        ensures
            r is Some == is_json_number(text@),
            r matches Some(n) ==> n@ == text@,
    {
        if number_from_json(text) {
            Some(JsonNumber { text: text.to_owned() })
        } else {
            None
        }
    }

    /// The text of the number.
    pub fn as_str(&self) -> (text: &str)
        ensures
            text@ == self@,
            is_json_number(self@),
    {
        proof {
            use_type_invariant(self);
        }
        self.text.as_str()
    }
}

} // verus!

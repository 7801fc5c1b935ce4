//! A small fluent builder that accumulates an optional string and an
//! optional number and renders them as one line of text.

use vstd::prelude::*;
use crate::digits::dec_digits;
use crate::digits::usize_to_decimal;

verus! {

/// Accumulates an optional string field and an optional number field; each
/// setter replaces any earlier value of its field.
pub struct Builder {
    /// The most recently supplied string value, if any.
    pub string: Option<String>,
    /// The most recently supplied number value, if any.
    pub number: Option<usize>,
}

impl Builder {
    /// The rendered text: the string part, then the number part in decimal,
    /// separated by a single space when both are present; empty when neither
    /// is.
    pub open spec fn render(&self) -> Seq<char> {
        match (self.string, self.number) {
            (Some(s), Some(n)) => s@ + seq![' '] + dec_digits(n as nat),
            (Some(s), None) => s@,
            (None, Some(n)) => dec_digits(n as nat),
            (None, None) => Seq::empty(),
        }
    }

    /// A builder with neither field set.
    pub fn default() -> (r: Builder)
        ensures
            r.string is None,
            r.number is None,
    {
        Builder { string: None, number: None }
    }

    /// Sets the string field, replacing any earlier value.
    pub fn string(self, value: &str) -> (r: Builder)
        ensures
            r.string is Some,
            r.string.unwrap()@ == value@,
            r.number == self.number,
    {
        Builder { string: Some(value.to_owned()), number: self.number }
    }

    /// Sets the number field, replacing any earlier value.
    pub fn number(self, value: usize) -> (r: Builder)
        ensures
            r.number == Some(value),
            r.string == self.string,
    {
        Builder { string: self.string, number: Some(value) }
    }

    /// Renders the accumulated fields as text.
    pub fn to_string(&self) -> (r: String)
        ensures
            r@ == self.render(),
    {
        let mut out = String::new();
        if let Some(s) = &self.string {
            push_str(&mut out, s.as_str());
        }
        if let Some(n) = &self.number {
            if self.string.is_some() {
                push_str(&mut out, " ");
                proof {
                    reveal_strlit(" ");
                }
            }
            let rendered = usize_to_decimal(*n);
            push_str(&mut out, rendered.as_str());
        }
        proof {
            assert(out@ =~= self.render());
        }
        out
    }
}

/// Relies on String::push_str: appends the given string slice to the end of
/// the string.
#[verifier::external_body]
fn push_str(s: &mut String, t: &str)
    ensures
        final(s)@ == old(s)@ + t@,
{
    s.push_str(t);
}

} // verus!

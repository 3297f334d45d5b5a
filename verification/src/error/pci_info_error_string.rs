use crate::text::{push_char, write_text};
use vstd::prelude::*;
use vstd::std_specs::convert::FromSpecImpl;

verus! {

/// A string type used to carry the brief descriptions held by the error
/// types of this crate.
///
/// Its view is the sequence of characters of the text.
pub struct PciInfoErrorString(String);

impl View for PciInfoErrorString {
    type V = Seq<char>;

    closed spec fn view(&self) -> Seq<char> {
        self.0@
    }
}

impl PciInfoErrorString {
    /// Borrows the text.
    pub fn as_str(&self) -> (r: &str)
        ensures
            r@ == self@,
    {
        self.0.as_str()
    }

    /// The text between double quotes, as it is.
    pub fn to_quoted(&self) -> (r: String)
        ensures
            r@ == seq!['"'] + self@ + seq!['"'],
    {
        let mut out = String::new();
        push_char(&mut out, '"');
        out.append(self.as_str());
        push_char(&mut out, '"');
        out
    }
}

impl core::fmt::Display for PciInfoErrorString {
    /// Writes the text.
    fn fmt(&self, f: &mut core::fmt::Formatter<'_>) -> core::fmt::Result {
        write_text(f, self.as_str())
    }
}

impl core::fmt::Debug for PciInfoErrorString {
    /// Writes the text of [`PciInfoErrorString::to_quoted`].
    fn fmt(&self, f: &mut core::fmt::Formatter<'_>) -> core::fmt::Result {
        write_text(f, self.to_quoted().as_str())
    }
}

impl Clone for PciInfoErrorString {
    fn clone(&self) -> (r: Self)
        ensures
            r@ == self@,
    {
        PciInfoErrorString(self.0.clone())
    }
}

impl From<&'static str> for PciInfoErrorString {
    fn from(value: &'static str) -> (r: Self)
        ensures
            r@ == value@,
    {
        PciInfoErrorString(String::from_str(value))
    }
}

impl FromSpecImpl<&'static str> for PciInfoErrorString {
    open spec fn obeys_from_spec() -> bool {
        false
    }

    open spec fn from_spec(v: &'static str) -> Self {
        arbitrary()
    }
}

impl From<String> for PciInfoErrorString {
    fn from(value: String) -> (r: Self)
        ensures
            r@ == value@,
    {
        PciInfoErrorString(value)
    }
}

impl FromSpecImpl<String> for PciInfoErrorString {
    open spec fn obeys_from_spec() -> bool {
        false
    }

    open spec fn from_spec(v: String) -> Self {
        arbitrary()
    }
}

impl From<PciInfoErrorString> for String {
    fn from(value: PciInfoErrorString) -> (r: String)
        ensures
            r@ == value@,
    {
        value.0
    }
}

impl FromSpecImpl<PciInfoErrorString> for String {
    open spec fn obeys_from_spec() -> bool {
        false
    }

    open spec fn from_spec(v: PciInfoErrorString) -> Self {
        arbitrary()
    }
}

impl<'a> From<&'a PciInfoErrorString> for &'a str {
    fn from(value: &'a PciInfoErrorString) -> (r: &'a str)
        ensures
            r@ == value@,
    {
        value.0.as_str()
    }
}

impl<'a> FromSpecImpl<&'a PciInfoErrorString> for &'a str {
    open spec fn obeys_from_spec() -> bool {
        false
    }

    open spec fn from_spec(v: &'a PciInfoErrorString) -> Self {
        arbitrary()
    }
}

} // verus!

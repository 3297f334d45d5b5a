use super::PciInfoErrorString;
use crate::text::{
    debug_text_of_list, push_signed_decimal, push_text_list, push_upper_hex, signed_decimal_text,
    upper_hex_text, write_text,
};
use vstd::prelude::*;
use vstd::std_specs::convert::FromSpecImpl;

verus! {

/// Lets Verus carry a `std::io::ErrorKind` through verified code. Nothing is
/// known of the value but its identity.
#[verifier::external_type_specification]
#[verifier::external_body]
pub struct ExIoErrorKind(std::io::ErrorKind);

/// Lets Verus accept a `std::io::Error` where one is handed in. Nothing is
/// known of the value.
#[verifier::external_type_specification]
#[verifier::external_body]
pub struct ExIoError(std::io::Error);

/// Calls `std::io::Error::kind`, which gives the kind of an I/O error.
#[verifier::external_body]
fn io_error_kind(err: &std::io::Error) -> std::io::ErrorKind {
    err.kind()
}

/// Error type for errors encountered during device enumeration.
#[derive(Debug)]
#[non_exhaustive]
pub enum PciInfoError {
    /// No default enumerator exists for the platform in use.
    NoDefaultPciEnumeratorForPlatform,
    /// The enumeration has been interrupted by an otherwise non
    /// specified error.
    EnumerationInterrupted(PciInfoErrorString),
    /// An error occurred parsing data. For example it may trigger if
    /// an invalid string like "hello" was found where an hexadecimal
    /// number was expected. The [`PciInfoErrorString`] contained in the
    /// variant carries a brief description of what parsing failed.
    ParseError(PciInfoErrorString),
    /// An I/O error occurred. For example it may trigger if
    /// a file could not be opened because of permissions.
    IoError(Box<std::io::ErrorKind>),
    /// The end of a file or other resource was reached, when more
    /// data was needed.
    UnexpectedEof,
    /// A value that was expected to be found was, in fact, not found.
    /// For example this could happen on a missing property on an
    /// object, or a missing column on a tsv file. The argument,
    /// optional, provides insight on what value was expected and
    /// not found.
    ValueNotFound(Option<PciInfoErrorString>),
    /// The enumerator was able to read multiple values for a given
    /// property, and those values where not consistent. The list
    /// contained in the error provides the conflicting values
    /// that have been read, as text.
    InconsistentValue(Vec<String>),
    /// A WMI operation failed. The argument provides a description
    /// of the failure.
    WMIError(PciInfoErrorString),
    /// A macOS IOKit operation failed. The return value of the
    /// failed API call is contained within.
    IoKitError(i32),
    /// A bus-device-function triplet has components that are out of
    /// range. Specifically, the device should range between
    /// 0 and 31 (5 bits), and function should range between 0 and 7
    /// (3 bits). Reported within are the values of the triplet that
    /// caused the error.
    BdfLocationOutOfRange(u8, u8, u8),
    /// Parsing of an unknown PCI specialized header type has been
    /// attempted.
    UnknownPciHeaderType(u8),
    /// The enumeration has been retried because the device list changed
    /// and the maximum number of iterations has been exceeded.
    DevicesChangedTooManyTimes,
}

/// The mathematical content of a [`PciInfoError`]: the same cases, with every
/// text as a sequence of characters.
pub enum PciInfoErrorView {
    NoDefaultPciEnumeratorForPlatform,
    EnumerationInterrupted(Seq<char>),
    ParseError(Seq<char>),
    IoError(std::io::ErrorKind),
    UnexpectedEof,
    ValueNotFound(Option<Seq<char>>),
    InconsistentValue(Seq<Seq<char>>),
    WMIError(Seq<char>),
    IoKitError(i32),
    BdfLocationOutOfRange(u8, u8, u8),
    UnknownPciHeaderType(u8),
    DevicesChangedTooManyTimes,
}

impl View for PciInfoError {
    type V = PciInfoErrorView;

    open spec fn view(&self) -> PciInfoErrorView {
        match *self {
            PciInfoError::NoDefaultPciEnumeratorForPlatform => {
                PciInfoErrorView::NoDefaultPciEnumeratorForPlatform
            },
            PciInfoError::EnumerationInterrupted(s) => PciInfoErrorView::EnumerationInterrupted(
                s@,
            ),
            PciInfoError::ParseError(s) => PciInfoErrorView::ParseError(s@),
            PciInfoError::IoError(k) => PciInfoErrorView::IoError(*k),
            PciInfoError::UnexpectedEof => PciInfoErrorView::UnexpectedEof,
            PciInfoError::ValueNotFound(None) => PciInfoErrorView::ValueNotFound(None),
            PciInfoError::ValueNotFound(Some(s)) => PciInfoErrorView::ValueNotFound(Some(s@)),
            PciInfoError::InconsistentValue(v) => PciInfoErrorView::InconsistentValue(
                v.deep_view(),
            ),
            PciInfoError::WMIError(s) => PciInfoErrorView::WMIError(s@),
            PciInfoError::IoKitError(v) => PciInfoErrorView::IoKitError(v),
            PciInfoError::BdfLocationOutOfRange(b, d, f) => PciInfoErrorView::BdfLocationOutOfRange(
                b,
                d,
                f,
            ),
            PciInfoError::UnknownPciHeaderType(h) => PciInfoErrorView::UnknownPciHeaderType(h),
            PciInfoError::DevicesChangedTooManyTimes => {
                PciInfoErrorView::DevicesChangedTooManyTimes
            },
        }
    }
}

/// Copies a list of texts, text by text.
fn clone_texts(texts: &Vec<String>) -> (r: Vec<String>)
    ensures
        r.deep_view() == texts.deep_view(),
{
    let mut out: Vec<String> = Vec::new();
    let mut i: usize = 0;
    while i < texts.len()
        invariant
            i <= texts.len(),
            out.len() == i,
            forall|k: int| 0 <= k < i ==> out[k]@ == texts[k]@,
        decreases texts.len() - i,
    {
        out.push(texts[i].clone());
        i += 1;
    }
    out
}

impl Clone for PciInfoError {
    fn clone(&self) -> (r: Self)
        ensures
            r@ == self@,
    {
        match self {
            PciInfoError::NoDefaultPciEnumeratorForPlatform => {
                PciInfoError::NoDefaultPciEnumeratorForPlatform
            },
            PciInfoError::EnumerationInterrupted(s) => PciInfoError::EnumerationInterrupted(
                s.clone(),
            ),
            PciInfoError::ParseError(s) => PciInfoError::ParseError(s.clone()),
            PciInfoError::IoError(k) => PciInfoError::IoError(Box::new(**k)),
            PciInfoError::UnexpectedEof => PciInfoError::UnexpectedEof,
            PciInfoError::ValueNotFound(None) => PciInfoError::ValueNotFound(None),
            PciInfoError::ValueNotFound(Some(s)) => PciInfoError::ValueNotFound(Some(s.clone())),
            PciInfoError::InconsistentValue(v) => PciInfoError::InconsistentValue(clone_texts(v)),
            PciInfoError::WMIError(s) => PciInfoError::WMIError(s.clone()),
            PciInfoError::IoKitError(v) => PciInfoError::IoKitError(*v),
            PciInfoError::BdfLocationOutOfRange(b, d, f) => PciInfoError::BdfLocationOutOfRange(
                *b,
                *d,
                *f,
            ),
            PciInfoError::UnknownPciHeaderType(h) => PciInfoError::UnknownPciHeaderType(*h),
            PciInfoError::DevicesChangedTooManyTimes => PciInfoError::DevicesChangedTooManyTimes,
        }
    }
}

impl From<std::io::Error> for PciInfoError {
    /// The error for an I/O failure: an `IoError` with the kind of the
    /// failure.
    fn from(err: std::io::Error) -> (r: Self)
        ensures
            r@ is IoError,
    {
        PciInfoError::from_io_error_kind(io_error_kind(&err))
    }
}

impl FromSpecImpl<std::io::Error> for PciInfoError {
    open spec fn obeys_from_spec() -> bool {
        false
    }

    open spec fn from_spec(v: std::io::Error) -> Self {
        arbitrary()
    }
}

impl PciInfoError {
    /// The error for an I/O failure of the given kind.
    pub fn from_io_error_kind(kind: std::io::ErrorKind) -> (r: Self)
        ensures
            r@ == PciInfoErrorView::IoError(kind),
    {
        PciInfoError::IoError(Box::new(kind))
    }
}

/// The text that `Display` shows for a kind of I/O error.
pub uninterp spec fn io_error_kind_text(kind: std::io::ErrorKind) -> Seq<char>;

/// Calls `to_string` on a `std::io::ErrorKind`, which writes the kind out
/// as its `Display` shows it.
#[verifier::external_body]
fn show_io_error_kind(kind: &std::io::ErrorKind) -> (r: String)
    ensures
        r@ == io_error_kind_text(*kind),
{
    kind.to_string()
}

impl PciInfoErrorView {
    /// The text that describes the error.
    pub open spec fn message(self) -> Seq<char> {
        match self {
            PciInfoErrorView::ParseError(s) => "error while parsing value: "@ + s,
            PciInfoErrorView::IoError(k) => "i/o error: "@ + io_error_kind_text(k),
            PciInfoErrorView::UnexpectedEof => "unexpected eof while reading data"@,
            PciInfoErrorView::ValueNotFound(None) => "the expected value was not found"@,
            PciInfoErrorView::ValueNotFound(Some(p)) => "the expected value for '"@ + p
                + "' was not found"@,
            PciInfoErrorView::InconsistentValue(e) =>
                "an inconsistent value was read; considered values were: "@ + debug_text_of_list(e),
            PciInfoErrorView::WMIError(m) => "WMI error: "@ + m,
            PciInfoErrorView::IoKitError(v) => "IOKit error "@ + signed_decimal_text(v as int),
            PciInfoErrorView::BdfLocationOutOfRange(bus, dev, func) => "the PCI location ("@
                + upper_hex_text(bus as nat, 2) + seq![':'] + upper_hex_text(dev as nat, 2) + seq![
                '.',
            ] + upper_hex_text(func as nat, 2) + " has out of range components"@,
            PciInfoErrorView::NoDefaultPciEnumeratorForPlatform =>
                "this platform does not support a default PCI enumerator"@,
            PciInfoErrorView::UnknownPciHeaderType(h) => "unknown PCI header type 0x"@
                + upper_hex_text(h as nat, 2),
            PciInfoErrorView::EnumerationInterrupted(e) =>
                "the enumeration has been interrupted: "@ + e,
            PciInfoErrorView::DevicesChangedTooManyTimes =>
                "the list of PCI devices changed too many times"@,
        }
    }
}

impl PciInfoError {
    /// Writes out the text that describes the error.
    pub fn message(&self) -> (r: String)
        ensures
            r@ == self@.message(),
    {
        match self {
            PciInfoError::ParseError(s) => {
                let mut out = String::from_str("error while parsing value: ");
                out.append(s.as_str());
                out
            },
            PciInfoError::IoError(k) => {
                let mut out = String::from_str("i/o error: ");
                let shown = show_io_error_kind(k);
                out.append(shown.as_str());
                out
            },
            PciInfoError::UnexpectedEof => String::from_str("unexpected eof while reading data"),
            PciInfoError::ValueNotFound(None) => String::from_str(
                "the expected value was not found",
            ),
            PciInfoError::ValueNotFound(Some(p)) => {
                let mut out = String::from_str("the expected value for '");
                out.append(p.as_str());
                out.append("' was not found");
                out
            },
            PciInfoError::InconsistentValue(e) => {
                let mut out = String::from_str(
                    "an inconsistent value was read; considered values were: ",
                );
                push_text_list(&mut out, e);
                out
            },
            PciInfoError::WMIError(m) => {
                let mut out = String::from_str("WMI error: ");
                out.append(m.as_str());
                out
            },
            PciInfoError::IoKitError(v) => {
                let mut out = String::from_str("IOKit error ");
                push_signed_decimal(&mut out, *v);
                out
            },
            PciInfoError::BdfLocationOutOfRange(bus, dev, func) => {
                let mut out = String::from_str("the PCI location (");
                push_upper_hex(&mut out, *bus as u64, 2);
                out.append(":");
                push_upper_hex(&mut out, *dev as u64, 2);
                out.append(".");
                push_upper_hex(&mut out, *func as u64, 2);
                out.append(" has out of range components");
                proof {
                    reveal_strlit(":");
                    reveal_strlit(".");
                }
                out
            },
            PciInfoError::NoDefaultPciEnumeratorForPlatform => String::from_str(
                "this platform does not support a default PCI enumerator",
            ),
            PciInfoError::UnknownPciHeaderType(h) => {
                let mut out = String::from_str("unknown PCI header type 0x");
                push_upper_hex(&mut out, *h as u64, 2);
                out
            },
            PciInfoError::EnumerationInterrupted(e) => {
                let mut out = String::from_str("the enumeration has been interrupted: ");
                out.append(e.as_str());
                out
            },
            PciInfoError::DevicesChangedTooManyTimes => String::from_str(
                "the list of PCI devices changed too many times",
            ),
        }
    }
}

impl core::fmt::Display for PciInfoError {
    /// Writes the text of [`PciInfoError::message`].
    fn fmt(&self, f: &mut core::fmt::Formatter<'_>) -> core::fmt::Result {
        write_text(f, self.message().as_str())
    }
}

impl std::error::Error for PciInfoError {}

} // verus!

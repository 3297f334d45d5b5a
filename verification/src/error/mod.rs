mod pci_info_enumeration_error;
mod pci_info_error;
mod pci_info_error_string;

pub use pci_info_enumeration_error::{
    PciDeviceEnumerationError, PciDeviceEnumerationErrorImpact, PciDeviceEnumerationErrorLocation,
};
pub use pci_info_error::{io_error_kind_text, PciInfoError, PciInfoErrorView};
pub use pci_info_error_string::PciInfoErrorString;

use crate::text::write_text;
use vstd::prelude::*;

verus! {

/// An error returned when trying to access a single property of a PCI device.
#[derive(Debug)]
pub enum PciInfoPropertyError {
    /// The required value is not supported by the current enumerator.
    Unsupported,
    /// The enumerator encountered an error when trying to get the value
    /// for this property.
    Error(Box<PciInfoError>),
}

/// The mathematical content of a [`PciInfoPropertyError`].
pub enum PciInfoPropertyErrorView {
    Unsupported,
    Error(PciInfoErrorView),
}

impl View for PciInfoPropertyError {
    type V = PciInfoPropertyErrorView;

    open spec fn view(&self) -> PciInfoPropertyErrorView {
        match *self {
            PciInfoPropertyError::Unsupported => PciInfoPropertyErrorView::Unsupported,
            PciInfoPropertyError::Error(e) => PciInfoPropertyErrorView::Error(e@),
        }
    }
}

impl PciInfoPropertyErrorView {
    /// The text that describes the error.
    pub open spec fn message(self) -> Seq<char> {
        match self {
            PciInfoPropertyErrorView::Unsupported => "unsupported by current enumerator"@,
            PciInfoPropertyErrorView::Error(e) => e.message(),
        }
    }
}

impl PciInfoPropertyError {
    /// Writes out the text that describes the error.
    pub fn message(&self) -> (r: String)
        ensures
            r@ == self@.message(),
    {
        match self {
            PciInfoPropertyError::Unsupported => String::from_str(
                "unsupported by current enumerator",
            ),
            PciInfoPropertyError::Error(e) => e.message(),
        }
    }
}

impl core::fmt::Display for PciInfoPropertyError {
    /// Writes the text of [`PciInfoPropertyError::message`].
    fn fmt(&self, f: &mut core::fmt::Formatter<'_>) -> core::fmt::Result {
        write_text(f, self.message().as_str())
    }
}

impl std::error::Error for PciInfoPropertyError {}

/// A result with the content of its error in place of the error.
pub open spec fn result_view<T>(res: Result<T, PciInfoError>) -> Result<T, PciInfoErrorView> {
    match res {
        Ok(v) => Ok(v),
        Err(e) => Err(e@),
    }
}

} // verus!

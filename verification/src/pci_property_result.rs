use crate::text::{decimal_text, push_decimal, push_upper_hex, upper_hex_text, write_text};
use crate::PciLocation;
use crate::{
    result_view, PciInfoError, PciInfoErrorView, PciInfoPropertyError, PciInfoPropertyErrorView,
};
use core::ops::Deref;
use vstd::prelude::*;
use vstd::std_specs::cmp::PartialEqSpec;
use vstd::std_specs::convert::TryIntoSpec;
use vstd::string::to_string_from_display_ensures;

verus! {

/// One property of a device, which is present with a value, unsupported by
/// the source that was asked, or failed with the error that the source met.
///
/// Its view is `Ok(value)` for a present property, and `Err(..)` with the
/// content of the error for the other two.
pub struct PropertyResult<T>(Result<T, PciInfoPropertyError>);

/// The text of the error that [`PropertyResult::set_res_cast`] stores for a
/// value that does not fit, from the text of the value and the size in
/// bytes of the type it was meant for.
pub open spec fn cast_failure_text(value: Seq<char>, width: nat) -> Seq<char> {
    "Value "@ + value + " cannot fit into "@ + decimal_text(width) + " bytes"@
}

/// The error that stands for a value that does not fit into a type of
/// `width` bytes.
pub fn cast_failure(value: &str, width: usize) -> (e: PciInfoError)
    ensures
        e@ == PciInfoErrorView::ParseError(cast_failure_text(value@, width as nat)),
{
    let mut text = String::from_str("Value ");
    text.append(value);
    text.append(" cannot fit into ");
    push_decimal(&mut text, width as u64);
    text.append(" bytes");
    PciInfoError::ParseError(text.into())
}

impl<T> View for PropertyResult<T> {
    type V = Result<T, PciInfoPropertyErrorView>;

    closed spec fn view(&self) -> Result<T, PciInfoPropertyErrorView> {
        match self.0 {
            Ok(v) => Ok(v),
            Err(e) => Err(e@),
        }
    }
}

/// Whether a property of type `T` holds the failure for the value `v` that
/// does not fit into `T`: a `ParseError` that names the value, as `Display`
/// shows it, and the size of `T`.
pub open spec fn is_cast_failure<T, U: core::fmt::Display>(
    state: Result<T, PciInfoPropertyErrorView>,
    v: U,
) -> bool {
    exists|shown: String|
        to_string_from_display_ensures::<U>(&v, shown) && #[trigger] PropertyResult::<T>::failed(
            PciInfoErrorView::ParseError(cast_failure_text(shown@, vstd::layout::size_of::<T>())),
        ) == state
}

impl<T> PropertyResult<T> {
    /// What a property holds once a value has been set.
    pub open spec fn present(val: T) -> Result<T, PciInfoPropertyErrorView> {
        Ok(val)
    }

    /// What a property holds once an error has been set.
    pub open spec fn failed(err: PciInfoErrorView) -> Result<T, PciInfoPropertyErrorView> {
        Err(PciInfoPropertyErrorView::Error(err))
    }

    /// What a property holds that was never set, or was emptied.
    pub open spec fn unsupported() -> Result<T, PciInfoPropertyErrorView> {
        Err(PciInfoPropertyErrorView::Unsupported)
    }

    /// What a property holds once a result has been set: the value, or the
    /// error as a failure.
    pub open spec fn of_result(res: Result<T, PciInfoErrorView>) -> Result<
        T,
        PciInfoPropertyErrorView,
    > {
        match res {
            Ok(v) => Self::present(v),
            Err(e) => Self::failed(e),
        }
    }

    /// A present property.
    pub fn with_val(val: T) -> (r: Self)
        ensures
            r@ == Self::present(val),
    {
        Self(Ok(val))
    }

    /// A failed property.
    pub fn with_err(err: PciInfoError) -> (r: Self)
        ensures
            r@ == Self::failed(err@),
    {
        Self(Err(PciInfoPropertyError::Error(Box::new(err))))
    }

    /// A property that is present if `res` is a value, and failed with the
    /// error of `res` if not.
    pub fn with_res(res: Result<T, PciInfoError>) -> (r: Self)
        ensures
            r@ == Self::of_result(result_view(res)),
    {
        match res {
            Ok(v) => Self::with_val(v),
            Err(e) => Self::with_err(e),
        }
    }

    /// Sets the property from a result whose value is of a wider type.
    ///
    /// An error is stored as it is. A value is narrowed by `try_into`: where
    /// that succeeds the property becomes present, and where the value does
    /// not fit the property fails with a `ParseError` that names the value
    /// and the type it was meant for. Nothing is truncated.
    pub fn set_res_cast<U: Copy + TryInto<T> + core::fmt::Display>(
        &mut self,
        res: Result<U, PciInfoError>,
    )
        ensures
            res matches Err(e) ==> final(self)@ == Self::failed(e@),
            res matches Ok(v) ==> final(self)@ is Ok || is_cast_failure::<T, U>(final(self)@, v),
            res matches Ok(v) ==> U::obeys_try_into_spec() ==> (match v.try_into_spec() {
                Ok(t) => final(self)@ == Self::present(t),
                Err(_) => is_cast_failure::<T, U>(final(self)@, v),
            }),
    {
        match res {
            Ok(v) => {
                match v.try_into() {
                    Ok(t) => self.set_val(t),
                    Err(_) => {
                        let shown = v.to_string();
                        self.set_err(cast_failure(shown.as_str(), core::mem::size_of::<T>()));
                    },
                }
            },
            Err(e) => self.set_err(e),
        }
    }

    /// Sets the property from a result: present with the value, or failed
    /// with the error.
    pub fn set_res(&mut self, res: Result<T, PciInfoError>)
        ensures
            final(self)@ == Self::of_result(result_view(res)),
    {
        match res {
            Ok(v) => self.set_val(v),
            Err(e) => self.set_err(e),
        }
    }

    /// Makes the property present with the value, whatever it held.
    pub fn set_val(&mut self, val: T)
        ensures
            final(self)@ == Self::present(val),
    {
        self.0 = Ok(val);
    }

    /// Makes the property failed with the error, whatever it held.
    pub fn set_err(&mut self, err: PciInfoError)
        ensures
            final(self)@ == Self::failed(err@),
    {
        self.0 = Err(PciInfoPropertyError::Error(Box::new(err)));
    }

    /// Makes the property unsupported, whatever it held.
    pub fn set_empty(&mut self)
        ensures
            final(self)@ == Self::unsupported(),
    {
        self.0 = Err(PciInfoPropertyError::Unsupported);
    }

    /// The value of a present property.
    pub fn as_option(&self) -> (r: Option<&T>)
        ensures
            match r {
                Some(v) => self@ == Ok::<T, PciInfoPropertyErrorView>(*v),
                None => self@ is Err,
            },
    {
        match &self.0 {
            Ok(v) => Some(v),
            Err(_) => None,
        }
    }

    /// The value of a present property, or the reason why there is none.
    pub fn as_result_ref(&self) -> (r: Result<&T, &PciInfoPropertyError>)
        ensures
            match r {
                Ok(v) => self@ == Ok::<T, PciInfoPropertyErrorView>(*v),
                Err(e) => self@ == Err::<T, PciInfoPropertyErrorView>(e@),
            },
    {
        match &self.0 {
            Ok(v) => Ok(v),
            Err(e) => Err(e),
        }
    }
}

impl<T> Default for PropertyResult<T> {
    /// An unsupported property.
    fn default() -> (r: Self)
        ensures
            r@ == Self::unsupported(),
    {
        Self(Err(PciInfoPropertyError::Unsupported))
    }
}

impl<T: PartialEq> PropertyResult<T> {
    /// Whether the property is present with a value equal to `other`.
    pub fn eq_val(&self, other: &T) -> (r: bool)
        ensures
            self@ is Err ==> !r,
            T::obeys_eq_spec() ==> r == (self@ is Ok && self@->Ok_0.eq_spec(other)),
    {
        match &self.0 {
            Ok(v) => *v == *other,
            Err(_) => false,
        }
    }
}

impl<T: Copy> PropertyResult<T> {
    /// A copy of the value of a present property, or the reason why there
    /// is none.
    pub fn as_result(&self) -> (r: Result<T, &PciInfoPropertyError>)
        ensures
            match r {
                Ok(v) => self@ == Ok::<T, PciInfoPropertyErrorView>(v),
                Err(e) => self@ == Err::<T, PciInfoPropertyErrorView>(e@),
            },
    {
        match &self.0 {
            Ok(v) => Ok(*v),
            Err(e) => Err(e),
        }
    }
}

impl<T: Deref> PropertyResult<T> {
    /// What the value of a present property dereferences to, or the reason
    /// why there is no value.
    pub fn as_result_deref(&self) -> (r: Result<&T::Target, &PciInfoPropertyError>)
        ensures
            match r {
                Ok(t) => self@ is Ok && call_ensures(T::deref, (&self@->Ok_0,), t),
                Err(e) => self@ == Err::<T, PciInfoPropertyErrorView>(e@),
            },
    {
        match &self.0 {
            Ok(v) => Ok(v.deref()),
            Err(e) => Err(e),
        }
    }
}

/// A property reads back what was last set: the value after a value, the
/// failure after an error, and unsupported where nothing was ever set.
pub proof fn lemma_property_round_trip<T>(val: T, err: PciInfoError)
    ensures
        PropertyResult::<T>::present(val) == Ok::<T, PciInfoPropertyErrorView>(val),
        PropertyResult::<T>::of_result(Ok(val)) == PropertyResult::<T>::present(val),
        PropertyResult::<T>::of_result(Err(err@)) == PropertyResult::<T>::failed(err@),
        PropertyResult::<T>::unsupported() is Err,
        PropertyResult::<T>::unsupported() != PropertyResult::<T>::failed(err@),
{
}

/// A value of a property that can be written out as text.
pub trait FormattablePropertyResult {
    /// The text of the value.
    spec fn property_text(&self) -> Seq<char>;

    /// Writes the value out as text.
    fn format_property(&self) -> (r: String)
        ensures
            r@ == self.property_text(),
    ;
}

impl FormattablePropertyResult for PciLocation {
    open spec fn property_text(&self) -> Seq<char> {
        self.text()
    }

    fn format_property(&self) -> (r: String) {
        self.to_text()
    }
}

impl FormattablePropertyResult for u16 {
    /// Four hexadecimal digits.
    open spec fn property_text(&self) -> Seq<char> {
        upper_hex_text(*self as nat, 4)
    }

    fn format_property(&self) -> (r: String) {
        let mut out = String::new();
        push_upper_hex(&mut out, *self as u64, 4);
        out
    }
}

impl FormattablePropertyResult for u8 {
    /// Two hexadecimal digits.
    open spec fn property_text(&self) -> Seq<char> {
        upper_hex_text(*self as nat, 2)
    }

    fn format_property(&self) -> (r: String) {
        let mut out = String::new();
        push_upper_hex(&mut out, *self as u64, 2);
        out
    }
}

impl FormattablePropertyResult for Option<u16> {
    /// Four hexadecimal digits, or `none`.
    open spec fn property_text(&self) -> Seq<char> {
        match *self {
            Some(v) => upper_hex_text(v as nat, 4),
            None => "none"@,
        }
    }

    fn format_property(&self) -> (r: String) {
        match self {
            Some(v) => {
                let mut out = String::new();
                push_upper_hex(&mut out, *v as u64, 4);
                out
            },
            None => String::from_str("none"),
        }
    }
}

/// The text of a property: that of its value where it is present, `n/a`
/// where it is unsupported, and `ERROR` where it failed.
pub open spec fn property_state_text<T: FormattablePropertyResult>(
    state: Result<T, PciInfoPropertyErrorView>,
) -> Seq<char> {
    match state {
        Ok(v) => v.property_text(),
        Err(PciInfoPropertyErrorView::Unsupported) => "n/a"@,
        Err(PciInfoPropertyErrorView::Error(_)) => "ERROR"@,
    }
}

impl<T: FormattablePropertyResult> PropertyResult<T> {
    /// Writes the property out as text.
    pub fn to_text(&self) -> (r: String)
        ensures
            r@ == property_state_text(self@),
    {
        match &self.0 {
            Ok(v) => v.format_property(),
            Err(PciInfoPropertyError::Unsupported) => String::from_str("n/a"),
            Err(PciInfoPropertyError::Error(_)) => String::from_str("ERROR"),
        }
    }
}

impl<T: FormattablePropertyResult> core::fmt::Debug for PropertyResult<T> {
    /// Writes the text of [`PropertyResult::to_text`].
    fn fmt(&self, f: &mut core::fmt::Formatter<'_>) -> core::fmt::Result {
        write_text(f, self.to_text().as_str())
    }
}

} // verus!

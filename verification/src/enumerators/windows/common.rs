use crate::enumerators::code_byte;
use crate::pci_device::PciDeviceProperties;
use crate::pci_property_result::PropertyResult;
use crate::text::{
    chars_of, decimal_text, find_char, first_index_of, is_word, parse_unsigned, push_decimal,
    read_unsigned,
};
use crate::{
    result_view, PciDevice, PciInfoError, PciInfoErrorView, PciInfoPropertyErrorView, PciLocation,
};
use vstd::prelude::*;

verus! {

/// A value that several sources may contribute for one field of a device:
/// it can be copied, told from another value, and written out as text.
pub trait ConflictValue: Copy + Sized {
    /// The text that stands for the value in the list of an
    /// `InconsistentValue` error.
    spec fn text(self) -> Seq<char>;

    /// Whether the two values are the same.
    fn same(&self, other: &Self) -> (r: bool)
        ensures
            r == (*self == *other),
    ;

    /// Writes the value out as text.
    fn to_text(&self) -> (r: String)
        ensures
            r@ == self.text(),
    ;
}

impl ConflictValue for u8 {
    open spec fn text(self) -> Seq<char> {
        decimal_text(self as nat)
    }

    fn same(&self, other: &Self) -> (r: bool) {
        *self == *other
    }

    fn to_text(&self) -> (r: String) {
        let mut out = String::new();
        push_decimal(&mut out, *self as u64);
        out
    }
}

impl ConflictValue for u16 {
    open spec fn text(self) -> Seq<char> {
        decimal_text(self as nat)
    }

    fn same(&self, other: &Self) -> (r: bool) {
        *self == *other
    }

    fn to_text(&self) -> (r: String) {
        let mut out = String::new();
        push_decimal(&mut out, *self as u64);
        out
    }
}

impl ConflictValue for u32 {
    open spec fn text(self) -> Seq<char> {
        decimal_text(self as nat)
    }

    fn same(&self, other: &Self) -> (r: bool) {
        *self == *other
    }

    fn to_text(&self) -> (r: String) {
        let mut out = String::new();
        push_decimal(&mut out, *self as u64);
        out
    }
}

impl ConflictValue for PciLocation {
    open spec fn text(self) -> Seq<char> {
        PciLocation::text(&self)
    }

    fn same(&self, other: &Self) -> (r: bool) {
        *self == *other
    }

    fn to_text(&self) -> (r: String) {
        PciLocation::to_text(self)
    }
}

/// What has been contributed so far for one field of one device.
pub enum ConflictOption<T: ConflictValue> {
    /// Nothing yet.
    Empty,
    /// One value, contributed once or more.
    Value(T),
    /// An error, and no value yet.
    Error(PciInfoError),
    /// Two or more values that differ from each other, in the order in
    /// which they were first contributed.
    Conflict(Vec<T>),
}

/// The mathematical content of a [`ConflictOption`], and the transitions
/// between its states.
pub enum ConflictState<T> {
    Empty,
    Value(T),
    Error(PciInfoErrorView),
    Conflict(Seq<T>),
}

impl<T> ConflictState<T> {
    /// Whether the state is one that contributions can lead to: a conflict
    /// holds two values or more, none of them twice.
    pub open spec fn wf(self) -> bool {
        self matches ConflictState::Conflict(s) ==> s.len() >= 2 && s.no_duplicates()
    }

    /// The values that were contributed.
    pub open spec fn values(self) -> Set<T> {
        match self {
            ConflictState::Empty => Set::empty(),
            ConflictState::Value(v) => set![v],
            ConflictState::Error(_) => Set::empty(),
            ConflictState::Conflict(s) => s.to_set(),
        }
    }

    /// The state after the contribution of a value.
    pub open spec fn replace(self, val: T) -> Self {
        match self {
            ConflictState::Empty => ConflictState::Value(val),
            ConflictState::Value(old) => if old == val {
                self
            } else {
                ConflictState::Conflict(seq![old, val])
            },
            ConflictState::Error(_) => ConflictState::Value(val),
            ConflictState::Conflict(s) => if s.contains(val) {
                self
            } else {
                ConflictState::Conflict(s.push(val))
            },
        }
    }

    /// The state after the contribution of a value or of an error. An error
    /// is kept only where nothing was contributed before.
    pub open spec fn try_replace(self, val: Result<T, PciInfoErrorView>) -> Self {
        match val {
            Ok(v) => self.replace(v),
            Err(e) => if self is Empty {
                ConflictState::Error(e)
            } else {
                self
            },
        }
    }

    /// A contribution leads from a well-formed state to a well-formed
    /// state.
    pub proof fn lemma_try_replace_wf(self, val: Result<T, PciInfoErrorView>)
        requires
            self.wf(),
        ensures
            self.try_replace(val).wf(),
    {
    }

    /// The contribution of a value adds it to the values of the state, and
    /// takes none away.
    pub proof fn lemma_replace_adds(self, val: T)
        requires
            self.wf(),
        ensures
            self.replace(val).values() == self.values().insert(val),
            !(self.replace(val) is Empty),
            !(self.replace(val) is Error),
    {
        match self {
            ConflictState::Conflict(s) => {
                if !s.contains(val) {
                    let t = s.push(val);
                    assert forall|x: T| t.to_set().contains(x) <==> s.to_set().insert(
                        val,
                    ).contains(x) by {
                        if s.contains(x) {
                            let i = choose|i: int| 0 <= i < s.len() && s[i] == x;
                            assert(t[i] == x);
                        }
                        if x == val {
                            assert(t[s.len() as int] == x);
                        }
                    }
                }
            },
            ConflictState::Value(old) => {
                if old != val {
                    let s = seq![old, val];
                    assert forall|x: T| s.to_set().contains(x) <==> set![old].insert(val).contains(
                        x,
                    ) by {}
                }
            },
            _ => {},
        }
    }

    /// To contribute the same value twice is to contribute it once.
    pub proof fn lemma_replace_idempotent(self, val: T)
        ensures
            self.replace(val).replace(val) == self.replace(val),
    {
        match self {
            ConflictState::Conflict(s) => {
                if !s.contains(val) {
                    assert(s.push(val)[s.len() as int] == val);
                }
            },
            _ => {},
        }
    }

    /// An error never displaces what was contributed: it changes the state
    /// only where the state is empty, and a state that holds an error was
    /// empty before or held an error already.
    pub proof fn lemma_error_only_while_empty(self, err: PciInfoErrorView)
        ensures
            !(self is Empty) ==> self.try_replace(Err(err)) == self,
            self is Empty ==> self.try_replace(Err(err)) == ConflictState::<T>::Error(err),
            self.try_replace(Err(err)).values() == self.values(),
    {
    }
}

impl<T: ConflictValue> ConflictState<T> {
    /// The outcome for a field that must have a value: the one value that
    /// was contributed, or the reason why there is not exactly one.
    pub open spec fn into_value(self) -> Result<T, PciInfoErrorView> {
        match self {
            ConflictState::Empty => Err(PciInfoErrorView::ValueNotFound(None)),
            ConflictState::Value(v) => Ok(v),
            ConflictState::Error(e) => Err(e),
            ConflictState::Conflict(s) => Err(
                PciInfoErrorView::InconsistentValue(s.map_values(|v: T| v.text())),
            ),
        }
    }

    /// The outcome for a field that may be without a value: the one value
    /// that was contributed, none where nothing was, or the reason why
    /// there is more than one.
    pub open spec fn into_optvalue(self) -> Result<Option<T>, PciInfoErrorView> {
        match self {
            ConflictState::Empty => Ok(None),
            ConflictState::Value(v) => Ok(Some(v)),
            ConflictState::Error(e) => Err(e),
            ConflictState::Conflict(s) => Err(
                PciInfoErrorView::InconsistentValue(s.map_values(|v: T| v.text())),
            ),
        }
    }
}

impl<T: ConflictValue> View for ConflictOption<T> {
    type V = ConflictState<T>;

    open spec fn view(&self) -> ConflictState<T> {
        match *self {
            ConflictOption::Empty => ConflictState::Empty,
            ConflictOption::Value(v) => ConflictState::Value(v),
            ConflictOption::Error(e) => ConflictState::Error(e@),
            ConflictOption::Conflict(s) => ConflictState::Conflict(s@),
        }
    }
}

impl<T: ConflictValue> Default for ConflictOption<T> {
    /// The state in which nothing has been contributed.
    fn default() -> (r: Self)
        ensures
            r@ == ConflictState::<T>::Empty,
    {
        ConflictOption::Empty
    }
}

/// Whether `val` is among `values`.
fn holds<T: ConflictValue>(values: &Vec<T>, val: &T) -> (r: bool)
    ensures
        r == values@.contains(*val),
{
    let mut i: usize = 0;
    while i < values.len()
        invariant
            i <= values.len(),
            forall|k: int| 0 <= k < i ==> values@[k] != *val,
        decreases values.len() - i,
    {
        if values[i].same(val) {
            return true;
        }
        i += 1;
    }
    false
}

/// The texts of the values, in their order.
fn texts_of<T: ConflictValue>(values: &Vec<T>) -> (r: Vec<String>)
    ensures
        r.deep_view() == values@.map_values(|v: T| v.text()),
{
    let mut out: Vec<String> = Vec::new();
    let mut i: usize = 0;
    while i < values.len()
        invariant
            i <= values.len(),
            out.len() == i,
            forall|k: int| 0 <= k < i ==> out[k]@ == values@[k].text(),
        decreases values.len() - i,
    {
        out.push(values[i].to_text());
        i += 1;
    }
    out
}

impl<T: ConflictValue> ConflictOption<T> {
    /// Contributes a value.
    ///
    /// The first value is kept as it is, and so is a value that was
    /// contributed before. A value that differs from what was contributed
    /// before makes a conflict, or joins the one there is. A value takes the
    /// place of an error.
    pub fn replace(&mut self, val: T)
        ensures
            final(self)@ == old(self)@.replace(val),
    {
        match self {
            ConflictOption::Empty => {
                *self = ConflictOption::Value(val);
            },
            ConflictOption::Value(old) => {
                if !old.same(&val) {
                    let mut values: Vec<T> = Vec::new();
                    values.push(*old);
                    values.push(val);
                    assert(values@ =~= seq![*old, val]);
                    *self = ConflictOption::Conflict(values);
                }
            },
            ConflictOption::Error(_) => {
                *self = ConflictOption::Value(val);
            },
            ConflictOption::Conflict(values) => {
                if !holds(values, &val) {
                    values.push(val);
                }
            },
        }
    }

    /// Contributes a value, or the error that a source met in place of one.
    ///
    /// An error is kept only where nothing was contributed before: a value,
    /// once accepted, is never displaced by a later error, and neither is an
    /// earlier error.
    pub fn try_replace(&mut self, val: Result<T, PciInfoError>)
        ensures
            final(self)@ == old(self)@.try_replace(result_view(val)),
    {
        match val {
            Ok(v) => self.replace(v),
            Err(e) => {
                if self.is_empty() {
                    *self = ConflictOption::Error(e);
                }
            },
        }
    }

    /// Ends the reconciliation of a field that may be without a value.
    ///
    /// Gives the one value that was contributed, or none where nothing was.
    /// Fails with the error that was kept, or with `InconsistentValue` and
    /// the texts of the values of a conflict.
    pub fn into_optvalue(self) -> (r: Result<Option<T>, PciInfoError>)
        ensures
            result_view(r) == self@.into_optvalue(),
    {
        match self {
            ConflictOption::Empty => Ok(None),
            ConflictOption::Value(v) => Ok(Some(v)),
            ConflictOption::Error(e) => Err(e),
            ConflictOption::Conflict(values) => Err(
                PciInfoError::InconsistentValue(texts_of(&values)),
            ),
        }
    }

    /// Ends the reconciliation of a field that must have a value.
    ///
    /// Gives the one value that was contributed. Fails with `ValueNotFound`
    /// where nothing was, with the error that was kept, or with
    /// `InconsistentValue` and the texts of the values of a conflict.
    pub fn into_value(self) -> (r: Result<T, PciInfoError>)
        ensures
            result_view(r) == self@.into_value(),
    {
        match self {
            ConflictOption::Empty => Err(PciInfoError::ValueNotFound(None)),
            ConflictOption::Value(v) => Ok(v),
            ConflictOption::Error(e) => Err(e),
            ConflictOption::Conflict(values) => Err(
                PciInfoError::InconsistentValue(texts_of(&values)),
            ),
        }
    }

    /// Whether nothing has been contributed, neither a value nor an error.
    pub fn is_empty(&self) -> (r: bool)
        ensures
            r == (self@ is Empty),
    {
        match self {
            ConflictOption::Empty => true,
            _ => false,
        }
    }
}

/// What the identification strings of one device have contributed so
/// far, field by field.
pub struct DeviceEntry {
    pub vendor_id: ConflictOption<u16>,
    pub device_id: ConflictOption<u16>,
    pub revision: ConflictOption<u8>,
    pub subsystem: ConflictOption<u32>,
    pub class_code_long: ConflictOption<u32>,
    pub class_code_short: ConflictOption<u32>,
    pub location: ConflictOption<PciLocation>,
}

/// The mathematical content of a [`DeviceEntry`].
pub struct DeviceEntryView {
    pub vendor_id: ConflictState<u16>,
    pub device_id: ConflictState<u16>,
    pub revision: ConflictState<u8>,
    pub subsystem: ConflictState<u32>,
    pub class_code_long: ConflictState<u32>,
    pub class_code_short: ConflictState<u32>,
    pub location: ConflictState<PciLocation>,
}

impl View for DeviceEntry {
    type V = DeviceEntryView;

    open spec fn view(&self) -> DeviceEntryView {
        DeviceEntryView {
            vendor_id: self.vendor_id@,
            device_id: self.device_id@,
            revision: self.revision@,
            subsystem: self.subsystem@,
            class_code_long: self.class_code_long@,
            class_code_short: self.class_code_short@,
            location: self.location@,
        }
    }
}

impl Default for DeviceEntry {
    /// The entry to which nothing has been contributed.
    fn default() -> (r: Self)
        ensures
            r@ == DeviceEntryView::empty(),
    {
        DeviceEntry {
            vendor_id: ConflictOption::Empty,
            device_id: ConflictOption::Empty,
            revision: ConflictOption::Empty,
            subsystem: ConflictOption::Empty,
            class_code_long: ConflictOption::Empty,
            class_code_short: ConflictOption::Empty,
            location: ConflictOption::Empty,
        }
    }
}

/// The text of the error for a value that is no hexadecimal number, or
/// none that fits.
pub open spec fn invalid_hex_text(val: Seq<char>) -> Seq<char> {
    "attempted to parse invalid hex: '"@ + val + "'"@
}

/// What a text stands for as a hexadecimal number that is not above `max`:
/// the number, or a `ParseError` that quotes the text.
pub open spec fn parse_hex(val: Seq<char>, max: nat) -> Result<nat, PciInfoErrorView> {
    match parse_unsigned(val, 16, max) {
        Some(n) => Ok(n),
        None => Err(PciInfoErrorView::ParseError(invalid_hex_text(val))),
    }
}

/// What a text stands for as a hexadecimal number of 8 bits.
pub open spec fn parse_hex_8(val: Seq<char>) -> Result<u8, PciInfoErrorView> {
    match parse_hex(val, 0xFF) {
        Ok(n) => Ok(n as u8),
        Err(e) => Err(e),
    }
}

/// What a text stands for as a hexadecimal number of 16 bits.
pub open spec fn parse_hex_16(val: Seq<char>) -> Result<u16, PciInfoErrorView> {
    match parse_hex(val, 0xFFFF) {
        Ok(n) => Ok(n as u16),
        Err(e) => Err(e),
    }
}

/// What a text stands for as a hexadecimal number of 32 bits.
pub open spec fn parse_hex_32(val: Seq<char>) -> Result<u32, PciInfoErrorView> {
    match parse_hex(val, 0xFFFF_FFFF) {
        Ok(n) => Ok(n as u32),
        Err(e) => Err(e),
    }
}

/// Reads a text as a hexadecimal number that is not above `max`.
fn parse_hex_up_to(val: &str, max: u32) -> (r: Result<u32, PciInfoError>)
    ensures
        match parse_hex(val@, max as nat) {
            Ok(n) => r == Ok::<u32, PciInfoError>(n as u32) && n <= max,
            Err(e) => r is Err && r->Err_0@ == e,
        },
{
    let chars = chars_of(val);
    assert(chars@.subrange(0, chars@.len() as int) == val@);
    match read_unsigned(&chars, 0, chars.len(), 16, max) {
        Some(n) => Ok(n),
        None => {
            let mut text = String::from_str("attempted to parse invalid hex: '");
            text.append(val);
            text.append("'");
            Err(PciInfoError::ParseError(text.into()))
        },
    }
}

/// Reads a text as a hexadecimal number of 8 bits: one plus sign at most,
/// then one hexadecimal digit at least, in either case, and nothing else.
pub fn parse_hex_u8(val: &str) -> (r: Result<u8, PciInfoError>)
    ensures
        result_view(r) == parse_hex_8(val@),
{
    match parse_hex_up_to(val, 0xFF) {
        Ok(n) => Ok(n as u8),
        Err(e) => Err(e),
    }
}

/// Reads a text as a hexadecimal number of 16 bits: one plus sign at most,
/// then one hexadecimal digit at least, in either case, and nothing else.
pub fn parse_hex_u16(val: &str) -> (r: Result<u16, PciInfoError>)
    ensures
        result_view(r) == parse_hex_16(val@),
{
    match parse_hex_up_to(val, 0xFFFF) {
        Ok(n) => Ok(n as u16),
        Err(e) => Err(e),
    }
}

/// Reads a text as a hexadecimal number of 32 bits: one plus sign at most,
/// then one hexadecimal digit at least, in either case, and nothing else.
pub fn parse_hex_u32(val: &str) -> (r: Result<u32, PciInfoError>)
    ensures
        result_view(r) == parse_hex_32(val@),
{
    parse_hex_up_to(val, 0xFFFF_FFFF)
}

impl DeviceEntryView {
    /// The entry to which nothing has been contributed.
    pub open spec fn empty() -> Self {
        DeviceEntryView {
            vendor_id: ConflictState::Empty,
            device_id: ConflictState::Empty,
            revision: ConflictState::Empty,
            subsystem: ConflictState::Empty,
            class_code_long: ConflictState::Empty,
            class_code_short: ConflictState::Empty,
            location: ConflictState::Empty,
        }
    }

    /// The entry after one token of an identification string.
    ///
    /// A token is a key, an underscore and a value. `VEN`, `DEV`, `SUBSYS`,
    /// `REV` and `CC` contribute the value, read as a hexadecimal number, to
    /// the vendor id, the device id, the subsystem, the revision and the
    /// class code; a class code whose text is no longer than four bytes is
    /// a short one. A token without an underscore or with another key
    /// contributes nothing.
    pub open spec fn with_token(self, token: Seq<char>) -> Self {
        let at = first_index_of(token, '_');
        let key = token.take(at);
        let value = token.skip(at + 1);
        if at >= token.len() {
            self
        } else if key == seq!['V', 'E', 'N'] {
            DeviceEntryView { vendor_id: self.vendor_id.try_replace(parse_hex_16(value)), ..self }
        } else if key == seq!['D', 'E', 'V'] {
            DeviceEntryView { device_id: self.device_id.try_replace(parse_hex_16(value)), ..self }
        } else if key == seq!['S', 'U', 'B', 'S', 'Y', 'S'] {
            DeviceEntryView { subsystem: self.subsystem.try_replace(parse_hex_32(value)), ..self }
        } else if key == seq!['R', 'E', 'V'] {
            DeviceEntryView { revision: self.revision.try_replace(parse_hex_8(value)), ..self }
        } else if key == seq!['C', 'C'] {
            if vstd::utf8::encode_utf8(value).len() <= 4 {
                DeviceEntryView {
                    class_code_short: self.class_code_short.try_replace(parse_hex_32(value)),
                    ..self
                }
            } else {
                DeviceEntryView {
                    class_code_long: self.class_code_long.try_replace(parse_hex_32(value)),
                    ..self
                }
            }
        } else {
            self
        }
    }

    /// The entry after an identification string: after each of its tokens,
    /// which `&` separates, from the first to the last.
    pub open spec fn with_hwid(self, hwid: Seq<char>) -> Self
        decreases hwid.len(),
    {
        let at = first_index_of(hwid, '&');
        let next = self.with_token(hwid.take(at));
        if 0 <= at < hwid.len() {
            next.with_hwid(hwid.skip(at + 1))
        } else {
            next
        }
    }

    /// The vendor id and the device id, which a device must have: the two
    /// values, or the error of the first of the two that has not exactly
    /// one value.
    pub open spec fn ids(self) -> Result<(u16, u16), PciInfoErrorView> {
        match self.vendor_id.into_value() {
            Err(e) => Err(e),
            Ok(vendor) => match self.device_id.into_value() {
                Err(e) => Err(e),
                Ok(device) => Ok((vendor, device)),
            },
        }
    }

    /// The class, the subclass and the interface. A long class code gives
    /// all three. Without one, a short class code gives the class and the
    /// subclass, and the interface is not found. Without either, all three
    /// fail as the long class code does.
    pub open spec fn class_parts(self) -> (
        Result<u8, PciInfoErrorView>,
        Result<u8, PciInfoErrorView>,
        Result<u8, PciInfoErrorView>,
    ) {
        match (self.class_code_long.into_value(), self.class_code_short.into_value()) {
            (Ok(code), _) => (
                Ok(code_byte(code, 2)),
                Ok(code_byte(code, 1)),
                Ok(code_byte(code, 0)),
            ),
            (Err(_), Ok(code)) => (
                Ok(code_byte(code, 1)),
                Ok(code_byte(code, 0)),
                Err(PciInfoErrorView::ValueNotFound(None)),
            ),
            (Err(e), Err(_)) => (Err(e), Err(e), Err(e)),
        }
    }

    /// The subsystem vendor id, which is the high half of the subsystem.
    /// It fails as the subsystem does.
    pub open spec fn subsystem_vendor(self) -> Result<Option<u16>, PciInfoErrorView> {
        match self.subsystem.into_optvalue() {
            Ok(None) => Ok(None),
            Ok(Some(v)) => Ok(Some((v / 65536) as u16)),
            Err(e) => Err(e),
        }
    }

    /// The subsystem device id, which is the low half of the subsystem.
    /// It fails as the subsystem does.
    pub open spec fn subsystem_device(self) -> Result<Option<u16>, PciInfoErrorView> {
        match self.subsystem.into_optvalue() {
            Ok(None) => Ok(None),
            Ok(Some(v)) => Ok(Some((v % 65536) as u16)),
            Err(e) => Err(e),
        }
    }

    /// The location. Where none was contributed it is unsupported, unless
    /// it is mandatory: then it fails as not found.
    pub open spec fn location_property(self, location_mandatory: bool) -> Result<
        PciLocation,
        PciInfoPropertyErrorView,
    > {
        if self.location is Empty && !location_mandatory {
            PropertyResult::<PciLocation>::unsupported()
        } else {
            PropertyResult::<PciLocation>::of_result(self.location.into_value())
        }
    }

    /// Whether the properties are those that the entry gives a device.
    pub open spec fn gives(self, location_mandatory: bool, p: PciDeviceProperties) -> bool {
        &&& p.location@ == self.location_property(location_mandatory)
        &&& p.revision@ == PropertyResult::<u8>::of_result(self.revision.into_value())
        &&& p.device_class@ == PropertyResult::<u8>::of_result(self.class_parts().0)
        &&& p.device_subclass@ == PropertyResult::<u8>::of_result(self.class_parts().1)
        &&& p.device_iface@ == PropertyResult::<u8>::of_result(self.class_parts().2)
        &&& p.subsystem_vendor_id@ == PropertyResult::<Option<u16>>::of_result(
            self.subsystem_vendor(),
        )
        &&& p.subsystem_device_id@ == PropertyResult::<Option<u16>>::of_result(
            self.subsystem_device(),
        )
        &&& p.os_irq@ == PropertyResult::<Option<u8>>::unsupported()
        &&& p.os_driver@ == PropertyResult::<Option<String>>::unsupported()
        &&& p.pci_common_header@ == PropertyResult::<
            crate::pci_headers::PciCommonHeader,
        >::unsupported()
        &&& p.pci_specialized_header@ == PropertyResult::<
            crate::pci_headers::PciSpecializedHeader,
        >::unsupported()
    }
}

/// The class, the subclass and the interface that the two class codes of
/// an entry give.
fn class_parts_of(
    class_code_long: Result<u32, PciInfoError>,
    class_code_short: Result<u32, PciInfoError>,
) -> (r: (Result<u8, PciInfoError>, Result<u8, PciInfoError>, Result<u8, PciInfoError>))
    ensures
        result_view(r.0) == (match (result_view(class_code_long), result_view(class_code_short)) {
            (Ok(code), _) => Ok::<u8, PciInfoErrorView>(code_byte(code, 2)),
            (Err(_), Ok(code)) => Ok(code_byte(code, 1)),
            (Err(e), Err(_)) => Err(e),
        }),
        result_view(r.1) == (match (result_view(class_code_long), result_view(class_code_short)) {
            (Ok(code), _) => Ok::<u8, PciInfoErrorView>(code_byte(code, 1)),
            (Err(_), Ok(code)) => Ok(code_byte(code, 0)),
            (Err(e), Err(_)) => Err(e),
        }),
        result_view(r.2) == (match (result_view(class_code_long), result_view(class_code_short)) {
            (Ok(code), _) => Ok::<u8, PciInfoErrorView>(code_byte(code, 0)),
            (Err(_), Ok(code)) => Err(PciInfoErrorView::ValueNotFound(None)),
            (Err(e), Err(_)) => Err(e),
        }),
{
    match class_code_long {
        Ok(code) => {
            let parts = crate::enumerators::decompose_class_code(code);
            (Ok(parts.0), Ok(parts.1), Ok(parts.2))
        },
        Err(e) => match class_code_short {
            Ok(code) => {
                let parts = crate::enumerators::decompose_class_code(code);
                (Ok(parts.1), Ok(parts.2), Err(PciInfoError::ValueNotFound(None)))
            },
            Err(_) => (Err(e.clone()), Err(e.clone()), Err(e)),
        },
    }
}

/// The subsystem vendor id and the subsystem device id that the subsystem
/// of an entry gives.
fn subsystem_parts_of(subsystem: Result<Option<u32>, PciInfoError>) -> (r: (
    Result<Option<u16>, PciInfoError>,
    Result<Option<u16>, PciInfoError>,
))
    ensures
        result_view(r.0) == (match result_view(subsystem) {
            Ok(None) => Ok::<Option<u16>, PciInfoErrorView>(None),
            Ok(Some(v)) => Ok(Some((v / 65536) as u16)),
            Err(e) => Err(e),
        }),
        result_view(r.1) == (match result_view(subsystem) {
            Ok(None) => Ok::<Option<u16>, PciInfoErrorView>(None),
            Ok(Some(v)) => Ok(Some((v % 65536) as u16)),
            Err(e) => Err(e),
        }),
{
    match subsystem {
        Ok(None) => (Ok(None), Ok(None)),
        Ok(Some(v)) => {
            let high: u32 = v >> 16;
            let low: u32 = v & 0xFFFF;
            assert(high == v / 65536 && high < 65536) by (bit_vector)
                requires
                    high == v >> 16,
            ;
            assert(low == v % 65536 && low < 65536) by (bit_vector)
                requires
                    low == v & 0xFFFF,
            ;
            (Ok(Some(high as u16)), Ok(Some(low as u16)))
        },
        Err(e) => (Err(e.clone()), Err(e)),
    }
}

impl DeviceEntry {
    /// Ends the reconciliation of a device.
    ///
    /// The vendor id and the device id must each have exactly one value:
    /// where one has not, there is no device, and the call fails with the
    /// error of the first that has not. Every other field ends on its own:
    /// its property is present, unsupported or failed, whatever became of
    /// the others.
    pub fn try_into_device(self, location_mandatory: bool) -> (r: Result<PciDevice, PciInfoError>)
        ensures
            match self@.ids() {
                Err(e) => r is Err && r->Err_0@ == e,
                Ok((vendor, device)) => {
                    &&& r is Ok
                    &&& r->Ok_0.vendor_id == vendor
                    &&& r->Ok_0.device_id == device
                    &&& self@.gives(location_mandatory, r->Ok_0.properties)
                },
            },
    {
        let vendor_id = match self.vendor_id.into_value() {
            Ok(v) => v,
            Err(e) => {
                return Err(e);
            },
        };
        let device_id = match self.device_id.into_value() {
            Ok(v) => v,
            Err(e) => {
                return Err(e);
            },
        };
        let class_code_long = self.class_code_long.into_value();
        let class_code_short = self.class_code_short.into_value();
        let (c, s, f) = class_parts_of(class_code_long, class_code_short);
        let (sub_v, sub_d) = subsystem_parts_of(self.subsystem.into_optvalue());
        let location = if self.location.is_empty() && !location_mandatory {
            PropertyResult::default()
        } else {
            PropertyResult::with_res(self.location.into_value())
        };
        Ok(
            PciDevice::new(
                vendor_id,
                device_id,
                PciDeviceProperties {
                    location,
                    subsystem_vendor_id: PropertyResult::with_res(sub_v),
                    subsystem_device_id: PropertyResult::with_res(sub_d),
                    revision: PropertyResult::with_res(self.revision.into_value()),
                    device_class: PropertyResult::with_res(c),
                    device_subclass: PropertyResult::with_res(s),
                    device_iface: PropertyResult::with_res(f),
                    os_irq: PropertyResult::default(),
                    os_driver: PropertyResult::default(),
                    pci_common_header: PropertyResult::default(),
                    pci_specialized_header: PropertyResult::default(),
                },
            ),
        )
    }
}

/// Contributes the token `chars[from..to]` of the identification string
/// `hwid` to the entry.
fn parse_token(de: &mut DeviceEntry, hwid: &str, chars: &Vec<char>, from: usize, to: usize)
    requires
        chars@ == hwid@,
        from <= to <= chars.len(),
    ensures
        final(de)@ == old(de)@.with_token(chars@.subrange(from as int, to as int)),
{
    let ghost token = chars@.subrange(from as int, to as int);
    let at = find_char(chars, from, to, '_');
    if at == to {
        return;
    }
    assert(token.take(at - from) == chars@.subrange(from as int, at as int));
    assert(token.skip(at - from + 1) == chars@.subrange(at + 1, to as int));
    let value = hwid.substring_char(at + 1, to);
    let ven = ['V', 'E', 'N'];
    let dev = ['D', 'E', 'V'];
    let subsys = ['S', 'U', 'B', 'S', 'Y', 'S'];
    let rev = ['R', 'E', 'V'];
    let cc = ['C', 'C'];
    if is_word(chars, from, at, &ven) {
        de.vendor_id.try_replace(parse_hex_u16(value));
    } else if is_word(chars, from, at, &dev) {
        de.device_id.try_replace(parse_hex_u16(value));
    } else if is_word(chars, from, at, &subsys) {
        de.subsystem.try_replace(parse_hex_u32(value));
    } else if is_word(chars, from, at, &rev) {
        de.revision.try_replace(parse_hex_u8(value));
    } else if is_word(chars, from, at, &cc) {
        if value.as_bytes().len() <= 4 {
            de.class_code_short.try_replace(parse_hex_u32(value));
        } else {
            de.class_code_long.try_replace(parse_hex_u32(value));
        }
    }
}

/// Contributes every token of an identification string to the entry.
///
/// The tokens are what `&` separates. See [`DeviceEntryView::with_token`]
/// for what each contributes.
pub fn try_parse_windows_hwid(de: &mut DeviceEntry, hwid: &str)
    ensures
        final(de)@ == old(de)@.with_hwid(hwid@),
{
    let chars = chars_of(hwid);
    let len = chars.len();
    let mut from: usize = 0;
    let mut done = false;
    assert(chars@.skip(0) == chars@);
    while !done
        invariant
            chars@ == hwid@,
            len == chars.len(),
            from <= len,
            done ==> de@ == old(de)@.with_hwid(hwid@),
            !done ==> de@.with_hwid(chars@.skip(from as int)) == old(de)@.with_hwid(hwid@),
        decreases len - from + (if done { 0int } else { 1int }),
    {
        let ghost rest = chars@.skip(from as int);
        let to = find_char(&chars, from, len, '&');
        assert(rest.take(to - from) == chars@.subrange(from as int, to as int));
        parse_token(de, hwid, &chars, from, to);
        if to < len {
            assert(rest.skip(to - from + 1) == chars@.skip(to + 1));
            from = to + 1;
        } else {
            done = true;
        }
    }
}

} // verus!

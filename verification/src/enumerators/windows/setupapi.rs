use super::common::{try_parse_windows_hwid, DeviceEntry, DeviceEntryView};
use crate::text::{
    char_from_u32, chars_of, codes_of, debug_text_of_list, debug_text_of_text, decimal_text,
    find_char, first_index_of, is_scalar_value, is_word, parse_unsigned, push_char, push_decimal,
    push_text_list, read_unsigned, show_text,
};
use crate::{result_view, PciInfoError, PciInfoErrorView, PciLocation};
use vstd::prelude::*;

verus! {

/// The type of a registry value that holds nothing.
pub const REG_NONE: u32 = 0;

/// The type of a registry value that holds a text.
pub const REG_SZ: u32 = 1;

/// The type of a registry value that holds a text with references to
/// environment variables.
pub const REG_EXPAND_SZ: u32 = 2;

/// The type of a registry value that holds bytes.
pub const REG_BINARY: u32 = 3;

/// The type of a registry value that holds a number of 32 bits, lowest
/// byte first.
pub const REG_DWORD_LITTLE_ENDIAN: u32 = 4;

/// The type of a registry value that holds a number of 32 bits, highest
/// byte first.
pub const REG_DWORD_BIG_ENDIAN: u32 = 5;

/// The type of a registry value that holds a list of texts.
pub const REG_MULTI_SZ: u32 = 7;

/// The value of a property of a device in the registry.
#[derive(Debug)]
pub enum RegistryProperty {
    /// A value that holds nothing.
    Nothing,
    /// A value that could not be made sense of.
    Invalid,
    /// A number.
    Int(u32),
    /// A text.
    String(String),
    /// A list of texts.
    Strings(Vec<String>),
    /// Bytes.
    Binary(Vec<u8>),
}

/// The 16-bit units that the bytes stand for, lowest byte first. A last
/// byte without a partner is left out.
pub open spec fn units_of(bytes: Seq<u8>) -> Seq<u32> {
    Seq::new(bytes.len() / 2, |i: int| (bytes[2 * i] + 256 * bytes[2 * i + 1]) as u32)
}

/// Where the first unit that is zero stands, or the number of units where
/// none is.
pub open spec fn first_nul(units: Seq<u32>) -> int
    decreases units.len(),
{
    if units.len() == 0 || units[0] == 0 {
        0
    } else {
        1 + first_nul(units.skip(1))
    }
}

/// The units that are the code of a character, in their order.
pub open spec fn scalars_of(units: Seq<u32>) -> Seq<u32>
    decreases units.len(),
{
    if units.len() == 0 {
        Seq::empty()
    } else if is_scalar_value(units.last()) {
        scalars_of(units.drop_last()).push(units.last())
    } else {
        scalars_of(units.drop_last())
    }
}

/// The codes of the characters of the text that the units stand for: the
/// units before the first that is zero, without those that are the code of
/// no character.
pub open spec fn sz_codes(units: Seq<u32>) -> Seq<u32> {
    scalars_of(units.take(first_nul(units)))
}

/// The codes of the characters of the texts that the units stand for: text
/// after text, each ended by a unit that is zero, up to the first text that
/// is empty.
pub open spec fn msz_codes(units: Seq<u32>) -> Seq<Seq<u32>>
    decreases units.len(),
{
    let at = first_nul(units);
    let text = sz_codes(units);
    if text.len() == 0 {
        Seq::empty()
    } else if 0 <= at < units.len() {
        seq![text] + msz_codes(units.skip(at + 1))
    } else {
        seq![text]
    }
}

/// The first unit that is zero lies among the units or at their end.
pub proof fn lemma_first_nul(units: Seq<u32>)
    ensures
        0 <= first_nul(units) <= units.len(),
        first_nul(units) < units.len() ==> units[first_nul(units)] == 0,
    decreases units.len(),
{
    if units.len() > 0 && units[0] != 0 {
        lemma_first_nul(units.skip(1));
    }
}

/// Reads the text that starts at the unit `from`: up to the first unit that
/// is zero, or to the end. Gives the text and the index of the unit after
/// the zero.
fn read_sz(buffer: &Vec<u8>, from: usize) -> (r: (String, usize))
    requires
        from <= buffer.len() / 2,
    ensures
        codes_of(r.0@) == sz_codes(units_of(buffer@).skip(from as int)),
        r.1 == from + first_nul(units_of(buffer@).skip(from as int)) + 1,
{
    let ghost units = units_of(buffer@);
    let ghost rest = units.skip(from as int);
    let count = buffer.len() / 2;
    let mut out = String::new();
    let mut i: usize = from;
    let mut done = false;
    assert(rest.skip(0) == rest);
    while !done
        invariant
            from <= i <= count,
            count == buffer.len() / 2,
            units == units_of(buffer@),
            rest == units.skip(from as int),
            !done ==> first_nul(rest) == (i - from) + first_nul(rest.skip(i - from)),
            !done ==> codes_of(out@) == scalars_of(rest.take(i - from)),
            done ==> first_nul(rest) == i - from,
            done ==> codes_of(out@) == sz_codes(rest),
        decreases count - i + (if done { 0int } else { 1int }),
    {
        if i == count {
            done = true;
        } else {
            let low: u32 = buffer[2 * i] as u32;
            let high: u32 = buffer[2 * i + 1] as u32;
            let unit: u32 = low + 256 * high;
            if unit == 0 {
                done = true;
            } else {
                match char_from_u32(unit) {
                    Some(c) => {
                        push_char(&mut out, c);
                    },
                    None => {},
                }
                assert(rest.take(i - from + 1).drop_last() == rest.take(i - from));
                assert(rest.skip(i - from).skip(1) == rest.skip(i - from + 1));
                i += 1;
            }
        }
    }
    (out, i + 1)
}

/// The text of the error for a property of another type than the one
/// expected, from the text of the property that was found.
pub open spec fn expected_string_text(found: Seq<char>) -> Seq<char> {
    "Expected string, found '"@ + found + seq!['\'']
}

/// The numbers of a list of bytes in decimal, with a comma and a blank
/// between them.
pub open spec fn byte_items_text(bytes: Seq<u8>) -> Seq<char>
    decreases bytes.len(),
{
    if bytes.len() == 0 {
        Seq::empty()
    } else if bytes.len() == 1 {
        decimal_text(bytes[0] as nat)
    } else {
        byte_items_text(bytes.drop_last()) + seq![',', ' '] + decimal_text(bytes.last() as nat)
    }
}

/// Appends the numbers of a list of bytes in decimal to `out`, with a comma
/// and a blank between them.
fn push_byte_items(out: &mut String, bytes: &Vec<u8>)
    ensures
        final(out)@ == old(out)@ + byte_items_text(bytes@),
{
    let mut i: usize = 0;
    while i < bytes.len()
        invariant
            i <= bytes.len(),
            out@ == old(out)@ + byte_items_text(bytes@.take(i as int)),
        decreases bytes.len() - i,
    {
        let ghost before = bytes@.take(i as int);
        let ghost after = bytes@.take(i + 1);
        assert(after.drop_last() == before);
        if i > 0 {
            push_char(out, ',');
            push_char(out, ' ');
        }
        push_decimal(out, bytes[i] as u64);
        i += 1;
    }
    assert(bytes@.take(bytes.len() as int) == bytes@);
}

impl RegistryProperty {
    /// The text that shows the property: the name of its kind and, in round
    /// brackets, what it holds.
    pub open spec fn text(&self) -> Seq<char> {
        match *self {
            RegistryProperty::Nothing => "Nothing"@,
            RegistryProperty::Invalid => "Invalid"@,
            RegistryProperty::Int(v) => "Int("@ + decimal_text(v as nat) + seq![')'],
            RegistryProperty::String(s) => "String("@ + debug_text_of_text(s@) + seq![')'],
            RegistryProperty::Strings(v) => "Strings("@ + debug_text_of_list(v.deep_view()) + seq![
                ')',
            ],
            RegistryProperty::Binary(b) => "Binary(["@ + byte_items_text(b@) + seq![']', ')'],
        }
    }

    /// Writes the property out as text.
    pub fn to_text(&self) -> (r: String)
        ensures
            r@ == self.text(),
    {
        match self {
            RegistryProperty::Nothing => String::from_str("Nothing"),
            RegistryProperty::Invalid => String::from_str("Invalid"),
            RegistryProperty::Int(v) => {
                let mut out = String::from_str("Int(");
                push_decimal(&mut out, *v as u64);
                push_char(&mut out, ')');
                out
            },
            RegistryProperty::String(s) => {
                let mut out = String::from_str("String(");
                out.append(show_text(s.as_str()).as_str());
                push_char(&mut out, ')');
                out
            },
            RegistryProperty::Strings(v) => {
                let mut out = String::from_str("Strings(");
                push_text_list(&mut out, v);
                push_char(&mut out, ')');
                out
            },
            RegistryProperty::Binary(b) => {
                let mut out = String::from_str("Binary([");
                push_byte_items(&mut out, b);
                push_char(&mut out, ']');
                push_char(&mut out, ')');
                out
            },
        }
    }

    /// The error for a property of another type than the one expected.
    fn expected_string(&self) -> (e: PciInfoError)
        ensures
            e@ == PciInfoErrorView::ParseError(expected_string_text(self.text())),
    {
        crate::text::quoted_error("Expected string, found '", self.to_text().as_str())
    }

    /// The text of a property that is one. Any other property fails with a
    /// `ParseError` that shows what was found.
    pub fn into_string(self) -> (r: Result<String, PciInfoError>)
        ensures
            match self {
                RegistryProperty::String(s) => r == Ok::<String, PciInfoError>(s),
                _ => r is Err && r->Err_0@ == PciInfoErrorView::ParseError(
                    expected_string_text(self.text()),
                ),
            },
    {
        match self {
            Self::String(s) => Ok(s),
            v => Err(v.expected_string()),
        }
    }

    /// The texts of a property that is a list of texts. Any other property
    /// fails with a `ParseError` that shows what was found.
    pub fn into_strings(self) -> (r: Result<Vec<String>, PciInfoError>)
        ensures
            match self {
                RegistryProperty::Strings(s) => r == Ok::<Vec<String>, PciInfoError>(s),
                _ => r is Err && r->Err_0@ == PciInfoErrorView::ParseError(
                    expected_string_text(self.text()),
                ),
            },
    {
        match self {
            Self::Strings(s) => Ok(s),
            v => Err(v.expected_string()),
        }
    }

    /// Whether this property is what the bytes of a registry value of the
    /// given type stand for.
    ///
    /// A number is the first four bytes, and invalid where there are fewer.
    /// What the bytes of a binary value hold is not kept. A type that is
    /// not known makes an invalid property.
    pub open spec fn is_value_of(&self, property_data_type: u32, buffer: Seq<u8>) -> bool {
        if property_data_type == REG_NONE {
            *self == RegistryProperty::Nothing
        } else if property_data_type == REG_SZ || property_data_type == REG_EXPAND_SZ {
            *self matches RegistryProperty::String(s) && codes_of(s@) == sz_codes(units_of(buffer))
        } else if property_data_type == REG_MULTI_SZ {
            *self matches RegistryProperty::Strings(v) && v.deep_view().map_values(
                |s: Seq<char>| codes_of(s),
            ) == msz_codes(units_of(buffer))
        } else if property_data_type == REG_BINARY {
            *self matches RegistryProperty::Binary(b) && b@.len() == 0
        } else if property_data_type == REG_DWORD_LITTLE_ENDIAN && buffer.len() >= 4 {
            *self matches RegistryProperty::Int(v) && v == buffer[0] + 256 * buffer[1] + 65536
                * buffer[2] + 16777216 * buffer[3]
        } else if property_data_type == REG_DWORD_BIG_ENDIAN && buffer.len() >= 4 {
            *self matches RegistryProperty::Int(v) && v == buffer[3] + 256 * buffer[2] + 65536
                * buffer[1] + 16777216 * buffer[0]
        } else {
            *self == RegistryProperty::Invalid
        }
    }

    /// Reads a property from the type and the bytes of a registry value.
    pub fn deserialize(property_data_type: u32, buffer: Vec<u8>) -> (r: RegistryProperty)
        ensures
            r.is_value_of(property_data_type, buffer@),
    {
        if property_data_type == REG_NONE {
            Self::Nothing
        } else if property_data_type == REG_SZ || property_data_type == REG_EXPAND_SZ {
            Self::from_sz(buffer)
        } else if property_data_type == REG_MULTI_SZ {
            Self::from_msz(buffer)
        } else if property_data_type == REG_BINARY {
            Self::Binary(Vec::new())
        } else if property_data_type == REG_DWORD_LITTLE_ENDIAN && buffer.len() >= 4 {
            let b0: u32 = buffer[0] as u32;
            let b1: u32 = buffer[1] as u32;
            let b2: u32 = buffer[2] as u32;
            let b3: u32 = buffer[3] as u32;
            Self::Int(b0 + 256 * b1 + 65536 * b2 + 16777216 * b3)
        } else if property_data_type == REG_DWORD_BIG_ENDIAN && buffer.len() >= 4 {
            let b0: u32 = buffer[0] as u32;
            let b1: u32 = buffer[1] as u32;
            let b2: u32 = buffer[2] as u32;
            let b3: u32 = buffer[3] as u32;
            Self::Int(b3 + 256 * b2 + 65536 * b1 + 16777216 * b0)
        } else {
            Self::Invalid
        }
    }

    /// Reads a text from bytes that hold it in UTF-16, lowest byte first:
    /// the units before the first that is zero, without those that are the
    /// code of no character.
    pub fn from_sz(buffer: Vec<u8>) -> (r: RegistryProperty)
        ensures
            r matches RegistryProperty::String(s) && codes_of(s@) == sz_codes(units_of(buffer@)),
    {
        assert(units_of(buffer@).skip(0) == units_of(buffer@));
        let (text, _) = read_sz(&buffer, 0);
        Self::String(text)
    }

    /// Reads a list of texts from bytes that hold them in UTF-16, lowest
    /// byte first, each ended by a unit that is zero. The list ends before
    /// the first text that is empty.
    pub fn from_msz(buffer: Vec<u8>) -> (r: RegistryProperty)
        ensures
            r matches RegistryProperty::Strings(v) && v.deep_view().map_values(
                |s: Seq<char>| codes_of(s),
            ) == msz_codes(units_of(buffer@)),
    {
        let ghost units = units_of(buffer@);
        let count = buffer.len() / 2;
        let mut strings: Vec<String> = Vec::new();
        let mut from: usize = 0;
        let mut done = false;
        assert(units.skip(0) == units);
        while !done
            invariant
                from <= count,
                count == buffer.len() / 2,
                units == units_of(buffer@),
                done ==> strings.deep_view().map_values(|s: Seq<char>| codes_of(s)) == msz_codes(
                    units,
                ),
                !done ==> strings.deep_view().map_values(|s: Seq<char>| codes_of(s)) + msz_codes(
                    units.skip(from as int),
                ) == msz_codes(units),
            decreases count - from + (if done { 0int } else { 1int }),
        {
            let ghost rest = units.skip(from as int);
            proof {
                lemma_first_nul(rest);
            }
            let (s, next) = read_sz(&buffer, from);
            if s.unicode_len() > 0 {
                strings.push(s);
                if next <= count {
                    assert(rest.skip(next - from) == units.skip(next as int));
                    from = next;
                } else {
                    done = true;
                }
            } else {
                done = true;
            }
        }
        Self::Strings(strings)
    }
}

/// Whether the character is one of the ten digits.
pub open spec fn is_ascii_digit(c: char) -> bool {
    48 <= c as u32 <= 57
}

/// The digits and the commas of a text, in their order.
pub open spec fn digits_and_commas(s: Seq<char>) -> Seq<char>
    decreases s.len(),
{
    if s.len() == 0 {
        Seq::empty()
    } else if is_ascii_digit(s.last()) || s.last() == ',' {
        digits_and_commas(s.drop_last()).push(s.last())
    } else {
        digits_and_commas(s.drop_last())
    }
}

/// The numbers of 8 bits among the pieces that the commas of a text part
/// from each other, in their order. A piece that is no such number in
/// decimal is left out.
pub open spec fn numbers_between_commas(s: Seq<char>) -> Seq<u8>
    decreases s.len(),
{
    let at = first_index_of(s, ',');
    let head: Seq<u8> = match parse_unsigned(s.take(at), 10, 0xFF) {
        Some(n) => seq![n as u8],
        None => Seq::empty(),
    };
    if 0 <= at < s.len() {
        head + numbers_between_commas(s.skip(at + 1))
    } else {
        head
    }
}

/// The text of the error for a location text that does not hold three
/// numbers.
pub open spec fn expected_three_text(found: nat, text: Seq<char>) -> Seq<char> {
    "Expected 3 integer elements in pci location, found "@ + decimal_text(found) + " in '"@ + text
        + seq!['\'']
}

/// What the text that Windows shows for the location of a device stands
/// for. All but the digits and the commas of the text is left out, and the
/// numbers between the commas are the bus, the device and the function.
///
/// A text that does not hold three numbers is a `ParseError`, and three
/// numbers that are no location are `BdfLocationOutOfRange`.
pub open spec fn location_of_text(text: Seq<char>) -> Result<PciLocation, PciInfoErrorView> {
    let parts = numbers_between_commas(digits_and_commas(text));
    if parts.len() == 3 {
        PciLocation::checked(0, parts[0], parts[1], parts[2])
    } else {
        Err(PciInfoErrorView::ParseError(expected_three_text(parts.len(), text)))
    }
}

/// The digits and the commas of a text.
fn keep_digits_and_commas(text: &str) -> (r: Vec<char>)
    ensures
        r@ == digits_and_commas(text@),
{
    let chars = chars_of(text);
    let mut out: Vec<char> = Vec::new();
    let mut i: usize = 0;
    while i < chars.len()
        invariant
            i <= chars.len(),
            chars@ == text@,
            out@ == digits_and_commas(chars@.take(i as int)),
        decreases chars.len() - i,
    {
        let c = chars[i];
        let u: u32 = c as u32;
        assert(chars@.take(i + 1).drop_last() == chars@.take(i as int));
        if (48 <= u && u <= 57) || c == ',' {
            out.push(c);
        }
        i += 1;
    }
    assert(chars@.take(chars.len() as int) == chars@);
    out
}

/// The numbers of 8 bits between the commas of a text.
fn read_numbers_between_commas(chars: &Vec<char>) -> (r: Vec<u8>)
    ensures
        r@ == numbers_between_commas(chars@),
{
    let len = chars.len();
    let mut out: Vec<u8> = Vec::new();
    let mut from: usize = 0;
    let mut done = false;
    assert(chars@.skip(0) == chars@);
    while !done
        invariant
            len == chars.len(),
            from <= len,
            done ==> out@ == numbers_between_commas(chars@),
            !done ==> out@ + numbers_between_commas(chars@.skip(from as int))
                == numbers_between_commas(chars@),
        decreases len - from + (if done { 0int } else { 1int }),
    {
        let ghost rest = chars@.skip(from as int);
        let to = find_char(chars, from, len, ',');
        assert(rest.take(to - from) == chars@.subrange(from as int, to as int));
        match read_unsigned(chars, from, to, 10, 0xFF) {
            Some(n) => {
                out.push(n as u8);
            },
            None => {},
        }
        if to < len {
            assert(rest.skip(to - from + 1) == chars@.skip(to + 1));
            from = to + 1;
        } else {
            done = true;
        }
    }
    out
}

/// Reads the location of a device from the text that Windows shows for it,
/// such as `PCI bus 0, device 31, function 3`.
///
/// Fails with a `ParseError` where the text does not hold three numbers,
/// and with `BdfLocationOutOfRange` where the numbers are no location.
pub fn parse_pci_location(text: &str) -> (r: Result<PciLocation, PciInfoError>)
    ensures
        result_view(r) == location_of_text(text@),
{
    let kept = keep_digits_and_commas(text);
    let parts = read_numbers_between_commas(&kept);
    if parts.len() == 3 {
        PciLocation::with_bdf(parts[0], parts[1], parts[2])
    } else {
        let mut message = String::from_str("Expected 3 integer elements in pci location, found ");
        push_decimal(&mut message, parts.len() as u64);
        message.append(" in '");
        message.append(text);
        push_char(&mut message, '\'');
        assert(message@ =~= expected_three_text(parts@.len(), text@));
        Err(PciInfoError::ParseError(message.into()))
    }
}

impl DeviceEntryView {
    /// The entry after one identification string of Windows: one that
    /// starts with `PCI\` contributes the tokens after that start, and any
    /// other contributes nothing.
    pub open spec fn with_id(self, id: Seq<char>) -> Self {
        if id.len() >= 4 && id.take(4) == seq!['P', 'C', 'I', '\\'] {
            self.with_hwid(id.skip(4))
        } else {
            self
        }
    }

    /// The entry after a list of identification strings, from the first to
    /// the last.
    pub open spec fn with_ids(self, ids: Seq<Seq<char>>) -> Self
        decreases ids.len(),
    {
        if ids.len() == 0 {
            self
        } else {
            self.with_ids(ids.drop_last()).with_id(ids.last())
        }
    }
}

/// Contributes one identification string of Windows to the entry.
pub fn parse_windows_id(de: &mut DeviceEntry, id: &str)
    ensures
        final(de)@ == old(de)@.with_id(id@),
{
    let chars = chars_of(id);
    let prefix = ['P', 'C', 'I', '\\'];
    if chars.len() >= 4 && is_word(&chars, 0, 4, &prefix) {
        let rest = id.substring_char(4, chars.len());
        try_parse_windows_hwid(de, rest);
    }
}

/// Contributes a list of identification strings of Windows to the entry,
/// from the first to the last.
pub fn parse_windows_ids(de: &mut DeviceEntry, ids: &Vec<String>)
    ensures
        final(de)@ == old(de)@.with_ids(ids.deep_view()),
{
    let ghost all = ids.deep_view();
    let mut i: usize = 0;
    while i < ids.len()
        invariant
            i <= ids.len(),
            all == ids.deep_view(),
            de@ == old(de)@.with_ids(all.take(i as int)),
        decreases ids.len() - i,
    {
        assert(all.take(i + 1).drop_last() == all.take(i as int));
        parse_windows_id(de, ids[i].as_str());
        i += 1;
    }
    assert(all.take(ids.len() as int) == all);
}

/// The entry of a device, from the identification strings that Windows
/// keeps for it: the hardware ids, then the compatible ids.
pub fn device_entry_from_ids(hardware_ids: &Vec<String>, compatible_ids: &Vec<String>) -> (r:
    DeviceEntry)
    ensures
        r@ == DeviceEntryView::empty().with_ids(hardware_ids.deep_view()).with_ids(
            compatible_ids.deep_view(),
        ),
{
    let mut de = DeviceEntry::default();
    parse_windows_ids(&mut de, hardware_ids);
    parse_windows_ids(&mut de, compatible_ids);
    de
}

/// Whether the units of the instance id of a device start with `PCI\`.
pub open spec fn starts_with_pci(units: Seq<u16>) -> bool {
    units.len() >= 4 && units[0] == 0x50 && units[1] == 0x43 && units[2] == 0x49 && units[3]
        == 0x5C
}

/// The texts of a property that was read, where it is a list of texts: the
/// error of the read, or the error for a property of another type.
pub open spec fn strings_of_property(property: Result<RegistryProperty, PciInfoErrorView>)
    -> Result<Seq<Seq<char>>, PciInfoErrorView> {
    match property {
        Err(e) => Err(e),
        Ok(RegistryProperty::Strings(v)) => Ok(v.deep_view()),
        Ok(p) => Err(PciInfoErrorView::ParseError(expected_string_text(p.text()))),
    }
}

/// The location that a property that was read stands for, where it is a
/// text: the error of the read, the error for a property of another type,
/// or what the text stands for.
pub open spec fn location_of_property(property: Result<RegistryProperty, PciInfoErrorView>)
    -> Result<PciLocation, PciInfoErrorView> {
    match property {
        Err(e) => Err(e),
        Ok(RegistryProperty::String(s)) => location_of_text(s@),
        Ok(p) => Err(PciInfoErrorView::ParseError(expected_string_text(p.text()))),
    }
}

/// The entry of a device, from the outcomes of reading its hardware ids,
/// its compatible ids and its location from the registry. Without the two
/// lists of ids there is no entry. The location is contributed as it was
/// read, be it a location or an error.
pub open spec fn entry_of_properties(
    hardware_ids: Result<RegistryProperty, PciInfoErrorView>,
    compatible_ids: Result<RegistryProperty, PciInfoErrorView>,
    location: Result<RegistryProperty, PciInfoErrorView>,
) -> Result<DeviceEntryView, PciInfoErrorView> {
    match strings_of_property(hardware_ids) {
        Err(e) => Err(e),
        Ok(hwids) => match strings_of_property(compatible_ids) {
            Err(e) => Err(e),
            Ok(compids) => {
                let de = DeviceEntryView::empty().with_ids(hwids).with_ids(compids);
                Ok(
                    DeviceEntryView {
                        location: de.location.try_replace(location_of_property(location)),
                        ..de
                    },
                )
            },
        },
    }
}

/// Whether the instance id of a device, in UTF-16, starts with `PCI\`.
pub fn is_pci_instance_id(device_instance_id: &[u16]) -> (r: bool)
    ensures
        r == starts_with_pci(device_instance_id@),
{
    device_instance_id.len() >= 4 && device_instance_id[0] == 0x50 && device_instance_id[1] == 0x43
        && device_instance_id[2] == 0x49 && device_instance_id[3] == 0x5C
}

/// Reads the location of a device from the property that holds the text
/// that Windows shows for it, as it was read from the registry.
pub fn location_from_property(property: Result<RegistryProperty, PciInfoError>) -> (r: Result<
    PciLocation,
    PciInfoError,
>)
    ensures
        result_view(r) == location_of_property(result_view(property)),
{
    let text = match property {
        Ok(p) => match p.into_string() {
            Ok(text) => text,
            Err(e) => {
                return Err(e);
            },
        },
        Err(e) => {
            return Err(e);
        },
    };
    parse_pci_location(text.as_str())
}

/// The texts of a property that holds a list of texts, as it was read from
/// the registry.
fn strings_from_property(property: Result<RegistryProperty, PciInfoError>) -> (r: Result<
    Vec<String>,
    PciInfoError,
>)
    ensures
        match strings_of_property(result_view(property)) {
            Ok(v) => r is Ok && r->Ok_0.deep_view() == v,
            Err(e) => r is Err && r->Err_0@ == e,
        },
{
    match property {
        Ok(p) => p.into_strings(),
        Err(e) => Err(e),
    }
}

/// Builds the entry of a device from what the registry holds for it: its
/// instance id, and the outcomes of reading its hardware ids, its
/// compatible ids and its location.
///
/// A device whose instance id does not start with `PCI\` is no PCI device:
/// there is no entry for it, and no error.
pub fn enumerate_device(
    device_instance_id: &[u16],
    hardware_ids: Result<RegistryProperty, PciInfoError>,
    compatible_ids: Result<RegistryProperty, PciInfoError>,
    location: Result<RegistryProperty, PciInfoError>,
) -> (r: Result<Option<DeviceEntry>, PciInfoError>)
    ensures
        !starts_with_pci(device_instance_id@) ==> r matches Ok(None),
        starts_with_pci(device_instance_id@) ==> (match entry_of_properties(
            result_view(hardware_ids),
            result_view(compatible_ids),
            result_view(location),
        ) {
            Ok(entry) => r matches Ok(Some(de)) && de@ == entry,
            Err(e) => r is Err && r->Err_0@ == e,
        }),
{
    if !is_pci_instance_id(device_instance_id) {
        return Ok(None);
    }
    let hardware_ids = match strings_from_property(hardware_ids) {
        Ok(v) => v,
        Err(e) => {
            return Err(e);
        },
    };
    let compatible_ids = match strings_from_property(compatible_ids) {
        Ok(v) => v,
        Err(e) => {
            return Err(e);
        },
    };
    let mut de = device_entry_from_ids(&hardware_ids, &compatible_ids);
    de.location.try_replace(location_from_property(location));
    Ok(Some(de))
}

} // verus!

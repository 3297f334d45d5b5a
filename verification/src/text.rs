//! Text building blocks: numbers read from text and written out as text,
//! and texts searched, split and trimmed.

use vstd::prelude::*;

verus! {

/// Lets Verus accept `core::fmt::Formatter` in the signature of a
/// formatting method. Nothing is known of the value.
#[verifier::external_type_specification]
#[verifier::external_body]
pub struct ExFormatter<'a>(core::fmt::Formatter<'a>);

/// Lets Verus accept `core::fmt::Error` in the result of a formatting
/// method. Nothing is known of the value.
#[verifier::external_type_specification]
#[verifier::external_body]
pub struct ExFmtError(core::fmt::Error);

/// Calls `Formatter::write_str`, which writes the text to the formatter or
/// fails where the formatter does.
#[verifier::external_body]
pub(crate) fn write_text(f: &mut core::fmt::Formatter<'_>, text: &str) -> core::fmt::Result {
    f.write_str(text)
}

/// Calls `String::push`, which appends the one character to the end of the
/// string and leaves what was there before as it was.
#[verifier::external_body]
pub(crate) fn push_char(out: &mut String, c: char)
    ensures
        final(out)@ == old(out)@.push(c),
{
    out.push(c)
}

/// The characters of `s`, in order.
pub(crate) fn chars_of(s: &str) -> (v: Vec<char>)
    ensures
        v@ == s@,
{
    let mut v: Vec<char> = Vec::new();
    for c in it: s.chars()
        invariant
            it.seq() == s@,
            v@ == it.seq().take(it.index() as int),
    {
        v.push(c);
    }
    v
}

/// The character that stands for the digit `d` in base 10 and, in upper
/// case, in base 16.
pub open spec fn digit_char(d: nat) -> char {
    if d == 0 {
        '0'
    } else if d == 1 {
        '1'
    } else if d == 2 {
        '2'
    } else if d == 3 {
        '3'
    } else if d == 4 {
        '4'
    } else if d == 5 {
        '5'
    } else if d == 6 {
        '6'
    } else if d == 7 {
        '7'
    } else if d == 8 {
        '8'
    } else if d == 9 {
        '9'
    } else if d == 10 {
        'A'
    } else if d == 11 {
        'B'
    } else if d == 12 {
        'C'
    } else if d == 13 {
        'D'
    } else if d == 14 {
        'E'
    } else {
        'F'
    }
}

/// `n` in decimal, without sign or padding.
pub open spec fn decimal_text(n: nat) -> Seq<char>
    decreases n,
{
    if n < 10 {
        seq![digit_char(n)]
    } else {
        decimal_text(n / 10).push(digit_char(n % 10))
    }
}

/// `n` in upper-case hexadecimal, padded with zeros on the left to at least
/// `width` digits.
pub open spec fn upper_hex_text(n: nat, width: nat) -> Seq<char>
    decreases n, width,
{
    if n < 16 && width <= 1 {
        seq![digit_char(n)]
    } else {
        upper_hex_text(
            n / 16,
            if width > 0 {
                (width - 1) as nat
            } else {
                0
            },
        ).push(digit_char(n % 16))
    }
}

/// The character of one digit.
fn digit_to_char(d: u64) -> (c: char)
    requires
        d < 16,
    ensures
        c == digit_char(d as nat),
{
    if d == 0 {
        '0'
    } else if d == 1 {
        '1'
    } else if d == 2 {
        '2'
    } else if d == 3 {
        '3'
    } else if d == 4 {
        '4'
    } else if d == 5 {
        '5'
    } else if d == 6 {
        '6'
    } else if d == 7 {
        '7'
    } else if d == 8 {
        '8'
    } else if d == 9 {
        '9'
    } else if d == 10 {
        'A'
    } else if d == 11 {
        'B'
    } else if d == 12 {
        'C'
    } else if d == 13 {
        'D'
    } else if d == 14 {
        'E'
    } else {
        'F'
    }
}

/// Appends `v` in decimal to `out`.
pub(crate) fn push_decimal(out: &mut String, v: u64)
    ensures
        final(out)@ == old(out)@ + decimal_text(v as nat),
    decreases v,
{
    if v >= 10 {
        push_decimal(out, v / 10);
    }
    push_char(out, digit_to_char(v % 10));
}

/// Appends `v` in upper-case hexadecimal to `out`, padded with zeros on the
/// left to at least `width` digits.
pub(crate) fn push_upper_hex(out: &mut String, v: u64, width: usize)
    ensures
        final(out)@ == old(out)@ + upper_hex_text(v as nat, width as nat),
    decreases v, width,
{
    if v >= 16 || width > 1 {
        let rest: usize = if width > 0 {
            width - 1
        } else {
            0
        };
        push_upper_hex(out, v / 16, rest);
    }
    push_char(out, digit_to_char(v % 16));
}


/// The value of the character as a digit in the given radix: `0` to `9`
/// stand for 0 to 9 and the letters, in either case, for 10 to 35. A
/// character that is no digit, or whose value is not below the radix, has
/// none.
pub open spec fn digit_value(c: char, radix: nat) -> Option<nat> {
    let u = c as u32;
    let d: int = if 48 <= u <= 57 {
        u - 48
    } else if 97 <= u <= 122 {
        u - 87
    } else if 65 <= u <= 90 {
        u - 55
    } else {
        -1
    };
    if 0 <= d < radix {
        Some(d as nat)
    } else {
        None
    }
}

/// Whether every character is a digit in the given radix.
pub open spec fn all_digits(s: Seq<char>, radix: nat) -> bool {
    forall|i: int| 0 <= i < s.len() ==> (#[trigger] digit_value(s[i], radix)) is Some
}

/// The number that the digits stand for in the given radix, the first
/// digit being the most significant.
pub open spec fn digits_value(s: Seq<char>, radix: nat) -> nat
    decreases s.len(),
{
    if s.len() == 0 {
        0
    } else {
        digits_value(s.drop_last(), radix) * radix + (match digit_value(s.last(), radix) {
            Some(d) => d,
            None => 0,
        })
    }
}

/// The number that the text stands for as an unsigned integer in the given
/// radix, where it is one and is not above `max`.
///
/// The text is one plus sign at most, then one digit at least, and nothing
/// else: no blanks, no minus sign, no underscores.
pub open spec fn parse_unsigned(s: Seq<char>, radix: nat, max: nat) -> Option<nat> {
    let body = if s.len() > 0 && s[0] == '+' {
        s.skip(1)
    } else {
        s
    };
    if body.len() > 0 && all_digits(body, radix) && digits_value(body, radix) <= max {
        Some(digits_value(body, radix))
    } else {
        None
    }
}

/// The digits after a prefix never make the number smaller.
pub proof fn lemma_digits_value_grows(s: Seq<char>, radix: nat, k: int)
    requires
        0 <= k <= s.len(),
        radix >= 1,
    ensures
        digits_value(s.take(k), radix) <= digits_value(s, radix),
    decreases s.len(),
{
    if k < s.len() {
        lemma_digits_value_grows(s.drop_last(), radix, k);
        assert(s.drop_last().take(k) == s.take(k));
        assert(digits_value(s.drop_last(), radix) * radix >= digits_value(s.drop_last(), radix))
            by (nonlinear_arith)
            requires
                radix >= 1,
        ;
    } else {
        assert(s.take(k) == s);
    }
}

/// The value of one character as a digit, if it is one.
fn digit_of(c: char, radix: u32) -> (r: Option<u32>)
    requires
        2 <= radix <= 36,
    ensures
        r is Some <==> digit_value(c, radix as nat) is Some,
        r matches Some(d) ==> digit_value(c, radix as nat) == Some(d as nat) && d < radix,
{
    let u: u32 = c as u32;
    let d: u32 = if 48 <= u && u <= 57 {
        u - 48
    } else if 97 <= u && u <= 122 {
        u - 87
    } else if 65 <= u && u <= 90 {
        u - 55
    } else {
        return None;
    };
    if d < radix {
        Some(d)
    } else {
        None
    }
}

/// Reads `chars[from..to]` as an unsigned integer in the given radix that
/// is not above `max`.
pub fn read_unsigned(chars: &Vec<char>, from: usize, to: usize, radix: u32, max: u32) -> (r:
    Option<u32>)
    requires
        from <= to <= chars.len(),
        2 <= radix <= 36,
    ensures
        r is Some <==> parse_unsigned(
            chars@.subrange(from as int, to as int),
            radix as nat,
            max as nat,
        ) is Some,
        r matches Some(v) ==> parse_unsigned(
            chars@.subrange(from as int, to as int),
            radix as nat,
            max as nat,
        ) == Some(v as nat),
{
    let ghost s = chars@.subrange(from as int, to as int);
    let start: usize = if from < to && chars[from] == '+' {
        from + 1
    } else {
        from
    };
    let ghost body = chars@.subrange(start as int, to as int);
    if start == to {
        return None;
    }
    let mut acc: u64 = 0;
    let mut i: usize = start;
    while i < to
        invariant
            start <= i <= to <= chars.len(),
            2 <= radix <= 36,
            s == chars@.subrange(from as int, to as int),
            body == chars@.subrange(start as int, to as int),
            body == if s.len() > 0 && s[0] == '+' {
                s.skip(1)
            } else {
                s
            },
            all_digits(body.take(i - start), radix as nat),
            acc == digits_value(body.take(i - start), radix as nat),
            acc <= max,
        decreases to - i,
    {
        let ghost before = body.take(i - start);
        let ghost after = body.take(i - start + 1);
        assert(after.drop_last() == before);
        assert(after.last() == chars@[i as int]);
        match digit_of(chars[i], radix) {
            None => {
                return None;
            },
            Some(d) => {
                assert(acc * radix + d <= 0xFFFF_FFFF * 36 + 36) by (nonlinear_arith)
                    requires
                        acc <= 0xFFFF_FFFF,
                        radix <= 36,
                        d < 36,
                ;
                let next: u64 = acc * (radix as u64) + (d as u64);
                if next > max as u64 {
                    proof {
                        if all_digits(body, radix as nat) {
                            lemma_digits_value_grows(body, radix as nat, i - start + 1);
                        }
                    }
                    return None;
                }
                assert forall|k: int| 0 <= k < after.len() implies (#[trigger] digit_value(
                    after[k],
                    radix as nat,
                )) is Some by {}
                acc = next;
                i += 1;
            },
        }
    }
    assert(body.take(to - start) == body);
    Some(acc as u32)
}

/// Where the character first occurs in the text, or the length of the
/// text where it does not occur.
pub open spec fn first_index_of(s: Seq<char>, c: char) -> int
    decreases s.len(),
{
    if s.len() == 0 || s[0] == c {
        0
    } else {
        1 + first_index_of(s.skip(1), c)
    }
}

/// The first index of a character lies in the text or at its end, the
/// character stands there if it lies in the text, and it does not stand
/// anywhere before.
pub proof fn lemma_first_index_of(s: Seq<char>, c: char)
    ensures
        0 <= first_index_of(s, c) <= s.len(),
        first_index_of(s, c) < s.len() ==> s[first_index_of(s, c)] == c,
        forall|j: int| 0 <= j < first_index_of(s, c) ==> s[j] != c,
    decreases s.len(),
{
    if s.len() > 0 && s[0] != c {
        lemma_first_index_of(s.skip(1), c);
        assert forall|j: int| 0 <= j < first_index_of(s, c) implies s[j] != c by {
            if j > 0 {
                assert(s.skip(1)[j - 1] == s[j]);
            }
        }
    }
}

/// Finds where `c` first occurs in `chars[from..to]`: the index in `chars`,
/// or `to` where it does not occur.
pub fn find_char(chars: &Vec<char>, from: usize, to: usize, c: char) -> (r: usize)
    requires
        from <= to <= chars.len(),
    ensures
        from <= r <= to,
        r - from == first_index_of(chars@.subrange(from as int, to as int), c),
{
    let ghost s = chars@.subrange(from as int, to as int);
    let mut i: usize = from;
    assert(s.skip(0) == s);
    while i < to && chars[i] != c
        invariant
            from <= i <= to <= chars.len(),
            s == chars@.subrange(from as int, to as int),
            first_index_of(s, c) == (i - from) + first_index_of(s.skip(i - from), c),
        decreases to - i,
    {
        assert(s.skip(i - from).skip(1) == s.skip(i - from + 1));
        i += 1;
    }
    i
}

/// Whether `chars[from..to]` is the text `word`.
pub fn is_word(chars: &Vec<char>, from: usize, to: usize, word: &[char]) -> (r: bool)
    requires
        from <= to <= chars.len(),
    ensures
        r == (chars@.subrange(from as int, to as int) == word@),
{
    let ghost s = chars@.subrange(from as int, to as int);
    if to - from != word.len() {
        return false;
    }
    let mut i: usize = 0;
    while i < word.len()
        invariant
            from <= to <= chars.len(),
            to - from == word.len(),
            i <= word.len(),
            s == chars@.subrange(from as int, to as int),
            forall|k: int| 0 <= k < i ==> s[k] == word@[k],
        decreases word.len() - i,
    {
        if chars[from + i] != word[i] {
            return false;
        }
        i += 1;
    }
    assert(s =~= word@);
    true
}


/// Reads a text as an unsigned integer in the given radix that is not
/// above `max`: one plus sign at most, then one digit at least, and nothing
/// else.
pub fn read_number(val: &str, radix: u32, max: u32) -> (r: Option<u32>)
    requires
        2 <= radix <= 36,
    ensures
        r is Some <==> parse_unsigned(val@, radix as nat, max as nat) is Some,
        r matches Some(v) ==> parse_unsigned(val@, radix as nat, max as nat) == Some(v as nat),
{
    let chars = chars_of(val);
    assert(chars@.subrange(0, chars@.len() as int) == val@);
    read_unsigned(&chars, 0, chars.len(), radix, max)
}

/// Whether the character is white space: a character with the Unicode
/// property `White_Space`.
pub open spec fn is_whitespace(c: char) -> bool {
    let u = c as u32;
    ||| 0x09 <= u <= 0x0D
    ||| u == 0x20
    ||| u == 0x85
    ||| u == 0xA0
    ||| u == 0x1680
    ||| 0x2000 <= u <= 0x200A
    ||| u == 0x2028
    ||| u == 0x2029
    ||| u == 0x202F
    ||| u == 0x205F
    ||| u == 0x3000
}

/// The text without the white space at its start.
pub open spec fn trim_start(s: Seq<char>) -> Seq<char>
    decreases s.len(),
{
    if s.len() > 0 && is_whitespace(s[0]) {
        trim_start(s.skip(1))
    } else {
        s
    }
}

/// The text without the white space at its end.
pub open spec fn trim_end(s: Seq<char>) -> Seq<char>
    decreases s.len(),
{
    if s.len() > 0 && is_whitespace(s.last()) {
        trim_end(s.drop_last())
    } else {
        s
    }
}

/// The text without the white space at its start and at its end.
pub open spec fn trim(s: Seq<char>) -> Seq<char> {
    trim_end(trim_start(s))
}

/// The pieces of the text that the separator parts from each other, in
/// their order. A text without the separator is one piece, and so is the
/// empty text.
pub open spec fn split(s: Seq<char>, sep: char) -> Seq<Seq<char>>
    decreases s.len(),
{
    let at = first_index_of(s, sep);
    if 0 <= at < s.len() {
        seq![s.take(at)] + split(s.skip(at + 1), sep)
    } else {
        seq![s]
    }
}

/// The views of a list of texts.
pub open spec fn views_of(pieces: Seq<&str>) -> Seq<Seq<char>> {
    pieces.map_values(|p: &str| p@)
}

/// Whether the character is white space.
fn is_space(c: char) -> (r: bool)
    ensures
        r == is_whitespace(c),
{
    let u: u32 = c as u32;
    (0x09 <= u && u <= 0x0D) || u == 0x20 || u == 0x85 || u == 0xA0 || u == 0x1680 || (0x2000 <= u
        && u <= 0x200A) || u == 0x2028 || u == 0x2029 || u == 0x202F || u == 0x205F || u == 0x3000
}

/// Finds the part of `chars[from..to]` that is left when the white space at
/// its start and at its end is taken away.
pub fn trim_range(chars: &Vec<char>, from: usize, to: usize) -> (r: (usize, usize))
    requires
        from <= to <= chars.len(),
    ensures
        from <= r.0 <= r.1 <= to,
        chars@.subrange(r.0 as int, r.1 as int) == trim(chars@.subrange(from as int, to as int)),
{
    let ghost s = chars@.subrange(from as int, to as int);
    let mut a: usize = from;
    while a < to && is_space(chars[a])
        invariant
            from <= a <= to <= chars.len(),
            trim_start(s) == trim_start(chars@.subrange(a as int, to as int)),
        decreases to - a,
    {
        assert(chars@.subrange(a as int, to as int).skip(1) == chars@.subrange(a + 1, to as int));
        a += 1;
    }
    let mut b: usize = to;
    while b > a && is_space(chars[b - 1])
        invariant
            a <= b <= to <= chars.len(),
            trim(s) == trim_end(chars@.subrange(a as int, b as int)),
        decreases b - a,
    {
        assert(chars@.subrange(a as int, b as int).drop_last() == chars@.subrange(
            a as int,
            b - 1,
        ));
        b -= 1;
    }
    (a, b)
}

/// Splits a text at every `sep` and takes the white space away from the
/// start and the end of each piece.
pub fn split_trimmed<'a>(text: &'a str, sep: char) -> (r: Vec<&'a str>)
    ensures
        views_of(r@) == split(text@, sep).map_values(|p: Seq<char>| trim(p)),
{
    let chars = chars_of(text);
    let len = chars.len();
    let mut out: Vec<&'a str> = Vec::new();
    let mut from: usize = 0;
    let mut done = false;
    let ghost target = split(text@, sep).map_values(|p: Seq<char>| trim(p));
    assert(chars@.skip(0) == chars@);
    while !done
        invariant
            chars@ == text@,
            len == chars.len(),
            from <= len,
            target == split(text@, sep).map_values(|p: Seq<char>| trim(p)),
            done ==> views_of(out@) == target,
            !done ==> views_of(out@) + split(chars@.skip(from as int), sep).map_values(
                |p: Seq<char>| trim(p),
            ) == target,
        decreases len - from + (if done { 0int } else { 1int }),
    {
        let ghost rest = chars@.skip(from as int);
        let to = find_char(&chars, from, len, sep);
        assert(rest.take(to - from) == chars@.subrange(from as int, to as int));
        let (a, b) = trim_range(&chars, from, to);
        let piece = text.substring_char(a, b);
        out.push(piece);
        if to < len {
            assert(rest.skip(to - from + 1) == chars@.skip(to + 1));
            from = to + 1;
        } else {
            done = true;
        }
    }
    out
}

/// The error for a text that could not be read: a `ParseError` whose text
/// is `prefix`, then the text that could not be read, then a closing quote.
pub fn quoted_error(prefix: &str, val: &str) -> (e: crate::PciInfoError)
    ensures
        e@ == crate::PciInfoErrorView::ParseError(prefix@ + val@ + seq!['\'']),
{
    let mut text = String::from_str(prefix);
    text.append(val);
    push_char(&mut text, '\'');
    assert(text@ =~= prefix@ + val@ + seq!['\'']);
    crate::PciInfoError::ParseError(text.into())
}


/// Whether the number is a Unicode scalar value: the code of a character.
pub open spec fn is_scalar_value(v: u32) -> bool {
    v < 0xD800 || 0xDFFF < v <= 0x10FFFF
}

/// Calls `char::from_u32`, which gives the character with the given code
/// where the code is a Unicode scalar value, and nothing where it is not.
#[verifier::external_body]
pub(crate) fn char_from_u32(v: u32) -> (r: Option<char>)
    ensures
        r is Some <==> is_scalar_value(v),
        r matches Some(c) ==> c as u32 == v,
{
    char::from_u32(v)
}

/// The codes of the characters of a text.
pub open spec fn codes_of(s: Seq<char>) -> Seq<u32> {
    s.map_values(|c: char| c as u32)
}

/// `v` in decimal, with a minus sign where it is below zero.
pub open spec fn signed_decimal_text(v: int) -> Seq<char> {
    if v < 0 {
        seq!['-'] + decimal_text((-v) as nat)
    } else {
        decimal_text(v as nat)
    }
}

/// Appends `v` in decimal to `out`, with a minus sign where it is below
/// zero.
pub(crate) fn push_signed_decimal(out: &mut String, v: i32)
    ensures
        final(out)@ == old(out)@ + signed_decimal_text(v as int),
{
    if v < 0 {
        push_char(out, '-');
        let magnitude: i64 = -(v as i64);
        push_decimal(out, magnitude as u64);
    } else {
        push_decimal(out, v as u64);
    }
}

/// The text that `Debug` shows for a text: the text between double quotes,
/// with what it escapes written as an escape.
pub uninterp spec fn debug_text_of_text(text: Seq<char>) -> Seq<char>;

/// Writes a text out with `format!`, as its `Debug` shows it.
#[verifier::external_body]
pub(crate) fn show_text(text: &str) -> (r: String)
    ensures
        r@ == debug_text_of_text(text@),
{
    format!("{text:?}")
}

/// The texts of a list as `Debug` shows each, with a comma and a blank
/// between them.
pub open spec fn quoted_items_text(texts: Seq<Seq<char>>) -> Seq<char>
    decreases texts.len(),
{
    if texts.len() == 0 {
        Seq::empty()
    } else if texts.len() == 1 {
        debug_text_of_text(texts[0])
    } else {
        quoted_items_text(texts.drop_last()) + seq![',', ' '] + debug_text_of_text(texts.last())
    }
}

/// The text that shows a list of texts: the texts as `Debug` shows each,
/// with a comma and a blank between them, in square brackets.
pub open spec fn debug_text_of_list(texts: Seq<Seq<char>>) -> Seq<char> {
    seq!['['] + quoted_items_text(texts) + seq![']']
}

/// Appends the text that shows a list of texts to `out`.
pub(crate) fn push_text_list(out: &mut String, texts: &Vec<String>)
    ensures
        final(out)@ == old(out)@ + debug_text_of_list(texts.deep_view()),
{
    let ghost all = texts.deep_view();
    push_char(out, '[');
    let mut i: usize = 0;
    while i < texts.len()
        invariant
            i <= texts.len(),
            all == texts.deep_view(),
            out@ == old(out)@ + seq!['['] + quoted_items_text(all.take(i as int)),
        decreases texts.len() - i,
    {
        let ghost before = all.take(i as int);
        let ghost after = all.take(i + 1);
        assert(after.drop_last() == before);
        if i > 0 {
            push_char(out, ',');
            push_char(out, ' ');
        }
        let shown = show_text(texts[i].as_str());
        out.append(shown.as_str());
        i += 1;
    }
    assert(all.take(texts.len() as int) == all);
    push_char(out, ']');
}

} // verus!

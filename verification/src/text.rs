//! Bounded text: a sensor value and its unit, written into a buffer of fixed
//! capacity that is proved large enough for every value.

use vstd::prelude::*;

verus! {

/// Capacity of a value text, in bytes of UTF-8.
pub const VALUE_CAPACITY: usize = 8;

/// The number of bytes that a character takes in UTF-8.
pub open spec fn utf8_width(c: char) -> nat {
    if (c as u32) < 0x80 {
        1
    } else if (c as u32) < 0x800 {
        2
    } else if (c as u32) < 0x1_0000 {
        3
    } else {
        4
    }
}

/// The number of bytes that a text takes in UTF-8.
pub open spec fn utf8_len(text: Seq<char>) -> nat
    decreases text.len(),
{
    if text.len() == 0 {
        0
    } else {
        utf8_len(text.drop_last()) + utf8_width(text.last())
    }
}

/// The character for a decimal digit.
pub open spec fn digit_char(digit: nat) -> char
    recommends
        digit < 10,
{
    ('0' as u8 + digit) as char
}

/// The decimal numeral of a number, without leading zeros.
pub open spec fn decimal(value: nat) -> Seq<char>
    decreases value,
{
    if value < 10 {
        seq![digit_char(value)]
    } else {
        decimal(value / 10).push(digit_char(value % 10))
    }
}

/// The unit that follows a value on the display.
#[derive(Clone, Copy, Debug, PartialEq, Eq, Structural)]
pub enum Unit {
    /// Degrees Celsius, shown as the degree sign and `C`.
    Celsius,
    /// Per cent, shown as `%`.
    Percent,
}

impl Unit {
    /// The characters that stand for the unit.
    pub open spec fn symbol(self) -> Seq<char> {
        match self {
            Unit::Celsius => seq!['\u{b0}', 'C'],
            Unit::Percent => seq!['%'],
        }
    }
}

/// The text of a value with its unit: the decimal numeral, then the unit's
/// symbol, nothing between them.
pub open spec fn value_text(value: u8, unit: Unit) -> Seq<char> {
    decimal(value as nat) + unit.symbol()
}

/// The error of `heapless` for a collection that is full.
#[verifier::external_type_specification]
#[verifier::external_body]
pub struct ExCapacityError(heapless::CapacityError);

/// A text of at most `VALUE_CAPACITY` bytes, held in a `heapless::String`
/// of that capacity.
#[verifier::external_body]
#[derive(Debug, PartialEq, Eq)]
pub struct ValueText {
    inner: heapless::String<8>,
}

/// The characters that a value text holds, in order.
pub uninterp spec fn text_of(text: ValueText) -> Seq<char>;

impl View for ValueText {
    type V = Seq<char>;

    open spec fn view(&self) -> Seq<char> {
        text_of(*self)
    }
}

/// `heapless::String::new`: a text that holds nothing.
#[verifier::external_body]
fn empty_text() -> (text: ValueText)
    ensures
        text_of(text) == Seq::<char>::empty(),
{
    ValueText { inner: heapless::String::new() }
}

/// `heapless::String::push`: where the character's bytes still fit into the
/// capacity the character is appended; where they do not, the call fails
/// and the text stays as it was.
#[verifier::external_body]
fn push_char(text: &mut ValueText, c: char) -> (pushed: Result<(), heapless::CapacityError>)
    ensures
        utf8_len(text_of(*old(text))) + utf8_width(c) <= VALUE_CAPACITY ==> pushed is Ok
            && text_of(*final(text)) == text_of(*old(text)).push(c),
        utf8_len(text_of(*old(text))) + utf8_width(c) > VALUE_CAPACITY ==> pushed is Err
            && text_of(*final(text)) == text_of(*old(text)),
{
    text.inner.push(c)
}

/// `heapless::String::as_str`: the text as a string slice.
#[verifier::external_body]
fn text_str(text: &ValueText) -> (s: &str)
    ensures
        s@ == text_of(*text),
{
    text.inner.as_str()
}

/// A text grows by the width of the character pushed onto it.
pub proof fn lemma_utf8_len_push(text: Seq<char>, c: char)
    ensures
        utf8_len(text.push(c)) == utf8_len(text) + utf8_width(c),
{
    assert(text.push(c).drop_last() == text);
    assert(text.push(c).last() == c);
}

/// The length in bytes of two texts joined is the sum of their lengths.
pub proof fn lemma_utf8_len_concat(a: Seq<char>, b: Seq<char>)
    ensures
        utf8_len(a + b) == utf8_len(a) + utf8_len(b),
    decreases b.len(),
{
    if b.len() == 0 {
        assert(a + b == a);
    } else {
        lemma_utf8_len_concat(a, b.drop_last());
        assert((a + b).drop_last() == a + b.drop_last());
        assert((a + b).last() == b.last());
    }
}

/// The numeral of a number below 256 has one, two or three digits, each of
/// them one byte wide.
pub proof fn lemma_decimal_u8(value: u8)
    ensures
        1 <= decimal(value as nat).len() <= 3,
        utf8_len(decimal(value as nat)) == decimal(value as nat).len(),
        value < 10 ==> decimal(value as nat) == seq![digit_char(value as nat)],
        10 <= value < 100 ==> decimal(value as nat) == seq![
            digit_char(value as nat / 10),
            digit_char(value as nat % 10),
        ],
        100 <= value ==> decimal(value as nat) == seq![
            digit_char(value as nat / 100),
            digit_char(value as nat / 10 % 10),
            digit_char(value as nat % 10),
        ],
{
    reveal_with_fuel(decimal, 3);
    reveal_with_fuel(utf8_len, 4);
    let v = value as nat;
    assert(forall|d: nat| d < 10 ==> utf8_width(#[trigger] digit_char(d)) == 1);
    if v < 10 {
    } else if v < 100 {
        assert(decimal(v) == seq![digit_char(v / 10), digit_char(v % 10)]);
    } else {
        assert(v / 10 / 10 == v / 100);
        assert(decimal(v) == seq![
            digit_char(v / 100),
            digit_char(v / 10 % 10),
            digit_char(v % 10),
        ]);
    }
}

/// Every value of a byte, with either unit, fits into a value text: the
/// text is at most six bytes long, and the capacity is eight.
pub proof fn lemma_value_text_fits(value: u8, unit: Unit)
    ensures
        utf8_len(value_text(value, unit)) <= 6,
        utf8_len(value_text(value, unit)) <= VALUE_CAPACITY,
{
    lemma_decimal_u8(value);
    lemma_utf8_len_concat(decimal(value as nat), unit.symbol());
    reveal_with_fuel(utf8_len, 3);
}

impl ValueText {
    /// The text as a string slice.
    pub fn as_str(&self) -> (s: &str)
        ensures
            s@ == self@,
    {
        text_str(self)
    }

    /// Appends one character to a text that has room for it.
    fn append(&mut self, c: char)
        requires
            utf8_len(old(self)@) + utf8_width(c) <= VALUE_CAPACITY,
        ensures
            final(self)@ == old(self)@.push(c),
            utf8_len(final(self)@) == utf8_len(old(self)@) + utf8_width(c),
    {
        proof {
            lemma_utf8_len_push(self@, c);
        }
        let _ = push_char(self, c);
    }

    /// Appends the character of a decimal digit.
    fn append_digit(&mut self, digit: u8)
        requires
            digit < 10,
            utf8_len(old(self)@) + 1 <= VALUE_CAPACITY,
        ensures
            final(self)@ == old(self)@.push(digit_char(digit as nat)),
            utf8_len(final(self)@) == utf8_len(old(self)@) + 1,
    {
        let c: char = (48u8 + digit) as char;
        self.append(c);
    }
}

/// Formats a value with its unit.
///
/// The text never overflows its buffer and is never cut short: a byte has
/// at most three digits and a unit symbol at most three bytes.
pub fn format_value(value: u8, unit: Unit) -> (text: ValueText)
    ensures
        text@ == value_text(value, unit),
        utf8_len(text@) <= VALUE_CAPACITY,
{
    proof {
        lemma_decimal_u8(value);
        lemma_value_text_fits(value, unit);
    }
    let mut text = empty_text();
    if value >= 100 {
        text.append_digit(value / 100);
    }
    if value >= 10 {
        text.append_digit(value / 10 % 10);
    }
    text.append_digit(value % 10);
    match unit {
        Unit::Celsius => {
            text.append('\u{b0}');
            text.append('C');
        },
        Unit::Percent => {
            text.append('%');
        },
    }
    text
}

} // verus!

//! Building the exact text of diagnostics and protocol strings.

use crate::model;
use vstd::prelude::*;
use vstd::string::*;

verus! {

/// `String::push` appends one character to the end of the string.
pub assume_specification[ String::push ](string: &mut String, ch: char)
    ensures
        final(string)@ == old(string)@.push(ch),
;

/// Debug formatting of a string: surrounding quotes and escapes as `{:?}` writes them.
pub uninterp spec fn quoted(text: Seq<char>) -> Seq<char>;

/// Calls the `Debug` formatting of `str`, whose output depends on the text alone.
#[verifier::external_body]
pub(crate) fn quote(text: &str) -> (result: String)
    ensures
        result@ == quoted(text@),
{
    format!("{:?}", text)
}

/// The text in upper case, by the Unicode rules.
pub uninterp spec fn uppercased(text: Seq<char>) -> Seq<char>;

/// Calls `str::to_uppercase`, whose result depends on the text alone.
#[verifier::external_body]
pub(crate) fn to_uppercase(text: &str) -> (result: String)
    ensures
        result@ == uppercased(text@),
{
    text.to_uppercase()
}

/// The digit of `value` in a base of at most sixteen, with letters in lower case.
pub open spec fn digit_char(value: nat) -> char {
    if value == 0 {
        '0'
    } else if value == 1 {
        '1'
    } else if value == 2 {
        '2'
    } else if value == 3 {
        '3'
    } else if value == 4 {
        '4'
    } else if value == 5 {
        '5'
    } else if value == 6 {
        '6'
    } else if value == 7 {
        '7'
    } else if value == 8 {
        '8'
    } else if value == 9 {
        '9'
    } else if value == 10 {
        'a'
    } else if value == 11 {
        'b'
    } else if value == 12 {
        'c'
    } else if value == 13 {
        'd'
    } else if value == 14 {
        'e'
    } else {
        'f'
    }
}

/// The shortest numeral of `value` in `base`.
pub open spec fn numeral(value: nat, base: nat) -> Seq<char>
    decreases value,
{
    if base < 2 || value < base {
        seq![digit_char(value)]
    } else {
        proof {
            assert(value / base < value) by (nonlinear_arith)
                requires
                    value >= base,
                    base >= 2,
            ;
        }
        numeral(value / base, base).push(digit_char(value % base))
    }
}

/// Decimal text of a natural number.
pub open spec fn decimal(value: nat) -> Seq<char> {
    numeral(value, 10)
}

/// Decimal text of an integer, with a leading minus sign below zero.
pub open spec fn signed_decimal(value: int) -> Seq<char> {
    if value < 0 {
        seq!['-'] + decimal((-value) as nat)
    } else {
        decimal(value as nat)
    }
}

/// Lower-case hexadecimal text with the `0x` prefix and no padding.
pub open spec fn prefixed_hex(value: nat) -> Seq<char> {
    "0x"@ + numeral(value, 16)
}

/// The digit in upper case.
pub open spec fn upper_digit_char(value: nat) -> char {
    if value == 10 {
        'A'
    } else if value == 11 {
        'B'
    } else if value == 12 {
        'C'
    } else if value == 13 {
        'D'
    } else if value == 14 {
        'E'
    } else if value == 15 {
        'F'
    } else {
        digit_char(value)
    }
}

/// The low `width` hexadecimal digits of `value` in upper case, most significant first.
pub open spec fn padded_upper_hex(value: nat, width: nat) -> Seq<char>
    decreases width,
{
    if width == 0 {
        Seq::empty()
    } else {
        padded_upper_hex(value / 16, (width - 1) as nat).push(upper_digit_char(value % 16))
    }
}

fn digit(value: u64) -> (result: char)
    requires
        value < 16,
    ensures
        result == digit_char(value as nat),
{
    match value {
        0 => '0',
        1 => '1',
        2 => '2',
        3 => '3',
        4 => '4',
        5 => '5',
        6 => '6',
        7 => '7',
        8 => '8',
        9 => '9',
        10 => 'a',
        11 => 'b',
        12 => 'c',
        13 => 'd',
        14 => 'e',
        _ => 'f',
    }
}

fn upper_digit(value: u64) -> (result: char)
    requires
        value < 16,
    ensures
        result == upper_digit_char(value as nat),
{
    match value {
        10 => 'A',
        11 => 'B',
        12 => 'C',
        13 => 'D',
        14 => 'E',
        15 => 'F',
        _ => digit(value),
    }
}

fn numeral_string(value: u64, base: u64) -> (result: String)
    requires
        2 <= base <= 16,
    ensures
        result@ == numeral(value as nat, base as nat),
    decreases value,
{
    if value < base {
        let mut result = String::new();
        result.push(digit(value));
        assert(result@ =~= seq![digit_char(value as nat)]);
        result
    } else {
        assert(value / base < value) by (nonlinear_arith)
            requires
                value >= base,
                base >= 2,
        ;
        let mut result = numeral_string(value / base, base);
        result.push(digit(value % base));
        result
    }
}

/// Decimal text of `value`.
pub fn decimal_string(value: u64) -> (result: String)
    ensures
        result@ == decimal(value as nat),
{
    numeral_string(value, 10)
}

/// Decimal text of a signed value.
pub fn signed_decimal_string(value: i32) -> (result: String)
    ensures
        result@ == signed_decimal(value as int),
{
    if value < 0 {
        let magnitude: i64 = -(value as i64);
        let mut result = String::new();
        result.push('-');
        let digits = decimal_string(magnitude as u64);
        result.append(digits.as_str());
        assert(result@ =~= signed_decimal(value as int));
        result
    } else {
        decimal_string(value as u64)
    }
}

/// Hexadecimal text of `value` as `{:#x}` writes it.
pub fn prefixed_hex_string(value: u64) -> (result: String)
    ensures
        result@ == prefixed_hex(value as nat),
{
    let digits = numeral_string(value, 16);
    concat2("0x", digits.as_str())
}

/// Eight upper-case hexadecimal digits of `value`.
pub fn padded_upper_hex_string(value: u32) -> (result: String)
    ensures
        result@ == padded_upper_hex(value as nat, 8),
{
    upper_hex_digits(value as u64, 8)
}

/// Four upper-case hexadecimal digits of `value`.
pub fn padded_upper_hex_string16(value: u16) -> (result: String)
    ensures
        result@ == padded_upper_hex(value as nat, 4),
{
    upper_hex_digits(value as u64, 4)
}

fn upper_hex_digits(value: u64, width: u64) -> (result: String)
    ensures
        result@ == padded_upper_hex(value as nat, width as nat),
    decreases width,
{
    if width == 0 {
        String::new()
    } else {
        let mut result = upper_hex_digits(value / 16, width - 1);
        result.push(upper_digit(value % 16));
        result
    }
}

/// Two texts, one after the other.
pub fn concat2(first: &str, second: &str) -> (result: String)
    ensures
        result@ == first@ + second@,
{
    String::from_str(first).concat(second)
}

/// Three texts, one after the other.
pub fn concat3(first: &str, second: &str, third: &str) -> (result: String)
    ensures
        result@ == first@ + second@ + third@,
{
    String::from_str(first).concat(second).concat(third)
}

/// Four texts, one after the other.
pub fn concat4(first: &str, second: &str, third: &str, fourth: &str) -> (result: String)
    ensures
        result@ == first@ + second@ + third@ + fourth@,
{
    String::from_str(first).concat(second).concat(third).concat(fourth)
}

/// Five texts, one after the other.
pub fn concat5(first: &str, second: &str, third: &str, fourth: &str, fifth: &str) -> (result: String)
    ensures
        result@ == first@ + second@ + third@ + fourth@ + fifth@,
{
    String::from_str(first).concat(second).concat(third).concat(fourth).concat(fifth)
}

/// The parts with a separator between them.
pub open spec fn separated(parts: Seq<Seq<char>>, separator: Seq<char>) -> Seq<char>
    decreases parts.len(),
{
    if parts.len() == 0 {
        Seq::empty()
    } else if parts.len() == 1 {
        parts[0]
    } else {
        separated(parts.drop_last(), separator) + separator + parts.last()
    }
}

/// The parts with a separator between them.
pub fn join(parts: &Vec<String>, separator: &str) -> (result: String)
    ensures
        result@ == separated(parts.deep_view(), separator@),
{
    let ghost models = parts.deep_view();
    let mut result = String::new();
    proof {
        model::lemma_take_all(models);
    }
    for index in 0..parts.len()
        invariant
            models == parts.deep_view(),
            result@ == separated(models.take(index as int), separator@),
    {
        let ghost before = result@;
        if index > 0 {
            result.append(separator);
        }
        result.append(parts[index].as_str());
        proof {
            model::lemma_take_push(models, index as int);
            assert(models[index as int] == parts@[index as int]@);
            if index == 0 {
                assert(models.take(1)[0] == models[0]);
                assert(result@ =~= models[0]);
            } else {
                assert(result@ =~= before + separator@ + models[index as int]);
            }
        }
    }
    proof {
        model::lemma_take_all(models);
    }
    result
}

/// The value of a hexadecimal digit in either case.
pub open spec fn digit_value(ch: char) -> int {
    if '0' <= ch <= '9' {
        ch as int - '0' as int
    } else if 'a' <= ch <= 'f' {
        ch as int - 'a' as int + 10
    } else {
        ch as int - 'A' as int + 10
    }
}

/// The value of a numeral in a base.
pub open spec fn numeral_value(text: Seq<char>, base: int) -> int
    decreases text.len(),
{
    if text.len() == 0 {
        0
    } else {
        numeral_value(text.drop_last(), base) * base + digit_value(text.last())
    }
}

/// The numeral of a number reads as that number, and has no leading zero but that of zero
/// itself.
pub proof fn numerals_read_back(value: nat, base: nat)
    requires
        2 <= base <= 16,
    ensures
        numeral_value(numeral(value, base), base as int) == value,
        numeral(value, base).len() > 0,
        numeral(value, base)[0] == '0' <==> value == 0,
    decreases value,
{
    let text = numeral(value, base);
    if value < base {
        assert(text.drop_last() =~= Seq::empty());
        assert(numeral_value(text.drop_last(), base as int) == 0);
        assert(numeral_value(text, base as int) == 0 * base + digit_value(text.last()));
    } else {
        let quotient = value / base;
        assert(0 < quotient < value) by (nonlinear_arith)
            requires
                value >= base,
                base >= 2,
                quotient == value / base,
        ;
        numerals_read_back(quotient, base);
        assert(text.drop_last() =~= numeral(quotient, base));
        assert(text.last() == digit_char(value % base));
        assert(value % base < base) by (nonlinear_arith)
            requires
                base >= 2,
        ;
        assert(quotient * base + value % base == value) by (nonlinear_arith)
            requires
                quotient == value / base,
                base >= 2,
        ;
        assert(text[0] == numeral(quotient, base)[0]);
    }
}

/// Signed numbers are told by their sign, and hexadecimal ones by their prefix.
pub proof fn signed_and_prefixed_numerals_read_back(value: int)
    ensures
        value < 0 ==> signed_decimal(value)[0] == '-' && numeral_value(signed_decimal(value).skip(1), 10) == -value,
        value >= 0 ==> signed_decimal(value)[0] != '-' && numeral_value(signed_decimal(value), 10) == value,
        value >= 0 ==> prefixed_hex(value as nat).take(2) == "0x"@ && numeral_value(
            prefixed_hex(value as nat).skip(2),
            16,
        ) == value,
{
    reveal_strlit("0x");
    if value < 0 {
        numerals_read_back((-value) as nat, 10);
        assert(signed_decimal(value).skip(1) =~= decimal((-value) as nat));
    } else {
        numerals_read_back(value as nat, 10);
        numerals_read_back(value as nat, 16);
        lemma_first_is_digit(value as nat, 10);
        assert(prefixed_hex(value as nat).take(2) =~= "0x"@);
        assert(prefixed_hex(value as nat).skip(2) =~= numeral(value as nat, 16));
    }
}

proof fn lemma_first_is_digit(value: nat, base: nat)
    requires
        2 <= base <= 16,
    ensures
        numeral(value, base).len() > 0,
        numeral(value, base)[0] != '-',
    decreases value,
{
    if value >= base {
        assert(value / base < value) by (nonlinear_arith)
            requires
                value >= base,
                base >= 2,
        ;
        lemma_first_is_digit(value / base, base);
    }
}

/// A padded numeral has its width, and reads as the number where that has room in it.
pub proof fn padded_numerals_read_back(value: nat, width: nat)
    ensures
        padded_upper_hex(value, width).len() == width,
        value < vstd::arithmetic::power::pow(16, width) ==> numeral_value(padded_upper_hex(value, width), 16) == value,
    decreases width,
{
    if width == 0 {
        vstd::arithmetic::power::lemma_pow0(16);
    } else {
        let rest = (width - 1) as nat;
        let text = padded_upper_hex(value, width);
        padded_numerals_read_back(value / 16, rest);
        vstd::arithmetic::power::lemma_pow_adds(16, 1, rest);
        vstd::arithmetic::power::lemma_pow1(16);
        assert(text.drop_last() =~= padded_upper_hex(value / 16, rest));
        assert(text.last() == upper_digit_char(value % 16));
        assert(digit_value(text.last()) == value % 16);
        let bound = vstd::arithmetic::power::pow(16, rest);
        if value < vstd::arithmetic::power::pow(16, width) {
            assert(value < 16 * bound);
            assert(value / 16 < bound);
        }
    }
}

/// Joining two lists of parts puts one separator between what each of them joins to.
pub proof fn joined_parts_are_separated_once(first: Seq<Seq<char>>, second: Seq<Seq<char>>, separator: Seq<char>)
    requires
        first.len() > 0,
        second.len() > 0,
    ensures
        separated(first + second, separator) == separated(first, separator) + separator + separated(second, separator),
        separated(seq![first[0]], separator) == first[0],
    decreases second.len(),
{
    let whole = first + second;
    assert(whole.drop_last() =~= first + second.drop_last());
    assert(whole.last() == second.last());
    if second.len() == 1 {
        assert(whole.drop_last() =~= first);
    } else {
        joined_parts_are_separated_once(first, second.drop_last(), separator);
        let head = separated(first, separator);
        let tail = separated(second.drop_last(), separator);
        assert(head + separator + tail + separator + second.last() =~= head + separator + (tail + separator
            + second.last()));
    }
}

} // verus!

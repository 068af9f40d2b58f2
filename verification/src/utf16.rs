//! UTF-16 code units of text.

use crate::native::chars_of;
use vstd::prelude::*;
use vstd::string::*;

verus! {

/// `char::from_u32` gives the character of a scalar value, and none for other numbers.
pub assume_specification[ char::from_u32 ](value: u32) -> (result: Option<char>)
    ensures
        result == if value <= 0xd7ff || 0xe000 <= value <= 0x10ffff {
            Some(value as char)
        } else {
            None
        },
;

/// Whether a unit is the first one of a pair.
pub open spec fn is_high(unit: u16) -> bool {
    0xd800 <= unit <= 0xdbff
}

/// Whether a unit is the second one of a pair.
pub open spec fn is_low(unit: u16) -> bool {
    0xdc00 <= unit <= 0xdfff
}

/// The units of one character.
pub open spec fn units_of(ch: char) -> Seq<u16> {
    let value = ch as u32;
    if value < 0x10000 {
        seq![value as u16]
    } else {
        seq![(0xd800 + (value - 0x10000) / 0x400) as u16, (0xdc00 + (value - 0x10000) % 0x400) as u16]
    }
}

/// The units of a text.
pub open spec fn encoded(text: Seq<char>) -> Seq<u16>
    decreases text.len(),
{
    if text.len() == 0 {
        Seq::empty()
    } else {
        encoded(text.drop_last()) + units_of(text.last())
    }
}

/// The value of a pair of units.
pub open spec fn pair_value(high: u16, low: u16) -> u32 {
    (0x10000 + (high - 0xd800) * 0x400 + (low - 0xdc00)) as u32
}

/// The text of units, if they are well-formed.
pub open spec fn decoded(units: Seq<u16>) -> Option<Seq<char>>
    decreases units.len(),
{
    if units.len() == 0 {
        Some(Seq::empty())
    } else if !is_high(units[0]) && !is_low(units[0]) {
        match decoded(units.skip(1)) {
            Some(rest) => Some(seq![units[0] as u32 as char] + rest),
            None => None,
        }
    } else if is_high(units[0]) && units.len() > 1 && is_low(units[1]) {
        match decoded(units.skip(2)) {
            Some(rest) => Some(seq![pair_value(units[0], units[1]) as char] + rest),
            None => None,
        }
    } else {
        None
    }
}

/// The units of the first character, then those of the rest.
pub(crate) proof fn lemma_encoded_first(text: Seq<char>)
    requires
        text.len() > 0,
    ensures
        encoded(text) == units_of(text.first()) + encoded(text.drop_first()),
    decreases text.len(),
{
    if text.len() == 1 {
        assert(text.drop_last() =~= Seq::empty());
        assert(text.drop_first() =~= Seq::empty());
        assert(encoded(text) =~= units_of(text.first()) + encoded(text.drop_first()));
    } else {
        lemma_encoded_first(text.drop_last());
        assert(text.drop_last().drop_first() =~= text.drop_first().drop_last());
        assert(text.drop_last().first() == text.first());
        assert(text.drop_first().last() == text.last());
        assert(encoded(text) =~= units_of(text.first()) + encoded(text.drop_first()));
    }
}

/// Decoding what was encoded gives the text back.
pub proof fn decoding_undoes_encoding(text: Seq<char>)
    ensures
        decoded(encoded(text)) == Some(text),
    decreases text.len(),
{
    if text.len() > 0 {
        let rest = encoded(text.drop_first());
        lemma_encoded_first(text);
        decoding_undoes_encoding(text.drop_first());
        let units = encoded(text);
        let value = text.first() as u32;
        vstd::utf8::char_is_scalar(text.first());
        vstd::utf8::char_u32_cast(text.first(), value);
        assert(seq![text.first()] + text.drop_first() =~= text);
        if value < 0x10000 {
            assert(units[0] == value);
            assert(units[0] as u32 as char == text.first());
            assert(units.skip(1) =~= rest);
        } else {
            assert(units[0] == 0xd800 + (value - 0x10000) / 0x400);
            assert(units[1] == 0xdc00 + (value - 0x10000) % 0x400);
            assert(units.skip(2) =~= rest);
            assert(pair_value(units[0], units[1]) == value);
        }
    } else {
        assert(text =~= Seq::empty());
    }
}

/// Encoding what was decoded gives the units back.
pub proof fn encoding_undoes_decoding(units: Seq<u16>)
    requires
        decoded(units) is Some,
    ensures
        encoded(decoded(units)->Some_0) == units,
    decreases units.len(),
{
    if units.len() > 0 {
        let text = decoded(units)->Some_0;
        lemma_encoded_first(text);
        if !is_high(units[0]) && !is_low(units[0]) {
            encoding_undoes_decoding(units.skip(1));
            assert(text.drop_first() =~= decoded(units.skip(1))->Some_0);
            assert(text.first() as u32 == units[0]);
            assert(units =~= units_of(text.first()) + units.skip(1));
        } else {
            encoding_undoes_decoding(units.skip(2));
            assert(text.drop_first() =~= decoded(units.skip(2))->Some_0);
            let value = pair_value(units[0], units[1]);
            assert(text.first() as u32 == value);
            assert(units_of(text.first()) =~= seq![units[0], units[1]]);
            assert(units =~= units_of(text.first()) + units.skip(2));
        }
    } else {
        assert(units =~= Seq::empty());
    }
}

/// The units of a text.
pub fn encode_utf16(text: &str) -> (result: Vec<u16>)
    ensures
        result@ == encoded(text@),
{
    let chars = chars_of(text);
    let mut units: Vec<u16> = Vec::new();
    assert(chars@.take(0) =~= Seq::empty());
    for index in 0..chars.len()
        invariant
            chars@ == text@,
            units@ == encoded(chars@.take(index as int)),
    {
        let ghost before = units@;
        let ch = chars[index];
        let value: u32 = ch as u32;
        proof {
            vstd::utf8::char_is_scalar(ch);
            crate::model::lemma_take_push(chars@, index as int);
        }
        if value < 0x10000 {
            units.push(value as u16);
        } else {
            let offset: u32 = value - 0x10000;
            assert(offset / 0x400 < 0x400);
            units.push((0xd800 + offset / 0x400) as u16);
            units.push((0xdc00 + offset % 0x400) as u16);
        }
        assert(units@ =~= before + units_of(ch));
    }
    assert(chars@.take(chars@.len() as int) =~= text@);
    units
}

/// The text of units, if they are well-formed.
pub fn decode_utf16(units: &Vec<u16>) -> (result: Option<String>)
    ensures
        match decoded(units@) {
            Some(text) => result matches Some(found) && found@ == text,
            None => result is None,
        },
{
    let mut text = String::new();
    let mut index: usize = 0;
    assert(units@.skip(0) =~= units@);
    proof {
        if let Some(rest) = decoded(units@) {
            assert(text@ + rest =~= rest);
        }
    }
    while index < units.len()
        invariant
            index <= units@.len(),
            decoded(units@) == match decoded(units@.skip(index as int)) {
                Some(rest) => Some(text@ + rest),
                None => None,
            },
        decreases units@.len() - index,
    {
        let ghost rest = units@.skip(index as int);
        let ghost before = text@;
        let unit: u16 = units[index];
        assert(rest[0] == unit);
        if unit < 0xd800 || unit > 0xdfff {
            if let Some(ch) = char::from_u32(unit as u32) {
                text.push(ch);
                index += 1;
                proof {
                    assert(rest.skip(1) =~= units@.skip(index as int));
                    if let Some(tail) = decoded(rest.skip(1)) {
                        assert(text@ + tail =~= before + (seq![ch] + tail));
                    }
                }
            } else {
                return None;
            }
        } else if unit <= 0xdbff && index + 1 < units.len() && 0xdc00 <= units[index + 1] && units[index + 1]
            <= 0xdfff {
            let low: u16 = units[index + 1];
            assert(rest[1] == low);
            let value: u32 = 0x10000 + (unit as u32 - 0xd800) * 0x400 + (low as u32 - 0xdc00);
            if let Some(ch) = char::from_u32(value) {
                text.push(ch);
                index += 2;
                proof {
                    assert(rest.skip(2) =~= units@.skip(index as int));
                    if let Some(tail) = decoded(rest.skip(2)) {
                        assert(text@ + tail =~= before + (seq![ch] + tail));
                    }
                }
            } else {
                return None;
            }
        } else {
            return None;
        }
    }
    proof {
        assert(units@.skip(index as int) =~= Seq::empty());
        assert(text@ + Seq::<char>::empty() =~= text@);
    }
    Some(text)
}

/// The text of units in which each unit without its partner is replaced.
pub open spec fn shown(units: Seq<u16>) -> Seq<char>
    decreases units.len(),
{
    if units.len() == 0 {
        Seq::empty()
    } else if !is_high(units[0]) && !is_low(units[0]) {
        seq![units[0] as u32 as char] + shown(units.skip(1))
    } else if is_high(units[0]) && units.len() > 1 && is_low(units[1]) {
        seq![pair_value(units[0], units[1]) as char] + shown(units.skip(2))
    } else {
        seq!['\u{FFFD}'] + shown(units.skip(1))
    }
}

/// The text of units in which each unit without its partner is replaced.
pub fn show_utf16(units: &Vec<u16>) -> (result: String)
    ensures
        result@ == shown(units@),
{
    let mut text = String::new();
    let mut index: usize = 0;
    assert(units@.skip(0) =~= units@);
    assert(text@ + shown(units@) =~= shown(units@));
    while index < units.len()
        invariant
            index <= units@.len(),
            shown(units@) == text@ + shown(units@.skip(index as int)),
        decreases units@.len() - index,
    {
        let ghost rest = units@.skip(index as int);
        let ghost before = text@;
        let unit: u16 = units[index];
        assert(rest[0] == unit);
        let paired = 0xd800 <= unit && unit <= 0xdbff && index + 1 < units.len() && 0xdc00 <= units[index + 1]
            && units[index + 1] <= 0xdfff;
        let ch = if paired {
            let low: u16 = units[index + 1];
            assert(rest[1] == low);
            let value: u32 = 0x10000 + (unit as u32 - 0xd800) * 0x400 + (low as u32 - 0xdc00);
            char::from_u32(value)
        } else if unit < 0xd800 || unit > 0xdfff {
            char::from_u32(unit as u32)
        } else {
            None
        };
        let ch = match ch {
            Some(ch) => ch,
            None => '\u{FFFD}',
        };
        text.push(ch);
        let taken: usize = if paired {
            2
        } else {
            1
        };
        index = index + taken;
        proof {
            assert(rest.skip(taken as int) =~= units@.skip(index as int));
            assert(shown(rest) == seq![ch] + shown(rest.skip(taken as int)));
            assert(text@ + shown(rest.skip(taken as int)) =~= before + shown(rest));
        }
    }
    proof {
        assert(units@.skip(index as int) =~= Seq::empty());
        assert(text@ + Seq::<char>::empty() =~= text@);
    }
    text
}

/// Well-formed units are shown as the text that they encode.
pub proof fn well_formed_units_are_shown_whole(units: Seq<u16>)
    requires
        decoded(units) is Some,
    ensures
        shown(units) == decoded(units)->Some_0,
    decreases units.len(),
{
    if units.len() > 0 {
        if !is_high(units[0]) && !is_low(units[0]) {
            well_formed_units_are_shown_whole(units.skip(1));
        } else {
            well_formed_units_are_shown_whole(units.skip(2));
        }
    }
}

/// A character of the basic plane is one unit, its own code; any other is a pair of a high
/// and a low unit that spell it.
pub proof fn characters_are_their_units(ch: char)
    ensures
        (ch as u32) < 0x10000 ==> units_of(ch).len() == 1 && units_of(ch)[0] == ch as u32,
        (ch as u32) >= 0x10000 ==> {
            let units = units_of(ch);
            &&& units.len() == 2
            &&& 0xd800 <= units[0] <= 0xdbff
            &&& 0xdc00 <= units[1] <= 0xdfff
            &&& 0x10000 + (units[0] - 0xd800) * 0x400 + (units[1] - 0xdc00) == ch as u32
        },
{
    vstd::utf8::char_is_scalar(ch);
    vstd::utf8::char_u32_cast(ch, ch as u32);
}

/// The units of two texts are those of the first and then those of the second.
pub proof fn texts_are_encoded_in_order(first: Seq<char>, second: Seq<char>)
    ensures
        encoded(first + second) == encoded(first) + encoded(second),
    decreases second.len(),
{
    if second.len() == 0 {
        assert(first + second =~= first);
        assert(encoded(first) + encoded(second) =~= encoded(first));
    } else {
        texts_are_encoded_in_order(first, second.drop_last());
        assert((first + second).drop_last() =~= first + second.drop_last());
        assert(encoded(first + second) =~= encoded(first) + encoded(second));
    }
}

} // verus!

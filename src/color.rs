//! Player colour parameters and the textual `RRGGBB` colour code.

use vstd::prelude::*;
use indexmap::IndexMap;
use crate::digits::{hex_digit, hex_digit_str};

verus! {

/// Player colours keyed by character, costume and alternative, in file order.
#[derive(Debug)]
pub struct PlayerColorParam {
    pub entries: IndexMap<EntryKey, RGB>,
}

/// Key of a player colour: ordered by character id, then costume, then alternative.
#[derive(Debug, Clone, Hash, PartialEq, Eq, PartialOrd, Ord)]
pub struct EntryKey {
    pub character_id: String,
    /// Zero-indexed.
    pub costume_index: u8,
    /// Zero-indexed.
    pub alt_index: u8,
}

/// A colour as three 8-bit channels.
#[derive(Debug, Clone, Copy, PartialEq, Eq, Structural, Default)]
pub struct RGB {
    pub red: u8,
    pub green: u8,
    pub blue: u8,
}

/// Value of a hexadecimal digit of either case.
pub open spec fn hex_value(c: char) -> Option<u8> {
    if '0' <= c && c <= '9' {
        Some((c as u32 - '0' as u32) as u8)
    } else if 'a' <= c && c <= 'f' {
        Some((c as u32 - 'a' as u32 + 10) as u8)
    } else if 'A' <= c && c <= 'F' {
        Some((c as u32 - 'A' as u32 + 10) as u8)
    } else {
        None
    }
}

/// The byte written by two hexadecimal digits, high digit first.
pub open spec fn hex_pair(hi: char, lo: char) -> Option<u8> {
    match (hex_value(hi), hex_value(lo)) {
        (Some(h), Some(l)) => Some((h * 16 + l) as u8),
        _ => None,
    }
}

/// The text with one leading `#` removed, if it has one.
pub open spec fn strip_hash(s: Seq<char>) -> Seq<char> {
    if s.len() > 0 && s[0] == '#' {
        s.drop_first()
    } else {
        s
    }
}

/// The colour that `RRGGBB` or `#RRGGBB` denotes, if the text has that form.
pub open spec fn decode_rgb(s: Seq<char>) -> Option<RGB> {
    let t = strip_hash(s);
    if t.len() != 6 {
        None
    } else {
        match (hex_pair(t[0], t[1]), hex_pair(t[2], t[3]), hex_pair(t[4], t[5])) {
            (Some(red), Some(green), Some(blue)) => Some(RGB { red, green, blue }),
            _ => None,
        }
    }
}

/// Two upper-case hexadecimal digits of a byte, high digit first.
pub open spec fn byte_hex(b: u8) -> Seq<char> {
    seq![hex_digit(b / 16), hex_digit(b % 16)]
}

/// `RRGGBB` in upper case, after a `#` when asked for.
pub open spec fn encode_rgb(c: RGB, prepend_hashtag: bool) -> Seq<char> {
    let prefix = if prepend_hashtag { seq!['#'] } else { Seq::<char>::empty() };
    prefix + byte_hex(c.red) + byte_hex(c.green) + byte_hex(c.blue)
}

fn hex_digit_value(c: char) -> (r: Option<u8>)
    ensures
        r == hex_value(c),
{
    if '0' <= c && c <= '9' {
        Some((c as u32 - '0' as u32) as u8)
    } else if 'a' <= c && c <= 'f' {
        Some((c as u32 - 'a' as u32 + 10) as u8)
    } else if 'A' <= c && c <= 'F' {
        Some((c as u32 - 'A' as u32 + 10) as u8)
    } else {
        None
    }
}

fn parse_hex_pair(hi: char, lo: char) -> (r: Option<u8>)
    ensures
        r == hex_pair(hi, lo),
{
    match (hex_digit_value(hi), hex_digit_value(lo)) {
        (Some(h), Some(l)) => Some(h * 16 + l),
        _ => None,
    }
}

fn push_byte_hex(s: &mut String, b: u8)
    ensures
        final(s)@ == old(s)@ + byte_hex(b),
{
    s.append(hex_digit_str(b / 16));
    s.append(hex_digit_str(b % 16));
    assert(final(s)@ =~= old(s)@ + byte_hex(b));
}

impl RGB {
    /// Reads `RRGGBB` or `#RRGGBB` (hexadecimal digits of either case); `None` on any other text.
    pub fn from_hex_str(s: &str) -> (r: Option<RGB>)
        ensures
            r == decode_rgb(s@),
    {
        let len = s.unicode_len();
        let start: usize = if len > 0 && s.get_char(0) == '#' { 1 } else { 0 };
        if len - start != 6 {
            return None;
        }
        let red = parse_hex_pair(s.get_char(start), s.get_char(start + 1));
        let green = parse_hex_pair(s.get_char(start + 2), s.get_char(start + 3));
        let blue = parse_hex_pair(s.get_char(start + 4), s.get_char(start + 5));
        match (red, green, blue) {
            (Some(red), Some(green), Some(blue)) => Some(RGB { red, green, blue }),
            _ => None,
        }
    }

    /// Writes the colour as upper-case `RRGGBB`, after a `#` when `prepend_hashtag` holds.
    pub fn to_hex_str(&self, prepend_hashtag: bool) -> (r: String)
        ensures
            r@ == encode_rgb(*self, prepend_hashtag),
    {
        let mut s = String::new();
        if prepend_hashtag {
            s.append("#");
        }
        proof { reveal_strlit("#"); }
        assert(s@ =~= if prepend_hashtag { seq!['#'] } else { Seq::<char>::empty() });
        push_byte_hex(&mut s, self.red);
        push_byte_hex(&mut s, self.green);
        push_byte_hex(&mut s, self.blue);
        s
    }
}

/// Decoding the text of a colour gives the colour back, with or without the `#`.
pub proof fn lemma_hex_round_trip(c: RGB, prepend_hashtag: bool)
    ensures
        decode_rgb(encode_rgb(c, prepend_hashtag)) == Some(c),
{
    lemma_byte_hex_round_trip(c.red);
    lemma_byte_hex_round_trip(c.green);
    lemma_byte_hex_round_trip(c.blue);
    let e = encode_rgb(c, prepend_hashtag);
    let t = byte_hex(c.red) + byte_hex(c.green) + byte_hex(c.blue);
    assert(strip_hash(e) =~= t);
}

proof fn lemma_byte_hex_round_trip(b: u8)
    ensures
        hex_pair(byte_hex(b)[0], byte_hex(b)[1]) == Some(b),
{
    lemma_hex_digit_value((b / 16) as u8);
    lemma_hex_digit_value((b % 16) as u8);
}

proof fn lemma_hex_digit_value(n: u8)
    requires
        n < 16,
    ensures
        hex_value(hex_digit(n)) == Some(n),
{
}

} // verus!

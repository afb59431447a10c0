use vstd::prelude::*;
use crate::cursor::{normalize, Cursor};
use crate::error_logger::{ErrorLogger, ParserError};
use crate::location::Location;
use crate::tokenizer::char_of;
use crate::stream::{Character, CHAR_FF, CHAR_LF, CHAR_REPLACEMENT, CHAR_SPACE, CHAR_TAB};

verus! {

/// The longest run of alphanumerics a named reference is looked up with.
pub const MAX_NAME: usize = 32;

/// Relies on `char::from_u32`: `Some` exactly for Unicode scalar values, holding that
/// value.
#[verifier::external_body]
fn char_from_u32(v: u32) -> (r: Option<char>)
    ensures
        r is Some <==> (v <= 0x10FFFF && !(0xD800 <= v <= 0xDFFF)),
        r matches Some(c) ==> c as u32 == v,
{
    char::from_u32(v)
}

/// The replacement for a numeric reference to a C1 control, where one is defined.
pub open spec fn c1_replacement(v: u32) -> Option<u32> {
    match v {
        0x80 => Some(0x20AC),
        0x82 => Some(0x201A),
        0x83 => Some(0x0192),
        0x84 => Some(0x201E),
        0x85 => Some(0x2026),
        0x86 => Some(0x2020),
        0x87 => Some(0x2021),
        0x88 => Some(0x02C6),
        0x89 => Some(0x2030),
        0x8A => Some(0x0160),
        0x8B => Some(0x2039),
        0x8C => Some(0x0152),
        0x8E => Some(0x017D),
        0x91 => Some(0x2018),
        0x92 => Some(0x2019),
        0x93 => Some(0x201C),
        0x94 => Some(0x201D),
        0x95 => Some(0x2022),
        0x96 => Some(0x2013),
        0x97 => Some(0x2014),
        0x98 => Some(0x02DC),
        0x99 => Some(0x2122),
        0x9A => Some(0x0161),
        0x9B => Some(0x203A),
        0x9C => Some(0x0153),
        0x9E => Some(0x017E),
        0x9F => Some(0x0178),
        _ => None,
    }
}

fn c1_lookup(v: u32) -> (r: Option<u32>)
    ensures
        r == c1_replacement(v),
{
    match v {
        0x80 => Some(0x20AC),
        0x82 => Some(0x201A),
        0x83 => Some(0x0192),
        0x84 => Some(0x201E),
        0x85 => Some(0x2026),
        0x86 => Some(0x2020),
        0x87 => Some(0x2021),
        0x88 => Some(0x02C6),
        0x89 => Some(0x2030),
        0x8A => Some(0x0160),
        0x8B => Some(0x2039),
        0x8C => Some(0x0152),
        0x8E => Some(0x017D),
        0x91 => Some(0x2018),
        0x92 => Some(0x2019),
        0x93 => Some(0x201C),
        0x94 => Some(0x201D),
        0x95 => Some(0x2022),
        0x96 => Some(0x2013),
        0x97 => Some(0x2014),
        0x98 => Some(0x02DC),
        0x99 => Some(0x2122),
        0x9A => Some(0x0161),
        0x9B => Some(0x203A),
        0x9C => Some(0x0153),
        0x9E => Some(0x017E),
        0x9F => Some(0x0178),
        _ => None,
    }
}

/// The scalar value a numeric character reference to `v` stands for.
pub open spec fn numeric_reference_value(v: u32) -> u32 {
    if v == 0 || v > 0x10FFFF || (0xD800 <= v <= 0xDFFF) {
        0xFFFD
    } else if c1_replacement(v) is Some {
        c1_replacement(v)->0
    } else {
        v
    }
}

/// The parse error a numeric character reference to `v` raises, if any.
pub open spec fn numeric_reference_error(v: u32) -> Option<ParserError> {
    if v == 0 {
        Some(ParserError::NullCharacterReference)
    } else if v > 0x10FFFF {
        Some(ParserError::CharacterReferenceOutsideUnicodeRange)
    } else if 0xD800 <= v <= 0xDFFF {
        Some(ParserError::SurrogateCharacterReference)
    } else if (0xFDD0 <= v <= 0xFDEF) || v % 0x10000 == 0xFFFE || v % 0x10000 == 0xFFFF {
        Some(ParserError::NoncharacterCharacterReference)
    } else if v == 0x0D || ((v <= 0x1F || (0x7F <= v <= 0x9F)) && v != 0x09 && v != 0x0A && v
        != 0x0C && v != 0x20) {
        Some(ParserError::ControlCharacterReference)
    } else {
        None
    }
}

/// Resolves the value of a numeric character reference.
pub fn resolve_numeric_reference(v: u32) -> (r: (char, Option<ParserError>))
    ensures
        r.0 as u32 == numeric_reference_value(v),
        r.1 == numeric_reference_error(v),
{
    let err = if v == 0 {
        Some(ParserError::NullCharacterReference)
    } else if v > 0x10FFFF {
        Some(ParserError::CharacterReferenceOutsideUnicodeRange)
    } else if 0xD800 <= v && v <= 0xDFFF {
        Some(ParserError::SurrogateCharacterReference)
    } else if (0xFDD0 <= v && v <= 0xFDEF) || v % 0x10000 == 0xFFFE || v % 0x10000 == 0xFFFF {
        Some(ParserError::NoncharacterCharacterReference)
    } else if v == 0x0D || ((v <= 0x1F || (0x7F <= v && v <= 0x9F)) && v != 0x09 && v != 0x0A
        && v != 0x0C && v != 0x20) {
        Some(ParserError::ControlCharacterReference)
    } else {
        None
    };
    let value = if v == 0 || v > 0x10FFFF || (0xD800 <= v && v <= 0xDFFF) {
        0xFFFD
    } else {
        match c1_lookup(v) {
            Some(w) => w,
            None => v,
        }
    };
    let c = match char_from_u32(value) {
        Some(c) => c,
        None => CHAR_REPLACEMENT,
    };
    (c, err)
}

/// The value of a digit in the given base (10 or 16), if `c` is one.
pub open spec fn digit_value(c: char, hex: bool) -> Option<u32> {
    if '0' <= c && c <= '9' {
        Some((c as u32 - '0' as u32) as u32)
    } else if hex && 'a' <= c && c <= 'f' {
        Some((c as u32 - 'a' as u32 + 10) as u32)
    } else if hex && 'A' <= c && c <= 'F' {
        Some((c as u32 - 'A' as u32 + 10) as u32)
    } else {
        None
    }
}

fn digit(c: char, hex: bool) -> (r: Option<u32>)
    ensures
        r == digit_value(c, hex),
{
    if '0' <= c && c <= '9' {
        Some(c as u32 - '0' as u32)
    } else if hex && 'a' <= c && c <= 'f' {
        Some(c as u32 - 'a' as u32 + 10)
    } else if hex && 'A' <= c && c <= 'F' {
        Some(c as u32 - 'A' as u32 + 10)
    } else {
        None
    }
}

/// `c` is an ASCII letter or digit.
pub open spec fn is_alnum(c: char) -> bool {
    ('0' <= c && c <= '9') || ('a' <= c && c <= 'z') || ('A' <= c && c <= 'Z')
}

fn alnum(c: char) -> (r: bool)
    ensures
        r == is_alnum(c),
{
    ('0' <= c && c <= '9') || ('a' <= c && c <= 'z') || ('A' <= c && c <= 'Z')
}

/// How many named character references this tokenizer knows.
pub const ENTITY_COUNT: usize = 158;

/// The known named character references: name and the character it stands for.
pub open spec fn entity(i: usize) -> (Seq<char>, char) {
    match i {
        0 => (seq!['A', 'M', 'P'], '&'),
        1 => (seq!['A', 'M', 'P', ';'], '&'),
        2 => (seq!['a', 'm', 'p'], '&'),
        3 => (seq!['a', 'm', 'p', ';'], '&'),
        4 => (seq!['L', 'T'], '<'),
        5 => (seq!['L', 'T', ';'], '<'),
        6 => (seq!['l', 't'], '<'),
        7 => (seq!['l', 't', ';'], '<'),
        8 => (seq!['G', 'T'], '>'),
        9 => (seq!['G', 'T', ';'], '>'),
        10 => (seq!['g', 't'], '>'),
        11 => (seq!['g', 't', ';'], '>'),
        12 => (seq!['Q', 'U', 'O', 'T'], '"'),
        13 => (seq!['Q', 'U', 'O', 'T', ';'], '"'),
        14 => (seq!['q', 'u', 'o', 't'], '"'),
        15 => (seq!['q', 'u', 'o', 't', ';'], '"'),
        16 => (seq!['n', 'b', 's', 'p'], '\u{00A0}'),
        17 => (seq!['n', 'b', 's', 'p', ';'], '\u{00A0}'),
        18 => (seq!['c', 'o', 'p', 'y'], '\u{00A9}'),
        19 => (seq!['c', 'o', 'p', 'y', ';'], '\u{00A9}'),
        20 => (seq!['C', 'O', 'P', 'Y'], '\u{00A9}'),
        21 => (seq!['C', 'O', 'P', 'Y', ';'], '\u{00A9}'),
        22 => (seq!['r', 'e', 'g'], '\u{00AE}'),
        23 => (seq!['r', 'e', 'g', ';'], '\u{00AE}'),
        24 => (seq!['R', 'E', 'G'], '\u{00AE}'),
        25 => (seq!['R', 'E', 'G', ';'], '\u{00AE}'),
        26 => (seq!['s', 'h', 'y'], '\u{00AD}'),
        27 => (seq!['s', 'h', 'y', ';'], '\u{00AD}'),
        28 => (seq!['n', 'o', 't'], '\u{00AC}'),
        29 => (seq!['n', 'o', 't', ';'], '\u{00AC}'),
        30 => (seq!['d', 'e', 'g'], '\u{00B0}'),
        31 => (seq!['d', 'e', 'g', ';'], '\u{00B0}'),
        32 => (seq!['p', 'a', 'r', 'a'], '\u{00B6}'),
        33 => (seq!['p', 'a', 'r', 'a', ';'], '\u{00B6}'),
        34 => (seq!['s', 'e', 'c', 't'], '\u{00A7}'),
        35 => (seq!['s', 'e', 'c', 't', ';'], '\u{00A7}'),
        36 => (seq!['m', 'i', 'd', 'd', 'o', 't'], '\u{00B7}'),
        37 => (seq!['m', 'i', 'd', 'd', 'o', 't', ';'], '\u{00B7}'),
        38 => (seq!['l', 'a', 'q', 'u', 'o'], '\u{00AB}'),
        39 => (seq!['l', 'a', 'q', 'u', 'o', ';'], '\u{00AB}'),
        40 => (seq!['r', 'a', 'q', 'u', 'o'], '\u{00BB}'),
        41 => (seq!['r', 'a', 'q', 'u', 'o', ';'], '\u{00BB}'),
        42 => (seq!['t', 'i', 'm', 'e', 's'], '\u{00D7}'),
        43 => (seq!['t', 'i', 'm', 'e', 's', ';'], '\u{00D7}'),
        44 => (seq!['d', 'i', 'v', 'i', 'd', 'e'], '\u{00F7}'),
        45 => (seq!['d', 'i', 'v', 'i', 'd', 'e', ';'], '\u{00F7}'),
        46 => (seq!['c', 'e', 'n', 't'], '\u{00A2}'),
        47 => (seq!['c', 'e', 'n', 't', ';'], '\u{00A2}'),
        48 => (seq!['p', 'o', 'u', 'n', 'd'], '\u{00A3}'),
        49 => (seq!['p', 'o', 'u', 'n', 'd', ';'], '\u{00A3}'),
        50 => (seq!['y', 'e', 'n'], '\u{00A5}'),
        51 => (seq!['y', 'e', 'n', ';'], '\u{00A5}'),
        52 => (seq!['i', 'e', 'x', 'c', 'l'], '\u{00A1}'),
        53 => (seq!['i', 'e', 'x', 'c', 'l', ';'], '\u{00A1}'),
        54 => (seq!['i', 'q', 'u', 'e', 's', 't'], '\u{00BF}'),
        55 => (seq!['i', 'q', 'u', 'e', 's', 't', ';'], '\u{00BF}'),
        56 => (seq!['m', 'i', 'c', 'r', 'o'], '\u{00B5}'),
        57 => (seq!['m', 'i', 'c', 'r', 'o', ';'], '\u{00B5}'),
        58 => (seq!['p', 'l', 'u', 's', 'm', 'n'], '\u{00B1}'),
        59 => (seq!['p', 'l', 'u', 's', 'm', 'n', ';'], '\u{00B1}'),
        60 => (seq!['f', 'r', 'a', 'c', '1', '2'], '\u{00BD}'),
        61 => (seq!['f', 'r', 'a', 'c', '1', '2', ';'], '\u{00BD}'),
        62 => (seq!['f', 'r', 'a', 'c', '1', '4'], '\u{00BC}'),
        63 => (seq!['f', 'r', 'a', 'c', '1', '4', ';'], '\u{00BC}'),
        64 => (seq!['f', 'r', 'a', 'c', '3', '4'], '\u{00BE}'),
        65 => (seq!['f', 'r', 'a', 'c', '3', '4', ';'], '\u{00BE}'),
        66 => (seq!['s', 'u', 'p', '1'], '\u{00B9}'),
        67 => (seq!['s', 'u', 'p', '1', ';'], '\u{00B9}'),
        68 => (seq!['s', 'u', 'p', '2'], '\u{00B2}'),
        69 => (seq!['s', 'u', 'p', '2', ';'], '\u{00B2}'),
        70 => (seq!['s', 'u', 'p', '3'], '\u{00B3}'),
        71 => (seq!['s', 'u', 'p', '3', ';'], '\u{00B3}'),
        72 => (seq!['a', 'c', 'u', 't', 'e'], '\u{00B4}'),
        73 => (seq!['a', 'c', 'u', 't', 'e', ';'], '\u{00B4}'),
        74 => (seq!['u', 'm', 'l'], '\u{00A8}'),
        75 => (seq!['u', 'm', 'l', ';'], '\u{00A8}'),
        76 => (seq!['m', 'a', 'c', 'r'], '\u{00AF}'),
        77 => (seq!['m', 'a', 'c', 'r', ';'], '\u{00AF}'),
        78 => (seq!['o', 'r', 'd', 'f'], '\u{00AA}'),
        79 => (seq!['o', 'r', 'd', 'f', ';'], '\u{00AA}'),
        80 => (seq!['o', 'r', 'd', 'm'], '\u{00BA}'),
        81 => (seq!['o', 'r', 'd', 'm', ';'], '\u{00BA}'),
        82 => (seq!['b', 'r', 'v', 'b', 'a', 'r'], '\u{00A6}'),
        83 => (seq!['b', 'r', 'v', 'b', 'a', 'r', ';'], '\u{00A6}'),
        84 => (seq!['c', 'u', 'r', 'r', 'e', 'n'], '\u{00A4}'),
        85 => (seq!['c', 'u', 'r', 'r', 'e', 'n', ';'], '\u{00A4}'),
        86 => (seq!['c', 'e', 'd', 'i', 'l'], '\u{00B8}'),
        87 => (seq!['c', 'e', 'd', 'i', 'l', ';'], '\u{00B8}'),
        88 => (seq!['a', 'a', 'c', 'u', 't', 'e'], '\u{00E1}'),
        89 => (seq!['a', 'a', 'c', 'u', 't', 'e', ';'], '\u{00E1}'),
        90 => (seq!['e', 'a', 'c', 'u', 't', 'e'], '\u{00E9}'),
        91 => (seq!['e', 'a', 'c', 'u', 't', 'e', ';'], '\u{00E9}'),
        92 => (seq!['i', 'a', 'c', 'u', 't', 'e'], '\u{00ED}'),
        93 => (seq!['i', 'a', 'c', 'u', 't', 'e', ';'], '\u{00ED}'),
        94 => (seq!['o', 'a', 'c', 'u', 't', 'e'], '\u{00F3}'),
        95 => (seq!['o', 'a', 'c', 'u', 't', 'e', ';'], '\u{00F3}'),
        96 => (seq!['u', 'a', 'c', 'u', 't', 'e'], '\u{00FA}'),
        97 => (seq!['u', 'a', 'c', 'u', 't', 'e', ';'], '\u{00FA}'),
        98 => (seq!['a', 'g', 'r', 'a', 'v', 'e'], '\u{00E0}'),
        99 => (seq!['a', 'g', 'r', 'a', 'v', 'e', ';'], '\u{00E0}'),
        100 => (seq!['e', 'g', 'r', 'a', 'v', 'e'], '\u{00E8}'),
        101 => (seq!['e', 'g', 'r', 'a', 'v', 'e', ';'], '\u{00E8}'),
        102 => (seq!['n', 't', 'i', 'l', 'd', 'e'], '\u{00F1}'),
        103 => (seq!['n', 't', 'i', 'l', 'd', 'e', ';'], '\u{00F1}'),
        104 => (seq!['c', 'c', 'e', 'd', 'i', 'l'], '\u{00E7}'),
        105 => (seq!['c', 'c', 'e', 'd', 'i', 'l', ';'], '\u{00E7}'),
        106 => (seq!['a', 'u', 'm', 'l'], '\u{00E4}'),
        107 => (seq!['a', 'u', 'm', 'l', ';'], '\u{00E4}'),
        108 => (seq!['o', 'u', 'm', 'l'], '\u{00F6}'),
        109 => (seq!['o', 'u', 'm', 'l', ';'], '\u{00F6}'),
        110 => (seq!['u', 'u', 'm', 'l'], '\u{00FC}'),
        111 => (seq!['u', 'u', 'm', 'l', ';'], '\u{00FC}'),
        112 => (seq!['s', 'z', 'l', 'i', 'g'], '\u{00DF}'),
        113 => (seq!['s', 'z', 'l', 'i', 'g', ';'], '\u{00DF}'),
        114 => (seq!['A', 'u', 'm', 'l'], '\u{00C4}'),
        115 => (seq!['A', 'u', 'm', 'l', ';'], '\u{00C4}'),
        116 => (seq!['O', 'u', 'm', 'l'], '\u{00D6}'),
        117 => (seq!['O', 'u', 'm', 'l', ';'], '\u{00D6}'),
        118 => (seq!['U', 'u', 'm', 'l'], '\u{00DC}'),
        119 => (seq!['U', 'u', 'm', 'l', ';'], '\u{00DC}'),
        120 => (seq!['a', 'p', 'o', 's', ';'], '\''),
        121 => (seq!['h', 'e', 'l', 'l', 'i', 'p', ';'], '\u{2026}'),
        122 => (seq!['m', 'd', 'a', 's', 'h', ';'], '\u{2014}'),
        123 => (seq!['n', 'd', 'a', 's', 'h', ';'], '\u{2013}'),
        124 => (seq!['l', 's', 'q', 'u', 'o', ';'], '\u{2018}'),
        125 => (seq!['r', 's', 'q', 'u', 'o', ';'], '\u{2019}'),
        126 => (seq!['l', 'd', 'q', 'u', 'o', ';'], '\u{201C}'),
        127 => (seq!['r', 'd', 'q', 'u', 'o', ';'], '\u{201D}'),
        128 => (seq!['b', 'u', 'l', 'l', ';'], '\u{2022}'),
        129 => (seq!['e', 'u', 'r', 'o', ';'], '\u{20AC}'),
        130 => (seq!['t', 'r', 'a', 'd', 'e', ';'], '\u{2122}'),
        131 => (seq!['l', 'a', 'r', 'r', ';'], '\u{2190}'),
        132 => (seq!['r', 'a', 'r', 'r', ';'], '\u{2192}'),
        133 => (seq!['u', 'a', 'r', 'r', ';'], '\u{2191}'),
        134 => (seq!['d', 'a', 'r', 'r', ';'], '\u{2193}'),
        135 => (seq!['h', 'e', 'a', 'r', 't', 's', ';'], '\u{2665}'),
        136 => (seq!['i', 'n', 'f', 'i', 'n', ';'], '\u{221E}'),
        137 => (seq!['n', 'e', ';'], '\u{2260}'),
        138 => (seq!['l', 'e', ';'], '\u{2264}'),
        139 => (seq!['g', 'e', ';'], '\u{2265}'),
        140 => (seq!['a', 'l', 'p', 'h', 'a', ';'], '\u{03B1}'),
        141 => (seq!['b', 'e', 't', 'a', ';'], '\u{03B2}'),
        142 => (seq!['p', 'i', ';'], '\u{03C0}'),
        143 => (seq!['l', 'a', 'm', 'b', 'd', 'a', ';'], '\u{03BB}'),
        144 => (seq!['m', 'u', ';'], '\u{03BC}'),
        145 => (seq!['s', 'i', 'g', 'm', 'a', ';'], '\u{03C3}'),
        146 => (seq!['o', 'm', 'e', 'g', 'a', ';'], '\u{03C9}'),
        147 => (seq!['O', 'm', 'e', 'g', 'a', ';'], '\u{03A9}'),
        148 => (seq!['d', 'a', 'g', 'g', 'e', 'r', ';'], '\u{2020}'),
        149 => (seq!['p', 'e', 'r', 'm', 'i', 'l', ';'], '\u{2030}'),
        150 => (seq!['p', 'r', 'i', 'm', 'e', ';'], '\u{2032}'),
        151 => (seq!['t', 'h', 'i', 'n', 's', 'p', ';'], '\u{2009}'),
        152 => (seq!['e', 'n', 's', 'p', ';'], '\u{2002}'),
        153 => (seq!['e', 'm', 's', 'p', ';'], '\u{2003}'),
        154 => (seq!['z', 'w', 'n', 'j', ';'], '\u{200C}'),
        155 => (seq!['z', 'w', 'j', ';'], '\u{200D}'),
        156 => (seq!['l', 'r', 'm', ';'], '\u{200E}'),
        157 => (seq!['r', 'l', 'm', ';'], '\u{200F}'),
        _ => (Seq::empty(), '&'),
    }
}

/// The `i`-th known named character reference.
fn entity_at(i: usize) -> (r: (Vec<char>, char))
    requires
        i < ENTITY_COUNT,
    ensures
        r.0@ == entity(i).0,
        r.1 == entity(i).1,
{
    match i {
        0 => (vec!['A', 'M', 'P'], '&'),
        1 => (vec!['A', 'M', 'P', ';'], '&'),
        2 => (vec!['a', 'm', 'p'], '&'),
        3 => (vec!['a', 'm', 'p', ';'], '&'),
        4 => (vec!['L', 'T'], '<'),
        5 => (vec!['L', 'T', ';'], '<'),
        6 => (vec!['l', 't'], '<'),
        7 => (vec!['l', 't', ';'], '<'),
        8 => (vec!['G', 'T'], '>'),
        9 => (vec!['G', 'T', ';'], '>'),
        10 => (vec!['g', 't'], '>'),
        11 => (vec!['g', 't', ';'], '>'),
        12 => (vec!['Q', 'U', 'O', 'T'], '"'),
        13 => (vec!['Q', 'U', 'O', 'T', ';'], '"'),
        14 => (vec!['q', 'u', 'o', 't'], '"'),
        15 => (vec!['q', 'u', 'o', 't', ';'], '"'),
        16 => (vec!['n', 'b', 's', 'p'], '\u{00A0}'),
        17 => (vec!['n', 'b', 's', 'p', ';'], '\u{00A0}'),
        18 => (vec!['c', 'o', 'p', 'y'], '\u{00A9}'),
        19 => (vec!['c', 'o', 'p', 'y', ';'], '\u{00A9}'),
        20 => (vec!['C', 'O', 'P', 'Y'], '\u{00A9}'),
        21 => (vec!['C', 'O', 'P', 'Y', ';'], '\u{00A9}'),
        22 => (vec!['r', 'e', 'g'], '\u{00AE}'),
        23 => (vec!['r', 'e', 'g', ';'], '\u{00AE}'),
        24 => (vec!['R', 'E', 'G'], '\u{00AE}'),
        25 => (vec!['R', 'E', 'G', ';'], '\u{00AE}'),
        26 => (vec!['s', 'h', 'y'], '\u{00AD}'),
        27 => (vec!['s', 'h', 'y', ';'], '\u{00AD}'),
        28 => (vec!['n', 'o', 't'], '\u{00AC}'),
        29 => (vec!['n', 'o', 't', ';'], '\u{00AC}'),
        30 => (vec!['d', 'e', 'g'], '\u{00B0}'),
        31 => (vec!['d', 'e', 'g', ';'], '\u{00B0}'),
        32 => (vec!['p', 'a', 'r', 'a'], '\u{00B6}'),
        33 => (vec!['p', 'a', 'r', 'a', ';'], '\u{00B6}'),
        34 => (vec!['s', 'e', 'c', 't'], '\u{00A7}'),
        35 => (vec!['s', 'e', 'c', 't', ';'], '\u{00A7}'),
        36 => (vec!['m', 'i', 'd', 'd', 'o', 't'], '\u{00B7}'),
        37 => (vec!['m', 'i', 'd', 'd', 'o', 't', ';'], '\u{00B7}'),
        38 => (vec!['l', 'a', 'q', 'u', 'o'], '\u{00AB}'),
        39 => (vec!['l', 'a', 'q', 'u', 'o', ';'], '\u{00AB}'),
        40 => (vec!['r', 'a', 'q', 'u', 'o'], '\u{00BB}'),
        41 => (vec!['r', 'a', 'q', 'u', 'o', ';'], '\u{00BB}'),
        42 => (vec!['t', 'i', 'm', 'e', 's'], '\u{00D7}'),
        43 => (vec!['t', 'i', 'm', 'e', 's', ';'], '\u{00D7}'),
        44 => (vec!['d', 'i', 'v', 'i', 'd', 'e'], '\u{00F7}'),
        45 => (vec!['d', 'i', 'v', 'i', 'd', 'e', ';'], '\u{00F7}'),
        46 => (vec!['c', 'e', 'n', 't'], '\u{00A2}'),
        47 => (vec!['c', 'e', 'n', 't', ';'], '\u{00A2}'),
        48 => (vec!['p', 'o', 'u', 'n', 'd'], '\u{00A3}'),
        49 => (vec!['p', 'o', 'u', 'n', 'd', ';'], '\u{00A3}'),
        50 => (vec!['y', 'e', 'n'], '\u{00A5}'),
        51 => (vec!['y', 'e', 'n', ';'], '\u{00A5}'),
        52 => (vec!['i', 'e', 'x', 'c', 'l'], '\u{00A1}'),
        53 => (vec!['i', 'e', 'x', 'c', 'l', ';'], '\u{00A1}'),
        54 => (vec!['i', 'q', 'u', 'e', 's', 't'], '\u{00BF}'),
        55 => (vec!['i', 'q', 'u', 'e', 's', 't', ';'], '\u{00BF}'),
        56 => (vec!['m', 'i', 'c', 'r', 'o'], '\u{00B5}'),
        57 => (vec!['m', 'i', 'c', 'r', 'o', ';'], '\u{00B5}'),
        58 => (vec!['p', 'l', 'u', 's', 'm', 'n'], '\u{00B1}'),
        59 => (vec!['p', 'l', 'u', 's', 'm', 'n', ';'], '\u{00B1}'),
        60 => (vec!['f', 'r', 'a', 'c', '1', '2'], '\u{00BD}'),
        61 => (vec!['f', 'r', 'a', 'c', '1', '2', ';'], '\u{00BD}'),
        62 => (vec!['f', 'r', 'a', 'c', '1', '4'], '\u{00BC}'),
        63 => (vec!['f', 'r', 'a', 'c', '1', '4', ';'], '\u{00BC}'),
        64 => (vec!['f', 'r', 'a', 'c', '3', '4'], '\u{00BE}'),
        65 => (vec!['f', 'r', 'a', 'c', '3', '4', ';'], '\u{00BE}'),
        66 => (vec!['s', 'u', 'p', '1'], '\u{00B9}'),
        67 => (vec!['s', 'u', 'p', '1', ';'], '\u{00B9}'),
        68 => (vec!['s', 'u', 'p', '2'], '\u{00B2}'),
        69 => (vec!['s', 'u', 'p', '2', ';'], '\u{00B2}'),
        70 => (vec!['s', 'u', 'p', '3'], '\u{00B3}'),
        71 => (vec!['s', 'u', 'p', '3', ';'], '\u{00B3}'),
        72 => (vec!['a', 'c', 'u', 't', 'e'], '\u{00B4}'),
        73 => (vec!['a', 'c', 'u', 't', 'e', ';'], '\u{00B4}'),
        74 => (vec!['u', 'm', 'l'], '\u{00A8}'),
        75 => (vec!['u', 'm', 'l', ';'], '\u{00A8}'),
        76 => (vec!['m', 'a', 'c', 'r'], '\u{00AF}'),
        77 => (vec!['m', 'a', 'c', 'r', ';'], '\u{00AF}'),
        78 => (vec!['o', 'r', 'd', 'f'], '\u{00AA}'),
        79 => (vec!['o', 'r', 'd', 'f', ';'], '\u{00AA}'),
        80 => (vec!['o', 'r', 'd', 'm'], '\u{00BA}'),
        81 => (vec!['o', 'r', 'd', 'm', ';'], '\u{00BA}'),
        82 => (vec!['b', 'r', 'v', 'b', 'a', 'r'], '\u{00A6}'),
        83 => (vec!['b', 'r', 'v', 'b', 'a', 'r', ';'], '\u{00A6}'),
        84 => (vec!['c', 'u', 'r', 'r', 'e', 'n'], '\u{00A4}'),
        85 => (vec!['c', 'u', 'r', 'r', 'e', 'n', ';'], '\u{00A4}'),
        86 => (vec!['c', 'e', 'd', 'i', 'l'], '\u{00B8}'),
        87 => (vec!['c', 'e', 'd', 'i', 'l', ';'], '\u{00B8}'),
        88 => (vec!['a', 'a', 'c', 'u', 't', 'e'], '\u{00E1}'),
        89 => (vec!['a', 'a', 'c', 'u', 't', 'e', ';'], '\u{00E1}'),
        90 => (vec!['e', 'a', 'c', 'u', 't', 'e'], '\u{00E9}'),
        91 => (vec!['e', 'a', 'c', 'u', 't', 'e', ';'], '\u{00E9}'),
        92 => (vec!['i', 'a', 'c', 'u', 't', 'e'], '\u{00ED}'),
        93 => (vec!['i', 'a', 'c', 'u', 't', 'e', ';'], '\u{00ED}'),
        94 => (vec!['o', 'a', 'c', 'u', 't', 'e'], '\u{00F3}'),
        95 => (vec!['o', 'a', 'c', 'u', 't', 'e', ';'], '\u{00F3}'),
        96 => (vec!['u', 'a', 'c', 'u', 't', 'e'], '\u{00FA}'),
        97 => (vec!['u', 'a', 'c', 'u', 't', 'e', ';'], '\u{00FA}'),
        98 => (vec!['a', 'g', 'r', 'a', 'v', 'e'], '\u{00E0}'),
        99 => (vec!['a', 'g', 'r', 'a', 'v', 'e', ';'], '\u{00E0}'),
        100 => (vec!['e', 'g', 'r', 'a', 'v', 'e'], '\u{00E8}'),
        101 => (vec!['e', 'g', 'r', 'a', 'v', 'e', ';'], '\u{00E8}'),
        102 => (vec!['n', 't', 'i', 'l', 'd', 'e'], '\u{00F1}'),
        103 => (vec!['n', 't', 'i', 'l', 'd', 'e', ';'], '\u{00F1}'),
        104 => (vec!['c', 'c', 'e', 'd', 'i', 'l'], '\u{00E7}'),
        105 => (vec!['c', 'c', 'e', 'd', 'i', 'l', ';'], '\u{00E7}'),
        106 => (vec!['a', 'u', 'm', 'l'], '\u{00E4}'),
        107 => (vec!['a', 'u', 'm', 'l', ';'], '\u{00E4}'),
        108 => (vec!['o', 'u', 'm', 'l'], '\u{00F6}'),
        109 => (vec!['o', 'u', 'm', 'l', ';'], '\u{00F6}'),
        110 => (vec!['u', 'u', 'm', 'l'], '\u{00FC}'),
        111 => (vec!['u', 'u', 'm', 'l', ';'], '\u{00FC}'),
        112 => (vec!['s', 'z', 'l', 'i', 'g'], '\u{00DF}'),
        113 => (vec!['s', 'z', 'l', 'i', 'g', ';'], '\u{00DF}'),
        114 => (vec!['A', 'u', 'm', 'l'], '\u{00C4}'),
        115 => (vec!['A', 'u', 'm', 'l', ';'], '\u{00C4}'),
        116 => (vec!['O', 'u', 'm', 'l'], '\u{00D6}'),
        117 => (vec!['O', 'u', 'm', 'l', ';'], '\u{00D6}'),
        118 => (vec!['U', 'u', 'm', 'l'], '\u{00DC}'),
        119 => (vec!['U', 'u', 'm', 'l', ';'], '\u{00DC}'),
        120 => (vec!['a', 'p', 'o', 's', ';'], '\''),
        121 => (vec!['h', 'e', 'l', 'l', 'i', 'p', ';'], '\u{2026}'),
        122 => (vec!['m', 'd', 'a', 's', 'h', ';'], '\u{2014}'),
        123 => (vec!['n', 'd', 'a', 's', 'h', ';'], '\u{2013}'),
        124 => (vec!['l', 's', 'q', 'u', 'o', ';'], '\u{2018}'),
        125 => (vec!['r', 's', 'q', 'u', 'o', ';'], '\u{2019}'),
        126 => (vec!['l', 'd', 'q', 'u', 'o', ';'], '\u{201C}'),
        127 => (vec!['r', 'd', 'q', 'u', 'o', ';'], '\u{201D}'),
        128 => (vec!['b', 'u', 'l', 'l', ';'], '\u{2022}'),
        129 => (vec!['e', 'u', 'r', 'o', ';'], '\u{20AC}'),
        130 => (vec!['t', 'r', 'a', 'd', 'e', ';'], '\u{2122}'),
        131 => (vec!['l', 'a', 'r', 'r', ';'], '\u{2190}'),
        132 => (vec!['r', 'a', 'r', 'r', ';'], '\u{2192}'),
        133 => (vec!['u', 'a', 'r', 'r', ';'], '\u{2191}'),
        134 => (vec!['d', 'a', 'r', 'r', ';'], '\u{2193}'),
        135 => (vec!['h', 'e', 'a', 'r', 't', 's', ';'], '\u{2665}'),
        136 => (vec!['i', 'n', 'f', 'i', 'n', ';'], '\u{221E}'),
        137 => (vec!['n', 'e', ';'], '\u{2260}'),
        138 => (vec!['l', 'e', ';'], '\u{2264}'),
        139 => (vec!['g', 'e', ';'], '\u{2265}'),
        140 => (vec!['a', 'l', 'p', 'h', 'a', ';'], '\u{03B1}'),
        141 => (vec!['b', 'e', 't', 'a', ';'], '\u{03B2}'),
        142 => (vec!['p', 'i', ';'], '\u{03C0}'),
        143 => (vec!['l', 'a', 'm', 'b', 'd', 'a', ';'], '\u{03BB}'),
        144 => (vec!['m', 'u', ';'], '\u{03BC}'),
        145 => (vec!['s', 'i', 'g', 'm', 'a', ';'], '\u{03C3}'),
        146 => (vec!['o', 'm', 'e', 'g', 'a', ';'], '\u{03C9}'),
        147 => (vec!['O', 'm', 'e', 'g', 'a', ';'], '\u{03A9}'),
        148 => (vec!['d', 'a', 'g', 'g', 'e', 'r', ';'], '\u{2020}'),
        149 => (vec!['p', 'e', 'r', 'm', 'i', 'l', ';'], '\u{2030}'),
        150 => (vec!['p', 'r', 'i', 'm', 'e', ';'], '\u{2032}'),
        151 => (vec!['t', 'h', 'i', 'n', 's', 'p', ';'], '\u{2009}'),
        152 => (vec!['e', 'n', 's', 'p', ';'], '\u{2002}'),
        153 => (vec!['e', 'm', 's', 'p', ';'], '\u{2003}'),
        154 => (vec!['z', 'w', 'n', 'j', ';'], '\u{200C}'),
        155 => (vec!['z', 'w', 'j', ';'], '\u{200D}'),
        156 => (vec!['l', 'r', 'm', ';'], '\u{200E}'),
        157 => (vec!['r', 'l', 'm', ';'], '\u{200F}'),
        _ => (Vec::new(), '&'),
    }
}

/// `name` is a prefix of `cand`.
pub open spec fn is_prefix(name: Seq<char>, cand: Seq<char>) -> bool {
    name.len() <= cand.len() && cand.subrange(0, name.len() as int) == name
}

/// The longest known name that starts `cand` has length `n` and stands for `v`; `n` is
/// 0 when no known name starts `cand`.
pub open spec fn longest_match(cand: Seq<char>, n: nat, v: char) -> bool {
    &&& n <= cand.len()
    &&& n > 0 ==> exists|i: usize|
        i < ENTITY_COUNT && (#[trigger] entity(i)).0.len() == n && is_prefix(entity(i).0, cand)
            && entity(i).1 == v
    &&& forall|i: usize| i < ENTITY_COUNT && is_prefix((#[trigger] entity(i)).0, cand)
        ==> entity(i).0.len() <= n
}

/// The length and value of the longest known name that starts `cand` (length 0 when
/// none does).
fn longest_entity(cand: &Vec<char>) -> (r: (usize, char))
    ensures
        longest_match(cand@, r.0 as nat, r.1),
{
    let mut best: usize = 0;
    let mut value: char = '&';
    let mut i: usize = 0;
    while i < ENTITY_COUNT
        invariant
            i <= ENTITY_COUNT,
            best <= cand@.len(),
            best > 0 ==> exists|k: usize|
                k < ENTITY_COUNT && (#[trigger] entity(k)).0.len() == best && is_prefix(
                    entity(k).0,
                    cand@,
                ) && entity(k).1 == value,
            forall|k: usize| k < i && is_prefix((#[trigger] entity(k)).0, cand@)
                ==> entity(k).0.len() <= best,
        decreases ENTITY_COUNT - i,
    {
        let (name, v) = entity_at(i);
        if name.len() > best && name.len() <= cand.len() {
            let mut j: usize = 0;
            let mut same = true;
            while j < name.len()
                invariant
                    name@.len() <= cand@.len(),
                    j <= name@.len(),
                    same == (forall|k: int| 0 <= k < j ==> name@[k] == cand@[k]),
                decreases name.len() - j,
            {
                if name[j] != cand[j] {
                    same = false;
                }
                j = j + 1;
            }
            if same {
                assert(cand@.subrange(0, name@.len() as int) =~= name@);
                best = name.len();
                value = v;
            } else {
                assert(!is_prefix(name@, cand@)) by {
                    if is_prefix(name@, cand@) {
                        assert forall|k: int| 0 <= k < name@.len() implies name@[k] == cand@[k] by {
                            assert(cand@.subrange(0, name@.len() as int)[k] == cand@[k]);
                        }
                    }
                }
            }
        }
        i = i + 1;
    }
    (best, value)
}

/// How many ASCII alphanumerics, at most `cap`, follow in `s` from `from` on.
pub open spec fn alnum_run(s: Seq<Character>, from: int, cap: nat) -> nat
    decreases cap,
{
    if cap > 0 && 0 <= from < s.len() && s[from] is Ch && is_alnum(char_of(s[from])) {
        1 + alnum_run(s, from + 1, (cap - 1) as nat)
    } else {
        0
    }
}

/// What a named reference at `at` is looked up with: the alphanumerics that follow (at
/// most `MAX_NAME`), and a `;` right after them.
pub open spec fn candidate(s: Seq<Character>, at: int) -> Seq<char> {
    let n = alnum_run(s, at, MAX_NAME as nat);
    let word = Seq::new(n, |k: int| char_of(s[at + k]));
    if at + n < s.len() && s[at + n] == Character::Ch(';') {
        word.push(';')
    } else {
        word
    }
}

/// A match without `;` in an attribute, followed by `=` or an alphanumeric, is left as
/// it is.
pub open spec fn kept_in_attribute(s: Seq<Character>, at: int, cand: Seq<char>, n: nat, in_attribute: bool) -> bool {
    &&& in_attribute
    &&& cand[n - 1] != ';'
    &&& at + n < s.len()
    &&& s[at + n] is Ch
    &&& (char_of(s[at + n]) == '=' || is_alnum(char_of(s[at + n])))
}

/// What the named reference at `at` does to the output `before`: the longest known name
/// is replaced by its character and read; no match, or a match kept in an attribute,
/// appends `&` and reads nothing.
pub open spec fn named_reference_appended(
    s: Seq<Character>,
    at: int,
    in_attribute: bool,
    before: Seq<char>,
    after: Seq<char>,
    pos_after: int,
) -> bool {
    let cand = candidate(s, at);
    exists|n: nat, v: char|
        #[trigger] longest_match(cand, n, v) && (if n == 0 || kept_in_attribute(
            s,
            at,
            cand,
            n,
            in_attribute,
        ) {
            after == before.push('&') && pos_after == at
        } else {
            after == before.push(v) && pos_after == at + n
        })
}

/// The errors a named reference at `at` logs at `loc`: an unknown name followed by `;`,
/// and a known name replaced without its `;`.
pub open spec fn named_reference_logged(
    s: Seq<Character>,
    at: int,
    in_attribute: bool,
    logger: ErrorLogger,
    loc: Location,
) -> bool {
    let cand = candidate(s, at);
    forall|n: nat, v: char|
        #[trigger] longest_match(cand, n, v) ==> (n == 0 && cand.len() > alnum_run(
            s,
            at,
            MAX_NAME as nat,
        ) ==> logger.logged(loc, ParserError::UnknownNamedCharacterReference)) && (n > 0
            && cand[n - 1] != ';' && !kept_in_attribute(s, at, cand, n, in_attribute)
            ==> logger.logged(loc, ParserError::MissingSemicolonAfterCharacterReference))
}

/// Two lengths that are both the longest match are the same.
proof fn longest_match_unique(cand: Seq<char>, n: nat, v: char, m: nat, w: char)
    requires
        longest_match(cand, n, v),
        longest_match(cand, m, w),
    ensures
        n == m,
{
    if n > 0 {
        let i = choose|i: usize|
            i < ENTITY_COUNT && (#[trigger] entity(i)).0.len() == n && is_prefix(entity(i).0, cand)
                && entity(i).1 == v;
        assert(entity(i).0.len() <= m);
    }
    if m > 0 {
        let j = choose|j: usize|
            j < ENTITY_COUNT && (#[trigger] entity(j)).0.len() == m && is_prefix(entity(j).0, cand)
                && entity(j).1 == w;
        assert(entity(j).0.len() <= n);
    }
}

/// The element at `at` as a read sees it.
pub open spec fn peek_at(s: Seq<Character>, at: int) -> Character {
    if 0 <= at < s.len() {
        normalize(s[at])
    } else {
        Character::StreamEnd
    }
}

/// What a character reference whose text starts at `at` (just after `&`) appends to
/// `before`, and where reading stops.
pub open spec fn char_ref_appended(
    s: Seq<Character>,
    at: int,
    additional_allowed: Option<char>,
    in_attribute: bool,
    before: Seq<char>,
    after: Seq<char>,
    pos_after: int,
) -> bool {
    let c = peek_at(s, at);
    if ends_reference_at_once(c, additional_allowed) {
        after == before.push('&') && pos_after == at
    } else if c == Character::Ch('#') {
        numeric_reference_appended(s, at, before, after, pos_after)
    } else if c is Ch && is_alnum(char_of(c)) {
        named_reference_appended(s, at, in_attribute, before, after, pos_after)
    } else {
        after == before.push('&') && pos_after == at
    }
}

/// The errors a numeric reference at `at` (the `#`) logs: no digits; digits without a
/// `;`; a value that is not allowed, where reading stopped.
pub open spec fn numeric_reference_logged(
    s: Seq<Character>,
    locations: Seq<Location>,
    at: int,
    logger: ErrorLogger,
) -> bool {
    let hex = is_hex_reference(s, at);
    let from = digits_start(s, at);
    let n = digit_run(s, from, hex);
    let end = from + n;
    let semicolon = end < s.len() && s[end] == Character::Ch(';');
    let value = run_value(s, from, n, hex);
    &&& n == 0 ==> logger.logged(locations[at], ParserError::AbsenceOfDigitsInNumericCharacterReference)
    &&& n > 0 && !semicolon ==> logger.logged(
        locations[end],
        ParserError::MissingSemicolonAfterCharacterReference,
    )
    &&& n > 0 && numeric_reference_error(value) is Some ==> logger.logged(
        locations[if semicolon {
            end + 1
        } else {
            end
        }],
        numeric_reference_error(value)->0,
    )
}

/// After `&`, these leave the `&` as it is: whitespace, `<`, `&`, the end of the input
/// and the additional allowed character.
pub open spec fn ends_reference_at_once(next: Character, additional_allowed: Option<char>) -> bool {
    match next {
        Character::Ch(c) => c == CHAR_TAB || c == CHAR_LF || c == CHAR_FF || c == CHAR_SPACE || c
            == '<' || c == '&' || additional_allowed == Some(c),
        _ => true,
    }
}

/// Consumes a character reference after `&` and appends what it stands for to `out`.
/// `additional_allowed` ends the reference at once (the quote or `>` of an attribute
/// value); in an attribute, a named reference without `;` followed by `=` or an
/// alphanumeric is left as it is.
pub fn consume_character_reference(
    cursor: &mut Cursor,
    logger: &mut ErrorLogger,
    out: &mut Vec<char>,
    additional_allowed: Option<char>,
    in_attribute: bool,
)
    requires
        old(cursor).wf(),
        old(logger).wf(),
    ensures
        final(cursor).wf(),
        final(logger).wf(),
        final(logger).grows_from(*old(logger)),
        final(cursor).chars == old(cursor).chars,
        final(cursor).locations == old(cursor).locations,
        final(cursor).pos >= old(cursor).pos,
        final(out)@.len() > old(out)@.len(),
        ends_reference_at_once(old(cursor).peek(), additional_allowed) ==> final(out)@ == old(
            out,
        )@.push('&') && final(cursor).pos == old(cursor).pos,
        !ends_reference_at_once(old(cursor).peek(), additional_allowed) && old(cursor).peek()
            == Character::Ch('#') ==> numeric_reference_appended(
            old(cursor).chars@,
            old(cursor).pos as int,
            old(out)@,
            final(out)@,
            final(cursor).pos as int,
        ),
        !ends_reference_at_once(old(cursor).peek(), additional_allowed) && old(cursor).peek() is Ch
            && is_alnum(char_of(old(cursor).peek())) ==> named_reference_appended(
            old(cursor).chars@,
            old(cursor).pos as int,
            in_attribute,
            old(out)@,
            final(out)@,
            final(cursor).pos as int,
        ),
        !ends_reference_at_once(old(cursor).peek(), additional_allowed) && old(cursor).peek() is Ch
            && is_alnum(char_of(old(cursor).peek())) ==> named_reference_logged(
            old(cursor).chars@,
            old(cursor).pos as int,
            in_attribute,
            *final(logger),
            old(cursor).locations@[old(cursor).pos as int],
        ),
        char_ref_appended(
            old(cursor).chars@,
            old(cursor).pos as int,
            additional_allowed,
            in_attribute,
            old(out)@,
            final(out)@,
            final(cursor).pos as int,
        ),
        !ends_reference_at_once(old(cursor).peek(), additional_allowed) && old(cursor).peek()
            == Character::Ch('#') ==> numeric_reference_logged(
            old(cursor).chars@,
            old(cursor).locations@,
            old(cursor).pos as int,
            *final(logger),
        ),
{
    let len = cursor.chars.len();
    let start = cursor.pos;
    let ghost s = cursor.chars@;
    if start >= len {
        out.push('&');
        return;
    }
    let next = cursor.chars[start];
    let first = match next {
        Character::Ch(c) => c,
        _ => {
            out.push('&');
            return;
        },
    };
    if first == CHAR_TAB || first == CHAR_LF || first == CHAR_FF || first == CHAR_SPACE || first
        == '<' || first == '&' || (additional_allowed matches Some(a) && a == first) {
        out.push('&');
        return;
    }
    if first == '#' {
        consume_numeric_reference(cursor, logger, out);
        return;
    }
    if !alnum(first) {
        out.push('&');
        return;
    }
    let mut cand: Vec<char> = Vec::new();
    let mut p: usize = start;
    let mut more = true;
    while p < len && cand.len() < MAX_NAME && more
        invariant
            cursor.wf(),
            s == cursor.chars@,
            len == cursor.chars@.len(),
            start <= p <= len,
            cand@.len() == p - start,
            cand@.len() <= MAX_NAME,
            cand@ == Seq::new((p - start) as nat, |k: int| char_of(s[start + k])),
            forall|k: int| 0 <= k < cand@.len() ==> is_alnum(#[trigger] cand@[k]),
            more ==> alnum_run(s, start as int, MAX_NAME as nat) == (p - start) + alnum_run(
                s,
                p as int,
                (MAX_NAME - (p - start)) as nat,
            ),
            !more ==> alnum_run(s, start as int, MAX_NAME as nat) == p - start,
        decreases len - p + (if more { 1int } else { 0int }),
    {
        match cursor.chars[p] {
            Character::Ch(c) if alnum(c) => {
                cand.push(c);
                assert(cand@ =~= Seq::new((p + 1 - start) as nat, |k: int| char_of(s[start + k])));
                p = p + 1;
            },
            _ => {
                more = false;
            },
        }
    }
    assert(alnum_run(s, start as int, MAX_NAME as nat) == p - start) by {
        if more {
            assert(alnum_run(s, p as int, (MAX_NAME - (p - start)) as nat) == 0);
        }
    }
    let alnums = cand.len();
    if p < len && cursor.chars[p] == Character::Ch(';') {
        cand.push(';');
    }
    assert(cand@ == candidate(s, start as int));
    let (matched, value) = longest_entity(&cand);
    proof {
        assert forall|n: nat, v: char| #[trigger] longest_match(cand@, n, v) implies n == matched by {
            longest_match_unique(cand@, n, v, matched as nat, value);
        }
    }
    if matched == 0 {
        if cand.len() > alnums {
            let at = cursor.location();
            logger.add_error(at, ParserError::UnknownNamedCharacterReference.as_str());
        }
        out.push('&');
        return;
    }
    let ends_with_semicolon = cand[matched - 1] == ';';
    if !ends_with_semicolon && in_attribute {
        let after = start + matched;
        if after < len {
            match cursor.chars[after] {
                Character::Ch(c) => {
                    if c == '=' || alnum(c) {
                        out.push('&');
                        return;
                    }
                },
                _ => {},
            }
        }
    }
    if !ends_with_semicolon {
        let at = cursor.location();
        logger.add_error(at, ParserError::MissingSemicolonAfterCharacterReference.as_str());
    }
    cursor.skip(matched);
    out.push(value);
}

/// The digit value of `c` in the given base, if it is a digit.
pub open spec fn digit_of(c: Character, hex: bool) -> Option<u32> {
    match c {
        Character::Ch(x) => digit_value(x, hex),
        _ => None,
    }
}

/// How many digits of the base follow in `s` from `from` on.
pub open spec fn digit_run(s: Seq<Character>, from: int, hex: bool) -> nat
    decreases s.len() - from,
{
    if 0 <= from < s.len() && digit_of(s[from], hex) is Some {
        1 + digit_run(s, from + 1, hex)
    } else {
        0
    }
}

/// One more digit `d` after the value `v`; values stop growing at 0x110000.
pub open spec fn accumulate(v: u32, d: u32, hex: bool) -> u32 {
    let base: int = if hex { 16 } else { 10 };
    if v < 0x110000 {
        if v * base + d > 0x110000 {
            0x110000
        } else {
            (v * base + d) as u32
        }
    } else {
        v
    }
}

/// The value of the `n` digits of `s` from `from` on, capped at 0x110000.
pub open spec fn run_value(s: Seq<Character>, from: int, n: nat, hex: bool) -> u32
    decreases n,
{
    if n == 0 {
        0
    } else {
        accumulate(
            run_value(s, from, (n - 1) as nat, hex),
            digit_of(s[from + n - 1], hex)->0,
            hex,
        )
    }
}

/// A numeric reference at `at` (the `#`) is hexadecimal.
pub open spec fn is_hex_reference(s: Seq<Character>, at: int) -> bool {
    at + 1 < s.len() && (s[at + 1] == Character::Ch('x') || s[at + 1] == Character::Ch('X'))
}

/// Where the digits of the numeric reference at `at` start.
pub open spec fn digits_start(s: Seq<Character>, at: int) -> int {
    if is_hex_reference(s, at) {
        at + 2
    } else {
        at + 1
    }
}

/// The scalar value of the numeric reference at `at`, once its digits are read.
pub open spec fn numeric_reference_at(s: Seq<Character>, at: int) -> u32 {
    let hex = is_hex_reference(s, at);
    let from = digits_start(s, at);
    numeric_reference_value(run_value(s, from, digit_run(s, from, hex), hex))
}

/// What the numeric reference at `at` (the `#`) does to the output `before`: with no
/// digits, `&` is appended and nothing read; else the character it stands for is
/// appended.
pub open spec fn numeric_reference_appended(
    s: Seq<Character>,
    at: int,
    before: Seq<char>,
    after: Seq<char>,
    pos_after: int,
) -> bool {
    let n = digit_run(s, digits_start(s, at), is_hex_reference(s, at));
    &&& n == 0 ==> after == before.push('&') && pos_after == at
    &&& n > 0 ==> after.len() == before.len() + 1 && after.last() as u32 == numeric_reference_at(
        s,
        at,
    ) && after.drop_last() == before
}

/// Consumes `#`, the digits and an optional `;` of a numeric character reference and
/// appends the character it stands for; with no digits, appends `&` and consumes
/// nothing.
fn consume_numeric_reference(cursor: &mut Cursor, logger: &mut ErrorLogger, out: &mut Vec<char>)
    requires
        old(cursor).wf(),
        old(logger).wf(),
        old(cursor).pos < old(cursor).chars@.len(),
    ensures
        final(cursor).wf(),
        final(logger).wf(),
        final(logger).grows_from(*old(logger)),
        final(cursor).chars == old(cursor).chars,
        final(cursor).locations == old(cursor).locations,
        final(cursor).pos >= old(cursor).pos,
        final(out)@.len() == old(out)@.len() + 1,
        numeric_reference_appended(
            old(cursor).chars@,
            old(cursor).pos as int,
            old(out)@,
            final(out)@,
            final(cursor).pos as int,
        ),
        numeric_reference_logged(
            old(cursor).chars@,
            old(cursor).locations@,
            old(cursor).pos as int,
            *final(logger),
        ),
{
    let len = cursor.chars.len();
    let start = cursor.pos;
    let ghost s = cursor.chars@;
    let mut p: usize = start + 1;
    let mut hex = false;
    if p < len && (cursor.chars[p] == Character::Ch('x') || cursor.chars[p] == Character::Ch('X')) {
        hex = true;
        p = p + 1;
    }
    let begin = p;
    assert(begin == digits_start(s, start as int));
    assert(hex == is_hex_reference(s, start as int));
    let mut value: u32 = 0;
    let mut more = true;
    while p < len && more
        invariant
            cursor.wf(),
            s == cursor.chars@,
            len == cursor.chars@.len(),
            start < begin <= p <= len,
            value <= 0x110000,
            value == run_value(s, begin as int, (p - begin) as nat, hex),
            more ==> digit_run(s, begin as int, hex) == (p - begin) + digit_run(s, p as int, hex),
            !more ==> digit_run(s, begin as int, hex) == p - begin,
        decreases len - p + (if more { 1int } else { 0int }),
    {
        match cursor.chars[p] {
            Character::Ch(c) => {
                match digit(c, hex) {
                    Some(d) => {
                        let base: u32 = if hex { 16 } else { 10 };
                        let ghost before = value;
                        if value < 0x110000 {
                            assert(value as u64 * base as u64 <= 0x110000 * 16) by (nonlinear_arith)
                                requires
                                    value <= 0x110000,
                                    base <= 16,
                            ;
                            let next = value as u64 * base as u64 + d as u64;
                            value = if next > 0x110000 { 0x110000 } else { next as u32 };
                        }
                        assert(value == accumulate(before, d, hex));
                        assert(digit_of(s[p as int], hex) == Some(d));
                        assert(run_value(s, begin as int, (p + 1 - begin) as nat, hex) == accumulate(
                            run_value(s, begin as int, (p - begin) as nat, hex),
                            d,
                            hex,
                        ));
                        p = p + 1;
                    },
                    None => {
                        more = false;
                    },
                }
            },
            _ => {
                more = false;
            },
        }
    }
    assert(digit_run(s, begin as int, hex) == p - begin) by {
        if more {
            assert(digit_run(s, p as int, hex) == 0);
        }
    }
    if p == begin {
        let at = cursor.location();
        logger.add_error(at, ParserError::AbsenceOfDigitsInNumericCharacterReference.as_str());
        out.push('&');
        return;
    }
    cursor.skip(p - start);
    if p < len && cursor.chars[p] == Character::Ch(';') {
        cursor.skip(1);
    } else {
        let at = cursor.location();
        logger.add_error(at, ParserError::MissingSemicolonAfterCharacterReference.as_str());
    }
    let (c, err) = resolve_numeric_reference(value);
    match err {
        Some(e) => {
            let at = cursor.location();
            logger.add_error(at, e.as_str());
        },
        None => {},
    }
    let ghost prior = out@;
    out.push(c);
    assert(out@.drop_last() =~= prior);
}

} // verus!

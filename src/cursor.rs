use vstd::prelude::*;
use crate::error_logger::{ErrorLogger, ParserError};
use crate::location::Location;
use crate::stream::{advance, fits_locations, is_location_table, Character, InputStream, CHAR_LF, CHAR_REPLACEMENT};

verus! {

/// The character as the state machine sees it: a surrogate stands as U+FFFD.
pub open spec fn normalize(c: Character) -> Character {
    match c {
        Character::Surrogate(_) => Character::Ch(CHAR_REPLACEMENT),
        _ => c,
    }
}

/// C0 and C1 controls other than ASCII whitespace and NUL.
pub open spec fn is_control_char(v: u32) -> bool {
    ((0x01 <= v <= 0x1F) && v != 0x09 && v != 0x0A && v != 0x0C && v != 0x0D) || (0x7F <= v
        <= 0x9F)
}

/// Unicode noncharacters.
pub open spec fn is_noncharacter(v: u32) -> bool {
    (0xFDD0 <= v <= 0xFDEF) || (v <= 0x10FFFF && (v % 0x10000 == 0xFFFE || v % 0x10000 == 0xFFFF))
}

/// The code point of a scalar value (0 for anything else).
pub open spec fn code_point(c: Character) -> u32 {
    match c {
        Character::Ch(x) => x as u32,
        _ => 0,
    }
}

/// A read position over the decoded input, with the location of every position.
pub struct Cursor {
    pub chars: Vec<Character>,
    pub locations: Vec<Location>,
    pub pos: usize,
    pub last_char: Character,
}

impl Cursor {
    /// The position is within the input, every position has a location, the input
    /// holds no end marker, and a step back is possible after a successful read.
    pub open spec fn wf(&self) -> bool {
        &&& self.pos <= self.chars@.len()
        &&& self.locations@.len() == self.chars@.len() + 1
        &&& forall|i: int| 0 <= i < self.chars@.len() ==> self.chars@[i] != Character::StreamEnd
        &&& self.last_char != Character::StreamEnd ==> self.pos > 0
    }

    /// Number of elements not read yet.
    pub open spec fn remaining(&self) -> nat {
        (self.chars@.len() - self.pos) as nat
    }

    /// What the next read returns.
    pub open spec fn peek(&self) -> Character {
        if self.pos < self.chars@.len() {
            normalize(self.chars@[self.pos as int])
        } else {
            Character::StreamEnd
        }
    }

    /// The input from the cursor on starts with `word`, letters compared without case
    /// when `fold` is set.
    pub open spec fn ahead_is(&self, word: Seq<char>, fold: bool) -> bool {
        &&& self.pos + word.len() <= self.chars@.len()
        &&& forall|i: int|
            0 <= i < word.len() ==> match #[trigger] self.chars@[self.pos + i] {
                Character::Ch(c) => c == word[i] || (fold && ascii_upper_of(c) == word[i]),
                _ => false,
            }
    }

    /// Places a cursor at the start of `stream`, whose first element is at `start`.
    pub fn new(stream: InputStream, start: Location) -> (r: Cursor)
        requires
            stream.wf(),
            fits_locations(stream.chars@.len(), start),
        ensures
            r.wf(),
            r.pos == 0,
            r.chars@ == stream.chars@,
            is_location_table(r.locations@, r.chars@, start),
    {
        let chars = stream.chars;
        let mut locations: Vec<Location> = Vec::new();
        locations.push(start);
        let mut cur = start;
        let mut i: usize = 0;
        while i < chars.len()
            invariant
                i <= chars@.len(),
                fits_locations(chars@.len(), start),
                locations@.len() == i + 1,
                locations@[0] == start,
                locations@[i as int] == cur,
                forall|k: int| 0 <= k < i ==> #[trigger] locations@[k + 1] == advance(locations@[k], chars@[k]),
                cur.line <= start.line + i,
                cur.column <= start.column + i,
                cur.offset <= start.offset + 4 * i,
                i > 0 ==> cur.column <= start.column + i,
            decreases chars.len() - i,
        {
            let c = chars[i];
            let width: u32 = match c {
                Character::Ch(ch) => if (ch as u32) < 0x80 {
                    1
                } else if (ch as u32) < 0x800 {
                    2
                } else if (ch as u32) < 0x10000 {
                    3
                } else {
                    4
                },
                Character::Surrogate(_) => 3,
                Character::StreamEnd => 0,
            };
            let next = if c == Character::Ch(CHAR_LF) {
                Location { line: cur.line + 1, column: 1, offset: cur.offset + width }
            } else {
                Location { line: cur.line, column: cur.column + 1, offset: cur.offset + width }
            };
            assert(next == advance(cur, c));
            locations.push(next);
            cur = next;
            i = i + 1;
        }
        Cursor { chars, locations, pos: 0, last_char: Character::StreamEnd }
    }

    /// The location of the next element to read.
    pub fn location(&self) -> (r: Location)
        requires
            self.wf(),
        ensures
            r == self.locations@[self.pos as int],
    {
        self.locations[self.pos]
    }

    /// Reads the next element, logging surrogates, controls and noncharacters; a
    /// surrogate is handed on as U+FFFD.
    pub fn read(&mut self, logger: &mut ErrorLogger) -> (r: Character)
        requires
            old(self).wf(),
            old(logger).wf(),
        ensures
            final(self).wf(),
            final(logger).wf(),
            final(logger).grows_from(*old(logger)),
            final(self).chars == old(self).chars,
            final(self).locations == old(self).locations,
            r == old(self).peek(),
            old(self).pos < old(self).chars@.len() && old(self).chars@[old(self).pos as int] is Surrogate
                ==> final(logger).logged(
                old(self).locations@[old(self).pos as int],
                ParserError::SurrogateInInputStream,
            ),
            old(self).pos < old(self).chars@.len() && is_control_char(
                code_point(old(self).chars@[old(self).pos as int]),
            ) ==> final(logger).logged(
                old(self).locations@[old(self).pos as int],
                ParserError::ControlCharacterInInputStream,
            ),
            old(self).pos < old(self).chars@.len() && is_noncharacter(
                code_point(old(self).chars@[old(self).pos as int]),
            ) ==> final(logger).logged(
                old(self).locations@[old(self).pos as int],
                ParserError::NoncharacterInInputStream,
            ),
            !(r is Surrogate),
            old(self).pos < old(self).chars@.len() ==> final(self).pos == old(self).pos + 1
                && final(self).last_char != Character::StreamEnd,
            old(self).pos == old(self).chars@.len() ==> final(self).pos == old(self).pos
                && final(self).last_char == Character::StreamEnd && *final(logger) == *old(logger),
            old(self).pos < old(self).chars@.len() && !(old(self).chars@[old(self).pos as int] is Surrogate)
                && !is_control_char(code_point(old(self).chars@[old(self).pos as int]))
                && !is_noncharacter(code_point(old(self).chars@[old(self).pos as int]))
                ==> *final(logger) == *old(logger),
    {
        let loc = self.location();
        if self.pos >= self.chars.len() {
            self.last_char = Character::StreamEnd;
            return Character::StreamEnd;
        }
        let c = self.chars[self.pos];
        self.pos = self.pos + 1;
        self.last_char = c;
        match c {
            Character::Surrogate(_) => {
                logger.add_error(loc, ParserError::SurrogateInInputStream.as_str());
                Character::Ch(CHAR_REPLACEMENT)
            },
            Character::Ch(ch) => {
                let v = ch as u32;
                if ((0x01 <= v && v <= 0x1F) && v != 0x09 && v != 0x0A && v != 0x0C && v != 0x0D)
                    || (0x7F <= v && v <= 0x9F) {
                    logger.add_error(loc, ParserError::ControlCharacterInInputStream.as_str());
                } else if (0xFDD0 <= v && v <= 0xFDEF) || (v % 0x10000 == 0xFFFE || v % 0x10000
                    == 0xFFFF) {
                    logger.add_error(loc, ParserError::NoncharacterInInputStream.as_str());
                }
                c
            },
            Character::StreamEnd => c,
        }
    }

    /// Steps back over the element read last, once; a read that met the end of the
    /// stream is not undone.
    pub fn unread(&mut self)
        requires
            old(self).wf(),
        ensures
            final(self).wf(),
            final(self).chars == old(self).chars,
            final(self).locations == old(self).locations,
            final(self).last_char == Character::StreamEnd,
            old(self).last_char != Character::StreamEnd ==> final(self).pos == old(self).pos - 1,
            old(self).last_char == Character::StreamEnd ==> final(self).pos == old(self).pos,
    {
        if self.last_char != Character::StreamEnd {
            self.pos = self.pos - 1;
        }
        self.last_char = Character::StreamEnd;
    }

    /// Moves over `n` elements that are known to be there.
    pub fn skip(&mut self, n: usize)
        requires
            old(self).wf(),
            old(self).pos + n <= old(self).chars@.len(),
            n > 0,
        ensures
            final(self).wf(),
            final(self).chars == old(self).chars,
            final(self).locations == old(self).locations,
            final(self).pos == old(self).pos + n,
    {
        let len = self.chars.len();
        assert(len == self.chars@.len());
        self.pos = self.pos + n;
        self.last_char = self.chars[self.pos - 1];
    }

    /// The two dashes before position `at` close a `<!--`.
    pub open spec fn opens_markup_before(&self, at: int) -> bool {
        &&& at >= 4
        &&& self.chars@[at - 4] == Character::Ch('<')
        &&& self.chars@[at - 3] == Character::Ch('!')
    }

    /// Whether the two dashes before position `at` close a `<!--`.
    pub fn follows_markup_open(&self, at: usize) -> (r: bool)
        requires
            self.wf(),
            at <= self.chars@.len(),
        ensures
            r == self.opens_markup_before(at as int),
    {
        at >= 4 && self.chars[at - 4] == Character::Ch('<') && self.chars[at - 3] == Character::Ch('!')
    }

    /// Whether the input from the cursor on starts with `word` (see `ahead_is`).
    pub fn lookahead(&self, word: &Vec<char>, fold: bool) -> (r: bool)
        requires
            self.wf(),
        ensures
            r == self.ahead_is(word@, fold),
    {
        if word.len() > self.chars.len() - self.pos {
            return false;
        }
        let len = self.chars.len();
        let mut i: usize = 0;
        while i < word.len()
            invariant
                self.wf(),
                len == self.chars@.len(),
                self.pos + word@.len() <= self.chars@.len(),
                i <= word@.len(),
                forall|k: int|
                    0 <= k < i ==> match #[trigger] self.chars@[self.pos + k] {
                        Character::Ch(c) => c == word@[k] || (fold && ascii_upper_of(c) == word@[k]),
                        _ => false,
                    },
            decreases word.len() - i,
        {
            let c = self.chars[self.pos + i];
            let w = word[i];
            match c {
                Character::Ch(ch) => {
                    if !(ch == w || (fold && to_ascii_upper(ch) == w)) {
                        assert(!self.ahead_is(word@, fold) || match self.chars@[self.pos + i] {
                            Character::Ch(c) => c == word@[i as int] || (fold && ascii_upper_of(c) == word@[i as int]),
                            _ => false,
                        });
                        return false;
                    }
                },
                _ => {
                    assert(!self.ahead_is(word@, fold) || match self.chars@[self.pos + i] {
                        Character::Ch(c) => c == word@[i as int] || (fold && ascii_upper_of(c) == word@[i as int]),
                        _ => false,
                    });
                    return false;
                },
            }
            i = i + 1;
        }
        true
    }
}

/// ASCII uppercasing of one character.
pub open spec fn ascii_upper_of(c: char) -> char {
    if 'a' <= c && c <= 'z' {
        ((c as u32) - 32) as char
    } else {
        c
    }
}

/// ASCII lowercasing of one character.
pub open spec fn ascii_lower_of(c: char) -> char {
    if 'A' <= c && c <= 'Z' {
        ((c as u32) + 32) as char
    } else {
        c
    }
}

/// Uppercases an ASCII letter; other characters stay as they are.
pub fn to_ascii_upper(c: char) -> (r: char)
    ensures
        r == ascii_upper_of(c),
{
    if 'a' <= c && c <= 'z' {
        ((c as u8) - 32) as char
    } else {
        c
    }
}

/// Lowercases an ASCII capital letter; other characters stay as they are.
pub fn to_ascii_lower(c: char) -> (r: char)
    ensures
        r == ascii_lower_of(c),
        !crate::token::is_ascii_upper(r),
{
    if 'A' <= c && c <= 'Z' {
        ((c as u8) + 32) as char
    } else {
        c
    }
}

} // verus!

use vstd::prelude::*;
use crate::location::Location;

verus! {

/// One element of the decoded input: a scalar value, a lone UTF-16 surrogate, or the
/// end of the stream.
#[derive(Clone, Copy, Debug, PartialEq, Eq, Structural)]
pub enum Character {
    Ch(char),
    Surrogate(u16),
    StreamEnd,
}

pub const CHAR_NUL: char = '\u{0000}';
pub const CHAR_TAB: char = '\u{0009}';
pub const CHAR_LF: char = '\u{000A}';
pub const CHAR_CR: char = '\u{000D}';
pub const CHAR_FF: char = '\u{000C}';
pub const CHAR_SPACE: char = '\u{0020}';
pub const CHAR_REPLACEMENT: char = '\u{FFFD}';

/// The input as it reaches the tokenizer: CR LF pairs and lone CRs have become LF.
pub open spec fn normalize_newlines(s: Seq<Character>) -> Seq<Character>
    decreases s.len(),
{
    if s.len() == 0 {
        s
    } else if s[0] == Character::Ch(CHAR_CR) {
        if s.len() > 1 && s[1] == Character::Ch(CHAR_LF) {
            normalize_newlines(s.drop_first())
        } else {
            seq![Character::Ch(CHAR_LF)] + normalize_newlines(s.drop_first())
        }
    } else {
        seq![s[0]] + normalize_newlines(s.drop_first())
    }
}

/// Number of bytes the UTF-8 encoding of `c` takes (a surrogate counts as the
/// replacement character it stands for).
pub open spec fn utf8_width(c: Character) -> nat {
    match c {
        Character::Ch(ch) => if (ch as u32) < 0x80 {
            1
        } else if (ch as u32) < 0x800 {
            2
        } else if (ch as u32) < 0x10000 {
            3
        } else {
            4
        },
        Character::Surrogate(_) => 3,
        Character::StreamEnd => 0,
    }
}

/// The location that follows `loc` once `c` has been read.
pub open spec fn advance(loc: Location, c: Character) -> Location {
    if c == Character::Ch(CHAR_LF) {
        Location {
            line: (loc.line + 1) as u32,
            column: 1,
            offset: (loc.offset + utf8_width(c)) as u32,
        }
    } else {
        Location {
            line: loc.line,
            column: (loc.column + 1) as u32,
            offset: (loc.offset + utf8_width(c)) as u32,
        }
    }
}

/// A location table for `s` from `start`: entry `i` is where the `i`-th element begins,
/// the last entry is where the input ends.
pub open spec fn is_location_table(t: Seq<Location>, s: Seq<Character>, start: Location) -> bool {
    &&& t.len() == s.len() + 1
    &&& t[0] == start
    &&& forall|i: int| 0 <= i < s.len() ==> #[trigger] t[i + 1] == advance(t[i], s[i])
}

/// The locations of `s` can be counted in `u32` from `start`.
pub open spec fn fits_locations(len: nat, start: Location) -> bool {
    &&& start.line + len <= u32::MAX
    &&& start.column + len <= u32::MAX
    &&& start.offset + 4 * len <= u32::MAX
}

/// The decoded input stream with a cursor.
pub struct InputStream {
    pub chars: Vec<Character>,
}

impl InputStream {
    /// The stream holds scalars and surrogates only.
    pub open spec fn wf(&self) -> bool {
        forall|i: int| 0 <= i < self.chars@.len() ==> self.chars@[i] != Character::StreamEnd
    }

    /// Builds a stream from decoded input, normalising newlines; a `StreamEnd` in the
    /// input ends it.
    pub fn new(input: &Vec<Character>) -> (r: InputStream)
        ensures
            r.wf(),
            exists|k: int|
                0 <= k <= input@.len() && (forall|i: int| 0 <= i < k ==> input@[i] != Character::StreamEnd)
                    && (k < input@.len() ==> input@[k] == Character::StreamEnd) && r.chars@
                    == normalize_newlines(#[trigger] input@.subrange(0, k)),
    {
        let mut end: usize = 0;
        while end < input.len() && input[end] != Character::StreamEnd
            invariant
                end <= input.len(),
                forall|i: int| 0 <= i < end ==> input@[i] != Character::StreamEnd,
            decreases input.len() - end,
        {
            end = end + 1;
        }
        let ghost whole = input@.subrange(0, end as int);
        let mut out: Vec<Character> = Vec::new();
        let mut i: usize = 0;
        assert(whole.subrange(0, whole.len() as int) =~= whole);
        assert(out@ + normalize_newlines(whole) =~= normalize_newlines(whole));
        while i < end
            invariant
                i <= end <= input.len(),
                whole == input@.subrange(0, end as int),
                forall|k: int| 0 <= k < end ==> input@[k] != Character::StreamEnd,
                forall|k: int| 0 <= k < out@.len() ==> out@[k] != Character::StreamEnd,
                out@ + normalize_newlines(input@.subrange(i as int, end as int))
                    == normalize_newlines(whole),
            decreases end - i,
        {
            let c = input[i];
            let ghost rest = input@.subrange(i as int, end as int);
            let ghost before = out@;
            assert(rest.drop_first() =~= input@.subrange(i + 1, end as int));
            assert(rest[0] == c);
            if c == Character::Ch(CHAR_CR) {
                if i + 1 < end && input[i + 1] == Character::Ch(CHAR_LF) {
                    assert(rest[1] == input@[i + 1]);
                    assert(normalize_newlines(rest) == normalize_newlines(rest.drop_first()));
                } else {
                    out.push(Character::Ch(CHAR_LF));
                    assert(normalize_newlines(rest) == seq![Character::Ch(CHAR_LF)]
                        + normalize_newlines(rest.drop_first()));
                    assert(out@ + normalize_newlines(rest.drop_first()) =~= before
                        + normalize_newlines(rest));
                }
            } else {
                out.push(c);
                assert(normalize_newlines(rest) == seq![c] + normalize_newlines(rest.drop_first()));
                assert(out@ + normalize_newlines(rest.drop_first()) =~= before + normalize_newlines(
                    rest,
                ));
            }
            i = i + 1;
        }
        assert(input@.subrange(i as int, end as int) =~= Seq::<Character>::empty());
        assert(out@ + Seq::<Character>::empty() =~= out@);
        assert(end < input@.len() ==> input@[end as int] == Character::StreamEnd);
        InputStream { chars: out }
    }
}

} // verus!

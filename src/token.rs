use vstd::prelude::*;
use crate::location::Location;

verus! {

/// A token handed to the parser.
#[derive(Clone, Debug, PartialEq)]
pub enum Token {
    DocType {
        name: Option<String>,
        force_quirks: bool,
        pub_identifier: Option<String>,
        sys_identifier: Option<String>,
        location: Location,
    },
    StartTag {
        name: String,
        is_self_closing: bool,
        attributes: Vec<(String, String)>,
        location: Location,
    },
    EndTag { name: String, is_self_closing: bool, location: Location },
    Comment { comment: String, location: Location },
    Text { text: String, location: Location },
    Eof { location: Location },
}

/// `c` is an ASCII capital letter.
pub open spec fn is_ascii_upper(c: char) -> bool {
    'A' <= c && c <= 'Z'
}

/// `s` equals its ASCII lowercasing: it holds no ASCII capital letter.
pub open spec fn no_upper(s: Seq<char>) -> bool {
    forall|i: int| 0 <= i < s.len() ==> !is_ascii_upper(#[trigger] s[i])
}

/// Attribute names are pairwise distinct and hold no ASCII capital letter.
pub open spec fn attrs_ok(a: Seq<(String, String)>) -> bool {
    &&& forall|i: int, j: int| 0 <= i < j < a.len() ==> (#[trigger] a[i]).0@ != (#[trigger] a[j]).0@
    &&& forall|i: int| 0 <= i < a.len() ==> no_upper((#[trigger] a[i]).0@)
}

/// What holds of every token the state machine produces: text is non-empty, tag names
/// are lowercase, and a start tag's attribute names are distinct and lowercase.
pub open spec fn token_ok(t: Token) -> bool {
    match t {
        Token::Text { text, .. } => text@.len() > 0,
        Token::StartTag { name, attributes, .. } => no_upper(name@) && attrs_ok(attributes@),
        Token::EndTag { name, .. } => no_upper(name@),
        _ => true,
    }
}

/// `t` is a text token.
pub open spec fn is_text(t: Token) -> bool {
    t is Text
}

/// `t` is an end-of-input token.
pub open spec fn is_eof(t: Token) -> bool {
    t is Eof
}

/// The location a token carries.
pub open spec fn token_location(t: Token) -> Location {
    match t {
        Token::DocType { location, .. } => location,
        Token::StartTag { location, .. } => location,
        Token::EndTag { location, .. } => location,
        Token::Comment { location, .. } => location,
        Token::Text { location, .. } => location,
        Token::Eof { location } => location,
    }
}

} // verus!

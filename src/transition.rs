//! The control part of the state machine: for each state and next character, the
//! state reached and how far the cursor moves.
use vstd::prelude::*;
use crate::cursor::Cursor;
use crate::state::State;
use crate::cursor::ascii_lower_of;
use crate::stream::{Character, CHAR_NUL, CHAR_REPLACEMENT};
use crate::token::Token;
use crate::location::Location;
use crate::tokenizer::{
    char_of, doctype_parts, identifier_with, is_alpha, is_ws, name_with, PendingToken, Tokenizer,
};

verus! {

/// `c` is the character `x`.
pub open spec fn is_char(c: Character, x: char) -> bool {
    c == Character::Ch(x)
}

/// `c` is an ASCII letter.
pub open spec fn is_letter(c: Character) -> bool {
    c is Ch && is_alpha(char_of(c))
}

/// Whitespace, `/` or `>`: what ends a possible `script` in the double-escape states.
pub open spec fn ends_script_word(c: Character) -> bool {
    is_ws(c) || is_char(c, '/') || is_char(c, '>')
}

/// The cursor moves over one character unless the input has ended.
pub open spec fn one(c: Character) -> int {
    if c == Character::StreamEnd {
        0
    } else {
        1
    }
}

/// The state a step leaves the tokenizer in and how far it moves the cursor (-1 where a
/// character reference decides how far).
pub open spec fn transition(t: Tokenizer, in_html: bool) -> (State, int) {
    let c = t.cursor.peek();
    let eof = c == Character::StreamEnd;
    let adv = one(c);
    match t.state {
        State::Data => (if is_char(c, '&') {
            State::CharacterReferenceInData
        } else if is_char(c, '<') {
            State::TagOpen
        } else {
            State::Data
        }, adv),
        State::CharacterReferenceInData => (State::Data, -1),
        State::RCDATA => (if is_char(c, '&') {
            State::CharacterReferenceInRcData
        } else if is_char(c, '<') {
            State::RCDATALessThanSign
        } else {
            State::RCDATA
        }, adv),
        State::CharacterReferenceInRcData => (State::RCDATA, -1),
        State::RAWTEXT => (if is_char(c, '<') {
            State::RAWTEXTLessThanSign
        } else {
            State::RAWTEXT
        }, adv),
        State::ScriptData => (if is_char(c, '<') {
            State::ScriptDataLessThanSign
        } else {
            State::ScriptData
        }, adv),
        State::PLAINTEXT => (State::PLAINTEXT, adv),
        State::TagOpen => if is_char(c, '!') {
            (State::MarkupDeclarationOpen, 1)
        } else if is_char(c, '/') {
            (State::EndTagOpen, 1)
        } else if is_letter(c) {
            (State::TagName, 0)
        } else if is_char(c, '?') {
            (State::BogusComment, 0)
        } else {
            (State::Data, 0)
        },
        State::EndTagOpen => if is_letter(c) {
            (State::TagName, 0)
        } else if is_char(c, '>') {
            (State::Data, 1)
        } else if eof {
            (State::Data, 0)
        } else {
            (State::BogusComment, 0)
        },
        State::TagName => if is_ws(c) {
            (State::BeforeAttributeName, 1)
        } else if is_char(c, '/') {
            (State::SelfClosingStart, 1)
        } else if is_char(c, '>') || eof {
            (State::Data, adv)
        } else {
            (State::TagName, 1)
        },
        State::RCDATALessThanSign => if is_char(c, '/') {
            (State::RCDATAEndTagOpen, 1)
        } else {
            (State::RCDATA, 0)
        },
        State::RCDATAEndTagOpen => if is_letter(c) {
            (State::RCDATAEndTagName, 0)
        } else {
            (State::RCDATA, 0)
        },
        State::RAWTEXTLessThanSign => if is_char(c, '/') {
            (State::RAWTEXTEndTagOpen, 1)
        } else {
            (State::RAWTEXT, 0)
        },
        State::RAWTEXTEndTagOpen => if is_letter(c) {
            (State::RAWTEXTEndTagName, 0)
        } else {
            (State::RAWTEXT, 0)
        },
        State::RCDATAEndTagName => end_tag_name_transition(t, State::RCDATA),
        State::RAWTEXTEndTagName => end_tag_name_transition(t, State::RAWTEXT),
        State::ScriptDataEndTagName => end_tag_name_transition(t, State::ScriptData),
        State::ScriptDataEscapedEndTagName => end_tag_name_transition(t, State::ScriptDataEscaped),
        State::ScriptDataLessThanSign => if is_char(c, '/') {
            (State::ScriptDataEndTagOpen, 1)
        } else if is_char(c, '!') {
            (State::ScriptDataEscapeStart, 1)
        } else {
            (State::ScriptData, 0)
        },
        State::ScriptDataEndTagOpen => if is_letter(c) {
            (State::ScriptDataEndTagName, 1)
        } else {
            (State::ScriptData, 0)
        },
        State::ScriptDataEscapeStart => if is_char(c, '-') {
            (State::ScriptDataEscapeStartDash, 1)
        } else {
            (State::ScriptData, 0)
        },
        State::ScriptDataEscapeStartDash => if is_char(c, '-') {
            (State::ScriptDataEscapedDashDash, 1)
        } else {
            (State::ScriptData, 0)
        },
        State::ScriptDataEscaped => (if is_char(c, '-') {
            State::ScriptDataEscapedDash
        } else if is_char(c, '<') {
            State::ScriptDataEscapedLessThanSign
        } else if eof {
            State::Data
        } else {
            State::ScriptDataEscaped
        }, adv),
        State::ScriptDataEscapedDash => (if is_char(c, '-') {
            State::ScriptDataEscapedDashDash
        } else if is_char(c, '<') {
            State::ScriptDataEscapedLessThanSign
        } else if eof {
            State::Data
        } else {
            State::ScriptDataEscaped
        }, adv),
        State::ScriptDataEscapedDashDash => (if is_char(c, '-') {
            State::ScriptDataEscapedDashDash
        } else if is_char(c, '<') {
            State::ScriptDataEscapedLessThanSign
        } else if is_char(c, '>') {
            State::ScriptData
        } else if eof {
            State::Data
        } else {
            State::ScriptDataEscaped
        }, adv),
        State::ScriptDataEscapedLessThanSign => if is_char(c, '/') {
            (State::ScriptDataEscapedEndTagOpen, 1)
        } else if is_letter(c) {
            (State::ScriptDataDoubleEscapeStart, 0)
        } else {
            (State::ScriptDataEscaped, 0)
        },
        State::ScriptDataEscapedEndTagOpen => if is_letter(c) {
            (State::ScriptDataEscapedEndTagName, 0)
        } else {
            (State::ScriptDataEscaped, 0)
        },
        State::ScriptDataDoubleEscapeStart => if ends_script_word(c) {
            (if t.temporary_buffer@ == seq!['s', 'c', 'r', 'i', 'p', 't'] {
                State::ScriptDataDoubleEscaped
            } else {
                State::ScriptDataEscaped
            }, 1)
        } else if is_letter(c) {
            (State::ScriptDataDoubleEscapeStart, 1)
        } else {
            (State::ScriptDataEscaped, 0)
        },
        State::ScriptDataDoubleEscaped => (if is_char(c, '-') {
            State::ScriptDataDoubleEscapedDash
        } else if is_char(c, '<') {
            State::ScriptDataDoubleEscapedLessThanSign
        } else if eof {
            State::Data
        } else {
            State::ScriptDataDoubleEscaped
        }, adv),
        State::ScriptDataDoubleEscapedDash => (if is_char(c, '-') {
            State::ScriptDataDoubleEscapedDashDash
        } else if is_char(c, '<') {
            State::ScriptDataDoubleEscapedLessThanSign
        } else if eof {
            State::Data
        } else {
            State::ScriptDataDoubleEscaped
        }, adv),
        State::ScriptDataDoubleEscapedDashDash => (if is_char(c, '-') {
            State::ScriptDataDoubleEscapedDashDash
        } else if is_char(c, '<') {
            State::ScriptDataDoubleEscapedLessThanSign
        } else if is_char(c, '>') {
            State::ScriptData
        } else if eof {
            State::Data
        } else {
            State::ScriptDataDoubleEscaped
        }, adv),
        State::ScriptDataDoubleEscapedLessThanSign => if is_char(c, '/') {
            (State::ScriptDataDoubleEscapeEnd, 1)
        } else {
            (State::ScriptDataDoubleEscaped, 0)
        },
        State::ScriptDataDoubleEscapeEnd => if ends_script_word(c) {
            (if t.temporary_buffer@ == seq!['s', 'c', 'r', 'i', 'p', 't'] {
                State::ScriptDataEscaped
            } else {
                State::ScriptDataDoubleEscaped
            }, 1)
        } else if is_letter(c) {
            (State::ScriptDataDoubleEscapeEnd, 1)
        } else {
            (State::ScriptDataDoubleEscaped, 0)
        },
        State::BeforeAttributeName => if is_ws(c) {
            (State::BeforeAttributeName, 1)
        } else if is_char(c, '/') || is_char(c, '>') || eof {
            (State::AfterAttributeName, 0)
        } else if is_char(c, '=') {
            (State::AttributeName, 1)
        } else {
            (State::AttributeName, 0)
        },
        State::AttributeName => if is_ws(c) || is_char(c, '/') || is_char(c, '>') || eof {
            (State::AfterAttributeName, 0)
        } else if is_char(c, '=') {
            (State::BeforeAttributeValue, 1)
        } else {
            (State::AttributeName, 1)
        },
        State::AfterAttributeName => if is_ws(c) {
            (State::AfterAttributeName, 1)
        } else if is_char(c, '/') {
            (State::SelfClosingStart, 1)
        } else if is_char(c, '=') {
            (State::BeforeAttributeValue, 1)
        } else if is_char(c, '>') || eof {
            (State::Data, adv)
        } else {
            (State::AttributeName, 0)
        },
        State::BeforeAttributeValue => if is_ws(c) {
            (State::BeforeAttributeValue, 1)
        } else if is_char(c, '"') {
            (State::AttributeValueDoubleQuoted, 1)
        } else if is_char(c, '\'') {
            (State::AttributeValueSingleQuoted, 1)
        } else if is_char(c, '>') || eof {
            (State::Data, adv)
        } else {
            (State::AttributeValueUnquoted, 0)
        },
        State::AttributeValueDoubleQuoted => if is_char(c, '"') {
            (State::AfterAttributeValueQuoted, 1)
        } else if is_char(c, '&') {
            (State::AttributeValueDoubleQuoted, -1)
        } else if eof {
            (State::Data, 0)
        } else {
            (State::AttributeValueDoubleQuoted, 1)
        },
        State::AttributeValueSingleQuoted => if is_char(c, '\'') {
            (State::AfterAttributeValueQuoted, 1)
        } else if is_char(c, '&') {
            (State::AttributeValueSingleQuoted, -1)
        } else if eof {
            (State::Data, 0)
        } else {
            (State::AttributeValueSingleQuoted, 1)
        },
        State::AttributeValueUnquoted => if is_ws(c) {
            (State::BeforeAttributeName, 1)
        } else if is_char(c, '&') {
            (State::AttributeValueUnquoted, -1)
        } else if is_char(c, '>') || eof {
            (State::Data, adv)
        } else {
            (State::AttributeValueUnquoted, 1)
        },
        State::AfterAttributeValueQuoted => if is_ws(c) {
            (State::BeforeAttributeName, 1)
        } else if is_char(c, '/') {
            (State::SelfClosingStart, 1)
        } else if is_char(c, '>') || eof {
            (State::Data, adv)
        } else {
            (State::BeforeAttributeName, 0)
        },
        State::SelfClosingStart => if is_char(c, '>') || eof {
            (State::Data, adv)
        } else {
            (State::BeforeAttributeName, 0)
        },
        State::BogusComment => (if is_char(c, '>') || eof {
            State::Data
        } else {
            State::BogusComment
        }, adv),
        State::MarkupDeclarationOpen => markup_declaration_transition(t.cursor, in_html),
        State::CommentStart => if is_char(c, '-') {
            (State::CommentStartDash, 1)
        } else if is_char(c, '>') {
            (State::Data, 1)
        } else {
            (State::Comment, 0)
        },
        State::CommentStartDash => if is_char(c, '-') {
            (State::CommentEnd, 1)
        } else if is_char(c, '>') || eof {
            (State::Data, adv)
        } else {
            (State::Comment, 0)
        },
        State::Comment => if is_char(c, '<') {
            (State::CommentLessThanSign, 1)
        } else if is_char(c, '-') {
            (State::CommentEndDash, 1)
        } else if eof {
            (State::Data, 0)
        } else {
            (State::Comment, 1)
        },
        State::CommentLessThanSign => if is_char(c, '!') {
            (State::CommentLessThanSignBang, 1)
        } else if is_char(c, '<') {
            (State::CommentLessThanSign, 1)
        } else {
            (State::Comment, 0)
        },
        State::CommentLessThanSignBang => if is_char(c, '-') {
            (State::CommentLessThanSignBangDash, 1)
        } else {
            (State::Comment, 0)
        },
        State::CommentLessThanSignBangDash => if is_char(c, '-') {
            (State::CommentLessThanSignBangDashDash, 1)
        } else {
            (State::CommentEndDash, 0)
        },
        State::CommentLessThanSignBangDashDash => (State::CommentEnd, 0),
        State::CommentEndDash => if is_char(c, '-') {
            (State::CommentEnd, 1)
        } else if eof {
            (State::Data, 0)
        } else {
            (State::Comment, 0)
        },
        State::CommentEnd => if is_char(c, '>') || eof {
            (State::Data, adv)
        } else if is_char(c, '!') {
            (State::CommentEndBang, 1)
        } else if is_char(c, '-') {
            (State::CommentEnd, 1)
        } else {
            (State::Comment, 0)
        },
        State::CommentEndBang => if is_char(c, '-') {
            (State::CommentEndDash, 1)
        } else if is_char(c, '>') || eof {
            (State::Data, adv)
        } else {
            (State::Comment, 0)
        },
        State::DOCTYPE => if is_ws(c) {
            (State::BeforeDOCTYPEName, 1)
        } else if eof {
            (State::Data, 0)
        } else {
            (State::BeforeDOCTYPEName, 0)
        },
        State::BeforeDOCTYPEName => if is_ws(c) {
            (State::BeforeDOCTYPEName, 1)
        } else if is_char(c, '>') || eof {
            (State::Data, adv)
        } else {
            (State::DOCTYPEName, 1)
        },
        State::DOCTYPEName => if is_ws(c) {
            (State::AfterDOCTYPEName, 1)
        } else if is_char(c, '>') || eof {
            (State::Data, adv)
        } else {
            (State::DOCTYPEName, 1)
        },
        State::AfterDOCTYPEName => if is_ws(c) {
            (State::AfterDOCTYPEName, 1)
        } else if is_char(c, '>') || eof {
            (State::Data, adv)
        } else if t.cursor.ahead_is(seq!['P', 'U', 'B', 'L', 'I', 'C'], true) {
            (State::AfterDOCTYPEPublicKeyword, 6)
        } else if t.cursor.ahead_is(seq!['S', 'Y', 'S', 'T', 'E', 'M'], true) {
            (State::AfterDOCTYPESystemKeyword, 6)
        } else {
            (State::BogusDOCTYPE, 0)
        },
        State::AfterDOCTYPEPublicKeyword => identifier_keyword_transition(c, true),
        State::BeforeDOCTYPEPublicIdentifier => identifier_keyword_transition(c, true),
        State::AfterDOCTYPESystemKeyword => identifier_keyword_transition(c, false),
        State::BeforeDOCTYPESystemIdentifier => identifier_keyword_transition(c, false),
        State::DOCTYPEPublicIdentifierDoubleQuoted => quoted_identifier_transition(
            c,
            '"',
            t.state,
            State::AfterDOCTYPEPublicIdentifier,
        ),
        State::DOCTYPEPublicIdentifierSingleQuoted => quoted_identifier_transition(
            c,
            '\'',
            t.state,
            State::AfterDOCTYPEPublicIdentifier,
        ),
        State::DOCTYPESystemIdentifierDoubleQuoted => quoted_identifier_transition(
            c,
            '"',
            t.state,
            State::AfterDOCTYPESystemIdentifier,
        ),
        State::DOCTYPESystemIdentifierSingleQuoted => quoted_identifier_transition(
            c,
            '\'',
            t.state,
            State::AfterDOCTYPESystemIdentifier,
        ),
        State::AfterDOCTYPEPublicIdentifier | State::BetweenDOCTYPEPublicAndSystemIdentifiers =>
            if is_ws(c) {
            (State::BetweenDOCTYPEPublicAndSystemIdentifiers, 1)
        } else if is_char(c, '>') || eof {
            (State::Data, adv)
        } else if is_char(c, '"') {
            (State::DOCTYPESystemIdentifierDoubleQuoted, 1)
        } else if is_char(c, '\'') {
            (State::DOCTYPESystemIdentifierSingleQuoted, 1)
        } else {
            (State::BogusDOCTYPE, 0)
        },
        State::AfterDOCTYPESystemIdentifier => if is_ws(c) {
            (State::AfterDOCTYPESystemIdentifier, 1)
        } else if is_char(c, '>') || eof {
            (State::Data, adv)
        } else {
            (State::BogusDOCTYPE, 0)
        },
        State::BogusDOCTYPE => (if is_char(c, '>') || eof {
            State::Data
        } else {
            State::BogusDOCTYPE
        }, adv),
        State::CDATASection => (if is_char(c, ']') {
            State::CDATASectionBracket
        } else if eof {
            State::Data
        } else {
            State::CDATASection
        }, adv),
        State::CDATASectionBracket => if is_char(c, ']') {
            (State::CDATASectionEnd, 1)
        } else {
            (State::CDATASection, 0)
        },
        State::CDATASectionEnd => (if is_char(c, '>') {
            State::Data
        } else if is_char(c, ']') {
            State::CDATASectionEnd
        } else {
            State::CDATASection
        }, adv),
    }
}

/// The end-tag-name states: the name closes the raw text only if it is the appropriate
/// end tag; otherwise `base` gets `</` and the buffer back.
pub open spec fn end_tag_name_transition(t: Tokenizer, base: State) -> (State, int) {
    let c = t.cursor.peek();
    if is_ws(c) && t.appropriate_end() {
        (State::BeforeAttributeName, 1)
    } else if is_char(c, '/') && t.appropriate_end() {
        (State::SelfClosingStart, 1)
    } else if is_char(c, '>') && t.appropriate_end() {
        (State::Data, 1)
    } else if is_letter(c) {
        (t.state, 1)
    } else {
        (base, 0)
    }
}

/// `<!` followed by `--`, `DOCTYPE` (any case) or `[CDATA[`; CDATA is a bogus comment
/// in HTML content.
pub open spec fn markup_declaration_transition(cur: Cursor, in_html: bool) -> (State, int) {
    if cur.ahead_is(seq!['-', '-'], false) {
        (State::CommentStart, 2)
    } else if cur.ahead_is(seq!['D', 'O', 'C', 'T', 'Y', 'P', 'E'], true) {
        (State::DOCTYPE, 7)
    } else if cur.ahead_is(seq!['[', 'C', 'D', 'A', 'T', 'A', '['], false) {
        (if in_html {
            State::BogusComment
        } else {
            State::CDATASection
        }, 7)
    } else {
        (State::BogusComment, 0)
    }
}

/// After `PUBLIC`/`SYSTEM` and before the identifier: a quote opens it.
pub open spec fn identifier_keyword_transition(c: Character, public: bool) -> (State, int) {
    if is_ws(c) {
        (if public {
            State::BeforeDOCTYPEPublicIdentifier
        } else {
            State::BeforeDOCTYPESystemIdentifier
        }, 1)
    } else if is_char(c, '"') {
        (if public {
            State::DOCTYPEPublicIdentifierDoubleQuoted
        } else {
            State::DOCTYPESystemIdentifierDoubleQuoted
        }, 1)
    } else if is_char(c, '\'') {
        (if public {
            State::DOCTYPEPublicIdentifierSingleQuoted
        } else {
            State::DOCTYPESystemIdentifierSingleQuoted
        }, 1)
    } else if is_char(c, '>') || c == Character::StreamEnd {
        (State::Data, one(c))
    } else {
        (State::BogusDOCTYPE, 0)
    }
}

/// Inside a quoted identifier: the closing quote ends it, `>` ends the doctype.
pub open spec fn quoted_identifier_transition(c: Character, quote: char, s: State, after: State) -> (
    State,
    int,
) {
    if is_char(c, quote) {
        (after, 1)
    } else if is_char(c, '>') || c == Character::StreamEnd {
        (State::Data, one(c))
    } else {
        (s, 1)
    }
}

/// The step emits a token it builds on the spot: `Eof` at the end of text, a doctype
/// when `<!DOCTYPE` has no name.
pub open spec fn emits_directly(t: Tokenizer) -> bool {
    let c = t.cursor.peek();
    let eof = c == Character::StreamEnd;
    match t.state {
        State::Data | State::RCDATA | State::RAWTEXT | State::ScriptData | State::PLAINTEXT => eof,
        State::DOCTYPE => eof,
        State::BeforeDOCTYPEName => is_char(c, '>') || eof,
        _ => false,
    }
}

/// The step emits the token under construction, if there is one.
pub open spec fn emits_current(t: Tokenizer) -> bool {
    let c = t.cursor.peek();
    let eof = c == Character::StreamEnd;
    match t.state {
        State::TagName | State::AfterAttributeName | State::BeforeAttributeValue
        | State::AttributeValueUnquoted | State::AfterAttributeValueQuoted | State::SelfClosingStart
        | State::CommentStart => is_char(c, '>'),
        State::RCDATAEndTagName | State::RAWTEXTEndTagName | State::ScriptDataEndTagName
        | State::ScriptDataEscapedEndTagName => is_char(c, '>') && t.appropriate_end(),
        State::Comment | State::CommentEndDash => eof,
        State::BogusComment | State::CommentStartDash | State::CommentEnd | State::CommentEndBang
        | State::DOCTYPEName | State::AfterDOCTYPEName | State::AfterDOCTYPEPublicKeyword
        | State::BeforeDOCTYPEPublicIdentifier | State::DOCTYPEPublicIdentifierDoubleQuoted
        | State::DOCTYPEPublicIdentifierSingleQuoted | State::AfterDOCTYPEPublicIdentifier
        | State::BetweenDOCTYPEPublicAndSystemIdentifiers | State::AfterDOCTYPESystemKeyword
        | State::BeforeDOCTYPESystemIdentifier | State::DOCTYPESystemIdentifierDoubleQuoted
        | State::DOCTYPESystemIdentifierSingleQuoted | State::AfterDOCTYPESystemIdentifier
        | State::BogusDOCTYPE => is_char(c, '>') || eof,
        _ => false,
    }
}

/// The step queues tokens exactly when it emits.
pub open spec fn emits(t: Tokenizer) -> bool {
    emits_directly(t) || (emits_current(t) && t.current_token is Some)
}

/// `tok` is of the kind of the token under construction `p`.
pub open spec fn same_kind(tok: Token, p: Option<PendingToken>) -> bool {
    match p {
        Some(PendingToken::DocType { .. }) => tok is DocType,
        Some(PendingToken::StartTag { .. }) => tok is StartTag,
        Some(PendingToken::EndTag { .. }) => tok is EndTag,
        Some(PendingToken::Comment { .. }) => tok is Comment,
        None => false,
    }
}

/// The token a step emits: `Eof` in text, a doctype from the doctype states, else the
/// token under construction.
pub open spec fn emitted_as_expected(t: Tokenizer, tok: Token) -> bool {
    if emits_directly(t) {
        if t.state == State::DOCTYPE || t.state == State::BeforeDOCTYPEName {
            tok is DocType
        } else {
            tok is Eof
        }
    } else {
        same_kind(tok, t.current_token)
    }
}

/// The character a text-like state keeps for `c`: NUL stands as U+FFFD.
pub open spec fn scrubbed(c: Character) -> char {
    if c == Character::Ch(CHAR_NUL) {
        CHAR_REPLACEMENT
    } else {
        char_of(c)
    }
}

/// A failed end tag in raw text: the states it returns to.
pub open spec fn end_tag_base(s: State) -> State {
    match s {
        State::RCDATAEndTagName => State::RCDATA,
        State::RAWTEXTEndTagName => State::RAWTEXT,
        State::ScriptDataEndTagName => State::ScriptData,
        _ => State::ScriptDataEscaped,
    }
}

/// What a step appends to the pending text, unless it emits (which flushes the text)
/// or resolves a character reference.
pub open spec fn text_added(t: Tokenizer) -> Seq<char> {
    let c = t.cursor.peek();
    let eof = c == Character::StreamEnd;
    let none = Seq::<char>::empty();
    match t.state {
        State::Data => if is_char(c, '&') || is_char(c, '<') || eof {
            none
        } else {
            seq![char_of(c)]
        },
        State::RCDATA => if is_char(c, '&') || is_char(c, '<') || eof {
            none
        } else {
            seq![scrubbed(c)]
        },
        State::RAWTEXT | State::ScriptData => if is_char(c, '<') || eof {
            none
        } else {
            seq![scrubbed(c)]
        },
        State::PLAINTEXT => if eof {
            none
        } else {
            seq![scrubbed(c)]
        },
        State::TagOpen => if is_char(c, '!') || is_char(c, '/') || is_letter(c) || is_char(c, '?') {
            none
        } else {
            seq!['<']
        },
        State::EndTagOpen => if eof {
            seq!['<', '/']
        } else {
            none
        },
        State::RCDATALessThanSign | State::RAWTEXTLessThanSign => if is_char(c, '/') {
            none
        } else {
            seq!['<']
        },
        State::RCDATAEndTagOpen | State::RAWTEXTEndTagOpen | State::ScriptDataEndTagOpen
        | State::ScriptDataEscapedEndTagOpen => if is_letter(c) {
            none
        } else {
            seq!['<', '/']
        },
        State::RCDATAEndTagName | State::RAWTEXTEndTagName | State::ScriptDataEndTagName
        | State::ScriptDataEscapedEndTagName => if transition(t, true).0 == end_tag_base(t.state) {
            seq!['<', '/'] + t.temporary_buffer@
        } else {
            none
        },
        State::ScriptDataLessThanSign => if is_char(c, '/') {
            none
        } else if is_char(c, '!') {
            seq!['<', '!']
        } else {
            seq!['<']
        },
        State::ScriptDataEscapeStart | State::ScriptDataEscapeStartDash => if is_char(c, '-') {
            seq!['-']
        } else {
            none
        },
        State::ScriptDataEscaped | State::ScriptDataEscapedDash | State::ScriptDataEscapedDashDash =>
            if is_char(c, '<') || eof {
            none
        } else {
            seq![scrubbed(c)]
        },
        State::ScriptDataEscapedLessThanSign => if is_char(c, '/') {
            none
        } else {
            seq!['<']
        },
        State::ScriptDataDoubleEscapeStart | State::ScriptDataDoubleEscapeEnd => if ends_script_word(
            c,
        ) || is_letter(c) {
            seq![char_of(c)]
        } else {
            none
        },
        State::ScriptDataDoubleEscaped | State::ScriptDataDoubleEscapedDash
        | State::ScriptDataDoubleEscapedDashDash => if eof {
            none
        } else {
            seq![scrubbed(c)]
        },
        State::ScriptDataDoubleEscapedLessThanSign => if is_char(c, '/') {
            seq!['/']
        } else {
            none
        },
        State::CDATASection => if is_char(c, ']') || eof {
            none
        } else {
            seq![char_of(c)]
        },
        State::CDATASectionBracket => if is_char(c, ']') {
            none
        } else {
            seq![']']
        },
        State::CDATASectionEnd => if is_char(c, '>') {
            none
        } else if is_char(c, ']') {
            seq![']']
        } else if eof {
            seq![']', ']']
        } else {
            seq![']', ']', char_of(c)]
        },
        _ => none,
    }
}

/// The temporary buffer after a step.
pub open spec fn buffer_after(t: Tokenizer) -> Seq<char> {
    let c = t.cursor.peek();
    let buf = t.temporary_buffer@;
    match t.state {
        State::RCDATALessThanSign | State::RAWTEXTLessThanSign | State::ScriptDataLessThanSign
        | State::ScriptDataDoubleEscapedLessThanSign => if is_char(c, '/') {
            Seq::empty()
        } else {
            buf
        },
        State::ScriptDataEscapedLessThanSign => if is_char(c, '/') || is_letter(c) {
            Seq::empty()
        } else {
            buf
        },
        State::ScriptDataEndTagOpen => if is_letter(c) {
            buf.push(char_of(c))
        } else {
            buf
        },
        State::RCDATAEndTagName | State::RAWTEXTEndTagName | State::ScriptDataEndTagName
        | State::ScriptDataEscapedEndTagName => if transition(t, true).0 == end_tag_base(t.state) {
            Seq::empty()
        } else if is_letter(c) {
            buf.push(char_of(c))
        } else {
            buf
        },
        State::ScriptDataDoubleEscapeStart | State::ScriptDataDoubleEscapeEnd => if is_letter(c)
            && !ends_script_word(c) {
            buf.push(ascii_lower_of(char_of(c)))
        } else {
            buf
        },
        _ => buf,
    }
}

/// The states whose `>` stores the attribute being read before the tag is emitted.
pub open spec fn stores_attributes_on_emit(s: State) -> bool {
    s == State::AfterAttributeName || s == State::BeforeAttributeValue || s
        == State::AttributeValueUnquoted || s == State::AfterAttributeValueQuoted || s
        == State::SelfClosingStart
}

/// The comment states.
pub open spec fn is_comment_state(s: State) -> bool {
    s == State::BogusComment || s == State::CommentStart || s == State::CommentStartDash || s
        == State::Comment || s == State::CommentLessThanSign || s == State::CommentLessThanSignBang
        || s == State::CommentLessThanSignBangDash || s == State::CommentLessThanSignBangDashDash
        || s == State::CommentEndDash || s == State::CommentEnd || s == State::CommentEndBang
}

/// What a comment state adds to the comment data when it does not emit.
pub open spec fn comment_added(t: Tokenizer) -> Seq<char> {
    let c = t.cursor.peek();
    let none = Seq::<char>::empty();
    match t.state {
        State::BogusComment => seq![scrubbed(c)],
        State::CommentStartDash => if is_char(c, '-') {
            none
        } else {
            seq!['-']
        },
        State::Comment => if is_char(c, '-') {
            none
        } else {
            seq![scrubbed(c)]
        },
        State::CommentLessThanSign => if is_char(c, '!') || is_char(c, '<') {
            seq![char_of(c)]
        } else {
            none
        },
        State::CommentEndDash => if is_char(c, '-') {
            none
        } else {
            seq!['-']
        },
        State::CommentEnd => if is_char(c, '!') {
            none
        } else if is_char(c, '-') {
            seq!['-']
        } else {
            seq!['-', '-']
        },
        State::CommentEndBang => seq!['-', '-', '!'],
        _ => none,
    }
}

/// The doctype states that follow the name's first character.
pub open spec fn is_doctype_state(s: State) -> bool {
    s == State::DOCTYPEName || s == State::AfterDOCTYPEName || s == State::AfterDOCTYPEPublicKeyword
        || s == State::BeforeDOCTYPEPublicIdentifier || s == State::DOCTYPEPublicIdentifierDoubleQuoted
        || s == State::DOCTYPEPublicIdentifierSingleQuoted || s == State::AfterDOCTYPEPublicIdentifier
        || s == State::BetweenDOCTYPEPublicAndSystemIdentifiers || s == State::AfterDOCTYPESystemKeyword
        || s == State::BeforeDOCTYPESystemIdentifier || s == State::DOCTYPESystemIdentifierDoubleQuoted
        || s == State::DOCTYPESystemIdentifierSingleQuoted || s == State::AfterDOCTYPESystemIdentifier
        || s == State::BogusDOCTYPE
}

/// The doctype under construction after a doctype step that does not emit.
pub open spec fn doctype_after(t: Tokenizer) -> (
    Option<Seq<char>>,
    bool,
    Option<Seq<char>>,
    Option<Seq<char>>,
    Location,
) {
    let c = t.cursor.peek();
    let p = doctype_parts(t.current_token);
    let quirky = (p.0, true, p.2, p.3, p.4);
    let quote = is_char(c, '"') || is_char(c, '\'');
    match t.state {
        State::DOCTYPEName => if is_ws(c) {
            p
        } else {
            (name_with(p.0, ascii_lower_of(scrubbed(c))), p.1, p.2, p.3, p.4)
        },
        State::AfterDOCTYPEName => if is_ws(c) || t.cursor.ahead_is(
            seq!['P', 'U', 'B', 'L', 'I', 'C'],
            true,
        ) || t.cursor.ahead_is(seq!['S', 'Y', 'S', 'T', 'E', 'M'], true) {
            p
        } else {
            quirky
        },
        State::AfterDOCTYPEPublicKeyword | State::BeforeDOCTYPEPublicIdentifier => if is_ws(c) {
            p
        } else if quote {
            (p.0, p.1, Some(Seq::empty()), p.3, p.4)
        } else {
            quirky
        },
        State::AfterDOCTYPESystemKeyword | State::BeforeDOCTYPESystemIdentifier
        | State::AfterDOCTYPEPublicIdentifier | State::BetweenDOCTYPEPublicAndSystemIdentifiers =>
            if is_ws(c) {
            p
        } else if quote {
            (p.0, p.1, p.2, Some(Seq::empty()), p.4)
        } else {
            quirky
        },
        State::DOCTYPEPublicIdentifierDoubleQuoted | State::DOCTYPEPublicIdentifierSingleQuoted =>
            if transition(t, true).0 == State::AfterDOCTYPEPublicIdentifier {
            p
        } else {
            (p.0, p.1, identifier_with(p.2, scrubbed(c)), p.3, p.4)
        },
        State::DOCTYPESystemIdentifierDoubleQuoted | State::DOCTYPESystemIdentifierSingleQuoted =>
            if transition(t, true).0 == State::AfterDOCTYPESystemIdentifier {
            p
        } else {
            (p.0, p.1, p.2, identifier_with(p.3, scrubbed(c)), p.4)
        },
        _ => p,
    }
}

/// The doctype is emitted forcing quirks: at the end of the input, or on a `>` that
/// cuts an identifier short.
pub open spec fn quirks_on_emit(t: Tokenizer) -> bool {
    let c = t.cursor.peek();
    let s = t.state;
    (c == Character::StreamEnd && is_doctype_state(s) && s != State::BogusDOCTYPE) || (is_char(c, '>') && (s
        == State::AfterDOCTYPEPublicKeyword || s == State::BeforeDOCTYPEPublicIdentifier || s
        == State::DOCTYPEPublicIdentifierDoubleQuoted || s == State::DOCTYPEPublicIdentifierSingleQuoted
        || s == State::AfterDOCTYPESystemKeyword || s == State::BeforeDOCTYPESystemIdentifier || s
        == State::DOCTYPESystemIdentifierDoubleQuoted || s == State::DOCTYPESystemIdentifierSingleQuoted))
}

/// The states that read character data only and never touch the token under
/// construction or the attribute being read.
pub open spec fn is_text_only_state(s: State) -> bool {
    s == State::Data || s == State::RCDATA || s == State::RAWTEXT || s == State::ScriptData || s
        == State::PLAINTEXT || s == State::CharacterReferenceInData || s
        == State::CharacterReferenceInRcData || s == State::RCDATALessThanSign || s
        == State::RAWTEXTLessThanSign || s == State::ScriptDataLessThanSign || s
        == State::ScriptDataEscapeStart || s == State::ScriptDataEscapeStartDash || s
        == State::ScriptDataEscaped || s == State::ScriptDataEscapedDash || s
        == State::ScriptDataEscapedDashDash || s == State::ScriptDataEscapedLessThanSign || s
        == State::ScriptDataDoubleEscapeStart || s == State::ScriptDataDoubleEscaped || s
        == State::ScriptDataDoubleEscapedDash || s == State::ScriptDataDoubleEscapedDashDash || s
        == State::ScriptDataDoubleEscapedLessThanSign || s == State::ScriptDataDoubleEscapeEnd || s
        == State::CDATASection || s == State::CDATASectionBracket || s == State::CDATASectionEnd
}

} // verus!

use vstd::prelude::*;
use crate::cursor::{ascii_lower_of, Cursor};
use crate::error_logger::{error_code, ErrorLogger, ParserError};
use crate::location::Location;
use crate::state::State;
use crate::char_ref::char_ref_appended;
use crate::transition::{is_text_only_state, stores_attributes_on_emit, comment_added, doctype_after, emits_current, is_char, is_comment_state, is_doctype_state, is_letter, quirks_on_emit, scrubbed, buffer_after, same_kind, emits, emitted_as_expected, text_added, transition};
use crate::stream::{
    fits_locations, is_location_table, Character, InputStream, CHAR_FF, CHAR_LF, CHAR_NUL,
    CHAR_REPLACEMENT, CHAR_SPACE, CHAR_TAB,
};
use crate::token::{is_ascii_upper, is_eof, is_text, no_upper, token_location, token_ok, Token};

verus! {

/// The namespace of HTML elements.
pub const HTML_NAMESPACE: &'static str = "http://www.w3.org/1999/xhtml";

/// A doctype, tag or comment while it is being built.
pub enum PendingToken {
    DocType {
        name: Option<Vec<char>>,
        force_quirks: bool,
        pub_identifier: Option<Vec<char>>,
        sys_identifier: Option<Vec<char>>,
        location: Location,
    },
    StartTag {
        name: Vec<char>,
        is_self_closing: bool,
        attributes: Vec<(Vec<char>, Vec<char>)>,
        location: Location,
    },
    EndTag { name: Vec<char>, is_self_closing: bool, location: Location },
    Comment { comment: Vec<char>, location: Location },
}

/// Attribute names being collected are distinct and hold no ASCII capital letter.
pub open spec fn pending_attrs_ok(a: Seq<(Vec<char>, Vec<char>)>) -> bool {
    &&& forall|i: int, j: int| 0 <= i < j < a.len() ==> (#[trigger] a[i]).0@ != (#[trigger] a[j]).0@
    &&& forall|i: int| 0 <= i < a.len() ==> no_upper((#[trigger] a[i]).0@)
}

/// Collected attributes as pairs of character sequences.
pub open spec fn attrs_view(a: Seq<(Vec<char>, Vec<char>)>) -> Seq<(Seq<char>, Seq<char>)> {
    a.map_values(|p: (Vec<char>, Vec<char>)| (p.0@, p.1@))
}

/// A start tag under construction holds no attributes yet: they join it when it is
/// emitted.
pub open spec fn bare_start(t: Option<PendingToken>) -> bool {
    match t {
        Some(PendingToken::StartTag { attributes, .. }) => attributes@.len() == 0,
        _ => true,
    }
}

/// A tag under construction has a lowercase name and well-formed attributes.
pub open spec fn pending_ok(t: Option<PendingToken>) -> bool {
    match t {
        Some(PendingToken::StartTag { name, attributes, .. }) => no_upper(name@) && pending_attrs_ok(
            attributes@,
        ),
        Some(PendingToken::EndTag { name, .. }) => no_upper(name@),
        _ => true,
    }
}

/// The states that read character data and emit `Eof` at the end of the input.
pub open spec fn is_text_state(s: State) -> bool {
    s == State::Data || s == State::RCDATA || s == State::RAWTEXT || s == State::ScriptData || s
        == State::PLAINTEXT
}

/// Whitespace as the tokenizer knows it: tab, line feed, form feed and space.
pub open spec fn is_ws(c: Character) -> bool {
    c == Character::Ch(CHAR_TAB) || c == Character::Ch(CHAR_LF) || c == Character::Ch(CHAR_FF) || c
        == Character::Ch(CHAR_SPACE)
}

/// The characters on which the after-attribute-name state never reconsumes.
pub open spec fn ends_attribute_name(c: Character) -> bool {
    is_ws(c) || c == Character::Ch('/') || c == Character::Ch('>') || c == Character::Ch('=') || c
        == Character::StreamEnd
}

/// How far a state is from reading input: every transition that reads nothing ends in a
/// state of lower rank for the same next character.
pub open spec fn rank(s: State, next: Character) -> nat {
    match s {
        State::Data | State::RCDATA | State::RAWTEXT | State::ScriptData | State::PLAINTEXT => 0,
        State::TagOpen | State::EndTagOpen | State::MarkupDeclarationOpen | State::RCDATAEndTagOpen
        | State::RAWTEXTEndTagOpen | State::ScriptDataDoubleEscapeStart
        | State::ScriptDataEscapedEndTagName | State::ScriptDataDoubleEscapedLessThanSign
        | State::ScriptDataDoubleEscapeEnd | State::CommentStart | State::CommentStartDash
        | State::CommentLessThanSign | State::CommentLessThanSignBang | State::CommentEndDash
        | State::CommentEnd | State::CommentEndBang | State::DOCTYPE | State::AfterDOCTYPEName
        | State::AfterDOCTYPEPublicKeyword | State::BeforeDOCTYPEPublicIdentifier
        | State::AfterDOCTYPEPublicIdentifier | State::BetweenDOCTYPEPublicAndSystemIdentifiers
        | State::AfterDOCTYPESystemKeyword | State::BeforeDOCTYPESystemIdentifier
        | State::AfterDOCTYPESystemIdentifier | State::CDATASectionBracket | State::CDATASectionEnd
        | State::AttributeName | State::BeforeAttributeValue => 2,
        State::ScriptDataEscapedLessThanSign | State::ScriptDataEscapedEndTagOpen
        | State::CommentLessThanSignBangDash | State::CommentLessThanSignBangDashDash => 3,
        State::AfterAttributeName => if ends_attribute_name(next) {
            1
        } else {
            3
        },
        State::BeforeAttributeName => 4,
        State::AfterAttributeValueQuoted | State::SelfClosingStart => 5,
        _ => 1,
    }
}

/// The states that report a NUL they read as `unexpected-null-character`.
pub open spec fn reports_null(s: State) -> bool {
    match s {
        State::Data | State::RCDATA | State::RAWTEXT | State::ScriptData | State::PLAINTEXT
        | State::TagName | State::ScriptDataEscaped | State::ScriptDataEscapedDash
        | State::ScriptDataEscapedDashDash | State::ScriptDataDoubleEscaped
        | State::ScriptDataDoubleEscapedDash | State::ScriptDataDoubleEscapedDashDash
        | State::AttributeName | State::AttributeValueDoubleQuoted
        | State::AttributeValueSingleQuoted | State::AttributeValueUnquoted | State::BogusComment
        | State::Comment | State::BeforeDOCTYPEName | State::DOCTYPEName
        | State::DOCTYPEPublicIdentifierDoubleQuoted | State::DOCTYPEPublicIdentifierSingleQuoted
        | State::DOCTYPESystemIdentifierDoubleQuoted | State::DOCTYPESystemIdentifierSingleQuoted
        | State::BogusDOCTYPE => true,
        _ => false,
    }
}

/// The error a state reports when the input ends in it, if any.
pub open spec fn eof_error(s: State) -> Option<ParserError> {
    match s {
        State::TagOpen | State::EndTagOpen => Some(ParserError::EofBeforeTagName),
        State::TagName | State::AfterAttributeName | State::BeforeAttributeValue
        | State::AttributeValueDoubleQuoted | State::AttributeValueSingleQuoted
        | State::AttributeValueUnquoted | State::AfterAttributeValueQuoted
        | State::SelfClosingStart => Some(ParserError::EofInTag),
        State::ScriptDataEscaped | State::ScriptDataEscapedDash | State::ScriptDataEscapedDashDash
        | State::ScriptDataDoubleEscaped | State::ScriptDataDoubleEscapedDash
        | State::ScriptDataDoubleEscapedDashDash => Some(ParserError::EofInScriptHtmlCommentLikeText),
        State::CommentStartDash | State::Comment | State::CommentEndDash | State::CommentEnd
        | State::CommentEndBang => Some(ParserError::EofInComment),
        State::DOCTYPE | State::BeforeDOCTYPEName | State::DOCTYPEName | State::AfterDOCTYPEName
        | State::AfterDOCTYPEPublicKeyword | State::BeforeDOCTYPEPublicIdentifier
        | State::DOCTYPEPublicIdentifierDoubleQuoted | State::DOCTYPEPublicIdentifierSingleQuoted
        | State::AfterDOCTYPEPublicIdentifier | State::BetweenDOCTYPEPublicAndSystemIdentifiers
        | State::AfterDOCTYPESystemKeyword | State::BeforeDOCTYPESystemIdentifier
        | State::DOCTYPESystemIdentifierDoubleQuoted | State::DOCTYPESystemIdentifierSingleQuoted
        | State::AfterDOCTYPESystemIdentifier => Some(ParserError::EofInDoctype),
        State::CDATASection => Some(ParserError::EofInCdata),
        _ => None,
    }
}

/// Characters a text state only appends to the character data.
pub open spec fn is_plain_text_char(s: State, c: char) -> bool {
    match s {
        State::Data | State::RCDATA => c != '&' && c != '<' && c != CHAR_NUL,
        State::RAWTEXT | State::ScriptData => c != '<' && c != CHAR_NUL,
        State::PLAINTEXT => c != CHAR_NUL,
        _ => false,
    }
}

/// The character in `c`, NUL for the end of the stream.
pub open spec fn char_of(c: Character) -> char {
    match c {
        Character::Ch(x) => x,
        _ => CHAR_NUL,
    }
}

/// Characters the tag-name state adds to the name.
pub open spec fn extends_name(c: char) -> bool {
    !is_ws(Character::Ch(c)) && c != '/' && c != '>' && c != CHAR_NUL
}

/// The name of a start or end tag token.
pub open spec fn token_name(t: Token) -> Seq<char> {
    match t {
        Token::StartTag { name, .. } => name@,
        Token::EndTag { name, .. } => name@,
        _ => Seq::empty(),
    }
}

/// The data of the comment under construction.
pub open spec fn pending_comment(t: Option<PendingToken>) -> Seq<char> {
    match t {
        Some(PendingToken::Comment { comment, .. }) => comment@,
        _ => Seq::empty(),
    }
}

/// The attributes of a start tag token, as character sequences.
pub open spec fn token_attrs(t: Token) -> Seq<(Seq<char>, Seq<char>)> {
    match t {
        Token::StartTag { attributes, .. } => attributes@.map_values(
            |p: (String, String)| (p.0@, p.1@),
        ),
        _ => Seq::empty(),
    }
}

/// The self-closing flag of a tag token.
pub open spec fn token_self_closing(t: Token) -> bool {
    match t {
        Token::StartTag { is_self_closing, .. } => is_self_closing,
        Token::EndTag { is_self_closing, .. } => is_self_closing,
        _ => false,
    }
}

/// The force-quirks flag of a doctype token.
pub open spec fn token_quirks(t: Token) -> bool {
    match t {
        Token::DocType { force_quirks, .. } => force_quirks,
        _ => false,
    }
}

/// The characters of an optional string.
pub open spec fn opt_string_view(o: Option<String>) -> Option<Seq<char>> {
    match o {
        Some(v) => Some(v@),
        None => None,
    }
}

/// `tok` carries what `p` was built with: the kind, the name of a tag, the data of a
/// comment, the name and identifiers of a doctype, and the location.
pub open spec fn token_matches_pending(tok: Token, p: PendingToken) -> bool {
    match (tok, p) {
        (Token::StartTag { name: n, location: l, .. }, PendingToken::StartTag { name, location, .. }) =>
            n@ == name@ && l == location,
        (Token::EndTag { name: n, location: l, .. }, PendingToken::EndTag { name, location, .. }) =>
            n@ == name@ && l == location,
        (Token::Comment { comment: d, location: l }, PendingToken::Comment { comment, location }) =>
            d@ == comment@ && l == location,
        (
            Token::DocType { name: n, pub_identifier: pi, sys_identifier: si, location: l, .. },
            PendingToken::DocType { name, pub_identifier, sys_identifier, location, .. },
        ) => opt_string_view(n) == opt_view(name) && opt_string_view(pi) == opt_view(pub_identifier)
            && opt_string_view(si) == opt_view(sys_identifier) && l == location,
        _ => false,
    }
}

/// The self-closing flag of a tag under construction.
pub open spec fn pending_self_closing(t: Option<PendingToken>) -> bool {
    match t {
        Some(PendingToken::StartTag { is_self_closing, .. }) => is_self_closing,
        Some(PendingToken::EndTag { is_self_closing, .. }) => is_self_closing,
        _ => false,
    }
}

/// The location of the token under construction.
pub open spec fn pending_location(t: Option<PendingToken>) -> Location {
    match t {
        Some(PendingToken::StartTag { location, .. }) => location,
        Some(PendingToken::EndTag { location, .. }) => location,
        Some(PendingToken::Comment { location, .. }) => location,
        Some(PendingToken::DocType { location, .. }) => location,
        None => Location { line: 0, column: 0, offset: 0 },
    }
}

/// `t` is a tag just opened: start or end, named `name`, not self-closing, without
/// attributes, at `loc`.
pub open spec fn fresh_tag(t: Option<PendingToken>, start: bool, name: Seq<char>, loc: Location) -> bool {
    &&& if start {
        t matches Some(PendingToken::StartTag { .. }) && bare_start(t)
    } else {
        t matches Some(PendingToken::EndTag { .. })
    }
    &&& pending_name(t) == name
    &&& !pending_self_closing(t)
    &&& pending_location(t) == loc
}

/// `t` is a comment just opened with `data` at `loc`.
pub open spec fn fresh_comment(t: Option<PendingToken>, data: Seq<char>, loc: Location) -> bool {
    t matches Some(PendingToken::Comment { .. }) && pending_comment(t) == data && pending_location(t)
        == loc
}

/// `t` is a text token holding `text` at `loc`.
pub open spec fn is_text_of(t: Token, text: Seq<char>, loc: Location) -> bool {
    match t {
        Token::Text { text: s, location } => s@ == text && location == loc,
        _ => false,
    }
}

/// The characters of an optional buffer.
pub open spec fn opt_view(o: Option<Vec<char>>) -> Option<Seq<char>> {
    match o {
        Some(v) => Some(v@),
        None => None,
    }
}

/// A doctype under construction as plain values: name, force-quirks flag, public and
/// system identifiers, location.
pub open spec fn doctype_parts(t: Option<PendingToken>) -> (
    Option<Seq<char>>,
    bool,
    Option<Seq<char>>,
    Option<Seq<char>>,
    Location,
) {
    match t {
        Some(PendingToken::DocType { name, force_quirks, pub_identifier, sys_identifier, location }) => (
            opt_view(name),
            force_quirks,
            opt_view(pub_identifier),
            opt_view(sys_identifier),
            location,
        ),
        _ => (None, false, None, None, Location { line: 0, column: 0, offset: 0 }),
    }
}

/// A doctype name with `c` added; a missing name becomes `c` alone.
pub open spec fn name_with(n: Option<Seq<char>>, c: char) -> Option<Seq<char>> {
    match n {
        Some(s) => Some(s.push(c)),
        None => Some(seq![c]),
    }
}

/// An identifier with `c` added, if there is one.
pub open spec fn identifier_with(n: Option<Seq<char>>, c: char) -> Option<Seq<char>> {
    match n {
        Some(s) => Some(s.push(c)),
        None => None,
    }
}

/// The start tag under construction marked self-closing.
pub open spec fn closed_start(t: Option<PendingToken>) -> Option<PendingToken> {
    match t {
        Some(PendingToken::StartTag { name, attributes, location, .. }) => Some(
            PendingToken::StartTag { name, is_self_closing: true, attributes, location },
        ),
        _ => t,
    }
}

/// The start tag under construction given the attributes `a`.
pub open spec fn with_attributes(
    t: Option<PendingToken>,
    a: Vec<(Vec<char>, Vec<char>)>,
) -> Option<PendingToken> {
    match t {
        Some(PendingToken::StartTag { name, is_self_closing, location, .. }) => Some(
            PendingToken::StartTag { name, is_self_closing, attributes: a, location },
        ),
        _ => t,
    }
}

/// The token under construction is an end tag.
pub open spec fn is_pending_end(t: Option<PendingToken>) -> bool {
    t matches Some(PendingToken::EndTag { .. })
}

/// The token under construction is a doctype.
pub open spec fn is_pending_doctype(t: Option<PendingToken>) -> bool {
    t matches Some(PendingToken::DocType { .. })
}

/// `t` is a doctype token that forces quirks mode.
pub open spec fn is_quirks_doctype(t: Token) -> bool {
    t matches Token::DocType { force_quirks: true, .. }
}

/// The token under construction is a comment.
pub open spec fn is_pending_comment(t: Option<PendingToken>) -> bool {
    t matches Some(PendingToken::Comment { .. })
}

/// The token under construction is a start tag.
pub open spec fn is_pending_start(t: Option<PendingToken>) -> bool {
    t matches Some(PendingToken::StartTag { .. })
}

/// The token under construction is a start or end tag.
pub open spec fn is_pending_tag(t: Option<PendingToken>) -> bool {
    t matches Some(PendingToken::StartTag { .. }) || t matches Some(PendingToken::EndTag { .. })
}

/// The name of the tag under construction.
pub open spec fn pending_name(t: Option<PendingToken>) -> Seq<char> {
    match t {
        Some(PendingToken::StartTag { name, .. }) => name@,
        Some(PendingToken::EndTag { name, .. }) => name@,
        _ => Seq::empty(),
    }
}

/// Hints from the parser; only the namespace of the adjusted current node is read.
pub struct ParserData {
    pub adjusted_node_namespace: String,
}

impl Default for ParserData {
    fn default() -> (r: ParserData)
        ensures
            r.adjusted_node_namespace@ == HTML_NAMESPACE@,
    {
        ParserData { adjusted_node_namespace: String::from_str(HTML_NAMESPACE) }
    }
}

/// Options for a new tokenizer.
pub struct Options {
    /// The state to start in
    pub initial_state: State,
    /// The name of the start tag an end tag must match to close raw text
    pub last_start_tag: String,
}

impl Default for Options {
    fn default() -> (r: Options)
        ensures
            r.initial_state == State::Data,
            r.last_start_tag@ == Seq::<char>::empty(),
    {
        Options { initial_state: State::Data, last_start_tag: String::new() }
    }
}

/// Relies on `String::from_iter` over `&char`: the string holds the given characters in
/// order.
#[verifier::external_body]
fn string_from_chars(v: &Vec<char>) -> (r: String)
    ensures
        r@ == v@,
{
    String::from_iter(v.iter())
}

/// The characters of `s`, in order.
pub fn chars_of(s: &str) -> (r: Vec<char>)
    ensures
        r@ == s@,
{
    let n = s.unicode_len();
    let mut out: Vec<char> = Vec::new();
    let mut i: usize = 0;
    while i < n
        invariant
            n == s@.len(),
            i <= n,
            out@ == s@.subrange(0, i as int),
        decreases n - i,
    {
        let c = s.get_char(i);
        out.push(c);
        assert(out@ =~= s@.subrange(0, i + 1));
        i = i + 1;
    }
    assert(out@ =~= s@);
    out
}

/// Whether two character sequences are equal.
pub fn chars_equal(a: &Vec<char>, b: &Vec<char>) -> (r: bool)
    ensures
        r == (a@ == b@),
{
    if a.len() != b.len() {
        return false;
    }
    let mut i: usize = 0;
    while i < a.len()
        invariant
            a@.len() == b@.len(),
            i <= a@.len(),
            forall|k: int| 0 <= k < i ==> a@[k] == b@[k],
        decreases a.len() - i,
    {
        if a[i] != b[i] {
            return false;
        }
        i = i + 1;
    }
    assert(a@ =~= b@);
    true
}

/// Copies a character sequence.
pub fn copy_chars(a: &Vec<char>) -> (r: Vec<char>)
    ensures
        r@ == a@,
{
    let mut out: Vec<char> = Vec::new();
    let mut i: usize = 0;
    while i < a.len()
        invariant
            i <= a@.len(),
            out@ == a@.subrange(0, i as int),
        decreases a.len() - i,
    {
        out.push(a[i]);
        assert(out@ =~= a@.subrange(0, i + 1));
        i = i + 1;
    }
    assert(out@ =~= a@);
    out
}

/// Appends the characters of `b` to `a`.
pub fn append_chars(a: &mut Vec<char>, b: &Vec<char>)
    ensures
        final(a)@ == old(a)@ + b@,
{
    let mut i: usize = 0;
    while i < b.len()
        invariant
            i <= b@.len(),
            a@ == old(a)@ + b@.subrange(0, i as int),
        decreases b.len() - i,
    {
        a.push(b[i]);
        assert(a@ =~= old(a)@ + b@.subrange(0, i + 1));
        i = i + 1;
    }
    assert(b@.subrange(0, i as int) =~= b@);
}

/// Turns collected attributes into strings, keeping their order.
fn attributes_to_strings(a: &Vec<(Vec<char>, Vec<char>)>) -> (r: Vec<(String, String)>)
    ensures
        r@.len() == a@.len(),
        forall|i: int|
            0 <= i < a@.len() ==> (#[trigger] r@[i]).0@ == a@[i].0@ && r@[i].1@ == a@[i].1@,
{
    let mut out: Vec<(String, String)> = Vec::new();
    let mut i: usize = 0;
    while i < a.len()
        invariant
            i <= a@.len(),
            out@.len() == i,
            forall|k: int|
                0 <= k < i ==> (#[trigger] out@[k]).0@ == a@[k].0@ && out@[k].1@ == a@[k].1@,
        decreases a.len() - i,
    {
        let k = string_from_chars(&a[i].0);
        let v = string_from_chars(&a[i].1);
        out.push((k, v));
        i = i + 1;
    }
    out
}

/// Turns a finished doctype, tag or comment into the token handed to the parser.
fn finish_token(t: PendingToken) -> (r: Token)
    requires
        pending_ok(Some(t)),
    ensures
        token_ok(r),
        !is_text(r),
        !is_eof(r),
        (t is StartTag) == (r is StartTag),
        t matches PendingToken::DocType { force_quirks: true, .. } ==> is_quirks_doctype(r),
        (t is Comment) == (r is Comment),
        (t is DocType) == (r is DocType),
        (t is EndTag) == (r is EndTag),
        t matches PendingToken::StartTag { name, .. } ==> r matches Token::StartTag { name: n, .. } && n@ == name@,
        token_matches_pending(r, t),
        token_self_closing(r) == pending_self_closing(Some(t)),
        token_quirks(r) == (t matches PendingToken::DocType { force_quirks: true, .. }),
        t matches PendingToken::StartTag { attributes, .. } ==> token_attrs(r) == attrs_view(attributes@),
{
    match t {
        PendingToken::DocType { name, force_quirks, pub_identifier, sys_identifier, location } => {
            let name = match name {
                Some(n) => Some(string_from_chars(&n)),
                None => None,
            };
            let pub_identifier = match pub_identifier {
                Some(n) => Some(string_from_chars(&n)),
                None => None,
            };
            let sys_identifier = match sys_identifier {
                Some(n) => Some(string_from_chars(&n)),
                None => None,
            };
            Token::DocType { name, force_quirks, pub_identifier, sys_identifier, location }
        },
        PendingToken::StartTag { name, is_self_closing, attributes, location } => {
            let attrs = attributes_to_strings(&attributes);
            assert forall|i: int, j: int| 0 <= i < j < attrs@.len() implies (#[trigger] attrs@[i]).0@
                != (#[trigger] attrs@[j]).0@ by {
                assert(attributes@[i].0@ != attributes@[j].0@);
            }
            assert forall|i: int| 0 <= i < attrs@.len() implies no_upper((#[trigger] attrs@[i]).0@) by {
                assert(no_upper(attributes@[i].0@));
            }
            Token::StartTag {
                name: string_from_chars(&name),
                is_self_closing,
                attributes: attrs,
                location,
            }
        },
        PendingToken::EndTag { name, is_self_closing, location } => {
            Token::EndTag { name: string_from_chars(&name), is_self_closing, location }
        },
        PendingToken::Comment { comment, location } => {
            Token::Comment { comment: string_from_chars(&comment), location }
        },
    }
}

/// Token shape in a queue: each token is well-formed and each text token is followed by
/// a token that is not text.
pub open spec fn queue_shape_ok(q: Seq<Token>) -> bool {
    forall|i: int|
        0 <= i < q.len() ==> token_ok(#[trigger] q[i]) && (is_text(q[i]) ==> i + 1 < q.len()
            && !is_text(q[i + 1]))
}

/// The queue holds no end-of-input token.
pub open spec fn no_eof(q: Seq<Token>) -> bool {
    forall|i: int| 0 <= i < q.len() ==> !is_eof(#[trigger] q[i])
}

/// The parser hint says the adjusted current node is in the HTML namespace.
pub open spec fn in_html_hint(p: ParserData) -> bool {
    p.adjusted_node_namespace@ == HTML_NAMESPACE@
}

/// `trace` is a run of the state machine: each tokenizer is one step after the one
/// before, and only the last may hold queued tokens.
pub open spec fn is_run(trace: Seq<Tokenizer>, in_html: bool) -> bool {
    &&& trace.len() >= 1
    &&& forall|i: int| 0 <= i < trace.len() - 1 ==> #[trigger] one_step(trace[i], trace[i + 1], in_html)
}

/// `b` is one step of the state machine after `a`, which had nothing queued.
pub open spec fn one_step(a: Tokenizer, b: Tokenizer, in_html: bool) -> bool {
    a.token_queue@.len() == 0 && b.stepped(a, in_html)
}

/// The states between a tag's name and its `>`.
pub open spec fn is_attribute_state(s: State) -> bool {
    s == State::BeforeAttributeName || s == State::AttributeName || s == State::AfterAttributeName
        || s == State::BeforeAttributeValue || s == State::AttributeValueDoubleQuoted || s
        == State::AttributeValueSingleQuoted || s == State::AttributeValueUnquoted || s
        == State::AfterAttributeValueQuoted || s == State::SelfClosingStart
}

/// The HTML5 tokenizer.
pub struct Tokenizer {
    /// The input, with the read position
    pub cursor: Cursor,
    /// Current state of the tokenizer
    pub state: State,
    /// Character data not yet emitted as text
    pub consumed: Vec<char>,
    /// The attribute name being read
    pub current_attr_name: Vec<char>,
    /// The attribute value being read
    pub current_attr_value: Vec<char>,
    /// Attributes collected for the current tag
    pub current_attrs: Vec<(Vec<char>, Vec<char>)>,
    /// Token that is currently in the making (if any)
    pub current_token: Option<PendingToken>,
    /// Temporary buffer of the end-tag and double-escape states
    pub temporary_buffer: Vec<char>,
    /// Tokens ready to be handed out, first one first
    pub token_queue: Vec<Token>,
    /// The name of the last emitted start tag (or empty if none)
    pub last_start_token: Vec<char>,
    /// Location of the `<` that opened the current markup
    pub last_token_location: Location,
    /// Error logger to log errors to
    pub error_logger: ErrorLogger,
}

impl Tokenizer {
    /// The internal invariant.
    pub open spec fn wf(&self) -> bool {
        self.core_ok() && bare_start(self.current_token)
    }

    /// The invariant without the condition on the start tag's attributes, which only
    /// emission lifts.
    pub open spec fn core_ok(&self) -> bool {
        &&& self.cursor.wf()
        &&& self.error_logger.wf()
        &&& no_upper(self.current_attr_name@)
        &&& pending_attrs_ok(self.current_attrs@)
        &&& pending_ok(self.current_token)
    }

    /// Where the input ends.
    pub open spec fn end_location(&self) -> Location {
        self.cursor.locations@[self.cursor.chars@.len() as int]
    }

    /// All input is read, nothing is pending, and the state reads character data.
    pub open spec fn at_end(&self) -> bool {
        &&& self.cursor.pos == self.cursor.chars@.len()
        &&& is_text_state(self.state)
        &&& self.consumed@.len() == 0
    }

    /// Every later call returns `Eof` at the end location.
    pub open spec fn finished(&self) -> bool {
        self.at_end() && self.token_queue@.len() == 0
    }

    /// The queue is as the state machine leaves it: well-formed tokens, text followed by
    /// non-text, and an `Eof` only last, at the end location, once all input is read.
    pub open spec fn queue_ok(&self) -> bool {
        &&& queue_shape_ok(self.token_queue@)
        &&& forall|i: int|
            0 <= i < self.token_queue@.len() && is_eof(#[trigger] self.token_queue@[i]) ==> i
                == self.token_queue@.len() - 1 && self.at_end() && token_location(
                self.token_queue@[i],
            ) == self.end_location()
    }

    /// Decreases with every step of the state machine that emits nothing.
    pub open spec fn measure(&self) -> nat {
        self.cursor.remaining() * 8 + rank(self.state, self.cursor.peek())
    }

    /// What a step of the state machine guarantees: the invariant, a well-formed queue,
    /// progress, the errors it must report, and its effect on the common paths.
    pub open spec fn stepped(&self, before: Tokenizer, in_html: bool) -> bool {
        &&& self.state == transition(before, in_html).0
        &&& transition(before, in_html).1 >= 0 ==> self.cursor.pos == before.cursor.pos
            + transition(before, in_html).1
        &&& self.token_queue@.len() > 0 <==> emits(before)
        &&& emits(before) ==> emitted_as_expected(before, self.token_queue@.last())
        &&& emits(before) && before.consumed@.len() > 0 ==> self.token_queue@.len() == 2
            && is_text_of(self.token_queue@[0], before.consumed@, before.last_token_location)
        &&& emits(before) && before.consumed@.len() == 0 ==> self.token_queue@.len() == 1
        &&& self.wf()
        &&& self.queue_ok()
        &&& self.cursor.chars == before.cursor.chars
        &&& self.cursor.locations == before.cursor.locations
        &&& self.token_queue@.len() == 0 ==> self.measure() < before.measure()
        &&& before.finished() ==> self.token_queue@.len() == 1 && is_eof(self.token_queue@[0])
            && self.error_logger == before.error_logger
        &&& self.error_logger.grows_from(before.error_logger)
        &&& self.reported_errors(before)
        &&& self.extended_text(before)
        &&& self.extended_markup(before)
        &&& self.replaced_null(before)
        &&& self.text_and_buffer(before)
        &&& self.tokens_built(before, in_html)
        &&& self.attributes_built(before)
        &&& self.markup_errors(before, in_html)
        &&& before.state == State::Data && is_char(before.cursor.peek(), '<') ==> self.last_token_location
            == before.current_location()
        &&& !(before.state == State::Data && is_char(before.cursor.peek(), '<'))
            ==> self.last_token_location == before.last_token_location
        &&& before.closes_raw_text() ==> self.last_start_token@.len() == 0
        &&& emits_current(before) && is_pending_start(before.current_token)
            && !before.closes_raw_text() ==> self.last_start_token@ == pending_name(
            before.current_token,
        )
        &&& is_attribute_state(before.state) && !emits(before) ==> self.current_token
            == before.current_token
        &&& is_text_only_state(before.state) ==> self.current_token == before.current_token
            && self.current_attrs == before.current_attrs && self.current_attr_name
            == before.current_attr_name && self.current_attr_value == before.current_attr_value
        &&& (is_comment_state(before.state) || is_doctype_state(before.state) || before.state
            == State::DOCTYPE || before.state == State::BeforeDOCTYPEName || before.state
            == State::MarkupDeclarationOpen) ==> self.current_attrs == before.current_attrs
            && self.current_attr_name == before.current_attr_name && self.current_attr_value
            == before.current_attr_value
        &&& !emits(before) && !before.closes_raw_text() ==> self.last_start_token
            == before.last_start_token
    }

    /// `>` after the appropriate end tag in raw text or script, which forgets the last
    /// start tag.
    pub open spec fn closes_raw_text(&self) -> bool {
        &&& (self.state == State::RCDATAEndTagName || self.state == State::RAWTEXTEndTagName
            || self.state == State::ScriptDataEndTagName || self.state
            == State::ScriptDataEscapedEndTagName)
        &&& is_char(self.cursor.peek(), '>')
        &&& self.appropriate_end()
    }

    /// The attribute being read as it would be stored: appended unless it has no name
    /// or its name is taken.
    pub open spec fn stored_attributes(&self) -> Seq<(Seq<char>, Seq<char>)> {
        let name = self.current_attr_name@;
        if name.len() > 0 && !(exists|i: int|
            0 <= i < self.current_attrs@.len() && (#[trigger] self.current_attrs@[i]).0@ == name) {
            attrs_view(self.current_attrs@).push((name, self.current_attr_value@))
        } else {
            attrs_view(self.current_attrs@)
        }
    }

    /// How tags, comments and doctypes are opened, grown and emitted.
    pub open spec fn tokens_built(&self, before: Tokenizer, in_html: bool) -> bool {
        let c = before.cursor.peek();
        let ct = self.current_token;
        let here = before.current_location();
        let opened = before.last_token_location;
        let last = self.token_queue@.last();
        &&& before.state == State::TagOpen && is_letter(c) ==> fresh_tag(ct, true, Seq::empty(), opened)
            && self.current_attrs@.len() == 0
        &&& before.state == State::TagOpen && is_char(c, '?') ==> fresh_comment(ct, Seq::empty(), opened)
        &&& (before.state == State::EndTagOpen || before.state == State::RCDATAEndTagOpen
            || before.state == State::RAWTEXTEndTagOpen || before.state
            == State::ScriptDataEscapedEndTagOpen) && is_letter(c) ==> fresh_tag(
            ct,
            false,
            Seq::empty(),
            opened,
        ) && self.current_attrs@.len() == 0
        &&& before.state == State::ScriptDataEndTagOpen && is_letter(c) ==> fresh_tag(
            ct,
            false,
            seq![ascii_lower_of(char_of(c))],
            opened,
        ) && self.current_attrs@.len() == 0
        &&& before.state == State::EndTagOpen && !is_letter(c) && !is_char(c, '>') && c
            != Character::StreamEnd ==> fresh_comment(ct, Seq::empty(), opened)
        &&& before.state == State::MarkupDeclarationOpen ==> if before.cursor.ahead_is(
            seq!['-', '-'],
            false,
        ) {
            fresh_comment(ct, Seq::empty(), here)
        } else if before.cursor.ahead_is(seq!['D', 'O', 'C', 'T', 'Y', 'P', 'E'], true) {
            ct == before.current_token
        } else if before.cursor.ahead_is(seq!['[', 'C', 'D', 'A', 'T', 'A', '['], false) {
            if in_html {
                fresh_comment(
                    ct,
                    seq!['[', 'C', 'D', 'A', 'T', 'A', '['],
                    before.cursor.locations@[before.cursor.pos + 7],
                )
            } else {
                ct == before.current_token
            }
        } else {
            fresh_comment(ct, Seq::empty(), opened)
        }
        &&& before.state == State::BeforeDOCTYPEName && !is_ws(c) && !is_char(c, '>') && c
            != Character::StreamEnd ==> is_pending_doctype(ct) && doctype_parts(ct) == (
            Some(seq![ascii_lower_of(scrubbed(c))]),
            false,
            None::<Seq<char>>,
            None::<Seq<char>>,
            opened,
        )
        &&& (before.state == State::RCDATAEndTagName || before.state == State::RAWTEXTEndTagName
            || before.state == State::ScriptDataEndTagName || before.state
            == State::ScriptDataEscapedEndTagName) && is_letter(c) && is_pending_tag(
            before.current_token,
        ) ==> is_pending_tag(ct) && pending_name(ct) == pending_name(before.current_token).push(
            ascii_lower_of(char_of(c)),
        )
        &&& is_comment_state(before.state) && is_pending_comment(before.current_token) && !emits(
            before,
        ) ==> is_pending_comment(ct) && pending_comment(ct) =~= pending_comment(
            before.current_token,
        ) + comment_added(before) && pending_location(ct) == pending_location(before.current_token)
        &&& is_doctype_state(before.state) && is_pending_doctype(before.current_token) && !emits(
            before,
        ) ==> is_pending_doctype(ct) && doctype_parts(ct) == doctype_after(before)
        &&& emits_current(before) && before.current_token is Some ==> ct is None
        &&& emits_current(before) && before.current_token is Some ==> token_matches_pending(
            last,
            before.current_token->0,
        )
        &&& emits_current(before) && is_pending_tag(before.current_token) ==> token_self_closing(
            last,
        ) == (pending_self_closing(before.current_token) || (before.state == State::SelfClosingStart
            && is_pending_start(before.current_token)))
        &&& emits_current(before) && is_pending_doctype(before.current_token) ==> token_quirks(last)
            == (doctype_parts(before.current_token).1 || quirks_on_emit(before))
        &&& emits_current(before) && is_pending_start(before.current_token) ==> token_attrs(last)
            =~= (if stores_attributes_on_emit(before.state) {
            before.stored_attributes()
        } else {
            Seq::empty()
        })
    }

    /// How attribute names and values are collected; a name seen before in the tag
    /// leaves the collected attributes as they are, so the first value stays.
    pub open spec fn attributes_built(&self, before: Tokenizer) -> bool {
        let c = before.cursor.peek();
        &&& before.state == State::AttributeName ==> self.current_attrs == before.current_attrs
        &&& before.state == State::BeforeAttributeName && !is_ws(c) && !is_char(c, '/') && !is_char(c, '>')
            && c != Character::StreamEnd ==> attrs_view(self.current_attrs@)
            == before.stored_attributes() && self.current_attr_value@.len() == 0
            && self.current_attr_name@ =~= (if is_char(c, '=') {
            seq!['=']
        } else {
            Seq::empty()
        })
        &&& before.state == State::AfterAttributeName && transition(before, true).0
            == State::AttributeName ==> attrs_view(self.current_attrs@) == before.stored_attributes()
            && self.current_attr_value@.len() == 0 && self.current_attr_name@.len() == 0
        &&& before.state == State::AttributeValueDoubleQuoted && is_char(c, '&') ==> char_ref_appended(
            before.cursor.chars@,
            before.cursor.pos + 1,
            Some('"'),
            true,
            before.current_attr_value@,
            self.current_attr_value@,
            self.cursor.pos as int,
        )
        &&& before.state == State::AttributeValueSingleQuoted && is_char(c, '&') ==> char_ref_appended(
            before.cursor.chars@,
            before.cursor.pos + 1,
            Some('\''),
            true,
            before.current_attr_value@,
            self.current_attr_value@,
            self.cursor.pos as int,
        )
        &&& before.state == State::AttributeValueUnquoted && is_char(c, '&') ==> char_ref_appended(
            before.cursor.chars@,
            before.cursor.pos + 1,
            Some('>'),
            true,
            before.current_attr_value@,
            self.current_attr_value@,
            self.cursor.pos as int,
        )
        &&& before.state == State::AttributeValueSingleQuoted && !is_char(c, '\'') && !is_char(c, '&') && c
            != Character::StreamEnd ==> self.current_attr_value@ =~= before.current_attr_value@.push(
            scrubbed(c),
        )
        &&& before.state == State::AttributeValueUnquoted && !is_ws(c) && !is_char(c, '&') && !is_char(c, '>')
            && c != Character::StreamEnd ==> self.current_attr_value@
            =~= before.current_attr_value@.push(scrubbed(c))
    }

    /// The errors of the markup states, each at its place.
    pub open spec fn markup_errors(&self, before: Tokenizer, in_html: bool) -> bool {
        let c = before.cursor.peek();
        let here = before.current_location();
        let pos = before.cursor.pos as int;
        let log = self.error_logger;
        &&& before.state == State::TagOpen && is_char(c, '?') ==> log.logged(
            here,
            ParserError::UnexpectedQuestionMarkInsteadOfTagName,
        )
        &&& before.state == State::TagOpen && !is_char(c, '!') && !is_char(c, '/') && !is_letter(c) && !is_char(
            c,
            '?',
        ) && c != Character::StreamEnd ==> log.logged(
            here,
            ParserError::InvalidFirstCharacterOfTagName,
        )
        &&& before.state == State::EndTagOpen && is_char(c, '>') ==> log.logged(
            here,
            ParserError::MissingEndTagName,
        )
        &&& before.state == State::EndTagOpen && !is_letter(c) && !is_char(c, '>') && c
            != Character::StreamEnd ==> log.logged(here, ParserError::InvalidFirstCharacterOfTagName)
        &&& before.state == State::MarkupDeclarationOpen && !before.cursor.ahead_is(
            seq!['-', '-'],
            false,
        ) && !before.cursor.ahead_is(seq!['D', 'O', 'C', 'T', 'Y', 'P', 'E'], true)
            ==> if before.cursor.ahead_is(seq!['[', 'C', 'D', 'A', 'T', 'A', '['], false) {
            in_html ==> log.logged(
                before.cursor.locations@[pos + 6],
                ParserError::CdataInHtmlContent,
            )
        } else {
            log.logged(here, ParserError::IncorrectlyOpenedComment)
        }
        &&& before.state == State::CommentLessThanSignBangDashDash && !is_char(c, '>') && c
            != Character::StreamEnd ==> log.logged(here, ParserError::NestedComment)
        &&& before.state == State::CommentEnd && transition(before, true).0 == State::Comment && pos
            >= 2 && !before.cursor.opens_markup_before(pos) ==> log.logged(
            before.cursor.locations@[pos - 2],
            ParserError::NestedComment,
        )
        &&& (before.state == State::CommentStart || before.state == State::CommentStartDash) && is_char(
            c,
            '>',
        ) ==> log.logged(here, ParserError::AbruptClosingOfEmptyComment)
        &&& before.state == State::CommentEndBang && is_char(c, '>') ==> log.logged(
            here,
            ParserError::IncorrectlyClosedComment,
        )
        &&& before.state == State::BeforeAttributeValue && is_char(c, '>') ==> log.logged(
            here,
            ParserError::MissingAttributeValue,
        )
        &&& before.state == State::BeforeAttributeName && is_char(c, '=') ==> log.logged(
            here,
            ParserError::UnexpectedEqualsSignBeforeAttributeName,
        )
        &&& before.state == State::AttributeName && (is_char(c, '"') || is_char(c, '\'') || is_char(c, '<'))
            ==> log.logged(here, ParserError::UnexpectedCharacterInAttributeName)
        &&& before.state == State::AttributeValueUnquoted && (is_char(c, '"') || is_char(c, '\'') || is_char(c, '<')
            || is_char(c, '=') || is_char(c, '`')) ==> log.logged(
            here,
            ParserError::UnexpectedCharacterInUnquotedAttributeValue,
        )
        &&& before.state == State::AfterAttributeValueQuoted && transition(before, true).0
            == State::BeforeAttributeName && !is_ws(c) ==> log.logged(
            here,
            ParserError::MissingWhitespaceBetweenAttributes,
        )
        &&& before.state == State::SelfClosingStart && !is_char(c, '>') && c != Character::StreamEnd
            ==> log.logged(here, ParserError::UnexpectedSolidusInTag)
    }

    /// The pending text grows by exactly `text_added` (emission flushes it; character
    /// references state their own effect), and the temporary buffer becomes
    /// `buffer_after`.
    pub open spec fn text_and_buffer(&self, before: Tokenizer) -> bool {
        &&& emits(before) ==> self.consumed@.len() == 0
        &&& (before.state == State::CharacterReferenceInData || before.state
            == State::CharacterReferenceInRcData) ==> char_ref_appended(
            before.cursor.chars@,
            before.cursor.pos as int,
            None,
            false,
            before.consumed@,
            self.consumed@,
            self.cursor.pos as int,
        )
        &&& !emits(before) && before.state != State::CharacterReferenceInData && before.state
            != State::CharacterReferenceInRcData ==> self.consumed@ =~= before.consumed@ + text_added(
            before,
        )
        &&& self.temporary_buffer@ =~= buffer_after(before)
    }

    /// A NUL read where markup or text is read, and the input ending inside markup, are
    /// logged at the location of that character; at the end of the input a doctype is
    /// emitted forcing quirks, a comment is emitted, and an unfinished tag is dropped.
    pub open spec fn reported_errors(&self, before: Tokenizer) -> bool {
        &&& reports_null(before.state) && before.cursor.peek() == Character::Ch(CHAR_NUL)
            ==> self.error_logger.logged(
            before.current_location(),
            ParserError::UnexpectedNullCharacter,
        )
        &&& eof_error(before.state) is Some && before.cursor.peek() == Character::StreamEnd
            ==> self.error_logger.logged(before.eof_error_location(), eof_error(before.state)->0)
        &&& before.state == State::AttributeName && ends_attribute_name(before.cursor.peek())
            && (exists|i: int|
            0 <= i < before.current_attrs@.len() && (#[trigger] before.current_attrs@[i]).0@
                == before.current_attr_name@) ==> self.error_logger.logged(
            before.current_location(),
            ParserError::DuplicateAttribute,
        )
        &&& eof_error(before.state) == Some(ParserError::EofInDoctype) && before.cursor.peek()
            == Character::StreamEnd && (before.state == State::DOCTYPE || before.state
            == State::BeforeDOCTYPEName || is_pending_doctype(before.current_token))
            ==> self.token_queue@.len() > 0 && is_quirks_doctype(self.token_queue@.last())
        &&& eof_error(before.state) == Some(ParserError::EofInComment) && before.cursor.peek()
            == Character::StreamEnd && is_pending_comment(before.current_token)
            ==> self.token_queue@.len() > 0 && self.token_queue@.last() is Comment
        &&& eof_error(before.state) == Some(ParserError::EofInTag) && before.cursor.peek()
            == Character::StreamEnd ==> self.token_queue@.len() == 0 && self.state == State::Data
    }

    /// A plain character in a text state is appended to the pending text, and nothing
    /// else happens.
    pub open spec fn extended_text(&self, before: Tokenizer) -> bool {
        let c = char_of(before.cursor.peek());
        is_plain_text_char(before.state, c) ==> self.consumed@ == before.consumed@.push(c)
            && self.state == before.state && self.cursor.pos == before.cursor.pos + 1
            && self.token_queue@.len() == 0
    }

    /// A NUL is kept in data, and stands as U+FFFD in other text, in tag and attribute
    /// names, in double-quoted attribute values and in comments.
    pub open spec fn replaced_null(&self, before: Tokenizer) -> bool {
        let nul = before.cursor.peek() == Character::Ch(CHAR_NUL);
        &&& nul && before.state == State::Data ==> self.consumed@ == before.consumed@.push(
            CHAR_NUL,
        )
        &&& nul && (before.state == State::RCDATA || before.state == State::RAWTEXT || before.state
            == State::ScriptData || before.state == State::PLAINTEXT) ==> self.consumed@
            == before.consumed@.push(CHAR_REPLACEMENT)
        &&& nul && before.state == State::TagName && is_pending_tag(before.current_token)
            ==> pending_name(self.current_token) == pending_name(before.current_token).push(
            CHAR_REPLACEMENT,
        )
        &&& nul && before.state == State::AttributeName ==> self.current_attr_name@
            == before.current_attr_name@.push(CHAR_REPLACEMENT)
        &&& nul && before.state == State::AttributeValueDoubleQuoted ==> self.current_attr_value@
            == before.current_attr_value@.push(CHAR_REPLACEMENT)
        &&& nul && before.state == State::Comment && is_pending_comment(before.current_token)
            ==> pending_comment(self.current_token) == pending_comment(before.current_token).push(
            CHAR_REPLACEMENT,
        )
    }

    /// Tag names, attribute names, double-quoted attribute values and comments grow by
    /// the character read (names lowercased), and `>` ends a start tag with its name.
    pub open spec fn extended_markup(&self, before: Tokenizer) -> bool {
        let c = char_of(before.cursor.peek());
        &&& before.state == State::TagName && is_pending_tag(before.current_token)
            && extends_name(c) ==> self.state == State::TagName && pending_name(
            self.current_token,
        ) == pending_name(before.current_token).push(ascii_lower_of(c))
        &&& before.state == State::TagName && is_pending_start(before.current_token)
            && before.cursor.peek() == Character::Ch('>') ==> self.state == State::Data
            && self.token_queue@.len() > 0 && self.token_queue@.last() is StartTag && token_name(
            self.token_queue@.last(),
        ) == pending_name(before.current_token)
        &&& before.state == State::AttributeName && extends_name(c) && c != '='
            ==> self.state == State::AttributeName && self.current_attr_name@
            == before.current_attr_name@.push(ascii_lower_of(c))
        &&& before.state == State::AttributeValueDoubleQuoted && c != '"' && c != '&' && c
            != CHAR_NUL ==> self.state == before.state && self.current_attr_value@
            == before.current_attr_value@.push(c)
        &&& before.state == State::Comment && is_pending_comment(before.current_token) && c != '<'
            && c != '-' && c != CHAR_NUL ==> self.state == State::Comment && pending_comment(
            self.current_token,
        ) == pending_comment(before.current_token).push(c)
    }

    /// The end tag under construction closes the last start tag (an empty name stands
    /// for no end tag).
    pub open spec fn appropriate_end(&self) -> bool {
        match self.current_token {
            Some(PendingToken::EndTag { name, .. }) => name@ == self.last_start_token@,
            _ => self.last_start_token@.len() == 0,
        }
    }

    /// Where an error for the end of the input is logged: at the `<` when no tag name
    /// began, else where the input ends.
    pub open spec fn eof_error_location(&self) -> Location {
        if self.state == State::TagOpen || self.state == State::EndTagOpen {
            self.last_token_location
        } else {
            self.current_location()
        }
    }

    /// The location of the next character to read.
    pub open spec fn current_location(&self) -> Location {
        self.cursor.locations@[self.cursor.pos as int]
    }

    /// Everything but the queue is as in `other`.
    pub open spec fn same_but_queue(&self, other: Tokenizer) -> bool {
        &&& self.cursor == other.cursor
        &&& self.state == other.state
        &&& self.consumed == other.consumed
        &&& self.current_attr_name == other.current_attr_name
        &&& self.current_attr_value == other.current_attr_value
        &&& self.current_attrs == other.current_attrs
        &&& self.current_token == other.current_token
        &&& self.temporary_buffer == other.temporary_buffer
        &&& self.last_start_token == other.last_start_token
        &&& self.last_token_location == other.last_token_location
        &&& self.error_logger == other.error_logger
    }

    /// Creates a new tokenizer over `stream`, whose first character is at
    /// `start_location`.
    pub fn new(
        stream: InputStream,
        opts: Option<Options>,
        error_logger: ErrorLogger,
        start_location: Location,
    ) -> (r: Tokenizer)
        requires
            stream.wf(),
            error_logger.wf(),
            fits_locations(stream.chars@.len(), start_location),
        ensures
            r.wf(),
            r.queue_ok(),
            r.token_queue@.len() == 0,
            r.cursor.pos == 0,
            r.cursor.chars@ == stream.chars@,
            is_location_table(r.cursor.locations@, r.cursor.chars@, start_location),
            r.error_logger@ == error_logger@,
            r.consumed@.len() == 0,
            r.current_token is None,
            r.current_attrs@.len() == 0,
            r.current_attr_name@.len() == 0,
            r.current_attr_value@.len() == 0,
            r.temporary_buffer@.len() == 0,
            opts is None ==> r.state == State::Data && r.last_start_token@.len() == 0,
            opts matches Some(o) ==> r.state == o.initial_state && r.last_start_token@
                == o.last_start_tag@,
    {
        let (state, last) = match opts {
            Some(o) => (o.initial_state, chars_of(o.last_start_tag.as_str())),
            None => (State::Data, Vec::new()),
        };
        Tokenizer {
            cursor: Cursor::new(stream, start_location),
            state,
            consumed: Vec::new(),
            current_attr_name: Vec::new(),
            current_attr_value: Vec::new(),
            current_attrs: Vec::new(),
            current_token: None,
            temporary_buffer: Vec::new(),
            token_queue: Vec::new(),
            last_start_token: last,
            last_token_location: Location::default(),
            error_logger,
        }
    }

    /// Returns the current location in the stream.
    pub fn get_location(&self) -> (r: Location)
        requires
            self.wf(),
        ensures
            r == self.cursor.locations@[self.cursor.pos as int],
    {
        self.cursor.location()
    }

    /// Returns the error logger
    pub fn get_error_logger(&self) -> (r: &ErrorLogger)
        ensures
            r == &self.error_logger,
    {
        &self.error_logger
    }

    /// Logs a parse error at `location` in the shared error log.
    pub fn parse_error(&mut self, error: ParserError, location: Location)
        requires
            old(self).wf(),
        ensures
            final(self).wf(),
            final(self).error_logger.logged(location, error),
            old(self).error_logger.logged(location, error) ==> final(self).error_logger@ == old(
                self,
            ).error_logger@,
            !old(self).error_logger.logged(location, error) ==> final(self).error_logger@ == old(
                self,
            ).error_logger@.push((location, error_code(error))),
            final(self).same_but_log(*old(self)),
    {
        self.error_logger.add_error(location, error.as_str());
    }

    /// Everything but the error log is as in `other`.
    pub open spec fn same_but_log(&self, other: Tokenizer) -> bool {
        &&& self.cursor == other.cursor
        &&& self.state == other.state
        &&& self.consumed == other.consumed
        &&& self.current_attr_name == other.current_attr_name
        &&& self.current_attr_value == other.current_attr_value
        &&& self.current_attrs == other.current_attrs
        &&& self.current_token == other.current_token
        &&& self.temporary_buffer == other.temporary_buffer
        &&& self.token_queue == other.token_queue
        &&& self.last_start_token == other.last_start_token
        &&& self.last_token_location == other.last_token_location
    }

    /// Sets the tokenizer state to a new state
    pub fn set_state(&mut self, state: State)
        ensures
            final(self).state == state,
            final(self).cursor == old(self).cursor,
            final(self).token_queue == old(self).token_queue,
            final(self).error_logger == old(self).error_logger,
            final(self).wf() == old(self).wf(),
    {
        self.state = state;
    }

    /// Sets the name of the last start tag, against which end tags in raw text are matched.
    pub fn set_last_start_tag(&mut self, name: &str)
        ensures
            final(self).last_start_token@ == name@,
            final(self).state == old(self).state,
            final(self).cursor == old(self).cursor,
            final(self).token_queue == old(self).token_queue,
            final(self).error_logger == old(self).error_logger,
            final(self).wf() == old(self).wf(),
    {
        self.last_start_token = chars_of(name);
    }

    /// The text not yet emitted
    pub fn get_consumed_str(&self) -> (r: String)
        ensures
            r@ == self.consumed@,
    {
        string_from_chars(&self.consumed)
    }

    /// Whether any text waits to be emitted
    pub fn has_consumed_data(&self) -> (r: bool)
        ensures
            r == (self.consumed@.len() > 0),
    {
        self.consumed.len() > 0
    }

    /// Puts `first_tokens` in front of the queue, in their order.
    pub fn insert_tokens_at_queue_start(&mut self, first_tokens: Vec<Token>)
        ensures
            final(self).token_queue@ == first_tokens@ + old(self).token_queue@,
            final(self).same_but_queue(*old(self)),
    {
        let mut queue = first_tokens;
        queue.append(&mut self.token_queue);
        self.token_queue = queue;
    }

    /// Whether the end tag under construction closes the last start tag.
    pub(crate) fn is_appropriate_end_token(&self) -> (r: bool)
        ensures
            r == self.appropriate_end(),
    {
        match &self.current_token {
            Some(PendingToken::EndTag { name, .. }) => chars_equal(name, &self.last_start_token),
            _ => self.last_start_token.len() == 0,
        }
    }

    /// Runs the state machine for one step: reads at most one character (or looks
    /// ahead for a keyword, or resolves a character reference) and queues at most one
    /// token, after the pending text.
    pub fn step(&mut self, in_html: bool)
        requires
            old(self).wf(),
            old(self).token_queue@.len() == 0,
        ensures
            final(self).stepped(*old(self), in_html),
    {
        match self.state {
            State::Data => self.step_data(),
            State::RCDATA => self.step_rcdata(),
            State::RAWTEXT => self.step_rawtext(),
            State::ScriptData => self.step_script_data(),
            State::PLAINTEXT => self.step_plaintext(),
            State::TagOpen => self.step_tag_open(),
            State::EndTagOpen => self.step_end_tag_open(),
            State::TagName => self.step_tag_name(),
            State::RCDATALessThanSign => self.step_rcdata_less_than_sign(),
            State::RCDATAEndTagOpen => self.step_rcdata_end_tag_open(),
            State::RCDATAEndTagName => self.step_end_tag_name(),
            State::RAWTEXTLessThanSign => self.step_rawtext_less_than_sign(),
            State::RAWTEXTEndTagOpen => self.step_rawtext_end_tag_open(),
            State::RAWTEXTEndTagName => self.step_end_tag_name(),
            State::ScriptDataLessThanSign => self.step_script_data_less_than_sign(),
            State::ScriptDataEndTagOpen => self.step_script_data_end_tag_open(),
            State::ScriptDataEndTagName => self.step_end_tag_name(),
            State::ScriptDataEscapeStart => self.step_script_data_escape_start(),
            State::ScriptDataEscapeStartDash => self.step_script_data_escape_start_dash(),
            State::ScriptDataEscaped => self.step_script_data_escaped(),
            State::ScriptDataEscapedDash => self.step_script_data_escaped_dash(),
            State::ScriptDataEscapedDashDash => self.step_script_data_escaped_dash_dash(),
            State::ScriptDataEscapedLessThanSign => self.step_script_data_escaped_less_than_sign(),
            State::ScriptDataEscapedEndTagOpen => self.step_script_data_escaped_end_tag_open(),
            State::ScriptDataEscapedEndTagName => self.step_end_tag_name(),
            State::ScriptDataDoubleEscapeStart => self.step_script_data_double_escape_start(),
            State::ScriptDataDoubleEscaped => self.step_script_data_double_escaped(),
            State::ScriptDataDoubleEscapedDash => self.step_script_data_double_escaped_dash(),
            State::ScriptDataDoubleEscapedDashDash => self.step_script_data_double_escaped_dash_dash(),
            State::ScriptDataDoubleEscapedLessThanSign => self.step_script_data_double_escaped_less_than_sign(),
            State::ScriptDataDoubleEscapeEnd => self.step_script_data_double_escape_end(),
            State::BeforeAttributeName => self.step_before_attribute_name(),
            State::AttributeName => self.step_attribute_name(),
            State::AfterAttributeName => self.step_after_attribute_name(),
            State::BeforeAttributeValue => self.step_before_attribute_value(),
            State::AttributeValueDoubleQuoted => self.step_attribute_value_double_quoted(),
            State::AttributeValueSingleQuoted => self.step_attribute_value_single_quoted(),
            State::AttributeValueUnquoted => self.step_attribute_value_unquoted(),
            State::AfterAttributeValueQuoted => self.step_after_attribute_value_quoted(),
            State::SelfClosingStart => self.step_self_closing_start(),
            State::BogusComment => self.step_bogus_comment(),
            State::MarkupDeclarationOpen => self.step_markup_declaration_open(in_html),
            State::CommentStart => self.step_comment_start(),
            State::CommentStartDash => self.step_comment_start_dash(),
            State::Comment => self.step_comment(),
            State::CommentLessThanSign => self.step_comment_less_than_sign(),
            State::CommentLessThanSignBang => self.step_comment_less_than_sign_bang(),
            State::CommentLessThanSignBangDash => self.step_comment_less_than_sign_bang_dash(),
            State::CommentLessThanSignBangDashDash => self.step_comment_less_than_sign_bang_dash_dash(),
            State::CommentEndDash => self.step_comment_end_dash(),
            State::CommentEnd => self.step_comment_end(),
            State::CommentEndBang => self.step_comment_end_bang(),
            State::DOCTYPE => self.step_doctype(),
            State::BeforeDOCTYPEName => self.step_before_doctype_name(),
            State::DOCTYPEName => self.step_doctype_name(),
            State::AfterDOCTYPEName => self.step_after_doctype_name(),
            State::AfterDOCTYPEPublicKeyword => self.step_after_doctype_keyword(),
            State::BeforeDOCTYPEPublicIdentifier => self.step_before_doctype_identifier(),
            State::DOCTYPEPublicIdentifierDoubleQuoted => self.step_doctype_identifier_quoted(),
            State::DOCTYPEPublicIdentifierSingleQuoted => self.step_doctype_identifier_quoted(),
            State::AfterDOCTYPEPublicIdentifier => self.step_after_doctype_public_identifier(),
            State::BetweenDOCTYPEPublicAndSystemIdentifiers => self.step_after_doctype_public_identifier(),
            State::AfterDOCTYPESystemKeyword => self.step_after_doctype_keyword(),
            State::BeforeDOCTYPESystemIdentifier => self.step_before_doctype_identifier(),
            State::DOCTYPESystemIdentifierDoubleQuoted => self.step_doctype_identifier_quoted(),
            State::DOCTYPESystemIdentifierSingleQuoted => self.step_doctype_identifier_quoted(),
            State::AfterDOCTYPESystemIdentifier => self.step_after_doctype_system_identifier(),
            State::BogusDOCTYPE => self.step_bogus_doctype(),
            State::CDATASection => self.step_cdata_section(),
            State::CDATASectionBracket => self.step_cdata_section_bracket(),
            State::CDATASectionEnd => self.step_cdata_section_end(),
            State::CharacterReferenceInData => self.step_character_reference_in_data(),
            State::CharacterReferenceInRcData => self.step_character_reference_in_rcdata(),
        }
    }

    /// Runs the state machine until a token is queued.
    pub fn consume_stream(&mut self, in_html: bool)
        requires
            old(self).wf(),
        ensures
            final(self).wf(),
            final(self).token_queue@.len() > 0,
            final(self).cursor.chars == old(self).cursor.chars,
            final(self).cursor.locations == old(self).cursor.locations,
            old(self).token_queue@.len() > 0 ==> *final(self) == *old(self),
            old(self).token_queue@.len() == 0 ==> final(self).queue_ok(),
            old(self).finished() ==> final(self).token_queue@.len() == 1 && is_eof(
                final(self).token_queue@[0],
            ) && final(self).error_logger == old(self).error_logger,
            old(self).token_queue@.len() == 0 ==> exists|trace: Seq<Tokenizer>|
                is_run(trace, in_html) && trace[0] == *old(self) && trace.last() == *final(self),
    {
        if self.token_queue.len() > 0 {
            return;
        }
        let ghost mut trace: Seq<Tokenizer> = seq![*self];
        loop
            invariant
                is_run(trace, in_html),
                trace[0] == *old(self),
                trace.last() == *self,
                self.wf(),
                self.token_queue@.len() == 0,
                old(self).token_queue@.len() == 0,
                old(self).finished() ==> *self == *old(self),
                self.cursor.chars == old(self).cursor.chars,
                self.cursor.locations == old(self).cursor.locations,
            decreases self.measure(),
        {
            let ghost before = *self;
            self.step(in_html);
            proof {
                let next = trace.push(*self);
                assert(next.last() == *self);
                assert(next[next.len() - 2] == before);
                assert forall|i: int| 0 <= i < next.len() - 1 implies #[trigger] one_step(
                    next[i],
                    next[i + 1],
                    in_html,
                ) by {
                    if i < trace.len() - 1 {
                        assert(next[i] == trace[i] && next[i + 1] == trace[i + 1]);
                        assert(one_step(trace[i], trace[i + 1], in_html));
                    } else {
                        assert(next[i] == trace.last());
                        assert(next[i] == before);
                        assert(next[i + 1] == *self);
                        assert(before.token_queue@.len() == 0);
                        assert(self.stepped(before, in_html));
                    }
                }
                assert(next[0] == trace[0]);
                assert(is_run(next, in_html));
                trace = next;
            }
            if self.token_queue.len() > 0 {
                assert(is_run(trace, in_html) && trace[0] == *old(self) && trace.last() == *self);
                return;
            }
        }
    }

    /// Retrieves the next token: the head of the queue, after running the state machine
    /// when the queue is empty.
    pub fn next_token(&mut self, parser_data: ParserData) -> (r: Token)
        requires
            old(self).wf(),
        ensures
            final(self).wf(),
            final(self).cursor.chars == old(self).cursor.chars,
            final(self).cursor.locations == old(self).cursor.locations,
            old(self).token_queue@.len() > 0 ==> r == old(self).token_queue@[0]
                && final(self).token_queue@ == old(self).token_queue@.drop_first()
                && final(self).same_but_queue(*old(self)),
            old(self).queue_ok() ==> final(self).queue_ok() && token_ok(r),
            old(self).queue_ok() && is_text(r) ==> final(self).token_queue@.len() > 0
                && !is_text(final(self).token_queue@[0]),
            old(self).queue_ok() && is_eof(r) ==> final(self).finished() && token_location(r)
                == final(self).end_location(),
            old(self).finished() ==> is_eof(r) && token_location(r) == old(self).end_location()
                && final(self).finished() && final(self).error_logger == old(self).error_logger,
            old(self).token_queue@.len() == 0 ==> exists|trace: Seq<Tokenizer>|
                is_run(trace, in_html_hint(parser_data)) && trace[0] == *old(self)
                && r == trace.last().token_queue@[0] && final(self).token_queue@
                == trace.last().token_queue@.drop_first() && final(self).same_but_queue(
                trace.last(),
            ),
    {
        let ns = chars_of(parser_data.adjusted_node_namespace.as_str());
        let html = chars_of(HTML_NAMESPACE);
        let in_html = chars_equal(&ns, &html);
        proof {
            reveal_strlit("http://www.w3.org/1999/xhtml");
        }
        assert(in_html == in_html_hint(parser_data));
        self.consume_stream(in_html);
        let ghost q = self.token_queue@;
        let ghost mid = *self;
        let r = self.token_queue.remove(0);
        assert(self.token_queue@ =~= q.drop_first());
        assert(forall|i: int| 0 <= i < self.token_queue@.len() ==> #[trigger] self.token_queue@[i] == q[i + 1]);
        proof {
            if old(self).queue_ok() {
                assert(mid.queue_ok());
                assert(token_ok(q[0]));
                assert(queue_shape_ok(self.token_queue@));
            }
        }
        r
    }

    /// Emits `token`, after a text token with the pending character data if there is any.
    pub(crate) fn emit_token(&mut self, token: Token)
        requires
            old(self).core_ok(),
            old(self).token_queue@.len() == 0,
            token_ok(token),
            !is_text(token),
            is_eof(token) ==> old(self).cursor.pos == old(self).cursor.chars@.len() && is_text_state(
                old(self).state,
            ) && token_location(token) == old(self).end_location(),
        ensures
            final(self).core_ok(),
            old(self).wf() ==> final(self).wf(),
            final(self).queue_ok(),
            final(self).token_queue@.len() > 0,
            final(self).cursor == old(self).cursor,
            final(self).state == old(self).state,
            final(self).current_token == old(self).current_token,
            final(self).current_attrs == old(self).current_attrs,
            final(self).current_attr_name == old(self).current_attr_name,
            final(self).error_logger == old(self).error_logger,
            final(self).consumed@.len() == 0,
            token is StartTag ==> final(self).last_start_token@ == token_name(token),
            !(token is StartTag) ==> final(self).last_start_token == old(self).last_start_token,
            old(self).consumed@.len() == 0 ==> final(self).token_queue@ == seq![token],
            old(self).consumed@.len() > 0 ==> final(self).token_queue@.len() == 2 && is_text_of(
                final(self).token_queue@[0],
                old(self).consumed@,
                old(self).last_token_location,
            ),
            final(self).token_queue@.last() == token,
            !is_eof(token) ==> no_eof(final(self).token_queue@),
            final(self).temporary_buffer == old(self).temporary_buffer,
            final(self).last_token_location == old(self).last_token_location,
            final(self).current_attr_value == old(self).current_attr_value,
    {
        if let Token::StartTag { name, .. } = &token {
            self.last_start_token = chars_of(name.as_str());
        }
        if self.consumed.len() > 0 {
            let text = string_from_chars(&self.consumed);
            self.token_queue.push(Token::Text { text, location: self.last_token_location });
            self.consumed = Vec::new();
        }
        self.token_queue.push(token);
        assert(queue_shape_ok(self.token_queue@));
    }

    /// Emits the token under construction, if any.
    pub(crate) fn emit_current_token(&mut self)
        requires
            old(self).core_ok(),
            old(self).token_queue@.len() == 0,
        ensures
            final(self).wf(),
            final(self).queue_ok(),
            no_eof(final(self).token_queue@),
            old(self).current_token is Some ==> final(self).token_queue@.len() > 0,
            old(self).current_token is None ==> final(self).token_queue@.len() == 0,
            old(self).current_token matches Some(PendingToken::DocType { force_quirks: true, .. })
                ==> is_quirks_doctype(final(self).token_queue@.last()),
            is_pending_comment(old(self).current_token) ==> final(self).token_queue@.last() is Comment,
            old(self).current_token matches Some(p) ==> token_matches_pending(
                final(self).token_queue@.last(),
                p,
            ) && token_self_closing(final(self).token_queue@.last()) == pending_self_closing(
                old(self).current_token,
            ) && token_quirks(final(self).token_queue@.last()) == (old(self).current_token matches Some(
                PendingToken::DocType { force_quirks: true, .. },
            )),
            old(self).current_token matches Some(PendingToken::StartTag { attributes, .. })
                ==> token_attrs(final(self).token_queue@.last()) == attrs_view(attributes@),
            old(self).current_token is Some ==> same_kind(
                final(self).token_queue@.last(),
                old(self).current_token,
            ),
            old(self).current_token is Some && old(self).consumed@.len() > 0
                ==> final(self).token_queue@.len() == 2 && is_text_of(
                final(self).token_queue@[0],
                old(self).consumed@,
                old(self).last_token_location,
            ),
            old(self).current_token is Some && old(self).consumed@.len() == 0
                ==> final(self).token_queue@.len() == 1,
            is_pending_start(old(self).current_token) ==> final(self).token_queue@.last() is StartTag && token_name(
                final(self).token_queue@.last(),
            ) == pending_name(old(self).current_token),
            final(self).cursor == old(self).cursor,
            final(self).state == old(self).state,
            final(self).current_token is None,
            final(self).error_logger == old(self).error_logger,
            final(self).temporary_buffer == old(self).temporary_buffer,
            final(self).last_token_location == old(self).last_token_location,
            final(self).current_attrs == old(self).current_attrs,
            final(self).current_attr_name == old(self).current_attr_name,
            final(self).current_attr_value == old(self).current_attr_value,
            old(self).current_token is None ==> final(self).consumed == old(self).consumed
                && final(self).last_start_token == old(self).last_start_token,
            old(self).current_token is Some ==> final(self).consumed@.len() == 0,
            !is_pending_start(old(self).current_token) ==> final(self).last_start_token
                == old(self).last_start_token,
            is_pending_start(old(self).current_token) ==> final(self).last_start_token@
                == pending_name(old(self).current_token),
    {
        let t = self.current_token.take();
        match t {
            Some(p) => {
                let tok = finish_token(p);
                self.emit_token(tok);
            },
            None => {},
        }
    }
}

/// `c` is an ASCII letter.
pub open spec fn is_alpha(c: char) -> bool {
    ('a' <= c && c <= 'z') || ('A' <= c && c <= 'Z')
}

pub(crate) fn alpha(c: char) -> (r: bool)
    ensures
        r == is_alpha(c),
{
    ('a' <= c && c <= 'z') || ('A' <= c && c <= 'Z')
}

pub(crate) fn ws(c: Character) -> (r: bool)
    ensures
        r == is_ws(c),
{
    c == Character::Ch(CHAR_TAB) || c == Character::Ch(CHAR_LF) || c == Character::Ch(CHAR_FF) || c
        == Character::Ch(CHAR_SPACE)
}

/// Adds a character to the name of the token under construction; a doctype without a
/// name gets one.
pub(crate) fn add_to_token_name(tok: &mut Option<PendingToken>, c: char)
    requires
        pending_ok(*old(tok)),
        !is_ascii_upper(c),
    ensures
        pending_ok(*final(tok)),
        bare_start(*old(tok)) ==> bare_start(*final(tok)),
        (*old(tok) is Some) == (*final(tok) is Some),
        is_pending_tag(*old(tok)) ==> is_pending_tag(*final(tok)) && pending_name(*final(tok))
            == pending_name(*old(tok)).push(c),
        is_pending_doctype(*old(tok)) ==> is_pending_doctype(*final(tok)) && doctype_parts(
            *final(tok),
        ) == ({
            let p = doctype_parts(*old(tok));
            (name_with(p.0, c), p.1, p.2, p.3, p.4)
        }),
        !is_pending_tag(*old(tok)) && !is_pending_doctype(*old(tok)) ==> *final(tok) == *old(tok),
{
    match tok {
        Some(PendingToken::StartTag { name, .. }) => {
            name.push(c);
        },
        Some(PendingToken::EndTag { name, .. }) => {
            name.push(c);
        },
        Some(PendingToken::DocType { name, .. }) => {
            match name {
                Some(n) => n.push(c),
                None => {
                    let mut n = Vec::new();
                    n.push(c);
                    *name = Some(n);
                },
            }
        },
        _ => {},
    }
}

/// Adds a character to the data of the comment under construction.
pub(crate) fn add_to_token_value(tok: &mut Option<PendingToken>, c: char)
    requires
        pending_ok(*old(tok)),
    ensures
        pending_ok(*final(tok)),
        is_pending_comment(*old(tok)) ==> is_pending_comment(*final(tok))
            && pending_comment(*final(tok)) == pending_comment(*old(tok)).push(c),
        pending_location(*final(tok)) == pending_location(*old(tok)),
        !is_pending_comment(*old(tok)) ==> *final(tok) == *old(tok),
{
    if let Some(PendingToken::Comment { comment, .. }) = tok {
        comment.push(c);
    }
}

/// Gives the doctype under construction an empty public identifier.
pub(crate) fn set_public_identifier(tok: &mut Option<PendingToken>)
    requires
        pending_ok(*old(tok)),
    ensures
        pending_ok(*final(tok)),
        is_pending_doctype(*old(tok)) ==> is_pending_doctype(*final(tok)) && doctype_parts(
            *final(tok),
        ) == ({
            let p = doctype_parts(*old(tok));
            (p.0, p.1, Some(Seq::<char>::empty()), p.3, p.4)
        }),
        !is_pending_doctype(*old(tok)) ==> *final(tok) == *old(tok),
{
    if let Some(PendingToken::DocType { pub_identifier, .. }) = tok {
        *pub_identifier = Some(Vec::new());
    }
}

/// Adds a character to the public identifier of the doctype under construction.
pub(crate) fn add_public_identifier(tok: &mut Option<PendingToken>, c: char)
    requires
        pending_ok(*old(tok)),
    ensures
        pending_ok(*final(tok)),
        is_pending_doctype(*old(tok)) ==> is_pending_doctype(*final(tok)) && doctype_parts(
            *final(tok),
        ) == ({
            let p = doctype_parts(*old(tok));
            (p.0, p.1, identifier_with(p.2, c), p.3, p.4)
        }),
        !is_pending_doctype(*old(tok)) ==> *final(tok) == *old(tok),
{
    if let Some(PendingToken::DocType { pub_identifier: Some(pid), .. }) = tok {
        pid.push(c);
    }
}

/// Gives the doctype under construction an empty system identifier.
pub(crate) fn set_system_identifier(tok: &mut Option<PendingToken>)
    requires
        pending_ok(*old(tok)),
    ensures
        pending_ok(*final(tok)),
        is_pending_doctype(*old(tok)) ==> is_pending_doctype(*final(tok)) && doctype_parts(
            *final(tok),
        ) == ({
            let p = doctype_parts(*old(tok));
            (p.0, p.1, p.2, Some(Seq::<char>::empty()), p.4)
        }),
        !is_pending_doctype(*old(tok)) ==> *final(tok) == *old(tok),
{
    if let Some(PendingToken::DocType { sys_identifier, .. }) = tok {
        *sys_identifier = Some(Vec::new());
    }
}

/// Adds a character to the system identifier of the doctype under construction.
pub(crate) fn add_system_identifier(tok: &mut Option<PendingToken>, c: char)
    requires
        pending_ok(*old(tok)),
    ensures
        pending_ok(*final(tok)),
        is_pending_doctype(*old(tok)) ==> is_pending_doctype(*final(tok)) && doctype_parts(
            *final(tok),
        ) == ({
            let p = doctype_parts(*old(tok));
            (p.0, p.1, p.2, identifier_with(p.3, c), p.4)
        }),
        !is_pending_doctype(*old(tok)) ==> *final(tok) == *old(tok),
{
    if let Some(PendingToken::DocType { sys_identifier: Some(sid), .. }) = tok {
        sid.push(c);
    }
}

/// Sets the force-quirks flag of the doctype under construction.
pub(crate) fn set_quirks_mode(tok: &mut Option<PendingToken>)
    requires
        pending_ok(*old(tok)),
    ensures
        pending_ok(*final(tok)),
        is_pending_doctype(*old(tok)) ==> *final(tok) matches Some(
            PendingToken::DocType { force_quirks: true, .. },
        ),
        is_pending_doctype(*old(tok)) ==> is_pending_doctype(*final(tok)) && doctype_parts(
            *final(tok),
        ) == ({
            let p = doctype_parts(*old(tok));
            (p.0, true, p.2, p.3, p.4)
        }),
        !is_pending_doctype(*old(tok)) ==> *final(tok) == *old(tok),
{
    if let Some(PendingToken::DocType { force_quirks, .. }) = tok {
        *force_quirks = true;
    }
}

/// Marks the start tag under construction self-closing; on an end tag, logs
/// `end-tag-with-trailing-solidus` at `loc` instead.
pub(crate) fn set_is_closing_in_current_token(
    tok: &mut Option<PendingToken>,
    logger: &mut ErrorLogger,
    loc: Location,
)
    requires
        pending_ok(*old(tok)),
        old(logger).wf(),
    ensures
        pending_ok(*final(tok)),
        final(logger).wf(),
        final(logger).grows_from(*old(logger)),
        *final(tok) == closed_start(*old(tok)),
        is_pending_end(*old(tok)) ==> final(logger).logged(loc, ParserError::EndTagWithTrailingSolidus),
        !is_pending_end(*old(tok)) ==> *final(logger) == *old(logger),
{
    match tok {
        Some(PendingToken::EndTag { .. }) => {
            logger.add_error(loc, ParserError::EndTagWithTrailingSolidus.as_str());
        },
        Some(PendingToken::StartTag { is_self_closing, .. }) => {
            *is_self_closing = true;
        },
        _ => {},
    }
}

/// Whether an attribute named `name` was collected already.
pub(crate) fn attr_already_exists(attrs: &Vec<(Vec<char>, Vec<char>)>, name: &Vec<char>) -> (r: bool)
    ensures
        r == exists|i: int| 0 <= i < attrs@.len() && (#[trigger] attrs@[i]).0@ == name@,
{
    let mut i: usize = 0;
    while i < attrs.len()
        invariant
            i <= attrs@.len(),
            forall|k: int| 0 <= k < i ==> (#[trigger] attrs@[k]).0@ != name@,
        decreases attrs.len() - i,
    {
        if chars_equal(&attrs[i].0, name) {
            return true;
        }
        i = i + 1;
    }
    false
}

/// Stores the attribute being read, unless it has no name or its name was seen before
/// in this tag, and clears it.
pub(crate) fn store_and_clear_current_attribute(
    attrs: &mut Vec<(Vec<char>, Vec<char>)>,
    name: &mut Vec<char>,
    value: &mut Vec<char>,
)
    requires
        pending_attrs_ok(old(attrs)@),
        no_upper(old(name)@),
    ensures
        pending_attrs_ok(final(attrs)@),
        final(name)@.len() == 0,
        final(value)@.len() == 0,
        old(name)@.len() > 0 && !(exists|i: int|
            0 <= i < old(attrs)@.len() && (#[trigger] old(attrs)@[i]).0@ == old(name)@)
            ==> attrs_view(final(attrs)@) == attrs_view(old(attrs)@).push((old(name)@, old(value)@)),
        !(old(name)@.len() > 0 && !(exists|i: int|
            0 <= i < old(attrs)@.len() && (#[trigger] old(attrs)@[i]).0@ == old(name)@))
            ==> final(attrs)@ == old(attrs)@,
{
    if name.len() > 0 && !attr_already_exists(attrs, name) {
        let n = copy_chars(name);
        let v = copy_chars(value);
        attrs.push((n, v));
        assert(attrs_view(attrs@) =~= attrs_view(old(attrs)@).push((old(name)@, old(value)@)));
    }
    *name = Vec::new();
    *value = Vec::new();
}

/// Moves the collected attributes into the start tag under construction; on an end tag
/// they are dropped with `end-tag-with-attributes` logged at `loc`.
pub(crate) fn add_stored_attributes_to_current_token(
    tok: &mut Option<PendingToken>,
    attrs: &mut Vec<(Vec<char>, Vec<char>)>,
    logger: &mut ErrorLogger,
    loc: Location,
)
    requires
        pending_ok(*old(tok)),
        bare_start(*old(tok)),
        pending_attrs_ok(old(attrs)@),
        old(logger).wf(),
    ensures
        pending_ok(*final(tok)),
        pending_attrs_ok(final(attrs)@),
        final(logger).wf(),
        final(logger).grows_from(*old(logger)),
        (*old(tok) is Some) == (*final(tok) is Some),
        old(attrs)@.len() == 0 || !is_pending_tag(*old(tok)) ==> *final(tok) == *old(tok)
            && *final(attrs) == *old(attrs) && *final(logger) == *old(logger),
        old(attrs)@.len() > 0 && is_pending_start(*old(tok)) ==> *final(tok) == with_attributes(
            *old(tok),
            *old(attrs),
        ) && final(attrs)@.len() == 0 && *final(logger) == *old(logger),
        old(attrs)@.len() > 0 && is_pending_end(*old(tok)) ==> *final(tok) == *old(tok)
            && final(attrs)@.len() == 0 && final(logger).logged(
            loc,
            ParserError::EndTagWithAttributes,
        ),
{
    if attrs.len() == 0 {
        return;
    }
    match tok {
        Some(PendingToken::EndTag { .. }) => {
            logger.add_error(loc, ParserError::EndTagWithAttributes.as_str());
            *attrs = Vec::new();
        },
        Some(PendingToken::StartTag { attributes, .. }) => {
            let mut taken = Vec::new();
            std::mem::swap(&mut taken, attrs);
            *attributes = taken;
        },
        _ => {},
    }
}

/// Appends `</` and the temporary buffer to the character data and clears the buffer.
pub(crate) fn flush_end_tag_attempt(consumed: &mut Vec<char>, temporary_buffer: &mut Vec<char>)
    ensures
        final(temporary_buffer)@.len() == 0,
        final(consumed)@ == old(consumed)@ + seq!['<', '/'] + old(temporary_buffer)@,
{
    consumed.push('<');
    consumed.push('/');
    append_chars(consumed, temporary_buffer);
    assert(consumed@ =~= old(consumed)@ + seq!['<', '/'] + old(temporary_buffer)@);
    *temporary_buffer = Vec::new();
}

/// The temporary buffer spells `script`.
pub(crate) fn buffer_is_script(b: &Vec<char>) -> (r: bool)
    ensures
        r == (b@ == seq!['s', 'c', 'r', 'i', 'p', 't']),
{
    let script = vec!['s', 'c', 'r', 'i', 'p', 't'];
    assert(script@ =~= seq!['s', 'c', 'r', 'i', 'p', 't']);
    chars_equal(b, &script)
}

} // verus!

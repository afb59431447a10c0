use vstd::prelude::*;
use crate::location::Location;

verus! {

/// The parse errors the tokenizer can report.
#[derive(Clone, Copy, Debug, PartialEq, Eq, Structural)]
pub enum ParserError {
    AbruptDoctypePublicIdentifier,
    AbruptDoctypeSystemIdentifier,
    AbruptClosingOfEmptyComment,
    AbsenceOfDigitsInNumericCharacterReference,
    CdataInHtmlContent,
    CharacterReferenceOutsideUnicodeRange,
    ControlCharacterInInputStream,
    ControlCharacterReference,
    EndTagWithAttributes,
    DuplicateAttribute,
    EndTagWithTrailingSolidus,
    EofBeforeTagName,
    EofInCdata,
    EofInComment,
    EofInDoctype,
    EofInScriptHtmlCommentLikeText,
    EofInTag,
    IncorrectlyClosedComment,
    IncorrectlyOpenedComment,
    InvalidCharacterSequenceAfterDoctypeName,
    InvalidFirstCharacterOfTagName,
    MissingAttributeValue,
    MissingDoctypeName,
    MissingDoctypePublicIdentifier,
    MissingDoctypeSystemIdentifier,
    MissingEndTagName,
    MissingQuoteBeforeDoctypePublicIdentifier,
    MissingQuoteBeforeDoctypeSystemIdentifier,
    MissingSemicolonAfterCharacterReference,
    MissingWhitespaceAfterDoctypePublicKeyword,
    MissingWhitespaceAfterDoctypeSystemKeyword,
    MissingWhitespaceBeforeDoctypeName,
    MissingWhitespaceBetweenAttributes,
    MissingWhitespaceBetweenDoctypePublicAndSystemIdentifiers,
    NestedComment,
    NoncharacterCharacterReference,
    NoncharacterInInputStream,
    NonVoidHtmlElementStartTagWithTrailingSolidus,
    NullCharacterReference,
    SelfClosingFlagOnEndTag,
    SurrogateCharacterReference,
    SurrogateInInputStream,
    UnexpectedCharacterAfterDoctypeSystemIdentifier,
    UnexpectedCharacterInAttributeName,
    UnexpectedCharacterInUnquotedAttributeValue,
    UnexpectedEqualsSignBeforeAttributeName,
    UnexpectedNullCharacter,
    UnexpectedQuestionMarkInsteadOfTagName,
    UnexpectedSolidusInTag,
    UnknownNamedCharacterReference,
    ExpectedDocTypeButGotChars,
    ExpectedDocTypeButGotStartTag,
    ExpectedDocTypeButGotEndTag,
}

/// The stable kebab-case code of a parse error.
pub open spec fn error_code(e: ParserError) -> Seq<char> {
    match e {
        ParserError::AbruptDoctypePublicIdentifier => "abrupt-doctype-public-identifier"@,
        ParserError::AbruptDoctypeSystemIdentifier => "abrupt-doctype-system-identifier"@,
        ParserError::AbruptClosingOfEmptyComment => "abrupt-closing-of-empty-comment"@,
        ParserError::AbsenceOfDigitsInNumericCharacterReference => "absence-of-digits-in-numeric-character-reference"@,
        ParserError::CdataInHtmlContent => "cdata-in-html-content"@,
        ParserError::CharacterReferenceOutsideUnicodeRange => "character-reference-outside-unicode-range"@,
        ParserError::ControlCharacterInInputStream => "control-character-in-input-stream"@,
        ParserError::ControlCharacterReference => "control-character-reference"@,
        ParserError::EndTagWithAttributes => "end-tag-with-attributes"@,
        ParserError::DuplicateAttribute => "duplicate-attribute"@,
        ParserError::EndTagWithTrailingSolidus => "end-tag-with-trailing-solidus"@,
        ParserError::EofBeforeTagName => "eof-before-tag-name"@,
        ParserError::EofInCdata => "eof-in-cdata"@,
        ParserError::EofInComment => "eof-in-comment"@,
        ParserError::EofInDoctype => "eof-in-doctype"@,
        ParserError::EofInScriptHtmlCommentLikeText => "eof-in-script-html-comment-like-text"@,
        ParserError::EofInTag => "eof-in-tag"@,
        ParserError::IncorrectlyClosedComment => "incorrectly-closed-comment"@,
        ParserError::IncorrectlyOpenedComment => "incorrectly-opened-comment"@,
        ParserError::InvalidCharacterSequenceAfterDoctypeName => "invalid-character-sequence-after-doctype-name"@,
        ParserError::InvalidFirstCharacterOfTagName => "invalid-first-character-of-tag-name"@,
        ParserError::MissingAttributeValue => "missing-attribute-value"@,
        ParserError::MissingDoctypeName => "missing-doctype-name"@,
        ParserError::MissingDoctypePublicIdentifier => "missing-doctype-public-identifier"@,
        ParserError::MissingDoctypeSystemIdentifier => "missing-doctype-system-identifier"@,
        ParserError::MissingEndTagName => "missing-end-tag-name"@,
        ParserError::MissingQuoteBeforeDoctypePublicIdentifier => "missing-quote-before-doctype-public-identifier"@,
        ParserError::MissingQuoteBeforeDoctypeSystemIdentifier => "missing-quote-before-doctype-system-identifier"@,
        ParserError::MissingSemicolonAfterCharacterReference => "missing-semicolon-after-character-reference"@,
        ParserError::MissingWhitespaceAfterDoctypePublicKeyword => "missing-whitespace-after-doctype-public-keyword"@,
        ParserError::MissingWhitespaceAfterDoctypeSystemKeyword => "missing-whitespace-after-doctype-system-keyword"@,
        ParserError::MissingWhitespaceBeforeDoctypeName => "missing-whitespace-before-doctype-name"@,
        ParserError::MissingWhitespaceBetweenAttributes => "missing-whitespace-between-attributes"@,
        ParserError::MissingWhitespaceBetweenDoctypePublicAndSystemIdentifiers => "missing-whitespace-between-doctype-public-and-system-identifiers"@,
        ParserError::NestedComment => "nested-comment"@,
        ParserError::NoncharacterCharacterReference => "noncharacter-character-reference"@,
        ParserError::NoncharacterInInputStream => "noncharacter-in-input-stream"@,
        ParserError::NonVoidHtmlElementStartTagWithTrailingSolidus => "non-void-html-element-start-tag-with-trailing-solidus"@,
        ParserError::NullCharacterReference => "null-character-reference"@,
        ParserError::SelfClosingFlagOnEndTag => "self-closing-flag-on-end-tag"@,
        ParserError::SurrogateCharacterReference => "surrogate-character-reference"@,
        ParserError::SurrogateInInputStream => "surrogate-in-input-stream"@,
        ParserError::UnexpectedCharacterAfterDoctypeSystemIdentifier => "unexpected-character-after-doctype-system-identifier"@,
        ParserError::UnexpectedCharacterInAttributeName => "unexpected-character-in-attribute-name"@,
        ParserError::UnexpectedCharacterInUnquotedAttributeValue => "unexpected-character-in-unquoted-attribute-value"@,
        ParserError::UnexpectedEqualsSignBeforeAttributeName => "unexpected-equals-sign-before-attribute-name"@,
        ParserError::UnexpectedNullCharacter => "unexpected-null-character"@,
        ParserError::UnexpectedQuestionMarkInsteadOfTagName => "unexpected-question-mark-instead-of-tag-name"@,
        ParserError::UnexpectedSolidusInTag => "unexpected-solidus-in-tag"@,
        ParserError::UnknownNamedCharacterReference => "unknown-named-character-reference"@,
        ParserError::ExpectedDocTypeButGotChars => "expected-doctype-but-got-chars"@,
        ParserError::ExpectedDocTypeButGotStartTag => "expected-doctype-but-got-start-tag"@,
        ParserError::ExpectedDocTypeButGotEndTag => "expected-doctype-but-got-end-tag"@,
    }
}

impl ParserError {
    /// Parser errors as string representation
    pub fn as_str(&self) -> (r: &'static str)
        ensures
            r@ == error_code(*self),
    {
        match self {
            ParserError::AbruptDoctypePublicIdentifier => "abrupt-doctype-public-identifier",
            ParserError::AbruptDoctypeSystemIdentifier => "abrupt-doctype-system-identifier",
            ParserError::AbruptClosingOfEmptyComment => "abrupt-closing-of-empty-comment",
            ParserError::AbsenceOfDigitsInNumericCharacterReference => "absence-of-digits-in-numeric-character-reference",
            ParserError::CdataInHtmlContent => "cdata-in-html-content",
            ParserError::CharacterReferenceOutsideUnicodeRange => "character-reference-outside-unicode-range",
            ParserError::ControlCharacterInInputStream => "control-character-in-input-stream",
            ParserError::ControlCharacterReference => "control-character-reference",
            ParserError::EndTagWithAttributes => "end-tag-with-attributes",
            ParserError::DuplicateAttribute => "duplicate-attribute",
            ParserError::EndTagWithTrailingSolidus => "end-tag-with-trailing-solidus",
            ParserError::EofBeforeTagName => "eof-before-tag-name",
            ParserError::EofInCdata => "eof-in-cdata",
            ParserError::EofInComment => "eof-in-comment",
            ParserError::EofInDoctype => "eof-in-doctype",
            ParserError::EofInScriptHtmlCommentLikeText => "eof-in-script-html-comment-like-text",
            ParserError::EofInTag => "eof-in-tag",
            ParserError::IncorrectlyClosedComment => "incorrectly-closed-comment",
            ParserError::IncorrectlyOpenedComment => "incorrectly-opened-comment",
            ParserError::InvalidCharacterSequenceAfterDoctypeName => "invalid-character-sequence-after-doctype-name",
            ParserError::InvalidFirstCharacterOfTagName => "invalid-first-character-of-tag-name",
            ParserError::MissingAttributeValue => "missing-attribute-value",
            ParserError::MissingDoctypeName => "missing-doctype-name",
            ParserError::MissingDoctypePublicIdentifier => "missing-doctype-public-identifier",
            ParserError::MissingDoctypeSystemIdentifier => "missing-doctype-system-identifier",
            ParserError::MissingEndTagName => "missing-end-tag-name",
            ParserError::MissingQuoteBeforeDoctypePublicIdentifier => "missing-quote-before-doctype-public-identifier",
            ParserError::MissingQuoteBeforeDoctypeSystemIdentifier => "missing-quote-before-doctype-system-identifier",
            ParserError::MissingSemicolonAfterCharacterReference => "missing-semicolon-after-character-reference",
            ParserError::MissingWhitespaceAfterDoctypePublicKeyword => "missing-whitespace-after-doctype-public-keyword",
            ParserError::MissingWhitespaceAfterDoctypeSystemKeyword => "missing-whitespace-after-doctype-system-keyword",
            ParserError::MissingWhitespaceBeforeDoctypeName => "missing-whitespace-before-doctype-name",
            ParserError::MissingWhitespaceBetweenAttributes => "missing-whitespace-between-attributes",
            ParserError::MissingWhitespaceBetweenDoctypePublicAndSystemIdentifiers => "missing-whitespace-between-doctype-public-and-system-identifiers",
            ParserError::NestedComment => "nested-comment",
            ParserError::NoncharacterCharacterReference => "noncharacter-character-reference",
            ParserError::NoncharacterInInputStream => "noncharacter-in-input-stream",
            ParserError::NonVoidHtmlElementStartTagWithTrailingSolidus => "non-void-html-element-start-tag-with-trailing-solidus",
            ParserError::NullCharacterReference => "null-character-reference",
            ParserError::SelfClosingFlagOnEndTag => "self-closing-flag-on-end-tag",
            ParserError::SurrogateCharacterReference => "surrogate-character-reference",
            ParserError::SurrogateInInputStream => "surrogate-in-input-stream",
            ParserError::UnexpectedCharacterAfterDoctypeSystemIdentifier => "unexpected-character-after-doctype-system-identifier",
            ParserError::UnexpectedCharacterInAttributeName => "unexpected-character-in-attribute-name",
            ParserError::UnexpectedCharacterInUnquotedAttributeValue => "unexpected-character-in-unquoted-attribute-value",
            ParserError::UnexpectedEqualsSignBeforeAttributeName => "unexpected-equals-sign-before-attribute-name",
            ParserError::UnexpectedNullCharacter => "unexpected-null-character",
            ParserError::UnexpectedQuestionMarkInsteadOfTagName => "unexpected-question-mark-instead-of-tag-name",
            ParserError::UnexpectedSolidusInTag => "unexpected-solidus-in-tag",
            ParserError::UnknownNamedCharacterReference => "unknown-named-character-reference",
            ParserError::ExpectedDocTypeButGotChars => "expected-doctype-but-got-chars",
            ParserError::ExpectedDocTypeButGotStartTag => "expected-doctype-but-got-start-tag",
            ParserError::ExpectedDocTypeButGotEndTag => "expected-doctype-but-got-end-tag",
        }
    }
}

/// A parse error: a message code and where it occurred.
#[derive(Clone, Debug)]
pub struct ParseError {
    pub message: String,
    pub location: Location,
}

/// The plain-value view of a parse error.
pub open spec fn error_view(e: ParseError) -> (Location, Seq<char>) {
    (e.location, e.message@)
}

/// A list of parse errors that holds each `(location, message)` pair at most once.
#[derive(Clone)]
pub struct ErrorLogger {
    errors: Vec<ParseError>,
}

/// No `(location, message)` pair occurs twice in `s`.
pub open spec fn no_duplicates(s: Seq<(Location, Seq<char>)>) -> bool {
    forall|i: int, j: int| 0 <= i < j < s.len() ==> s[i] != s[j]
}

impl View for ErrorLogger {
    type V = Seq<(Location, Seq<char>)>;

    closed spec fn view(&self) -> Seq<(Location, Seq<char>)> {
        self.errors@.map_values(|e: ParseError| error_view(e))
    }
}

impl ErrorLogger {
    /// The logged pairs hold no duplicate.
    pub open spec fn wf(&self) -> bool {
        no_duplicates(self@)
    }

    /// `e` is logged at `loc`.
    pub open spec fn logged(&self, loc: Location, e: ParserError) -> bool {
        self@.contains((loc, error_code(e)))
    }

    /// Every entry of `earlier` is still logged.
    pub open spec fn grows_from(&self, earlier: ErrorLogger) -> bool {
        forall|x: (Location, Seq<char>)| earlier@.contains(x) ==> #[trigger] self@.contains(x)
    }

    /// Creates an empty error logger
    pub fn new() -> (r: ErrorLogger)
        ensures
            r@ == Seq::<(Location, Seq<char>)>::empty(),
            r.wf(),
    {
        ErrorLogger { errors: Vec::new() }
    }

    /// Returns a copy of the logged errors, in the order they were added
    pub fn get_errors(&self) -> (r: Vec<ParseError>)
        ensures
            r@.map_values(|e: ParseError| error_view(e)) == self@,
    {
        let mut out: Vec<ParseError> = Vec::new();
        let mut i: usize = 0;
        while i < self.errors.len()
            invariant
                i <= self.errors.len(),
                out@.len() == i,
                forall|k: int| 0 <= k < i ==> error_view(#[trigger] out@[k]) == self@[k],
            decreases self.errors.len() - i,
        {
            let e = &self.errors[i];
            let copy = ParseError { message: e.message.clone(), location: e.location };
            out.push(copy);
            i = i + 1;
        }
        assert(out@.map_values(|e: ParseError| error_view(e)) =~= self@);
        out
    }

    /// Number of logged errors
    pub fn len(&self) -> (r: usize)
        ensures
            r == self@.len(),
    {
        self.errors.len()
    }

    /// Adds an error, unless the same message is already logged at the same location
    pub fn add_error(&mut self, location: Location, message: &str)
        requires
            old(self).wf(),
        ensures
            final(self).wf(),
            final(self)@.contains((location, message@)),
            final(self).grows_from(*old(self)),
            old(self)@.contains((location, message@)) ==> final(self)@ == old(self)@,
            !old(self)@.contains((location, message@)) ==> final(self)@ == old(self)@.push(
                (location, message@),
            ),
    {
        let msg = message.to_owned();
        let mut i: usize = 0;
        while i < self.errors.len()
            invariant
                i <= self.errors.len(),
                msg@ == message@,
                *self == *old(self),
                self.wf(),
                forall|k: int| 0 <= k < i ==> self@[k] != (location, message@),
            decreases self.errors.len() - i,
        {
            let e = &self.errors[i];
            if e.location == location && e.message == msg {
                assert(self@[i as int] == (location, message@));
                return;
            }
            i = i + 1;
        }
        assert(!self@.contains((location, message@)));
        self.errors.push(ParseError { message: msg, location });
        assert(self@ =~= old(self)@.push((location, message@)));
        assert(self@[self@.len() - 1] == (location, message@));
        assert forall|x: (Location, Seq<char>)| old(self)@.contains(x) implies #[trigger] self@.contains(x) by {
            let k = choose|k: int| 0 <= k < old(self)@.len() && old(self)@[k] == x;
            assert(self@[k] == x);
        }
    }
}

} // verus!

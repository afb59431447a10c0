//! The DOCTYPE states.
use vstd::prelude::*;
use crate::cursor::to_ascii_lower;
use crate::error_logger::ParserError;
use crate::state::State;
use crate::stream::{Character, CHAR_FF, CHAR_LF, CHAR_NUL, CHAR_REPLACEMENT, CHAR_SPACE, CHAR_TAB};
use crate::token::Token;
use crate::tokenizer::{
    add_public_identifier, add_system_identifier, add_to_token_name, set_public_identifier,
    set_quirks_mode, set_system_identifier, PendingToken, Tokenizer,
};

verus! {

impl Tokenizer {
    pub(crate) fn step_doctype(&mut self)
        requires
            old(self).wf(),
            old(self).token_queue@.len() == 0,
            old(self).state == State::DOCTYPE,
        ensures
            final(self).stepped(*old(self), true),
    {
        let loc = self.cursor.location();
        let c = self.cursor.read(&mut self.error_logger);
        match c {
            Character::Ch(CHAR_TAB) | Character::Ch(CHAR_LF) | Character::Ch(CHAR_FF) | Character::Ch(CHAR_SPACE) => {
                self.state = State::BeforeDOCTYPEName;
            },
            Character::Ch('>') => {
                self.cursor.unread();
                self.state = State::BeforeDOCTYPEName;
            },
            Character::StreamEnd => {
                self.error_logger.add_error(loc, ParserError::EofInDoctype.as_str());
                let end = self.cursor.location();
                self.emit_token(Token::DocType {
                    name: None,
                    force_quirks: true,
                    pub_identifier: None,
                    sys_identifier: None,
                    location: end,
                });
                self.state = State::Data;
            },
            _ => {
                self.error_logger.add_error(loc, ParserError::MissingWhitespaceBeforeDoctypeName.as_str());
                self.cursor.unread();
                self.state = State::BeforeDOCTYPEName;
            },
        }
    }

    pub(crate) fn step_before_doctype_name(&mut self)
        requires
            old(self).wf(),
            old(self).token_queue@.len() == 0,
            old(self).state == State::BeforeDOCTYPEName,
        ensures
            final(self).stepped(*old(self), true),
    {
        let loc = self.cursor.location();
        let c = self.cursor.read(&mut self.error_logger);
        match c {
            Character::Ch(CHAR_TAB) | Character::Ch(CHAR_LF) | Character::Ch(CHAR_FF) | Character::Ch(CHAR_SPACE) => {},
            Character::Ch(CHAR_NUL) => {
                self.error_logger.add_error(loc, ParserError::UnexpectedNullCharacter.as_str());
                let mut name = Vec::new();
                name.push(CHAR_REPLACEMENT);
                self.current_token = Some(PendingToken::DocType {
                    name: Some(name),
                    force_quirks: false,
                    pub_identifier: None,
                    sys_identifier: None,
                    location: self.last_token_location,
                });
                self.state = State::DOCTYPEName;
            },
            Character::Ch('>') => {
                self.error_logger.add_error(loc, ParserError::MissingDoctypeName.as_str());
                self.emit_token(Token::DocType {
                    name: None,
                    force_quirks: true,
                    pub_identifier: None,
                    sys_identifier: None,
                    location: self.last_token_location,
                });
                self.state = State::Data;
            },
            Character::StreamEnd => {
                self.error_logger.add_error(loc, ParserError::EofInDoctype.as_str());
                self.emit_token(Token::DocType {
                    name: None,
                    force_quirks: true,
                    pub_identifier: None,
                    sys_identifier: None,
                    location: self.last_token_location,
                });
                self.state = State::Data;
            },
            Character::Ch(ch) => {
                let mut name = Vec::new();
                name.push(to_ascii_lower(ch));
                self.current_token = Some(PendingToken::DocType {
                    name: Some(name),
                    force_quirks: false,
                    pub_identifier: None,
                    sys_identifier: None,
                    location: self.last_token_location,
                });
                self.state = State::DOCTYPEName;
            },
            Character::Surrogate(_) => {},
        }
    }

    pub(crate) fn step_doctype_name(&mut self)
        requires
            old(self).wf(),
            old(self).token_queue@.len() == 0,
            old(self).state == State::DOCTYPEName,
        ensures
            final(self).stepped(*old(self), true),
    {
        let loc = self.cursor.location();
        let c = self.cursor.read(&mut self.error_logger);
        match c {
            Character::Ch(CHAR_TAB) | Character::Ch(CHAR_LF) | Character::Ch(CHAR_FF) | Character::Ch(CHAR_SPACE) => {
                self.state = State::AfterDOCTYPEName;
            },
            Character::Ch('>') => {
                self.emit_current_token();
                self.state = State::Data;
            },
            Character::Ch(CHAR_NUL) => {
                self.error_logger.add_error(loc, ParserError::UnexpectedNullCharacter.as_str());
                add_to_token_name(&mut self.current_token, CHAR_REPLACEMENT);
            },
            Character::StreamEnd => {
                self.error_logger.add_error(loc, ParserError::EofInDoctype.as_str());
                set_quirks_mode(&mut self.current_token);
                self.emit_current_token();
                self.state = State::Data;
            },
            Character::Ch(ch) => add_to_token_name(&mut self.current_token, to_ascii_lower(ch)),
            Character::Surrogate(_) => {},
        }
    }

    pub(crate) fn step_after_doctype_name(&mut self)
        requires
            old(self).wf(),
            old(self).token_queue@.len() == 0,
            old(self).state == State::AfterDOCTYPEName,
        ensures
            final(self).stepped(*old(self), true),
    {
        let loc = self.cursor.location();
        let c = self.cursor.read(&mut self.error_logger);
        match c {
            Character::Ch(CHAR_TAB) | Character::Ch(CHAR_LF) | Character::Ch(CHAR_FF) | Character::Ch(CHAR_SPACE) => {},
            Character::Ch('>') => {
                self.emit_current_token();
                self.state = State::Data;
            },
            Character::StreamEnd => {
                self.error_logger.add_error(loc, ParserError::EofInDoctype.as_str());
                set_quirks_mode(&mut self.current_token);
                self.emit_current_token();
                self.state = State::Data;
            },
            _ => {
                self.cursor.unread();
                let public = vec!['P', 'U', 'B', 'L', 'I', 'C'];
                if self.cursor.lookahead(&public, true) {
                    self.cursor.skip(6);
                    self.state = State::AfterDOCTYPEPublicKeyword;
                    return;
                }
                let system = vec!['S', 'Y', 'S', 'T', 'E', 'M'];
                if self.cursor.lookahead(&system, true) {
                    self.cursor.skip(6);
                    self.state = State::AfterDOCTYPESystemKeyword;
                    return;
                }
                let at = self.cursor.location();
                self.error_logger.add_error(at, ParserError::InvalidCharacterSequenceAfterDoctypeName.as_str());
                set_quirks_mode(&mut self.current_token);
                self.state = State::BogusDOCTYPE;
            },
        }
    }

    pub(crate) fn step_after_doctype_keyword(&mut self)
        requires
            old(self).wf(),
            old(self).token_queue@.len() == 0,
            old(self).state == State::AfterDOCTYPEPublicKeyword || old(self).state == State::AfterDOCTYPESystemKeyword,
        ensures
            final(self).stepped(*old(self), true),
    {
        let public = self.state == State::AfterDOCTYPEPublicKeyword;
        let loc = self.cursor.location();
        let c = self.cursor.read(&mut self.error_logger);
        match c {
            Character::Ch(CHAR_TAB) | Character::Ch(CHAR_LF) | Character::Ch(CHAR_FF) | Character::Ch(CHAR_SPACE) => {
                self.state = if public {
                    State::BeforeDOCTYPEPublicIdentifier
                } else {
                    State::BeforeDOCTYPESystemIdentifier
                };
            },
            Character::Ch('"') | Character::Ch('\'') => {
                let double = c == Character::Ch('"');
                if public {
                    self.error_logger.add_error(loc, ParserError::MissingWhitespaceAfterDoctypePublicKeyword.as_str());
                    set_public_identifier(&mut self.current_token);
                    self.state = if double {
                        State::DOCTYPEPublicIdentifierDoubleQuoted
                    } else {
                        State::DOCTYPEPublicIdentifierSingleQuoted
                    };
                } else {
                    self.error_logger.add_error(loc, ParserError::MissingWhitespaceAfterDoctypeSystemKeyword.as_str());
                    set_system_identifier(&mut self.current_token);
                    self.state = if double {
                        State::DOCTYPESystemIdentifierDoubleQuoted
                    } else {
                        State::DOCTYPESystemIdentifierSingleQuoted
                    };
                }
            },
            Character::Ch('>') => {
                let e = if public {
                    ParserError::MissingDoctypePublicIdentifier
                } else {
                    ParserError::MissingDoctypeSystemIdentifier
                };
                self.error_logger.add_error(loc, e.as_str());
                set_quirks_mode(&mut self.current_token);
                self.emit_current_token();
                self.state = State::Data;
            },
            Character::StreamEnd => {
                self.error_logger.add_error(loc, ParserError::EofInDoctype.as_str());
                set_quirks_mode(&mut self.current_token);
                self.emit_current_token();
                self.state = State::Data;
            },
            _ => {
                let e = if public {
                    ParserError::MissingQuoteBeforeDoctypePublicIdentifier
                } else {
                    ParserError::MissingQuoteBeforeDoctypeSystemIdentifier
                };
                self.error_logger.add_error(loc, e.as_str());
                self.cursor.unread();
                set_quirks_mode(&mut self.current_token);
                self.state = State::BogusDOCTYPE;
            },
        }
    }

    pub(crate) fn step_before_doctype_identifier(&mut self)
        requires
            old(self).wf(),
            old(self).token_queue@.len() == 0,
            old(self).state == State::BeforeDOCTYPEPublicIdentifier || old(self).state == State::BeforeDOCTYPESystemIdentifier,
        ensures
            final(self).stepped(*old(self), true),
    {
        let public = self.state == State::BeforeDOCTYPEPublicIdentifier;
        let loc = self.cursor.location();
        let c = self.cursor.read(&mut self.error_logger);
        match c {
            Character::Ch(CHAR_TAB) | Character::Ch(CHAR_LF) | Character::Ch(CHAR_FF) | Character::Ch(CHAR_SPACE) => {},
            Character::Ch('"') | Character::Ch('\'') => {
                let double = c == Character::Ch('"');
                if public {
                    set_public_identifier(&mut self.current_token);
                    self.state = if double {
                        State::DOCTYPEPublicIdentifierDoubleQuoted
                    } else {
                        State::DOCTYPEPublicIdentifierSingleQuoted
                    };
                } else {
                    set_system_identifier(&mut self.current_token);
                    self.state = if double {
                        State::DOCTYPESystemIdentifierDoubleQuoted
                    } else {
                        State::DOCTYPESystemIdentifierSingleQuoted
                    };
                }
            },
            Character::Ch('>') => {
                let e = if public {
                    ParserError::MissingDoctypePublicIdentifier
                } else {
                    ParserError::MissingDoctypeSystemIdentifier
                };
                self.error_logger.add_error(loc, e.as_str());
                set_quirks_mode(&mut self.current_token);
                self.emit_current_token();
                self.state = State::Data;
            },
            Character::StreamEnd => {
                self.error_logger.add_error(loc, ParserError::EofInDoctype.as_str());
                set_quirks_mode(&mut self.current_token);
                self.emit_current_token();
                self.state = State::Data;
            },
            _ => {
                let e = if public {
                    ParserError::MissingQuoteBeforeDoctypePublicIdentifier
                } else {
                    ParserError::MissingQuoteBeforeDoctypeSystemIdentifier
                };
                self.cursor.unread();
                self.error_logger.add_error(loc, e.as_str());
                set_quirks_mode(&mut self.current_token);
                self.state = State::BogusDOCTYPE;
            },
        }
    }

    pub(crate) fn step_doctype_identifier_quoted(&mut self)
        requires
            old(self).wf(),
            old(self).token_queue@.len() == 0,
            old(self).state == State::DOCTYPEPublicIdentifierDoubleQuoted || old(self).state == State::DOCTYPEPublicIdentifierSingleQuoted || old(self).state == State::DOCTYPESystemIdentifierDoubleQuoted || old(self).state == State::DOCTYPESystemIdentifierSingleQuoted,
        ensures
            final(self).stepped(*old(self), true),
    {
        let public = self.state == State::DOCTYPEPublicIdentifierDoubleQuoted || self.state
            == State::DOCTYPEPublicIdentifierSingleQuoted;
        let quote = if self.state == State::DOCTYPEPublicIdentifierDoubleQuoted || self.state
            == State::DOCTYPESystemIdentifierDoubleQuoted {
            '"'
        } else {
            '\''
        };
        let loc = self.cursor.location();
        let c = self.cursor.read(&mut self.error_logger);
        match c {
            Character::Ch(ch) if ch == quote => {
                self.state = if public {
                    State::AfterDOCTYPEPublicIdentifier
                } else {
                    State::AfterDOCTYPESystemIdentifier
                };
            },
            Character::Ch(CHAR_NUL) => {
                self.error_logger.add_error(loc, ParserError::UnexpectedNullCharacter.as_str());
                if public {
                    add_public_identifier(&mut self.current_token, CHAR_REPLACEMENT);
                } else {
                    add_system_identifier(&mut self.current_token, CHAR_REPLACEMENT);
                }
            },
            Character::Ch('>') => {
                let e = if public {
                    ParserError::AbruptDoctypePublicIdentifier
                } else {
                    ParserError::AbruptDoctypeSystemIdentifier
                };
                self.error_logger.add_error(loc, e.as_str());
                set_quirks_mode(&mut self.current_token);
                self.emit_current_token();
                self.state = State::Data;
            },
            Character::StreamEnd => {
                self.error_logger.add_error(loc, ParserError::EofInDoctype.as_str());
                set_quirks_mode(&mut self.current_token);
                self.emit_current_token();
                self.state = State::Data;
            },
            Character::Ch(ch) => {
                if public {
                    add_public_identifier(&mut self.current_token, ch);
                } else {
                    add_system_identifier(&mut self.current_token, ch);
                }
            },
            Character::Surrogate(_) => {},
        }
    }

    pub(crate) fn step_after_doctype_public_identifier(&mut self)
        requires
            old(self).wf(),
            old(self).token_queue@.len() == 0,
            old(self).state == State::AfterDOCTYPEPublicIdentifier || old(self).state == State::BetweenDOCTYPEPublicAndSystemIdentifiers,
        ensures
            final(self).stepped(*old(self), true),
    {
        let after = self.state == State::AfterDOCTYPEPublicIdentifier;
        let loc = self.cursor.location();
        let c = self.cursor.read(&mut self.error_logger);
        match c {
            Character::Ch(CHAR_TAB) | Character::Ch(CHAR_LF) | Character::Ch(CHAR_FF) | Character::Ch(CHAR_SPACE) => {
                self.state = State::BetweenDOCTYPEPublicAndSystemIdentifiers;
            },
            Character::Ch('>') => {
                self.emit_current_token();
                self.state = State::Data;
            },
            Character::Ch('"') | Character::Ch('\'') => {
                if after {
                    self.error_logger.add_error(loc, ParserError::MissingWhitespaceBetweenDoctypePublicAndSystemIdentifiers.as_str());
                }
                set_system_identifier(&mut self.current_token);
                self.state = if c == Character::Ch('"') {
                    State::DOCTYPESystemIdentifierDoubleQuoted
                } else {
                    State::DOCTYPESystemIdentifierSingleQuoted
                };
            },
            Character::StreamEnd => {
                self.error_logger.add_error(loc, ParserError::EofInDoctype.as_str());
                set_quirks_mode(&mut self.current_token);
                self.emit_current_token();
                self.state = State::Data;
            },
            _ => {
                self.error_logger.add_error(loc, ParserError::MissingQuoteBeforeDoctypeSystemIdentifier.as_str());
                self.cursor.unread();
                set_quirks_mode(&mut self.current_token);
                self.state = State::BogusDOCTYPE;
            },
        }
    }

    pub(crate) fn step_after_doctype_system_identifier(&mut self)
        requires
            old(self).wf(),
            old(self).token_queue@.len() == 0,
            old(self).state == State::AfterDOCTYPESystemIdentifier,
        ensures
            final(self).stepped(*old(self), true),
    {
        let loc = self.cursor.location();
        let c = self.cursor.read(&mut self.error_logger);
        match c {
            Character::Ch(CHAR_TAB) | Character::Ch(CHAR_LF) | Character::Ch(CHAR_FF) | Character::Ch(CHAR_SPACE) => {},
            Character::Ch('>') => {
                self.emit_current_token();
                self.state = State::Data;
            },
            Character::StreamEnd => {
                self.error_logger.add_error(loc, ParserError::EofInDoctype.as_str());
                set_quirks_mode(&mut self.current_token);
                self.emit_current_token();
                self.state = State::Data;
            },
            _ => {
                self.error_logger.add_error(loc, ParserError::UnexpectedCharacterAfterDoctypeSystemIdentifier.as_str());
                self.cursor.unread();
                self.state = State::BogusDOCTYPE;
            },
        }
    }

    pub(crate) fn step_bogus_doctype(&mut self)
        requires
            old(self).wf(),
            old(self).token_queue@.len() == 0,
            old(self).state == State::BogusDOCTYPE,
        ensures
            final(self).stepped(*old(self), true),
    {
        let loc = self.cursor.location();
        let c = self.cursor.read(&mut self.error_logger);
        match c {
            Character::Ch('>') | Character::StreamEnd => {
                self.emit_current_token();
                self.state = State::Data;
            },
            Character::Ch(CHAR_NUL) => {
                self.error_logger.add_error(loc, ParserError::UnexpectedNullCharacter.as_str());
            },
            _ => {},
        }
    }
}

} // verus!

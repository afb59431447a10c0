//! The character-data states: data, RCDATA, RAWTEXT, script data with its escapes,
//! PLAINTEXT and CDATA sections, with the end-tag states that leave them.
use vstd::prelude::*;
use crate::char_ref::consume_character_reference;
use crate::cursor::to_ascii_lower;
use crate::error_logger::ParserError;
use crate::state::State;
use crate::stream::{Character, CHAR_FF, CHAR_LF, CHAR_NUL, CHAR_REPLACEMENT, CHAR_SPACE, CHAR_TAB};
use crate::token::Token;
use crate::tokenizer::{
    add_to_token_name, alpha, buffer_is_script, flush_end_tag_attempt, ws, PendingToken,
    Tokenizer,
};

verus! {

impl Tokenizer {
    pub(crate) fn step_data(&mut self)
        requires
            old(self).wf(),
            old(self).token_queue@.len() == 0,
            old(self).state == State::Data,
        ensures
            final(self).stepped(*old(self), true),
    {
        let loc = self.cursor.location();
        let c = self.cursor.read(&mut self.error_logger);
        match c {
            Character::Ch('&') => self.state = State::CharacterReferenceInData,
            Character::Ch('<') => {
                self.last_token_location = loc;
                self.state = State::TagOpen;
            },
            Character::Ch(CHAR_NUL) => {
                self.consumed.push(CHAR_NUL);
                self.error_logger.add_error(loc, ParserError::UnexpectedNullCharacter.as_str());
            },
            Character::StreamEnd => {
                let end = self.cursor.location();
                self.emit_token(Token::Eof { location: end });
            },
            Character::Ch(ch) => self.consumed.push(ch),
            Character::Surrogate(_) => {},
        }
    }

    pub(crate) fn step_character_reference_in_data(&mut self)
        requires
            old(self).wf(),
            old(self).token_queue@.len() == 0,
            old(self).state == State::CharacterReferenceInData,
        ensures
            final(self).stepped(*old(self), true),
    {
        consume_character_reference(&mut self.cursor, &mut self.error_logger, &mut self.consumed, None, false);
        self.state = State::Data;
    }

    pub(crate) fn step_rcdata(&mut self)
        requires
            old(self).wf(),
            old(self).token_queue@.len() == 0,
            old(self).state == State::RCDATA,
        ensures
            final(self).stepped(*old(self), true),
    {
        let loc = self.cursor.location();
        let c = self.cursor.read(&mut self.error_logger);
        match c {
            Character::Ch('&') => self.state = State::CharacterReferenceInRcData,
            Character::Ch('<') => self.state = State::RCDATALessThanSign,
            Character::StreamEnd => {
                let end = self.cursor.location();
                self.emit_token(Token::Eof { location: end });
            },
            Character::Ch(CHAR_NUL) => {
                self.consumed.push(CHAR_REPLACEMENT);
                self.error_logger.add_error(loc, ParserError::UnexpectedNullCharacter.as_str());
            },
            Character::Ch(ch) => self.consumed.push(ch),
            Character::Surrogate(_) => {},
        }
    }

    pub(crate) fn step_character_reference_in_rcdata(&mut self)
        requires
            old(self).wf(),
            old(self).token_queue@.len() == 0,
            old(self).state == State::CharacterReferenceInRcData,
        ensures
            final(self).stepped(*old(self), true),
    {
        consume_character_reference(&mut self.cursor, &mut self.error_logger, &mut self.consumed, None, false);
        self.state = State::RCDATA;
    }

    pub(crate) fn step_rawtext(&mut self)
        requires
            old(self).wf(),
            old(self).token_queue@.len() == 0,
            old(self).state == State::RAWTEXT,
        ensures
            final(self).stepped(*old(self), true),
    {
        let loc = self.cursor.location();
        let c = self.cursor.read(&mut self.error_logger);
        match c {
            Character::Ch('<') => self.state = State::RAWTEXTLessThanSign,
            Character::Ch(CHAR_NUL) => {
                self.consumed.push(CHAR_REPLACEMENT);
                self.error_logger.add_error(loc, ParserError::UnexpectedNullCharacter.as_str());
            },
            Character::StreamEnd => {
                let end = self.cursor.location();
                self.emit_token(Token::Eof { location: end });
            },
            Character::Ch(ch) => self.consumed.push(ch),
            Character::Surrogate(_) => {},
        }
    }

    pub(crate) fn step_script_data(&mut self)
        requires
            old(self).wf(),
            old(self).token_queue@.len() == 0,
            old(self).state == State::ScriptData,
        ensures
            final(self).stepped(*old(self), true),
    {
        let loc = self.cursor.location();
        let c = self.cursor.read(&mut self.error_logger);
        match c {
            Character::Ch('<') => self.state = State::ScriptDataLessThanSign,
            Character::Ch(CHAR_NUL) => {
                self.error_logger.add_error(loc, ParserError::UnexpectedNullCharacter.as_str());
                self.consumed.push(CHAR_REPLACEMENT);
            },
            Character::StreamEnd => {
                let end = self.cursor.location();
                self.emit_token(Token::Eof { location: end });
            },
            Character::Ch(ch) => self.consumed.push(ch),
            Character::Surrogate(_) => {},
        }
    }

    pub(crate) fn step_plaintext(&mut self)
        requires
            old(self).wf(),
            old(self).token_queue@.len() == 0,
            old(self).state == State::PLAINTEXT,
        ensures
            final(self).stepped(*old(self), true),
    {
        let loc = self.cursor.location();
        let c = self.cursor.read(&mut self.error_logger);
        match c {
            Character::Ch(CHAR_NUL) => {
                self.error_logger.add_error(loc, ParserError::UnexpectedNullCharacter.as_str());
                self.consumed.push(CHAR_REPLACEMENT);
            },
            Character::StreamEnd => {
                let end = self.cursor.location();
                self.emit_token(Token::Eof { location: end });
            },
            Character::Ch(ch) => self.consumed.push(ch),
            Character::Surrogate(_) => {},
        }
    }

    pub(crate) fn step_rcdata_less_than_sign(&mut self)
        requires
            old(self).wf(),
            old(self).token_queue@.len() == 0,
            old(self).state == State::RCDATALessThanSign,
        ensures
            final(self).stepped(*old(self), true),
    {
        let c = self.cursor.read(&mut self.error_logger);
        if c == Character::Ch('/') {
            self.temporary_buffer = Vec::new();
            self.state = State::RCDATAEndTagOpen;
        } else {
            self.consumed.push('<');
            self.cursor.unread();
            self.state = State::RCDATA;
        }
    }

    pub(crate) fn step_rcdata_end_tag_open(&mut self)
        requires
            old(self).wf(),
            old(self).token_queue@.len() == 0,
            old(self).state == State::RCDATAEndTagOpen,
        ensures
            final(self).stepped(*old(self), true),
    {
        let c = self.cursor.read(&mut self.error_logger);
        match c {
            Character::Ch(ch) if alpha(ch) => {
                self.current_token = Some(PendingToken::EndTag {
                    name: Vec::new(),
                    is_self_closing: false,
                    location: self.last_token_location,
                });
                self.current_attrs = Vec::new();
                self.cursor.unread();
                self.state = State::RCDATAEndTagName;
            },
            _ => {
                self.consumed.push('<');
                self.consumed.push('/');
                self.cursor.unread();
                self.state = State::RCDATA;
            },
        }
    }

    pub(crate) fn step_rawtext_less_than_sign(&mut self)
        requires
            old(self).wf(),
            old(self).token_queue@.len() == 0,
            old(self).state == State::RAWTEXTLessThanSign,
        ensures
            final(self).stepped(*old(self), true),
    {
        let c = self.cursor.read(&mut self.error_logger);
        if c == Character::Ch('/') {
            self.temporary_buffer = Vec::new();
            self.state = State::RAWTEXTEndTagOpen;
        } else {
            self.consumed.push('<');
            self.cursor.unread();
            self.state = State::RAWTEXT;
        }
    }

    pub(crate) fn step_rawtext_end_tag_open(&mut self)
        requires
            old(self).wf(),
            old(self).token_queue@.len() == 0,
            old(self).state == State::RAWTEXTEndTagOpen,
        ensures
            final(self).stepped(*old(self), true),
    {
        let c = self.cursor.read(&mut self.error_logger);
        match c {
            Character::Ch(ch) if alpha(ch) => {
                self.current_token = Some(PendingToken::EndTag {
                    name: Vec::new(),
                    is_self_closing: false,
                    location: self.last_token_location,
                });
                self.current_attrs = Vec::new();
                self.cursor.unread();
                self.state = State::RAWTEXTEndTagName;
            },
            _ => {
                self.consumed.push('<');
                self.consumed.push('/');
                self.cursor.unread();
                self.state = State::RAWTEXT;
            },
        }
    }

    pub(crate) fn step_script_data_less_than_sign(&mut self)
        requires
            old(self).wf(),
            old(self).token_queue@.len() == 0,
            old(self).state == State::ScriptDataLessThanSign,
        ensures
            final(self).stepped(*old(self), true),
    {
        let c = self.cursor.read(&mut self.error_logger);
        match c {
            Character::Ch('/') => {
                self.temporary_buffer = Vec::new();
                self.state = State::ScriptDataEndTagOpen;
            },
            Character::Ch('!') => {
                self.consumed.push('<');
                self.consumed.push('!');
                self.state = State::ScriptDataEscapeStart;
            },
            _ => {
                self.consumed.push('<');
                self.cursor.unread();
                self.state = State::ScriptData;
            },
        }
    }

    pub(crate) fn step_script_data_end_tag_open(&mut self)
        requires
            old(self).wf(),
            old(self).token_queue@.len() == 0,
            old(self).state == State::ScriptDataEndTagOpen,
        ensures
            final(self).stepped(*old(self), true),
    {
        let c = self.cursor.read(&mut self.error_logger);
        match c {
            Character::Ch(ch) if alpha(ch) => {
                let mut name = Vec::new();
                name.push(to_ascii_lower(ch));
                self.current_token = Some(PendingToken::EndTag {
                    name,
                    is_self_closing: false,
                    location: self.last_token_location,
                });
                self.current_attrs = Vec::new();
                self.temporary_buffer.push(ch);
                self.state = State::ScriptDataEndTagName;
            },
            _ => {
                self.consumed.push('<');
                self.consumed.push('/');
                self.cursor.unread();
                self.state = State::ScriptData;
            },
        }
    }

    pub(crate) fn step_script_data_escape_start(&mut self)
        requires
            old(self).wf(),
            old(self).token_queue@.len() == 0,
            old(self).state == State::ScriptDataEscapeStart,
        ensures
            final(self).stepped(*old(self), true),
    {
        let c = self.cursor.read(&mut self.error_logger);
        if c == Character::Ch('-') {
            self.consumed.push('-');
            self.state = State::ScriptDataEscapeStartDash;
        } else {
            self.cursor.unread();
            self.state = State::ScriptData;
        }
    }

    pub(crate) fn step_script_data_escape_start_dash(&mut self)
        requires
            old(self).wf(),
            old(self).token_queue@.len() == 0,
            old(self).state == State::ScriptDataEscapeStartDash,
        ensures
            final(self).stepped(*old(self), true),
    {
        let c = self.cursor.read(&mut self.error_logger);
        if c == Character::Ch('-') {
            self.consumed.push('-');
            self.state = State::ScriptDataEscapedDashDash;
        } else {
            self.cursor.unread();
            self.state = State::ScriptData;
        }
    }

    pub(crate) fn step_script_data_escaped(&mut self)
        requires
            old(self).wf(),
            old(self).token_queue@.len() == 0,
            old(self).state == State::ScriptDataEscaped,
        ensures
            final(self).stepped(*old(self), true),
    {
        let loc = self.cursor.location();
        let c = self.cursor.read(&mut self.error_logger);
        match c {
            Character::Ch('-') => {
                self.consumed.push('-');
                self.state = State::ScriptDataEscapedDash;
            },
            Character::Ch('<') => self.state = State::ScriptDataEscapedLessThanSign,
            Character::Ch(CHAR_NUL) => {
                self.error_logger.add_error(loc, ParserError::UnexpectedNullCharacter.as_str());
                self.consumed.push(CHAR_REPLACEMENT);
            },
            Character::StreamEnd => {
                self.error_logger.add_error(loc, ParserError::EofInScriptHtmlCommentLikeText.as_str());
                self.state = State::Data;
            },
            Character::Ch(ch) => self.consumed.push(ch),
            Character::Surrogate(_) => {},
        }
    }

    pub(crate) fn step_script_data_escaped_dash(&mut self)
        requires
            old(self).wf(),
            old(self).token_queue@.len() == 0,
            old(self).state == State::ScriptDataEscapedDash,
        ensures
            final(self).stepped(*old(self), true),
    {
        let loc = self.cursor.location();
        let c = self.cursor.read(&mut self.error_logger);
        match c {
            Character::Ch('-') => {
                self.consumed.push('-');
                self.state = State::ScriptDataEscapedDashDash;
            },
            Character::Ch('<') => self.state = State::ScriptDataEscapedLessThanSign,
            Character::Ch(CHAR_NUL) => {
                self.error_logger.add_error(loc, ParserError::UnexpectedNullCharacter.as_str());
                self.consumed.push(CHAR_REPLACEMENT);
                self.state = State::ScriptDataEscaped;
            },
            Character::StreamEnd => {
                self.error_logger.add_error(loc, ParserError::EofInScriptHtmlCommentLikeText.as_str());
                self.state = State::Data;
            },
            Character::Ch(ch) => {
                self.consumed.push(ch);
                self.state = State::ScriptDataEscaped;
            },
            Character::Surrogate(_) => {},
        }
    }

    pub(crate) fn step_script_data_escaped_dash_dash(&mut self)
        requires
            old(self).wf(),
            old(self).token_queue@.len() == 0,
            old(self).state == State::ScriptDataEscapedDashDash,
        ensures
            final(self).stepped(*old(self), true),
    {
        let loc = self.cursor.location();
        let c = self.cursor.read(&mut self.error_logger);
        match c {
            Character::Ch('-') => self.consumed.push('-'),
            Character::Ch('<') => self.state = State::ScriptDataEscapedLessThanSign,
            Character::Ch('>') => {
                self.consumed.push('>');
                self.state = State::ScriptData;
            },
            Character::Ch(CHAR_NUL) => {
                self.error_logger.add_error(loc, ParserError::UnexpectedNullCharacter.as_str());
                self.consumed.push(CHAR_REPLACEMENT);
                self.state = State::ScriptDataEscaped;
            },
            Character::StreamEnd => {
                self.error_logger.add_error(loc, ParserError::EofInScriptHtmlCommentLikeText.as_str());
                self.state = State::Data;
            },
            Character::Ch(ch) => {
                self.consumed.push(ch);
                self.state = State::ScriptDataEscaped;
            },
            Character::Surrogate(_) => {},
        }
    }

    pub(crate) fn step_script_data_escaped_less_than_sign(&mut self)
        requires
            old(self).wf(),
            old(self).token_queue@.len() == 0,
            old(self).state == State::ScriptDataEscapedLessThanSign,
        ensures
            final(self).stepped(*old(self), true),
    {
        let c = self.cursor.read(&mut self.error_logger);
        match c {
            Character::Ch('/') => {
                self.temporary_buffer = Vec::new();
                self.state = State::ScriptDataEscapedEndTagOpen;
            },
            Character::Ch(ch) if alpha(ch) => {
                self.temporary_buffer = Vec::new();
                self.consumed.push('<');
                self.cursor.unread();
                self.state = State::ScriptDataDoubleEscapeStart;
            },
            _ => {
                self.consumed.push('<');
                self.cursor.unread();
                self.state = State::ScriptDataEscaped;
            },
        }
    }

    pub(crate) fn step_script_data_escaped_end_tag_open(&mut self)
        requires
            old(self).wf(),
            old(self).token_queue@.len() == 0,
            old(self).state == State::ScriptDataEscapedEndTagOpen,
        ensures
            final(self).stepped(*old(self), true),
    {
        let c = self.cursor.read(&mut self.error_logger);
        match c {
            Character::Ch(ch) if alpha(ch) => {
                self.current_token = Some(PendingToken::EndTag {
                    name: Vec::new(),
                    is_self_closing: false,
                    location: self.last_token_location,
                });
                self.current_attrs = Vec::new();
                self.cursor.unread();
                self.state = State::ScriptDataEscapedEndTagName;
            },
            _ => {
                self.consumed.push('<');
                self.consumed.push('/');
                self.cursor.unread();
                self.state = State::ScriptDataEscaped;
            },
        }
    }

    pub(crate) fn step_script_data_double_escape_start(&mut self)
        requires
            old(self).wf(),
            old(self).token_queue@.len() == 0,
            old(self).state == State::ScriptDataDoubleEscapeStart,
        ensures
            final(self).stepped(*old(self), true),
    {
        let c = self.cursor.read(&mut self.error_logger);
        match c {
            Character::Ch(ch) if ws(c) || ch == '/' || ch == '>' => {
                if buffer_is_script(&self.temporary_buffer) {
                    self.state = State::ScriptDataDoubleEscaped;
                } else {
                    self.state = State::ScriptDataEscaped;
                }
                self.consumed.push(ch);
            },
            Character::Ch(ch) if alpha(ch) => {
                self.temporary_buffer.push(to_ascii_lower(ch));
                self.consumed.push(ch);
            },
            _ => {
                self.cursor.unread();
                self.state = State::ScriptDataEscaped;
            },
        }
    }

    pub(crate) fn step_script_data_double_escaped(&mut self)
        requires
            old(self).wf(),
            old(self).token_queue@.len() == 0,
            old(self).state == State::ScriptDataDoubleEscaped,
        ensures
            final(self).stepped(*old(self), true),
    {
        let loc = self.cursor.location();
        let c = self.cursor.read(&mut self.error_logger);
        match c {
            Character::Ch('-') => {
                self.consumed.push('-');
                self.state = State::ScriptDataDoubleEscapedDash;
            },
            Character::Ch('<') => {
                self.consumed.push('<');
                self.state = State::ScriptDataDoubleEscapedLessThanSign;
            },
            Character::Ch(CHAR_NUL) => {
                self.error_logger.add_error(loc, ParserError::UnexpectedNullCharacter.as_str());
                self.consumed.push(CHAR_REPLACEMENT);
            },
            Character::StreamEnd => {
                self.error_logger.add_error(loc, ParserError::EofInScriptHtmlCommentLikeText.as_str());
                self.state = State::Data;
            },
            Character::Ch(ch) => self.consumed.push(ch),
            Character::Surrogate(_) => {},
        }
    }

    pub(crate) fn step_script_data_double_escaped_dash(&mut self)
        requires
            old(self).wf(),
            old(self).token_queue@.len() == 0,
            old(self).state == State::ScriptDataDoubleEscapedDash,
        ensures
            final(self).stepped(*old(self), true),
    {
        let loc = self.cursor.location();
        let c = self.cursor.read(&mut self.error_logger);
        match c {
            Character::Ch('-') => {
                self.state = State::ScriptDataDoubleEscapedDashDash;
                self.consumed.push('-');
            },
            Character::Ch('<') => {
                self.state = State::ScriptDataDoubleEscapedLessThanSign;
                self.consumed.push('<');
            },
            Character::Ch(CHAR_NUL) => {
                self.error_logger.add_error(loc, ParserError::UnexpectedNullCharacter.as_str());
                self.consumed.push(CHAR_REPLACEMENT);
                self.state = State::ScriptDataDoubleEscaped;
            },
            Character::StreamEnd => {
                self.error_logger.add_error(loc, ParserError::EofInScriptHtmlCommentLikeText.as_str());
                self.state = State::Data;
            },
            Character::Ch(ch) => {
                self.consumed.push(ch);
                self.state = State::ScriptDataDoubleEscaped;
            },
            Character::Surrogate(_) => {},
        }
    }

    pub(crate) fn step_script_data_double_escaped_dash_dash(&mut self)
        requires
            old(self).wf(),
            old(self).token_queue@.len() == 0,
            old(self).state == State::ScriptDataDoubleEscapedDashDash,
        ensures
            final(self).stepped(*old(self), true),
    {
        let loc = self.cursor.location();
        let c = self.cursor.read(&mut self.error_logger);
        match c {
            Character::Ch('-') => self.consumed.push('-'),
            Character::Ch('<') => {
                self.consumed.push('<');
                self.state = State::ScriptDataDoubleEscapedLessThanSign;
            },
            Character::Ch('>') => {
                self.consumed.push('>');
                self.state = State::ScriptData;
            },
            Character::Ch(CHAR_NUL) => {
                self.error_logger.add_error(loc, ParserError::UnexpectedNullCharacter.as_str());
                self.consumed.push(CHAR_REPLACEMENT);
                self.state = State::ScriptDataDoubleEscaped;
            },
            Character::StreamEnd => {
                self.error_logger.add_error(loc, ParserError::EofInScriptHtmlCommentLikeText.as_str());
                self.state = State::Data;
            },
            Character::Ch(ch) => {
                self.consumed.push(ch);
                self.state = State::ScriptDataDoubleEscaped;
            },
            Character::Surrogate(_) => {},
        }
    }

    pub(crate) fn step_script_data_double_escaped_less_than_sign(&mut self)
        requires
            old(self).wf(),
            old(self).token_queue@.len() == 0,
            old(self).state == State::ScriptDataDoubleEscapedLessThanSign,
        ensures
            final(self).stepped(*old(self), true),
    {
        let c = self.cursor.read(&mut self.error_logger);
        if c == Character::Ch('/') {
            self.temporary_buffer = Vec::new();
            self.consumed.push('/');
            self.state = State::ScriptDataDoubleEscapeEnd;
        } else {
            self.cursor.unread();
            self.state = State::ScriptDataDoubleEscaped;
        }
    }

    pub(crate) fn step_script_data_double_escape_end(&mut self)
        requires
            old(self).wf(),
            old(self).token_queue@.len() == 0,
            old(self).state == State::ScriptDataDoubleEscapeEnd,
        ensures
            final(self).stepped(*old(self), true),
    {
        let c = self.cursor.read(&mut self.error_logger);
        match c {
            Character::Ch(ch) if ws(c) || ch == '/' || ch == '>' => {
                if buffer_is_script(&self.temporary_buffer) {
                    self.state = State::ScriptDataEscaped;
                } else {
                    self.state = State::ScriptDataDoubleEscaped;
                }
                self.consumed.push(ch);
            },
            Character::Ch(ch) if alpha(ch) => {
                self.temporary_buffer.push(to_ascii_lower(ch));
                self.consumed.push(ch);
            },
            _ => {
                self.cursor.unread();
                self.state = State::ScriptDataDoubleEscaped;
            },
        }
    }

    pub(crate) fn step_end_tag_name(&mut self)
        requires
            old(self).wf(),
            old(self).token_queue@.len() == 0,
            old(self).state == State::RCDATAEndTagName || old(self).state == State::RAWTEXTEndTagName || old(self).state == State::ScriptDataEndTagName || old(self).state == State::ScriptDataEscapedEndTagName,
        ensures
            final(self).stepped(*old(self), true),
    {
        let base = match self.state {
            State::RCDATAEndTagName => State::RCDATA,
            State::RAWTEXTEndTagName => State::RAWTEXT,
            State::ScriptDataEndTagName => State::ScriptData,
            _ => State::ScriptDataEscaped,
        };
        let c = self.cursor.read(&mut self.error_logger);
        let mut anything_else = false;
        match c {
            Character::Ch(CHAR_TAB) | Character::Ch(CHAR_LF) | Character::Ch(CHAR_FF) | Character::Ch(CHAR_SPACE) => {
                if self.is_appropriate_end_token() {
                    self.state = State::BeforeAttributeName;
                } else {
                    anything_else = true;
                }
            },
            Character::Ch('/') => {
                if self.is_appropriate_end_token() {
                    self.state = State::SelfClosingStart;
                } else {
                    anything_else = true;
                }
            },
            Character::Ch('>') => {
                if self.is_appropriate_end_token() {
                    self.emit_current_token();
                    self.last_start_token = Vec::new();
                    self.state = State::Data;
                } else {
                    anything_else = true;
                }
            },
            Character::Ch(ch) if alpha(ch) => {
                add_to_token_name(&mut self.current_token, to_ascii_lower(ch));
                self.temporary_buffer.push(ch);
            },
            _ => {
                anything_else = true;
            },
        }
        if anything_else {
            self.cursor.unread();
            flush_end_tag_attempt(&mut self.consumed, &mut self.temporary_buffer);
            self.state = base;
        }
    }

    pub(crate) fn step_cdata_section(&mut self)
        requires
            old(self).wf(),
            old(self).token_queue@.len() == 0,
            old(self).state == State::CDATASection,
        ensures
            final(self).stepped(*old(self), true),
    {
        let loc = self.cursor.location();
        let c = self.cursor.read(&mut self.error_logger);
        match c {
            Character::Ch(']') => self.state = State::CDATASectionBracket,
            Character::StreamEnd => {
                self.error_logger.add_error(loc, ParserError::EofInCdata.as_str());
                self.state = State::Data;
            },
            Character::Ch(ch) => self.consumed.push(ch),
            Character::Surrogate(_) => {},
        }
    }

    pub(crate) fn step_cdata_section_bracket(&mut self)
        requires
            old(self).wf(),
            old(self).token_queue@.len() == 0,
            old(self).state == State::CDATASectionBracket,
        ensures
            final(self).stepped(*old(self), true),
    {
        let c = self.cursor.read(&mut self.error_logger);
        if c == Character::Ch(']') {
            self.state = State::CDATASectionEnd;
        } else {
            self.consumed.push(']');
            self.cursor.unread();
            self.state = State::CDATASection;
        }
    }

    pub(crate) fn step_cdata_section_end(&mut self)
        requires
            old(self).wf(),
            old(self).token_queue@.len() == 0,
            old(self).state == State::CDATASectionEnd,
        ensures
            final(self).stepped(*old(self), true),
    {
        let c = self.cursor.read(&mut self.error_logger);
        match c {
            Character::Ch('>') => self.state = State::Data,
            Character::Ch(']') => self.consumed.push(']'),
            Character::StreamEnd => {
                self.consumed.push(']');
                self.consumed.push(']');
                self.state = State::CDATASection;
            },
            Character::Ch(ch) => {
                self.consumed.push(']');
                self.consumed.push(']');
                self.consumed.push(ch);
                self.state = State::CDATASection;
            },
            Character::Surrogate(_) => {},
        }
    }
}

} // verus!

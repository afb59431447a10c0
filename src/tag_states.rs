//! The states that read start and end tags and their attributes.
use vstd::prelude::*;
use crate::char_ref::consume_character_reference;
use crate::cursor::to_ascii_lower;
use crate::error_logger::ParserError;
use crate::state::State;
use crate::stream::{Character, CHAR_FF, CHAR_LF, CHAR_NUL, CHAR_REPLACEMENT, CHAR_SPACE, CHAR_TAB};
use crate::tokenizer::{
    add_stored_attributes_to_current_token, add_to_token_name, alpha, attr_already_exists,
    set_is_closing_in_current_token, store_and_clear_current_attribute, PendingToken,
    Tokenizer,
};

verus! {

impl Tokenizer {
    pub(crate) fn step_tag_open(&mut self)
        requires
            old(self).wf(),
            old(self).token_queue@.len() == 0,
            old(self).state == State::TagOpen,
        ensures
            final(self).stepped(*old(self), true),
    {
        let loc = self.cursor.location();
        let c = self.cursor.read(&mut self.error_logger);
        match c {
            Character::Ch('!') => self.state = State::MarkupDeclarationOpen,
            Character::Ch('/') => self.state = State::EndTagOpen,
            Character::Ch(ch) if alpha(ch) => {
                self.current_token = Some(PendingToken::StartTag {
                    name: Vec::new(),
                    is_self_closing: false,
                    attributes: Vec::new(),
                    location: self.last_token_location,
                });
                self.current_attrs = Vec::new();
                self.cursor.unread();
                self.state = State::TagName;
            },
            Character::Ch('?') => {
                self.current_token = Some(PendingToken::Comment {
                    comment: Vec::new(),
                    location: self.last_token_location,
                });
                self.error_logger.add_error(loc, ParserError::UnexpectedQuestionMarkInsteadOfTagName.as_str());
                self.cursor.unread();
                self.state = State::BogusComment;
            },
            Character::StreamEnd => {
                self.error_logger.add_error(self.last_token_location, ParserError::EofBeforeTagName.as_str());
                self.consumed.push('<');
                self.state = State::Data;
            },
            _ => {
                self.error_logger.add_error(loc, ParserError::InvalidFirstCharacterOfTagName.as_str());
                self.consumed.push('<');
                self.cursor.unread();
                self.state = State::Data;
            },
        }
    }

    pub(crate) fn step_end_tag_open(&mut self)
        requires
            old(self).wf(),
            old(self).token_queue@.len() == 0,
            old(self).state == State::EndTagOpen,
        ensures
            final(self).stepped(*old(self), true),
    {
        let loc = self.cursor.location();
        let c = self.cursor.read(&mut self.error_logger);
        match c {
            Character::Ch(ch) if alpha(ch) => {
                self.current_token = Some(PendingToken::EndTag {
                    name: Vec::new(),
                    is_self_closing: false,
                    location: self.last_token_location,
                });
                self.current_attrs = Vec::new();
                self.cursor.unread();
                self.state = State::TagName;
            },
            Character::Ch('>') => {
                self.error_logger.add_error(loc, ParserError::MissingEndTagName.as_str());
                self.state = State::Data;
            },
            Character::StreamEnd => {
                self.error_logger.add_error(self.last_token_location, ParserError::EofBeforeTagName.as_str());
                self.consumed.push('<');
                self.consumed.push('/');
                self.state = State::Data;
            },
            _ => {
                self.error_logger.add_error(loc, ParserError::InvalidFirstCharacterOfTagName.as_str());
                self.current_token = Some(PendingToken::Comment {
                    comment: Vec::new(),
                    location: self.last_token_location,
                });
                self.cursor.unread();
                self.state = State::BogusComment;
            },
        }
    }

    pub(crate) fn step_tag_name(&mut self)
        requires
            old(self).wf(),
            old(self).token_queue@.len() == 0,
            old(self).state == State::TagName,
        ensures
            final(self).stepped(*old(self), true),
    {
        let loc = self.cursor.location();
        let c = self.cursor.read(&mut self.error_logger);
        match c {
            Character::Ch(CHAR_TAB) | Character::Ch(CHAR_LF) | Character::Ch(CHAR_FF) | Character::Ch(CHAR_SPACE) => {
                self.state = State::BeforeAttributeName;
            },
            Character::Ch('/') => self.state = State::SelfClosingStart,
            Character::Ch('>') => {
                self.emit_current_token();
                self.state = State::Data;
            },
            Character::Ch(CHAR_NUL) => {
                self.error_logger.add_error(loc, ParserError::UnexpectedNullCharacter.as_str());
                add_to_token_name(&mut self.current_token, CHAR_REPLACEMENT);
            },
            Character::StreamEnd => {
                self.error_logger.add_error(loc, ParserError::EofInTag.as_str());
                self.state = State::Data;
            },
            Character::Ch(ch) => add_to_token_name(&mut self.current_token, to_ascii_lower(ch)),
            Character::Surrogate(_) => {},
        }
    }

    pub(crate) fn step_before_attribute_name(&mut self)
        requires
            old(self).wf(),
            old(self).token_queue@.len() == 0,
            old(self).state == State::BeforeAttributeName,
        ensures
            final(self).stepped(*old(self), true),
    {
        let loc = self.cursor.location();
        let c = self.cursor.read(&mut self.error_logger);
        match c {
            Character::Ch(CHAR_TAB) | Character::Ch(CHAR_LF) | Character::Ch(CHAR_FF) | Character::Ch(CHAR_SPACE) => {},
            Character::Ch('/') | Character::Ch('>') | Character::StreamEnd => {
                self.cursor.unread();
                self.state = State::AfterAttributeName;
            },
            Character::Ch('=') => {
                self.error_logger.add_error(loc, ParserError::UnexpectedEqualsSignBeforeAttributeName.as_str());
                store_and_clear_current_attribute(&mut self.current_attrs, &mut self.current_attr_name, &mut self.current_attr_value);
                self.current_attr_name.push('=');
                self.state = State::AttributeName;
            },
            _ => {
                store_and_clear_current_attribute(&mut self.current_attrs, &mut self.current_attr_name, &mut self.current_attr_value);
                self.cursor.unread();
                self.state = State::AttributeName;
            },
        }
    }

    pub(crate) fn step_attribute_name(&mut self)
        requires
            old(self).wf(),
            old(self).token_queue@.len() == 0,
            old(self).state == State::AttributeName,
        ensures
            final(self).stepped(*old(self), true),
    {
        let loc = self.cursor.location();
        let c = self.cursor.read(&mut self.error_logger);
        match c {
            Character::Ch(CHAR_TAB) | Character::Ch(CHAR_LF) | Character::Ch(CHAR_FF) | Character::Ch(CHAR_SPACE) | Character::Ch('/') | Character::Ch('>') => {
                if attr_already_exists(&self.current_attrs, &self.current_attr_name) {
                    self.error_logger.add_error(loc, ParserError::DuplicateAttribute.as_str());
                }
                self.cursor.unread();
                self.state = State::AfterAttributeName;
            },
            Character::StreamEnd => {
                if attr_already_exists(&self.current_attrs, &self.current_attr_name) {
                    self.error_logger.add_error(loc, ParserError::DuplicateAttribute.as_str());
                }
                self.state = State::AfterAttributeName;
            },
            Character::Ch('=') => {
                if attr_already_exists(&self.current_attrs, &self.current_attr_name) {
                    self.error_logger.add_error(loc, ParserError::DuplicateAttribute.as_str());
                }
                self.state = State::BeforeAttributeValue;
            },
            Character::Ch(CHAR_NUL) => {
                self.error_logger.add_error(loc, ParserError::UnexpectedNullCharacter.as_str());
                self.current_attr_name.push(CHAR_REPLACEMENT);
            },
            Character::Ch('"') | Character::Ch('\'') | Character::Ch('<') => {
                self.error_logger.add_error(loc, ParserError::UnexpectedCharacterInAttributeName.as_str());
                let ch = if c == Character::Ch('"') { '"' } else if c == Character::Ch('\'') { '\'' } else { '<' };
                self.current_attr_name.push(ch);
            },
            Character::Ch(ch) => self.current_attr_name.push(to_ascii_lower(ch)),
            Character::Surrogate(_) => {},
        }
    }

    pub(crate) fn step_after_attribute_name(&mut self)
        requires
            old(self).wf(),
            old(self).token_queue@.len() == 0,
            old(self).state == State::AfterAttributeName,
        ensures
            final(self).stepped(*old(self), true),
    {
        let loc = self.cursor.location();
        let c = self.cursor.read(&mut self.error_logger);
        match c {
            Character::Ch(CHAR_TAB) | Character::Ch(CHAR_LF) | Character::Ch(CHAR_FF) | Character::Ch(CHAR_SPACE) => {},
            Character::Ch('/') => self.state = State::SelfClosingStart,
            Character::Ch('=') => self.state = State::BeforeAttributeValue,
            Character::Ch('>') => {
                store_and_clear_current_attribute(&mut self.current_attrs, &mut self.current_attr_name, &mut self.current_attr_value);
                add_stored_attributes_to_current_token(&mut self.current_token, &mut self.current_attrs, &mut self.error_logger, loc);
                self.emit_current_token();
                self.state = State::Data;
            },
            Character::StreamEnd => {
                self.error_logger.add_error(loc, ParserError::EofInTag.as_str());
                self.state = State::Data;
            },
            _ => {
                store_and_clear_current_attribute(&mut self.current_attrs, &mut self.current_attr_name, &mut self.current_attr_value);
                self.cursor.unread();
                self.state = State::AttributeName;
            },
        }
    }

    pub(crate) fn step_before_attribute_value(&mut self)
        requires
            old(self).wf(),
            old(self).token_queue@.len() == 0,
            old(self).state == State::BeforeAttributeValue,
        ensures
            final(self).stepped(*old(self), true),
    {
        let loc = self.cursor.location();
        let c = self.cursor.read(&mut self.error_logger);
        match c {
            Character::Ch(CHAR_TAB) | Character::Ch(CHAR_LF) | Character::Ch(CHAR_FF) | Character::Ch(CHAR_SPACE) => {},
            Character::Ch('"') => self.state = State::AttributeValueDoubleQuoted,
            Character::Ch('\'') => self.state = State::AttributeValueSingleQuoted,
            Character::Ch('>') => {
                self.error_logger.add_error(loc, ParserError::MissingAttributeValue.as_str());
                store_and_clear_current_attribute(&mut self.current_attrs, &mut self.current_attr_name, &mut self.current_attr_value);
                add_stored_attributes_to_current_token(&mut self.current_token, &mut self.current_attrs, &mut self.error_logger, loc);
                self.emit_current_token();
                self.state = State::Data;
            },
            Character::StreamEnd => {
                self.error_logger.add_error(loc, ParserError::EofInTag.as_str());
                self.state = State::Data;
            },
            _ => {
                self.cursor.unread();
                self.state = State::AttributeValueUnquoted;
            },
        }
    }

    pub(crate) fn step_attribute_value_double_quoted(&mut self)
        requires
            old(self).wf(),
            old(self).token_queue@.len() == 0,
            old(self).state == State::AttributeValueDoubleQuoted,
        ensures
            final(self).stepped(*old(self), true),
    {
        let loc = self.cursor.location();
        let c = self.cursor.read(&mut self.error_logger);
        match c {
            Character::Ch('"') => self.state = State::AfterAttributeValueQuoted,
            Character::Ch('&') => {
                consume_character_reference(&mut self.cursor, &mut self.error_logger, &mut self.current_attr_value, Some('"'), true);
            },
            Character::Ch(CHAR_NUL) => {
                self.error_logger.add_error(loc, ParserError::UnexpectedNullCharacter.as_str());
                self.current_attr_value.push(CHAR_REPLACEMENT);
            },
            Character::StreamEnd => {
                self.error_logger.add_error(loc, ParserError::EofInTag.as_str());
                self.state = State::Data;
            },
            Character::Ch(ch) => self.current_attr_value.push(ch),
            Character::Surrogate(_) => {},
        }
    }

    pub(crate) fn step_attribute_value_single_quoted(&mut self)
        requires
            old(self).wf(),
            old(self).token_queue@.len() == 0,
            old(self).state == State::AttributeValueSingleQuoted,
        ensures
            final(self).stepped(*old(self), true),
    {
        let loc = self.cursor.location();
        let c = self.cursor.read(&mut self.error_logger);
        match c {
            Character::Ch('\'') => self.state = State::AfterAttributeValueQuoted,
            Character::Ch('&') => {
                consume_character_reference(&mut self.cursor, &mut self.error_logger, &mut self.current_attr_value, Some('\''), true);
            },
            Character::Ch(CHAR_NUL) => {
                self.error_logger.add_error(loc, ParserError::UnexpectedNullCharacter.as_str());
                self.current_attr_value.push(CHAR_REPLACEMENT);
            },
            Character::StreamEnd => {
                self.error_logger.add_error(loc, ParserError::EofInTag.as_str());
                self.state = State::Data;
            },
            Character::Ch(ch) => self.current_attr_value.push(ch),
            Character::Surrogate(_) => {},
        }
    }

    pub(crate) fn step_attribute_value_unquoted(&mut self)
        requires
            old(self).wf(),
            old(self).token_queue@.len() == 0,
            old(self).state == State::AttributeValueUnquoted,
        ensures
            final(self).stepped(*old(self), true),
    {
        let loc = self.cursor.location();
        let c = self.cursor.read(&mut self.error_logger);
        match c {
            Character::Ch(CHAR_TAB) | Character::Ch(CHAR_LF) | Character::Ch(CHAR_FF) | Character::Ch(CHAR_SPACE) => {
                self.state = State::BeforeAttributeName;
            },
            Character::Ch('&') => {
                consume_character_reference(&mut self.cursor, &mut self.error_logger, &mut self.current_attr_value, Some('>'), true);
            },
            Character::Ch('>') => {
                store_and_clear_current_attribute(&mut self.current_attrs, &mut self.current_attr_name, &mut self.current_attr_value);
                add_stored_attributes_to_current_token(&mut self.current_token, &mut self.current_attrs, &mut self.error_logger, loc);
                self.emit_current_token();
                self.state = State::Data;
            },
            Character::Ch(CHAR_NUL) => {
                self.error_logger.add_error(loc, ParserError::UnexpectedNullCharacter.as_str());
                self.current_attr_value.push(CHAR_REPLACEMENT);
            },
            Character::Ch(ch) if ch == '"' || ch == '\'' || ch == '<' || ch == '=' || ch == '`' => {
                self.error_logger.add_error(loc, ParserError::UnexpectedCharacterInUnquotedAttributeValue.as_str());
                self.current_attr_value.push(ch);
            },
            Character::StreamEnd => {
                self.error_logger.add_error(loc, ParserError::EofInTag.as_str());
                self.state = State::Data;
            },
            Character::Ch(ch) => self.current_attr_value.push(ch),
            Character::Surrogate(_) => {},
        }
    }

    pub(crate) fn step_after_attribute_value_quoted(&mut self)
        requires
            old(self).wf(),
            old(self).token_queue@.len() == 0,
            old(self).state == State::AfterAttributeValueQuoted,
        ensures
            final(self).stepped(*old(self), true),
    {
        let loc = self.cursor.location();
        let c = self.cursor.read(&mut self.error_logger);
        match c {
            Character::Ch(CHAR_TAB) | Character::Ch(CHAR_LF) | Character::Ch(CHAR_FF) | Character::Ch(CHAR_SPACE) => {
                self.state = State::BeforeAttributeName;
            },
            Character::Ch('/') => self.state = State::SelfClosingStart,
            Character::Ch('>') => {
                store_and_clear_current_attribute(&mut self.current_attrs, &mut self.current_attr_name, &mut self.current_attr_value);
                add_stored_attributes_to_current_token(&mut self.current_token, &mut self.current_attrs, &mut self.error_logger, loc);
                self.emit_current_token();
                self.state = State::Data;
            },
            Character::StreamEnd => {
                self.error_logger.add_error(loc, ParserError::EofInTag.as_str());
                self.state = State::Data;
            },
            _ => {
                self.error_logger.add_error(loc, ParserError::MissingWhitespaceBetweenAttributes.as_str());
                self.cursor.unread();
                self.state = State::BeforeAttributeName;
            },
        }
    }

    pub(crate) fn step_self_closing_start(&mut self)
        requires
            old(self).wf(),
            old(self).token_queue@.len() == 0,
            old(self).state == State::SelfClosingStart,
        ensures
            final(self).stepped(*old(self), true),
    {
        let loc = self.cursor.location();
        let c = self.cursor.read(&mut self.error_logger);
        match c {
            Character::Ch('>') => {
                set_is_closing_in_current_token(&mut self.current_token, &mut self.error_logger, loc);
                self.state = State::Data;
                store_and_clear_current_attribute(&mut self.current_attrs, &mut self.current_attr_name, &mut self.current_attr_value);
                add_stored_attributes_to_current_token(&mut self.current_token, &mut self.current_attrs, &mut self.error_logger, loc);
                self.emit_current_token();
            },
            Character::StreamEnd => {
                self.error_logger.add_error(loc, ParserError::EofInTag.as_str());
                self.state = State::Data;
            },
            _ => {
                self.cursor.unread();
                self.error_logger.add_error(loc, ParserError::UnexpectedSolidusInTag.as_str());
                self.state = State::BeforeAttributeName;
            },
        }
    }
}

} // verus!

//! The markup-declaration and comment states.
use vstd::prelude::*;
use crate::error_logger::ParserError;
use crate::state::State;
use crate::stream::{Character, CHAR_NUL, CHAR_REPLACEMENT};
use crate::tokenizer::{add_to_token_value, PendingToken, Tokenizer};

verus! {

impl Tokenizer {
    pub(crate) fn step_markup_declaration_open(&mut self, in_html: bool)
        requires
            old(self).wf(),
            old(self).token_queue@.len() == 0,
            old(self).state == State::MarkupDeclarationOpen,
        ensures
            final(self).stepped(*old(self), in_html),
    {
        let dashes = vec!['-', '-'];
        if self.cursor.lookahead(&dashes, false) {
            let here = self.cursor.location();
            self.current_token = Some(PendingToken::Comment { comment: Vec::new(), location: here });
            self.cursor.skip(2);
            self.state = State::CommentStart;
            return;
        }
        let doctype = vec!['D', 'O', 'C', 'T', 'Y', 'P', 'E'];
        if self.cursor.lookahead(&doctype, true) {
            self.cursor.skip(7);
            self.state = State::DOCTYPE;
            return;
        }
        let cdata = vec!['[', 'C', 'D', 'A', 'T', 'A', '['];
        if self.cursor.lookahead(&cdata, false) {
            self.cursor.skip(6);
            let loc = self.cursor.location();
            self.cursor.skip(1);
            if !in_html {
                self.state = State::CDATASection;
                return;
            }
            self.error_logger.add_error(loc, ParserError::CdataInHtmlContent.as_str());
            let here = self.cursor.location();
            self.current_token = Some(PendingToken::Comment { comment: cdata, location: here });
            self.state = State::BogusComment;
            return;
        }
        let here = self.cursor.location();
        self.error_logger.add_error(here, ParserError::IncorrectlyOpenedComment.as_str());
        self.current_token = Some(PendingToken::Comment {
            comment: Vec::new(),
            location: self.last_token_location,
        });
        self.state = State::BogusComment;
    }

    pub(crate) fn step_bogus_comment(&mut self)
        requires
            old(self).wf(),
            old(self).token_queue@.len() == 0,
            old(self).state == State::BogusComment,
        ensures
            final(self).stepped(*old(self), true),
    {
        let loc = self.cursor.location();
        let c = self.cursor.read(&mut self.error_logger);
        match c {
            Character::Ch('>') | Character::StreamEnd => {
                self.emit_current_token();
                self.state = State::Data;
            },
            Character::Ch(CHAR_NUL) => {
                self.error_logger.add_error(loc, ParserError::UnexpectedNullCharacter.as_str());
                add_to_token_value(&mut self.current_token, CHAR_REPLACEMENT);
            },
            Character::Ch(ch) => add_to_token_value(&mut self.current_token, ch),
            Character::Surrogate(_) => {},
        }
    }

    pub(crate) fn step_comment_start(&mut self)
        requires
            old(self).wf(),
            old(self).token_queue@.len() == 0,
            old(self).state == State::CommentStart,
        ensures
            final(self).stepped(*old(self), true),
    {
        let loc = self.cursor.location();
        let c = self.cursor.read(&mut self.error_logger);
        match c {
            Character::Ch('-') => self.state = State::CommentStartDash,
            Character::Ch('>') => {
                self.error_logger.add_error(loc, ParserError::AbruptClosingOfEmptyComment.as_str());
                self.emit_current_token();
                self.state = State::Data;
            },
            _ => {
                self.cursor.unread();
                self.state = State::Comment;
            },
        }
    }

    pub(crate) fn step_comment_start_dash(&mut self)
        requires
            old(self).wf(),
            old(self).token_queue@.len() == 0,
            old(self).state == State::CommentStartDash,
        ensures
            final(self).stepped(*old(self), true),
    {
        let loc = self.cursor.location();
        let c = self.cursor.read(&mut self.error_logger);
        match c {
            Character::Ch('-') => self.state = State::CommentEnd,
            Character::Ch('>') => {
                self.error_logger.add_error(loc, ParserError::AbruptClosingOfEmptyComment.as_str());
                self.emit_current_token();
                self.state = State::Data;
            },
            Character::StreamEnd => {
                self.error_logger.add_error(loc, ParserError::EofInComment.as_str());
                self.emit_current_token();
                self.state = State::Data;
            },
            _ => {
                add_to_token_value(&mut self.current_token, '-');
                self.cursor.unread();
                self.state = State::Comment;
            },
        }
    }

    pub(crate) fn step_comment(&mut self)
        requires
            old(self).wf(),
            old(self).token_queue@.len() == 0,
            old(self).state == State::Comment,
        ensures
            final(self).stepped(*old(self), true),
    {
        let loc = self.cursor.location();
        let c = self.cursor.read(&mut self.error_logger);
        match c {
            Character::Ch('<') => {
                add_to_token_value(&mut self.current_token, '<');
                self.state = State::CommentLessThanSign;
            },
            Character::Ch('-') => self.state = State::CommentEndDash,
            Character::Ch(CHAR_NUL) => {
                self.error_logger.add_error(loc, ParserError::UnexpectedNullCharacter.as_str());
                add_to_token_value(&mut self.current_token, CHAR_REPLACEMENT);
            },
            Character::StreamEnd => {
                self.error_logger.add_error(loc, ParserError::EofInComment.as_str());
                self.emit_current_token();
                self.state = State::Data;
            },
            Character::Ch(ch) => add_to_token_value(&mut self.current_token, ch),
            Character::Surrogate(_) => {},
        }
    }

    pub(crate) fn step_comment_less_than_sign(&mut self)
        requires
            old(self).wf(),
            old(self).token_queue@.len() == 0,
            old(self).state == State::CommentLessThanSign,
        ensures
            final(self).stepped(*old(self), true),
    {
        let c = self.cursor.read(&mut self.error_logger);
        match c {
            Character::Ch('!') => {
                add_to_token_value(&mut self.current_token, '!');
                self.state = State::CommentLessThanSignBang;
            },
            Character::Ch('<') => add_to_token_value(&mut self.current_token, '<'),
            _ => {
                self.cursor.unread();
                self.state = State::Comment;
            },
        }
    }

    pub(crate) fn step_comment_less_than_sign_bang(&mut self)
        requires
            old(self).wf(),
            old(self).token_queue@.len() == 0,
            old(self).state == State::CommentLessThanSignBang,
        ensures
            final(self).stepped(*old(self), true),
    {
        let c = self.cursor.read(&mut self.error_logger);
        if c == Character::Ch('-') {
            self.state = State::CommentLessThanSignBangDash;
        } else {
            self.cursor.unread();
            self.state = State::Comment;
        }
    }

    pub(crate) fn step_comment_less_than_sign_bang_dash(&mut self)
        requires
            old(self).wf(),
            old(self).token_queue@.len() == 0,
            old(self).state == State::CommentLessThanSignBangDash,
        ensures
            final(self).stepped(*old(self), true),
    {
        let c = self.cursor.read(&mut self.error_logger);
        if c == Character::Ch('-') {
            self.state = State::CommentLessThanSignBangDashDash;
        } else {
            self.cursor.unread();
            self.state = State::CommentEndDash;
        }
    }

    pub(crate) fn step_comment_less_than_sign_bang_dash_dash(&mut self)
        requires
            old(self).wf(),
            old(self).token_queue@.len() == 0,
            old(self).state == State::CommentLessThanSignBangDashDash,
        ensures
            final(self).stepped(*old(self), true),
    {
        let loc = self.cursor.location();
        let c = self.cursor.read(&mut self.error_logger);
        match c {
            Character::StreamEnd => self.state = State::CommentEnd,
            Character::Ch('>') => {
                self.cursor.unread();
                self.state = State::CommentEnd;
            },
            _ => {
                self.error_logger.add_error(loc, ParserError::NestedComment.as_str());
                self.cursor.unread();
                self.state = State::CommentEnd;
            },
        }
    }

    pub(crate) fn step_comment_end_dash(&mut self)
        requires
            old(self).wf(),
            old(self).token_queue@.len() == 0,
            old(self).state == State::CommentEndDash,
        ensures
            final(self).stepped(*old(self), true),
    {
        let loc = self.cursor.location();
        let c = self.cursor.read(&mut self.error_logger);
        match c {
            Character::Ch('-') => self.state = State::CommentEnd,
            Character::StreamEnd => {
                self.error_logger.add_error(loc, ParserError::EofInComment.as_str());
                self.emit_current_token();
                self.state = State::Data;
            },
            _ => {
                add_to_token_value(&mut self.current_token, '-');
                self.cursor.unread();
                self.state = State::Comment;
            },
        }
    }

    pub(crate) fn step_comment_end(&mut self)
        requires
            old(self).wf(),
            old(self).token_queue@.len() == 0,
            old(self).state == State::CommentEnd,
        ensures
            final(self).stepped(*old(self), true),
    {
        let loc = self.cursor.location();
        let c = self.cursor.read(&mut self.error_logger);
        match c {
            Character::Ch('>') => {
                self.emit_current_token();
                self.state = State::Data;
            },
            Character::Ch('!') => self.state = State::CommentEndBang,
            Character::Ch('-') => add_to_token_value(&mut self.current_token, '-'),
            Character::StreamEnd => {
                self.error_logger.add_error(loc, ParserError::EofInComment.as_str());
                self.emit_current_token();
                self.state = State::Data;
            },
            _ => {
                if self.cursor.pos >= 3 && !self.cursor.follows_markup_open(self.cursor.pos - 1) {
                    let at = self.cursor.locations[self.cursor.pos - 3];
                    self.error_logger.add_error(at, ParserError::NestedComment.as_str());
                }
                add_to_token_value(&mut self.current_token, '-');
                add_to_token_value(&mut self.current_token, '-');
                self.cursor.unread();
                self.state = State::Comment;
            },
        }
    }

    pub(crate) fn step_comment_end_bang(&mut self)
        requires
            old(self).wf(),
            old(self).token_queue@.len() == 0,
            old(self).state == State::CommentEndBang,
        ensures
            final(self).stepped(*old(self), true),
    {
        let loc = self.cursor.location();
        let c = self.cursor.read(&mut self.error_logger);
        match c {
            Character::Ch('-') => {
                add_to_token_value(&mut self.current_token, '-');
                add_to_token_value(&mut self.current_token, '-');
                add_to_token_value(&mut self.current_token, '!');
                self.state = State::CommentEndDash;
            },
            Character::Ch('>') => {
                self.error_logger.add_error(loc, ParserError::IncorrectlyClosedComment.as_str());
                self.emit_current_token();
                self.state = State::Data;
            },
            Character::StreamEnd => {
                self.error_logger.add_error(loc, ParserError::EofInComment.as_str());
                self.emit_current_token();
                self.state = State::Data;
            },
            _ => {
                add_to_token_value(&mut self.current_token, '-');
                add_to_token_value(&mut self.current_token, '-');
                add_to_token_value(&mut self.current_token, '!');
                self.cursor.unread();
                self.state = State::Comment;
            },
        }
    }
}

} // verus!

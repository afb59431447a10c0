//! An HTML5 tokenizer: turns a stream of Unicode scalar values into doctype, tag,
//! comment, text and end-of-input tokens, logging parse errors on the way.
pub mod char_ref;
pub mod comment_states;
pub mod cursor;
pub mod doctype_states;
pub mod error_logger;
pub mod location;
pub mod state;
pub mod stream;
pub mod styles;
pub mod tag_states;
pub mod text_states;
pub mod token;
pub mod tokenizer;
pub mod transition;

//! A modal keystroke parser in the style of the `vi` family of editors.
//!
//! The parser turns a stream of terminal key events into a stream of
//! high-level editing events.  It accumulates partial commands (register,
//! count, operator, motion, text object), tracks a mode (normal, insert,
//! replace, visual, visual-line, command, search and transient
//! "awaiting one more character" modes), and emits a canonical sequence
//! of semantic events that a host applies to its text buffer.
//!
//! The parser is a pure state machine: it performs no I/O and never
//! touches the host's buffer.  Every call to [`ViParser::parse`] returns
//! the events for that key, ending in exactly one [`Event::Redraw`].

mod cmd;
mod event;
mod key;
pub mod laws;
mod motion;
mod parser;
mod render;
mod word;

pub use cmd::CtxView;
pub use cmd::VI_DEFAULT_REGISTER;
pub use cmd::ViCmd;
pub use cmd::ViContext;
pub use event::Event;
pub use event::EventView;
pub use key::Key;
pub use motion::Motion;
pub use motion::Operator;
pub use motion::TextObject;
pub use motion::Word;
pub use parser::ModeView;
pub use parser::Parser;
pub use parser::ParserView;
pub use parser::ViMode;
pub use parser::ViParser;
pub use word::WordChar;
pub use word::WordIter;

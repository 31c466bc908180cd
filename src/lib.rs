//! Decoding of the raw byte stream of a terminal into typed input events.
//!
//! [`Parser`] is a resumable state machine: an escape sequence may be split
//! across any number of calls to [`Parser::parse`], and the events that come
//! out do not depend on where the input was cut.
pub mod device_control;
pub mod event;
pub mod lemmas;
pub mod mouse;
pub mod parser;

pub use event::{Event, EventView, TerminalEvent, TerminalEventView};
pub use parser::{ParseState, Parser};

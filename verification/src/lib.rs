//! Engine of an interactive memo-capture session: a multi-line draft buffer
//! with a character-indexed cursor, the projection of that cursor onto wrapped
//! terminal rows, an incremental history filter, the focus state machine over
//! the three panes, and the mapping from key presses to actions.
//!
//! Every function carries a contract over a mathematical model of its data, and
//! the contracts are machine-checked. Storage and the terminal stay outside:
//! the engine reports what should be stored and is told what storage answered.

pub mod auth;
pub mod format;
pub mod handler;
pub mod input;
pub mod input_lemmas;
pub mod keys;
pub mod layout;
pub mod memo;
pub mod projector;
pub mod search;
pub mod session_lemmas;
pub mod state;
pub mod terminal;
pub mod text;
pub mod time;
pub mod view;
pub mod width;

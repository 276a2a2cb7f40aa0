//! Core of a terminal text editor with an AI rewrite command.
//!
//! The library holds the session controller: the finite-state machine that
//! routes keystrokes across the editing, prompting, setup, search, save-as
//! and quit-confirmation modes, tracks the dirty-buffer and persistence
//! lifecycle, and governs the single-outstanding-background-task protocol
//! for AI rewrite requests.  The text utilities it rests on (line splitting
//! and joining, trimming, substring search, code-fence stripping) are
//! verified against exact specifications over sequences of characters.
//!
//! Everything that touches the outside world — the terminal, the text
//! widgets, the network, the filesystem — lives in the surrounding
//! application, which drives this controller with plain values.

pub mod ai;
pub mod config;
pub mod laws;
pub mod session;
pub mod text;

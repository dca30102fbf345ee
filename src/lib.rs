//! A terminal TCP chat session: the input-mode state machine that edits and
//! submits an address, the session that owns the connection and at most one
//! pending dial, and the layout of the status bar.
//!
//! Everything here is a pure state machine over plain values. Sockets, the
//! dialing thread and the terminal itself are driven by the program around
//! this library, which performs each requested action and reports its outcome.
pub mod addr;
pub mod chat;
pub mod layout;
pub mod term;

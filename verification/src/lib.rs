//! Playback engine of a playlist player: the control grammar, the relay that
//! routes commands to the stream that is playing, the decode pipeline's
//! decisions, and the accounting of the buffer-fill callback.
//!
//! The audio server, the decoder and the socket are driven by the program
//! around this library. Each of them reports what happened as a plain value,
//! and the library answers with the next state and the action to perform.

pub mod command;
pub mod control;
pub mod number;
pub mod playlist;
pub mod pw;
pub mod song;
pub mod state;
pub mod text;

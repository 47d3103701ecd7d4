//! Verified core of an interactive command-line audio player.
//!
//! The player reads one command per line (`play`, `add`, `pause`, `vu`, ...),
//! keeps an ordered playlist of song paths, and drives a single playback
//! queue that a background task drains. Everything the player decides —
//! which command an input line names, when a `play` or `add` is admitted,
//! how the volume steps and clamps, how the playlist cursor advances once
//! the queue runs dry — lives here, with contracts. The surrounding loop
//! (reading lines, prompting for paths, decoding audio and feeding the
//! output device) only observes the queue and carries out the actions this
//! core hands back.

pub mod commands;
pub mod playlist;
pub mod session;
pub mod volume;

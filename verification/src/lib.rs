//! Decisions of a Matrix channel: who may talk to the bot, how it authenticates, and what becomes
//! of the messages, recordings, locations, poll responses and invites it receives. Beside them
//! stands the manifest of installed skills.
//!
//! Network access and storage stay with the caller. Where a decision needs an answer from
//! there, a step function says what to ask for, and takes the answer as an event.

pub mod access;
pub mod audio;
pub mod auth;
pub mod clock;
pub mod config;
pub mod events;
pub mod location;
pub mod message;
pub mod otp;
pub mod path;
pub mod room;
pub mod skills;
pub mod text;
pub mod voice;

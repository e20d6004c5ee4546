//! Session, queue and voting rules of a voice-channel player for tracker
//! music modules, with the message texts it answers with.

pub mod botdata;
pub mod commands;
pub mod events;
pub mod misc;
pub mod session;
pub mod vote;

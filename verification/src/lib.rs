//! A quiz game as a verified core: loading questions from delimited text,
//! scoring a session one event at a time, and reporting the result.
//!
//! Everything that touches a console, a clock or a thread lives with the
//! caller. The library takes plain values and hands plain values back.

pub mod decimal;
pub mod laws;
pub mod outside;
pub mod question;
pub mod quiz;
pub mod rearrange;
pub mod report;
pub mod rows;
pub mod text;

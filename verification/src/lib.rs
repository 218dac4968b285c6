//! Verified text-input logic of a web EditContext integration: conversions
//! between character and UTF-16 offsets, and the state machine that decides
//! what to tell the browser and what to hand to the UI.
pub mod geometry;
pub mod utf16;
pub mod agent;
pub mod laws;

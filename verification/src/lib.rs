//! Mock data for tests: names, addresses and companies that look plausible.
//!
//! Every generator draws from the calling thread's random source and keeps
//! no state of its own. Each one states, as its postcondition, the shape
//! that every value it can return has.

pub mod address;
pub mod company;
pub mod data;
pub mod misc;
pub mod name;

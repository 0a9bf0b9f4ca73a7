//! The word lists that the generators select from. They are plain data:
//! editing a list changes what can be generated, never how.

pub mod address;
pub mod company;
pub mod name;

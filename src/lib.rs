//! Incremental fuzzy picking over a replaceable corpus of text items, with a
//! clamped, randomly indexable view of the current ranking, and the calendar
//! arithmetic of a month grid.
pub mod calendar;
pub mod corpus;
pub mod engine;
pub mod picker;

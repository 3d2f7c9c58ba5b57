//! Dates of the proleptic Gregorian calendar, events and their recurrence.
pub mod date;
pub mod event;
pub mod recurrence;

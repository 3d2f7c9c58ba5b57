//! Recurrence data carried by an event.
use vstd::prelude::*;

verus! {

/// The recurrence rule and the raw `RDATE`/`EXDATE` properties of an event.
#[derive(Clone, Debug)]
pub struct Recurrence {
    pub rrule: Option<String>,
    pub raw_properties: Vec<String>,
}

impl Recurrence {
    /// Whether the event does not recur.
    pub fn is_empty(&self) -> (r: bool)
        ensures
            r == (self.rrule is None && self.raw_properties@.len() == 0),
    {
        self.rrule.is_none() && self.raw_properties.len() == 0
    }

    /// A recurrence with no rule and no raw properties.
    pub fn none() -> (r: Recurrence)
        ensures
            r.rrule is None,
            r.raw_properties@.len() == 0,
    {
        Recurrence { rrule: None, raw_properties: Vec::new() }
    }
}

} // verus!

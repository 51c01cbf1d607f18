//! A plain vehicle record: maker, model, identifier and model year.

use vstd::prelude::*;

verus! {

/// A vehicle, given as input or handed back as output by a managing
/// service.
#[derive(Clone, Debug)]
pub struct Vehicle {
    pub maker: String,
    pub model: String,
    pub id: String,
    pub year: u16,
}

impl Vehicle {
    /// A record with the given fields.
    pub fn new(maker: String, model: String, id: String, year: u16) -> (v: Vehicle)
        ensures
            v.maker == maker,
            v.model == model,
            v.id == id,
            v.year == year,
    {
        Vehicle { maker, model, id, year }
    }
}

} // verus!

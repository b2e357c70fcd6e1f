//! The caller-owned collection of records, one append-only slot per kind.
use crate::carbondioxide::CarbondioxideSensor;
use vstd::prelude::*;

verus! {

/// Records grouped by kind of sensor, each slot in order of arrival.
#[derive(Debug)]
pub struct Sensors {
    pub carbondioxide: Vec<CarbondioxideSensor>,
}

/// The records that each slot of the aggregate holds.
pub ghost struct SensorsView {
    pub carbondioxide: Seq<CarbondioxideSensor>,
}

impl View for Sensors {
    type V = SensorsView;

    open spec fn view(&self) -> SensorsView {
        SensorsView { carbondioxide: self.carbondioxide@ }
    }
}

impl Default for Sensors {
    fn default() -> (r: Self)
        ensures
            r@.carbondioxide == Seq::<CarbondioxideSensor>::empty(),
    {
        Sensors { carbondioxide: Vec::new() }
    }
}

} // verus!

//! Descriptive identity shared by every kind of sensor.
use vstd::prelude::*;

verus! {

/// Where a sensor is placed, with an optional free-text description.
#[derive(Debug)]
pub struct SensorMetadataWithLocation {
    pub location: String,
    pub description: Option<String>,
}

/// The text of an optional string.
pub open spec fn opt_text(s: Option<String>) -> Option<Seq<char>> {
    match s {
        Some(t) => Some(t@),
        None => None,
    }
}

impl SensorMetadataWithLocation {
    /// Equality of the texts that two metadata bundles hold.
    pub open spec fn same_text(&self, o: &Self) -> bool {
        self.location@ == o.location@ && opt_text(self.description) == opt_text(o.description)
    }
}

impl Clone for SensorMetadataWithLocation {
    fn clone(&self) -> (r: Self)
        ensures
            r == *self,
    {
        SensorMetadataWithLocation {
            location: self.location.clone(),
            description: match &self.description {
                Some(d) => Some(d.clone()),
                None => None,
            },
        }
    }
}

impl Default for SensorMetadataWithLocation {
    fn default() -> (r: Self)
        ensures
            r.location@ == Seq::<char>::empty(),
            r.description is None,
    {
        SensorMetadataWithLocation { location: String::new(), description: None }
    }
}

impl PartialEq for SensorMetadataWithLocation {
    fn eq(&self, o: &Self) -> (r: bool) {
        let same_description = match (&self.description, &o.description) {
            (Some(a), Some(b)) => a.eq(b),
            (None, None) => true,
            _ => false,
        };
        self.location.eq(&o.location) && same_description
    }
}

impl vstd::std_specs::cmp::PartialEqSpecImpl for SensorMetadataWithLocation {
    open spec fn obeys_eq_spec() -> bool {
        true
    }

    open spec fn eq_spec(&self, o: &Self) -> bool {
        self.same_text(o)
    }
}

} // verus!

//! The conversion contract from a per-kind template and a raw reading to a
//! typed record, and the one error that it can report.
use crate::aggregate::{Sensors, SensorsView};
use vstd::prelude::*;

verus! {

/// The kinds of sensor that the aggregate keeps apart.
#[derive(Debug, Clone, Copy, PartialEq, Eq, Structural)]
pub enum SensorKind {
    /// Gas concentration, an unsigned integer in arbitrary units.
    Carbondioxide,
}

/// The message reported when a raw reading of `kind` is rejected.
pub open spec fn rejection_message(kind: SensorKind) -> Seq<char> {
    match kind {
        SensorKind::Carbondioxide => "sensor integer value cannot be parsed"@,
    }
}

/// Why a raw reading could not become a record.
#[derive(Debug)]
pub enum SensorTemplateError {
    /// `raw` does not parse as the measurement type of `kind`.
    InvalidMeasurement { kind: SensorKind, raw: String },
}

impl SensorTemplateError {
    /// This error rejects the reading `raw` for a sensor of `kind`.
    pub open spec fn rejects(&self, kind: SensorKind, raw: Seq<char>) -> bool {
        match self {
            SensorTemplateError::InvalidMeasurement { kind: k, raw: r } => *k == kind && r@ == raw,
        }
    }

    pub open spec fn spec_kind(&self) -> SensorKind {
        match self {
            SensorTemplateError::InvalidMeasurement { kind, .. } => *kind,
        }
    }

    /// The kind of sensor whose reading was rejected.
    pub fn kind(&self) -> (r: SensorKind)
        ensures
            r == self.spec_kind(),
    {
        match self {
            SensorTemplateError::InvalidMeasurement { kind, .. } => *kind,
        }
    }

    /// The human-readable description of the error, stable for each kind.
    pub fn to_string(&self) -> (r: String)
        ensures
            r@ == rejection_message(self.spec_kind()),
    {
        match self {
            SensorTemplateError::InvalidMeasurement { kind, .. } => match kind {
                SensorKind::Carbondioxide => "sensor integer value cannot be parsed".to_owned(),
            },
        }
    }
}

/// A record that can be built from a template of type `T` and a raw reading.
pub trait FromSensorTemplate<T>: Sized {
    /// The kind of sensor that the record belongs to.
    spec fn spec_kind() -> SensorKind;

    /// Whether `raw` denotes a measurement that the record can hold.
    spec fn spec_accepts(raw: Seq<char>) -> bool;

    /// The record built from `template` and an accepted reading `raw`.
    spec fn spec_from_template(template: T, raw: Seq<char>) -> Self;

    /// Builds the record for `value`, copying what the template holds, or
    /// reports that `value` is not a measurement of this kind.
    fn try_from_template(template: &T, value: &str) -> (r: Result<Self, SensorTemplateError>)
        ensures
            r is Ok <==> Self::spec_accepts(value@),
            r is Ok ==> r->Ok_0 == Self::spec_from_template(*template, value@),
            r is Err ==> r->Err_0.rejects(Self::spec_kind(), value@),
    ;
}

/// A configured sensor that turns raw readings into records of its kind and
/// appends them to the matching slot of the aggregate.
pub trait SensorTemplate {
    /// The kind of sensor that the template configures.
    spec fn spec_kind(&self) -> SensorKind;

    /// Whether `raw` denotes a measurement of this template's kind.
    spec fn spec_accepts(&self, raw: Seq<char>) -> bool;

    /// The aggregate after the record for an accepted `raw` is appended.
    spec fn spec_pushed(&self, sensors: SensorsView, raw: Seq<char>) -> SensorsView;

    /// Appends the record for `value_str`, or leaves `sensors` as it was and
    /// reports why `value_str` was rejected.
    fn try_to_sensor(&self, value_str: &str, sensors: &mut Sensors) -> (r: Result<(), SensorTemplateError>)
        ensures
            r is Ok <==> self.spec_accepts(value_str@),
            r is Ok ==> final(sensors)@ == self.spec_pushed(old(sensors)@, value_str@),
            r is Err ==> final(sensors)@ == old(sensors)@,
            r is Err ==> r->Err_0.rejects(self.spec_kind(), value_str@),
    ;

    /// Appends the record for `value_str`; a rejected reading is dropped and
    /// leaves `sensors` as it was.
    fn to_sensor(&self, value_str: &str, sensors: &mut Sensors)
        ensures
            self.spec_accepts(value_str@) ==> final(sensors)@ == self.spec_pushed(
                old(sensors)@,
                value_str@,
            ),
            !self.spec_accepts(value_str@) ==> final(sensors)@ == old(sensors)@,
    {
        let _ = self.try_to_sensor(value_str, sensors);
    }
}

} // verus!

//! Gas-concentration sensors, whose readings are unsigned integers in the
//! unit that the template names (parts per million, say).
use crate::aggregate::{Sensors, SensorsView};
use crate::decimal::{all_digits, digits_value, parse_u64, parse_u64_spec, unsigned_digits};
use crate::metadata::SensorMetadataWithLocation;
use crate::template::{FromSensorTemplate, SensorKind, SensorTemplate, SensorTemplateError};
use vstd::prelude::*;

verus! {

/// One gas-concentration reading with the metadata of its sensor.
#[derive(Debug)]
pub struct CarbondioxideSensor {
    pub metadata: SensorMetadataWithLocation,
    pub unit: String,
    pub value: u64,
}

/// The configuration of one gas-concentration sensor.
#[derive(Debug)]
pub struct CarbondioxideSensorTemplate {
    pub metadata: SensorMetadataWithLocation,
    pub unit: String,
}

impl CarbondioxideSensor {
    /// The record that `template` gives for the measurement `value`.
    pub open spec fn from_reading(template: CarbondioxideSensorTemplate, value: u64) -> Self {
        CarbondioxideSensor { metadata: template.metadata, unit: template.unit, value }
    }
}

impl Clone for CarbondioxideSensor {
    fn clone(&self) -> (r: Self)
        ensures
            r == *self,
    {
        CarbondioxideSensor {
            metadata: self.metadata.clone(),
            unit: self.unit.clone(),
            value: self.value,
        }
    }
}

impl Default for CarbondioxideSensor {
    fn default() -> (r: Self)
        ensures
            r.metadata.location@ == Seq::<char>::empty(),
            r.metadata.description is None,
            r.unit@ == Seq::<char>::empty(),
            r.value == 0,
    {
        CarbondioxideSensor {
            metadata: SensorMetadataWithLocation::default(),
            unit: String::new(),
            value: 0,
        }
    }
}

impl PartialEq for CarbondioxideSensor {
    fn eq(&self, o: &Self) -> (r: bool) {
        self.metadata.eq(&o.metadata) && self.unit.eq(&o.unit) && self.value == o.value
    }
}

impl vstd::std_specs::cmp::PartialEqSpecImpl for CarbondioxideSensor {
    open spec fn obeys_eq_spec() -> bool {
        true
    }

    open spec fn eq_spec(&self, o: &Self) -> bool {
        self.metadata.same_text(&o.metadata) && self.unit@ == o.unit@ && self.value == o.value
    }
}

impl Clone for CarbondioxideSensorTemplate {
    fn clone(&self) -> (r: Self)
        ensures
            r == *self,
    {
        CarbondioxideSensorTemplate { metadata: self.metadata.clone(), unit: self.unit.clone() }
    }
}

impl FromSensorTemplate<CarbondioxideSensorTemplate> for CarbondioxideSensor {
    open spec fn spec_kind() -> SensorKind {
        SensorKind::Carbondioxide
    }

    open spec fn spec_accepts(raw: Seq<char>) -> bool {
        parse_u64_spec(raw) is Some
    }

    open spec fn spec_from_template(template: CarbondioxideSensorTemplate, raw: Seq<char>) -> Self {
        Self::from_reading(template, parse_u64_spec(raw).unwrap())
    }

    fn try_from_template(template: &CarbondioxideSensorTemplate, value: &str) -> (r: Result<
        Self,
        SensorTemplateError,
    >) {
        assert(Self::spec_accepts(value@) == (parse_u64_spec(value@) is Some));
        match parse_u64(value) {
            Some(v) => {
                let rec = CarbondioxideSensor {
                    metadata: template.metadata.clone(),
                    unit: template.unit.clone(),
                    value: v,
                };
                assert(rec == Self::spec_from_template(*template, value@));
                Ok(rec)
            },
            None => Err(
                SensorTemplateError::InvalidMeasurement {
                    kind: SensorKind::Carbondioxide,
                    raw: value.to_owned(),
                },
            ),
        }
    }
}

impl SensorTemplate for CarbondioxideSensorTemplate {
    open spec fn spec_kind(&self) -> SensorKind {
        SensorKind::Carbondioxide
    }

    open spec fn spec_accepts(&self, raw: Seq<char>) -> bool {
        parse_u64_spec(raw) is Some
    }

    open spec fn spec_pushed(&self, sensors: SensorsView, raw: Seq<char>) -> SensorsView {
        SensorsView {
            carbondioxide: sensors.carbondioxide.push(
                CarbondioxideSensor::from_reading(*self, parse_u64_spec(raw).unwrap()),
            ),
        }
    }

    fn try_to_sensor(&self, value_str: &str, sensors: &mut Sensors) -> (r: Result<
        (),
        SensorTemplateError,
    >) {
        match CarbondioxideSensor::try_from_template(self, value_str) {
            Ok(record) => {
                sensors.carbondioxide.push(record);
                Ok(())
            },
            Err(e) => Err(e),
        }
    }
}

/// Every decimal numeral in the range of `u64` is accepted, and the record
/// holds its value beside exact copies of the template's metadata and unit.
pub proof fn lemma_numeral_accepted(template: CarbondioxideSensorTemplate, raw: Seq<char>)
    requires
        raw.len() > 0,
        all_digits(raw),
        digits_value(raw) <= u64::MAX,
    ensures
        template.spec_accepts(raw),
        CarbondioxideSensor::spec_accepts(raw),
        CarbondioxideSensor::spec_from_template(template, raw).value == digits_value(raw),
        CarbondioxideSensor::spec_from_template(template, raw).metadata == template.metadata,
        CarbondioxideSensor::spec_from_template(template, raw).unit == template.unit,
{
    assert(raw[0] != '+');
    assert(unsigned_digits(raw) == raw);
}

/// Text that is empty after an optional `+`, holds a character other than a
/// digit there, or names a number beyond `u64::MAX` is rejected.
pub proof fn lemma_non_numeral_rejected(template: CarbondioxideSensorTemplate, raw: Seq<char>)
    requires
        unsigned_digits(raw).len() == 0 || !all_digits(unsigned_digits(raw)) || digits_value(
            unsigned_digits(raw),
        ) > u64::MAX,
    ensures
        !template.spec_accepts(raw),
        !CarbondioxideSensor::spec_accepts(raw),
{
}

/// Two records built from one template carry the same metadata and unit,
/// and differ at most in their measured values.
pub proof fn lemma_records_share_template_fields(
    template: CarbondioxideSensorTemplate,
    a: Seq<char>,
    b: Seq<char>,
)
    requires
        CarbondioxideSensor::spec_accepts(a),
        CarbondioxideSensor::spec_accepts(b),
    ensures
        ({
            let ra = CarbondioxideSensor::spec_from_template(template, a);
            let rb = CarbondioxideSensor::spec_from_template(template, b);
            &&& ra.metadata == rb.metadata
            &&& ra.unit == rb.unit
            &&& ra.value == parse_u64_spec(a).unwrap()
            &&& rb.value == parse_u64_spec(b).unwrap()
            &&& (ra == rb <==> ra.value == rb.value)
        }),
{
}

/// Three accepted readings applied one after another land at the end of the
/// slot in the order in which they were applied, after what was there.
pub proof fn lemma_pushes_keep_order(
    template: CarbondioxideSensorTemplate,
    sensors: SensorsView,
    v1: Seq<char>,
    v2: Seq<char>,
    v3: Seq<char>,
)
    requires
        template.spec_accepts(v1),
        template.spec_accepts(v2),
        template.spec_accepts(v3),
    ensures
        template.spec_pushed(
            template.spec_pushed(template.spec_pushed(sensors, v1), v2),
            v3,
        ).carbondioxide == sensors.carbondioxide + seq![
            CarbondioxideSensor::spec_from_template(template, v1),
            CarbondioxideSensor::spec_from_template(template, v2),
            CarbondioxideSensor::spec_from_template(template, v3),
        ],
{
    let s3 = template.spec_pushed(
        template.spec_pushed(template.spec_pushed(sensors, v1), v2),
        v3,
    );
    assert(s3.carbondioxide =~= sensors.carbondioxide + seq![
        CarbondioxideSensor::spec_from_template(template, v1),
        CarbondioxideSensor::spec_from_template(template, v2),
        CarbondioxideSensor::spec_from_template(template, v3),
    ]);
}

} // verus!

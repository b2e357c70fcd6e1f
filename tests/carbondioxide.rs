use sensor_records::decimal::parse_u64;
use sensor_records::{
    CarbondioxideSensor, CarbondioxideSensorTemplate, FromSensorTemplate, SensorKind,
    SensorMetadataWithLocation, SensorTemplate, SensorTemplateError, Sensors,
};
use serde::ser::{SerializeStruct, Serializer};
use serde::Serialize;

/// A record written with its metadata fields beside its own.
struct Flat<'a>(&'a CarbondioxideSensor);

impl Serialize for Flat<'_> {
    fn serialize<S: Serializer>(&self, serializer: S) -> Result<S::Ok, S::Error> {
        let mut st = serializer.serialize_struct("CarbondioxideSensor", 4)?;
        st.serialize_field("location", &self.0.metadata.location)?;
        st.serialize_field("description", &self.0.metadata.description)?;
        st.serialize_field("unit", &self.0.unit)?;
        st.serialize_field("value", &self.0.value)?;
        st.end()
    }
}

fn to_json(records: &[CarbondioxideSensor]) -> String {
    let flat: Vec<Flat> = records.iter().map(Flat).collect();
    serde_json::to_string(&flat).unwrap()
}

fn main_room() -> CarbondioxideSensorTemplate {
    CarbondioxideSensorTemplate {
        metadata: SensorMetadataWithLocation {
            location: "Main Room".into(),
            description: Some("Centre of main room on ground floor".into()),
        },
        unit: "ppm".into(),
    }
}

#[test]
fn test_template() {
    let template = CarbondioxideSensorTemplate {
        metadata: SensorMetadataWithLocation {
            location: "Main Room".into(),
            description: Some("Centre of main room on ground floor".into()),
            ..Default::default()
        },
        unit: "ppm".into(),
    };

    let mut sensors = Sensors::default();
    template.to_sensor("1234", &mut sensors);

    assert_eq!(
        "[{\"location\":\"Main Room\",\"description\":\"Centre of main room on ground floor\",\"unit\":\"ppm\",\"value\":1234}]",
        to_json(&sensors.carbondioxide)
    );
}

#[test]
fn test_template_bad_float() {
    let template = CarbondioxideSensorTemplate {
        metadata: SensorMetadataWithLocation {
            location: "Main Room".into(),
            description: Some("Centre of main room on ground floor".into()),
            ..Default::default()
        },
        unit: "ppm".into(),
    };

    let mut sensors = Sensors::default();
    let result = template.try_to_sensor("one thousand two hundred thirty four", &mut sensors);

    assert!(result.is_err());
    assert_eq!(
        "sensor integer value cannot be parsed",
        result.err().unwrap().to_string()
    );
}

#[test]
fn bad_reading_leaves_aggregate_empty() {
    let template = main_room();
    let mut sensors = Sensors::default();
    let result = template.try_to_sensor("one thousand two hundred thirty four", &mut sensors);
    assert!(result.is_err());
    assert!(sensors.carbondioxide.is_empty());
}

#[test]
fn valid_numerals_are_accepted_with_their_value() {
    let template = main_room();
    for (raw, expected) in [
        ("0", 0u64),
        ("1234", 1234),
        ("007", 7),
        ("+42", 42),
        ("18446744073709551615", u64::MAX),
    ] {
        let record = CarbondioxideSensor::try_from_template(&template, raw).unwrap();
        assert_eq!(record.value, expected);
        assert_eq!(record.metadata, template.metadata);
        assert_eq!(record.unit, template.unit);
    }
}

#[test]
fn invalid_numerals_are_rejected() {
    let template = main_room();
    for raw in [
        "",
        "+",
        "-0",
        "-1",
        " 1",
        "1 ",
        "12a",
        "abc",
        "1.5",
        "18446744073709551616",
        "99999999999999999999",
        "١٢",
    ] {
        let mut sensors = Sensors::default();
        sensors.carbondioxide.push(CarbondioxideSensor::try_from_template(&template, "5").unwrap());
        let before = sensors.carbondioxide.clone();
        match template.try_to_sensor(raw, &mut sensors) {
            Err(SensorTemplateError::InvalidMeasurement { kind, raw: got }) => {
                assert_eq!(kind, SensorKind::Carbondioxide);
                assert_eq!(got, raw);
            }
            Ok(()) => panic!("{raw:?} was accepted"),
        }
        assert_eq!(sensors.carbondioxide, before);
    }
}

#[test]
fn parser_agrees_with_std() {
    let inputs = [
        "", "+", "-", "0", "+0", "-0", "00", "9", "10", "+18446744073709551615",
        "18446744073709551615", "18446744073709551616", "18446744073709551619",
        "184467440737095516150", "1844674407370955161", "1_000", "0x10", "12 ", "\t12", "é",
        "++1", "+-1", "4294967296",
    ];
    for raw in inputs {
        assert_eq!(parse_u64(raw), raw.parse::<u64>().ok(), "input {raw:?}");
    }
}

#[test]
fn records_from_one_template_share_fields() {
    let template = main_room();
    let a = CarbondioxideSensor::try_from_template(&template, "400").unwrap();
    let b = CarbondioxideSensor::try_from_template(&template, "1250").unwrap();
    assert_eq!(a.metadata, b.metadata);
    assert_eq!(a.unit, b.unit);
    assert_eq!(a.value, 400);
    assert_eq!(b.value, 1250);
    assert_ne!(a, b);
}

#[test]
fn applied_readings_keep_their_order() {
    let template = main_room();
    let mut sensors = Sensors::default();
    template.to_sensor("3", &mut sensors);
    template.to_sensor("1", &mut sensors);
    template.to_sensor("not a number", &mut sensors);
    template.to_sensor("2", &mut sensors);
    let values: Vec<u64> = sensors.carbondioxide.iter().map(|r| r.value).collect();
    assert_eq!(values, vec![3, 1, 2]);
}

#[test]
fn to_sensor_drops_bad_reading() {
    let template = main_room();
    let mut sensors = Sensors::default();
    template.to_sensor("", &mut sensors);
    assert!(sensors.carbondioxide.is_empty());
}

#[test]
fn error_reports_kind() {
    let template = main_room();
    let err = CarbondioxideSensor::try_from_template(&template, "x").err().unwrap();
    assert_eq!(err.kind(), SensorKind::Carbondioxide);
    assert_eq!(err.to_string(), "sensor integer value cannot be parsed");
}

#[test]
fn template_without_description_serialises_null() {
    let template = CarbondioxideSensorTemplate {
        metadata: SensorMetadataWithLocation {
            location: "Hall".into(),
            description: None,
        },
        unit: "ppm".into(),
    };
    let mut sensors = Sensors::default();
    template.to_sensor("+0", &mut sensors);
    assert_eq!(
        "[{\"location\":\"Hall\",\"description\":null,\"unit\":\"ppm\",\"value\":0}]",
        to_json(&sensors.carbondioxide)
    );
}

#[test]
fn clone_and_default_keep_fields() {
    let template = main_room();
    let copy = template.clone();
    assert_eq!(copy.metadata, template.metadata);
    assert_eq!(copy.unit, "ppm");
    let record = CarbondioxideSensor::default();
    assert_eq!(record.value, 0);
    assert_eq!(record.unit, "");
    assert_eq!(record.metadata, SensorMetadataWithLocation::default());
    assert_eq!(record.clone(), record);
    let other = SensorMetadataWithLocation {
        location: "Main Room".into(),
        description: None,
    };
    assert_ne!(other, template.metadata);
}

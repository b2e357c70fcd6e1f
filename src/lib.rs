//! Typed records of environmental sensor readings, built from per-kind
//! templates and raw textual measurement values.
pub mod aggregate;
pub mod carbondioxide;
pub mod decimal;
pub mod metadata;
pub mod template;

pub use aggregate::Sensors;
pub use carbondioxide::{CarbondioxideSensor, CarbondioxideSensorTemplate};
pub use metadata::SensorMetadataWithLocation;
pub use template::{FromSensorTemplate, SensorKind, SensorTemplate, SensorTemplateError};

//! Discovery and sampling of hardware sensors gathered from several native
//! backends, presented as one ordered, classified collection.
pub mod kind;
pub mod sensor;
pub mod registry;

pub use kind::SensorType;
pub use sensor::{RawSensor, Sensor};

//! Entity descriptors for MQTT-based home-automation discovery: typed
//! configuration values, an exhaustive validation engine and a compact
//! field-mapping codec.

pub mod codec;
pub mod entity;
pub mod field;
pub mod round_trip;
pub mod sensor;
pub mod switch;
pub mod validate;
pub mod value;
pub mod wire;

pub use codec::DecodeError;
pub use entity::{Availability, Connection, Device, Entity};
pub use field::DecodeReason;
pub use sensor::Sensor;
pub use switch::Switch;
pub use validate::{DeviceInvalidity, EntityInvalidity};
pub use value::{
    AvailabilityMode, DeviceClass, EntityCategory, MqttQoS, Payload, StateClass, Template, Topic,
    ValueError,
};
pub use wire::{Entry, FieldKey, Leaf, WireField, WireValue};

use hass_discovery::codec::DecodeError;
use hass_discovery::field::DecodeReason;
use hass_discovery::wire::{Entry, FieldKey, Leaf, WireField, WireValue};
use hass_discovery::{
    Availability, AvailabilityMode, Connection, Device, DeviceClass, DeviceInvalidity, Entity,
    EntityCategory, EntityInvalidity, MqttQoS, Payload, Sensor, StateClass, Switch, Template,
    Topic, ValueError,
};

fn topic(s: &str) -> Topic {
    Topic(s.to_string())
}

fn bare_switch() -> Switch {
    Switch {
        entity: Entity::default(),
        command_topic: None,
        device_class: DeviceClass::Absent,
        optimistic: None,
        payload_off: None,
        payload_on: None,
        retain: None,
        state_off: None,
        state_on: None,
        state_topic: None,
        value_template: None,
    }
}

fn bare_sensor(state_topic: &str) -> Sensor {
    Sensor {
        entity: Entity::default(),
        device_class: DeviceClass::Absent,
        expire_after: None,
        force_update: None,
        last_reset_value_template: None,
        state_class: StateClass::Absent,
        state_topic: topic(state_topic),
        unit_of_measurement: None,
        value_template: None,
    }
}

fn full_switch() -> Switch {
    let mut s = bare_switch();
    s.entity.availability = vec![Availability {
        topic: topic("home/switch/lamp/available"),
        value_template: Some(Template("{{ value_json.state }}".to_string())),
        payload_available: Some("up".to_string()),
        payload_not_available: None,
    }];
    s.entity.availability_mode = AvailabilityMode::All;
    s.entity.device = Some(Device {
        identifiers: vec!["lamp-01".to_string()],
        connections: vec![Connection { kind: "mac".to_string(), id: "02:5b:26:a8:dc:12".to_string() }],
        manufacturer: Some("Acme".to_string()),
        model: None,
        name: Some("Lamp".to_string()),
        sw_version: None,
    });
    s.entity.entity_category = EntityCategory::Config;
    s.entity.icon = Some("mdi:lamp".to_string());
    s.entity.name = Some("Lamp".to_string());
    s.entity.qos = MqttQoS::AtLeastOnce;
    s.entity.unique_id = Some("lamp-01-switch".to_string());
    s.command_topic = Some(topic("home/switch/lamp/set"));
    s.device_class = DeviceClass::Outlet;
    s.optimistic = Some(false);
    s.payload_on = Some(Payload("ON".to_string()));
    s.payload_off = Some(Payload("OFF".to_string()));
    s.retain = Some(true);
    s.state_on = Some(Payload("on".to_string()));
    s.state_off = Some(Payload("off".to_string()));
    s.state_topic = Some(topic("home/switch/lamp/state"));
    s.value_template = Some(Template("{{ value }}".to_string()));
    s
}

fn keys(fields: &[WireField]) -> Vec<FieldKey> {
    fields.iter().map(|f| f.key).collect()
}

#[test]
fn sensor_with_only_state_topic_encodes_one_field() {
    let s = bare_sensor("home/sensor/temp/state");
    assert_eq!(s.validate(), Ok(()));
    let fields = s.encode();
    assert_eq!(
        fields,
        vec![WireField {
            key: FieldKey::StateTopic,
            value: WireValue::Leaf(Leaf::Text("home/sensor/temp/state".to_string())),
        }]
    );
}

#[test]
fn valid_switch_round_trips() {
    let s = full_switch();
    assert_eq!(s.validate(), Ok(()));
    let first = s.encode();
    let back = Switch::decode(&first).unwrap();
    assert_eq!(back, s);
    assert_eq!(back.encode(), first);
}

#[test]
fn valid_sensor_round_trips() {
    let mut s = bare_sensor("home/sensor/temp/state");
    s.device_class = DeviceClass::Temperature;
    s.state_class = StateClass::Measurement;
    s.expire_after = Some(600);
    s.unit_of_measurement = Some("°C".to_string());
    s.entity.availability_topic = Some(topic("home/sensor/temp/available"));
    assert_eq!(s.validate(), Ok(()));
    let first = s.encode();
    let back = Sensor::decode(&first).unwrap();
    assert_eq!(back, s);
    assert_eq!(back.encode(), first);
}

#[test]
fn availability_conflict_is_reported_once() {
    let mut s = full_switch();
    s.entity.availability_topic = Some(topic("home/switch/lamp/online"));
    assert_eq!(s.validate(), Err(vec![EntityInvalidity::AvailabilityConflict]));
    let mut e = Entity::default();
    e.availability = s.entity.availability.clone();
    e.availability_topic = Some(topic(""));
    assert_eq!(
        e.validate(),
        Err(vec![
            EntityInvalidity::AvailabilityConflict,
            EntityInvalidity::Topic(ValueError::EmptyTopic),
        ])
    );
}

#[test]
fn device_without_identity_is_reported() {
    let mut s = bare_sensor("home/sensor/temp/state");
    s.entity.device = Some(Device {
        identifiers: vec![],
        connections: vec![],
        manufacturer: Some("Acme".to_string()),
        model: None,
        name: None,
        sw_version: None,
    });
    assert_eq!(
        s.validate(),
        Err(vec![EntityInvalidity::Device(DeviceInvalidity::MissingIdentity)])
    );
}

#[test]
fn switch_reports_every_violation() {
    let mut s = bare_switch();
    s.command_topic = Some(topic(""));
    s.state_on = Some(Payload(String::new()));
    assert_eq!(
        s.validate(),
        Err(vec![
            EntityInvalidity::Topic(ValueError::EmptyTopic),
            EntityInvalidity::Payload(ValueError::EmptyPayload),
        ])
    );
}

#[test]
fn violations_follow_field_order() {
    let mut s = bare_switch();
    s.entity.availability = vec![
        Availability {
            topic: topic("a/+/b"),
            value_template: Some(Template(String::new())),
            payload_available: None,
            payload_not_available: None,
        },
        Availability {
            topic: topic(""),
            value_template: None,
            payload_available: None,
            payload_not_available: None,
        },
    ];
    s.entity.json_attributes_topic = Some(topic("attrs/#"));
    s.command_topic = Some(topic("lamp/+/set"));
    s.value_template = Some(Template(String::new()));
    s.payload_off = Some(Payload(String::new()));
    assert_eq!(
        s.validate(),
        Err(vec![
            EntityInvalidity::Template(ValueError::EmptyTemplate),
            EntityInvalidity::Topic(ValueError::EmptyTopic),
            EntityInvalidity::Topic(ValueError::WildcardTopic),
            EntityInvalidity::Payload(ValueError::EmptyPayload),
            EntityInvalidity::Template(ValueError::EmptyTemplate),
        ])
    );
}

#[test]
fn absent_device_class_is_omitted() {
    let mut s = full_switch();
    s.device_class = DeviceClass::Absent;
    let fields = s.encode();
    assert!(!keys(&fields).contains(&FieldKey::DeviceClass));
    let back = Switch::decode(&fields).unwrap();
    assert_eq!(back.device_class, DeviceClass::Absent);
    let sensor = Sensor::decode(&bare_sensor("t").encode()).unwrap();
    assert_eq!(sensor.device_class, DeviceClass::Absent);
}

#[test]
fn unrecognized_field_is_ignored() {
    let s = full_switch();
    let mut fields = s.encode();
    fields.insert(
        2,
        WireField { key: FieldKey::Unrecognized, value: WireValue::Leaf(Leaf::Number(42)) },
    );
    assert_eq!(Switch::decode(&fields), Ok(s));
}

#[test]
fn qos_out_of_range_fails_naming_qos() {
    let fields = vec![
        WireField { key: FieldKey::StateTopic, value: WireValue::Leaf(Leaf::Text("t".to_string())) },
        WireField { key: FieldKey::Qos, value: WireValue::Leaf(Leaf::Number(5)) },
    ];
    let expected = DecodeError {
        field: FieldKey::Qos,
        reason: DecodeReason::Shape(ValueError::InvalidQoS),
    };
    assert_eq!(Switch::decode(&fields), Err(expected));
    assert_eq!(Sensor::decode(&fields), Err(expected));
}

#[test]
fn qos_levels() {
    assert_eq!(MqttQoS::from_level(0), Ok(MqttQoS::AtMostOnce));
    assert_eq!(MqttQoS::from_level(1), Ok(MqttQoS::AtLeastOnce));
    assert_eq!(MqttQoS::from_level(2), Ok(MqttQoS::ExactlyOnce));
    assert_eq!(MqttQoS::from_level(3), Err(ValueError::InvalidQoS));
    assert_eq!(MqttQoS::ExactlyOnce.level(), 2);
    let mut s = bare_sensor("t");
    s.entity.qos = MqttQoS::ExactlyOnce;
    let fields = s.encode();
    assert_eq!(fields[0], WireField { key: FieldKey::Qos, value: WireValue::Leaf(Leaf::Number(2)) });
}

#[test]
fn primitive_constructors() {
    assert_eq!(Topic::new(String::new()), Err(ValueError::EmptyTopic));
    assert_eq!(Topic::new("home/+/state".to_string()), Ok(topic("home/+/state")));
    assert_eq!(topic("home/#").check(), None);
    assert_eq!(topic("home/#").check_publish(), Some(ValueError::WildcardTopic));
    assert_eq!(topic("").check_publish(), Some(ValueError::EmptyTopic));
    assert_eq!(topic("home/set").check_publish(), None);
    assert_eq!(Topic::new("home/ünïcode".to_string()), Ok(topic("home/ünïcode")));
    assert_eq!(Payload::new(String::new()), Err(ValueError::EmptyPayload));
    assert_eq!(Payload::new("ON".to_string()), Ok(Payload("ON".to_string())));
    assert_eq!(Template::new(String::new()), Err(ValueError::EmptyTemplate));
}

#[test]
fn tokens() {
    assert_eq!(DeviceClass::from_token("temperature"), Some(DeviceClass::Temperature));
    assert_eq!(DeviceClass::from_token("none"), Some(DeviceClass::Absent));
    assert_eq!(DeviceClass::from_token("Temperature"), None);
    assert_eq!(StateClass::TotalIncreasing.token(), "total_increasing");
    assert_eq!(EntityCategory::from_token("diagnostic"), Some(EntityCategory::Diagnostic));
    assert_eq!(AvailabilityMode::from_token("any"), Some(AvailabilityMode::Any));
    assert_eq!(AvailabilityMode::Latest.token(), "latest");
}

#[test]
fn encoded_enum_fields_carry_tokens() {
    let s = full_switch();
    let fields = s.encode();
    let dc = fields.iter().find(|f| f.key == FieldKey::DeviceClass).unwrap();
    assert_eq!(dc.value, WireValue::Leaf(Leaf::Text("outlet".to_string())));
    let mode = fields.iter().find(|f| f.key == FieldKey::AvailabilityMode).unwrap();
    assert_eq!(mode.value, WireValue::Leaf(Leaf::Text("all".to_string())));
}

#[test]
fn unknown_token_fails() {
    let fields = vec![
        WireField { key: FieldKey::StateTopic, value: WireValue::Leaf(Leaf::Text("t".to_string())) },
        WireField { key: FieldKey::DeviceClass, value: WireValue::Leaf(Leaf::Text("laser".to_string())) },
    ];
    assert_eq!(
        Sensor::decode(&fields),
        Err(DecodeError { field: FieldKey::DeviceClass, reason: DecodeReason::UnknownToken })
    );
}

#[test]
fn wrong_kind_fails() {
    let fields = vec![WireField {
        key: FieldKey::CommandTopic,
        value: WireValue::Leaf(Leaf::Flag(true)),
    }];
    assert_eq!(
        Switch::decode(&fields),
        Err(DecodeError { field: FieldKey::CommandTopic, reason: DecodeReason::WrongKind })
    );
    let fields = vec![WireField { key: FieldKey::Name, value: WireValue::Object(vec![]) }];
    assert_eq!(
        Switch::decode(&fields),
        Err(DecodeError { field: FieldKey::Name, reason: DecodeReason::WrongKind })
    );
}

#[test]
fn sensor_needs_state_topic() {
    assert_eq!(
        Sensor::decode(&vec![]),
        Err(DecodeError { field: FieldKey::StateTopic, reason: DecodeReason::Missing })
    );
    let fields = vec![WireField {
        key: FieldKey::StateTopic,
        value: WireValue::Leaf(Leaf::Text(String::new())),
    }];
    assert_eq!(
        Sensor::decode(&fields),
        Err(DecodeError {
            field: FieldKey::StateTopic,
            reason: DecodeReason::Shape(ValueError::EmptyTopic),
        })
    );
}

#[test]
fn nested_availability_errors_name_the_list() {
    let bad = vec![Entry { key: FieldKey::ValueTemplate, value: Leaf::Text("x".to_string()) }];
    let fields = vec![WireField { key: FieldKey::Availability, value: WireValue::Objects(vec![bad]) }];
    assert_eq!(
        Switch::decode(&fields),
        Err(DecodeError { field: FieldKey::Availability, reason: DecodeReason::Missing })
    );
}

#[test]
fn later_field_overrides_earlier() {
    let fields = vec![
        WireField { key: FieldKey::Name, value: WireValue::Leaf(Leaf::Text("first".to_string())) },
        WireField { key: FieldKey::Name, value: WireValue::Leaf(Leaf::Text("second".to_string())) },
    ];
    let s = Switch::decode(&fields).unwrap();
    assert_eq!(s.entity.name, Some("second".to_string()));
}

#[test]
fn expire_after_out_of_range() {
    let fields = vec![
        WireField { key: FieldKey::StateTopic, value: WireValue::Leaf(Leaf::Text("t".to_string())) },
        WireField { key: FieldKey::ExpireAfter, value: WireValue::Leaf(Leaf::Number(1 << 40)) },
    ];
    assert_eq!(
        Sensor::decode(&fields),
        Err(DecodeError { field: FieldKey::ExpireAfter, reason: DecodeReason::OutOfRange })
    );
}

#[test]
fn field_names() {
    assert_eq!(FieldKey::from_name("state_topic"), FieldKey::StateTopic);
    assert_eq!(FieldKey::from_name("json_attributes_template"), FieldKey::JsonAttributesTemplate);
    assert_eq!(FieldKey::from_name("qos"), FieldKey::Qos);
    assert_eq!(FieldKey::from_name("colour"), FieldKey::Unrecognized);
    assert_eq!(FieldKey::PayloadNotAvailable.name(), "payload_not_available");
    assert_eq!(FieldKey::SwVersion.name(), "sw_version");
}

#[test]
fn entity_defaults_are_valid_and_empty() {
    let e = Entity::default();
    assert_eq!(e.validate(), Ok(()));
    assert!(e.encode().is_empty());
    assert_eq!(Entity::decode(&vec![]), Ok(e));
}

//! What holds of encoding followed by decoding.

use crate::codec::{
    availability_decoded, availability_error, availability_list_decoded, availability_list_error,
    availability_list_field_error, device_decoded, device_error, enc_availability,
    enc_availability_list, enc_device, enc_device_field, enc_entity, enc_sensor, enc_switch,
    entity_decoded, entity_error, sensor_decoded, sensor_error, switch_decoded, switch_error,
    DecodeError,
};
use crate::entity::{availability_violations, Availability, Device, Entity};
use crate::field::{
    enc_availability_mode, enc_device_class, enc_entity_category, enc_flag, enc_qos,
    enc_state_class, enc_text, enc_u32, lift, payload_v, template_v, text_v, topic_v, DecodeReason,
};
use crate::sensor::Sensor;
use crate::switch::Switch;
use crate::value::{
    lemma_availability_mode_token, lemma_device_class_token, lemma_entity_category_token,
    lemma_state_class_token, DeviceClass, ValueError,
};
use crate::wire::{
    lemma_lookup_insert, lemma_lookup_none, lemma_lookup_push, lemma_lookup_put,
    lemma_lookup_single, lookup, FieldKey, LeafV, ObjectV, PayloadV, ValueV,
};
use vstd::prelude::*;

verus! {

/// The keys of the shared attributes.
pub open spec fn is_entity_key(k: FieldKey) -> bool {
    match k {
        FieldKey::Availability | FieldKey::AvailabilityMode | FieldKey::AvailabilityTemplate
        | FieldKey::AvailabilityTopic | FieldKey::Device | FieldKey::EnabledByDefault
        | FieldKey::EntityCategory | FieldKey::Icon | FieldKey::JsonAttributesTemplate
        | FieldKey::JsonAttributesTopic | FieldKey::Name | FieldKey::ObjectId | FieldKey::Qos
        | FieldKey::UniqueId => true,
        _ => false,
    }
}

proof fn lemma_availability_entries_valid(s: Seq<Availability>)
    requires
        availability_violations(s).len() == 0,
    ensures
        forall|i: int| 0 <= i < s.len() ==> (#[trigger] s[i]).violations().len() == 0,
    decreases s.len(),
{
    if s.len() > 0 {
        lemma_availability_entries_valid(s.drop_last());
        assert forall|i: int| 0 <= i < s.len() implies (#[trigger] s[i]).violations().len() == 0 by {
            if i < s.len() - 1 {
                assert(s[i] == s.drop_last()[i]);
            }
        }
    }
}

proof fn lemma_availability_decodable(a: Availability)
    requires
        a.violations().len() == 0,
    ensures
        availability_error(enc_availability(a)) is None,
{
    broadcast use {lemma_lookup_put, lemma_lookup_single};

}

proof fn lemma_availability_reencode(a: Availability, b: Availability)
    requires
        a.violations().len() == 0,
        availability_decoded(enc_availability(a), b),
    ensures
        enc_availability(b) == enc_availability(a),
{
    broadcast use {lemma_lookup_put, lemma_lookup_single};

}

proof fn lemma_availability_list_error_none(os: Seq<ObjectV>)
    requires
        forall|i: int| 0 <= i < os.len() ==> availability_error(#[trigger] os[i]) is None,
    ensures
        availability_list_error(os) is None,
    decreases os.len(),
{
    if os.len() > 0 {
        let p = os.drop_last();
        assert forall|i: int| 0 <= i < p.len() implies availability_error(#[trigger] p[i]) is None by {
            assert(p[i] == os[i]);
        }
        lemma_availability_list_error_none(p);
    }
}

proof fn lemma_availability_list_decodable(s: Seq<Availability>)
    requires
        availability_violations(s).len() == 0,
    ensures
        availability_list_field_error(enc_availability_list(s)) is None,
{
    lemma_availability_entries_valid(s);
    if s.len() > 0 {
        let os = s.map_values(|a: Availability| enc_availability(a));
        assert forall|i: int| 0 <= i < os.len() implies availability_error(#[trigger] os[i]) is None by {
            lemma_availability_decodable(s[i]);
        }
        lemma_availability_list_error_none(os);
    }
}

proof fn lemma_availability_list_reencode(s: Seq<Availability>, t: Seq<Availability>)
    requires
        availability_violations(s).len() == 0,
        availability_list_decoded(enc_availability_list(s), t),
    ensures
        enc_availability_list(t) == enc_availability_list(s),
{
    lemma_availability_entries_valid(s);
    if s.len() > 0 {
        let os = s.map_values(|a: Availability| enc_availability(a));
        assert forall|i: int| 0 <= i < t.len() implies enc_availability(#[trigger] t[i])
            == enc_availability(s[i]) by {
            assert(availability_decoded(os[i], t[i]));
            lemma_availability_reencode(s[i], t[i]);
        }
        assert(t.map_values(|a: Availability| enc_availability(a)) =~= os);
    }
}

proof fn lemma_device_round_trip(d: Device)
    ensures
        device_error(enc_device(d)) is None,
        forall|d2: Device| #[trigger]
            device_decoded(enc_device(d), d2) ==> enc_device(d2) == enc_device(d),
{
    broadcast use {lemma_lookup_put, lemma_lookup_single};

}

/// The encoding of the shared attributes depends only on the encoding of
/// each field.
proof fn lemma_enc_entity_fields(e: Entity, e2: Entity)
    requires
        enc_availability_list(e2.availability@) == enc_availability_list(e.availability@),
        lift(enc_availability_mode(e2.availability_mode)) == lift(enc_availability_mode(e.availability_mode)),
        lift(enc_text(template_v(e2.availability_template))) == lift(enc_text(template_v(e.availability_template))),
        lift(enc_text(topic_v(e2.availability_topic))) == lift(enc_text(topic_v(e.availability_topic))),
        enc_device_field(e2.device) == enc_device_field(e.device),
        lift(enc_flag(e2.enabled_by_default)) == lift(enc_flag(e.enabled_by_default)),
        lift(enc_entity_category(e2.entity_category)) == lift(enc_entity_category(e.entity_category)),
        lift(enc_text(text_v(e2.icon))) == lift(enc_text(text_v(e.icon))),
        lift(enc_text(template_v(e2.json_attributes_template))) == lift(enc_text(template_v(e.json_attributes_template))),
        lift(enc_text(topic_v(e2.json_attributes_topic))) == lift(enc_text(topic_v(e.json_attributes_topic))),
        lift(enc_text(text_v(e2.name))) == lift(enc_text(text_v(e.name))),
        lift(enc_text(text_v(e2.object_id))) == lift(enc_text(text_v(e.object_id))),
        lift(enc_qos(e2.qos)) == lift(enc_qos(e.qos)),
        lift(enc_text(text_v(e2.unique_id))) == lift(enc_text(text_v(e.unique_id))),
    ensures
        enc_entity(e2) == enc_entity(e),
{
    reveal(enc_entity);
}

/// The encoding of the shared attributes holds no other key.
proof fn lemma_entity_other_keys(e: Entity, q: FieldKey)
    requires
        !is_entity_key(q),
    ensures
        lookup(enc_entity(e), q) is None,
{
    reveal(enc_entity);
    broadcast use {lemma_lookup_put, lemma_lookup_single};

}


proof fn lemma_entity_lookups(e: Entity, w: PayloadV)
    requires
        w == enc_entity(e),
    ensures
        lookup(w, FieldKey::Availability) == enc_availability_list(e.availability@),
        lookup(w, FieldKey::AvailabilityMode) == lift(enc_availability_mode(e.availability_mode)),
        lookup(w, FieldKey::AvailabilityTemplate) == lift(enc_text(template_v(e.availability_template))),
        lookup(w, FieldKey::AvailabilityTopic) == lift(enc_text(topic_v(e.availability_topic))),
        lookup(w, FieldKey::Device) == enc_device_field(e.device),
        lookup(w, FieldKey::EnabledByDefault) == lift(enc_flag(e.enabled_by_default)),
        lookup(w, FieldKey::EntityCategory) == lift(enc_entity_category(e.entity_category)),
        lookup(w, FieldKey::Icon) == lift(enc_text(text_v(e.icon))),
        lookup(w, FieldKey::JsonAttributesTemplate) == lift(enc_text(template_v(e.json_attributes_template))),
        lookup(w, FieldKey::JsonAttributesTopic) == lift(enc_text(topic_v(e.json_attributes_topic))),
        lookup(w, FieldKey::Name) == lift(enc_text(text_v(e.name))),
        lookup(w, FieldKey::ObjectId) == lift(enc_text(text_v(e.object_id))),
        lookup(w, FieldKey::Qos) == lift(enc_qos(e.qos)),
        lookup(w, FieldKey::UniqueId) == lift(enc_text(text_v(e.unique_id))),
{
    reveal(enc_entity);
    broadcast use {lemma_lookup_put, lemma_lookup_single};

}

proof fn lemma_switch_lookups(s: Switch, w: PayloadV)
    requires
        w == enc_switch(s),
    ensures
        lookup(w, FieldKey::CommandTopic) == lift(enc_text(topic_v(s.command_topic))),
        lookup(w, FieldKey::DeviceClass) == lift(enc_device_class(s.device_class)),
        lookup(w, FieldKey::Optimistic) == lift(enc_flag(s.optimistic)),
        lookup(w, FieldKey::PayloadOff) == lift(enc_text(payload_v(s.payload_off))),
        lookup(w, FieldKey::PayloadOn) == lift(enc_text(payload_v(s.payload_on))),
        lookup(w, FieldKey::Retain) == lift(enc_flag(s.retain)),
        lookup(w, FieldKey::StateOff) == lift(enc_text(payload_v(s.state_off))),
        lookup(w, FieldKey::StateOn) == lift(enc_text(payload_v(s.state_on))),
        lookup(w, FieldKey::StateTopic) == lift(enc_text(topic_v(s.state_topic))),
        lookup(w, FieldKey::ValueTemplate) == lift(enc_text(template_v(s.value_template))),
        forall|q: FieldKey| is_entity_key(q) ==> #[trigger] lookup(w, q) == lookup(enc_entity(s.entity), q),
{
    lemma_entity_lookups(s.entity, enc_entity(s.entity));
    assert forall|q: FieldKey| !is_entity_key(q) implies #[trigger] lookup(enc_entity(s.entity), q) is None by {
        lemma_entity_other_keys(s.entity, q);
    }
    broadcast use {lemma_lookup_put, lemma_lookup_single};

}

proof fn lemma_sensor_lookups(s: Sensor, w: PayloadV)
    requires
        w == enc_sensor(s),
    ensures
        lookup(w, FieldKey::DeviceClass) == lift(enc_device_class(s.device_class)),
        lookup(w, FieldKey::ExpireAfter) == lift(enc_u32(s.expire_after)),
        lookup(w, FieldKey::ForceUpdate) == lift(enc_flag(s.force_update)),
        lookup(w, FieldKey::LastResetValueTemplate) == lift(enc_text(template_v(s.last_reset_value_template))),
        lookup(w, FieldKey::StateClass) == lift(enc_state_class(s.state_class)),
        lookup(w, FieldKey::StateTopic) == Some(ValueV::Leaf(LeafV::Text(s.state_topic.0@))),
        lookup(w, FieldKey::UnitOfMeasurement) == lift(enc_text(text_v(s.unit_of_measurement))),
        lookup(w, FieldKey::ValueTemplate) == lift(enc_text(template_v(s.value_template))),
        forall|q: FieldKey| is_entity_key(q) ==> #[trigger] lookup(w, q) == lookup(enc_entity(s.entity), q),
{
    lemma_entity_lookups(s.entity, enc_entity(s.entity));
    assert forall|q: FieldKey| !is_entity_key(q) implies #[trigger] lookup(enc_entity(s.entity), q) is None by {
        lemma_entity_other_keys(s.entity, q);
    }
    broadcast use {lemma_lookup_put, lemma_lookup_single};

}


/// Decoding a payload that agrees with the encoding of a valid entity on
/// every key of the shared attributes fails on none of them.
proof fn lemma_entity_decodable(e: Entity, w: PayloadV)
    requires
        e.violations().len() == 0,
        forall|k: FieldKey| is_entity_key(k) ==> #[trigger] lookup(w, k) == lookup(enc_entity(e), k),
    ensures
        entity_error(w) is None,
{
    reveal(Entity::violations);
    lemma_entity_lookups(e, enc_entity(e));
    lemma_availability_list_decodable(e.availability@);
    if let Some(d) = e.device {
        lemma_device_round_trip(d);
    }
    lemma_entity_category_token(e.entity_category);
    lemma_availability_mode_token(e.availability_mode);
    assert(lookup(w, FieldKey::Availability) == lookup(enc_entity(e), FieldKey::Availability));
}

proof fn lemma_entity_reencode(e: Entity, e2: Entity, w: PayloadV)
    requires
        e.violations().len() == 0,
        forall|k: FieldKey| is_entity_key(k) ==> #[trigger] lookup(w, k) == lookup(enc_entity(e), k),
        entity_decoded(w, e2),
    ensures
        enc_entity(e2) == enc_entity(e),
{
    reveal(Entity::violations);
    lemma_entity_lookups(e, enc_entity(e));
    assert(lookup(w, FieldKey::Availability) == lookup(enc_entity(e), FieldKey::Availability));
    lemma_availability_list_reencode(e.availability@, e2.availability@);
    if let Some(d) = e.device {
        lemma_device_round_trip(d);
    }
    lemma_entity_category_token(e.entity_category);
    lemma_availability_mode_token(e.availability_mode);
    lemma_enc_entity_fields(e, e2);
}

/// The payload of a valid switch decodes without failure.
pub proof fn lemma_switch_decodable(x: Switch)
    requires
        x.violations().len() == 0,
    ensures
        switch_error(enc_switch(x)) is None,
{
    let w = enc_switch(x);
    lemma_switch_lookups(x, w);
    assert(x.entity.violations().len() == 0 && x.own_violations().len() == 0);
    lemma_entity_decodable(x.entity, w);
    lemma_device_class_token(x.device_class);
}

/// Encoding a valid switch, decoding that payload and encoding the result
/// again gives back the first payload; the decoding does not fail.
pub proof fn lemma_switch_round_trip(x: Switch, y: Switch)
    requires
        x.violations().len() == 0,
        switch_decoded(enc_switch(x), y),
    ensures
        switch_error(enc_switch(x)) is None,
        enc_switch(y) == enc_switch(x),
{
    let w = enc_switch(x);
    lemma_switch_lookups(x, w);
    assert(x.entity.violations().len() == 0 && x.own_violations().len() == 0);
    lemma_entity_decodable(x.entity, w);
    lemma_entity_reencode(x.entity, y.entity, w);
    lemma_device_class_token(x.device_class);
}

/// The payload of a valid sensor decodes without failure.
pub proof fn lemma_sensor_decodable(x: Sensor)
    requires
        x.violations().len() == 0,
    ensures
        sensor_error(enc_sensor(x)) is None,
{
    let w = enc_sensor(x);
    lemma_sensor_lookups(x, w);
    assert(x.entity.violations().len() == 0 && x.own_violations().len() == 0);
    lemma_entity_decodable(x.entity, w);
    lemma_device_class_token(x.device_class);
    lemma_state_class_token(x.state_class);
}

/// Encoding a valid sensor, decoding that payload and encoding the result
/// again gives back the first payload; the decoding does not fail.
pub proof fn lemma_sensor_round_trip(x: Sensor, y: Sensor)
    requires
        x.violations().len() == 0,
        sensor_decoded(enc_sensor(x), y),
    ensures
        sensor_error(enc_sensor(x)) is None,
        enc_sensor(y) == enc_sensor(x),
{
    let w = enc_sensor(x);
    lemma_sensor_lookups(x, w);
    assert(x.entity.violations().len() == 0 && x.own_violations().len() == 0);
    lemma_entity_decodable(x.entity, w);
    lemma_entity_reencode(x.entity, y.entity, w);
    lemma_device_class_token(x.device_class);
    lemma_state_class_token(x.state_class);
}

/// A switch whose device class is absent has no device class field in its
/// payload.
pub proof fn lemma_switch_absent_device_class(s: Switch)
    requires
        s.device_class == DeviceClass::Absent,
    ensures
        forall|i: int| 0 <= i < enc_switch(s).len() ==> (#[trigger] enc_switch(s)[i]).0 != FieldKey::DeviceClass,
{
    lemma_switch_lookups(s, enc_switch(s));
    lemma_lookup_none(enc_switch(s), FieldKey::DeviceClass);
}

/// A sensor whose device class is absent has no device class field in its
/// payload.
pub proof fn lemma_sensor_absent_device_class(s: Sensor)
    requires
        s.device_class == DeviceClass::Absent,
    ensures
        forall|i: int| 0 <= i < enc_sensor(s).len() ==> (#[trigger] enc_sensor(s)[i]).0 != FieldKey::DeviceClass,
{
    lemma_sensor_lookups(s, enc_sensor(s));
    lemma_lookup_none(enc_sensor(s), FieldKey::DeviceClass);
}

/// A payload without a device class field decodes to a switch whose device
/// class is absent.
pub proof fn lemma_switch_missing_device_class(w: PayloadV, s: Switch)
    requires
        forall|i: int| 0 <= i < w.len() ==> (#[trigger] w[i]).0 != FieldKey::DeviceClass,
        switch_decoded(w, s),
    ensures
        s.device_class == DeviceClass::Absent,
{
    lemma_lookup_none(w, FieldKey::DeviceClass);
}

/// A payload without a device class field decodes to a sensor whose device
/// class is absent.
pub proof fn lemma_sensor_missing_device_class(w: PayloadV, s: Sensor)
    requires
        forall|i: int| 0 <= i < w.len() ==> (#[trigger] w[i]).0 != FieldKey::DeviceClass,
        sensor_decoded(w, s),
    ensures
        s.device_class == DeviceClass::Absent,
{
    lemma_lookup_none(w, FieldKey::DeviceClass);
}

/// An unrecognised field, wherever it stands, changes neither whether a
/// switch payload decodes nor what it decodes to.
pub proof fn lemma_switch_ignores_unrecognized(w: PayloadV, i: int, v: ValueV, y: Switch)
    requires
        0 <= i <= w.len(),
    ensures
        switch_error(w.insert(i, (FieldKey::Unrecognized, v))) == switch_error(w),
        switch_decoded(w.insert(i, (FieldKey::Unrecognized, v)), y) == switch_decoded(w, y),
{
    let w2 = w.insert(i, (FieldKey::Unrecognized, v));
    assert forall|k: FieldKey| k != FieldKey::Unrecognized implies #[trigger] lookup(w2, k) == lookup(w, k) by {
        lemma_lookup_insert(w, i, (FieldKey::Unrecognized, v), k);
    }
}

/// An unrecognised field, wherever it stands, changes neither whether a
/// sensor payload decodes nor what it decodes to.
pub proof fn lemma_sensor_ignores_unrecognized(w: PayloadV, i: int, v: ValueV, y: Sensor)
    requires
        0 <= i <= w.len(),
    ensures
        sensor_error(w.insert(i, (FieldKey::Unrecognized, v))) == sensor_error(w),
        sensor_decoded(w.insert(i, (FieldKey::Unrecognized, v)), y) == sensor_decoded(w, y),
{
    let w2 = w.insert(i, (FieldKey::Unrecognized, v));
    assert forall|k: FieldKey| k != FieldKey::Unrecognized implies #[trigger] lookup(w2, k) == lookup(w, k) by {
        lemma_lookup_insert(w, i, (FieldKey::Unrecognized, v), k);
    }
}

/// The payload of a valid switch whose QoS is overridden by a level above 2
/// fails to decode, and the failure names the QoS field.
pub proof fn lemma_switch_rejects_qos(x: Switch, n: u64)
    requires
        x.violations().len() == 0,
        n > 2,
    ensures
        switch_error(enc_switch(x).push((FieldKey::Qos, ValueV::Leaf(LeafV::Number(n)))))
            == Some(DecodeError { field: FieldKey::Qos, reason: DecodeReason::Shape(ValueError::InvalidQoS) }),
{
    let w = enc_switch(x);
    let f = (FieldKey::Qos, ValueV::Leaf(LeafV::Number(n)));
    lemma_switch_decodable(x);
    assert forall|k: FieldKey| #[trigger] lookup(w.push(f), k) == if k == FieldKey::Qos {
        Some(f.1)
    } else {
        lookup(w, k)
    } by {
        lemma_lookup_push(w, f, k);
    }
}

} // verus!

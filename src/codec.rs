//! Encoding entities as payloads and decoding them back. A field is written
//! only when it differs from its default; absent fields decode to their
//! default, and unrecognised fields are ignored.

use crate::field::{
    agrees, availability_mode_leaf, connections_leaf, connections_v, dec_availability_mode,
    dec_device_class, dec_entity_category, dec_flag, dec_pairs, dec_payload, dec_qos,
    dec_state_class, dec_template, dec_text, dec_texts, dec_topic, dec_u32, device_class_leaf,
    enc_availability_mode, enc_device_class, enc_entity_category, enc_flag, enc_pairs, enc_qos,
    enc_state_class, enc_text, enc_texts, enc_u32, entity_category_leaf, flag_leaf, leaf_opt,
    leaf_opt_v, lift, opt_payload_leaf, opt_template_leaf, opt_text_leaf, opt_topic_leaf, payload_v,
    qos_leaf, read_availability_mode, read_connections, read_device_class, read_entity_category,
    read_flag, read_payload, read_qos, read_state_class, read_template, read_text, read_texts,
    read_topic, read_u32, state_class_leaf, template_v, text_leaf, text_v, texts_leaf, topic_v,
    u32_leaf, DecodeReason,
};
use crate::entity::{Availability, Device, Entity};
use crate::sensor::Sensor;
use crate::switch::Switch;
use crate::wire::{
    find_entry, find_field, lookup, object_view, objects_view, payload_view, put, put_entry,
    put_field, texts_view, value_view, Entry, FieldKey, Leaf, LeafV, ObjectV, PayloadV, ValueV,
    WireField, WireValue,
};
use vstd::prelude::*;

verus! {

/// A payload that could not be decoded: the top-level field at fault, and why.
#[derive(Debug, Clone, Copy, PartialEq, Eq, Structural)]
pub struct DecodeError {
    pub field: FieldKey,
    pub reason: DecodeReason,
}

/// The failure of a spec decoding result, if any.
pub open spec fn reason<X>(r: Result<X, DecodeReason>) -> Option<DecodeReason> {
    match r {
        Ok(_) => None,
        Err(e) => Some(e),
    }
}

/// The first of two optional failures.
pub open spec fn first<X>(a: Option<X>, b: Option<X>) -> Option<X> {
    if a is Some {
        a
    } else {
        b
    }
}

/// The failure of field `k`, if any.
pub open spec fn err_at(k: FieldKey, r: Option<DecodeReason>) -> Option<DecodeError> {
    match r {
        Some(e) => Some(DecodeError { field: k, reason: e }),
        None => None,
    }
}

// ---- devices ----

pub open spec fn enc_device(d: Device) -> ObjectV {
    put(FieldKey::Connections, enc_pairs(connections_v(d.connections@))) + put(
        FieldKey::Identifiers,
        enc_texts(texts_view(d.identifiers@)),
    ) + put(FieldKey::Manufacturer, enc_text(text_v(d.manufacturer))) + put(
        FieldKey::Model,
        enc_text(text_v(d.model)),
    ) + put(FieldKey::Name, enc_text(text_v(d.name))) + put(
        FieldKey::SwVersion,
        enc_text(text_v(d.sw_version)),
    )
}

pub open spec fn at(o: ObjectV, k: FieldKey) -> Option<ValueV> {
    lift(lookup(o, k))
}

pub open spec fn device_error(o: ObjectV) -> Option<DecodeReason> {
    first(
        reason(dec_pairs(at(o, FieldKey::Connections))),
        first(
            reason(dec_texts(at(o, FieldKey::Identifiers))),
            first(
                reason(dec_text(at(o, FieldKey::Manufacturer))),
                first(
                    reason(dec_text(at(o, FieldKey::Model))),
                    first(
                        reason(dec_text(at(o, FieldKey::Name))),
                        reason(dec_text(at(o, FieldKey::SwVersion))),
                    ),
                ),
            ),
        ),
    )
}

pub open spec fn device_decoded(o: ObjectV, d: Device) -> bool {
    &&& dec_pairs(at(o, FieldKey::Connections)) == Ok::<_, DecodeReason>(connections_v(d.connections@))
    &&& dec_texts(at(o, FieldKey::Identifiers)) == Ok::<_, DecodeReason>(texts_view(d.identifiers@))
    &&& dec_text(at(o, FieldKey::Manufacturer)) == Ok::<_, DecodeReason>(text_v(d.manufacturer))
    &&& dec_text(at(o, FieldKey::Model)) == Ok::<_, DecodeReason>(text_v(d.model))
    &&& dec_text(at(o, FieldKey::Name)) == Ok::<_, DecodeReason>(text_v(d.name))
    &&& dec_text(at(o, FieldKey::SwVersion)) == Ok::<_, DecodeReason>(text_v(d.sw_version))
}

fn entry_leaf(entries: &Vec<Entry>, k: FieldKey) -> (r: Option<&Leaf>)
    ensures
        leaf_opt(r) == at(object_view(entries@), k),
{
    match find_entry(entries, k) {
        Some(i) => Some(&entries[i].value),
        None => None,
    }
}

pub fn encode_device(d: &Device) -> (r: Vec<Entry>)
    ensures
        object_view(r@) == enc_device(*d),
{
    let mut out: Vec<Entry> = Vec::new();
    put_entry(&mut out, FieldKey::Connections, connections_leaf(&d.connections));
    assert(object_view(out@) =~= put(
        FieldKey::Connections,
        enc_pairs(connections_v(d.connections@)),
    ));
    put_entry(&mut out, FieldKey::Identifiers, texts_leaf(&d.identifiers));
    put_entry(&mut out, FieldKey::Manufacturer, opt_text_leaf(&d.manufacturer));
    put_entry(&mut out, FieldKey::Model, opt_text_leaf(&d.model));
    put_entry(&mut out, FieldKey::Name, opt_text_leaf(&d.name));
    put_entry(&mut out, FieldKey::SwVersion, opt_text_leaf(&d.sw_version));
    out
}

pub fn decode_device(o: &Vec<Entry>) -> (r: Result<Device, DecodeReason>)
    ensures
        match r {
            Ok(d) => device_error(object_view(o@)) is None && device_decoded(object_view(o@), d),
            Err(e) => device_error(object_view(o@)) == Some(e),
        },
{
    let connections = match read_connections(entry_leaf(o, FieldKey::Connections)) {
        Ok(v) => v,
        Err(e) => return Err(e),
    };
    let identifiers = match read_texts(entry_leaf(o, FieldKey::Identifiers)) {
        Ok(v) => v,
        Err(e) => return Err(e),
    };
    let manufacturer = match read_text(entry_leaf(o, FieldKey::Manufacturer)) {
        Ok(v) => v,
        Err(e) => return Err(e),
    };
    let model = match read_text(entry_leaf(o, FieldKey::Model)) {
        Ok(v) => v,
        Err(e) => return Err(e),
    };
    let name = match read_text(entry_leaf(o, FieldKey::Name)) {
        Ok(v) => v,
        Err(e) => return Err(e),
    };
    let sw_version = match read_text(entry_leaf(o, FieldKey::SwVersion)) {
        Ok(v) => v,
        Err(e) => return Err(e),
    };
    Ok(Device { identifiers, connections, manufacturer, model, name, sw_version })
}

// ---- availability entries ----

pub open spec fn enc_availability(a: Availability) -> ObjectV {
    put(FieldKey::PayloadAvailable, enc_text(text_v(a.payload_available))) + put(
        FieldKey::PayloadNotAvailable,
        enc_text(text_v(a.payload_not_available)),
    ) + put(FieldKey::Topic, Some(LeafV::Text(a.topic.0@))) + put(
        FieldKey::ValueTemplate,
        enc_text(template_v(a.value_template)),
    )
}

/// A mandatory topic.
pub open spec fn dec_required_topic(o: Option<ValueV>) -> Result<Seq<char>, DecodeReason> {
    match dec_topic(o) {
        Ok(Some(s)) => Ok(s),
        Ok(None) => Err(DecodeReason::Missing),
        Err(e) => Err(e),
    }
}

pub open spec fn availability_error(o: ObjectV) -> Option<DecodeReason> {
    first(
        reason(dec_text(at(o, FieldKey::PayloadAvailable))),
        first(
            reason(dec_text(at(o, FieldKey::PayloadNotAvailable))),
            first(
                reason(dec_required_topic(at(o, FieldKey::Topic))),
                reason(dec_template(at(o, FieldKey::ValueTemplate))),
            ),
        ),
    )
}

pub open spec fn availability_decoded(o: ObjectV, a: Availability) -> bool {
    &&& dec_text(at(o, FieldKey::PayloadAvailable)) == Ok::<_, DecodeReason>(text_v(a.payload_available))
    &&& dec_text(at(o, FieldKey::PayloadNotAvailable)) == Ok::<_, DecodeReason>(
        text_v(a.payload_not_available),
    )
    &&& dec_required_topic(at(o, FieldKey::Topic)) == Ok::<_, DecodeReason>(a.topic.0@)
    &&& dec_template(at(o, FieldKey::ValueTemplate)) == Ok::<_, DecodeReason>(template_v(a.value_template))
}

fn read_required_topic(o: Option<&Leaf>) -> (r: Result<crate::value::Topic, DecodeReason>)
    ensures
        agrees(r, dec_required_topic(leaf_opt(o)), |t: crate::value::Topic| t.0@),
{
    match read_topic(o) {
        Ok(Some(t)) => Ok(t),
        Ok(None) => Err(DecodeReason::Missing),
        Err(e) => Err(e),
    }
}

pub fn encode_availability(a: &Availability) -> (r: Vec<Entry>)
    ensures
        object_view(r@) == enc_availability(*a),
{
    let mut out: Vec<Entry> = Vec::new();
    put_entry(&mut out, FieldKey::PayloadAvailable, opt_text_leaf(&a.payload_available));
    assert(object_view(out@) =~= put(
        FieldKey::PayloadAvailable,
        enc_text(text_v(a.payload_available)),
    ));
    put_entry(&mut out, FieldKey::PayloadNotAvailable, opt_text_leaf(&a.payload_not_available));
    put_entry(&mut out, FieldKey::Topic, Some(text_leaf(&a.topic.0)));
    put_entry(&mut out, FieldKey::ValueTemplate, opt_template_leaf(&a.value_template));
    out
}

pub fn decode_availability(o: &Vec<Entry>) -> (r: Result<Availability, DecodeReason>)
    ensures
        match r {
            Ok(a) => availability_error(object_view(o@)) is None && availability_decoded(
                object_view(o@),
                a,
            ),
            Err(e) => availability_error(object_view(o@)) == Some(e),
        },
{
    let payload_available = match read_text(entry_leaf(o, FieldKey::PayloadAvailable)) {
        Ok(v) => v,
        Err(e) => return Err(e),
    };
    let payload_not_available = match read_text(entry_leaf(o, FieldKey::PayloadNotAvailable)) {
        Ok(v) => v,
        Err(e) => return Err(e),
    };
    let topic = match read_required_topic(entry_leaf(o, FieldKey::Topic)) {
        Ok(v) => v,
        Err(e) => return Err(e),
    };
    let value_template = match read_template(entry_leaf(o, FieldKey::ValueTemplate)) {
        Ok(v) => v,
        Err(e) => return Err(e),
    };
    Ok(Availability { topic, value_template, payload_available, payload_not_available })
}


// ---- nested fields of the shared attributes ----

pub open spec fn enc_device_field(d: Option<Device>) -> Option<ValueV> {
    match d {
        Some(d) => Some(ValueV::Object(enc_device(d))),
        None => None,
    }
}

pub open spec fn device_field_error(o: Option<ValueV>) -> Option<DecodeReason> {
    match o {
        None => None,
        Some(ValueV::Object(ob)) => device_error(ob),
        Some(_) => Some(DecodeReason::WrongKind),
    }
}

pub open spec fn device_field_decoded(o: Option<ValueV>, d: Option<Device>) -> bool {
    match o {
        None => d is None,
        Some(ValueV::Object(ob)) => d matches Some(x) && device_decoded(ob, x),
        Some(_) => false,
    }
}

pub open spec fn enc_availability_list(s: Seq<Availability>) -> Option<ValueV> {
    if s.len() == 0 {
        None
    } else {
        Some(ValueV::Objects(s.map_values(|a: Availability| enc_availability(a))))
    }
}

/// The failure of the first availability entry that cannot be decoded, if any.
pub open spec fn availability_list_error(os: Seq<ObjectV>) -> Option<DecodeReason>
    decreases os.len(),
{
    if os.len() == 0 {
        None
    } else {
        first(availability_list_error(os.drop_last()), availability_error(os.last()))
    }
}

pub open spec fn availability_list_field_error(o: Option<ValueV>) -> Option<DecodeReason> {
    match o {
        None => None,
        Some(ValueV::Objects(os)) => availability_list_error(os),
        Some(_) => Some(DecodeReason::WrongKind),
    }
}

pub open spec fn availability_list_decoded(o: Option<ValueV>, s: Seq<Availability>) -> bool {
    match o {
        None => s.len() == 0,
        Some(ValueV::Objects(os)) => os.len() == s.len() && forall|i: int|
            0 <= i < s.len() ==> availability_decoded(#[trigger] os[i], s[i]),
        Some(_) => false,
    }
}

fn put_leaf(out: &mut Vec<WireField>, k: FieldKey, o: Option<Leaf>)
    ensures
        payload_view(final(out)@) == payload_view(old(out)@) + put(k, lift(leaf_opt_v(o))),
{
    match o {
        Some(l) => put_field(out, k, Some(WireValue::Leaf(l))),
        None => put_field(out, k, None),
    }
}

/// The leaf value of the top-level field `k`, or the error of a field that
/// holds an object where a leaf belongs.
fn field_leaf(fields: &Vec<WireField>, k: FieldKey) -> (r: Result<Option<&Leaf>, DecodeError>)
    ensures
        match r {
            Ok(o) => leaf_opt(o) == lookup(payload_view(fields@), k),
            Err(x) => x == (DecodeError { field: k, reason: DecodeReason::WrongKind }) && (lookup(
                payload_view(fields@),
                k,
            ) matches Some(v) && !(v is Leaf)),
        },
{
    match find_field(fields, k) {
        None => Ok(None),
        Some(i) => match &fields[i].value {
            WireValue::Leaf(l) => Ok(Some(l)),
            _ => Err(DecodeError { field: k, reason: DecodeReason::WrongKind }),
        },
    }
}

fn device_value(d: &Option<Device>) -> (r: Option<WireValue>)
    ensures
        match r {
            Some(x) => Some(value_view(x)),
            None => None,
        } == enc_device_field(*d),
{
    match d {
        Some(d) => Some(WireValue::Object(encode_device(d))),
        None => None,
    }
}

fn availability_list_value(list: &Vec<Availability>) -> (r: Option<WireValue>)
    ensures
        match r {
            Some(x) => Some(value_view(x)),
            None => None,
        } == enc_availability_list(list@),
{
    if list.len() == 0 {
        return None;
    }
    let mut out: Vec<Vec<Entry>> = Vec::new();
    let mut i: usize = 0;
    while i < list.len()
        invariant
            0 <= i <= list@.len(),
            out@.len() == i,
            forall|j: int| 0 <= j < i ==> object_view(#[trigger] out@[j]@) == enc_availability(list@[j]),
        decreases list@.len() - i,
    {
        out.push(encode_availability(&list[i]));
        i = i + 1;
    }
    assert(objects_view(out@) =~= list@.map_values(|a: Availability| enc_availability(a)));
    Some(WireValue::Objects(out))
}

fn decode_device_field(fields: &Vec<WireField>) -> (r: Result<Option<Device>, DecodeError>)
    ensures
        match r {
            Ok(d) => device_field_error(lookup(payload_view(fields@), FieldKey::Device)) is None
                && device_field_decoded(lookup(payload_view(fields@), FieldKey::Device), d),
            Err(x) => err_at(
                FieldKey::Device,
                device_field_error(lookup(payload_view(fields@), FieldKey::Device)),
            ) == Some(x),
        },
{
    match find_field(fields, FieldKey::Device) {
        None => Ok(None),
        Some(i) => match &fields[i].value {
            WireValue::Object(o) => match decode_device(o) {
                Ok(d) => Ok(Some(d)),
                Err(e) => Err(DecodeError { field: FieldKey::Device, reason: e }),
            },
            _ => Err(DecodeError { field: FieldKey::Device, reason: DecodeReason::WrongKind }),
        },
    }
}

proof fn lemma_availability_list_error_prefix(os: Seq<ObjectV>, j: int, n: int)
    requires
        0 <= j < n <= os.len(),
        availability_list_error(os.subrange(0, j + 1)) is Some,
    ensures
        availability_list_error(os.subrange(0, n)) == availability_list_error(os.subrange(0, j + 1)),
    decreases n - j,
{
    if n > j + 1 {
        lemma_availability_list_error_prefix(os, j, n - 1);
        assert(os.subrange(0, n).drop_last() =~= os.subrange(0, n - 1));
    }
}

fn decode_availability_list(fields: &Vec<WireField>) -> (r: Result<Vec<Availability>, DecodeError>)
    ensures
        match r {
            Ok(s) => availability_list_field_error(
                lookup(payload_view(fields@), FieldKey::Availability),
            ) is None && availability_list_decoded(
                lookup(payload_view(fields@), FieldKey::Availability),
                s@,
            ),
            Err(x) => err_at(
                FieldKey::Availability,
                availability_list_field_error(lookup(payload_view(fields@), FieldKey::Availability)),
            ) == Some(x),
        },
{
    match find_field(fields, FieldKey::Availability) {
        None => Ok(Vec::new()),
        Some(k) => match &fields[k].value {
            WireValue::Objects(os) => {
                let ghost v = objects_view(os@);
                assert(fields@[k as int].value == WireValue::Objects(*os));
                let mut out: Vec<Availability> = Vec::new();
                let mut i: usize = 0;
                while i < os.len()
                    invariant
                        v == objects_view(os@),
                        lookup(payload_view(fields@), FieldKey::Availability) == Some(
                            ValueV::Objects(v),
                        ),
                        0 <= i <= os@.len(),
                        out@.len() == i,
                        availability_list_error(v.subrange(0, i as int)) is None,
                        forall|j: int| 0 <= j < i ==> availability_decoded(#[trigger] v[j], out@[j]),
                    decreases os@.len() - i,
                {
                    proof {
                        assert(v.subrange(0, i + 1).drop_last() =~= v.subrange(0, i as int));
                    }
                    match decode_availability(&os[i]) {
                        Ok(a) => out.push(a),
                        Err(e) => {
                            proof {
                                let p = v.subrange(0, i + 1);
                                assert(p.last() == object_view(os@[i as int]@));
                                assert(availability_list_error(p) == Some(e));
                                lemma_availability_list_error_prefix(v, i as int, v.len() as int);
                                assert(v.subrange(0, v.len() as int) =~= v);
                            }
                            return Err(DecodeError { field: FieldKey::Availability, reason: e });
                        },
                    }
                    i = i + 1;
                }
                assert(v.subrange(0, i as int) =~= v);
                Ok(out)
            },
            _ => Err(DecodeError { field: FieldKey::Availability, reason: DecodeReason::WrongKind }),
        },
    }
}

/// The payload of an entity's shared attributes.
#[verifier::opaque]
pub open spec fn enc_entity(e: Entity) -> PayloadV {
    put(FieldKey::Availability, enc_availability_list(e.availability@))
        + put(FieldKey::AvailabilityMode, lift(enc_availability_mode(e.availability_mode)))
        + put(FieldKey::AvailabilityTemplate, lift(enc_text(template_v(e.availability_template))))
        + put(FieldKey::AvailabilityTopic, lift(enc_text(topic_v(e.availability_topic))))
        + put(FieldKey::Device, enc_device_field(e.device))
        + put(FieldKey::EnabledByDefault, lift(enc_flag(e.enabled_by_default)))
        + put(FieldKey::EntityCategory, lift(enc_entity_category(e.entity_category)))
        + put(FieldKey::Icon, lift(enc_text(text_v(e.icon))))
        + put(FieldKey::JsonAttributesTemplate, lift(enc_text(template_v(e.json_attributes_template))))
        + put(FieldKey::JsonAttributesTopic, lift(enc_text(topic_v(e.json_attributes_topic))))
        + put(FieldKey::Name, lift(enc_text(text_v(e.name))))
        + put(FieldKey::ObjectId, lift(enc_text(text_v(e.object_id))))
        + put(FieldKey::Qos, lift(enc_qos(e.qos)))
        + put(FieldKey::UniqueId, lift(enc_text(text_v(e.unique_id))))
}

/// The first field of the shared attributes that cannot be decoded, if any.
pub open spec fn entity_error(w: PayloadV) -> Option<DecodeError> {
    first(
        err_at(FieldKey::Availability, availability_list_field_error(lookup(w, FieldKey::Availability))),
    first(
        err_at(FieldKey::AvailabilityMode, reason(dec_availability_mode(lookup(w, FieldKey::AvailabilityMode)))),
    first(
        err_at(FieldKey::AvailabilityTemplate, reason(dec_template(lookup(w, FieldKey::AvailabilityTemplate)))),
    first(
        err_at(FieldKey::AvailabilityTopic, reason(dec_topic(lookup(w, FieldKey::AvailabilityTopic)))),
    first(
        err_at(FieldKey::Device, device_field_error(lookup(w, FieldKey::Device))),
    first(
        err_at(FieldKey::EnabledByDefault, reason(dec_flag(lookup(w, FieldKey::EnabledByDefault)))),
    first(
        err_at(FieldKey::EntityCategory, reason(dec_entity_category(lookup(w, FieldKey::EntityCategory)))),
    first(
        err_at(FieldKey::Icon, reason(dec_text(lookup(w, FieldKey::Icon)))),
    first(
        err_at(FieldKey::JsonAttributesTemplate, reason(dec_template(lookup(w, FieldKey::JsonAttributesTemplate)))),
    first(
        err_at(FieldKey::JsonAttributesTopic, reason(dec_topic(lookup(w, FieldKey::JsonAttributesTopic)))),
    first(
        err_at(FieldKey::Name, reason(dec_text(lookup(w, FieldKey::Name)))),
    first(
        err_at(FieldKey::ObjectId, reason(dec_text(lookup(w, FieldKey::ObjectId)))),
    first(
        err_at(FieldKey::Qos, reason(dec_qos(lookup(w, FieldKey::Qos)))),
        err_at(FieldKey::UniqueId, reason(dec_text(lookup(w, FieldKey::UniqueId)))))))))))))))))
}

/// Whether `e` holds the shared attributes read from `w`.
pub open spec fn entity_decoded(w: PayloadV, e: Entity) -> bool {
    &&& availability_list_decoded(lookup(w, FieldKey::Availability), e.availability@)
    &&& dec_availability_mode(lookup(w, FieldKey::AvailabilityMode)) == Ok::<_, DecodeReason>(e.availability_mode)
    &&& dec_template(lookup(w, FieldKey::AvailabilityTemplate)) == Ok::<_, DecodeReason>(template_v(e.availability_template))
    &&& dec_topic(lookup(w, FieldKey::AvailabilityTopic)) == Ok::<_, DecodeReason>(topic_v(e.availability_topic))
    &&& device_field_decoded(lookup(w, FieldKey::Device), e.device)
    &&& dec_flag(lookup(w, FieldKey::EnabledByDefault)) == Ok::<_, DecodeReason>(e.enabled_by_default)
    &&& dec_entity_category(lookup(w, FieldKey::EntityCategory)) == Ok::<_, DecodeReason>(e.entity_category)
    &&& dec_text(lookup(w, FieldKey::Icon)) == Ok::<_, DecodeReason>(text_v(e.icon))
    &&& dec_template(lookup(w, FieldKey::JsonAttributesTemplate)) == Ok::<_, DecodeReason>(template_v(e.json_attributes_template))
    &&& dec_topic(lookup(w, FieldKey::JsonAttributesTopic)) == Ok::<_, DecodeReason>(topic_v(e.json_attributes_topic))
    &&& dec_text(lookup(w, FieldKey::Name)) == Ok::<_, DecodeReason>(text_v(e.name))
    &&& dec_text(lookup(w, FieldKey::ObjectId)) == Ok::<_, DecodeReason>(text_v(e.object_id))
    &&& dec_qos(lookup(w, FieldKey::Qos)) == Ok::<_, DecodeReason>(e.qos)
    &&& dec_text(lookup(w, FieldKey::UniqueId)) == Ok::<_, DecodeReason>(text_v(e.unique_id))
}

/// The payload of a switch: its shared attributes, then its own fields.
pub open spec fn enc_switch(s: Switch) -> PayloadV {
    enc_entity(s.entity)
        + put(FieldKey::CommandTopic, lift(enc_text(topic_v(s.command_topic))))
        + put(FieldKey::DeviceClass, lift(enc_device_class(s.device_class)))
        + put(FieldKey::Optimistic, lift(enc_flag(s.optimistic)))
        + put(FieldKey::PayloadOff, lift(enc_text(payload_v(s.payload_off))))
        + put(FieldKey::PayloadOn, lift(enc_text(payload_v(s.payload_on))))
        + put(FieldKey::Retain, lift(enc_flag(s.retain)))
        + put(FieldKey::StateOff, lift(enc_text(payload_v(s.state_off))))
        + put(FieldKey::StateOn, lift(enc_text(payload_v(s.state_on))))
        + put(FieldKey::StateTopic, lift(enc_text(topic_v(s.state_topic))))
        + put(FieldKey::ValueTemplate, lift(enc_text(template_v(s.value_template))))
}

/// The first field of a switch that cannot be decoded, if any.
pub open spec fn switch_error(w: PayloadV) -> Option<DecodeError> {
    first(
        entity_error(w),
    first(
        err_at(FieldKey::CommandTopic, reason(dec_topic(lookup(w, FieldKey::CommandTopic)))),
    first(
        err_at(FieldKey::DeviceClass, reason(dec_device_class(lookup(w, FieldKey::DeviceClass)))),
    first(
        err_at(FieldKey::Optimistic, reason(dec_flag(lookup(w, FieldKey::Optimistic)))),
    first(
        err_at(FieldKey::PayloadOff, reason(dec_payload(lookup(w, FieldKey::PayloadOff)))),
    first(
        err_at(FieldKey::PayloadOn, reason(dec_payload(lookup(w, FieldKey::PayloadOn)))),
    first(
        err_at(FieldKey::Retain, reason(dec_flag(lookup(w, FieldKey::Retain)))),
    first(
        err_at(FieldKey::StateOff, reason(dec_payload(lookup(w, FieldKey::StateOff)))),
    first(
        err_at(FieldKey::StateOn, reason(dec_payload(lookup(w, FieldKey::StateOn)))),
    first(
        err_at(FieldKey::StateTopic, reason(dec_topic(lookup(w, FieldKey::StateTopic)))),
        err_at(FieldKey::ValueTemplate, reason(dec_template(lookup(w, FieldKey::ValueTemplate))))))))))))))
}

/// Whether `s` is the switch read from `w`.
pub open spec fn switch_decoded(w: PayloadV, s: Switch) -> bool {
    &&& entity_decoded(w, s.entity)
    &&& dec_topic(lookup(w, FieldKey::CommandTopic)) == Ok::<_, DecodeReason>(topic_v(s.command_topic))
    &&& dec_device_class(lookup(w, FieldKey::DeviceClass)) == Ok::<_, DecodeReason>(s.device_class)
    &&& dec_flag(lookup(w, FieldKey::Optimistic)) == Ok::<_, DecodeReason>(s.optimistic)
    &&& dec_payload(lookup(w, FieldKey::PayloadOff)) == Ok::<_, DecodeReason>(payload_v(s.payload_off))
    &&& dec_payload(lookup(w, FieldKey::PayloadOn)) == Ok::<_, DecodeReason>(payload_v(s.payload_on))
    &&& dec_flag(lookup(w, FieldKey::Retain)) == Ok::<_, DecodeReason>(s.retain)
    &&& dec_payload(lookup(w, FieldKey::StateOff)) == Ok::<_, DecodeReason>(payload_v(s.state_off))
    &&& dec_payload(lookup(w, FieldKey::StateOn)) == Ok::<_, DecodeReason>(payload_v(s.state_on))
    &&& dec_topic(lookup(w, FieldKey::StateTopic)) == Ok::<_, DecodeReason>(topic_v(s.state_topic))
    &&& dec_template(lookup(w, FieldKey::ValueTemplate)) == Ok::<_, DecodeReason>(template_v(s.value_template))
}

/// The payload of a sensor: its shared attributes, then its own fields.
pub open spec fn enc_sensor(s: Sensor) -> PayloadV {
    enc_entity(s.entity)
        + put(FieldKey::DeviceClass, lift(enc_device_class(s.device_class)))
        + put(FieldKey::ExpireAfter, lift(enc_u32(s.expire_after)))
        + put(FieldKey::ForceUpdate, lift(enc_flag(s.force_update)))
        + put(FieldKey::LastResetValueTemplate, lift(enc_text(template_v(s.last_reset_value_template))))
        + put(FieldKey::StateClass, lift(enc_state_class(s.state_class)))
        + put(FieldKey::StateTopic, Some(ValueV::Leaf(LeafV::Text(s.state_topic.0@))))
        + put(FieldKey::UnitOfMeasurement, lift(enc_text(text_v(s.unit_of_measurement))))
        + put(FieldKey::ValueTemplate, lift(enc_text(template_v(s.value_template))))
}

/// The first field of a sensor that cannot be decoded, if any.
pub open spec fn sensor_error(w: PayloadV) -> Option<DecodeError> {
    first(
        entity_error(w),
    first(
        err_at(FieldKey::DeviceClass, reason(dec_device_class(lookup(w, FieldKey::DeviceClass)))),
    first(
        err_at(FieldKey::ExpireAfter, reason(dec_u32(lookup(w, FieldKey::ExpireAfter)))),
    first(
        err_at(FieldKey::ForceUpdate, reason(dec_flag(lookup(w, FieldKey::ForceUpdate)))),
    first(
        err_at(FieldKey::LastResetValueTemplate, reason(dec_template(lookup(w, FieldKey::LastResetValueTemplate)))),
    first(
        err_at(FieldKey::StateClass, reason(dec_state_class(lookup(w, FieldKey::StateClass)))),
    first(
        err_at(FieldKey::StateTopic, reason(dec_required_topic(lookup(w, FieldKey::StateTopic)))),
    first(
        err_at(FieldKey::UnitOfMeasurement, reason(dec_text(lookup(w, FieldKey::UnitOfMeasurement)))),
        err_at(FieldKey::ValueTemplate, reason(dec_template(lookup(w, FieldKey::ValueTemplate))))))))))))
}

/// Whether `s` is the sensor read from `w`.
pub open spec fn sensor_decoded(w: PayloadV, s: Sensor) -> bool {
    &&& entity_decoded(w, s.entity)
    &&& dec_device_class(lookup(w, FieldKey::DeviceClass)) == Ok::<_, DecodeReason>(s.device_class)
    &&& dec_u32(lookup(w, FieldKey::ExpireAfter)) == Ok::<_, DecodeReason>(s.expire_after)
    &&& dec_flag(lookup(w, FieldKey::ForceUpdate)) == Ok::<_, DecodeReason>(s.force_update)
    &&& dec_template(lookup(w, FieldKey::LastResetValueTemplate)) == Ok::<_, DecodeReason>(template_v(s.last_reset_value_template))
    &&& dec_state_class(lookup(w, FieldKey::StateClass)) == Ok::<_, DecodeReason>(s.state_class)
    &&& dec_required_topic(lookup(w, FieldKey::StateTopic)) == Ok::<_, DecodeReason>(s.state_topic.0@)
    &&& dec_text(lookup(w, FieldKey::UnitOfMeasurement)) == Ok::<_, DecodeReason>(text_v(s.unit_of_measurement))
    &&& dec_template(lookup(w, FieldKey::ValueTemplate)) == Ok::<_, DecodeReason>(template_v(s.value_template))
}

impl Entity {
    /// Encodes the shared attributes, leaving out absent and default fields.
    pub fn encode(&self) -> (r: Vec<WireField>)
        ensures
            payload_view(r@) == enc_entity(*self),
    {
        reveal(enc_entity);
        let mut out: Vec<WireField> = Vec::new();
        put_field(&mut out, FieldKey::Availability, availability_list_value(&self.availability));
        assert(payload_view(out@) =~= put(FieldKey::Availability, enc_availability_list(self.availability@)));
        put_leaf(&mut out, FieldKey::AvailabilityMode, availability_mode_leaf(self.availability_mode));
        put_leaf(&mut out, FieldKey::AvailabilityTemplate, opt_template_leaf(&self.availability_template));
        put_leaf(&mut out, FieldKey::AvailabilityTopic, opt_topic_leaf(&self.availability_topic));
        put_field(&mut out, FieldKey::Device, device_value(&self.device));
        put_leaf(&mut out, FieldKey::EnabledByDefault, flag_leaf(self.enabled_by_default));
        put_leaf(&mut out, FieldKey::EntityCategory, entity_category_leaf(self.entity_category));
        put_leaf(&mut out, FieldKey::Icon, opt_text_leaf(&self.icon));
        put_leaf(&mut out, FieldKey::JsonAttributesTemplate, opt_template_leaf(&self.json_attributes_template));
        put_leaf(&mut out, FieldKey::JsonAttributesTopic, opt_topic_leaf(&self.json_attributes_topic));
        put_leaf(&mut out, FieldKey::Name, opt_text_leaf(&self.name));
        put_leaf(&mut out, FieldKey::ObjectId, opt_text_leaf(&self.object_id));
        put_leaf(&mut out, FieldKey::Qos, qos_leaf(self.qos));
        put_leaf(&mut out, FieldKey::UniqueId, opt_text_leaf(&self.unique_id));
        out
    }

    /// Decodes the shared attributes, ignoring fields it does not know.
    #[verifier::rlimit(100)]
    pub fn decode(fields: &Vec<WireField>) -> (r: Result<Entity, DecodeError>)
        ensures
            match r {
                Ok(e) => entity_error(payload_view(fields@)) is None && entity_decoded(
                    payload_view(fields@),
                    e,
                ),
                Err(x) => entity_error(payload_view(fields@)) == Some(x),
            },
    {
        let availability = match decode_availability_list(fields) {
            Ok(v) => v,
            Err(x) => return Err(x),
        };
        let availability_mode = match field_leaf(fields, FieldKey::AvailabilityMode) {
            Err(x) => return Err(x),
            Ok(o) => match read_availability_mode(o) {
                Ok(v) => v,
                Err(e) => return Err(DecodeError { field: FieldKey::AvailabilityMode, reason: e }),
            },
        };
        let availability_template = match field_leaf(fields, FieldKey::AvailabilityTemplate) {
            Err(x) => return Err(x),
            Ok(o) => match read_template(o) {
                Ok(v) => v,
                Err(e) => return Err(DecodeError { field: FieldKey::AvailabilityTemplate, reason: e }),
            },
        };
        let availability_topic = match field_leaf(fields, FieldKey::AvailabilityTopic) {
            Err(x) => return Err(x),
            Ok(o) => match read_topic(o) {
                Ok(v) => v,
                Err(e) => return Err(DecodeError { field: FieldKey::AvailabilityTopic, reason: e }),
            },
        };
        let device = match decode_device_field(fields) {
            Ok(v) => v,
            Err(x) => return Err(x),
        };
        let enabled_by_default = match field_leaf(fields, FieldKey::EnabledByDefault) {
            Err(x) => return Err(x),
            Ok(o) => match read_flag(o) {
                Ok(v) => v,
                Err(e) => return Err(DecodeError { field: FieldKey::EnabledByDefault, reason: e }),
            },
        };
        let entity_category = match field_leaf(fields, FieldKey::EntityCategory) {
            Err(x) => return Err(x),
            Ok(o) => match read_entity_category(o) {
                Ok(v) => v,
                Err(e) => return Err(DecodeError { field: FieldKey::EntityCategory, reason: e }),
            },
        };
        let icon = match field_leaf(fields, FieldKey::Icon) {
            Err(x) => return Err(x),
            Ok(o) => match read_text(o) {
                Ok(v) => v,
                Err(e) => return Err(DecodeError { field: FieldKey::Icon, reason: e }),
            },
        };
        let json_attributes_template = match field_leaf(fields, FieldKey::JsonAttributesTemplate) {
            Err(x) => return Err(x),
            Ok(o) => match read_template(o) {
                Ok(v) => v,
                Err(e) => return Err(DecodeError { field: FieldKey::JsonAttributesTemplate, reason: e }),
            },
        };
        let json_attributes_topic = match field_leaf(fields, FieldKey::JsonAttributesTopic) {
            Err(x) => return Err(x),
            Ok(o) => match read_topic(o) {
                Ok(v) => v,
                Err(e) => return Err(DecodeError { field: FieldKey::JsonAttributesTopic, reason: e }),
            },
        };
        let name = match field_leaf(fields, FieldKey::Name) {
            Err(x) => return Err(x),
            Ok(o) => match read_text(o) {
                Ok(v) => v,
                Err(e) => return Err(DecodeError { field: FieldKey::Name, reason: e }),
            },
        };
        let object_id = match field_leaf(fields, FieldKey::ObjectId) {
            Err(x) => return Err(x),
            Ok(o) => match read_text(o) {
                Ok(v) => v,
                Err(e) => return Err(DecodeError { field: FieldKey::ObjectId, reason: e }),
            },
        };
        let qos = match field_leaf(fields, FieldKey::Qos) {
            Err(x) => return Err(x),
            Ok(o) => match read_qos(o) {
                Ok(v) => v,
                Err(e) => return Err(DecodeError { field: FieldKey::Qos, reason: e }),
            },
        };
        let unique_id = match field_leaf(fields, FieldKey::UniqueId) {
            Err(x) => return Err(x),
            Ok(o) => match read_text(o) {
                Ok(v) => v,
                Err(e) => return Err(DecodeError { field: FieldKey::UniqueId, reason: e }),
            },
        };
        Ok(Entity { availability, availability_mode, availability_template, availability_topic, device, enabled_by_default, entity_category, icon, json_attributes_template, json_attributes_topic, name, object_id, qos, unique_id })
    }
}

impl Switch {
    /// Encodes the switch, leaving out absent and default fields.
    pub fn encode(&self) -> (r: Vec<WireField>)
        ensures
            payload_view(r@) == enc_switch(*self),
    {
        let mut out = self.entity.encode();
        put_leaf(&mut out, FieldKey::CommandTopic, opt_topic_leaf(&self.command_topic));
        put_leaf(&mut out, FieldKey::DeviceClass, device_class_leaf(self.device_class));
        put_leaf(&mut out, FieldKey::Optimistic, flag_leaf(self.optimistic));
        put_leaf(&mut out, FieldKey::PayloadOff, opt_payload_leaf(&self.payload_off));
        put_leaf(&mut out, FieldKey::PayloadOn, opt_payload_leaf(&self.payload_on));
        put_leaf(&mut out, FieldKey::Retain, flag_leaf(self.retain));
        put_leaf(&mut out, FieldKey::StateOff, opt_payload_leaf(&self.state_off));
        put_leaf(&mut out, FieldKey::StateOn, opt_payload_leaf(&self.state_on));
        put_leaf(&mut out, FieldKey::StateTopic, opt_topic_leaf(&self.state_topic));
        put_leaf(&mut out, FieldKey::ValueTemplate, opt_template_leaf(&self.value_template));
        out
    }

    /// Decodes a switch, ignoring fields it does not know.
    pub fn decode(fields: &Vec<WireField>) -> (r: Result<Switch, DecodeError>)
        ensures
            match r {
                Ok(s) => switch_error(payload_view(fields@)) is None && switch_decoded(
                    payload_view(fields@),
                    s,
                ),
                Err(x) => switch_error(payload_view(fields@)) == Some(x),
            },
    {
        let entity = match Entity::decode(fields) {
            Ok(e) => e,
            Err(x) => return Err(x),
        };
        let command_topic = match field_leaf(fields, FieldKey::CommandTopic) {
            Err(x) => return Err(x),
            Ok(o) => match read_topic(o) {
                Ok(v) => v,
                Err(e) => return Err(DecodeError { field: FieldKey::CommandTopic, reason: e }),
            },
        };
        let device_class = match field_leaf(fields, FieldKey::DeviceClass) {
            Err(x) => return Err(x),
            Ok(o) => match read_device_class(o) {
                Ok(v) => v,
                Err(e) => return Err(DecodeError { field: FieldKey::DeviceClass, reason: e }),
            },
        };
        let optimistic = match field_leaf(fields, FieldKey::Optimistic) {
            Err(x) => return Err(x),
            Ok(o) => match read_flag(o) {
                Ok(v) => v,
                Err(e) => return Err(DecodeError { field: FieldKey::Optimistic, reason: e }),
            },
        };
        let payload_off = match field_leaf(fields, FieldKey::PayloadOff) {
            Err(x) => return Err(x),
            Ok(o) => match read_payload(o) {
                Ok(v) => v,
                Err(e) => return Err(DecodeError { field: FieldKey::PayloadOff, reason: e }),
            },
        };
        let payload_on = match field_leaf(fields, FieldKey::PayloadOn) {
            Err(x) => return Err(x),
            Ok(o) => match read_payload(o) {
                Ok(v) => v,
                Err(e) => return Err(DecodeError { field: FieldKey::PayloadOn, reason: e }),
            },
        };
        let retain = match field_leaf(fields, FieldKey::Retain) {
            Err(x) => return Err(x),
            Ok(o) => match read_flag(o) {
                Ok(v) => v,
                Err(e) => return Err(DecodeError { field: FieldKey::Retain, reason: e }),
            },
        };
        let state_off = match field_leaf(fields, FieldKey::StateOff) {
            Err(x) => return Err(x),
            Ok(o) => match read_payload(o) {
                Ok(v) => v,
                Err(e) => return Err(DecodeError { field: FieldKey::StateOff, reason: e }),
            },
        };
        let state_on = match field_leaf(fields, FieldKey::StateOn) {
            Err(x) => return Err(x),
            Ok(o) => match read_payload(o) {
                Ok(v) => v,
                Err(e) => return Err(DecodeError { field: FieldKey::StateOn, reason: e }),
            },
        };
        let state_topic = match field_leaf(fields, FieldKey::StateTopic) {
            Err(x) => return Err(x),
            Ok(o) => match read_topic(o) {
                Ok(v) => v,
                Err(e) => return Err(DecodeError { field: FieldKey::StateTopic, reason: e }),
            },
        };
        let value_template = match field_leaf(fields, FieldKey::ValueTemplate) {
            Err(x) => return Err(x),
            Ok(o) => match read_template(o) {
                Ok(v) => v,
                Err(e) => return Err(DecodeError { field: FieldKey::ValueTemplate, reason: e }),
            },
        };
        Ok(Switch { entity, command_topic, device_class, optimistic, payload_off, payload_on, retain, state_off, state_on, state_topic, value_template })
    }
}

impl Sensor {
    /// Encodes the sensor, leaving out absent and default fields.
    pub fn encode(&self) -> (r: Vec<WireField>)
        ensures
            payload_view(r@) == enc_sensor(*self),
    {
        let mut out = self.entity.encode();
        put_leaf(&mut out, FieldKey::DeviceClass, device_class_leaf(self.device_class));
        put_leaf(&mut out, FieldKey::ExpireAfter, u32_leaf(self.expire_after));
        put_leaf(&mut out, FieldKey::ForceUpdate, flag_leaf(self.force_update));
        put_leaf(&mut out, FieldKey::LastResetValueTemplate, opt_template_leaf(&self.last_reset_value_template));
        put_leaf(&mut out, FieldKey::StateClass, state_class_leaf(self.state_class));
        put_leaf(&mut out, FieldKey::StateTopic, Some(text_leaf(&self.state_topic.0)));
        put_leaf(&mut out, FieldKey::UnitOfMeasurement, opt_text_leaf(&self.unit_of_measurement));
        put_leaf(&mut out, FieldKey::ValueTemplate, opt_template_leaf(&self.value_template));
        out
    }

    /// Decodes a sensor, ignoring fields it does not know; the state topic is
    /// mandatory.
    pub fn decode(fields: &Vec<WireField>) -> (r: Result<Sensor, DecodeError>)
        ensures
            match r {
                Ok(s) => sensor_error(payload_view(fields@)) is None && sensor_decoded(
                    payload_view(fields@),
                    s,
                ),
                Err(x) => sensor_error(payload_view(fields@)) == Some(x),
            },
    {
        let entity = match Entity::decode(fields) {
            Ok(e) => e,
            Err(x) => return Err(x),
        };
        let device_class = match field_leaf(fields, FieldKey::DeviceClass) {
            Err(x) => return Err(x),
            Ok(o) => match read_device_class(o) {
                Ok(v) => v,
                Err(e) => return Err(DecodeError { field: FieldKey::DeviceClass, reason: e }),
            },
        };
        let expire_after = match field_leaf(fields, FieldKey::ExpireAfter) {
            Err(x) => return Err(x),
            Ok(o) => match read_u32(o) {
                Ok(v) => v,
                Err(e) => return Err(DecodeError { field: FieldKey::ExpireAfter, reason: e }),
            },
        };
        let force_update = match field_leaf(fields, FieldKey::ForceUpdate) {
            Err(x) => return Err(x),
            Ok(o) => match read_flag(o) {
                Ok(v) => v,
                Err(e) => return Err(DecodeError { field: FieldKey::ForceUpdate, reason: e }),
            },
        };
        let last_reset_value_template = match field_leaf(fields, FieldKey::LastResetValueTemplate) {
            Err(x) => return Err(x),
            Ok(o) => match read_template(o) {
                Ok(v) => v,
                Err(e) => return Err(DecodeError { field: FieldKey::LastResetValueTemplate, reason: e }),
            },
        };
        let state_class = match field_leaf(fields, FieldKey::StateClass) {
            Err(x) => return Err(x),
            Ok(o) => match read_state_class(o) {
                Ok(v) => v,
                Err(e) => return Err(DecodeError { field: FieldKey::StateClass, reason: e }),
            },
        };
        let state_topic = match field_leaf(fields, FieldKey::StateTopic) {
            Err(x) => return Err(x),
            Ok(o) => match read_required_topic(o) {
                Ok(v) => v,
                Err(e) => return Err(DecodeError { field: FieldKey::StateTopic, reason: e }),
            },
        };
        let unit_of_measurement = match field_leaf(fields, FieldKey::UnitOfMeasurement) {
            Err(x) => return Err(x),
            Ok(o) => match read_text(o) {
                Ok(v) => v,
                Err(e) => return Err(DecodeError { field: FieldKey::UnitOfMeasurement, reason: e }),
            },
        };
        let value_template = match field_leaf(fields, FieldKey::ValueTemplate) {
            Err(x) => return Err(x),
            Ok(o) => match read_template(o) {
                Ok(v) => v,
                Err(e) => return Err(DecodeError { field: FieldKey::ValueTemplate, reason: e }),
            },
        };
        Ok(Sensor { entity, device_class, expire_after, force_update, last_reset_value_template, state_class, state_topic, unit_of_measurement, value_template })
    }
}


} // verus!

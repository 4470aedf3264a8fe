//! The wire payload: a flat mapping from field keys to values, with one
//! level of nested objects, and its mathematical view.

use crate::value::text_eq;
use vstd::prelude::*;

verus! {

/// The name of a field of a discovery payload.
#[derive(Debug, Clone, Copy, PartialEq, Eq, Structural)]
pub enum FieldKey {
    Availability,
    AvailabilityMode,
    AvailabilityTemplate,
    AvailabilityTopic,
    CommandTopic,
    Connections,
    Device,
    DeviceClass,
    EnabledByDefault,
    EntityCategory,
    ExpireAfter,
    ForceUpdate,
    Icon,
    Identifiers,
    JsonAttributesTemplate,
    JsonAttributesTopic,
    LastResetValueTemplate,
    Manufacturer,
    Model,
    Name,
    ObjectId,
    Optimistic,
    PayloadAvailable,
    PayloadNotAvailable,
    PayloadOff,
    PayloadOn,
    Qos,
    Retain,
    StateClass,
    StateOff,
    StateOn,
    StateTopic,
    SwVersion,
    Topic,
    UniqueId,
    UnitOfMeasurement,
    ValueTemplate,
    /// A field this schema does not know; it is ignored on decode.
    Unrecognized,
}

impl FieldKey {
    /// The name of this field in the discovery schema.
    pub open spec fn spec_name(self) -> Seq<char> {
        match self {
            FieldKey::Availability => "availability"@,
            FieldKey::AvailabilityMode => "availability_mode"@,
            FieldKey::AvailabilityTemplate => "availability_template"@,
            FieldKey::AvailabilityTopic => "availability_topic"@,
            FieldKey::CommandTopic => "command_topic"@,
            FieldKey::Connections => "connections"@,
            FieldKey::Device => "device"@,
            FieldKey::DeviceClass => "device_class"@,
            FieldKey::EnabledByDefault => "enabled_by_default"@,
            FieldKey::EntityCategory => "entity_category"@,
            FieldKey::ExpireAfter => "expire_after"@,
            FieldKey::ForceUpdate => "force_update"@,
            FieldKey::Icon => "icon"@,
            FieldKey::Identifiers => "identifiers"@,
            FieldKey::JsonAttributesTemplate => "json_attributes_template"@,
            FieldKey::JsonAttributesTopic => "json_attributes_topic"@,
            FieldKey::LastResetValueTemplate => "last_reset_value_template"@,
            FieldKey::Manufacturer => "manufacturer"@,
            FieldKey::Model => "model"@,
            FieldKey::Name => "name"@,
            FieldKey::ObjectId => "object_id"@,
            FieldKey::Optimistic => "optimistic"@,
            FieldKey::PayloadAvailable => "payload_available"@,
            FieldKey::PayloadNotAvailable => "payload_not_available"@,
            FieldKey::PayloadOff => "payload_off"@,
            FieldKey::PayloadOn => "payload_on"@,
            FieldKey::Qos => "qos"@,
            FieldKey::Retain => "retain"@,
            FieldKey::StateClass => "state_class"@,
            FieldKey::StateOff => "state_off"@,
            FieldKey::StateOn => "state_on"@,
            FieldKey::StateTopic => "state_topic"@,
            FieldKey::SwVersion => "sw_version"@,
            FieldKey::Topic => "topic"@,
            FieldKey::UniqueId => "unique_id"@,
            FieldKey::UnitOfMeasurement => "unit_of_measurement"@,
            FieldKey::ValueTemplate => "value_template"@,
            FieldKey::Unrecognized => ""@,
        }
    }

    /// The first known field named `t`, or `Unrecognized`.
    pub open spec fn spec_from_name(t: Seq<char>) -> FieldKey {
        if t == FieldKey::Availability.spec_name() {
            FieldKey::Availability
        } else if t == FieldKey::AvailabilityMode.spec_name() {
            FieldKey::AvailabilityMode
        } else if t == FieldKey::AvailabilityTemplate.spec_name() {
            FieldKey::AvailabilityTemplate
        } else if t == FieldKey::AvailabilityTopic.spec_name() {
            FieldKey::AvailabilityTopic
        } else if t == FieldKey::CommandTopic.spec_name() {
            FieldKey::CommandTopic
        } else if t == FieldKey::Connections.spec_name() {
            FieldKey::Connections
        } else if t == FieldKey::Device.spec_name() {
            FieldKey::Device
        } else if t == FieldKey::DeviceClass.spec_name() {
            FieldKey::DeviceClass
        } else if t == FieldKey::EnabledByDefault.spec_name() {
            FieldKey::EnabledByDefault
        } else if t == FieldKey::EntityCategory.spec_name() {
            FieldKey::EntityCategory
        } else if t == FieldKey::ExpireAfter.spec_name() {
            FieldKey::ExpireAfter
        } else if t == FieldKey::ForceUpdate.spec_name() {
            FieldKey::ForceUpdate
        } else if t == FieldKey::Icon.spec_name() {
            FieldKey::Icon
        } else if t == FieldKey::Identifiers.spec_name() {
            FieldKey::Identifiers
        } else if t == FieldKey::JsonAttributesTemplate.spec_name() {
            FieldKey::JsonAttributesTemplate
        } else if t == FieldKey::JsonAttributesTopic.spec_name() {
            FieldKey::JsonAttributesTopic
        } else if t == FieldKey::LastResetValueTemplate.spec_name() {
            FieldKey::LastResetValueTemplate
        } else if t == FieldKey::Manufacturer.spec_name() {
            FieldKey::Manufacturer
        } else if t == FieldKey::Model.spec_name() {
            FieldKey::Model
        } else if t == FieldKey::Name.spec_name() {
            FieldKey::Name
        } else if t == FieldKey::ObjectId.spec_name() {
            FieldKey::ObjectId
        } else if t == FieldKey::Optimistic.spec_name() {
            FieldKey::Optimistic
        } else if t == FieldKey::PayloadAvailable.spec_name() {
            FieldKey::PayloadAvailable
        } else if t == FieldKey::PayloadNotAvailable.spec_name() {
            FieldKey::PayloadNotAvailable
        } else if t == FieldKey::PayloadOff.spec_name() {
            FieldKey::PayloadOff
        } else if t == FieldKey::PayloadOn.spec_name() {
            FieldKey::PayloadOn
        } else if t == FieldKey::Qos.spec_name() {
            FieldKey::Qos
        } else if t == FieldKey::Retain.spec_name() {
            FieldKey::Retain
        } else if t == FieldKey::StateClass.spec_name() {
            FieldKey::StateClass
        } else if t == FieldKey::StateOff.spec_name() {
            FieldKey::StateOff
        } else if t == FieldKey::StateOn.spec_name() {
            FieldKey::StateOn
        } else if t == FieldKey::StateTopic.spec_name() {
            FieldKey::StateTopic
        } else if t == FieldKey::SwVersion.spec_name() {
            FieldKey::SwVersion
        } else if t == FieldKey::Topic.spec_name() {
            FieldKey::Topic
        } else if t == FieldKey::UniqueId.spec_name() {
            FieldKey::UniqueId
        } else if t == FieldKey::UnitOfMeasurement.spec_name() {
            FieldKey::UnitOfMeasurement
        } else if t == FieldKey::ValueTemplate.spec_name() {
            FieldKey::ValueTemplate
        } else {
            FieldKey::Unrecognized
        }
    }

    /// The name of this field; empty for a field this schema does not know.
    pub fn name(&self) -> (r: &'static str)
        ensures
            r@ == self.spec_name(),
    {
        match self {
            FieldKey::Availability => "availability",
            FieldKey::AvailabilityMode => "availability_mode",
            FieldKey::AvailabilityTemplate => "availability_template",
            FieldKey::AvailabilityTopic => "availability_topic",
            FieldKey::CommandTopic => "command_topic",
            FieldKey::Connections => "connections",
            FieldKey::Device => "device",
            FieldKey::DeviceClass => "device_class",
            FieldKey::EnabledByDefault => "enabled_by_default",
            FieldKey::EntityCategory => "entity_category",
            FieldKey::ExpireAfter => "expire_after",
            FieldKey::ForceUpdate => "force_update",
            FieldKey::Icon => "icon",
            FieldKey::Identifiers => "identifiers",
            FieldKey::JsonAttributesTemplate => "json_attributes_template",
            FieldKey::JsonAttributesTopic => "json_attributes_topic",
            FieldKey::LastResetValueTemplate => "last_reset_value_template",
            FieldKey::Manufacturer => "manufacturer",
            FieldKey::Model => "model",
            FieldKey::Name => "name",
            FieldKey::ObjectId => "object_id",
            FieldKey::Optimistic => "optimistic",
            FieldKey::PayloadAvailable => "payload_available",
            FieldKey::PayloadNotAvailable => "payload_not_available",
            FieldKey::PayloadOff => "payload_off",
            FieldKey::PayloadOn => "payload_on",
            FieldKey::Qos => "qos",
            FieldKey::Retain => "retain",
            FieldKey::StateClass => "state_class",
            FieldKey::StateOff => "state_off",
            FieldKey::StateOn => "state_on",
            FieldKey::StateTopic => "state_topic",
            FieldKey::SwVersion => "sw_version",
            FieldKey::Topic => "topic",
            FieldKey::UniqueId => "unique_id",
            FieldKey::UnitOfMeasurement => "unit_of_measurement",
            FieldKey::ValueTemplate => "value_template",
            FieldKey::Unrecognized => "",
        }
    }

    /// The field a name stands for; a name the schema does not know gives
    /// `Unrecognized`.
    pub fn from_name(t: &str) -> (r: FieldKey)
        ensures
            r == FieldKey::spec_from_name(t@),
    {
        if text_eq(t, "availability") {
            FieldKey::Availability
        } else if text_eq(t, "availability_mode") {
            FieldKey::AvailabilityMode
        } else if text_eq(t, "availability_template") {
            FieldKey::AvailabilityTemplate
        } else if text_eq(t, "availability_topic") {
            FieldKey::AvailabilityTopic
        } else if text_eq(t, "command_topic") {
            FieldKey::CommandTopic
        } else if text_eq(t, "connections") {
            FieldKey::Connections
        } else if text_eq(t, "device") {
            FieldKey::Device
        } else if text_eq(t, "device_class") {
            FieldKey::DeviceClass
        } else if text_eq(t, "enabled_by_default") {
            FieldKey::EnabledByDefault
        } else if text_eq(t, "entity_category") {
            FieldKey::EntityCategory
        } else if text_eq(t, "expire_after") {
            FieldKey::ExpireAfter
        } else if text_eq(t, "force_update") {
            FieldKey::ForceUpdate
        } else if text_eq(t, "icon") {
            FieldKey::Icon
        } else if text_eq(t, "identifiers") {
            FieldKey::Identifiers
        } else if text_eq(t, "json_attributes_template") {
            FieldKey::JsonAttributesTemplate
        } else if text_eq(t, "json_attributes_topic") {
            FieldKey::JsonAttributesTopic
        } else if text_eq(t, "last_reset_value_template") {
            FieldKey::LastResetValueTemplate
        } else if text_eq(t, "manufacturer") {
            FieldKey::Manufacturer
        } else if text_eq(t, "model") {
            FieldKey::Model
        } else if text_eq(t, "name") {
            FieldKey::Name
        } else if text_eq(t, "object_id") {
            FieldKey::ObjectId
        } else if text_eq(t, "optimistic") {
            FieldKey::Optimistic
        } else if text_eq(t, "payload_available") {
            FieldKey::PayloadAvailable
        } else if text_eq(t, "payload_not_available") {
            FieldKey::PayloadNotAvailable
        } else if text_eq(t, "payload_off") {
            FieldKey::PayloadOff
        } else if text_eq(t, "payload_on") {
            FieldKey::PayloadOn
        } else if text_eq(t, "qos") {
            FieldKey::Qos
        } else if text_eq(t, "retain") {
            FieldKey::Retain
        } else if text_eq(t, "state_class") {
            FieldKey::StateClass
        } else if text_eq(t, "state_off") {
            FieldKey::StateOff
        } else if text_eq(t, "state_on") {
            FieldKey::StateOn
        } else if text_eq(t, "state_topic") {
            FieldKey::StateTopic
        } else if text_eq(t, "sw_version") {
            FieldKey::SwVersion
        } else if text_eq(t, "topic") {
            FieldKey::Topic
        } else if text_eq(t, "unique_id") {
            FieldKey::UniqueId
        } else if text_eq(t, "unit_of_measurement") {
            FieldKey::UnitOfMeasurement
        } else if text_eq(t, "value_template") {
            FieldKey::ValueTemplate
        } else {
            FieldKey::Unrecognized
        }
    }
}

/// A value that holds no object.
#[derive(Debug, Clone, PartialEq, Eq)]
pub enum Leaf {
    Text(String),
    Number(u64),
    Flag(bool),
    Texts(Vec<String>),
    Pairs(Vec<(String, String)>),
}

/// A field of a nested object.
#[derive(Debug, Clone, PartialEq, Eq)]
pub struct Entry {
    pub key: FieldKey,
    pub value: Leaf,
}

/// The value of a top-level field.
#[derive(Debug, Clone, PartialEq, Eq)]
pub enum WireValue {
    Leaf(Leaf),
    Object(Vec<Entry>),
    Objects(Vec<Vec<Entry>>),
}

/// A top-level field.
#[derive(Debug, Clone, PartialEq, Eq)]
pub struct WireField {
    pub key: FieldKey,
    pub value: WireValue,
}

/// The view of a `Leaf`.
pub enum LeafV {
    Text(Seq<char>),
    Number(u64),
    Flag(bool),
    Texts(Seq<Seq<char>>),
    Pairs(Seq<(Seq<char>, Seq<char>)>),
}

/// The view of a nested object.
pub type ObjectV = Seq<(FieldKey, LeafV)>;

/// The view of a `WireValue`.
pub enum ValueV {
    Leaf(LeafV),
    Object(ObjectV),
    Objects(Seq<ObjectV>),
}

/// The view of a payload.
pub type PayloadV = Seq<(FieldKey, ValueV)>;

pub open spec fn texts_view(v: Seq<String>) -> Seq<Seq<char>> {
    v.map_values(|s: String| s@)
}

pub open spec fn pairs_view(v: Seq<(String, String)>) -> Seq<(Seq<char>, Seq<char>)> {
    v.map_values(|p: (String, String)| (p.0@, p.1@))
}

pub open spec fn leaf_view(l: Leaf) -> LeafV {
    match l {
        Leaf::Text(s) => LeafV::Text(s@),
        Leaf::Number(n) => LeafV::Number(n),
        Leaf::Flag(b) => LeafV::Flag(b),
        Leaf::Texts(v) => LeafV::Texts(texts_view(v@)),
        Leaf::Pairs(v) => LeafV::Pairs(pairs_view(v@)),
    }
}

pub open spec fn object_view(e: Seq<Entry>) -> ObjectV {
    e.map_values(|x: Entry| (x.key, leaf_view(x.value)))
}

pub open spec fn objects_view(v: Seq<Vec<Entry>>) -> Seq<ObjectV> {
    v.map_values(|o: Vec<Entry>| object_view(o@))
}

pub open spec fn value_view(v: WireValue) -> ValueV {
    match v {
        WireValue::Leaf(l) => ValueV::Leaf(leaf_view(l)),
        WireValue::Object(o) => ValueV::Object(object_view(o@)),
        WireValue::Objects(v) => ValueV::Objects(objects_view(v@)),
    }
}

pub open spec fn payload_view(f: Seq<WireField>) -> PayloadV {
    f.map_values(|x: WireField| (x.key, value_view(x.value)))
}

/// The value of the last field named `k`, if any: a later field overrides an
/// earlier one.
pub open spec fn lookup<T>(s: Seq<(FieldKey, T)>, k: FieldKey) -> Option<T>
    decreases s.len(),
{
    if s.len() == 0 {
        None
    } else if s.last().0 == k {
        Some(s.last().1)
    } else {
        lookup(s.drop_last(), k)
    }
}

/// The single field `(k, v)` when `v` is present, else nothing.
pub open spec fn put<T>(k: FieldKey, v: Option<T>) -> Seq<(FieldKey, T)> {
    match v {
        Some(v) => seq![(k, v)],
        None => Seq::empty(),
    }
}

pub proof fn lemma_lookup_push<T>(s: Seq<(FieldKey, T)>, f: (FieldKey, T), k: FieldKey)
    ensures
        lookup(s.push(f), k) == if f.0 == k {
            Some(f.1)
        } else {
            lookup(s, k)
        },
{
    assert(s.push(f).drop_last() =~= s);
}

/// A key has no value exactly when no field carries it.
pub proof fn lemma_lookup_none<T>(s: Seq<(FieldKey, T)>, k: FieldKey)
    ensures
        lookup(s, k) is None <==> forall|i: int| 0 <= i < s.len() ==> (#[trigger] s[i]).0 != k,
    decreases s.len(),
{
    if s.len() > 0 {
        lemma_lookup_none(s.drop_last(), k);
        if lookup(s, k) is None {
            assert forall|i: int| 0 <= i < s.len() implies (#[trigger] s[i]).0 != k by {
                if i < s.len() - 1 {
                    assert(s[i] == s.drop_last()[i]);
                }
            }
        } else {
            if s.last().0 != k {
                let j = choose|j: int| 0 <= j < s.drop_last().len() && (#[trigger] s.drop_last()[j]).0 == k;
                assert(s[j] == s.drop_last()[j]);
            }
        }
    }
}

/// A field inserted anywhere changes no lookup of another key.
pub proof fn lemma_lookup_insert<T>(s: Seq<(FieldKey, T)>, i: int, f: (FieldKey, T), k: FieldKey)
    requires
        0 <= i <= s.len(),
        f.0 != k,
    ensures
        lookup(s.insert(i, f), k) == lookup(s, k),
    decreases s.len(),
{
    if i == s.len() {
        assert(s.insert(i, f) =~= s.push(f));
        lemma_lookup_push(s, f, k);
    } else {
        let t = s.insert(i, f);
        assert(t.last() == s.last());
        assert(t.drop_last() =~= s.drop_last().insert(i, f));
        lemma_lookup_insert(s.drop_last(), i, f, k);
    }
}

/// Looking up in a payload made of one optional field.
pub broadcast proof fn lemma_lookup_single<T>(k: FieldKey, v: Option<T>, q: FieldKey)
    ensures
        #[trigger] lookup(put(k, v), q) == if k == q && v is Some {
            v
        } else {
            None
        },
{
    match v {
        Some(x) => {
            let e = Seq::<(FieldKey, T)>::empty();
            assert(lookup(e, q) is None);
            assert(put(k, v).drop_last() =~= e);
            assert(put(k, v).last() == (k, x));
        },
        None => {},
    }
}

/// Looking up in a payload extended by an optional field.
pub broadcast proof fn lemma_lookup_put<T>(s: Seq<(FieldKey, T)>, k: FieldKey, v: Option<T>, q: FieldKey)
    ensures
        #[trigger] lookup(s + put(k, v), q) == if k == q && v is Some {
            v
        } else {
            lookup(s, q)
        },
{
    match v {
        Some(x) => {
            assert(s + put(k, v) =~= s.push((k, x)));
            lemma_lookup_push(s, (k, x), q);
        },
        None => {
            assert(s + put(k, v) =~= s);
        },
    }
}

/// The position of the last field named `k` in a payload.
pub fn find_field(fields: &Vec<WireField>, k: FieldKey) -> (r: Option<usize>)
    ensures
        match r {
            Some(i) => i < fields@.len() && lookup(payload_view(fields@), k) == Some(
                value_view(fields@[i as int].value),
            ),
            None => lookup(payload_view(fields@), k) is None,
        },
{
    let mut found: Option<usize> = None;
    let mut i: usize = 0;
    while i < fields.len()
        invariant
            0 <= i <= fields@.len(),
            match found {
                Some(j) => j < i && lookup(payload_view(fields@.subrange(0, i as int)), k) == Some(
                    value_view(fields@[j as int].value),
                ),
                None => lookup(payload_view(fields@.subrange(0, i as int)), k) is None,
            },
        decreases fields@.len() - i,
    {
        proof {
            let s = fields@.subrange(0, i as int);
            let t = fields@.subrange(0, i + 1);
            assert(payload_view(t) =~= payload_view(s).push(
                (fields@[i as int].key, value_view(fields@[i as int].value)),
            ));
            lemma_lookup_push(
                payload_view(s),
                (fields@[i as int].key, value_view(fields@[i as int].value)),
                k,
            );
        }
        if fields[i].key == k {
            found = Some(i);
        }
        i = i + 1;
    }
    assert(fields@.subrange(0, i as int) =~= fields@);
    found
}

/// The position of the last entry named `k` in a nested object.
pub fn find_entry(entries: &Vec<Entry>, k: FieldKey) -> (r: Option<usize>)
    ensures
        match r {
            Some(i) => i < entries@.len() && lookup(object_view(entries@), k) == Some(
                leaf_view(entries@[i as int].value),
            ),
            None => lookup(object_view(entries@), k) is None,
        },
{
    let mut found: Option<usize> = None;
    let mut i: usize = 0;
    while i < entries.len()
        invariant
            0 <= i <= entries@.len(),
            match found {
                Some(j) => j < i && lookup(object_view(entries@.subrange(0, i as int)), k) == Some(
                    leaf_view(entries@[j as int].value),
                ),
                None => lookup(object_view(entries@.subrange(0, i as int)), k) is None,
            },
        decreases entries@.len() - i,
    {
        proof {
            let s = entries@.subrange(0, i as int);
            let t = entries@.subrange(0, i + 1);
            assert(object_view(t) =~= object_view(s).push(
                (entries@[i as int].key, leaf_view(entries@[i as int].value)),
            ));
            lemma_lookup_push(
                object_view(s),
                (entries@[i as int].key, leaf_view(entries@[i as int].value)),
                k,
            );
        }
        if entries[i].key == k {
            found = Some(i);
        }
        i = i + 1;
    }
    assert(entries@.subrange(0, i as int) =~= entries@);
    found
}

/// Appends the field `(k, v)` when `v` is present.
pub fn put_field(out: &mut Vec<WireField>, k: FieldKey, v: Option<WireValue>)
    ensures
        payload_view(final(out)@) == payload_view(old(out)@) + put(
            k,
            match v {
                Some(x) => Some(value_view(x)),
                None => None,
            },
        ),
{
    match v {
        Some(x) => {
            let ghost x0 = x;
            out.push(WireField { key: k, value: x });
            assert(payload_view(out@) =~= payload_view(old(out)@) + put(k, Some(value_view(x0))));
        },
        None => {
            assert(payload_view(out@) =~= payload_view(old(out)@) + put(k, None::<ValueV>));
        },
    }
}

/// Appends the entry `(k, v)` when `v` is present.
pub fn put_entry(out: &mut Vec<Entry>, k: FieldKey, v: Option<Leaf>)
    ensures
        object_view(final(out)@) == object_view(old(out)@) + put(
            k,
            match v {
                Some(x) => Some(leaf_view(x)),
                None => None,
            },
        ),
{
    match v {
        Some(x) => {
            let ghost x0 = x;
            out.push(Entry { key: k, value: x });
            assert(object_view(out@) =~= object_view(old(out)@) + put(k, Some(leaf_view(x0))));
        },
        None => {
            assert(object_view(out@) =~= object_view(old(out)@) + put(k, None::<LeafV>));
        },
    }
}

} // verus!

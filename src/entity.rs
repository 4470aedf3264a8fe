//! The attributes that every entity shares, and their validation.

use crate::validate::{
    context_finish, context_new, opt_seq, record_opt, recorded, reports, DeviceInvalidity,
    EntityInvalidity, Violations,
};
use crate::value::{AvailabilityMode, EntityCategory, MqttQoS, Payload, Template, Topic};
use vstd::prelude::*;

verus! {

/// The violation of an optional topic, if any.
pub open spec fn topic_issue(t: Option<Topic>) -> Option<EntityInvalidity> {
    match t {
        Some(t) => match t.fault() {
            Some(e) => Some(EntityInvalidity::Topic(e)),
            None => None,
        },
        None => None,
    }
}

/// The violation of an optional topic that is published to, if any.
pub open spec fn publish_topic_issue(t: Option<Topic>) -> Option<EntityInvalidity> {
    match t {
        Some(t) => match t.publish_fault() {
            Some(e) => Some(EntityInvalidity::Topic(e)),
            None => None,
        },
        None => None,
    }
}

/// The violation of an optional payload, if any.
pub open spec fn payload_issue(p: Option<Payload>) -> Option<EntityInvalidity> {
    match p {
        Some(p) => match p.fault() {
            Some(e) => Some(EntityInvalidity::Payload(e)),
            None => None,
        },
        None => None,
    }
}

/// The violation of an optional template, if any.
pub open spec fn template_issue(t: Option<Template>) -> Option<EntityInvalidity> {
    match t {
        Some(t) => match t.fault() {
            Some(e) => Some(EntityInvalidity::Template(e)),
            None => None,
        },
        None => None,
    }
}

pub(crate) fn check_opt_topic(t: &Option<Topic>) -> (r: Option<EntityInvalidity>)
    ensures
        r == topic_issue(*t),
{
    match t {
        Some(t) => match t.check() {
            Some(e) => Some(EntityInvalidity::Topic(e)),
            None => None,
        },
        None => None,
    }
}

pub(crate) fn check_opt_publish_topic(t: &Option<Topic>) -> (r: Option<EntityInvalidity>)
    ensures
        r == publish_topic_issue(*t),
{
    match t {
        Some(t) => match t.check_publish() {
            Some(e) => Some(EntityInvalidity::Topic(e)),
            None => None,
        },
        None => None,
    }
}

pub(crate) fn check_topic_value(t: &Topic) -> (r: Option<EntityInvalidity>)
    ensures
        r == topic_issue(Some(*t)),
{
    match t.check() {
        Some(e) => Some(EntityInvalidity::Topic(e)),
        None => None,
    }
}

pub(crate) fn check_opt_payload(p: &Option<Payload>) -> (r: Option<EntityInvalidity>)
    ensures
        r == payload_issue(*p),
{
    match p {
        Some(p) => match p.check() {
            Some(e) => Some(EntityInvalidity::Payload(e)),
            None => None,
        },
        None => None,
    }
}

pub(crate) fn check_opt_template(t: &Option<Template>) -> (r: Option<EntityInvalidity>)
    ensures
        r == template_issue(*t),
{
    match t {
        Some(t) => match t.check() {
            Some(e) => Some(EntityInvalidity::Template(e)),
            None => None,
        },
        None => None,
    }
}

/// One way of telling whether an entity is online.
#[derive(Debug, Clone, PartialEq, Eq)]
pub struct Availability {
    pub topic: Topic,
    pub value_template: Option<Template>,
    pub payload_available: Option<String>,
    pub payload_not_available: Option<String>,
}

impl Availability {
    /// The violations of this availability entry, in the order they are checked.
    pub open spec fn violations(self) -> Seq<EntityInvalidity> {
        opt_seq(topic_issue(Some(self.topic))) + opt_seq(template_issue(self.value_template))
    }
}

/// The violations of a list of availability entries, entry by entry.
pub open spec fn availability_violations(s: Seq<Availability>) -> Seq<EntityInvalidity>
    decreases s.len(),
{
    if s.len() == 0 {
        Seq::empty()
    } else {
        availability_violations(s.drop_last()) + s.last().violations()
    }
}

/// Records the violations of each availability entry, in list order.
pub(crate) fn record_availability(list: &Vec<Availability>, c: Violations) -> (r: Violations)
    ensures
        recorded(r) == recorded(c) + availability_violations(list@),
{
    let ghost c1 = recorded(c);
    let mut c = c;
    let mut i: usize = 0;
    assert(c1 + availability_violations(list@.subrange(0, 0)) =~= c1);
    while i < list.len()
        invariant
            0 <= i <= list@.len(),
            recorded(c) == c1 + availability_violations(list@.subrange(0, i as int)),
        decreases list@.len() - i,
    {
        let a = &list[i];
        let ghost before = recorded(c);
        c = record_opt(c, check_topic_value(&a.topic));
        c = record_opt(c, check_opt_template(&a.value_template));
        proof {
            assert(recorded(c) =~= before + a.violations());
            let s = list@.subrange(0, i + 1);
            assert(s.drop_last() =~= list@.subrange(0, i as int));
            assert(s.last() == list@[i as int]);
            assert(recorded(c) =~= c1 + availability_violations(s));
        }
        i = i + 1;
    }
    assert(list@.subrange(0, i as int) =~= list@);
    c
}

/// A pair naming a connection of a device, such as `("mac", "02:5b:26:a8:dc:12")`.
#[derive(Debug, Clone, PartialEq, Eq)]
pub struct Connection {
    pub kind: String,
    pub id: String,
}

/// The device that an entity belongs to.
#[derive(Debug, Clone, PartialEq, Eq)]
pub struct Device {
    pub identifiers: Vec<String>,
    pub connections: Vec<Connection>,
    pub manufacturer: Option<String>,
    pub model: Option<String>,
    pub name: Option<String>,
    pub sw_version: Option<String>,
}

impl Device {
    /// The violations of this device record.
    pub open spec fn violations(self) -> Seq<DeviceInvalidity> {
        if self.identifiers@.len() == 0 && self.connections@.len() == 0 {
            seq![DeviceInvalidity::MissingIdentity]
        } else {
            Seq::empty()
        }
    }

    pub fn validate(&self) -> (r: Option<DeviceInvalidity>)
        ensures
            opt_seq(r) == self.violations(),
    {
        if self.identifiers.len() == 0 && self.connections.len() == 0 {
            Some(DeviceInvalidity::MissingIdentity)
        } else {
            None
        }
    }
}

/// The violation of an optional device, nested under `Device`, if any.
pub open spec fn device_issue(d: Option<Device>) -> Option<EntityInvalidity> {
    match d {
        Some(d) => if d.violations().len() == 0 {
            None
        } else {
            Some(EntityInvalidity::Device(DeviceInvalidity::MissingIdentity))
        },
        None => None,
    }
}

pub(crate) fn check_opt_device(d: &Option<Device>) -> (r: Option<EntityInvalidity>)
    ensures
        r == device_issue(*d),
{
    match d {
        Some(d) => match d.validate() {
            Some(v) => Some(EntityInvalidity::Device(v)),
            None => None,
        },
        None => None,
    }
}

/// The attributes shared by every platform entity.
#[derive(Debug, Clone, PartialEq, Eq)]
pub struct Entity {
    /// Topics that report availability; not to be combined with `availability_topic`.
    pub availability: Vec<Availability>,
    pub availability_mode: AvailabilityMode,
    pub availability_template: Option<Template>,
    pub availability_topic: Option<Topic>,
    pub device: Option<Device>,
    pub enabled_by_default: Option<bool>,
    pub entity_category: EntityCategory,
    pub icon: Option<String>,
    pub json_attributes_template: Option<Template>,
    pub json_attributes_topic: Option<Topic>,
    pub name: Option<String>,
    pub object_id: Option<String>,
    pub qos: MqttQoS,
    pub unique_id: Option<String>,
}

impl Default for Entity {
    fn default() -> (r: Entity)
        ensures
            r.availability@.len() == 0,
            r.availability_mode == AvailabilityMode::Latest,
            r.availability_template is None,
            r.availability_topic is None,
            r.device is None,
            r.enabled_by_default is None,
            r.entity_category == EntityCategory::Absent,
            r.icon is None,
            r.json_attributes_template is None,
            r.json_attributes_topic is None,
            r.name is None,
            r.object_id is None,
            r.qos == MqttQoS::AtMostOnce,
            r.unique_id is None,
    {
        Entity {
            availability: Vec::new(),
            availability_mode: AvailabilityMode::Latest,
            availability_template: None,
            availability_topic: None,
            device: None,
            enabled_by_default: None,
            entity_category: EntityCategory::Absent,
            icon: None,
            json_attributes_template: None,
            json_attributes_topic: None,
            name: None,
            object_id: None,
            qos: MqttQoS::AtMostOnce,
            unique_id: None,
        }
    }
}

impl Entity {
    /// Whether both forms of availability are configured.
    pub open spec fn has_availability_conflict(self) -> bool {
        self.availability@.len() > 0 && self.availability_topic is Some
    }

    /// The violations of the shared attributes, in the order they are checked.
    #[verifier::opaque]
    pub open spec fn violations(self) -> Seq<EntityInvalidity> {
        opt_seq(
            if self.has_availability_conflict() {
                Some(EntityInvalidity::AvailabilityConflict)
            } else {
                None
            },
        ) + availability_violations(self.availability@) + opt_seq(
            topic_issue(self.availability_topic),
        ) + opt_seq(template_issue(self.availability_template)) + opt_seq(
            device_issue(self.device),
        ) + opt_seq(topic_issue(self.json_attributes_topic)) + opt_seq(
            template_issue(self.json_attributes_template),
        )
    }

    /// Records the violations of the shared attributes after those of `c`.
    #[verifier::rlimit(40)]
    pub(crate) fn validate_into(&self, c: Violations) -> (r: Violations)
        ensures
            recorded(r) == recorded(c) + self.violations(),
    {
        let ghost c0 = recorded(c);
        let conflict = if self.availability.len() > 0 && self.availability_topic.is_some() {
            Some(EntityInvalidity::AvailabilityConflict)
        } else {
            None
        };
        let ghost p0 = opt_seq(conflict);
        let mut c = record_opt(c, conflict);
        let ghost p1 = p0 + availability_violations(self.availability@);
        c = record_availability(&self.availability, c);
        assert(recorded(c) =~= c0 + p1);
        let ghost p2 = p1 + opt_seq(topic_issue(self.availability_topic));
        c = record_opt(c, check_opt_topic(&self.availability_topic));
        assert(recorded(c) =~= c0 + p2);
        let ghost p3 = p2 + opt_seq(template_issue(self.availability_template));
        c = record_opt(c, check_opt_template(&self.availability_template));
        assert(recorded(c) =~= c0 + p3);
        let device = check_opt_device(&self.device);
        let ghost p4 = p3 + opt_seq(device_issue(self.device));
        c = record_opt(c, device);
        assert(recorded(c) =~= c0 + p4);
        let ghost p5 = p4 + opt_seq(topic_issue(self.json_attributes_topic));
        c = record_opt(c, check_opt_topic(&self.json_attributes_topic));
        assert(recorded(c) =~= c0 + p5);
        c = record_opt(c, check_opt_template(&self.json_attributes_template));
        assert(recorded(c) =~= c0 + self.violations()) by {
            reveal(Entity::violations);
        }
        c
    }

    /// Validates the shared attributes, reporting every violation.
    pub fn validate(&self) -> (r: Result<(), Vec<EntityInvalidity>>)
        ensures
            reports(r, self.violations()),
    {
        let c = self.validate_into(context_new());
        assert(recorded(c) =~= self.violations());
        context_finish(c)
    }
}

/// Whether `s` holds the availability conflict exactly once.
pub open spec fn conflict_once(s: Seq<EntityInvalidity>) -> bool {
    exists|i: int|
        0 <= i < s.len() && s[i] == EntityInvalidity::AvailabilityConflict && forall|j: int|
            0 <= j < s.len() && j != i ==> s[j] != EntityInvalidity::AvailabilityConflict
}

/// Whether `s` holds no availability conflict.
pub open spec fn conflict_free(s: Seq<EntityInvalidity>) -> bool {
    forall|j: int| 0 <= j < s.len() ==> s[j] != EntityInvalidity::AvailabilityConflict
}

/// Whether `s` holds a device violation for a missing identity.
pub open spec fn flags_device(s: Seq<EntityInvalidity>) -> bool {
    exists|i: int|
        0 <= i < s.len() && s[i] == EntityInvalidity::Device(DeviceInvalidity::MissingIdentity)
}

proof fn lemma_availability_conflict_free(s: Seq<Availability>)
    ensures
        conflict_free(availability_violations(s)),
    decreases s.len(),
{
    if s.len() > 0 {
        lemma_availability_conflict_free(s.drop_last());
    }
}

/// Appending violations of other kinds keeps a single conflict single.
pub proof fn lemma_conflict_once_extend(s: Seq<EntityInvalidity>, t: Seq<EntityInvalidity>)
    requires
        conflict_once(s),
        conflict_free(t),
    ensures
        conflict_once(s + t),
{
    let i = choose|i: int|
        0 <= i < s.len() && s[i] == EntityInvalidity::AvailabilityConflict && forall|j: int|
            0 <= j < s.len() && j != i ==> s[j] != EntityInvalidity::AvailabilityConflict;
    assert((s + t)[i] == s[i]);
    assert forall|j: int| 0 <= j < (s + t).len() && j != i implies (s + t)[j]
        != EntityInvalidity::AvailabilityConflict by {
        if j >= s.len() {
            assert((s + t)[j] == t[j - s.len()]);
        }
    }
}

/// Two sequences without a conflict concatenate to one without a conflict.
pub proof fn lemma_conflict_free_concat(s: Seq<EntityInvalidity>, t: Seq<EntityInvalidity>)
    requires
        conflict_free(s),
        conflict_free(t),
    ensures
        conflict_free(s + t),
{
    assert forall|j: int| 0 <= j < (s + t).len() implies (s + t)[j]
        != EntityInvalidity::AvailabilityConflict by {
        if j >= s.len() {
            assert((s + t)[j] == t[j - s.len()]);
        } else {
            assert((s + t)[j] == s[j]);
        }
    }
}

/// Appending violations keeps a device violation.
pub proof fn lemma_flags_device_extend(s: Seq<EntityInvalidity>, t: Seq<EntityInvalidity>)
    requires
        flags_device(s),
    ensures
        flags_device(s + t),
{
    let i = choose|i: int|
        0 <= i < s.len() && s[i] == EntityInvalidity::Device(DeviceInvalidity::MissingIdentity);
    assert((s + t)[i] == s[i]);
}

/// An entity with a non-empty availability list and an availability topic
/// reports the conflict between them exactly once.
pub proof fn lemma_entity_availability_conflict(e: Entity)
    requires
        e.availability@.len() > 0,
        e.availability_topic is Some,
    ensures
        conflict_once(e.violations()),
{
    let head = seq![EntityInvalidity::AvailabilityConflict];
    assert(opt_seq(Some(EntityInvalidity::AvailabilityConflict)) == head);
    lemma_availability_conflict_free(e.availability@);
    let rest = availability_violations(e.availability@) + opt_seq(topic_issue(e.availability_topic))
        + opt_seq(template_issue(e.availability_template)) + opt_seq(device_issue(e.device))
        + opt_seq(topic_issue(e.json_attributes_topic)) + opt_seq(
        template_issue(e.json_attributes_template),
    );
    assert(conflict_free(rest)) by {
        assert forall|j: int| 0 <= j < rest.len() implies rest[j]
            != EntityInvalidity::AvailabilityConflict by {
            let a = availability_violations(e.availability@);
            if j < a.len() {
                assert(rest[j] == a[j]);
            }
        }
    }
    assert(e.violations() =~= head + rest) by {
        reveal(Entity::violations);
    }
    assert(conflict_once(head + rest)) by {
        assert((head + rest)[0] == EntityInvalidity::AvailabilityConflict);
        assert forall|j: int| 0 <= j < (head + rest).len() && j != 0 implies (head + rest)[j]
            != EntityInvalidity::AvailabilityConflict by {
            assert((head + rest)[j] == rest[j - 1]);
        }
    }
}

/// An entity whose device has neither identifiers nor connections reports a
/// device violation for it.
pub proof fn lemma_entity_device_without_identity(e: Entity)
    requires
        e.device matches Some(d) && d.identifiers@.len() == 0 && d.connections@.len() == 0,
    ensures
        flags_device(e.violations()),
{
    let front = opt_seq(
        if e.has_availability_conflict() {
            Some(EntityInvalidity::AvailabilityConflict)
        } else {
            None
        },
    ) + availability_violations(e.availability@) + opt_seq(topic_issue(e.availability_topic))
        + opt_seq(template_issue(e.availability_template));
    let dev = opt_seq(device_issue(e.device));
    assert(dev[0] == EntityInvalidity::Device(DeviceInvalidity::MissingIdentity));
    let back = opt_seq(topic_issue(e.json_attributes_topic)) + opt_seq(
        template_issue(e.json_attributes_template),
    );
    assert(e.violations() =~= front + dev + back) by {
        reveal(Entity::violations);
    }
    assert((front + dev)[front.len() as int] == dev[0]);
    lemma_flags_device_extend(front + dev, back);
}

} // verus!

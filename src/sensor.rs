//! The sensor platform.

use crate::entity::{
    check_opt_template, check_topic_value, conflict_free, conflict_once, flags_device,
    lemma_conflict_free_concat, lemma_conflict_once_extend, lemma_entity_availability_conflict,
    lemma_entity_device_without_identity, lemma_flags_device_extend, template_issue, topic_issue,
    Entity,
};
use crate::validate::{
    context_finish, context_new, opt_seq, record_opt, recorded, reports, EntityInvalidity,
};
use crate::value::{DeviceClass, StateClass, Template, Topic};
use vstd::prelude::*;

verus! {

/// A sensor whose value is the payload of the messages on its state topic.
#[derive(Debug, Clone, PartialEq, Eq)]
pub struct Sensor {
    pub entity: Entity,
    pub device_class: DeviceClass,
    /// Seconds after which a value that was not refreshed expires.
    pub expire_after: Option<u32>,
    pub force_update: Option<bool>,
    pub last_reset_value_template: Option<Template>,
    pub state_class: StateClass,
    /// The topic the sensor's values arrive on; always present.
    pub state_topic: Topic,
    pub unit_of_measurement: Option<String>,
    pub value_template: Option<Template>,
}

impl Sensor {
    /// The violations of this sensor: those of the shared attributes, then
    /// those of each platform field in turn.
    pub open spec fn violations(self) -> Seq<EntityInvalidity> {
        self.entity.violations() + self.own_violations()
    }

    /// Validates the sensor, reporting every violation in the order checked.
    pub fn validate(&self) -> (r: Result<(), Vec<EntityInvalidity>>)
        ensures
            reports(r, self.violations()),
    {
        let c = self.entity.validate_into(context_new());
        let ghost p0 = self.entity.violations();
        assert(recorded(c) =~= p0);
        let ghost q1 = opt_seq(topic_issue(Some(self.state_topic)));
        let c = record_opt(c, check_topic_value(&self.state_topic));
        assert(recorded(c) =~= p0 + q1);
        let ghost q2 = q1 + opt_seq(template_issue(self.value_template));
        let c = record_opt(c, check_opt_template(&self.value_template));
        assert(recorded(c) =~= p0 + q2);
        let c = record_opt(c, check_opt_template(&self.last_reset_value_template));
        assert(recorded(c) =~= p0 + self.own_violations());
        context_finish(c)
    }
}

impl Sensor {
    /// The violations that follow those of the shared attributes.
    pub open spec fn own_violations(self) -> Seq<EntityInvalidity> {
        opt_seq(topic_issue(Some(self.state_topic))) + opt_seq(template_issue(self.value_template))
            + opt_seq(template_issue(self.last_reset_value_template))
    }

    proof fn lemma_split(self)
        ensures
            self.violations() == self.entity.violations() + self.own_violations(),
            conflict_free(self.own_violations()),
    {
        let a = opt_seq(topic_issue(Some(self.state_topic)));
        let b = opt_seq(template_issue(self.value_template));
        let c = opt_seq(template_issue(self.last_reset_value_template));
        lemma_conflict_free_concat(a, b);
        lemma_conflict_free_concat(a + b, c);
    }
}

/// A sensor with a non-empty availability list and an availability topic
/// reports the conflict between them exactly once.
pub proof fn lemma_sensor_availability_conflict(s: Sensor)
    requires
        s.entity.availability@.len() > 0,
        s.entity.availability_topic is Some,
    ensures
        conflict_once(s.violations()),
{
    lemma_entity_availability_conflict(s.entity);
    s.lemma_split();
    lemma_conflict_once_extend(s.entity.violations(), s.own_violations());
}

/// A sensor whose device has neither identifiers nor connections reports a
/// device violation for it.
pub proof fn lemma_sensor_device_without_identity(s: Sensor)
    requires
        s.entity.device matches Some(d) && d.identifiers@.len() == 0 && d.connections@.len() == 0,
    ensures
        flags_device(s.violations()),
{
    lemma_entity_device_without_identity(s.entity);
    s.lemma_split();
    lemma_flags_device_extend(s.entity.violations(), s.own_violations());
}

} // verus!

//! The switch platform.

use crate::entity::{
    check_opt_payload, check_opt_publish_topic, check_opt_template, check_opt_topic, conflict_free,
    conflict_once, flags_device, lemma_conflict_free_concat, lemma_conflict_once_extend,
    lemma_entity_availability_conflict, lemma_entity_device_without_identity,
    lemma_flags_device_extend, payload_issue, publish_topic_issue, template_issue, topic_issue,
    Entity,
};
use crate::validate::{
    context_finish, context_new, opt_seq, record_opt, recorded, reports, EntityInvalidity,
    Violations,
};
use crate::value::{DeviceClass, Payload, Template, Topic, ValueError};
use vstd::prelude::*;

verus! {

/// A switch that can be commanded on and off, and may report its state.
#[derive(Debug, Clone, PartialEq, Eq)]
pub struct Switch {
    pub entity: Entity,
    pub command_topic: Option<Topic>,
    pub device_class: DeviceClass,
    pub optimistic: Option<bool>,
    pub payload_off: Option<Payload>,
    pub payload_on: Option<Payload>,
    pub retain: Option<bool>,
    pub state_off: Option<Payload>,
    pub state_on: Option<Payload>,
    pub state_topic: Option<Topic>,
    pub value_template: Option<Template>,
}

impl Switch {
    /// The violations of this switch: those of the shared attributes, then
    /// those of each platform field in turn.
    pub open spec fn violations(self) -> Seq<EntityInvalidity> {
        self.entity.violations() + self.own_violations()
    }

    /// Records the violations of the platform fields after those of `c`.
    #[verifier::rlimit(30)]
    fn record_own(&self, c: Violations) -> (r: Violations)
        ensures
            recorded(r) == recorded(c) + self.own_violations(),
    {
        let ghost p0 = recorded(c);
        let ghost q1 = opt_seq(publish_topic_issue(self.command_topic));
        let c = record_opt(c, check_opt_publish_topic(&self.command_topic));
        assert(recorded(c) =~= p0 + q1);
        let ghost q2 = q1 + opt_seq(payload_issue(self.payload_on));
        let c = record_opt(c, check_opt_payload(&self.payload_on));
        assert(recorded(c) =~= p0 + q2);
        let ghost q3 = q2 + opt_seq(payload_issue(self.payload_off));
        let c = record_opt(c, check_opt_payload(&self.payload_off));
        assert(recorded(c) =~= p0 + q3);
        let ghost q4 = q3 + opt_seq(topic_issue(self.state_topic));
        let c = record_opt(c, check_opt_topic(&self.state_topic));
        assert(recorded(c) =~= p0 + q4);
        let ghost q5 = q4 + opt_seq(payload_issue(self.state_on));
        let c = record_opt(c, check_opt_payload(&self.state_on));
        assert(recorded(c) =~= p0 + q5);
        let ghost q6 = q5 + opt_seq(payload_issue(self.state_off));
        let c = record_opt(c, check_opt_payload(&self.state_off));
        assert(recorded(c) =~= p0 + q6);
        let c = record_opt(c, check_opt_template(&self.value_template));
        assert(recorded(c) =~= p0 + self.own_violations());
        c
    }

    /// Validates the switch, reporting every violation in the order checked.
    pub fn validate(&self) -> (r: Result<(), Vec<EntityInvalidity>>)
        ensures
            reports(r, self.violations()),
    {
        let c = self.entity.validate_into(context_new());
        assert(recorded(c) =~= self.entity.violations());
        let c = self.record_own(c);
        context_finish(c)
    }
}

impl Switch {
    /// The violations that follow those of the shared attributes.
    pub open spec fn own_violations(self) -> Seq<EntityInvalidity> {
        opt_seq(publish_topic_issue(self.command_topic)) + opt_seq(payload_issue(self.payload_on))
            + opt_seq(payload_issue(self.payload_off)) + opt_seq(topic_issue(self.state_topic))
            + opt_seq(payload_issue(self.state_on)) + opt_seq(payload_issue(self.state_off))
            + opt_seq(template_issue(self.value_template))
    }

    proof fn lemma_split(self)
        ensures
            self.violations() == self.entity.violations() + self.own_violations(),
            conflict_free(self.own_violations()),
    {
        let a = opt_seq(publish_topic_issue(self.command_topic));
        let b = opt_seq(payload_issue(self.payload_on));
        let c = opt_seq(payload_issue(self.payload_off));
        let d = opt_seq(topic_issue(self.state_topic));
        let e = opt_seq(payload_issue(self.state_on));
        let f = opt_seq(payload_issue(self.state_off));
        let g = opt_seq(template_issue(self.value_template));
        lemma_conflict_free_concat(a, b);
        lemma_conflict_free_concat(a + b, c);
        lemma_conflict_free_concat(a + b + c, d);
        lemma_conflict_free_concat(a + b + c + d, e);
        lemma_conflict_free_concat(a + b + c + d + e, f);
        lemma_conflict_free_concat(a + b + c + d + e + f, g);
    }
}

/// A switch with a non-empty availability list and an availability topic
/// reports the conflict between them exactly once.
pub proof fn lemma_switch_availability_conflict(s: Switch)
    requires
        s.entity.availability@.len() > 0,
        s.entity.availability_topic is Some,
    ensures
        conflict_once(s.violations()),
{
    lemma_entity_availability_conflict(s.entity);
    s.lemma_split();
    lemma_conflict_once_extend(s.entity.violations(), s.own_violations());
}

/// A switch whose device has neither identifiers nor connections reports a
/// device violation for it.
pub proof fn lemma_switch_device_without_identity(s: Switch)
    requires
        s.entity.device matches Some(d) && d.identifiers@.len() == 0 && d.connections@.len() == 0,
    ensures
        flags_device(s.violations()),
{
    lemma_entity_device_without_identity(s.entity);
    s.lemma_split();
    lemma_flags_device_extend(s.entity.violations(), s.own_violations());
}

/// A switch with an empty command topic and an empty `state_on` payload
/// reports both, the topic first, in one validation.
pub proof fn lemma_switch_reports_every_violation(s: Switch)
    requires
        s.command_topic matches Some(t) && t.0@.len() == 0,
        s.state_on matches Some(p) && p.0@.len() == 0,
    ensures
        exists|i: int, j: int|
            0 <= i < j < s.violations().len() && s.violations()[i] == EntityInvalidity::Topic(
                ValueError::EmptyTopic,
            ) && s.violations()[j] == EntityInvalidity::Payload(ValueError::EmptyPayload),
{
    let e = s.entity.violations();
    let a = opt_seq(publish_topic_issue(s.command_topic));
    let b = opt_seq(payload_issue(s.payload_on)) + opt_seq(payload_issue(s.payload_off)) + opt_seq(
        topic_issue(s.state_topic),
    );
    let c = opt_seq(payload_issue(s.state_on));
    let d = opt_seq(payload_issue(s.state_off)) + opt_seq(template_issue(s.value_template));
    let own = a + b + c + d;
    assert(s.own_violations() =~= own);
    assert(a[0] == EntityInvalidity::Topic(ValueError::EmptyTopic));
    assert(c[0] == EntityInvalidity::Payload(ValueError::EmptyPayload));
    let k = (a + b).len() as int;
    assert(own[0] == a[0]);
    assert(own[k] == c[0]);
    let v = e + own;
    let i = e.len() as int;
    let j = i + k;
    assert(v[i] == own[0]);
    assert(v[j] == own[k]);
    assert(s.violations() == v);
    assert(0 <= i < j < v.len() && v[i] == EntityInvalidity::Topic(ValueError::EmptyTopic)
        && v[j] == EntityInvalidity::Payload(ValueError::EmptyPayload));
}

} // verus!

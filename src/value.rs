//! Primitive value types and their shape rules.

use vstd::prelude::*;

verus! {

/// A shape error of a primitive value.
#[derive(Debug, Clone, Copy, PartialEq, Eq, Structural)]
pub enum ValueError {
    EmptyTopic,
    WildcardTopic,
    EmptyPayload,
    EmptyTemplate,
    InvalidQoS,
}

/// Whether a string contains an MQTT wildcard (`+` or `#`).
pub open spec fn has_wildcard(s: Seq<char>) -> bool {
    exists|i: int| 0 <= i < s.len() && (s[i] == '+' || s[i] == '#')
}

/// The shape error of a topic string, if any: a topic is never empty.
pub open spec fn topic_fault(s: Seq<char>) -> Option<ValueError> {
    if s.len() == 0 { Some(ValueError::EmptyTopic) } else { None }
}

/// The error of a topic string used as a publish target, if any: it is a
/// topic, and wildcards are for subscribing only.
pub open spec fn publish_topic_fault(s: Seq<char>) -> Option<ValueError> {
    if s.len() == 0 {
        Some(ValueError::EmptyTopic)
    } else if has_wildcard(s) {
        Some(ValueError::WildcardTopic)
    } else {
        None
    }
}

/// The shape error of a payload string, if any.
pub open spec fn payload_fault(s: Seq<char>) -> Option<ValueError> {
    if s.len() == 0 { Some(ValueError::EmptyPayload) } else { None }
}

/// The shape error of a template string, if any.
pub open spec fn template_fault(s: Seq<char>) -> Option<ValueError> {
    if s.len() == 0 { Some(ValueError::EmptyTemplate) } else { None }
}

fn contains_wildcard(s: &str) -> (r: bool)
    ensures
        r == has_wildcard(s@),
{
    let mut found = false;
    for c in it: s.chars()
        invariant
            it.seq() == s@,
            found == (exists|j: int| 0 <= j < it.index() && (s@[j] == '+' || s@[j] == '#')),
    {
        if c == '+' || c == '#' {
            found = true;
        }
    }
    found
}

/// Checks a string against the topic shape: non-empty.
pub fn check_topic(s: &str) -> (r: Option<ValueError>)
    ensures
        r == topic_fault(s@),
{
    if s.is_empty() { Some(ValueError::EmptyTopic) } else { None }
}

/// Checks a string as a publish target: non-empty, no wildcard.
pub fn check_publish_topic(s: &str) -> (r: Option<ValueError>)
    ensures
        r == publish_topic_fault(s@),
{
    if s.is_empty() {
        Some(ValueError::EmptyTopic)
    } else if contains_wildcard(s) {
        Some(ValueError::WildcardTopic)
    } else {
        None
    }
}

/// Checks a string against the payload shape: non-empty.
pub fn check_payload(s: &str) -> (r: Option<ValueError>)
    ensures
        r == payload_fault(s@),
{
    if s.is_empty() { Some(ValueError::EmptyPayload) } else { None }
}

/// Checks a string against the template shape: non-empty.
pub fn check_template(s: &str) -> (r: Option<ValueError>)
    ensures
        r == template_fault(s@),
{
    if s.is_empty() { Some(ValueError::EmptyTemplate) } else { None }
}

/// An MQTT topic used as a publish or subscribe channel. Wildcards (`+`, `#`)
/// may only appear where the topic is subscribed to.
#[derive(Debug, Clone, PartialEq, Eq)]
pub struct Topic(pub String);

impl Topic {
    pub open spec fn fault(&self) -> Option<ValueError> {
        topic_fault(self.0@)
    }

    pub open spec fn publish_fault(&self) -> Option<ValueError> {
        publish_topic_fault(self.0@)
    }

    /// Builds a topic, refusing an empty one.
    pub fn new(s: String) -> (r: Result<Topic, ValueError>)
        ensures
            match topic_fault(s@) {
                Some(e) => r == Err::<Topic, ValueError>(e),
                None => r == Ok::<Topic, ValueError>(Topic(s)),
            },
    {
        match check_topic(s.as_str()) {
            Some(e) => Err(e),
            None => Ok(Topic(s)),
        }
    }

    pub fn check(&self) -> (r: Option<ValueError>)
        ensures
            r == self.fault(),
    {
        check_topic(self.0.as_str())
    }

    /// Checks the topic as a publish target.
    pub fn check_publish(&self) -> (r: Option<ValueError>)
        ensures
            r == self.publish_fault(),
    {
        check_publish_topic(self.0.as_str())
    }
}

/// A payload compared literally against message bodies.
#[derive(Debug, Clone, PartialEq, Eq)]
pub struct Payload(pub String);

impl Payload {
    pub open spec fn fault(&self) -> Option<ValueError> {
        payload_fault(self.0@)
    }

    /// Builds a payload, refusing an empty one.
    pub fn new(s: String) -> (r: Result<Payload, ValueError>)
        ensures
            match payload_fault(s@) {
                Some(e) => r == Err::<Payload, ValueError>(e),
                None => r == Ok::<Payload, ValueError>(Payload(s)),
            },
    {
        match check_payload(s.as_str()) {
            Some(e) => Err(e),
            None => Ok(Payload(s)),
        }
    }

    pub fn check(&self) -> (r: Option<ValueError>)
        ensures
            r == self.fault(),
    {
        check_payload(self.0.as_str())
    }
}

/// A templating expression, evaluated elsewhere.
#[derive(Debug, Clone, PartialEq, Eq)]
pub struct Template(pub String);

impl Template {
    pub open spec fn fault(&self) -> Option<ValueError> {
        template_fault(self.0@)
    }

    /// Builds a template, refusing an empty one.
    pub fn new(s: String) -> (r: Result<Template, ValueError>)
        ensures
            match template_fault(s@) {
                Some(e) => r == Err::<Template, ValueError>(e),
                None => r == Ok::<Template, ValueError>(Template(s)),
            },
    {
        match check_template(s.as_str()) {
            Some(e) => Err(e),
            None => Ok(Template(s)),
        }
    }

    pub fn check(&self) -> (r: Option<ValueError>)
        ensures
            r == self.fault(),
    {
        check_template(self.0.as_str())
    }
}

/// Delivery guarantee of a topic.
#[derive(Debug, Clone, Copy, PartialEq, Eq, Structural)]
pub enum MqttQoS {
    AtMostOnce,
    AtLeastOnce,
    ExactlyOnce,
}

impl MqttQoS {
    pub open spec fn spec_level(self) -> u64 {
        match self {
            MqttQoS::AtMostOnce => 0,
            MqttQoS::AtLeastOnce => 1,
            MqttQoS::ExactlyOnce => 2,
        }
    }

    /// The QoS of a level in {0, 1, 2}; any other level is refused.
    pub fn from_level(n: u64) -> (r: Result<MqttQoS, ValueError>)
        ensures
            n <= 2 <==> r is Ok,
            r is Err ==> r == Err::<MqttQoS, ValueError>(ValueError::InvalidQoS),
            r matches Ok(q) ==> q.spec_level() == n,
    {
        if n == 0 {
            Ok(MqttQoS::AtMostOnce)
        } else if n == 1 {
            Ok(MqttQoS::AtLeastOnce)
        } else if n == 2 {
            Ok(MqttQoS::ExactlyOnce)
        } else {
            Err(ValueError::InvalidQoS)
        }
    }

    pub fn level(&self) -> (r: u64)
        ensures
            r == self.spec_level(),
    {
        match self {
            MqttQoS::AtMostOnce => 0,
            MqttQoS::AtLeastOnce => 1,
            MqttQoS::ExactlyOnce => 2,
        }
    }

    pub fn is_default(&self) -> (r: bool)
        ensures
            r == (*self == MqttQoS::AtMostOnce),
    {
        matches!(self, MqttQoS::AtMostOnce)
    }
}

impl Default for MqttQoS {
    fn default() -> (r: MqttQoS)
        ensures
            r == MqttQoS::AtMostOnce,
    {
        MqttQoS::AtMostOnce
    }
}

/// Whether two strings hold the same characters.
pub fn text_eq(a: &str, b: &str) -> (r: bool)
    ensures
        r == (a@ == b@),
{
    let x = a.to_owned();
    let y = b.to_owned();
    x.eq(&y)
}

/// The class of a device, which sets its icon and unit handling; `Absent` is the absent class.
#[derive(Debug, Clone, Copy, PartialEq, Eq, Structural)]
pub enum DeviceClass {
    Absent,
    Battery,
    Current,
    Energy,
    Humidity,
    Illuminance,
    Outlet,
    Power,
    Pressure,
    Switch,
    Temperature,
    Voltage,
}
impl DeviceClass {
    /// The token that stands for this value on the wire.
    pub open spec fn spec_token(self) -> Seq<char> {
        match self {
            DeviceClass::Absent => "none"@,
            DeviceClass::Battery => "battery"@,
            DeviceClass::Current => "current"@,
            DeviceClass::Energy => "energy"@,
            DeviceClass::Humidity => "humidity"@,
            DeviceClass::Illuminance => "illuminance"@,
            DeviceClass::Outlet => "outlet"@,
            DeviceClass::Power => "power"@,
            DeviceClass::Pressure => "pressure"@,
            DeviceClass::Switch => "switch"@,
            DeviceClass::Temperature => "temperature"@,
            DeviceClass::Voltage => "voltage"@,
        }
    }

    /// The first value whose token is `t`, if any.
    pub open spec fn spec_from_token(t: Seq<char>) -> Option<DeviceClass> {
        if t == DeviceClass::Absent.spec_token() {
            Some(DeviceClass::Absent)
        } else if t == DeviceClass::Battery.spec_token() {
            Some(DeviceClass::Battery)
        } else if t == DeviceClass::Current.spec_token() {
            Some(DeviceClass::Current)
        } else if t == DeviceClass::Energy.spec_token() {
            Some(DeviceClass::Energy)
        } else if t == DeviceClass::Humidity.spec_token() {
            Some(DeviceClass::Humidity)
        } else if t == DeviceClass::Illuminance.spec_token() {
            Some(DeviceClass::Illuminance)
        } else if t == DeviceClass::Outlet.spec_token() {
            Some(DeviceClass::Outlet)
        } else if t == DeviceClass::Power.spec_token() {
            Some(DeviceClass::Power)
        } else if t == DeviceClass::Pressure.spec_token() {
            Some(DeviceClass::Pressure)
        } else if t == DeviceClass::Switch.spec_token() {
            Some(DeviceClass::Switch)
        } else if t == DeviceClass::Temperature.spec_token() {
            Some(DeviceClass::Temperature)
        } else if t == DeviceClass::Voltage.spec_token() {
            Some(DeviceClass::Voltage)
        } else {
            None
        }
    }

    pub fn token(&self) -> (r: &'static str)
        ensures
            r@ == self.spec_token(),
    {
        match self {
            DeviceClass::Absent => "none",
            DeviceClass::Battery => "battery",
            DeviceClass::Current => "current",
            DeviceClass::Energy => "energy",
            DeviceClass::Humidity => "humidity",
            DeviceClass::Illuminance => "illuminance",
            DeviceClass::Outlet => "outlet",
            DeviceClass::Power => "power",
            DeviceClass::Pressure => "pressure",
            DeviceClass::Switch => "switch",
            DeviceClass::Temperature => "temperature",
            DeviceClass::Voltage => "voltage",
        }
    }

    pub fn from_token(t: &str) -> (r: Option<DeviceClass>)
        ensures
            r == DeviceClass::spec_from_token(t@),
    {
        if text_eq(t, "none") {
            Some(DeviceClass::Absent)
        } else if text_eq(t, "battery") {
            Some(DeviceClass::Battery)
        } else if text_eq(t, "current") {
            Some(DeviceClass::Current)
        } else if text_eq(t, "energy") {
            Some(DeviceClass::Energy)
        } else if text_eq(t, "humidity") {
            Some(DeviceClass::Humidity)
        } else if text_eq(t, "illuminance") {
            Some(DeviceClass::Illuminance)
        } else if text_eq(t, "outlet") {
            Some(DeviceClass::Outlet)
        } else if text_eq(t, "power") {
            Some(DeviceClass::Power)
        } else if text_eq(t, "pressure") {
            Some(DeviceClass::Pressure)
        } else if text_eq(t, "switch") {
            Some(DeviceClass::Switch)
        } else if text_eq(t, "temperature") {
            Some(DeviceClass::Temperature)
        } else if text_eq(t, "voltage") {
            Some(DeviceClass::Voltage)
        } else {
            None
        }
    }

    /// Whether this is the value that is left out on encode.
    pub fn is_default(&self) -> (r: bool)
        ensures
            r == (*self == DeviceClass::Absent),
    {
        matches!(self, DeviceClass::Absent)
    }
}

impl Default for DeviceClass {
    fn default() -> (r: DeviceClass)
        ensures
            r == DeviceClass::Absent,
    {
        DeviceClass::Absent
    }
}

/// The category of an entity; `Absent` is the absent category.
#[derive(Debug, Clone, Copy, PartialEq, Eq, Structural)]
pub enum EntityCategory {
    Absent,
    Config,
    Diagnostic,
}
impl EntityCategory {
    /// The token that stands for this value on the wire.
    pub open spec fn spec_token(self) -> Seq<char> {
        match self {
            EntityCategory::Absent => "none"@,
            EntityCategory::Config => "config"@,
            EntityCategory::Diagnostic => "diagnostic"@,
        }
    }

    /// The first value whose token is `t`, if any.
    pub open spec fn spec_from_token(t: Seq<char>) -> Option<EntityCategory> {
        if t == EntityCategory::Absent.spec_token() {
            Some(EntityCategory::Absent)
        } else if t == EntityCategory::Config.spec_token() {
            Some(EntityCategory::Config)
        } else if t == EntityCategory::Diagnostic.spec_token() {
            Some(EntityCategory::Diagnostic)
        } else {
            None
        }
    }

    pub fn token(&self) -> (r: &'static str)
        ensures
            r@ == self.spec_token(),
    {
        match self {
            EntityCategory::Absent => "none",
            EntityCategory::Config => "config",
            EntityCategory::Diagnostic => "diagnostic",
        }
    }

    pub fn from_token(t: &str) -> (r: Option<EntityCategory>)
        ensures
            r == EntityCategory::spec_from_token(t@),
    {
        if text_eq(t, "none") {
            Some(EntityCategory::Absent)
        } else if text_eq(t, "config") {
            Some(EntityCategory::Config)
        } else if text_eq(t, "diagnostic") {
            Some(EntityCategory::Diagnostic)
        } else {
            None
        }
    }

    /// Whether this is the value that is left out on encode.
    pub fn is_default(&self) -> (r: bool)
        ensures
            r == (*self == EntityCategory::Absent),
    {
        matches!(self, EntityCategory::Absent)
    }
}

impl Default for EntityCategory {
    fn default() -> (r: EntityCategory)
        ensures
            r == EntityCategory::Absent,
    {
        EntityCategory::Absent
    }
}

/// The state class of a sensor; `Absent` is the absent class.
#[derive(Debug, Clone, Copy, PartialEq, Eq, Structural)]
pub enum StateClass {
    Absent,
    Measurement,
    Total,
    TotalIncreasing,
}
impl StateClass {
    /// The token that stands for this value on the wire.
    pub open spec fn spec_token(self) -> Seq<char> {
        match self {
            StateClass::Absent => "none"@,
            StateClass::Measurement => "measurement"@,
            StateClass::Total => "total"@,
            StateClass::TotalIncreasing => "total_increasing"@,
        }
    }

    /// The first value whose token is `t`, if any.
    pub open spec fn spec_from_token(t: Seq<char>) -> Option<StateClass> {
        if t == StateClass::Absent.spec_token() {
            Some(StateClass::Absent)
        } else if t == StateClass::Measurement.spec_token() {
            Some(StateClass::Measurement)
        } else if t == StateClass::Total.spec_token() {
            Some(StateClass::Total)
        } else if t == StateClass::TotalIncreasing.spec_token() {
            Some(StateClass::TotalIncreasing)
        } else {
            None
        }
    }

    pub fn token(&self) -> (r: &'static str)
        ensures
            r@ == self.spec_token(),
    {
        match self {
            StateClass::Absent => "none",
            StateClass::Measurement => "measurement",
            StateClass::Total => "total",
            StateClass::TotalIncreasing => "total_increasing",
        }
    }

    pub fn from_token(t: &str) -> (r: Option<StateClass>)
        ensures
            r == StateClass::spec_from_token(t@),
    {
        if text_eq(t, "none") {
            Some(StateClass::Absent)
        } else if text_eq(t, "measurement") {
            Some(StateClass::Measurement)
        } else if text_eq(t, "total") {
            Some(StateClass::Total)
        } else if text_eq(t, "total_increasing") {
            Some(StateClass::TotalIncreasing)
        } else {
            None
        }
    }

    /// Whether this is the value that is left out on encode.
    pub fn is_default(&self) -> (r: bool)
        ensures
            r == (*self == StateClass::Absent),
    {
        matches!(self, StateClass::Absent)
    }
}

impl Default for StateClass {
    fn default() -> (r: StateClass)
        ensures
            r == StateClass::Absent,
    {
        StateClass::Absent
    }
}

/// How several availability topics combine; `Latest` is the default.
#[derive(Debug, Clone, Copy, PartialEq, Eq, Structural)]
pub enum AvailabilityMode {
    Latest,
    All,
    Any,
}
impl AvailabilityMode {
    /// The token that stands for this value on the wire.
    pub open spec fn spec_token(self) -> Seq<char> {
        match self {
            AvailabilityMode::Latest => "latest"@,
            AvailabilityMode::All => "all"@,
            AvailabilityMode::Any => "any"@,
        }
    }

    /// The first value whose token is `t`, if any.
    pub open spec fn spec_from_token(t: Seq<char>) -> Option<AvailabilityMode> {
        if t == AvailabilityMode::Latest.spec_token() {
            Some(AvailabilityMode::Latest)
        } else if t == AvailabilityMode::All.spec_token() {
            Some(AvailabilityMode::All)
        } else if t == AvailabilityMode::Any.spec_token() {
            Some(AvailabilityMode::Any)
        } else {
            None
        }
    }

    pub fn token(&self) -> (r: &'static str)
        ensures
            r@ == self.spec_token(),
    {
        match self {
            AvailabilityMode::Latest => "latest",
            AvailabilityMode::All => "all",
            AvailabilityMode::Any => "any",
        }
    }

    pub fn from_token(t: &str) -> (r: Option<AvailabilityMode>)
        ensures
            r == AvailabilityMode::spec_from_token(t@),
    {
        if text_eq(t, "latest") {
            Some(AvailabilityMode::Latest)
        } else if text_eq(t, "all") {
            Some(AvailabilityMode::All)
        } else if text_eq(t, "any") {
            Some(AvailabilityMode::Any)
        } else {
            None
        }
    }

    /// Whether this is the value that is left out on encode.
    pub fn is_default(&self) -> (r: bool)
        ensures
            r == (*self == AvailabilityMode::Latest),
    {
        matches!(self, AvailabilityMode::Latest)
    }
}

impl Default for AvailabilityMode {
    fn default() -> (r: AvailabilityMode)
        ensures
            r == AvailabilityMode::Latest,
    {
        AvailabilityMode::Latest
    }
}

/// Reading back the token of a value gives a value with the same token,
/// which is the default only when the value was.
pub proof fn lemma_device_class_token(v: DeviceClass)
    ensures
        DeviceClass::spec_from_token(v.spec_token()) matches Some(w) && w.spec_token() == v.spec_token()
            && (w == DeviceClass::Absent ==> v == DeviceClass::Absent),
{
    reveal_strlit("none");
    reveal_strlit("battery");
    reveal_strlit("current");
    reveal_strlit("energy");
    reveal_strlit("humidity");
    reveal_strlit("illuminance");
    reveal_strlit("outlet");
    reveal_strlit("power");
    reveal_strlit("pressure");
    reveal_strlit("switch");
    reveal_strlit("temperature");
    reveal_strlit("voltage");
    assert(v != DeviceClass::Absent ==> v.spec_token().len() != DeviceClass::Absent.spec_token().len());
    assert(v.spec_token() == DeviceClass::Absent.spec_token() ==> v == DeviceClass::Absent);
}

/// Reading back the token of a value gives a value with the same token,
/// which is the default only when the value was.
pub proof fn lemma_entity_category_token(v: EntityCategory)
    ensures
        EntityCategory::spec_from_token(v.spec_token()) matches Some(w) && w.spec_token() == v.spec_token()
            && (w == EntityCategory::Absent ==> v == EntityCategory::Absent),
{
    reveal_strlit("none");
    reveal_strlit("config");
    reveal_strlit("diagnostic");
    assert(v != EntityCategory::Absent ==> v.spec_token().len() != EntityCategory::Absent.spec_token().len());
    assert(v.spec_token() == EntityCategory::Absent.spec_token() ==> v == EntityCategory::Absent);
}

/// Reading back the token of a value gives a value with the same token,
/// which is the default only when the value was.
pub proof fn lemma_state_class_token(v: StateClass)
    ensures
        StateClass::spec_from_token(v.spec_token()) matches Some(w) && w.spec_token() == v.spec_token()
            && (w == StateClass::Absent ==> v == StateClass::Absent),
{
    reveal_strlit("none");
    reveal_strlit("measurement");
    reveal_strlit("total");
    reveal_strlit("total_increasing");
    assert(v != StateClass::Absent ==> v.spec_token().len() != StateClass::Absent.spec_token().len());
    assert(v.spec_token() == StateClass::Absent.spec_token() ==> v == StateClass::Absent);
}

/// Reading back the token of a value gives a value with the same token,
/// which is the default only when the value was.
pub proof fn lemma_availability_mode_token(v: AvailabilityMode)
    ensures
        AvailabilityMode::spec_from_token(v.spec_token()) matches Some(w) && w.spec_token() == v.spec_token()
            && (w == AvailabilityMode::Latest ==> v == AvailabilityMode::Latest),
{
    reveal_strlit("latest");
    reveal_strlit("all");
    reveal_strlit("any");
    assert(v != AvailabilityMode::Latest ==> v.spec_token().len() != AvailabilityMode::Latest.spec_token().len());
    assert(v.spec_token() == AvailabilityMode::Latest.spec_token() ==> v == AvailabilityMode::Latest);
}

} // verus!

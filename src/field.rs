//! Single field values: what each kind of field becomes on the wire, and how
//! it is read back.

use crate::entity::Connection;
use crate::value::{
    payload_fault, template_fault, topic_fault, AvailabilityMode, DeviceClass, EntityCategory,
    MqttQoS, Payload, StateClass, Template, Topic, ValueError,
};
use crate::wire::{pairs_view, texts_view, Leaf, LeafV, ValueV};
use vstd::prelude::*;

verus! {

/// Why a field could not be read.
#[derive(Debug, Clone, Copy, PartialEq, Eq, Structural)]
pub enum DecodeReason {
    /// The value has the wrong kind (text where a number belongs, ...).
    WrongKind,
    /// The value breaks the shape of its primitive type.
    Shape(ValueError),
    /// The text is not a token of the field's enumeration.
    UnknownToken,
    /// The number does not fit the field.
    OutOfRange,
    /// A mandatory field is absent.
    Missing,
}

pub open spec fn text_v(o: Option<String>) -> Option<Seq<char>> {
    match o {
        Some(s) => Some(s@),
        None => None,
    }
}

pub open spec fn topic_v(o: Option<Topic>) -> Option<Seq<char>> {
    match o {
        Some(t) => Some(t.0@),
        None => None,
    }
}

pub open spec fn payload_v(o: Option<Payload>) -> Option<Seq<char>> {
    match o {
        Some(p) => Some(p.0@),
        None => None,
    }
}

pub open spec fn template_v(o: Option<Template>) -> Option<Seq<char>> {
    match o {
        Some(t) => Some(t.0@),
        None => None,
    }
}

pub open spec fn connections_v(c: Seq<Connection>) -> Seq<(Seq<char>, Seq<char>)> {
    c.map_values(|x: Connection| (x.kind@, x.id@))
}

/// The view of an optional leaf, lifted to a field value.
pub open spec fn leaf_opt(o: Option<&Leaf>) -> Option<ValueV> {
    match o {
        Some(l) => Some(ValueV::Leaf(crate::wire::leaf_view(*l))),
        None => None,
    }
}

/// A leaf view as a field value.
pub open spec fn lift(o: Option<LeafV>) -> Option<ValueV> {
    match o {
        Some(l) => Some(ValueV::Leaf(l)),
        None => None,
    }
}

/// Whether an executable result `r` agrees with the spec result `s` through `f`.
pub open spec fn agrees<X, Y>(
    r: Result<X, DecodeReason>,
    s: Result<Y, DecodeReason>,
    f: spec_fn(X) -> Y,
) -> bool {
    match r {
        Ok(x) => s == Ok::<Y, DecodeReason>(f(x)),
        Err(e) => s == Err::<Y, DecodeReason>(e),
    }
}

// ---- encoding of single values ----

pub open spec fn enc_text(o: Option<Seq<char>>) -> Option<LeafV> {
    match o {
        Some(s) => Some(LeafV::Text(s)),
        None => None,
    }
}

pub open spec fn enc_flag(o: Option<bool>) -> Option<LeafV> {
    match o {
        Some(b) => Some(LeafV::Flag(b)),
        None => None,
    }
}

pub open spec fn enc_u32(o: Option<u32>) -> Option<LeafV> {
    match o {
        Some(n) => Some(LeafV::Number(n as u64)),
        None => None,
    }
}

pub open spec fn enc_qos(q: MqttQoS) -> Option<LeafV> {
    if q == MqttQoS::AtMostOnce {
        None
    } else {
        Some(LeafV::Number(q.spec_level()))
    }
}

pub open spec fn enc_texts(s: Seq<Seq<char>>) -> Option<LeafV> {
    if s.len() == 0 {
        None
    } else {
        Some(LeafV::Texts(s))
    }
}

pub open spec fn enc_pairs(s: Seq<(Seq<char>, Seq<char>)>) -> Option<LeafV> {
    if s.len() == 0 {
        None
    } else {
        Some(LeafV::Pairs(s))
    }
}

pub open spec fn enc_device_class(v: DeviceClass) -> Option<LeafV> {
    if v == DeviceClass::Absent {
        None
    } else {
        Some(LeafV::Text(v.spec_token()))
    }
}

pub open spec fn enc_entity_category(v: EntityCategory) -> Option<LeafV> {
    if v == EntityCategory::Absent {
        None
    } else {
        Some(LeafV::Text(v.spec_token()))
    }
}

pub open spec fn enc_state_class(v: StateClass) -> Option<LeafV> {
    if v == StateClass::Absent {
        None
    } else {
        Some(LeafV::Text(v.spec_token()))
    }
}

pub open spec fn enc_availability_mode(v: AvailabilityMode) -> Option<LeafV> {
    if v == AvailabilityMode::Latest {
        None
    } else {
        Some(LeafV::Text(v.spec_token()))
    }
}

pub fn text_leaf(s: &String) -> (r: Leaf)
    ensures
        crate::wire::leaf_view(r) == LeafV::Text(s@),
{
    Leaf::Text(s.clone())
}

pub fn opt_text_leaf(o: &Option<String>) -> (r: Option<Leaf>)
    ensures
        leaf_opt_v(r) == enc_text(text_v(*o)),
{
    match o {
        Some(s) => Some(text_leaf(s)),
        None => None,
    }
}

pub fn opt_topic_leaf(o: &Option<Topic>) -> (r: Option<Leaf>)
    ensures
        leaf_opt_v(r) == enc_text(topic_v(*o)),
{
    match o {
        Some(t) => Some(text_leaf(&t.0)),
        None => None,
    }
}

pub fn opt_payload_leaf(o: &Option<Payload>) -> (r: Option<Leaf>)
    ensures
        leaf_opt_v(r) == enc_text(payload_v(*o)),
{
    match o {
        Some(t) => Some(text_leaf(&t.0)),
        None => None,
    }
}

pub fn opt_template_leaf(o: &Option<Template>) -> (r: Option<Leaf>)
    ensures
        leaf_opt_v(r) == enc_text(template_v(*o)),
{
    match o {
        Some(t) => Some(text_leaf(&t.0)),
        None => None,
    }
}

pub fn flag_leaf(o: Option<bool>) -> (r: Option<Leaf>)
    ensures
        leaf_opt_v(r) == enc_flag(o),
{
    match o {
        Some(b) => Some(Leaf::Flag(b)),
        None => None,
    }
}

pub fn u32_leaf(o: Option<u32>) -> (r: Option<Leaf>)
    ensures
        leaf_opt_v(r) == enc_u32(o),
{
    match o {
        Some(n) => Some(Leaf::Number(n as u64)),
        None => None,
    }
}

pub fn qos_leaf(q: MqttQoS) -> (r: Option<Leaf>)
    ensures
        leaf_opt_v(r) == enc_qos(q),
{
    if q.is_default() {
        None
    } else {
        Some(Leaf::Number(q.level()))
    }
}

pub fn texts_leaf(v: &Vec<String>) -> (r: Option<Leaf>)
    ensures
        leaf_opt_v(r) == enc_texts(texts_view(v@)),
{
    if v.len() == 0 {
        return None;
    }
    let mut out: Vec<String> = Vec::new();
    let mut i: usize = 0;
    while i < v.len()
        invariant
            0 <= i <= v@.len(),
            out@.len() == i,
            forall|j: int| 0 <= j < i ==> out@[j]@ == v@[j]@,
        decreases v@.len() - i,
    {
        out.push(v[i].clone());
        i = i + 1;
    }
    assert(texts_view(out@) =~= texts_view(v@));
    Some(Leaf::Texts(out))
}

pub fn connections_leaf(v: &Vec<Connection>) -> (r: Option<Leaf>)
    ensures
        leaf_opt_v(r) == enc_pairs(connections_v(v@)),
{
    if v.len() == 0 {
        return None;
    }
    let mut out: Vec<(String, String)> = Vec::new();
    let mut i: usize = 0;
    while i < v.len()
        invariant
            0 <= i <= v@.len(),
            out@.len() == i,
            forall|j: int| 0 <= j < i ==> out@[j].0@ == v@[j].kind@ && out@[j].1@ == v@[j].id@,
        decreases v@.len() - i,
    {
        out.push((v[i].kind.clone(), v[i].id.clone()));
        i = i + 1;
    }
    assert(pairs_view(out@) =~= connections_v(v@));
    Some(Leaf::Pairs(out))
}

pub fn device_class_leaf(v: DeviceClass) -> (r: Option<Leaf>)
    ensures
        leaf_opt_v(r) == enc_device_class(v),
{
    if v.is_default() {
        None
    } else {
        Some(Leaf::Text(v.token().to_owned()))
    }
}

pub fn entity_category_leaf(v: EntityCategory) -> (r: Option<Leaf>)
    ensures
        leaf_opt_v(r) == enc_entity_category(v),
{
    if v.is_default() {
        None
    } else {
        Some(Leaf::Text(v.token().to_owned()))
    }
}

pub fn state_class_leaf(v: StateClass) -> (r: Option<Leaf>)
    ensures
        leaf_opt_v(r) == enc_state_class(v),
{
    if v.is_default() {
        None
    } else {
        Some(Leaf::Text(v.token().to_owned()))
    }
}

pub fn availability_mode_leaf(v: AvailabilityMode) -> (r: Option<Leaf>)
    ensures
        leaf_opt_v(r) == enc_availability_mode(v),
{
    if v.is_default() {
        None
    } else {
        Some(Leaf::Text(v.token().to_owned()))
    }
}

pub open spec fn leaf_opt_v(o: Option<Leaf>) -> Option<LeafV> {
    match o {
        Some(l) => Some(crate::wire::leaf_view(l)),
        None => None,
    }
}

// ---- decoding of single values ----

pub open spec fn dec_text(o: Option<ValueV>) -> Result<Option<Seq<char>>, DecodeReason> {
    match o {
        None => Ok(None),
        Some(ValueV::Leaf(LeafV::Text(s))) => Ok(Some(s)),
        Some(_) => Err(DecodeReason::WrongKind),
    }
}

pub open spec fn shaped(
    r: Result<Option<Seq<char>>, DecodeReason>,
    fault: spec_fn(Seq<char>) -> Option<ValueError>,
) -> Result<Option<Seq<char>>, DecodeReason> {
    match r {
        Ok(Some(s)) => match fault(s) {
            Some(e) => Err(DecodeReason::Shape(e)),
            None => Ok(Some(s)),
        },
        _ => r,
    }
}

pub open spec fn dec_topic(o: Option<ValueV>) -> Result<Option<Seq<char>>, DecodeReason> {
    shaped(dec_text(o), |s: Seq<char>| topic_fault(s))
}

pub open spec fn dec_payload(o: Option<ValueV>) -> Result<Option<Seq<char>>, DecodeReason> {
    shaped(dec_text(o), |s: Seq<char>| payload_fault(s))
}

pub open spec fn dec_template(o: Option<ValueV>) -> Result<Option<Seq<char>>, DecodeReason> {
    shaped(dec_text(o), |s: Seq<char>| template_fault(s))
}

pub open spec fn dec_flag(o: Option<ValueV>) -> Result<Option<bool>, DecodeReason> {
    match o {
        None => Ok(None),
        Some(ValueV::Leaf(LeafV::Flag(b))) => Ok(Some(b)),
        Some(_) => Err(DecodeReason::WrongKind),
    }
}

pub open spec fn dec_u32(o: Option<ValueV>) -> Result<Option<u32>, DecodeReason> {
    match o {
        None => Ok(None),
        Some(ValueV::Leaf(LeafV::Number(n))) => if n <= u32::MAX as u64 {
            Ok(Some(n as u32))
        } else {
            Err(DecodeReason::OutOfRange)
        },
        Some(_) => Err(DecodeReason::WrongKind),
    }
}

pub open spec fn dec_qos(o: Option<ValueV>) -> Result<MqttQoS, DecodeReason> {
    match o {
        None => Ok(MqttQoS::AtMostOnce),
        Some(ValueV::Leaf(LeafV::Number(n))) => if n == 0 {
            Ok(MqttQoS::AtMostOnce)
        } else if n == 1 {
            Ok(MqttQoS::AtLeastOnce)
        } else if n == 2 {
            Ok(MqttQoS::ExactlyOnce)
        } else {
            Err(DecodeReason::Shape(ValueError::InvalidQoS))
        },
        Some(_) => Err(DecodeReason::WrongKind),
    }
}

pub open spec fn dec_texts(o: Option<ValueV>) -> Result<Seq<Seq<char>>, DecodeReason> {
    match o {
        None => Ok(Seq::empty()),
        Some(ValueV::Leaf(LeafV::Texts(s))) => Ok(s),
        Some(_) => Err(DecodeReason::WrongKind),
    }
}

pub open spec fn dec_pairs(o: Option<ValueV>) -> Result<Seq<(Seq<char>, Seq<char>)>, DecodeReason> {
    match o {
        None => Ok(Seq::empty()),
        Some(ValueV::Leaf(LeafV::Pairs(s))) => Ok(s),
        Some(_) => Err(DecodeReason::WrongKind),
    }
}

pub open spec fn dec_device_class(o: Option<ValueV>) -> Result<DeviceClass, DecodeReason> {
    match o {
        None => Ok(DeviceClass::Absent),
        Some(ValueV::Leaf(LeafV::Text(t))) => match DeviceClass::spec_from_token(t) {
            Some(v) => Ok(v),
            None => Err(DecodeReason::UnknownToken),
        },
        Some(_) => Err(DecodeReason::WrongKind),
    }
}

pub open spec fn dec_entity_category(o: Option<ValueV>) -> Result<EntityCategory, DecodeReason> {
    match o {
        None => Ok(EntityCategory::Absent),
        Some(ValueV::Leaf(LeafV::Text(t))) => match EntityCategory::spec_from_token(t) {
            Some(v) => Ok(v),
            None => Err(DecodeReason::UnknownToken),
        },
        Some(_) => Err(DecodeReason::WrongKind),
    }
}

pub open spec fn dec_state_class(o: Option<ValueV>) -> Result<StateClass, DecodeReason> {
    match o {
        None => Ok(StateClass::Absent),
        Some(ValueV::Leaf(LeafV::Text(t))) => match StateClass::spec_from_token(t) {
            Some(v) => Ok(v),
            None => Err(DecodeReason::UnknownToken),
        },
        Some(_) => Err(DecodeReason::WrongKind),
    }
}

pub open spec fn dec_availability_mode(o: Option<ValueV>) -> Result<AvailabilityMode, DecodeReason> {
    match o {
        None => Ok(AvailabilityMode::Latest),
        Some(ValueV::Leaf(LeafV::Text(t))) => match AvailabilityMode::spec_from_token(t) {
            Some(v) => Ok(v),
            None => Err(DecodeReason::UnknownToken),
        },
        Some(_) => Err(DecodeReason::WrongKind),
    }
}

pub fn read_text(o: Option<&Leaf>) -> (r: Result<Option<String>, DecodeReason>)
    ensures
        agrees(r, dec_text(leaf_opt(o)), |v: Option<String>| text_v(v)),
{
    match o {
        None => Ok(None),
        Some(Leaf::Text(s)) => Ok(Some(s.clone())),
        Some(_) => Err(DecodeReason::WrongKind),
    }
}

pub fn read_topic(o: Option<&Leaf>) -> (r: Result<Option<Topic>, DecodeReason>)
    ensures
        agrees(r, dec_topic(leaf_opt(o)), |v: Option<Topic>| topic_v(v)),
{
    match read_text(o) {
        Err(e) => Err(e),
        Ok(None) => Ok(None),
        Ok(Some(s)) => match Topic::new(s) {
            Ok(t) => Ok(Some(t)),
            Err(e) => Err(DecodeReason::Shape(e)),
        },
    }
}

pub fn read_payload(o: Option<&Leaf>) -> (r: Result<Option<Payload>, DecodeReason>)
    ensures
        agrees(r, dec_payload(leaf_opt(o)), |v: Option<Payload>| payload_v(v)),
{
    match read_text(o) {
        Err(e) => Err(e),
        Ok(None) => Ok(None),
        Ok(Some(s)) => match Payload::new(s) {
            Ok(t) => Ok(Some(t)),
            Err(e) => Err(DecodeReason::Shape(e)),
        },
    }
}

pub fn read_template(o: Option<&Leaf>) -> (r: Result<Option<Template>, DecodeReason>)
    ensures
        agrees(r, dec_template(leaf_opt(o)), |v: Option<Template>| template_v(v)),
{
    match read_text(o) {
        Err(e) => Err(e),
        Ok(None) => Ok(None),
        Ok(Some(s)) => match Template::new(s) {
            Ok(t) => Ok(Some(t)),
            Err(e) => Err(DecodeReason::Shape(e)),
        },
    }
}

pub fn read_flag(o: Option<&Leaf>) -> (r: Result<Option<bool>, DecodeReason>)
    ensures
        agrees(r, dec_flag(leaf_opt(o)), |v: Option<bool>| v),
{
    match o {
        None => Ok(None),
        Some(Leaf::Flag(b)) => Ok(Some(*b)),
        Some(_) => Err(DecodeReason::WrongKind),
    }
}

pub fn read_u32(o: Option<&Leaf>) -> (r: Result<Option<u32>, DecodeReason>)
    ensures
        agrees(r, dec_u32(leaf_opt(o)), |v: Option<u32>| v),
{
    match o {
        None => Ok(None),
        Some(Leaf::Number(n)) => if *n <= u32::MAX as u64 {
            Ok(Some(*n as u32))
        } else {
            Err(DecodeReason::OutOfRange)
        },
        Some(_) => Err(DecodeReason::WrongKind),
    }
}

pub fn read_qos(o: Option<&Leaf>) -> (r: Result<MqttQoS, DecodeReason>)
    ensures
        agrees(r, dec_qos(leaf_opt(o)), |v: MqttQoS| v),
{
    match o {
        None => Ok(MqttQoS::AtMostOnce),
        Some(Leaf::Number(n)) => match MqttQoS::from_level(*n) {
            Ok(q) => Ok(q),
            Err(e) => Err(DecodeReason::Shape(e)),
        },
        Some(_) => Err(DecodeReason::WrongKind),
    }
}

pub fn read_texts(o: Option<&Leaf>) -> (r: Result<Vec<String>, DecodeReason>)
    ensures
        agrees(r, dec_texts(leaf_opt(o)), |v: Vec<String>| texts_view(v@)),
{
    match o {
        None => {
            let out: Vec<String> = Vec::new();
            assert(texts_view(out@) =~= Seq::<Seq<char>>::empty());
            Ok(out)
        },
        Some(Leaf::Texts(v)) => {
            let mut out: Vec<String> = Vec::new();
            let mut i: usize = 0;
            while i < v.len()
                invariant
                    0 <= i <= v@.len(),
                    out@.len() == i,
            forall|j: int| 0 <= j < i ==> out@[j]@ == v@[j]@,
                decreases v@.len() - i,
            {
                out.push(v[i].clone());
                i = i + 1;
            }
            assert(texts_view(out@) =~= texts_view(v@));
            Ok(out)
        },
        Some(_) => Err(DecodeReason::WrongKind),
    }
}

pub fn read_connections(o: Option<&Leaf>) -> (r: Result<Vec<Connection>, DecodeReason>)
    ensures
        agrees(r, dec_pairs(leaf_opt(o)), |v: Vec<Connection>| connections_v(v@)),
{
    match o {
        None => {
            let out: Vec<Connection> = Vec::new();
            assert(connections_v(out@) =~= Seq::<(Seq<char>, Seq<char>)>::empty());
            Ok(out)
        },
        Some(Leaf::Pairs(v)) => {
            let mut out: Vec<Connection> = Vec::new();
            let mut i: usize = 0;
            while i < v.len()
                invariant
                    0 <= i <= v@.len(),
                    out@.len() == i,
                    forall|j: int| 0 <= j < i ==> out@[j].kind@ == v@[j].0@ && out@[j].id@ == v@[j].1@,
                decreases v@.len() - i,
            {
                out.push(Connection { kind: v[i].0.clone(), id: v[i].1.clone() });
                i = i + 1;
            }
            assert(connections_v(out@) =~= pairs_view(v@));
            Ok(out)
        },
        Some(_) => Err(DecodeReason::WrongKind),
    }
}

pub fn read_device_class(o: Option<&Leaf>) -> (r: Result<DeviceClass, DecodeReason>)
    ensures
        agrees(r, dec_device_class(leaf_opt(o)), |v: DeviceClass| v),
{
    match o {
        None => Ok(DeviceClass::Absent),
        Some(Leaf::Text(t)) => match DeviceClass::from_token(t.as_str()) {
            Some(v) => Ok(v),
            None => Err(DecodeReason::UnknownToken),
        },
        Some(_) => Err(DecodeReason::WrongKind),
    }
}

pub fn read_entity_category(o: Option<&Leaf>) -> (r: Result<EntityCategory, DecodeReason>)
    ensures
        agrees(r, dec_entity_category(leaf_opt(o)), |v: EntityCategory| v),
{
    match o {
        None => Ok(EntityCategory::Absent),
        Some(Leaf::Text(t)) => match EntityCategory::from_token(t.as_str()) {
            Some(v) => Ok(v),
            None => Err(DecodeReason::UnknownToken),
        },
        Some(_) => Err(DecodeReason::WrongKind),
    }
}

pub fn read_state_class(o: Option<&Leaf>) -> (r: Result<StateClass, DecodeReason>)
    ensures
        agrees(r, dec_state_class(leaf_opt(o)), |v: StateClass| v),
{
    match o {
        None => Ok(StateClass::Absent),
        Some(Leaf::Text(t)) => match StateClass::from_token(t.as_str()) {
            Some(v) => Ok(v),
            None => Err(DecodeReason::UnknownToken),
        },
        Some(_) => Err(DecodeReason::WrongKind),
    }
}

pub fn read_availability_mode(o: Option<&Leaf>) -> (r: Result<AvailabilityMode, DecodeReason>)
    ensures
        agrees(r, dec_availability_mode(leaf_opt(o)), |v: AvailabilityMode| v),
{
    match o {
        None => Ok(AvailabilityMode::Latest),
        Some(Leaf::Text(t)) => match AvailabilityMode::from_token(t.as_str()) {
            Some(v) => Ok(v),
            None => Err(DecodeReason::UnknownToken),
        },
        Some(_) => Err(DecodeReason::WrongKind),
    }
}

} // verus!

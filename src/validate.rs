//! The validation engine: typed violations, accumulated in order without
//! stopping at the first one.

use crate::value::ValueError;
use semval::context::Context;
use vstd::prelude::*;

verus! {

/// A violation found in a device record.
#[derive(Debug, Clone, Copy, PartialEq, Eq, Structural)]
pub enum DeviceInvalidity {
    /// Neither identifiers nor connections are given.
    MissingIdentity,
}

/// A violation found in an entity, tagged by the kind of value at fault.
#[derive(Debug, Clone, Copy, PartialEq, Eq, Structural)]
pub enum EntityInvalidity {
    Topic(ValueError),
    Payload(ValueError),
    Template(ValueError),
    /// Both the list of availability topics and the single availability topic are set.
    AvailabilityConflict,
    Device(DeviceInvalidity),
}

/// A validation context of semval that collects entity violations; Verus
/// sees it only through `recorded` and the functions below.
#[verifier::external_body]
pub struct Violations {
    ctx: Context<EntityInvalidity>,
}

/// The violations that a validation context has recorded, in order.
pub uninterp spec fn recorded(c: Violations) -> Seq<EntityInvalidity>;

/// Relies on semval's `Context::new`: a context with nothing recorded.
#[verifier::external_body]
pub(crate) fn context_new() -> (r: Violations)
    ensures
        recorded(r) == Seq::<EntityInvalidity>::empty(),
{
    Violations { ctx: Context::new() }
}

/// Relies on semval's `Context::invalidate`: the violation is appended after
/// those already recorded.
#[verifier::external_body]
pub(crate) fn context_invalidate(c: Violations, v: EntityInvalidity) -> (r: Violations)
    ensures
        recorded(r) == recorded(c).push(v),
{
    Violations { ctx: c.ctx.invalidate(v) }
}

/// Relies on semval's `Context::into_result` (`Ok` exactly when nothing was
/// recorded) and on its `IntoIterator`, which yields what was recorded in order.
#[verifier::external_body]
pub(crate) fn context_finish(c: Violations) -> (r: Result<(), Vec<EntityInvalidity>>)
    ensures
        r is Ok <==> recorded(c).len() == 0,
        r matches Err(v) ==> v@ == recorded(c),
{
    match c.ctx.into_result() {
        Ok(()) => Ok(()),
        Err(c) => Err(c.into_iter().collect()),
    }
}

/// The result of a validation that found `s`.
pub open spec fn outcome(s: Seq<EntityInvalidity>) -> Result<(), Seq<EntityInvalidity>> {
    if s.len() == 0 {
        Ok(())
    } else {
        Err(s)
    }
}

/// Whether a validation result reports exactly the violations `s`.
pub open spec fn reports(r: Result<(), Vec<EntityInvalidity>>, s: Seq<EntityInvalidity>) -> bool {
    match r {
        Ok(()) => s.len() == 0,
        Err(v) => s.len() != 0 && v@ == s,
    }
}

/// Records the violation `v` when there is one.
pub(crate) fn record_opt(c: Violations, v: Option<EntityInvalidity>) -> (r: Violations)
    ensures
        recorded(r) == recorded(c) + opt_seq(v),
{
    match v {
        Some(v) => context_invalidate(c, v),
        None => {
            assert(recorded(c) + opt_seq(None::<EntityInvalidity>) =~= recorded(c));
            c
        },
    }
}

/// The sequence holding the value of an option, if any.
pub open spec fn opt_seq<T>(o: Option<T>) -> Seq<T> {
    match o {
        Some(x) => seq![x],
        None => Seq::empty(),
    }
}

} // verus!

//! The polymorphic field itself: the concrete payload shapes, the field
//! implementation that builds them, and the query root that ties resolution
//! and introspection to one shared registry.

use vstd::prelude::*;

use crate::context::RequestContext;
use crate::profile::CapabilityProfile;
use crate::registry::{
    Registry, ResolutionError, VariantTag, declared_tags, spec_resolve, spec_visible_tags,
};

verus! {

/// Payload of the human-facing representation.
#[derive(Clone, Copy, PartialEq, Eq, Structural, Debug)]
pub struct HumanDuration {
    pub value_a: i32,
}

/// Payload of the machine-facing representation.
#[derive(Clone, Copy, PartialEq, Eq, Structural, Debug)]
pub struct MachineDuration {
    pub value_b: i32,
}

/// The field's resolved value: a concrete payload carrying exactly one
/// variant tag by construction.
#[derive(Clone, Copy, PartialEq, Eq, Structural, Debug)]
pub enum Duration {
    HumanDuration(HumanDuration),
    MachineDuration(MachineDuration),
}

impl Duration {
    /// The tag of the shape this payload has.
    pub open spec fn spec_tag(self) -> VariantTag {
        match self {
            Duration::HumanDuration(_) => VariantTag::Human,
            Duration::MachineDuration(_) => VariantTag::Machine,
        }
    }

    /// The tag of the shape this payload has.
    pub fn tag(&self) -> (t: VariantTag)
        ensures
            t == self.spec_tag(),
    {
        match self {
            Duration::HumanDuration(_) => VariantTag::Human,
            Duration::MachineDuration(_) => VariantTag::Machine,
        }
    }
}

/// What the field implementation builds for each resolved tag.
pub open spec fn spec_payload(tag: VariantTag) -> Duration {
    match tag {
        VariantTag::Human => Duration::HumanDuration(HumanDuration { value_a: 12 }),
        VariantTag::Machine => Duration::MachineDuration(MachineDuration { value_b: 12 }),
    }
}

/// Field implementation: build the payload for the resolved tag. It trusts
/// the resolver's choice as the single source of truth and never re-derives
/// or overrides the visibility decision.
pub fn build_payload(tag: VariantTag) -> (d: Duration)
    ensures
        d == spec_payload(tag),
        d.spec_tag() == tag,
{
    match tag {
        VariantTag::Human => Duration::HumanDuration(HumanDuration { value_a: 12 }),
        VariantTag::Machine => Duration::MachineDuration(MachineDuration { value_b: 12 }),
    }
}

/// What serving the field returns for a given registry and profile: the
/// payload of the uniquely visible variant, or the resolution failure.
pub open spec fn spec_test(tags: Seq<VariantTag>, p: Option<CapabilityProfile>) -> Result<
    Duration,
    ResolutionError,
> {
    match spec_resolve(tags, p) {
        Ok(t) => Ok(spec_payload(t)),
        Err(e) => Err(e),
    }
}

/// The query root. It owns the field's predicate registry, so resolution and
/// introspection necessarily consult the same one.
pub struct Query {
    pub registry: Registry,
}

impl Query {
    /// Build the root with the canonical registry: every declared variant
    /// exactly once, in declaration order.
    pub fn new() -> (q: Self)
        ensures
            q.registry.tags@ == declared_tags(),
    {
        Query { registry: Registry::new() }
    }

    /// Serve the polymorphic field: resolve the variant for the caller's
    /// context, then build that variant's payload.
    pub fn test(&self, ctx: &RequestContext) -> (r: Result<Duration, ResolutionError>)
        ensures
            r == spec_test(self.registry.tags@, ctx.profile),
    {
        match self.registry.resolve(ctx) {
            Ok(tag) => Ok(build_payload(tag)),
            Err(e) => Err(e),
        }
    }

    /// Introspection for the field: the variant tags visible to this caller,
    /// from the same registry resolution uses.
    pub fn visible_variants(&self, ctx: &RequestContext) -> (r: Vec<VariantTag>)
        ensures
            r@ == spec_visible_tags(self.registry.tags@, ctx.profile),
    {
        self.registry.visible_tags(ctx)
    }
}

impl Default for Query {
    /// The root with the canonical registry.
    fn default() -> (q: Self)
        ensures
            q.registry.tags@ == declared_tags(),
    {
        Query::new()
    }
}

} // verus!

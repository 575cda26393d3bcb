//! The visibility-predicate registry and the variant resolver: one ordered
//! registry of (tag, predicate) pairs, consulted by both resolution and
//! introspection, so the two can never drift apart.

use vstd::prelude::*;

use crate::context::RequestContext;
use crate::profile::{CapabilityProfile, Status, spec_status_opt};

verus! {

/// Closed enumeration of the concrete shapes the polymorphic field may take.
/// Tags are declared statically; at runtime they serve only as labels.
#[derive(Clone, Copy, PartialEq, Eq, Structural, Debug)]
pub enum VariantTag {
    Human,
    Machine,
}

/// Why resolution failed.
#[derive(Clone, Copy, PartialEq, Eq, Structural, Debug)]
pub enum ResolutionError {
    /// No declared variant is visible for the caller's profile. Caller-facing
    /// and recoverable: the caller must supply a recognized capability
    /// negotiation token.
    NoVisibleVariant,
    /// More than one predicate matched: a registry misconfiguration, i.e. a
    /// programming-contract violation, never a normal runtime outcome. Kept
    /// distinct from `NoVisibleVariant` so logs can tell the two apart.
    AmbiguousVariant,
}

impl ResolutionError {
    /// The caller-facing message for each failure.
    pub open spec fn spec_message(self) -> Seq<char> {
        match self {
            ResolutionError::NoVisibleVariant => "no visible variant: supply a recognized capability negotiation token"@,
            ResolutionError::AmbiguousVariant => "ambiguous variant: more than one visibility predicate matched"@,
        }
    }

    /// Render the failure for the caller.
    pub fn message(&self) -> (m: &'static str)
        ensures
            m@ == self.spec_message(),
    {
        match self {
            ResolutionError::NoVisibleVariant => "no visible variant: supply a recognized capability negotiation token",
            ResolutionError::AmbiguousVariant => "ambiguous variant: more than one visibility predicate matched",
        }
    }
}

/// The visibility predicate attached to `tag`, as a mathematical function.
/// Each predicate is defined over the status collapse, not over raw flags, so
/// that for any profile at most one variant is ever visible. An absent
/// profile makes every variant invisible.
pub open spec fn spec_visible(tag: VariantTag, p: Option<CapabilityProfile>) -> bool {
    match tag {
        VariantTag::Human => spec_status_opt(p) == Status::Human,
        VariantTag::Machine => spec_status_opt(p) == Status::Machine,
    }
}

/// Visibility predicate of the human-facing variant: the profile, when
/// present, collapses to `Status::Human`. Fails closed on an absent profile.
pub fn human_rpz(ctx: &RequestContext) -> (b: bool)
    ensures
        b == spec_visible(VariantTag::Human, ctx.profile),
{
    match ctx.get_profile() {
        Some(p) => p.status() == Status::Human,
        None => false,
    }
}

/// Visibility predicate of the machine-facing variant: the profile, when
/// present, collapses to `Status::Machine`. Fails closed on an absent
/// profile.
pub fn machine_rpz(ctx: &RequestContext) -> (b: bool)
    ensures
        b == spec_visible(VariantTag::Machine, ctx.profile),
{
    match ctx.get_profile() {
        Some(p) => p.status() == Status::Machine,
        None => false,
    }
}

/// Evaluate the predicate registered for `tag`. This is the single predicate
/// table: resolution and introspection both go through it.
pub fn eval_predicate(tag: VariantTag, ctx: &RequestContext) -> (b: bool)
    ensures
        b == spec_visible(tag, ctx.profile),
{
    match tag {
        VariantTag::Human => human_rpz(ctx),
        VariantTag::Machine => machine_rpz(ctx),
    }
}

/// The field's variants in union declaration order, which is also the
/// evaluation order.
pub open spec fn declared_tags() -> Seq<VariantTag> {
    seq![VariantTag::Human, VariantTag::Machine]
}

/// The outcome resolution owes for a given registry and profile: the unique
/// visible variant; `NoVisibleVariant` when none is visible; and
/// `AmbiguousVariant` when, through a misconfigured registry, several are.
pub open spec fn spec_resolve(tags: Seq<VariantTag>, p: Option<CapabilityProfile>) -> Result<
    VariantTag,
    ResolutionError,
> {
    if forall|i: int| 0 <= i < tags.len() ==> !(#[trigger] spec_visible(tags[i], p)) {
        Err(ResolutionError::NoVisibleVariant)
    } else if exists|i: int, j: int|
        0 <= i < j < tags.len() && #[trigger] spec_visible(tags[i], p) && #[trigger] spec_visible(
            tags[j],
            p,
        ) {
        Err(ResolutionError::AmbiguousVariant)
    } else {
        Ok(tags[choose|i: int| 0 <= i < tags.len() && spec_visible(tags[i], p)])
    }
}

/// The tags visible for a profile, in declared order.
pub open spec fn spec_visible_tags(tags: Seq<VariantTag>, p: Option<CapabilityProfile>) -> Seq<
    VariantTag,
> decreases tags.len(),
{
    if tags.len() == 0 {
        Seq::empty()
    } else {
        let prefix = spec_visible_tags(tags.drop_last(), p);
        if spec_visible(tags.last(), p) {
            prefix.push(tags.last())
        } else {
            prefix
        }
    }
}

/// Ordered registry of the variants declared for the polymorphic field,
/// built once at schema-construction time and passed by reference wherever
/// resolution or introspection needs it.
pub struct Registry {
    pub tags: Vec<VariantTag>,
}

impl Registry {
    /// The registry for the field: every declared variant exactly once, in
    /// union declaration order.
    pub fn new() -> (r: Self)
        ensures
            r.tags@ == declared_tags(),
    {
        let mut tags: Vec<VariantTag> = Vec::new();
        tags.push(VariantTag::Human);
        tags.push(VariantTag::Machine);
        proof {
            assert(tags@ =~= declared_tags());
        }
        Registry { tags }
    }

    /// Evaluate the predicates in declared order and resolve the field to the
    /// single matching variant; fail with `NoVisibleVariant` when none
    /// matches and fast with `AmbiguousVariant` when more than one does.
    pub fn resolve(&self, ctx: &RequestContext) -> (r: Result<VariantTag, ResolutionError>)
        ensures
            r == spec_resolve(self.tags@, ctx.profile),
    {
        let ghost p = ctx.profile;
        let ghost tags = self.tags@;
        let mut found: Option<VariantTag> = None;
        let ghost mut found_idx: int = 0;
        let mut idx: usize = 0;
        while idx < self.tags.len()
            invariant
                tags == self.tags@,
                p == ctx.profile,
                idx <= tags.len(),
                match found {
                    None => forall|i: int| 0 <= i < idx ==> !(#[trigger] spec_visible(tags[i], p)),
                    Some(t) => {
                        &&& 0 <= found_idx < idx
                        &&& tags[found_idx] == t
                        &&& spec_visible(t, p)
                        &&& forall|i: int|
                            0 <= i < idx && i != found_idx ==> !(#[trigger] spec_visible(
                                tags[i],
                                p,
                            ))
                    },
                },
            decreases tags.len() - idx,
        {
            let tag = self.tags[idx];
            if eval_predicate(tag, ctx) {
                if found.is_some() {
                    proof {
                        assert(spec_visible(tags[found_idx], p));
                        assert(spec_visible(tags[idx as int], p));
                    }
                    return Err(ResolutionError::AmbiguousVariant);
                }
                found = Some(tag);
                proof {
                    found_idx = idx as int;
                }
            }
            idx += 1;
        }
        match found {
            Some(t) => {
                proof {
                    assert(spec_visible(tags[found_idx], p));
                    assert forall|i: int, j: int| 0 <= i < j < tags.len() implies !(spec_visible(
                        tags[i],
                        p,
                    ) && spec_visible(tags[j], p)) by {
                        if i != found_idx {
                            assert(!spec_visible(tags[i], p));
                        } else {
                            assert(!spec_visible(tags[j], p));
                        }
                    }
                    let ci = choose|i: int| 0 <= i < tags.len() && spec_visible(tags[i], p);
                    if ci != found_idx {
                        assert(!spec_visible(tags[ci], p));
                    }
                }
                Ok(t)
            },
            None => Err(ResolutionError::NoVisibleVariant),
        }
    }

    /// Introspection: the tags visible for the caller's profile, in declared
    /// order, computed from the same predicate table resolution uses.
    pub fn visible_tags(&self, ctx: &RequestContext) -> (r: Vec<VariantTag>)
        ensures
            r@ == spec_visible_tags(self.tags@, ctx.profile),
    {
        let ghost p = ctx.profile;
        let ghost tags = self.tags@;
        let mut out: Vec<VariantTag> = Vec::new();
        let mut idx: usize = 0;
        while idx < self.tags.len()
            invariant
                tags == self.tags@,
                p == ctx.profile,
                idx <= tags.len(),
                out@ == spec_visible_tags(tags.subrange(0, idx as int), p),
            decreases tags.len() - idx,
        {
            let tag = self.tags[idx];
            proof {
                assert(tags.subrange(0, idx + 1).drop_last() =~= tags.subrange(0, idx as int));
                assert(tags.subrange(0, idx + 1).last() == tags[idx as int]);
            }
            if eval_predicate(tag, ctx) {
                out.push(tag);
            }
            idx += 1;
        }
        proof {
            assert(tags.subrange(0, tags.len() as int) =~= tags);
        }
        out
    }
}

} // verus!

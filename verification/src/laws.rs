//! The laws the engine obeys, stated and proved once over the spec-level
//! model: what parsing yields on degenerate input, that resolution has
//! exactly one outcome per profile, that precedence is deterministic, and
//! that resolution agrees with introspection.

use vstd::prelude::*;

use crate::profile::{
    CapabilityProfile, Status, contains_token, human_token, is_token_at, machine_token, spec_parse,
    spec_status_opt,
};
use crate::registry::{
    ResolutionError, VariantTag, declared_tags, spec_resolve, spec_visible, spec_visible_tags,
};

verus! {

/// Parsing empty input yields the all-false profile: no recognized token can
/// occur in it.
pub proof fn lemma_parse_empty_all_false(raw: Seq<char>)
    requires
        raw.len() == 0,
    ensures
        spec_parse(raw).all_false(),
{
    reveal_strlit("application/vnd.example.machine");
    reveal_strlit("application/vnd.example.human");
    assert(machine_token().len() > 0);
    assert(human_token().len() > 0);
    assert(forall|i: int| !is_token_at(raw, machine_token(), i));
    assert(forall|i: int| !is_token_at(raw, human_token(), i));
}

/// Unrecognized tokens are ignored: input in which neither recognized token
/// occurs as a whole token parses to the all-false profile, exactly as empty
/// input does.
pub proof fn lemma_parse_unrecognized_all_false(raw: Seq<char>)
    requires
        !contains_token(raw, machine_token()),
        !contains_token(raw, human_token()),
    ensures
        spec_parse(raw).all_false(),
{
}

/// For every profile, present or absent, exactly one outcome holds after the
/// status collapse: exactly one declared variant is visible and resolution
/// returns it, or no variant is visible and resolution fails with
/// `NoVisibleVariant`. Two variants are never visible at once, so the
/// declared registry can never produce `AmbiguousVariant`.
pub proof fn lemma_exactly_one_visible_or_none(p: Option<CapabilityProfile>)
    ensures
        spec_resolve(declared_tags(), p) == (match spec_status_opt(p) {
            Status::Machine => Ok::<VariantTag, ResolutionError>(VariantTag::Machine),
            Status::Human => Ok::<VariantTag, ResolutionError>(VariantTag::Human),
            Status::Absent => Err::<VariantTag, ResolutionError>(
                ResolutionError::NoVisibleVariant,
            ),
        }),
        forall|t: VariantTag, u: VariantTag|
            #[trigger] spec_visible(t, p) && #[trigger] spec_visible(u, p) ==> t == u,
{
    let tags = declared_tags();
    assert(tags[0] == VariantTag::Human);
    assert(tags[1] == VariantTag::Machine);
    match spec_status_opt(p) {
        Status::Machine => {
            assert(spec_visible(tags[1], p));
            assert(!spec_visible(tags[0], p));
            let ci = choose|i: int| 0 <= i < tags.len() && spec_visible(tags[i], p);
            assert(ci == 1);
        },
        Status::Human => {
            assert(spec_visible(tags[0], p));
            assert(!spec_visible(tags[1], p));
            let ci = choose|i: int| 0 <= i < tags.len() && spec_visible(tags[i], p);
            assert(ci == 0);
        },
        Status::Absent => {
            assert(forall|i: int|
                0 <= i < tags.len() ==> !(#[trigger] spec_visible(tags[i], p)));
        },
    }
}

/// Precedence is deterministic: a profile asserting both recognized flags at
/// once resolves to the machine variant — the higher-precedence one — every
/// time, not to an ambiguity error.
pub proof fn lemma_machine_precedence(p: CapabilityProfile)
    requires
        p.machine_rpz,
        p.human_rpz,
    ensures
        spec_resolve(declared_tags(), Some(p)) == Ok::<VariantTag, ResolutionError>(
            VariantTag::Machine,
        ),
{
    lemma_exactly_one_visible_or_none(Some(p));
}

/// No variant visible anywhere in `tags` means introspection reports nothing.
proof fn lemma_no_visible_tags_empty(tags: Seq<VariantTag>, p: Option<CapabilityProfile>)
    requires
        forall|i: int| 0 <= i < tags.len() ==> !(#[trigger] spec_visible(tags[i], p)),
    ensures
        spec_visible_tags(tags, p) =~= Seq::<VariantTag>::empty(),
    decreases tags.len(),
{
    if tags.len() > 0 {
        lemma_no_visible_tags_empty(tags.drop_last(), p);
    }
}

/// Exactly one visible variant, at position `k`, means introspection reports
/// exactly that variant.
proof fn lemma_one_visible_tag_singleton(
    tags: Seq<VariantTag>,
    p: Option<CapabilityProfile>,
    k: int,
)
    requires
        0 <= k < tags.len(),
        spec_visible(tags[k], p),
        forall|i: int| 0 <= i < tags.len() && i != k ==> !(#[trigger] spec_visible(tags[i], p)),
    ensures
        spec_visible_tags(tags, p) =~= seq![tags[k]],
    decreases tags.len(),
{
    if k == tags.len() - 1 {
        lemma_no_visible_tags_empty(tags.drop_last(), p);
    } else {
        lemma_one_visible_tag_singleton(tags.drop_last(), p, k);
    }
}

/// Introspection/resolution consistency: whenever resolution succeeds with a
/// tag, introspection over the same registry and the same profile reports
/// that tag, and only that tag, as a possible shape of the field.
pub proof fn lemma_resolution_matches_introspection(
    tags: Seq<VariantTag>,
    p: Option<CapabilityProfile>,
    t: VariantTag,
)
    requires
        spec_resolve(tags, p) == Ok::<VariantTag, ResolutionError>(t),
    ensures
        spec_visible_tags(tags, p) =~= seq![t],
{
    let ci = choose|i: int| 0 <= i < tags.len() && spec_visible(tags[i], p);
    assert(exists|i: int| 0 <= i < tags.len() && #[trigger] spec_visible(tags[i], p)) by {
        if forall|i: int| 0 <= i < tags.len() ==> !(#[trigger] spec_visible(tags[i], p)) {
            assert(spec_resolve(tags, p) == Err::<VariantTag, ResolutionError>(
                ResolutionError::NoVisibleVariant,
            ));
        }
    }
    assert(0 <= ci < tags.len() && spec_visible(tags[ci], p));
    assert(tags[ci] == t);
    assert forall|i: int| 0 <= i < tags.len() && i != ci implies !(#[trigger] spec_visible(
        tags[i],
        p,
    )) by {
        if spec_visible(tags[i], p) {
            if i < ci {
                assert(spec_visible(tags[i], p) && spec_visible(tags[ci], p));
            } else {
                assert(spec_visible(tags[ci], p) && spec_visible(tags[i], p));
            }
            assert(spec_resolve(tags, p) == Err::<VariantTag, ResolutionError>(
                ResolutionError::AmbiguousVariant,
            ));
        }
    }
    lemma_one_visible_tag_singleton(tags, p, ci);
}

} // verus!

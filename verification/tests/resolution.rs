use variant_gate::context::RequestContext;
use variant_gate::field::{Duration, HumanDuration, MachineDuration, Query};
use variant_gate::profile::{parse, parse_opt, CapabilityProfile, Status};
use variant_gate::registry::{Registry, ResolutionError, VariantTag};

fn context_for(raw: &str) -> RequestContext {
    let mut ctx = RequestContext::new();
    ctx.put_profile(parse(raw));
    ctx
}

#[test]
fn scenario_machine_token_resolves_machine_payload() {
    let ctx = context_for("application/vnd.example.machine");
    assert_eq!(
        ctx.get_profile(),
        Some(CapabilityProfile { machine_rpz: true, human_rpz: false })
    );
    assert_eq!(ctx.get_profile().unwrap().status(), Status::Machine);
    let q = Query::new();
    assert_eq!(
        q.test(&ctx),
        Ok(Duration::MachineDuration(MachineDuration { value_b: 12 }))
    );
}

#[test]
fn scenario_human_token_resolves_human_payload() {
    let ctx = context_for("application/vnd.example.human");
    assert_eq!(
        ctx.get_profile(),
        Some(CapabilityProfile { machine_rpz: false, human_rpz: true })
    );
    let q = Query::new();
    assert_eq!(
        q.test(&ctx),
        Ok(Duration::HumanDuration(HumanDuration { value_a: 12 }))
    );
}

#[test]
fn scenario_empty_or_absent_input_yields_no_visible_variant() {
    let q = Query::new();

    let ctx = context_for("");
    assert_eq!(
        ctx.get_profile(),
        Some(CapabilityProfile { machine_rpz: false, human_rpz: false })
    );
    assert_eq!(q.test(&ctx), Err(ResolutionError::NoVisibleVariant));

    let absent = parse_opt(None);
    assert_eq!(
        absent,
        CapabilityProfile { machine_rpz: false, human_rpz: false }
    );
    let mut ctx2 = RequestContext::new();
    ctx2.put_profile(absent);
    assert_eq!(q.test(&ctx2), Err(ResolutionError::NoVisibleVariant));

    // No profile stored at all: predicates fail closed and resolution fails
    // the same way.
    let bare = RequestContext::new();
    assert_eq!(q.test(&bare), Err(ResolutionError::NoVisibleVariant));
}

#[test]
fn scenario_both_tokens_resolve_machine_by_precedence() {
    let ctx = context_for("application/vnd.example.machine, application/vnd.example.human");
    assert_eq!(ctx.get_profile().unwrap().status(), Status::Machine);
    let q = Query::new();
    assert_eq!(
        q.test(&ctx),
        Ok(Duration::MachineDuration(MachineDuration { value_b: 12 }))
    );
}

#[test]
fn scenario_unrecognized_token_only_yields_no_visible_variant() {
    let ctx = context_for("text/plain");
    assert_eq!(
        ctx.get_profile(),
        Some(CapabilityProfile { machine_rpz: false, human_rpz: false })
    );
    let q = Query::new();
    assert_eq!(q.test(&ctx), Err(ResolutionError::NoVisibleVariant));
}

#[test]
fn both_flags_collapse_to_machine_status() {
    let p = CapabilityProfile { machine_rpz: true, human_rpz: true };
    assert_eq!(p.status(), Status::Machine);
    let mut ctx = RequestContext::new();
    ctx.put_profile(p);
    let q = Query::new();
    assert_eq!(
        q.test(&ctx),
        Ok(Duration::MachineDuration(MachineDuration { value_b: 12 }))
    );
}

#[test]
fn introspection_matches_resolution_on_success() {
    let q = Query::new();
    for raw in [
        "application/vnd.example.machine",
        "application/vnd.example.human",
        "application/vnd.example.machine,application/vnd.example.human",
    ] {
        let ctx = context_for(raw);
        let resolved = q.test(&ctx).unwrap();
        assert_eq!(q.visible_variants(&ctx), vec![resolved.tag()]);
    }
}

#[test]
fn introspection_reports_nothing_when_resolution_fails() {
    let q = Query::new();
    let ctx = context_for("text/html, text/plain");
    assert_eq!(q.test(&ctx), Err(ResolutionError::NoVisibleVariant));
    assert_eq!(q.visible_variants(&ctx), Vec::<VariantTag>::new());
}

#[test]
fn misconfigured_registry_fails_fast_with_ambiguous_variant() {
    // A registry that declares the same variant twice makes two predicates
    // match at once; resolution must report the defect, not pick silently.
    let broken = Registry {
        tags: vec![VariantTag::Machine, VariantTag::Machine],
    };
    let ctx = context_for("application/vnd.example.machine");
    assert_eq!(
        broken.resolve(&ctx),
        Err(ResolutionError::AmbiguousVariant)
    );
}

#[test]
fn error_messages_name_the_failure() {
    assert_eq!(
        ResolutionError::NoVisibleVariant.message(),
        "no visible variant: supply a recognized capability negotiation token"
    );
    assert_eq!(
        ResolutionError::AmbiguousVariant.message(),
        "ambiguous variant: more than one visibility predicate matched"
    );
}

#[test]
fn default_query_uses_declared_registry_order() {
    let q = Query::default();
    assert_eq!(q.registry.tags, vec![VariantTag::Human, VariantTag::Machine]);
    let ctx = context_for("application/vnd.example.human");
    assert_eq!(
        q.test(&ctx),
        Ok(Duration::HumanDuration(HumanDuration { value_a: 12 }))
    );
}

#[test]
fn payload_tags_match_their_variants() {
    assert_eq!(
        Duration::HumanDuration(HumanDuration { value_a: 7 }).tag(),
        VariantTag::Human
    );
    assert_eq!(
        Duration::MachineDuration(MachineDuration { value_b: 7 }).tag(),
        VariantTag::Machine
    );
}

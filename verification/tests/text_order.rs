use pyterrain_map::order::str_lt;
use pyterrain_map::security::{ProvenanceAction, ProvenanceChain, ProvenanceStep};
use pyterrain_map::text::{clone_strings, contains_str, owned, str_eq};

#[test]
fn string_order_is_lexicographic() {
    assert!(str_lt("abc", "abd"));
    assert!(str_lt("ab", "abc"));
    assert!(!str_lt("abc", "ab"));
    assert!(!str_lt("same", "same"));
    assert!(str_lt("", "a"));
    assert!(str_lt("Z", "a"));
}

#[test]
fn string_helpers() {
    assert!(str_eq("robot", "robot"));
    assert!(!str_eq("robot", "robots"));
    let v = vec!["a".to_string(), "b".to_string()];
    assert!(contains_str(&v, "b"));
    assert!(!contains_str(&v, "c"));
    assert_eq!(clone_strings(&v), v);
    assert_eq!(owned("x"), "x".to_string());
}

#[test]
fn provenance_steps_are_kept_in_order() {
    let step = |action: ProvenanceAction, actor: &str, t: i64| ProvenanceStep {
        action,
        actor: actor.to_string(),
        timestamp_us: t,
        semantic_preserving: true,
    };
    let mut chain = ProvenanceChain::new(step(ProvenanceAction::Captured, "sensor", 1));
    chain.add_step(step(ProvenanceAction::Filtered, "filter", 2));
    chain.add_step(step(ProvenanceAction::Exported, "api", 3));
    assert_eq!(chain.total_steps(), 3);
    assert_eq!(chain.origin.actor, "sensor");
    assert_eq!(chain.transformations.len(), 2);
    assert_eq!(chain.transformations[1].timestamp_us, 3);
}

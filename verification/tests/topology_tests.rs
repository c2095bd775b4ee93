use volume_model::model::{ExclusiveLabel, ExplicitTopology, InclusiveLabel, NodeTopology,
    PoolTopology};
use volume_model::topology::{CandidateNode, ResourceLabel};

fn label(key: &str, value: &str) -> ResourceLabel {
    ResourceLabel { key: key.to_string(), value: value.to_string() }
}

#[test]
fn name_only_inclusive_matches_any_value() {
    let zone = InclusiveLabel::new("Zone".to_string());
    assert!(zone.matches_label(&label("Zone", "A")));
    assert!(zone.matches_label(&label("Zone", "B")));
    assert!(!zone.matches_label(&label("Rack", "A")));
}

#[test]
fn name_value_inclusive_requires_exact_value() {
    let zone_a = InclusiveLabel::new("Zone: A".to_string());
    assert!(zone_a.matches_label(&label("Zone", "A")));
    assert!(!zone_a.matches_label(&label("Zone", "B")));
    assert!(!zone_a.matches_label(&label("Rack", "A")));
}

#[test]
fn inclusive_without_space_after_colon() {
    let zone_a = InclusiveLabel::new("Zone:A".to_string());
    assert!(zone_a.matches_label(&label("Zone", "A")));
    assert!(!zone_a.matches_label(&label("Zone", "B")));
}

#[test]
fn inclusive_matches_any_of_candidate() {
    let zone_a = InclusiveLabel::new("Zone: A".to_string());
    let candidate = vec![label("Rack", "7"), label("Zone", "A")];
    assert!(zone_a.matches_any(&candidate));
    let other = vec![label("Rack", "7"), label("Zone", "B")];
    assert!(!zone_a.matches_any(&other));
}

#[test]
fn node_topology_inclusion_rule() {
    let t = NodeTopology {
        exclusion: vec![],
        inclusion: vec![InclusiveLabel::new("Zone".to_string())],
    };
    let with_zone = vec![label("Zone", "east")];
    let without = vec![label("Rack", "1")];
    assert!(t.matches_node(&with_zone, &vec![]));
    assert!(!t.matches_node(&without, &vec![]));
}

#[test]
fn empty_topology_matches_everything() {
    let t = NodeTopology { exclusion: vec![], inclusion: vec![] };
    assert!(t.matches_node(&vec![], &vec![]));
    assert!(t.matches_node(&vec![label("Zone", "east")], &vec![label("Zone", "east")]));
}

#[test]
fn exclusion_disqualifies_shared_name_regardless_of_value() {
    let t = NodeTopology {
        exclusion: vec![ExclusiveLabel::new("Zone".to_string())],
        inclusion: vec![],
    };
    let candidate = vec![label("Zone", "west")];
    let used = vec![label("Zone", "east")];
    assert!(!t.matches_node(&candidate, &used));
    // A candidate without the excluded name is still eligible.
    let plain = vec![label("Rack", "1")];
    assert!(t.matches_node(&plain, &used));
    // With nothing selected yet the first carrier is eligible.
    assert!(t.matches_node(&candidate, &vec![]));
}

#[test]
fn select_at_most_one_per_excluded_zone() {
    let t = NodeTopology {
        exclusion: vec![ExclusiveLabel::new("Zone".to_string())],
        inclusion: vec![],
    };
    let candidates = vec![
        CandidateNode { id: "node-a".to_string(), labels: vec![label("Zone", "east")] },
        CandidateNode { id: "node-b".to_string(), labels: vec![label("Zone", "east")] },
    ];
    let selected = t.select_nodes(&candidates);
    assert_eq!(selected, vec!["node-a".to_string()]);
}

#[test]
fn select_takes_distinct_zones() {
    let t = NodeTopology {
        exclusion: vec![ExclusiveLabel::new("Zone".to_string())],
        inclusion: vec![],
    };
    let candidates = vec![
        CandidateNode { id: "node-a".to_string(), labels: vec![label("Zone", "east")] },
        CandidateNode { id: "node-b".to_string(), labels: vec![label("Rack", "1")] },
    ];
    let selected = t.select_nodes(&candidates);
    assert_eq!(selected, vec!["node-a".to_string(), "node-b".to_string()]);
}

#[test]
fn pool_topology_inclusion_rule() {
    let t = PoolTopology { inclusion: vec![InclusiveLabel::new("Tier: fast".to_string())] };
    assert!(t.matches_pool(&vec![label("Tier", "fast")]));
    assert!(!t.matches_pool(&vec![label("Tier", "slow")]));
}

#[test]
fn explicit_topology_identity_rule() {
    let t = ExplicitTopology {
        allowed_nodes: vec!["node-a".to_string(), "node-b".to_string()],
        preferred_nodes: vec!["node-b".to_string()],
    };
    assert!(t.allows(&"node-a".to_string()));
    assert!(!t.allows(&"node-c".to_string()));
    let open = ExplicitTopology { allowed_nodes: vec![], preferred_nodes: vec![] };
    assert!(open.allows(&"anything".to_string()));
}

#[test]
fn preference_is_a_sort_key_not_a_filter() {
    let t = ExplicitTopology {
        allowed_nodes: vec!["node-a".to_string(), "node-b".to_string()],
        preferred_nodes: vec!["node-b".to_string()],
    };
    assert_eq!(t.preference_rank(&"node-b".to_string()), 0);
    assert_eq!(t.preference_rank(&"node-a".to_string()), 1);
    assert!(t.allows(&"node-a".to_string()));
}

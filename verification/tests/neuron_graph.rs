use std::collections::HashMap;

use pulsar_core::error::AppError;
use pulsar_core::models::{NeuronKindFilter, NeuronUpdate};
use pulsar_core::neuron_graph::{
    escape_like_text, neuron_page_query, page_has_more, take_unexcluded, NetworkWalk, WalkPhase, MAX_NETWORK_NODES,
};
use pulsar_core::neuron_store::{
    check_ai_update, check_link_endpoints, check_row_touched, check_system_type, check_system_type_free, connection_not_found,
    mark_deleted_sql, normalize_system_type, record_id, recycle_quota, schema_upgrade, update_neuron_sql, variant_listed,
    SYSTEM_TYPE_INDEX_DDL, VERSIONS_INDEX_DDL, VERSIONS_TABLE_DDL,
};

/// An in-memory graph: live neurons and directed edges.
struct Graph {
    live: Vec<String>,
    edges: Vec<(String, String)>,
}

impl Graph {
    fn new(nodes: &[&str], edges: &[(&str, &str)]) -> Graph {
        Graph {
            live: nodes.iter().map(|s| s.to_string()).collect(),
            edges: edges.iter().map(|(a, b)| (a.to_string(), b.to_string())).collect(),
        }
    }

    /// Edges touching `id` whose two ends are live (as the store's connection query).
    fn connections(&self, id: &str) -> Vec<(String, String)> {
        self.edges
            .iter()
            .filter(|(s, t)| (s == id || t == id) && self.live.contains(s) && self.live.contains(t))
            .cloned()
            .collect()
    }

    /// Runs a network walk the way the store drives it.
    fn network(&self, seed: &str, depth: usize) -> (Vec<String>, Vec<(String, String)>) {
        let mut walk = NetworkWalk::start(seed, depth);
        let mut recorded: Vec<(String, String)> = Vec::new();
        loop {
            assert_eq!(walk.phase(), WalkPhase::Ready);
            let Some((id, _depth)) = walk.next_visit() else { break };
            let present = self.live.contains(&id);
            if !walk.record_node(present) {
                if walk.phase() == WalkPhase::Finished {
                    break;
                }
                continue;
            }
            let conns = self.connections(&id);
            let fresh = walk.record_edges(&conns);
            for (c, is_new) in conns.into_iter().zip(fresh) {
                if is_new {
                    recorded.push(c);
                }
            }
        }
        let kept: Vec<(String, String)> = walk.kept_edges().into_iter().map(|i| recorded[i].clone()).collect();
        (walk.nodes(), kept)
    }
}

#[test]
fn test_network_bfs() {
    let g = Graph::new(&["A", "B", "C", "D"], &[("A", "B"), ("B", "C"), ("C", "D")]);

    let (nodes, edges) = g.network("A", 1);
    assert_eq!(nodes.len(), 2);
    assert_eq!(edges.len(), 1);
    assert_eq!(edges[0], ("A".to_string(), "B".to_string()));

    let (nodes, edges) = g.network("A", 2);
    assert_eq!(nodes.len(), 3);
    assert_eq!(edges.len(), 2);

    let (nodes, edges) = g.network("A", 3);
    assert_eq!(nodes.len(), 4);
    assert_eq!(edges.len(), 3);
}

#[test]
fn network_walk_follows_edges_both_ways_and_keeps_inner_edges_only() {
    // Seed in the middle: upstream and downstream neighbours are both reached.
    let g = Graph::new(&["A", "B", "C", "D"], &[("A", "B"), ("B", "C"), ("C", "D")]);
    let (nodes, edges) = g.network("B", 1);
    assert_eq!(nodes, vec!["B".to_string(), "A".to_string(), "C".to_string()]);
    assert_eq!(edges, vec![("A".to_string(), "B".to_string()), ("B".to_string(), "C".to_string())]);

    // Depth 0: the seed alone, no edges.
    let (nodes, edges) = g.network("B", 0);
    assert_eq!(nodes, vec!["B".to_string()]);
    assert!(edges.is_empty());
}

#[test]
fn network_walk_skips_missing_seed_and_dedupes_edges() {
    let g = Graph::new(&["A", "B"], &[("A", "B"), ("B", "A")]);
    let (nodes, edges) = g.network("A", 2);
    assert_eq!(nodes, vec!["A".to_string(), "B".to_string()]);
    assert_eq!(edges.len(), 2);

    let g = Graph::new(&["A"], &[]);
    let (nodes, edges) = g.network("ghost", 3);
    assert!(nodes.is_empty());
    assert!(edges.is_empty());
}

#[test]
fn network_walk_stops_at_node_cap() {
    let mut names: Vec<String> = (0..600).map(|i| format!("leaf{i}")).collect();
    names.push("hub".to_string());
    let refs: Vec<&str> = names.iter().map(|s| s.as_str()).collect();
    let edge_list: Vec<(String, String)> = (0..600).map(|i| ("hub".to_string(), format!("leaf{i}"))).collect();
    let edge_refs: Vec<(&str, &str)> = edge_list.iter().map(|(a, b)| (a.as_str(), b.as_str())).collect();
    let g = Graph::new(&refs, &edge_refs);
    let (nodes, edges) = g.network("hub", 1);
    assert_eq!(nodes.len(), MAX_NETWORK_NODES);
    assert_eq!(edges.len(), MAX_NETWORK_NODES - 1);
}

#[test]
fn limited_listing_skips_excluded_and_stops_at_limit() {
    let ids: Vec<String> = ["a", "b", "c", "d"].iter().map(|s| s.to_string()).collect();
    let excluded = vec!["b".to_string()];
    assert_eq!(take_unexcluded(&ids, 2, &excluded), vec![0, 2]);
    assert_eq!(take_unexcluded(&ids, 10, &excluded), vec![0, 2, 3]);
    // A limit of 0 never matches the count after a row is kept: every row stays.
    assert_eq!(take_unexcluded(&ids, 0, &excluded), vec![0, 2, 3]);
    assert_eq!(take_unexcluded(&ids, 1, &vec![]), vec![0]);
}

#[test]
fn like_escaping_is_literal() {
    assert_eq!(escape_like_text("50%_a\\b"), "50\\%\\_a\\\\b");
    assert_eq!(escape_like_text("plain"), "plain");
}

#[test]
fn page_query_clamps_filters_and_searches() {
    let q = neuron_page_query(2, 0, None, NeuronKindFilter::All);
    assert_eq!(q.limit, 1);
    assert_eq!(q.offset, 2);
    assert_eq!(q.count_sql, "SELECT COUNT(*) FROM neurons WHERE deleted_at IS NULL");
    assert!(q.patterns.is_empty());

    let q = neuron_page_query(1, 500, Some("  50%  "), NeuronKindFilter::System);
    assert_eq!(q.limit, 100);
    assert_eq!(q.offset, 100);
    assert_eq!(
        q.count_sql,
        "SELECT COUNT(*) FROM neurons WHERE deleted_at IS NULL AND system_type IS NOT NULL AND (desc LIKE ? ESCAPE '\\' OR id LIKE ? ESCAPE '\\')"
    );
    assert_eq!(q.patterns, vec!["%50\\%%".to_string(), "%50\\%%".to_string()]);
    assert!(q.select_sql.ends_with("ORDER BY weight DESC, id ASC LIMIT ? OFFSET ?"));

    let q = neuron_page_query(usize::MAX, 10, Some("   "), NeuronKindFilter::Normal);
    assert_eq!(q.offset, usize::MAX);
    assert!(q.patterns.is_empty());
    assert_eq!(q.count_sql, "SELECT COUNT(*) FROM neurons WHERE deleted_at IS NULL AND system_type IS NULL");

    assert!(page_has_more(0, 20, 21));
    assert!(!page_has_more(20, 1, 21));
    assert!(!page_has_more(0, 0, 0));
}

#[test]
fn schema_upgrade_adds_missing_columns_in_order() {
    let all: Vec<String> = [
        "id", "desc", "content", "weight", "created_at", "updated_at", "system_type", "tool_ids", "lineage_parent_id",
        "use_count", "accumulated_delta", "last_used_at", "variant_state", "manual_edited", "deleted_at", "behavior",
    ]
    .iter()
    .map(|s| s.to_string())
    .collect();
    let steps = schema_upgrade(&all);
    let sqls: Vec<&str> = steps.iter().map(|s| s.sql.as_str()).collect();
    assert_eq!(sqls, vec![SYSTEM_TYPE_INDEX_DDL, VERSIONS_TABLE_DDL, VERSIONS_INDEX_DDL]);

    let legacy: Vec<String> =
        ["id", "desc", "content", "weight", "created_at", "updated_at"].iter().map(|s| s.to_string()).collect();
    let steps = schema_upgrade(&legacy);
    assert_eq!(steps.len(), 13);
    assert_eq!(steps[0].sql, "ALTER TABLE neurons ADD COLUMN system_type TEXT");
    assert_eq!(steps[0].failure, "Failed to add system_type");
    assert_eq!(steps[1].sql, "ALTER TABLE neurons ADD COLUMN tool_ids TEXT NOT NULL DEFAULT '[]'");
    assert_eq!(steps[2].sql, SYSTEM_TYPE_INDEX_DDL);
    assert_eq!(steps[3].failure, "Failed to add lineage_parent_id");
    assert_eq!(steps[10].sql, "ALTER TABLE neurons ADD COLUMN behavior TEXT");
    assert_eq!(steps[12].failure, "Failed to index neuron_versions");
}

#[test]
fn update_and_delete_statements() {
    let none = NeuronUpdate { desc: None, content: None, tool_ids: None };
    match update_neuron_sql(&none) {
        Err(AppError::InvalidInput(m)) => assert_eq!(m, "update_neuron requires at least one field"),
        other => panic!("unexpected {other:?}"),
    }
    let desc_only = NeuronUpdate { desc: Some("new".into()), content: None, tool_ids: None };
    assert_eq!(
        update_neuron_sql(&desc_only).unwrap(),
        "UPDATE neurons SET desc = ?, use_count = use_count + 1, last_used_at = ?, updated_at = ? WHERE id = ? AND deleted_at IS NULL"
    );
    let all = NeuronUpdate { desc: Some("d".into()), content: Some("c".into()), tool_ids: Some(vec![]) };
    assert!(update_neuron_sql(&all).unwrap().starts_with("UPDATE neurons SET desc = ?, content = ?, tool_ids = ?, "));

    assert_eq!(mark_deleted_sql(0), None);
    assert_eq!(
        mark_deleted_sql(3).unwrap(),
        "UPDATE neurons SET deleted_at = ?1, updated_at = ?1 WHERE id IN (?, ?, ?) AND deleted_at IS NULL"
    );
}

#[test]
fn store_checks_and_ids() {
    assert_eq!(record_id("n", 1700, 3), "n_1700_3");
    assert_eq!(record_id("v", 0, 12), "v_0_12");

    assert!(check_system_type(None).is_ok());
    assert!(check_system_type(Some("topic_match")).is_ok());
    assert_eq!(check_system_type(Some("  ")), Err(AppError::InvalidInput("system_type cannot be empty".into())));

    assert_eq!(normalize_system_type(Some("  selector ")), Some("selector".to_string()));
    assert_eq!(normalize_system_type(Some("   ")), None);
    assert_eq!(normalize_system_type(None), None);

    assert!(check_system_type_free("selector", None, "n1").is_ok());
    assert!(check_system_type_free("selector", Some("n1"), "n1").is_ok());
    assert_eq!(
        check_system_type_free("selector", Some("n2"), "n1"),
        Err(AppError::InvalidInput("system_type selector is already bound to neuron n2".into()))
    );

    assert!(check_ai_update(None).is_ok());
    assert_eq!(
        check_ai_update(Some("selector")),
        Err(AppError::InvalidInput("AI tools cannot update system neurons".into()))
    );

    assert!(check_link_endpoints("a", "b", 2).is_ok());
    assert_eq!(
        check_link_endpoints("a", "a", 1),
        Err(AppError::NeuronNotFound("link endpoint missing or deleted: a -> a".into()))
    );
    assert_eq!(connection_not_found("a", "b"), AppError::InvalidInput("Connection not found: a -> b".into()));

    assert_eq!(recycle_quota(12, 10), 2);
    assert_eq!(recycle_quota(3, 10), 0);
}

use pulsar_core::models::NeighborhoodPoolPolicy;
use pulsar_core::neighborhood::{NeighborStep, NeighborhoodAssembly};

fn list_children(children: &HashMap<&str, Vec<&str>>, source: &str, limit: usize, exclude: &[String]) -> Vec<String> {
    let all: Vec<String> = children.get(source).map(|v| v.iter().map(|s| s.to_string()).collect()).unwrap_or_default();
    all.into_iter().filter(|c| !exclude.contains(c)).take(limit).collect()
}

/// Drives a neighbourhood assembly against a parent map and child lists.
fn neighborhood(
    self_id: &str,
    policy: NeighborhoodPoolPolicy,
    live: &[&str],
    children: &HashMap<&str, Vec<&str>>,
    parents: &HashMap<&str, &str>,
    heaviest: &[&str],
) -> Result<Vec<String>, AppError> {
    let (mut a, mut step) = NeighborhoodAssembly::start(self_id, policy);
    let mut created = 0;
    loop {
        step = match step {
            NeighborStep::FetchSelf { id } => a.self_found(live.contains(&id.as_str())),
            NeighborStep::Children { source, limit, exclude } => {
                let picked = list_children(children, &source, limit, &exclude);
                a.children(&picked)
            }
            NeighborStep::Siblings { parent, limit, exclude } => {
                let picked = list_children(children, &parent, limit, &exclude);
                a.listed(&picked)
            }
            NeighborStep::Create { count } => {
                let ids: Vec<String> = (0..count).map(|i| format!("new{}", created + i)).collect();
                created += count;
                a.created(&ids)
            }
            NeighborStep::Parent { of } => a.parent(parents.get(of.as_str()).map(|p| p.to_string())),
            NeighborStep::Global { limit, exclude } => {
                let picked: Vec<String> =
                    heaviest.iter().map(|s| s.to_string()).filter(|c| !exclude.contains(c)).take(limit).collect();
                a.listed(&picked)
            }
            NeighborStep::Done => return Ok(a.members()),
            NeighborStep::Failed(e) => return Err(e),
        };
    }
}

#[test]
fn neighborhood_pool_order_and_dedup() {
    let policy = NeighborhoodPoolPolicy::default_policy();
    let live = ["S", "c1", "c2", "P", "s1", "s2", "s3", "G"];
    let mut children: HashMap<&str, Vec<&str>> = HashMap::new();
    children.insert("S", vec!["c1", "c2"]);
    children.insert("P", vec!["S", "s1", "s2", "s3"]);
    let mut parents: HashMap<&str, &str> = HashMap::new();
    parents.insert("S", "P");
    parents.insert("P", "G");
    let heaviest = ["c1", "top1", "G", "top2"];
    let pool = neighborhood("S", policy, &live, &children, &parents, &heaviest).unwrap();
    let expected: Vec<String> = [
        "c1", "c2", "new0", "new1", "new2", "new3", "S", "s1", "s2", "P", "G", "top1", "top2",
    ]
    .iter()
    .map(|s| s.to_string())
    .collect();
    assert_eq!(pool, expected);
}

#[test]
fn neighborhood_pool_failures() {
    let policy = NeighborhoodPoolPolicy::default_policy();
    let empty: HashMap<&str, Vec<&str>> = HashMap::new();
    let no_parents: HashMap<&str, &str> = HashMap::new();
    assert_eq!(
        neighborhood("ghost", policy, &[], &empty, &no_parents, &[]),
        Err(AppError::NeuronNotFound("ghost".into()))
    );
    let greedy = NeighborhoodPoolPolicy { new_downstream: 9, ..policy };
    assert_eq!(
        neighborhood("S", greedy, &["S"], &empty, &no_parents, &[]),
        Err(AppError::InvalidInput("assistant new downstream count must be <=10, got 13".into()))
    );
    let lean = NeighborhoodPoolPolicy {
        existing_downstream: 0,
        new_downstream: 0,
        fill_downstream_shortage: false,
        siblings: 0,
        upstream_depth: 0,
        global_top_weight: 0,
    };
    assert_eq!(neighborhood("S", lean, &["S"], &empty, &no_parents, &[]), Ok(vec!["S".to_string()]));
}

use pulsar_core::models::AssistantCandidateScope;
use pulsar_core::selection::{check_global_limit, CandidateAssembly, PoolStep};

/// A graph of live neurons the neighbourhood assembly is driven against: children lists in
/// insertion order, weights, and new children created on demand.
struct Net {
    order: Vec<String>,
    weight: HashMap<String, i64>,
    children: HashMap<String, Vec<String>>,
    created: usize,
}

impl Net {
    fn new() -> Net {
        Net { order: vec![], weight: HashMap::new(), children: HashMap::new(), created: 0 }
    }
    fn add(&mut self, id: &str, parent: Option<&str>) {
        self.order.push(id.to_string());
        self.weight.insert(id.to_string(), 0);
        if let Some(p) = parent {
            self.children.entry(p.to_string()).or_default().push(id.to_string());
        }
    }
    fn parent_of(&self, id: &str) -> Option<String> {
        self.order.iter().find(|p| self.children.get(*p).map_or(false, |c| c.iter().any(|x| x == id))).cloned()
    }
    fn kids(&self, id: &str, limit: usize, exclude: &[String]) -> Vec<String> {
        let all = self.children.get(id).cloned().unwrap_or_default();
        all.into_iter().filter(|c| !exclude.contains(c)).take(limit).collect()
    }
    fn heaviest(&self, limit: usize, exclude: &[String]) -> Vec<String> {
        let mut all: Vec<String> = self.order.clone();
        all.sort_by_key(|id| -self.weight[id]);
        all.into_iter().filter(|c| !exclude.contains(c)).take(limit).collect()
    }

    fn assistant_candidates(&mut self, scope: AssistantCandidateScope) -> Result<Vec<String>, AppError> {
        let (self_id, policy) = match scope {
            AssistantCandidateScope::Global { limit } => {
                check_global_limit(limit)?;
                let (mut pool, mut step) = CandidateAssembly::start(limit, 0, None);
                loop {
                    step = match step {
                        PoolStep::FetchExisting { limit } => {
                            let got = self.heaviest(limit, &pool.members());
                            pool.absorb(&got).1
                        }
                        PoolStep::Fill { count } => {
                            let ids: Vec<String> = (0..count).map(|i| format!("g{i}")).collect();
                            pool.absorb(&ids).1
                        }
                        PoolStep::CheckSource { id } => pool.source_found(self.order.contains(&id)),
                        PoolStep::Done => return Ok(pool.members()),
                        PoolStep::Failed(e) => return Err(e),
                    };
                }
            }
            AssistantCandidateScope::Neighborhood { self_id, policy } => (self_id, policy),
        };
        let (mut a, mut step) = NeighborhoodAssembly::start(&self_id, policy);
        loop {
            step = match step {
                NeighborStep::FetchSelf { id } => a.self_found(self.order.contains(&id)),
                NeighborStep::Children { source, limit, exclude } => {
                    let got = self.kids(&source, limit, &exclude);
                    a.children(&got)
                }
                NeighborStep::Create { count } => {
                    let mut ids = vec![];
                    for _ in 0..count {
                        let id = format!("new{}", self.created);
                        self.created += 1;
                        self.add(&id, Some(&self_id));
                        ids.push(id);
                    }
                    a.created(&ids)
                }
                NeighborStep::Parent { of } => a.parent(self.parent_of(&of)),
                NeighborStep::Siblings { parent, limit, exclude } => {
                    let got = self.kids(&parent, limit, &exclude);
                    a.listed(&got)
                }
                NeighborStep::Global { limit, exclude } => {
                    let got = self.heaviest(limit, &exclude);
                    a.listed(&got)
                }
                NeighborStep::Done => return Ok(a.members()),
                NeighborStep::Failed(e) => return Err(e),
            };
        }
    }
}

#[test]
fn assistant_candidates_builds_children_self_siblings_and_three_ancestors() {
    let mut net = Net::new();
    net.add("great-grandparent", None);
    net.add("grandparent", Some("great-grandparent"));
    net.add("parent", Some("grandparent"));
    net.add("self", Some("parent"));
    net.add("sibling", Some("parent"));
    net.add("child-a", Some("self"));
    net.add("child-b", Some("self"));
    let candidates = net.assistant_candidates(AssistantCandidateScope::neighborhood_default("self")).unwrap();
    let distinct: std::collections::HashSet<&String> = candidates.iter().collect();
    assert_eq!(distinct.len(), candidates.len());
    for id in ["self", "sibling", "parent", "grandparent", "great-grandparent", "child-a", "child-b"] {
        assert!(candidates.contains(&id.to_string()));
    }
    assert_eq!(net.children["self"].len(), 6);
    assert_eq!(candidates.len(), 11);
}

#[test]
fn assistant_candidates_adds_two_new_children_when_four_exist() {
    let mut net = Net::new();
    net.add("self", None);
    for i in 0..4 {
        net.add(&format!("child-{i}"), Some("self"));
    }
    let candidates = net.assistant_candidates(AssistantCandidateScope::neighborhood_default("self")).unwrap();
    assert_eq!(net.children["self"].len(), 6);
    assert_eq!(candidates.len(), 7);
}

#[test]
fn assistant_candidates_global_default_uses_existing_seven() {
    let mut net = Net::new();
    for i in 0..7 {
        net.add(&format!("global-{i}"), None);
    }
    let before = net.order.len();
    let candidates = net.assistant_candidates(AssistantCandidateScope::global_default()).unwrap();
    assert_eq!(candidates.len(), 7);
    assert_eq!(net.order.len(), before);
}

#[test]
fn assistant_candidates_honors_custom_neighborhood_policy() {
    let mut net = Net::new();
    net.add("self", None);
    net.add("existing-child", Some("self"));
    let policy = NeighborhoodPoolPolicy {
        existing_downstream: 2,
        new_downstream: 1,
        fill_downstream_shortage: false,
        siblings: 0,
        upstream_depth: 0,
        global_top_weight: 0,
    };
    let candidates =
        net.assistant_candidates(AssistantCandidateScope::Neighborhood { self_id: "self".into(), policy }).unwrap();
    assert_eq!(net.children["self"].len(), 2);
    assert_eq!(candidates.len(), 3);
    assert!(candidates.contains(&"self".to_string()));
    assert!(candidates.contains(&"existing-child".to_string()));
}

#[test]
fn assistant_candidates_appends_global_top_weight_neurons() {
    let mut net = Net::new();
    net.add("self", None);
    net.add("child", Some("self"));
    net.add("top-weighted", None);
    net.weight.insert("top-weighted".into(), 50);
    let candidates = net.assistant_candidates(AssistantCandidateScope::neighborhood_default("self")).unwrap();
    assert!(candidates.contains(&"top-weighted".to_string()));
}

#[test]
fn assistant_candidates_zero_top_weight_skips_global_append() {
    let mut net = Net::new();
    net.add("self", None);
    net.add("top-weighted", None);
    net.weight.insert("top-weighted".into(), 50);
    let policy = NeighborhoodPoolPolicy {
        existing_downstream: 0,
        new_downstream: 1,
        fill_downstream_shortage: false,
        siblings: 0,
        upstream_depth: 0,
        global_top_weight: 0,
    };
    let candidates =
        net.assistant_candidates(AssistantCandidateScope::Neighborhood { self_id: "self".into(), policy }).unwrap();
    assert!(candidates.contains(&"self".to_string()));
    assert!(!candidates.contains(&"top-weighted".to_string()));
}

#[test]
fn assistant_candidates_rejects_zero_global_limit() {
    let mut net = Net::new();
    assert!(net.assistant_candidates(AssistantCandidateScope::Global { limit: 0 }).is_err());
}

#[test]
fn assistant_candidates_rejects_new_downstream_above_batch_limit() {
    let mut net = Net::new();
    net.add("self", None);
    let policy = NeighborhoodPoolPolicy {
        existing_downstream: 0,
        new_downstream: 11,
        fill_downstream_shortage: false,
        siblings: 0,
        upstream_depth: 0,
        global_top_weight: 0,
    };
    assert!(net.assistant_candidates(AssistantCandidateScope::Neighborhood { self_id: "self".into(), policy }).is_err());
}

#[test]
fn write_touching_no_row_is_neuron_not_found() {
    assert_eq!(check_row_touched(1, "n_1_0"), Ok(()));
    assert_eq!(check_row_touched(3, "n_1_0"), Ok(()));
    assert_eq!(check_row_touched(0, "n_1_0"), Err(AppError::NeuronNotFound("n_1_0".to_string())));
}

#[test]
fn observing_variants_listed_only_when_all_asked() {
    assert!(variant_listed(true, None));
    assert!(variant_listed(true, Some("active")));
    assert!(!variant_listed(true, Some("observing")));
    assert!(variant_listed(false, Some("observing")));
    assert!(variant_listed(false, None));
}

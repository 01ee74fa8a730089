use embedstore::errors::StoreError;
use embedstore::fanout::{fanout_collections, merge_fanout, tenants_or_none};
use embedstore::ranking::{sort_by_score_desc, top_k, ScoredId};
use embedstore::router::Kind;

fn hit(id: &str, similarity: u64) -> ScoredId {
    ScoredId {
        id: id.to_string(),
        similarity,
    }
}

#[test]
fn sorting_is_descending_and_keeps_elements() {
    let v = vec![hit("a", 10), hit("b", 90), hit("c", 40)];
    let sorted = sort_by_score_desc(v);
    let sims: Vec<u64> = sorted.iter().map(|h| h.similarity).collect();
    assert_eq!(sims, vec![90, 40, 10]);
    let ids: Vec<&str> = sorted.iter().map(|h| h.id.as_str()).collect();
    assert_eq!(ids, vec!["b", "c", "a"]);
}

#[test]
fn top_k_truncates_to_limit() {
    let v = vec![hit("a", 10), hit("b", 90), hit("c", 40), hit("d", 70)];
    let best = top_k(v, 2);
    let ids: Vec<&str> = best.iter().map(|h| h.id.as_str()).collect();
    assert_eq!(ids, vec!["b", "d"]);
    let all = top_k(vec![hit("x", 5)], 10);
    assert_eq!(all.len(), 1);
}

#[test]
fn fanout_plan_single_tenant() {
    let all = vec!["org1".to_string(), "org2".to_string()];
    let plan = fanout_collections(Kind::Entity, &Some("org9".to_string()), &all);
    assert_eq!(plan, vec!["entities_org9"]);
}

#[test]
fn fanout_plan_all_tenants() {
    let all = vec!["org1".to_string(), "org2".to_string()];
    let plan = fanout_collections(Kind::Topic, &None, &all);
    assert_eq!(plan, vec!["topics_org1", "topics_org2"]);
    let plan_empty_id = fanout_collections(Kind::Topic, &Some(String::new()), &all);
    assert_eq!(plan_empty_id, vec!["topics_org1", "topics_org2"]);
}

#[test]
fn failed_tenant_lookup_searches_nothing() {
    let got = tenants_or_none(Err(StoreError::OperationFailed("db down".to_string())));
    assert!(got.is_empty());
    let ok = tenants_or_none(Ok(vec!["org1".to_string()]));
    assert_eq!(ok, vec!["org1"]);
}

#[test]
fn failing_branch_is_isolated() {
    // Tenant A's collection errors, B's succeeds: the search returns
    // exactly B's results, not an overall failure.
    let b_results = vec![hit("b1", 800_000), hit("b2", 500_000)];
    let outcomes = vec![
        Err(StoreError::OperationFailed("collection error".to_string())),
        Ok(b_results),
    ];
    let merged = merge_fanout(outcomes, 10);
    let ids: Vec<&str> = merged.iter().map(|h| h.id.as_str()).collect();
    assert_eq!(ids, vec!["b1", "b2"]);
}

#[test]
fn all_branches_failing_yields_empty_not_error() {
    let outcomes: Vec<Result<Vec<ScoredId>, StoreError>> = vec![
        Err(StoreError::OperationFailed("x".to_string())),
        Err(StoreError::OperationFailed("y".to_string())),
    ];
    let merged = merge_fanout(outcomes, 5);
    assert!(merged.is_empty());
}

#[test]
fn merge_keeps_highest_across_tenants() {
    // Two tenants answering five and three results; with limit five the
    // merge yields exactly the five highest similarities across both.
    let a = vec![
        hit("a1", 900_000),
        hit("a2", 800_000),
        hit("a3", 700_000),
        hit("a4", 600_000),
        hit("a5", 500_000),
    ];
    let b = vec![hit("b1", 850_000), hit("b2", 650_000), hit("b3", 400_000)];
    let merged = merge_fanout(vec![Ok(a), Ok(b)], 5);
    let ids: Vec<&str> = merged.iter().map(|h| h.id.as_str()).collect();
    assert_eq!(ids, vec!["a1", "b1", "a2", "a3", "b2"]);
    let sims: Vec<u64> = merged.iter().map(|h| h.similarity).collect();
    assert_eq!(sims, vec![900_000, 850_000, 800_000, 700_000, 650_000]);
}

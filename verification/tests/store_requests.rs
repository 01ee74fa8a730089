use embedstore::errors::StoreError;
use embedstore::meta::{MetaScalar, MetaValue, Metadata};
use embedstore::router::Kind;
use embedstore::similarity::{similarity_from_distance, SIM_SCALE};
use embedstore::store::{
    build_count, build_delete, build_design_doc_query, build_design_doc_upsert,
    build_entity_upsert, build_get, build_query, build_relation_upsert, build_topic_upsert,
    derive_topic_title, hits_from_distances, interpret_design_doc_get, interpret_get_response,
    meta_opt_str, meta_str, topic_hits_from_response,
};

fn str_val(v: &str) -> MetaValue {
    MetaValue::Scalar(MetaScalar::Str(v.to_string()))
}

#[test]
fn similarity_is_clamped_one_minus_distance() {
    // distance 0 -> similarity 1
    assert_eq!(similarity_from_distance(0), SIM_SCALE);
    // distance 0.4 -> similarity 0.6
    assert_eq!(similarity_from_distance(400_000), 600_000);
    // distance 1 -> similarity 0
    assert_eq!(similarity_from_distance(SIM_SCALE), 0);
    // distance beyond 1 is clamped, never negative
    assert_eq!(similarity_from_distance(1_700_000), 0);
    assert_eq!(similarity_from_distance(u64::MAX), 0);
}

#[test]
fn hits_pair_ids_with_clamped_similarities() {
    let ids = vec!["a".to_string(), "b".to_string(), "c".to_string()];
    let distances = vec![0, 250_000, 1_500_000];
    let hits = hits_from_distances(ids, distances);
    assert_eq!(hits.len(), 3);
    assert_eq!(hits[0].id, "a");
    assert_eq!(hits[0].similarity, 1_000_000);
    assert_eq!(hits[1].id, "b");
    assert_eq!(hits[1].similarity, 750_000);
    assert_eq!(hits[2].id, "c");
    assert_eq!(hits[2].similarity, 0);
}

#[test]
fn hits_drop_unpaired_tails() {
    let hits = hits_from_distances(vec!["a".to_string(), "b".to_string()], vec![10]);
    assert_eq!(hits.len(), 1);
    assert_eq!(hits[0].id, "a");
}

#[test]
fn entity_upsert_tags_and_scrubs() {
    let mut md = Metadata::new();
    md.insert("note".to_string(), MetaValue::Scalar(MetaScalar::Null));
    let req = build_entity_upsert(
        "e1".to_string(),
        "org1".to_string(),
        vec![10, 20],
        md,
    );
    assert_eq!(req.collection, "entities_org1");
    assert_eq!(req.id, "e1");
    assert_eq!(req.record.vector, vec![10, 20]);
    assert_eq!(req.record.metadata.get("entityId"), Some(&str_val("e1")));
    assert_eq!(
        req.record.metadata.get("organizationId"),
        Some(&str_val("org1"))
    );
    // The null was observed as an empty string: the write is null-free.
    assert_eq!(req.record.metadata.get("note"), Some(&str_val("")));
}

#[test]
fn relation_upsert_uses_relation_key() {
    let req = build_relation_upsert(
        "r1".to_string(),
        String::new(),
        vec![1],
        Metadata::new(),
    );
    assert_eq!(req.collection, "relations_all");
    assert_eq!(req.record.metadata.get("relationId"), Some(&str_val("r1")));
}

#[test]
fn topic_title_kept_when_present() {
    assert_eq!(derive_topic_title("Given", "summary", "t1"), "Given");
}

#[test]
fn topic_title_short_summary_taken_whole() {
    assert_eq!(derive_topic_title("", "short summary", "t1"), "short summary");
}

#[test]
fn topic_title_placeholder_when_nothing_given() {
    assert_eq!(derive_topic_title("", "", "t1"), "トピック t1");
}

#[test]
fn topic_upsert_derives_truncated_title() {
    // An over-fifty-character summary is cut to its first fifty characters
    // plus the ellipsis marker.
    let summary = "quarterly review notes covering revenue, hiring plans and risks";
    assert!(summary.len() > 50);
    let mut md = Metadata::new();
    md.insert("title".to_string(), str_val(""));
    md.insert("contentSummary".to_string(), str_val(summary));
    let req = build_topic_upsert(
        "t1".to_string(),
        None,
        "org1".to_string(),
        vec![7],
        md,
        None,
    );
    assert_eq!(req.collection, "topics_org1");
    let expected: String = summary.chars().take(50).collect::<String>() + "...";
    assert_eq!(req.record.metadata.get("title"), Some(&str_val(&expected)));
    assert_eq!(req.record.metadata.get("topicId"), Some(&str_val("t1")));
}

#[test]
fn topic_upsert_tags_parents() {
    let req = build_topic_upsert(
        "t2".to_string(),
        Some("note9".to_string()),
        "org1".to_string(),
        vec![],
        Metadata::new(),
        None,
    );
    assert_eq!(
        req.record.metadata.get("meetingNoteId"),
        Some(&str_val("note9"))
    );
    assert_eq!(req.record.metadata.get("regulationId"), None);
    let req2 = build_topic_upsert(
        "t3".to_string(),
        None,
        "org1".to_string(),
        vec![],
        Metadata::new(),
        Some("reg4".to_string()),
    );
    assert_eq!(
        req2.record.metadata.get("regulationId"),
        Some(&str_val("reg4"))
    );
}

#[test]
fn design_doc_upsert_tags_section() {
    let mut md = Metadata::new();
    md.insert("x".to_string(), MetaValue::Scalar(MetaScalar::Null));
    let req = build_design_doc_upsert("s1".to_string(), vec![3], md);
    assert_eq!(req.collection, "design_docs");
    assert_eq!(req.record.metadata.get("sectionId"), Some(&str_val("s1")));
    assert_eq!(req.record.metadata.get("x"), Some(&str_val("")));
}

#[test]
fn get_and_delete_requests_route_by_tenant() {
    let g = build_get(Kind::Entity, "e1".to_string(), "org2");
    assert_eq!(g.collection, "entities_org2");
    assert_eq!(g.id, "e1");
    let d = build_delete(Kind::Topic, "t1".to_string(), "");
    assert_eq!(d.collection, "topics_all");
    assert_eq!(d.id, "t1");
}

#[test]
fn query_requests_carry_limit_and_filter() {
    let q = build_query("entities_org1".to_string(), 5);
    assert_eq!(q.collection, "entities_org1");
    assert_eq!(q.limit, 5);
    assert_eq!(q.section_filter, None);
    let dq = build_design_doc_query(7, Some("s4".to_string()), Some(vec!["tag".to_string()]));
    assert_eq!(dq.collection, "design_docs");
    assert_eq!(dq.limit, 7);
    assert_eq!(dq.section_filter, Some("s4".to_string()));
}

#[test]
fn count_needs_a_tenant() {
    assert_eq!(
        build_count(Kind::Entity, &Some("org1".to_string())).unwrap(),
        "entities_org1"
    );
    assert!(matches!(
        build_count(Kind::Entity, &None),
        Err(StoreError::OperationFailed(_))
    ));
    assert!(matches!(
        build_count(Kind::Entity, &Some(String::new())),
        Err(StoreError::OperationFailed(_))
    ));
}

#[test]
fn topic_hits_enrich_from_metadata() {
    let mut md = Metadata::new();
    md.insert("title".to_string(), str_val("T"));
    md.insert("contentSummary".to_string(), str_val("S"));
    md.insert("meetingNoteId".to_string(), str_val("n1"));
    md.insert("organizationId".to_string(), str_val("org1"));
    let hits = topic_hits_from_response(
        vec!["t1".to_string(), "t2".to_string()],
        vec![200_000, 900_000],
        vec![Some(md), None],
    );
    assert_eq!(hits.len(), 2);
    assert_eq!(hits[0].topic_id, "t1");
    assert_eq!(hits[0].similarity, 800_000);
    assert_eq!(hits[0].title, "T");
    assert_eq!(hits[0].content_summary, "S");
    assert_eq!(hits[0].meeting_note_id, Some("n1".to_string()));
    assert_eq!(hits[0].regulation_id, None);
    assert_eq!(hits[0].organization_id, Some("org1".to_string()));
    assert_eq!(hits[1].topic_id, "t2");
    assert_eq!(hits[1].similarity, 100_000);
    assert_eq!(hits[1].title, "");
    assert_eq!(hits[1].meeting_note_id, None);
}

#[test]
fn metadata_readers_skip_non_strings() {
    let mut md = Metadata::new();
    md.insert("n".to_string(), MetaValue::Scalar(MetaScalar::Int(4)));
    assert_eq!(meta_str(&md, "n"), "");
    assert_eq!(meta_opt_str(&md, "n"), None);
    assert_eq!(meta_opt_str(&md, "absent"), None);
}

#[test]
fn get_response_interpretation() {
    let mut md = Metadata::new();
    md.insert("a".to_string(), str_val("x"));
    // An empty id list reads as an absent record, not an error.
    assert_eq!(interpret_get_response(0, Some(vec![1, 2]), Some(md.clone())), None);
    // A found row carries its embedding and metadata.
    let fetched = interpret_get_response(1, Some(vec![1, 2]), Some(md.clone())).unwrap();
    assert_eq!(fetched.vector, Some(vec![1, 2]));
    assert_eq!(fetched.metadata.unwrap().get("a"), Some(&str_val("x")));
    // Embedding alone is enough; a row with neither reads as absent.
    assert!(interpret_get_response(1, Some(vec![3]), None).is_some());
    assert!(interpret_get_response(1, None, Some(md)).is_some());
    assert_eq!(interpret_get_response(1, None, Some(Metadata::new())), None);
    assert_eq!(interpret_get_response(1, None, None), None);
}

#[test]
fn design_doc_get_scrubs_or_reports_absence() {
    let mut md = Metadata::new();
    md.insert("a".to_string(), MetaValue::Scalar(MetaScalar::Null));
    let cleaned = interpret_design_doc_get(Some(md)).unwrap();
    assert_eq!(cleaned.get("a"), Some(&str_val("")));
    assert!(matches!(
        interpret_design_doc_get(None),
        Err(StoreError::OperationFailed(_))
    ));
}

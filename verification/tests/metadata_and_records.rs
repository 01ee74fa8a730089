use embedstore::collection::{Collection, EmbeddingRecord};
use embedstore::meta::{scrub_value, MetaScalar, MetaValue, Metadata};

fn s(v: &str) -> MetaValue {
    MetaValue::Scalar(MetaScalar::Str(v.to_string()))
}

#[test]
fn scrub_rewrites_null_to_empty_string() {
    let r = scrub_value(MetaValue::Scalar(MetaScalar::Null));
    assert_eq!(r, s(""));
}

#[test]
fn scrub_keeps_other_scalars() {
    assert_eq!(scrub_value(s("x")), s("x"));
    assert_eq!(
        scrub_value(MetaValue::Scalar(MetaScalar::Int(4))),
        MetaValue::Scalar(MetaScalar::Int(4))
    );
    assert_eq!(
        scrub_value(MetaValue::Scalar(MetaScalar::Bool(true))),
        MetaValue::Scalar(MetaScalar::Bool(true))
    );
}

#[test]
fn scrub_cleans_arrays_elementwise() {
    let arr = MetaValue::Arr(vec![
        MetaScalar::Null,
        MetaScalar::Str("keep".to_string()),
        MetaScalar::Null,
        MetaScalar::Int(3),
    ]);
    let r = scrub_value(arr);
    assert_eq!(
        r,
        MetaValue::Arr(vec![
            MetaScalar::Str(String::new()),
            MetaScalar::Str("keep".to_string()),
            MetaScalar::Str(String::new()),
            MetaScalar::Int(3),
        ])
    );
}

#[test]
fn metadata_insert_get_and_replace() {
    let mut md = Metadata::new();
    assert_eq!(md.entry_count(), 0);
    md.insert("k".to_string(), s("v1"));
    assert_eq!(md.get("k"), Some(&s("v1")));
    md.insert("k".to_string(), s("v2"));
    assert_eq!(md.get("k"), Some(&s("v2")));
    assert_eq!(md.entry_count(), 1);
    assert_eq!(md.get("missing"), None);
}

#[test]
fn metadata_scrub_cleans_every_value() {
    let mut md = Metadata::new();
    md.insert("a".to_string(), MetaValue::Scalar(MetaScalar::Null));
    md.insert("b".to_string(), s("kept"));
    let md = md.scrub();
    assert_eq!(md.get("a"), Some(&s("")));
    assert_eq!(md.get("b"), Some(&s("kept")));
    assert_eq!(md.entry_count(), 2);
}

#[test]
fn upsert_then_get_round_trip() {
    let mut c = Collection::new();
    let mut md = Metadata::new();
    md.insert("title".to_string(), s("hello"));
    let rec = EmbeddingRecord {
        vector: vec![100, -200, 300],
        metadata: md,
    };
    c.upsert("id1".to_string(), rec.clone());
    let got = c.get("id1").expect("stored record must be found");
    assert_eq!(got.vector, vec![100, -200, 300]);
    assert_eq!(got.metadata.get("title"), Some(&s("hello")));
    assert_eq!(c.count(), 1);
}

#[test]
fn upsert_same_id_overwrites() {
    let mut c = Collection::new();
    let r1 = EmbeddingRecord {
        vector: vec![1],
        metadata: Metadata::new(),
    };
    let r2 = EmbeddingRecord {
        vector: vec![2],
        metadata: Metadata::new(),
    };
    c.upsert("id1".to_string(), r1);
    c.upsert("id1".to_string(), r2);
    assert_eq!(c.count(), 1);
    assert_eq!(c.get("id1").unwrap().vector, vec![2]);
}

#[test]
fn delete_then_get_is_absent_not_an_error() {
    let mut c = Collection::new();
    c.upsert(
        "id1".to_string(),
        EmbeddingRecord {
            vector: vec![5],
            metadata: Metadata::new(),
        },
    );
    c.delete("id1");
    assert_eq!(c.get("id1"), None);
    assert_eq!(c.count(), 0);
    // Deleting an id that is not there is a no-op, not an error.
    c.delete("id1");
    assert_eq!(c.get("id1"), None);
}

use embedstore::config::{default_data_dir, resolve_port, Platform, DEFAULT_PORT};
use embedstore::errors::StoreError;
use embedstore::router::{collection_name, tenant_collection_names, Kind};
use embedstore::text::{contains_sub, parse_u16, parse_u32, str_eq, u16_to_string};

#[test]
fn collection_name_with_tenant() {
    assert_eq!(collection_name(Kind::Entity, "org1"), "entities_org1");
    assert_eq!(collection_name(Kind::Relation, "org1"), "relations_org1");
    assert_eq!(collection_name(Kind::Topic, "org-7"), "topics_org-7");
}

#[test]
fn collection_name_empty_tenant_maps_to_all() {
    assert_eq!(collection_name(Kind::Entity, ""), "entities_all");
    assert_eq!(collection_name(Kind::Relation, ""), "relations_all");
    assert_eq!(collection_name(Kind::Topic, ""), "topics_all");
}

#[test]
fn collection_name_is_deterministic() {
    assert_eq!(
        collection_name(Kind::Topic, "org1"),
        collection_name(Kind::Topic, "org1")
    );
}

#[test]
fn collection_name_no_collision_with_all() {
    // Non-empty tenants other than "all" never land in the shared
    // collection.
    for tenant in ["org1", "al", "allx", "a"] {
        assert_ne!(
            collection_name(Kind::Entity, tenant),
            collection_name(Kind::Entity, "")
        );
    }
}

#[test]
fn design_docs_share_one_collection() {
    assert_eq!(collection_name(Kind::DesignDoc, ""), "design_docs");
    assert_eq!(collection_name(Kind::DesignDoc, "org1"), "design_docs");
}

#[test]
fn tenant_collections_for_teardown() {
    let names = tenant_collection_names("org9");
    assert_eq!(names, vec!["topics_org9", "entities_org9", "relations_org9"]);
    let shared = tenant_collection_names("");
    assert_eq!(shared, vec!["topics_all", "entities_all", "relations_all"]);
}

#[test]
fn substring_search() {
    assert!(contains_sub("no such table: acquire_write", "acquire_write"));
    assert!(contains_sub("abc", ""));
    assert!(!contains_sub("ab", "abc"));
    assert!(!contains_sub("nginx: worker process", "chroma"));
    assert!(contains_sub("xxchromayy", "chroma"));
}

#[test]
fn string_equality() {
    assert!(str_eq("abc", "abc"));
    assert!(!str_eq("abc", "abd"));
    assert!(!str_eq("abc", "ab"));
    assert!(str_eq("", ""));
}

#[test]
fn decimal_parsing() {
    assert_eq!(parse_u16("8001"), Some(8001));
    assert_eq!(parse_u16("0"), Some(0));
    assert_eq!(parse_u16("65535"), Some(65535));
    assert_eq!(parse_u16("65536"), None);
    assert_eq!(parse_u16(""), None);
    assert_eq!(parse_u16("80a1"), None);
    assert_eq!(parse_u16("-1"), None);
    assert_eq!(parse_u32("4294967295"), Some(4294967295));
    assert_eq!(parse_u32("4294967296"), None);
    assert_eq!(parse_u32("1234"), Some(1234));
}

#[test]
fn decimal_rendering() {
    assert_eq!(u16_to_string(0), "0");
    assert_eq!(u16_to_string(8001), "8001");
    assert_eq!(u16_to_string(65535), "65535");
    assert_eq!(u16_to_string(7), "7");
}

#[test]
fn port_override_resolution() {
    assert_eq!(resolve_port(&None), DEFAULT_PORT);
    assert_eq!(resolve_port(&Some("9005".to_string())), 9005);
    assert_eq!(resolve_port(&Some("not-a-port".to_string())), 8001);
    assert_eq!(resolve_port(&Some("".to_string())), 8001);
    assert_eq!(resolve_port(&Some("70000".to_string())), 8001);
}

#[test]
fn data_dir_per_platform() {
    let home = Some("/home/u".to_string());
    assert_eq!(
        default_data_dir(&home, Platform::Linux, false).unwrap(),
        "/home/u/.local/share/network-mock-local/chromadb"
    );
    assert_eq!(
        default_data_dir(&home, Platform::MacOs, true).unwrap(),
        "/home/u/Library/Application Support/network-mock-local-dev/chromadb"
    );
    assert_eq!(
        default_data_dir(&home, Platform::Windows, false).unwrap(),
        "/home/u/AppData/Roaming/network-mock-local/chromadb"
    );
    assert_eq!(
        default_data_dir(&home, Platform::Other, false).unwrap(),
        "/home/u/.mission-ai/network-mock-local/chromadb"
    );
}

#[test]
fn data_dir_without_home_is_an_error() {
    let r = default_data_dir(&None, Platform::Linux, false);
    assert!(matches!(r, Err(StoreError::OperationFailed(_))));
}

//! The stored records for graph-diagram files: the editable YAML source and
//! the DOT text generated from it. The system of record owns these rows;
//! the embedding store only indexes their searchable text, keyed by their
//! ids, so the fields here are plain data.

use vstd::prelude::*;

verus! {

/// One editable graph description, with its sync state toward the embedding
/// store.
#[derive(Debug, Clone, PartialEq)]
pub struct GraphvizYamlFile {
    pub id: String,
    pub name: String,
    pub description: Option<String>,
    pub yaml_content: String,
    pub yaml_schema: Option<String>,
    pub yaml_type: Option<String>,
    pub organization_id: Option<String>,
    pub tags: Option<String>,
    pub version: i32,
    pub parent_yaml_file_id: Option<String>,
    pub searchable_text: Option<String>,
    pub semantic_category: Option<String>,
    pub keywords: Option<String>,
    pub content_summary: Option<String>,
    pub chroma_synced: i32,
    pub chroma_sync_error: Option<String>,
    pub last_chroma_sync_attempt: Option<String>,
    pub last_search_date: Option<String>,
    pub search_count: i32,
    pub created_at: String,
    pub updated_at: String,
}

/// One rendered graph, generated from a YAML file, with its sync state
/// toward the embedding store.
#[derive(Debug, Clone, PartialEq)]
pub struct GraphvizDotFile {
    pub id: String,
    pub yaml_file_id: String,
    pub name: String,
    pub description: Option<String>,
    pub dot_content: String,
    pub graph_type: String,
    pub view_type: Option<String>,
    pub node_count: Option<i32>,
    pub edge_count: Option<i32>,
    pub organization_id: Option<String>,
    pub tags: Option<String>,
    pub version: i32,
    pub parent_dot_file_id: Option<String>,
    pub searchable_text: Option<String>,
    pub chroma_synced: i32,
    pub chroma_sync_error: Option<String>,
    pub last_chroma_sync_attempt: Option<String>,
    pub last_search_date: Option<String>,
    pub search_count: i32,
    pub created_at: String,
    pub updated_at: String,
}

} // verus!

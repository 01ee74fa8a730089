//! The typed surface of the embedding store: building the requests the
//! external server is sent for each object kind, and interpreting what it
//! answers. Every request carries the collection its (kind, tenant) pair
//! routes to, metadata tagged with the object's ids, and no nulls.

use vstd::prelude::*;

use crate::collection::EmbeddingRecord;
use crate::errors::StoreError;
use crate::meta::{
    spec_scrub_value, MetaScalar, MetaScalarView, MetaValue, MetaValueView, Metadata,
};
use crate::ranking::{Scored, ScoredId};
use crate::router::{collection_name, spec_collection_name, Kind};
use crate::similarity::{similarity_from_distance, spec_similarity};

verus! {

/// An upsert the driver sends: store `record` under `id` in `collection`.
pub struct UpsertRequest {
    pub collection: String,
    pub id: String,
    pub record: EmbeddingRecord,
}

/// A get by id.
pub struct GetRequest {
    pub collection: String,
    pub id: String,
}

/// A delete by id.
pub struct DeleteRequest {
    pub collection: String,
    pub id: String,
}

/// A similarity query: at most `limit` results, optionally filtered to one
/// section id (the one metadata filter the protocol supports exactly).
pub struct QueryRequest {
    pub collection: String,
    pub limit: usize,
    pub section_filter: Option<String>,
}

/// A topic search result, enriched with the fields topic callers read from
/// metadata.
#[derive(Debug, Clone, PartialEq)]
pub struct TopicSearchResult {
    pub topic_id: String,
    pub meeting_note_id: Option<String>,
    pub regulation_id: Option<String>,
    pub similarity: u64,
    pub title: String,
    pub content_summary: String,
    pub organization_id: Option<String>,
}

impl Scored for TopicSearchResult {
    open spec fn score(&self) -> u64 {
        self.similarity
    }

    fn similarity_score(&self) -> u64 {
        self.similarity
    }
}

/// The string a metadata map holds under `k`: empty when the key is absent
/// or holds anything but a string.
pub open spec fn spec_meta_str(m: Map<Seq<char>, MetaValueView>, k: Seq<char>) -> Seq<char> {
    if m.contains_key(k) {
        match m[k] {
            MetaValueView::Scalar(MetaScalarView::Str(s)) => s,
            _ => Seq::<char>::empty(),
        }
    } else {
        Seq::<char>::empty()
    }
}

/// The string a metadata map holds under `k`, or nothing when the key is
/// absent or holds anything but a string.
pub open spec fn spec_meta_opt_str(m: Map<Seq<char>, MetaValueView>, k: Seq<char>) -> Option<
    Seq<char>,
> {
    if m.contains_key(k) {
        match m[k] {
            MetaValueView::Scalar(MetaScalarView::Str(s)) => Option::Some(s),
            _ => Option::None,
        }
    } else {
        Option::None
    }
}

/// An optional string, viewed.
pub open spec fn opt_view(o: Option<String>) -> Option<Seq<char>> {
    match o {
        Option::Some(s) => Option::Some(s@),
        Option::None => Option::None,
    }
}

/// Reads the string under `key`, empty when absent or not a string.
pub fn meta_str(meta: &Metadata, key: &str) -> (r: String)
    requires
        meta.wf(),
    ensures
        r@ == spec_meta_str(meta@, key@),
{
    match meta.get(key) {
        Option::Some(MetaValue::Scalar(MetaScalar::Str(s))) => s.clone(),
        _ => String::new(),
    }
}

/// Reads the string under `key`, or nothing when absent or not a string.
pub fn meta_opt_str(meta: &Metadata, key: &str) -> (r: Option<String>)
    requires
        meta.wf(),
    ensures
        opt_view(r) == spec_meta_opt_str(meta@, key@),
{
    match meta.get(key) {
        Option::Some(MetaValue::Scalar(MetaScalar::Str(s))) => Option::Some(s.clone()),
        _ => Option::None,
    }
}

/// The title a topic is stored under: the given title if non-empty; else
/// the first fifty characters of the summary with an ellipsis marker (the
/// whole summary when it is that short); else a placeholder built from the
/// topic id.
pub open spec fn spec_topic_title(
    title: Seq<char>,
    summary: Seq<char>,
    topic_id: Seq<char>,
) -> Seq<char> {
    if title.len() > 0 {
        title
    } else if summary.len() > 0 {
        if summary.len() > 50 {
            summary.take(50) + "..."@
        } else {
            summary
        }
    } else {
        "トピック "@ + topic_id
    }
}

/// Derives the stored title for a topic whose own title may be empty.
pub fn derive_topic_title(title: &str, content_summary: &str, topic_id: &str) -> (r: String)
    ensures
        r@ == spec_topic_title(title@, content_summary@, topic_id@),
{
    if title.unicode_len() > 0 {
        title.to_owned()
    } else {
        let n = content_summary.unicode_len();
        if n > 50 {
            let head = content_summary.substring_char(0, 50);
            proof {
                assert(head@ =~= content_summary@.take(50));
            }
            head.to_owned().concat("...")
        } else if n > 0 {
            content_summary.to_owned()
        } else {
            String::from_str("トピック ").concat(topic_id)
        }
    }
}

/// A string metadata value.
fn str_value(s: String) -> (r: MetaValue)
    ensures
        r@ == MetaValueView::Scalar(MetaScalarView::Str(s@)),
{
    MetaValue::Scalar(MetaScalar::Str(s))
}

/// The metadata an entity or relation upsert stores: the caller's metadata
/// tagged with the object id under `id_key` and the tenant id, then
/// scrubbed of nulls.
pub open spec fn spec_tagged_meta(
    m: Map<Seq<char>, MetaValueView>,
    id_key: Seq<char>,
    id: Seq<char>,
    org: Seq<char>,
) -> Map<Seq<char>, MetaValueView> {
    m.insert(id_key, MetaValueView::Scalar(MetaScalarView::Str(id))).insert(
        "organizationId"@,
        MetaValueView::Scalar(MetaScalarView::Str(org)),
    ).map_values(|v: MetaValueView| spec_scrub_value(v))
}

/// The metadata a topic upsert stores: tagged with the topic id and tenant
/// id, given a non-empty title (derived when the stored one is empty),
/// tagged with its parent note or regulation when one is given, and
/// scrubbed of nulls.
pub open spec fn spec_topic_meta(
    m: Map<Seq<char>, MetaValueView>,
    topic_id: Seq<char>,
    org: Seq<char>,
    note: Option<Seq<char>>,
    regulation: Option<Seq<char>>,
) -> Map<Seq<char>, MetaValueView> {
    let m1 = m.insert("topicId"@, MetaValueView::Scalar(MetaScalarView::Str(topic_id))).insert(
        "organizationId"@,
        MetaValueView::Scalar(MetaScalarView::Str(org)),
    );
    let m2 = m1.insert(
        "title"@,
        MetaValueView::Scalar(
            MetaScalarView::Str(
                spec_topic_title(
                    spec_meta_str(m1, "title"@),
                    spec_meta_str(m1, "contentSummary"@),
                    topic_id,
                ),
            ),
        ),
    );
    let m3 = match note {
        Option::Some(n) => m2.insert(
            "meetingNoteId"@,
            MetaValueView::Scalar(MetaScalarView::Str(n)),
        ),
        Option::None => m2,
    };
    let m4 = match regulation {
        Option::Some(g) => m3.insert(
            "regulationId"@,
            MetaValueView::Scalar(MetaScalarView::Str(g)),
        ),
        Option::None => m3,
    };
    m4.map_values(|v: MetaValueView| spec_scrub_value(v))
}

/// The metadata a design-doc upsert stores: tagged with the section id and
/// scrubbed of nulls.
pub open spec fn spec_section_meta(
    m: Map<Seq<char>, MetaValueView>,
    section_id: Seq<char>,
) -> Map<Seq<char>, MetaValueView> {
    m.insert("sectionId"@, MetaValueView::Scalar(MetaScalarView::Str(section_id))).map_values(
        |v: MetaValueView| spec_scrub_value(v),
    )
}

/// Builds the upsert for an entity embedding.
pub fn build_entity_upsert(
    entity_id: String,
    organization_id: String,
    vector: Vec<i64>,
    metadata: Metadata,
) -> (r: UpsertRequest)
    requires
        metadata.wf(),
    ensures
        r.collection@ == spec_collection_name(Kind::Entity, organization_id@),
        r.id@ == entity_id@,
        r.record.wf(),
        r.record@.vector == vector@,
        r.record@.metadata == spec_tagged_meta(
            metadata@,
            "entityId"@,
            entity_id@,
            organization_id@,
        ),
{
    let collection = collection_name(Kind::Entity, organization_id.as_str());
    let mut md = metadata;
    md.insert("entityId".to_owned(), str_value(entity_id.clone()));
    md.insert("organizationId".to_owned(), str_value(organization_id));
    let md = md.scrub();
    UpsertRequest { collection, id: entity_id, record: EmbeddingRecord { vector, metadata: md } }
}

/// Builds the upsert for a relation embedding.
pub fn build_relation_upsert(
    relation_id: String,
    organization_id: String,
    vector: Vec<i64>,
    metadata: Metadata,
) -> (r: UpsertRequest)
    requires
        metadata.wf(),
    ensures
        r.collection@ == spec_collection_name(Kind::Relation, organization_id@),
        r.id@ == relation_id@,
        r.record.wf(),
        r.record@.vector == vector@,
        r.record@.metadata == spec_tagged_meta(
            metadata@,
            "relationId"@,
            relation_id@,
            organization_id@,
        ),
{
    let collection = collection_name(Kind::Relation, organization_id.as_str());
    let mut md = metadata;
    md.insert("relationId".to_owned(), str_value(relation_id.clone()));
    md.insert("organizationId".to_owned(), str_value(organization_id));
    let md = md.scrub();
    UpsertRequest { collection, id: relation_id, record: EmbeddingRecord { vector, metadata: md } }
}

/// Builds the upsert for a topic embedding, deriving a title when the
/// stored one is empty and tagging the parent note or regulation.
pub fn build_topic_upsert(
    topic_id: String,
    meeting_note_id: Option<String>,
    organization_id: String,
    vector: Vec<i64>,
    metadata: Metadata,
    regulation_id: Option<String>,
) -> (r: UpsertRequest)
    requires
        metadata.wf(),
    ensures
        r.collection@ == spec_collection_name(Kind::Topic, organization_id@),
        r.id@ == topic_id@,
        r.record.wf(),
        r.record@.vector == vector@,
        r.record@.metadata == spec_topic_meta(
            metadata@,
            topic_id@,
            organization_id@,
            opt_view(meeting_note_id),
            opt_view(regulation_id),
        ),
{
    let collection = collection_name(Kind::Topic, organization_id.as_str());
    let mut md = metadata;
    md.insert("topicId".to_owned(), str_value(topic_id.clone()));
    md.insert("organizationId".to_owned(), str_value(organization_id));
    let stored_title = meta_str(&md, "title");
    let summary = meta_str(&md, "contentSummary");
    let title = derive_topic_title(stored_title.as_str(), summary.as_str(), topic_id.as_str());
    md.insert("title".to_owned(), str_value(title));
    match &meeting_note_id {
        Option::Some(n) => md.insert("meetingNoteId".to_owned(), str_value(n.clone())),
        Option::None => (),
    }
    match &regulation_id {
        Option::Some(g) => md.insert("regulationId".to_owned(), str_value(g.clone())),
        Option::None => (),
    }
    let md = md.scrub();
    UpsertRequest { collection, id: topic_id, record: EmbeddingRecord { vector, metadata: md } }
}

/// Builds the upsert for a design-doc section embedding; all sections share
/// one collection.
pub fn build_design_doc_upsert(section_id: String, vector: Vec<i64>, metadata: Metadata) -> (r:
    UpsertRequest)
    requires
        metadata.wf(),
    ensures
        r.collection@ == spec_collection_name(Kind::DesignDoc, Seq::<char>::empty()),
        r.id@ == section_id@,
        r.record.wf(),
        r.record@.vector == vector@,
        r.record@.metadata == spec_section_meta(metadata@, section_id@),
{
    let collection = collection_name(Kind::DesignDoc, "");
    let mut md = metadata;
    md.insert("sectionId".to_owned(), str_value(section_id.clone()));
    let md = md.scrub();
    UpsertRequest { collection, id: section_id, record: EmbeddingRecord { vector, metadata: md } }
}

/// Builds the get for one record of a kind and tenant.
pub fn build_get(kind: Kind, id: String, tenant: &str) -> (r: GetRequest)
    ensures
        r.collection@ == spec_collection_name(kind, tenant@),
        r.id@ == id@,
{
    GetRequest { collection: collection_name(kind, tenant), id }
}

/// Builds the delete for one record of a kind and tenant.
pub fn build_delete(kind: Kind, id: String, tenant: &str) -> (r: DeleteRequest)
    ensures
        r.collection@ == spec_collection_name(kind, tenant@),
        r.id@ == id@,
{
    DeleteRequest { collection: collection_name(kind, tenant), id }
}

/// Builds the similarity query against one collection.
pub fn build_query(collection: String, limit: usize) -> (r: QueryRequest)
    ensures
        r.collection@ == collection@,
        r.limit == limit,
        r.section_filter is None,
{
    QueryRequest { collection, limit, section_filter: Option::None }
}

/// Builds the design-doc similarity query. Only the section-id filter is
/// sent: the protocol's metadata filter is exact-match only, so a tag list
/// cannot be filtered server-side and is ignored, as the callers expect.
pub fn build_design_doc_query(
    limit: usize,
    section_id: Option<String>,
    tags: Option<Vec<String>>,
) -> (r: QueryRequest)
    ensures
        r.collection@ == spec_collection_name(Kind::DesignDoc, Seq::<char>::empty()),
        r.limit == limit,
        opt_view(r.section_filter) == opt_view(section_id),
{
    let _ = tags;
    QueryRequest {
        collection: collection_name(Kind::DesignDoc, ""),
        limit,
        section_filter: section_id,
    }
}

/// The collection a count runs against: counting requires a named tenant.
pub fn build_count(kind: Kind, tenant: &Option<String>) -> (r: Result<String, StoreError>)
    ensures
        match tenant {
            Option::Some(t) if t@.len() > 0 => r is Ok && r->Ok_0@ == spec_collection_name(
                kind,
                t@,
            ),
            _ => r is Err && r->Err_0 is OperationFailed,
        },
{
    match tenant {
        Option::Some(t) => {
            if t.unicode_len() > 0 {
                Result::Ok(collection_name(kind, t.as_str()))
            } else {
                Result::Err(StoreError::OperationFailed("no tenant id was given".to_owned()))
            }
        },
        Option::None => Result::Err(
            StoreError::OperationFailed("no tenant id was given".to_owned()),
        ),
    }
}

/// Turns the ids and distances one query answered into scored results:
/// each id paired with `max(0, 1 - distance)`, and ids beyond the distance
/// list (or distances beyond the id list) dropped.
pub fn hits_from_distances(ids: Vec<String>, distances: Vec<u64>) -> (r: Vec<ScoredId>)
    ensures
        r@.len() == if ids@.len() < distances@.len() {
            ids@.len() as int
        } else {
            distances@.len() as int
        },
        forall|i: int| 0 <= i < r@.len()
            ==> (#[trigger] r@[i]).id@ == ids@[i]@ && r@[i].similarity as int == spec_similarity(
                distances@[i] as int,
            ),
{
    let n = if ids.len() < distances.len() {
        ids.len()
    } else {
        distances.len()
    };
    let ghost ids0 = ids@;
    let mut rest = ids;
    let mut r: Vec<ScoredId> = Vec::new();
    let mut i: usize = 0;
    while i < n
        invariant
            i <= n,
            n <= ids0.len(),
            n <= distances@.len(),
            rest@ =~= ids0.skip(i as int),
            r@.len() == i,
            forall|k: int| 0 <= k < i
                ==> (#[trigger] r@[k]).id@ == ids0[k]@ && r@[k].similarity as int
                    == spec_similarity(distances@[k] as int),
        decreases n - i,
    {
        let id = rest.remove(0);
        proof {
            assert(id == ids0[i as int]);
        }
        let s = similarity_from_distance(distances[i]);
        r.push(ScoredId { id, similarity: s });
        i += 1;
        proof {
            assert(rest@ =~= ids0.skip(i as int));
        }
    }
    r
}

/// Turns one topic query's answer into enriched results: similarity from
/// the distance, and title, summary, tenant and parent ids read from each
/// record's metadata (absent or non-string fields read as empty or absent).
pub fn topic_hits_from_response(
    ids: Vec<String>,
    distances: Vec<u64>,
    metadatas: Vec<Option<Metadata>>,
) -> (r: Vec<TopicSearchResult>)
    requires
        forall|i: int| 0 <= i < metadatas@.len() ==> match #[trigger] metadatas@[i] {
            Option::Some(m) => m.wf(),
            Option::None => true,
        },
    ensures
        r@.len() == if ids@.len() < distances@.len() {
            ids@.len() as int
        } else {
            distances@.len() as int
        },
        forall|i: int| 0 <= i < r@.len() ==> {
            let md = spec_response_meta(metadatas@, i);
            (#[trigger] r@[i]).topic_id@ == ids@[i]@
                && r@[i].similarity as int == spec_similarity(distances@[i] as int)
                && r@[i].title@ == spec_meta_str(md, "title"@)
                && r@[i].content_summary@ == spec_meta_str(md, "contentSummary"@)
                && opt_view(r@[i].meeting_note_id) == spec_meta_opt_str(md, "meetingNoteId"@)
                && opt_view(r@[i].regulation_id) == spec_meta_opt_str(md, "regulationId"@)
                && opt_view(r@[i].organization_id) == spec_meta_opt_str(md, "organizationId"@)
        },
{
    let n = if ids.len() < distances.len() {
        ids.len()
    } else {
        distances.len()
    };
    let ghost ids0 = ids@;
    let mut rest = ids;
    let mut r: Vec<TopicSearchResult> = Vec::new();
    let mut i: usize = 0;
    while i < n
        invariant
            i <= n,
            n <= ids0.len(),
            n <= distances@.len(),
            rest@ =~= ids0.skip(i as int),
            r@.len() == i,
            forall|k: int| 0 <= k < metadatas@.len() ==> match #[trigger] metadatas@[k] {
                Option::Some(m) => m.wf(),
                Option::None => true,
            },
            forall|k: int| 0 <= k < i ==> {
                let md = spec_response_meta(metadatas@, k);
                (#[trigger] r@[k]).topic_id@ == ids0[k]@
                    && r@[k].similarity as int == spec_similarity(distances@[k] as int)
                    && r@[k].title@ == spec_meta_str(md, "title"@)
                    && r@[k].content_summary@ == spec_meta_str(md, "contentSummary"@)
                    && opt_view(r@[k].meeting_note_id) == spec_meta_opt_str(md, "meetingNoteId"@)
                    && opt_view(r@[k].regulation_id) == spec_meta_opt_str(md, "regulationId"@)
                    && opt_view(r@[k].organization_id) == spec_meta_opt_str(
                    md,
                    "organizationId"@,
                )
            },
        decreases n - i,
    {
        let topic_id = rest.remove(0);
        proof {
            assert(topic_id == ids0[i as int]);
        }
        let s = similarity_from_distance(distances[i]);
        let empty_md = Metadata::new();
        let md: &Metadata = if i < metadatas.len() {
            match &metadatas[i] {
                Option::Some(m) => m,
                Option::None => &empty_md,
            }
        } else {
            &empty_md
        };
        proof {
            assert(md@ == spec_response_meta(metadatas@, i as int));
        }
        let hit = TopicSearchResult {
            topic_id,
            meeting_note_id: meta_opt_str(md, "meetingNoteId"),
            regulation_id: meta_opt_str(md, "regulationId"),
            similarity: s,
            title: meta_str(md, "title"),
            content_summary: meta_str(md, "contentSummary"),
            organization_id: meta_opt_str(md, "organizationId"),
        };
        r.push(hit);
        i += 1;
        proof {
            assert(rest@ =~= ids0.skip(i as int));
        }
    }
    r
}

/// The metadata the response carries at position `i`: the empty map when
/// the position is missing or empty.
pub open spec fn spec_response_meta(metadatas: Seq<Option<Metadata>>, i: int) -> Map<
    Seq<char>,
    MetaValueView,
> {
    if 0 <= i < metadatas.len() {
        match metadatas[i] {
            Option::Some(m) => m@,
            Option::None => Map::empty(),
        }
    } else {
        Map::empty()
    }
}

/// What a get-by-id answered, as plain values: the embedding if the
/// response carried one, and the metadata if it carried any.
#[derive(Debug, Clone, PartialEq)]
pub struct FetchedRecord {
    pub vector: Option<Vec<i64>>,
    pub metadata: Option<Metadata>,
}

/// Interprets a get-by-id response: an empty id list is an absent record,
/// not an error; a found row carries its embedding and metadata; a row with
/// neither an embedding nor any metadata key also reads as absent.
pub fn interpret_get_response(
    id_count: usize,
    vector: Option<Vec<i64>>,
    metadata: Option<Metadata>,
) -> (r: Option<FetchedRecord>)
    requires
        metadata matches Option::Some(m) ==> m.wf(),
    ensures
        ({
            let has_content = vector is Some || (metadata matches Option::Some(m) && m@.dom().len()
                > 0);
            &&& (r is Some <==> id_count > 0 && has_content)
            &&& (r matches Option::Some(f) ==> f.vector == vector && f.metadata == metadata)
        }),
{
    let has_vector = vector.is_some();
    let meta_keys: usize = match &metadata {
        Option::Some(m) => m.entry_count(),
        Option::None => 0,
    };
    if id_count > 0 && (has_vector || meta_keys > 0) {
        Option::Some(FetchedRecord { vector, metadata })
    } else {
        Option::None
    }
}

/// Interprets a design-doc metadata get: found metadata is scrubbed of the
/// nulls the response may carry; an absent record is the one error this
/// lookup reports.
pub fn interpret_design_doc_get(metadata: Option<Metadata>) -> (r: Result<Metadata, StoreError>)
    requires
        match metadata {
            Option::Some(m) => m.wf(),
            Option::None => true,
        },
    ensures
        match metadata {
            Option::Some(m) => r is Ok && r->Ok_0.wf() && r->Ok_0@ == m@.map_values(
                |v: MetaValueView| spec_scrub_value(v),
            ),
            Option::None => r is Err && r->Err_0 is OperationFailed,
        },
{
    match metadata {
        Option::Some(m) => Result::Ok(m.scrub()),
        Option::None => Result::Err(
            StoreError::OperationFailed("no metadata was found for the section".to_owned()),
        ),
    }
}

} // verus!

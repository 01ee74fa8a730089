//! Maps a (kind, tenant) pair to the name of the collection that holds the
//! embeddings for that pair, and enumerates the per-tenant collection names
//! that belong to one tenant.

use vstd::prelude::*;

verus! {

/// The kinds of domain objects the store indexes. Entities, relations and
/// topics are sharded into one collection per tenant; design-doc sections
/// share a single collection.
#[derive(Clone, Copy, Debug, PartialEq, Eq, Structural)]
pub enum Kind {
    Entity,
    Relation,
    Topic,
    DesignDoc,
}

/// The collection-name prefix for a kind.
pub open spec fn spec_kind_prefix(kind: Kind) -> Seq<char> {
    match kind {
        Kind::Entity => "entities"@,
        Kind::Relation => "relations"@,
        Kind::Topic => "topics"@,
        Kind::DesignDoc => "design_docs"@,
    }
}

/// True for the kinds that are sharded into one collection per tenant.
pub open spec fn spec_sharded(kind: Kind) -> bool {
    kind != Kind::DesignDoc
}

/// The collection name for a kind and tenant: `{prefix}_{tenant}`, or
/// `{prefix}_all` when the tenant id is empty. Design-doc sections always
/// live in the single `design_docs` collection.
pub open spec fn spec_collection_name(kind: Kind, tenant: Seq<char>) -> Seq<char> {
    if kind == Kind::DesignDoc {
        "design_docs"@
    } else if tenant.len() == 0 {
        spec_kind_prefix(kind) + "_all"@
    } else {
        spec_kind_prefix(kind) + "_"@ + tenant
    }
}

pub fn kind_prefix(kind: Kind) -> (r: &'static str)
    ensures
        r@ == spec_kind_prefix(kind),
{
    match kind {
        Kind::Entity => "entities",
        Kind::Relation => "relations",
        Kind::Topic => "topics",
        Kind::DesignDoc => "design_docs",
    }
}

/// Derives the collection name for `kind` and `tenant`; an empty tenant id
/// falls back to the shared `_all` collection of that kind.
pub fn collection_name(kind: Kind, tenant: &str) -> (r: String)
    ensures
        r@ == spec_collection_name(kind, tenant@),
{
    let prefix = kind_prefix(kind);
    match kind {
        Kind::DesignDoc => prefix.to_owned(),
        _ => {
            if tenant.unicode_len() == 0 {
                prefix.to_owned().concat("_all")
            } else {
                prefix.to_owned().concat("_").concat(tenant)
            }
        },
    }
}

/// The names of the three sharded collections that belong to one tenant,
/// used when a tenant is deleted and its collections are torn down.
pub fn tenant_collection_names(tenant: &str) -> (r: Vec<String>)
    ensures
        r@.len() == 3,
        r@[0]@ == spec_collection_name(Kind::Topic, tenant@),
        r@[1]@ == spec_collection_name(Kind::Entity, tenant@),
        r@[2]@ == spec_collection_name(Kind::Relation, tenant@),
{
    let mut names: Vec<String> = Vec::new();
    names.push(collection_name(Kind::Topic, tenant));
    names.push(collection_name(Kind::Entity, tenant));
    names.push(collection_name(Kind::Relation, tenant));
    names
}

/// A non-empty tenant id other than `"all"` never maps to the same
/// collection as the empty tenant: per-tenant collections cannot collide
/// with the shared `_all` collection of the same kind. (The tenant id
/// `"all"` itself is the one exception: it names the shared collection.)
pub proof fn lemma_tenant_no_collision_with_all(kind: Kind, tenant: Seq<char>)
    requires
        spec_sharded(kind),
        tenant.len() > 0,
        tenant != "all"@,
    ensures
        spec_collection_name(kind, tenant) != spec_collection_name(kind, Seq::<char>::empty()),
{
    reveal_strlit("_all");
    reveal_strlit("_");
    reveal_strlit("all");
    let prefix = spec_kind_prefix(kind);
    let with_tenant = prefix + "_"@ + tenant;
    let with_all = prefix + "_all"@;
    if with_tenant == with_all {
        assert(with_tenant.len() == with_all.len());
        assert(prefix.len() + 1 + tenant.len() == prefix.len() + 4);
        assert(tenant.len() == 3);
        assert forall|i: int| 0 <= i < 3 implies tenant[i] == "all"@[i] by {
            assert(with_tenant[prefix.len() + 1 + i] == tenant[i]);
            assert(with_all[prefix.len() + 1 + i] == "_all"@[1 + i]);
        }
        assert(tenant =~= "all"@);
    }
}

} // verus!

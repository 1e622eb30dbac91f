use vstd::prelude::*;

use crate::text::{owned, push_str, views};

verus! {

/// The first of `required` that `present` lacks, if any.
pub open spec fn first_missing(required: Seq<Seq<char>>, present: Seq<Seq<char>>) -> Option<Seq<char>>
    decreases required.len(),
{
    if required.len() == 0 {
        None
    } else if !present.contains(required[0]) {
        Some(required[0])
    } else {
        first_missing(required.drop_first(), present)
    }
}

/// The columns the `semantic_builds` table must have.
pub open spec fn build_columns() -> Seq<Seq<char>> {
    seq!["snapshot_id"@, "repo_id"@, "semantic_build_id"@, "semantic_config_digest"@, "schema_version"@,
        "chunk_schema_version"@, "embedding_model_id"@, "embedding_model_digest"@, "symbol_index_build_id"@,
        "created_at"@, "refresh_mode"@, "chunk_count"@, "indexed_file_count"@, "embedding_count"@, "build_json"@]
}

/// The columns the `semantic_chunks` table must have.
pub open spec fn chunk_columns() -> Seq<Seq<char>> {
    seq!["snapshot_id"@, "semantic_build_id"@, "chunk_id"@, "path"@, "chunk_kind"@, "source_kind"@,
        "symbol_id"@, "text_digest"@, "content_sha256"@, "record_json"@]
}

/// The columns the `semantic_vector_index_metadata` table must have.
pub open spec fn index_metadata_columns() -> Seq<Seq<char>> {
    seq!["snapshot_id"@, "semantic_build_id"@, "index_kind"@, "index_schema_version"@, "vector_dimensions"@,
        "normalized"@, "indexed_vector_count"@, "created_at"@]
}

/// The columns the `semantic_chunk_vectors` table must have.
pub open spec fn chunk_vector_columns() -> Seq<Seq<char>> {
    seq!["snapshot_id"@, "semantic_build_id"@, "chunk_id"@, "cache_key"@, "vector_json"@]
}

/// The columns the `embedding_cache` table must have.
pub open spec fn embedding_cache_columns() -> Seq<Seq<char>> {
    seq!["cache_key"@, "input_kind"@, "provider_kind"@, "provider_id"@, "provider_version"@, "model_id"@,
        "model_digest"@, "provider_config_digest"@, "text_digest"@, "dimensions"@, "normalized"@, "vector_json"@,
        "stored_at"@]
}

/// The first required column missing from a table, named `table.column`.
pub open spec fn table_problem(table: Seq<char>, required: Seq<Seq<char>>, present: Seq<Seq<char>>) -> Option<Seq<char>> {
    match first_missing(required, present) {
        Some(c) => Some(table + "."@ + c),
        None => None,
    }
}

/// The first problem of a semantic store schema, tables checked in a fixed order.
pub open spec fn schema_problem(
    builds: Seq<Seq<char>>,
    chunks: Seq<Seq<char>>,
    index_metadata: Seq<Seq<char>>,
    chunk_vectors: Seq<Seq<char>>,
    embedding_cache: Seq<Seq<char>>,
) -> Option<Seq<char>> {
    if table_problem("semantic_builds"@, build_columns(), builds) is Some {
        table_problem("semantic_builds"@, build_columns(), builds)
    } else if table_problem("semantic_chunks"@, chunk_columns(), chunks) is Some {
        table_problem("semantic_chunks"@, chunk_columns(), chunks)
    } else if table_problem("semantic_vector_index_metadata"@, index_metadata_columns(), index_metadata) is Some {
        table_problem("semantic_vector_index_metadata"@, index_metadata_columns(), index_metadata)
    } else if table_problem("semantic_chunk_vectors"@, chunk_vector_columns(), chunk_vectors) is Some {
        table_problem("semantic_chunk_vectors"@, chunk_vector_columns(), chunk_vectors)
    } else {
        table_problem("embedding_cache"@, embedding_cache_columns(), embedding_cache)
    }
}

fn contains_column(present: &Vec<String>, name: &str) -> (r: bool)
    ensures
        r == views(present@).contains(name@),
{
    let wanted = name.to_owned();
    let mut i: usize = 0;
    while i < present.len()
        invariant
            0 <= i <= present@.len(),
            wanted@ == name@,
            forall|k: int| 0 <= k < i ==> present@[k]@ != name@,
        decreases present@.len() - i,
    {
        if present[i] == wanted {
            assert(views(present@)[i as int] == name@);
            return true;
        }
        i = i + 1;
    }
    assert(!views(present@).contains(name@)) by {
        if views(present@).contains(name@) {
            let k = choose|k: int| 0 <= k < views(present@).len() && views(present@)[k] == name@;
            assert(present@[k]@ == name@);
        }
    }
    false
}

fn check_table(table: &str, required: Vec<&'static str>, present: &Vec<String>) -> (r: Option<String>)
    ensures
        crate::text::opt_view(r) == table_problem(table@, crate::planner::route_adapters::str_views(required@), views(present@)),
{
    let ghost req = crate::planner::route_adapters::str_views(required@);
    assert(req.subrange(0, req.len() as int) =~= req);
    let mut i: usize = 0;
    while i < required.len()
        invariant
            0 <= i <= required@.len(),
            req == crate::planner::route_adapters::str_views(required@),
            first_missing(req, views(present@)) == first_missing(req.subrange(i as int, req.len() as int), views(present@)),
        decreases required@.len() - i,
    {
        let ghost rest = req.subrange(i as int, req.len() as int);
        assert(rest[0] == required@[i as int]@);
        assert(rest.drop_first() =~= req.subrange(i + 1, req.len() as int));
        if !contains_column(present, required[i]) {
            let mut r = owned(table);
            push_str(&mut r, ".");
            push_str(&mut r, required[i]);
            return Some(r);
        }
        i = i + 1;
    }
    assert(req.subrange(req.len() as int, req.len() as int) =~= Seq::<Seq<char>>::empty());
    None
}

/// Checks the columns read from a semantic store's tables: the first required column
/// that a table lacks, tables and columns taken in a fixed order, is reported as
/// `table.column`.
pub fn validate_schema_columns(
    builds: &Vec<String>,
    chunks: &Vec<String>,
    index_metadata: &Vec<String>,
    chunk_vectors: &Vec<String>,
    embedding_cache: &Vec<String>,
) -> (r: Result<(), String>)
    ensures
        match r {
            Ok(()) => schema_problem(views(builds@), views(chunks@), views(index_metadata@), views(chunk_vectors@),
                views(embedding_cache@)) is None,
            Err(e) => schema_problem(views(builds@), views(chunks@), views(index_metadata@), views(chunk_vectors@),
                views(embedding_cache@)) == Some(e@),
        },
{
    let b = vec!["snapshot_id", "repo_id", "semantic_build_id", "semantic_config_digest", "schema_version",
        "chunk_schema_version", "embedding_model_id", "embedding_model_digest", "symbol_index_build_id",
        "created_at", "refresh_mode", "chunk_count", "indexed_file_count", "embedding_count", "build_json"];
    assert(crate::planner::route_adapters::str_views(b@) =~= build_columns());
    if let Some(e) = check_table("semantic_builds", b, builds) {
        return Err(e);
    }
    let c = vec!["snapshot_id", "semantic_build_id", "chunk_id", "path", "chunk_kind", "source_kind",
        "symbol_id", "text_digest", "content_sha256", "record_json"];
    assert(crate::planner::route_adapters::str_views(c@) =~= chunk_columns());
    if let Some(e) = check_table("semantic_chunks", c, chunks) {
        return Err(e);
    }
    let m = vec!["snapshot_id", "semantic_build_id", "index_kind", "index_schema_version", "vector_dimensions",
        "normalized", "indexed_vector_count", "created_at"];
    assert(crate::planner::route_adapters::str_views(m@) =~= index_metadata_columns());
    if let Some(e) = check_table("semantic_vector_index_metadata", m, index_metadata) {
        return Err(e);
    }
    let v = vec!["snapshot_id", "semantic_build_id", "chunk_id", "cache_key", "vector_json"];
    assert(crate::planner::route_adapters::str_views(v@) =~= chunk_vector_columns());
    if let Some(e) = check_table("semantic_chunk_vectors", v, chunk_vectors) {
        return Err(e);
    }
    let k = vec!["cache_key", "input_kind", "provider_kind", "provider_id", "provider_version", "model_id",
        "model_digest", "provider_config_digest", "text_digest", "dimensions", "normalized", "vector_json",
        "stored_at"];
    assert(crate::planner::route_adapters::str_views(k@) =~= embedding_cache_columns());
    if let Some(e) = check_table("embedding_cache", k, embedding_cache) {
        return Err(e);
    }
    Ok(())
}

} // verus!

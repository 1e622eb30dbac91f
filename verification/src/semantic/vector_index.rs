use vstd::prelude::*;

use crate::protocol::semantic::SemanticBuildId;
use crate::text::{decimal, decimal_string, owned, push_str, views};

verus! {

/// The kind of the flat vector index.
pub const FLAT_VECTOR_INDEX_KIND: &'static str = "flat_cosine_scan";

/// The schema version of the flat vector index.
pub const FLAT_VECTOR_INDEX_SCHEMA_VERSION: u32 = 1;

/// What a stored vector index says about itself.
#[derive(Debug, Clone, PartialEq, Eq)]
pub struct StoredVectorIndexMetadata {
    pub snapshot_id: String,
    pub semantic_build_id: SemanticBuildId,
    pub index_kind: String,
    pub index_schema_version: u32,
    pub vector_dimensions: u32,
    pub normalized: bool,
    pub indexed_vector_count: u64,
    pub created_at: String,
}

impl StoredVectorIndexMetadata {
    /// The metadata of a flat index of the current schema.
    pub fn flat(
        snapshot_id: &str,
        semantic_build_id: SemanticBuildId,
        vector_dimensions: u32,
        normalized: bool,
        indexed_vector_count: usize,
        created_at: &str,
    ) -> (m: Self)
        ensures
            m.snapshot_id@ == snapshot_id@,
            m.semantic_build_id == semantic_build_id,
            m.index_kind@ == FLAT_VECTOR_INDEX_KIND@,
            m.index_schema_version == FLAT_VECTOR_INDEX_SCHEMA_VERSION,
            m.vector_dimensions == vector_dimensions,
            m.normalized == normalized,
            m.indexed_vector_count == indexed_vector_count as u64,
            m.created_at@ == created_at@,
    {
        StoredVectorIndexMetadata {
            snapshot_id: snapshot_id.to_owned(),
            semantic_build_id,
            index_kind: FLAT_VECTOR_INDEX_KIND.to_owned(),
            index_schema_version: FLAT_VECTOR_INDEX_SCHEMA_VERSION,
            vector_dimensions,
            normalized,
            indexed_vector_count: indexed_vector_count as u64,
            created_at: created_at.to_owned(),
        }
    }
}

/// A vector search hit.
#[derive(Debug, Clone, PartialEq, Eq)]
pub struct VectorSearchResult {
    pub chunk_id: String,
    pub score: u32,
}

/// A stored chunk vector's id and number of dimensions.
#[derive(Debug, Clone, PartialEq, Eq)]
pub struct ChunkVectorShape {
    pub chunk_id: String,
    pub dimensions: u32,
}

/// The first problem among stored chunk vectors, taken in order: a vector of the wrong
/// size, or a chunk stored twice.
pub open spec fn rows_problem(expected_dims: u32, rows: Seq<ChunkVectorShape>, seen: Seq<Seq<char>>) -> Option<Seq<char>>
    decreases rows.len(),
{
    if rows.len() == 0 {
        None
    } else {
        let row = rows[0];
        if row.dimensions != expected_dims {
            Some("vector dimensions mismatch for chunk "@ + row.chunk_id@ + ": expected "@
                + decimal(expected_dims as nat) + ", found "@ + decimal(row.dimensions as nat))
        } else if seen.contains(row.chunk_id@) {
            Some("duplicate vector row found for chunk "@ + row.chunk_id@)
        } else {
            rows_problem(expected_dims, rows.drop_first(), seen.push(row.chunk_id@))
        }
    }
}

/// Why stored vectors cannot be loaded as a flat index, if they cannot: another index
/// kind, another schema version, a bad row, or a row count other than the recorded one.
pub open spec fn index_problem(metadata: StoredVectorIndexMetadata, rows: Seq<ChunkVectorShape>) -> Option<Seq<char>> {
    if metadata.index_kind@ != FLAT_VECTOR_INDEX_KIND@ {
        Some("vector index kind mismatch for snapshot "@ + metadata.snapshot_id@ + ": expected "@
            + FLAT_VECTOR_INDEX_KIND@ + ", found "@ + metadata.index_kind@)
    } else if metadata.index_schema_version != FLAT_VECTOR_INDEX_SCHEMA_VERSION {
        Some("vector index schema version mismatch for snapshot "@ + metadata.snapshot_id@ + ": expected "@
            + decimal(FLAT_VECTOR_INDEX_SCHEMA_VERSION as nat) + ", found "@
            + decimal(metadata.index_schema_version as nat))
    } else if rows_problem(metadata.vector_dimensions, rows, Seq::empty()) is Some {
        rows_problem(metadata.vector_dimensions, rows, Seq::empty())
    } else if rows.len() != metadata.indexed_vector_count {
        Some("vector index row count mismatch for snapshot "@ + metadata.snapshot_id@ + ": expected "@
            + decimal(metadata.indexed_vector_count as nat) + ", found "@ + decimal(rows.len()))
    } else {
        None
    }
}

fn seen_contains(seen: &Vec<String>, id: &String) -> (r: bool)
    ensures
        r == views(seen@).contains(id@),
{
    let mut i: usize = 0;
    while i < seen.len()
        invariant
            0 <= i <= seen@.len(),
            forall|k: int| 0 <= k < i ==> seen@[k]@ != id@,
        decreases seen@.len() - i,
    {
        if seen[i] == *id {
            assert(views(seen@)[i as int] == id@);
            return true;
        }
        i = i + 1;
    }
    assert(!views(seen@).contains(id@)) by {
        if views(seen@).contains(id@) {
            let k = choose|k: int| 0 <= k < views(seen@).len() && views(seen@)[k] == id@;
            assert(seen@[k]@ == id@);
        }
    }
    false
}

/// Checks that stored chunk vectors can be loaded as the flat index their metadata
/// describes; the first problem found is reported.
pub fn check_persisted_index(metadata: &StoredVectorIndexMetadata, rows: &Vec<ChunkVectorShape>) -> (r: Result<(), String>)
    ensures
        match r {
            Ok(()) => index_problem(*metadata, rows@) is None,
            Err(e) => index_problem(*metadata, rows@) == Some(e@),
        },
{
    if metadata.index_kind != FLAT_VECTOR_INDEX_KIND.to_owned() {
        let mut e = owned("vector index kind mismatch for snapshot ");
        push_str(&mut e, metadata.snapshot_id.as_str());
        push_str(&mut e, ": expected ");
        push_str(&mut e, FLAT_VECTOR_INDEX_KIND);
        push_str(&mut e, ", found ");
        push_str(&mut e, metadata.index_kind.as_str());
        return Err(e);
    }
    if metadata.index_schema_version != FLAT_VECTOR_INDEX_SCHEMA_VERSION {
        let mut e = owned("vector index schema version mismatch for snapshot ");
        push_str(&mut e, metadata.snapshot_id.as_str());
        push_str(&mut e, ": expected ");
        push_str(&mut e, decimal_string(FLAT_VECTOR_INDEX_SCHEMA_VERSION as u64).as_str());
        push_str(&mut e, ", found ");
        push_str(&mut e, decimal_string(metadata.index_schema_version as u64).as_str());
        return Err(e);
    }
    let expected = metadata.vector_dimensions;
    let mut seen: Vec<String> = Vec::new();
    assert(rows@.subrange(0, rows@.len() as int) =~= rows@);
    assert(views(seen@) =~= Seq::<Seq<char>>::empty());
    let mut i: usize = 0;
    while i < rows.len()
        invariant
            0 <= i <= rows@.len(),
            expected == metadata.vector_dimensions,
            metadata.index_kind@ == FLAT_VECTOR_INDEX_KIND@,
            metadata.index_schema_version == FLAT_VECTOR_INDEX_SCHEMA_VERSION,
            seen@.len() == i,
            rows_problem(expected, rows@, Seq::empty()) == rows_problem(expected, rows@.subrange(i as int, rows@.len() as int), views(seen@)),
        decreases rows@.len() - i,
    {
        let ghost rest = rows@.subrange(i as int, rows@.len() as int);
        assert(rest[0] == rows@[i as int]);
        assert(rest.drop_first() =~= rows@.subrange(i + 1, rows@.len() as int));
        let row = &rows[i];
        if row.dimensions != expected {
            let mut e = owned("vector dimensions mismatch for chunk ");
            push_str(&mut e, row.chunk_id.as_str());
            push_str(&mut e, ": expected ");
            push_str(&mut e, decimal_string(expected as u64).as_str());
            push_str(&mut e, ", found ");
            push_str(&mut e, decimal_string(row.dimensions as u64).as_str());
            return Err(e);
        }
        if seen_contains(&seen, &row.chunk_id) {
            let mut e = owned("duplicate vector row found for chunk ");
            push_str(&mut e, row.chunk_id.as_str());
            return Err(e);
        }
        let ghost before = seen@;
        seen.push(row.chunk_id.clone());
        assert(views(seen@) =~= views(before).push(row.chunk_id@));
        i = i + 1;
    }
    assert(rows@.subrange(rows@.len() as int, rows@.len() as int) =~= Seq::<ChunkVectorShape>::empty());
    if rows.len() as u64 != metadata.indexed_vector_count {
        let mut e = owned("vector index row count mismatch for snapshot ");
        push_str(&mut e, metadata.snapshot_id.as_str());
        push_str(&mut e, ": expected ");
        push_str(&mut e, decimal_string(metadata.indexed_vector_count).as_str());
        push_str(&mut e, ", found ");
        push_str(&mut e, decimal_string(rows.len() as u64).as_str());
        return Err(e);
    }
    Ok(())
}

/// Checks that a query vector has the index's number of dimensions.
pub fn check_query_dimensions(expected: u32, found: usize) -> (r: Result<(), String>)
    ensures
        match r {
            Ok(()) => found as u32 == expected,
            Err(e) => found as u32 != expected && e@ == "query vector dimensions mismatch: expected "@
                + decimal(expected as nat) + ", found "@ + decimal(found as nat),
        },
{
    if found as u32 != expected {
        let mut e = owned("query vector dimensions mismatch: expected ");
        push_str(&mut e, decimal_string(expected as u64).as_str());
        push_str(&mut e, ", found ");
        push_str(&mut e, decimal_string(found as u64).as_str());
        return Err(e);
    }
    Ok(())
}

} // verus!

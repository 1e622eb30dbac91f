use hyperindex::protocol::semantic::{
    SemanticBuildId, SemanticChunkTextConfig, SemanticEmbeddingInputKind, SemanticEmbeddingProviderConfig,
    SemanticEmbeddingProviderKind, SemanticStorageFormat,
};
use hyperindex::semantic::store::{SemanticStore, StoredSemanticBuild};
use hyperindex::semantic::default_store_path;
use hyperindex::semantic::embedding_cache::build_embedding_cache_key;
use hyperindex::semantic::migrations::{planned_migrations, SEMANTIC_STORE_SCHEMA_VERSION};
use hyperindex::digest::sha256_hex;

#[test]
fn default_store_path_matches_phase6_layout() {
    let path = default_store_path(".hyperindex", "repo-123");
    assert_eq!(path, ".hyperindex/data/semantic/repo-123/semantic.sqlite3");
}

#[test]
fn store_path_joins_like_paths() {
    assert_eq!(default_store_path("/var/run/", "r"), "/var/run/data/semantic/r/semantic.sqlite3");
    assert_eq!(default_store_path("", "r"), "data/semantic/r/semantic.sqlite3");
    assert_eq!(default_store_path("root", "/abs"), "/abs/semantic.sqlite3");
}

#[test]
fn planned_migrations_include_current_schema_version() {
    let migrations = planned_migrations();
    assert_eq!(migrations.last().unwrap().schema_version, SEMANTIC_STORE_SCHEMA_VERSION);
}

fn key(input: SemanticEmbeddingInputKind, version: &str) -> String {
    build_embedding_cache_key(
        &input,
        "text-1",
        &SemanticEmbeddingProviderKind::DeterministicFixture,
        "fixture",
        version,
        "fixture-model",
        "model-v1",
        "config-v1",
    )
    .0
}

#[test]
fn cache_key_is_stable_for_same_inputs() {
    assert_eq!(key(SemanticEmbeddingInputKind::Document, "v1"), key(SemanticEmbeddingInputKind::Document, "v1"));
}

#[test]
fn cache_key_changes_when_query_and_document_paths_differ() {
    assert_ne!(key(SemanticEmbeddingInputKind::Document, "v1"), key(SemanticEmbeddingInputKind::Query, "v1"));
}

#[test]
fn cache_key_changes_when_provider_identity_changes() {
    assert_ne!(key(SemanticEmbeddingInputKind::Document, "v1"), key(SemanticEmbeddingInputKind::Document, "v2"));
}

#[test]
fn cache_key_hashes_zero_framed_parts() {
    let mut framed = Vec::new();
    for part in ["document", "deterministic_fixture", "fixture", "v1", "fixture-model", "model-v1", "config-v1", "text-1"] {
        framed.extend_from_slice(part.as_bytes());
        framed.push(0u8);
    }
    assert_eq!(key(SemanticEmbeddingInputKind::Document, "v1"), sha256_hex(&framed));
}

#[test]
fn sha256_hex_matches_known_digest() {
    assert_eq!(
        sha256_hex(b"abc"),
        "ba7816bf8f01cfea414140de5dae2223b00361a396177a9cb410ff61f20015ad"
    );
    assert_eq!(sha256_hex(b"").len(), 64);
}

use hyperindex::semantic::schema::validate_schema_columns;

fn columns(names: &[&str]) -> Vec<String> {
    names.iter().map(|n| n.to_string()).collect()
}

#[test]
fn schema_check_reports_the_first_missing_column() {
    let builds = columns(&[
        "snapshot_id", "repo_id", "semantic_build_id", "semantic_config_digest", "schema_version",
        "chunk_schema_version", "embedding_model_id", "embedding_model_digest", "symbol_index_build_id",
        "created_at", "refresh_mode", "chunk_count", "indexed_file_count", "embedding_count", "build_json",
    ]);
    let chunks = columns(&[
        "snapshot_id", "semantic_build_id", "chunk_id", "path", "chunk_kind", "source_kind", "symbol_id",
        "text_digest", "content_sha256", "record_json",
    ]);
    let metadata = columns(&[
        "snapshot_id", "semantic_build_id", "index_kind", "index_schema_version", "vector_dimensions",
        "normalized", "indexed_vector_count", "created_at",
    ]);
    let vectors = columns(&["snapshot_id", "semantic_build_id", "chunk_id", "cache_key", "vector_json"]);
    let cache = columns(&[
        "cache_key", "input_kind", "provider_kind", "provider_id", "provider_version", "model_id",
        "model_digest", "provider_config_digest", "text_digest", "dimensions", "normalized", "vector_json",
        "stored_at",
    ]);
    assert_eq!(validate_schema_columns(&builds, &chunks, &metadata, &vectors, &cache), Ok(()));

    let short_chunks = columns(&["snapshot_id", "semantic_build_id"]);
    assert_eq!(
        validate_schema_columns(&builds, &short_chunks, &metadata, &vectors, &Vec::new()),
        Err("semantic_chunks.chunk_id".to_string())
    );
    assert_eq!(
        validate_schema_columns(&builds, &chunks, &metadata, &vectors, &Vec::new()),
        Err("embedding_cache.cache_key".to_string())
    );
}

use hyperindex::semantic::vector_index::{
    check_persisted_index, check_query_dimensions, ChunkVectorShape, StoredVectorIndexMetadata,
    FLAT_VECTOR_INDEX_SCHEMA_VERSION,
};

fn shape(id: &str, dimensions: u32) -> ChunkVectorShape {
    ChunkVectorShape {
        chunk_id: id.to_string(),
        dimensions,
    }
}

#[test]
fn persisted_index_checks_report_the_first_incompatibility() {
    let metadata = StoredVectorIndexMetadata::flat(
        "snap-1",
        SemanticBuildId("build-1".to_string()),
        3,
        true,
        2,
        "2024-01-01",
    );
    assert_eq!(metadata.index_kind, "flat_cosine_scan");
    assert_eq!(metadata.index_schema_version, FLAT_VECTOR_INDEX_SCHEMA_VERSION);
    assert_eq!(
        check_persisted_index(&metadata, &vec![shape("a", 3), shape("b", 3)]),
        Ok(())
    );
    assert_eq!(
        check_persisted_index(&metadata, &vec![shape("a", 3), shape("b", 2)]),
        Err("vector dimensions mismatch for chunk b: expected 3, found 2".to_string())
    );
    assert_eq!(
        check_persisted_index(&metadata, &vec![shape("a", 3), shape("a", 3)]),
        Err("duplicate vector row found for chunk a".to_string())
    );
    assert_eq!(
        check_persisted_index(&metadata, &vec![shape("a", 3)]),
        Err("vector index row count mismatch for snapshot snap-1: expected 2, found 1".to_string())
    );
    let mut other = metadata.clone();
    other.index_schema_version = 2;
    assert_eq!(
        check_persisted_index(&other, &Vec::new()),
        Err("vector index schema version mismatch for snapshot snap-1: expected 1, found 2".to_string())
    );
    other.index_kind = "hnsw".to_string();
    assert_eq!(
        check_persisted_index(&other, &Vec::new()),
        Err("vector index kind mismatch for snapshot snap-1: expected flat_cosine_scan, found hnsw".to_string())
    );
    assert_eq!(check_query_dimensions(3, 3), Ok(()));
    assert_eq!(
        check_query_dimensions(3, 4),
        Err("query vector dimensions mismatch: expected 3, found 4".to_string())
    );
}

#[test]
fn manifest_counts_only_the_builds_own_embeddings() {
    let store = SemanticStore {
        store_path: default_store_path(".hyperindex", "repo-123"),
        schema_version: SEMANTIC_STORE_SCHEMA_VERSION,
    };
    let build = StoredSemanticBuild {
        repo_id: "repo-123".to_string(),
        snapshot_id: "snap-123".to_string(),
        semantic_build_id: SemanticBuildId("semantic-build-123".to_string()),
        semantic_config_digest: "config-digest".to_string(),
        schema_version: store.schema_version,
        chunk_schema_version: 1,
        embedding_provider: SemanticEmbeddingProviderConfig {
            provider_kind: SemanticEmbeddingProviderKind::DeterministicFixture,
            model_id: "fixture-model".to_string(),
            model_digest: "model-v1".to_string(),
            vector_dimensions: 3,
            normalized: true,
            max_input_bytes: 8192,
            max_batch_size: 32,
        },
        chunk_text: SemanticChunkTextConfig {
            serializer_id: "phase6-structured-text".to_string(),
            format_version: 1,
            includes_path_header: true,
            includes_symbol_context: true,
            normalized_newlines: true,
        },
        symbol_index_build_id: None,
        created_at: "123".to_string(),
        refresh_mode: "full_rebuild".to_string(),
        chunk_count: 1,
        indexed_file_count: 1,
        embedding_count: 1,
        embedding_cache_hits: 0,
        embedding_cache_misses: 0,
        embedding_cache_writes: 1,
        embedding_provider_batches: 1,
        profile: None,
        refresh_stats: None,
        fallback_reason: None,
        diagnostics: Vec::new(),
    };
    let manifest = store.manifest_for(&build);
    assert_eq!(manifest.embedding_cache.entry_count, 1);
    assert_eq!(manifest.build_id, build.semantic_build_id);
    assert_eq!(manifest.embedding_provider, build.embedding_provider);
    assert_eq!(manifest.storage.format, SemanticStorageFormat::Sqlite);
    assert_eq!(manifest.storage.path, ".hyperindex/data/semantic/repo-123/semantic.sqlite3");
    assert_eq!(manifest.storage.schema_version, SEMANTIC_STORE_SCHEMA_VERSION);
    assert_eq!(manifest.embedding_cache.store_path, Some(manifest.storage.path.clone()));
    assert_eq!(
        manifest.embedding_cache.key_algorithm,
        "sha256(input_kind + text_digest + provider_identity + provider_config_digest)"
    );
    assert_eq!(manifest.indexed_chunk_count, 1);
    assert_eq!(manifest.created_at, "123");
}

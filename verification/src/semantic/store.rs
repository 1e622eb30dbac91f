use vstd::prelude::*;

use crate::planner::copy::DeepCopy;
use crate::protocol::semantic::{
    SemanticBuildId, SemanticChunkTextConfig, SemanticDiagnostic, SemanticEmbeddingCacheManifest,
    SemanticEmbeddingInputKind, SemanticEmbeddingProviderConfig, SemanticEmbeddingProviderKind,
    SemanticIndexManifest, SemanticIndexStorage, SemanticRefreshStats, SemanticStorageFormat,
};
use crate::protocol::symbols::SymbolIndexBuildId;
use crate::semantic::embedding_cache::{input_kind_name, provider_kind_name};
use crate::text::{owned, push_str};

verus! {

/// The input kind a stored name denotes, if any.
pub open spec fn input_kind_named(raw: Seq<char>) -> Option<SemanticEmbeddingInputKind> {
    if raw == "document"@ {
        Some(SemanticEmbeddingInputKind::Document)
    } else if raw == "query"@ {
        Some(SemanticEmbeddingInputKind::Query)
    } else {
        None
    }
}

/// The provider kind a stored name denotes, if any.
pub open spec fn provider_kind_named(raw: Seq<char>) -> Option<SemanticEmbeddingProviderKind> {
    if raw == "deterministic_fixture"@ {
        Some(SemanticEmbeddingProviderKind::DeterministicFixture)
    } else if raw == "local_onnx"@ {
        Some(SemanticEmbeddingProviderKind::LocalOnnx)
    } else if raw == "external_process"@ {
        Some(SemanticEmbeddingProviderKind::ExternalProcess)
    } else if raw == "placeholder"@ {
        Some(SemanticEmbeddingProviderKind::Placeholder)
    } else {
        None
    }
}

fn text_is(raw: &str, name: &str) -> (r: bool)
    ensures
        r == (raw@ == name@),
{
    raw.to_owned() == name.to_owned()
}

/// Reads a stored input kind; an unknown name is refused, naming the column and value.
pub fn parse_input_kind(raw: &str) -> (r: Result<SemanticEmbeddingInputKind, String>)
    ensures
        match r {
            Ok(k) => input_kind_named(raw@) == Some(k),
            Err(e) => input_kind_named(raw@) is None && e@ == "embedding_cache.input_kind="@ + raw@,
        },
{
    if text_is(raw, "document") {
        Ok(SemanticEmbeddingInputKind::Document)
    } else if text_is(raw, "query") {
        Ok(SemanticEmbeddingInputKind::Query)
    } else {
        let mut e = owned("embedding_cache.input_kind=");
        push_str(&mut e, raw);
        Err(e)
    }
}

/// Reads a stored provider kind; an unknown name is refused, naming the column and value.
pub fn parse_provider_kind(raw: &str) -> (r: Result<SemanticEmbeddingProviderKind, String>)
    ensures
        match r {
            Ok(k) => provider_kind_named(raw@) == Some(k),
            Err(e) => provider_kind_named(raw@) is None && e@ == "embedding_cache.provider_kind="@ + raw@,
        },
{
    if text_is(raw, "deterministic_fixture") {
        Ok(SemanticEmbeddingProviderKind::DeterministicFixture)
    } else if text_is(raw, "local_onnx") {
        Ok(SemanticEmbeddingProviderKind::LocalOnnx)
    } else if text_is(raw, "external_process") {
        Ok(SemanticEmbeddingProviderKind::ExternalProcess)
    } else if text_is(raw, "placeholder") {
        Ok(SemanticEmbeddingProviderKind::Placeholder)
    } else {
        let mut e = owned("embedding_cache.provider_kind=");
        push_str(&mut e, raw);
        Err(e)
    }
}

/// What the store writes for a kind it reads back as the same kind.
pub proof fn law_stored_kind_names_round_trip(input: SemanticEmbeddingInputKind, provider: SemanticEmbeddingProviderKind)
    ensures
        input_kind_named(input_kind_name(input)) == Some(input),
        provider_kind_named(provider_kind_name(provider)) == Some(provider),
{
    reveal_strlit("document");
    reveal_strlit("query");
    reveal_strlit("deterministic_fixture");
    reveal_strlit("local_onnx");
    reveal_strlit("external_process");
    reveal_strlit("placeholder");
    assert("document"@.len() == 8 && "query"@.len() == 5);
    assert("deterministic_fixture"@.len() == 21 && "local_onnx"@.len() == 10);
    assert("external_process"@.len() == 16 && "placeholder"@.len() == 11);
    assert("document"@ != "query"@);
    assert("local_onnx"@ != "deterministic_fixture"@);
    assert("external_process"@ != "deterministic_fixture"@ && "external_process"@ != "local_onnx"@);
    assert("placeholder"@ != "deterministic_fixture"@ && "placeholder"@ != "local_onnx"@
        && "placeholder"@ != "external_process"@);
}

/// How long the stages of a semantic build took.
#[derive(Debug, Clone, Copy, PartialEq, Eq, Structural)]
pub struct SemanticBuildProfile {
    pub chunk_materialization_ms: u64,
    pub embedding_resolution_ms: u64,
    pub vector_persist_ms: u64,
}

/// A semantic build as the store keeps it.
#[derive(Debug, Clone, PartialEq, Eq)]
pub struct StoredSemanticBuild {
    pub repo_id: String,
    pub snapshot_id: String,
    pub semantic_build_id: SemanticBuildId,
    pub semantic_config_digest: String,
    pub schema_version: u32,
    pub chunk_schema_version: u32,
    pub embedding_provider: SemanticEmbeddingProviderConfig,
    pub chunk_text: SemanticChunkTextConfig,
    pub symbol_index_build_id: Option<SymbolIndexBuildId>,
    pub created_at: String,
    pub refresh_mode: String,
    pub chunk_count: usize,
    pub indexed_file_count: usize,
    pub embedding_count: usize,
    pub embedding_cache_hits: usize,
    pub embedding_cache_misses: usize,
    pub embedding_cache_writes: usize,
    pub embedding_provider_batches: usize,
    pub profile: Option<SemanticBuildProfile>,
    pub refresh_stats: Option<SemanticRefreshStats>,
    pub fallback_reason: Option<String>,
    pub diagnostics: Vec<SemanticDiagnostic>,
}

/// What a semantic store reports of itself.
#[derive(Debug, Clone, PartialEq, Eq)]
pub struct SemanticStoreStatus {
    pub db_path: String,
    pub schema_version: u32,
    pub build_count: usize,
}

/// A semantic store: the database file it lives in and the layout version it keeps.
#[derive(Debug, Clone, PartialEq, Eq)]
pub struct SemanticStore {
    pub store_path: String,
    pub schema_version: u32,
}

impl DeepCopy for SemanticBuildId {
    fn deep_copy(&self) -> (r: Self) {
        SemanticBuildId(self.0.clone())
    }
}

impl DeepCopy for SymbolIndexBuildId {
    fn deep_copy(&self) -> (r: Self) {
        SymbolIndexBuildId(self.0.clone())
    }
}

impl DeepCopy for SemanticEmbeddingProviderConfig {
    fn deep_copy(&self) -> (r: Self) {
        SemanticEmbeddingProviderConfig {
            provider_kind: self.provider_kind,
            model_id: self.model_id.clone(),
            model_digest: self.model_digest.clone(),
            vector_dimensions: self.vector_dimensions,
            normalized: self.normalized,
            max_input_bytes: self.max_input_bytes,
            max_batch_size: self.max_batch_size,
        }
    }
}

impl DeepCopy for SemanticChunkTextConfig {
    fn deep_copy(&self) -> (r: Self) {
        SemanticChunkTextConfig {
            serializer_id: self.serializer_id.clone(),
            format_version: self.format_version,
            includes_path_header: self.includes_path_header,
            includes_symbol_context: self.includes_symbol_context,
            normalized_newlines: self.normalized_newlines,
        }
    }
}

/// How embedding cache keys are formed, as a manifest states it.
pub open spec fn embedding_key_algorithm() -> Seq<char> {
    "sha256(input_kind + text_digest + provider_identity + provider_config_digest)"@
}

impl SemanticStore {
    /// The manifest of `build` in this store: the build's identity, configuration and
    /// counts, the store's location and layout, and as embedding cache entry count the
    /// embeddings of this build, not of the whole cache.
    pub fn manifest_for(&self, build: &StoredSemanticBuild) -> (m: SemanticIndexManifest)
        ensures
            m.build_id == build.semantic_build_id,
            m.repo_id == build.repo_id,
            m.snapshot_id == build.snapshot_id,
            m.semantic_config_digest == build.semantic_config_digest,
            m.chunk_schema_version == build.chunk_schema_version,
            m.symbol_index_build_id == build.symbol_index_build_id,
            m.embedding_provider == build.embedding_provider,
            m.chunk_text == build.chunk_text,
            m.storage.format == SemanticStorageFormat::Sqlite,
            m.storage.path == self.store_path,
            m.storage.schema_version == self.schema_version,
            m.storage.manifest_sha256 is None,
            m.embedding_cache.key_algorithm@ == embedding_key_algorithm(),
            m.embedding_cache.entry_count == build.embedding_count,
            m.embedding_cache.store_path == Some(self.store_path),
            m.indexed_chunk_count == build.chunk_count,
            m.indexed_file_count == build.indexed_file_count,
            m.created_at == build.created_at,
    {
        SemanticIndexManifest {
            build_id: build.semantic_build_id.deep_copy(),
            repo_id: build.repo_id.clone(),
            snapshot_id: build.snapshot_id.clone(),
            semantic_config_digest: build.semantic_config_digest.clone(),
            chunk_schema_version: build.chunk_schema_version,
            symbol_index_build_id: build.symbol_index_build_id.deep_copy(),
            embedding_provider: build.embedding_provider.deep_copy(),
            chunk_text: build.chunk_text.deep_copy(),
            storage: SemanticIndexStorage {
                format: SemanticStorageFormat::Sqlite,
                path: self.store_path.clone(),
                schema_version: self.schema_version,
                manifest_sha256: None,
            },
            embedding_cache: SemanticEmbeddingCacheManifest {
                key_algorithm: owned("sha256(input_kind + text_digest + provider_identity + provider_config_digest)"),
                entry_count: build.embedding_count as u64,
                store_path: Some(self.store_path.clone()),
            },
            indexed_chunk_count: build.chunk_count as u64,
            indexed_file_count: build.indexed_file_count as u64,
            created_at: build.created_at.clone(),
        }
    }
}

} // verus!

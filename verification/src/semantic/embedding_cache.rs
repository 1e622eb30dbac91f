use vstd::prelude::*;

use crate::digest::{hex_lower, sha256, sha256_hex};
use crate::protocol::semantic::{EmbeddingCacheKey, SemanticEmbeddingInputKind, SemanticEmbeddingProviderKind};
use crate::text::utf8;

verus! {

/// The name of an embedding input kind.
pub open spec fn input_kind_name(kind: SemanticEmbeddingInputKind) -> Seq<char> {
    match kind {
        SemanticEmbeddingInputKind::Document => "document"@,
        SemanticEmbeddingInputKind::Query => "query"@,
    }
}

/// The name of an embedding provider kind.
pub open spec fn provider_kind_name(kind: SemanticEmbeddingProviderKind) -> Seq<char> {
    match kind {
        SemanticEmbeddingProviderKind::DeterministicFixture => "deterministic_fixture"@,
        SemanticEmbeddingProviderKind::LocalOnnx => "local_onnx"@,
        SemanticEmbeddingProviderKind::ExternalProcess => "external_process"@,
        SemanticEmbeddingProviderKind::Placeholder => "placeholder"@,
    }
}

/// The name of an embedding input kind.
pub fn embedding_input_kind_name(kind: &SemanticEmbeddingInputKind) -> (s: &'static str)
    ensures
        s@ == input_kind_name(*kind),
{
    match kind {
        SemanticEmbeddingInputKind::Document => "document",
        SemanticEmbeddingInputKind::Query => "query",
    }
}

/// The name of an embedding provider kind.
pub fn embedding_provider_kind_name(kind: &SemanticEmbeddingProviderKind) -> (s: &'static str)
    ensures
        s@ == provider_kind_name(*kind),
{
    match kind {
        SemanticEmbeddingProviderKind::DeterministicFixture => "deterministic_fixture",
        SemanticEmbeddingProviderKind::LocalOnnx => "local_onnx",
        SemanticEmbeddingProviderKind::ExternalProcess => "external_process",
        SemanticEmbeddingProviderKind::Placeholder => "placeholder",
    }
}

/// The UTF-8 bytes of each part, each followed by a zero byte.
pub open spec fn framed(parts: Seq<Seq<char>>) -> Seq<u8>
    decreases parts.len(),
{
    if parts.len() == 0 {
        Seq::empty()
    } else {
        framed(parts.drop_last()) + utf8(parts.last()) + seq![0u8]
    }
}

/// The identity parts of an embedding, in hashing order.
pub open spec fn key_parts(
    input_kind: SemanticEmbeddingInputKind,
    text_digest: Seq<char>,
    provider_kind: SemanticEmbeddingProviderKind,
    provider_id: Seq<char>,
    provider_version: Seq<char>,
    model_id: Seq<char>,
    model_digest: Seq<char>,
    provider_config_digest: Seq<char>,
) -> Seq<Seq<char>> {
    seq![input_kind_name(input_kind), provider_kind_name(provider_kind), provider_id, provider_version,
        model_id, model_digest, provider_config_digest, text_digest]
}

fn push_part(data: &mut Vec<u8>, part: &str)
    ensures
        final(data)@ == old(data)@ + utf8(part@) + seq![0u8],
{
    let bytes = part.as_bytes();
    let ghost start = data@;
    let mut i: usize = 0;
    while i < bytes.len()
        invariant
            0 <= i <= bytes@.len(),
            bytes@ == utf8(part@),
            data@ == start + bytes@.subrange(0, i as int),
        decreases bytes@.len() - i,
    {
        data.push(bytes[i]);
        assert(bytes@.subrange(0, i + 1) =~= bytes@.subrange(0, i as int).push(bytes@[i as int]));
        assert(data@ =~= start + bytes@.subrange(0, i + 1));
        i = i + 1;
    }
    assert(bytes@.subrange(0, bytes@.len() as int) =~= bytes@);
    data.push(0u8);
    assert(data@ =~= start + utf8(part@) + seq![0u8]);
}

/// The cache key of an embedding: the lower-case hex SHA-256 of its identity parts, each
/// followed by a zero byte.
pub fn build_embedding_cache_key(
    input_kind: &SemanticEmbeddingInputKind,
    text_digest: &str,
    provider_kind: &SemanticEmbeddingProviderKind,
    provider_id: &str,
    provider_version: &str,
    model_id: &str,
    model_digest: &str,
    provider_config_digest: &str,
) -> (k: EmbeddingCacheKey)
    ensures
        k.0@ == hex_lower(sha256(framed(key_parts(*input_kind, text_digest@, *provider_kind, provider_id@,
            provider_version@, model_id@, model_digest@, provider_config_digest@)))),
{
    let ghost parts = key_parts(*input_kind, text_digest@, *provider_kind, provider_id@, provider_version@,
        model_id@, model_digest@, provider_config_digest@);
    let mut data: Vec<u8> = Vec::new();
    push_part(&mut data, embedding_input_kind_name(input_kind));
    push_part(&mut data, embedding_provider_kind_name(provider_kind));
    push_part(&mut data, provider_id);
    push_part(&mut data, provider_version);
    push_part(&mut data, model_id);
    push_part(&mut data, model_digest);
    push_part(&mut data, provider_config_digest);
    push_part(&mut data, text_digest);
    proof {
        reveal_with_fuel(framed, 9);
        assert(parts.drop_last().drop_last().drop_last().drop_last().drop_last().drop_last().drop_last().drop_last() =~= Seq::<Seq<char>>::empty());
        assert(data@ =~= framed(parts));
    }
    EmbeddingCacheKey(sha256_hex(data.as_slice()))
}

} // verus!

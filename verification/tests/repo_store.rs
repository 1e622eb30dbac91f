use hyperindex::repo_store::{
    bool_to_sqlite, default_display_name, is_recoverable_sqlite_error, quarantine_candidate_name,
    repo_id_for_root,
};
use hyperindex::semantic::store::{parse_input_kind, parse_provider_kind};
use hyperindex::protocol::semantic::{SemanticEmbeddingInputKind, SemanticEmbeddingProviderKind};

#[test]
fn repo_ids_hash_the_root_with_fnv1a() {
    assert_eq!(repo_id_for_root("/tmp/repo"), "repo-72efbd138b629fe8");
    assert_eq!(repo_id_for_root(""), "repo-cbf29ce484222325");
    assert_ne!(repo_id_for_root("/tmp/repo"), repo_id_for_root("/tmp/repo2"));
}

#[test]
fn display_names_default_to_the_last_component() {
    assert_eq!(default_display_name("/tmp/workspace/hyperindex"), "hyperindex");
    assert_eq!(default_display_name("/"), "/");
}

#[test]
fn recoverable_errors_are_recognised_in_any_case() {
    assert!(is_recoverable_sqlite_error("Database Disk Image Is MALFORMED"));
    assert!(is_recoverable_sqlite_error("file is not a database"));
    assert!(!is_recoverable_sqlite_error("disk full"));
    assert_eq!(bool_to_sqlite(true), 1);
    assert_eq!(bool_to_sqlite(false), 0);
    assert_eq!(quarantine_candidate_name("state.sqlite3", 2), "state.sqlite3.corrupt-2");
}

#[test]
fn stored_kind_names_read_back() {
    assert_eq!(parse_input_kind("document"), Ok(SemanticEmbeddingInputKind::Document));
    assert_eq!(parse_input_kind("query"), Ok(SemanticEmbeddingInputKind::Query));
    assert_eq!(
        parse_input_kind("passage"),
        Err("embedding_cache.input_kind=passage".to_string())
    );
    assert_eq!(
        parse_provider_kind("local_onnx"),
        Ok(SemanticEmbeddingProviderKind::LocalOnnx)
    );
    assert_eq!(
        parse_provider_kind("remote"),
        Err("embedding_cache.provider_kind=remote".to_string())
    );
}

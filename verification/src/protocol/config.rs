use vstd::prelude::*;

use crate::protocol::impact::ImpactMaterializationMode;
use crate::protocol::planner::{PlannerBudgetPolicy, PlannerMode, PlannerRouteBudget, PlannerRouteKind};
use crate::protocol::semantic::{
    SemanticChunkTextConfig, SemanticEmbeddingProviderConfig, SemanticEmbeddingProviderKind,
    SemanticRerankMode,
};
use crate::protocol::symbols::LanguageId;
use crate::text::owned;

verus! {

/// The protocol version every request and response carries.
pub const PROTOCOL_VERSION: &'static str = "repo-hyperindex.local/v1";

/// The version of the configuration file format.
pub const CONFIG_VERSION: u32 = 1;

/// The version of the on-disk storage layout.
pub const STORAGE_VERSION: u32 = 1;

/// Directories of the runtime, as paths relative to the working directory or absolute.
#[derive(Debug, Clone, PartialEq, Eq)]
pub struct AppDirectories {
    pub runtime_root: String,
    pub state_dir: String,
    pub data_dir: String,
    pub manifests_dir: String,
    pub logs_dir: String,
    pub temp_dir: String,
}

#[derive(Debug, Clone, Copy, PartialEq, Eq, Structural)]
pub enum TransportKind {
    Stdio,
    UnixSocket,
}

#[derive(Debug, Clone, PartialEq, Eq)]
pub struct TransportSettings {
    pub kind: TransportKind,
    pub socket_path: String,
    pub connect_timeout_ms: u64,
    pub request_timeout_ms: u64,
    pub max_frame_bytes: usize,
}

#[derive(Debug, Clone, Copy, PartialEq, Eq, Structural)]
pub enum RepoRegistryBackend {
    Sqlite,
}

#[derive(Debug, Clone, PartialEq, Eq)]
pub struct RepoRegistrySettings {
    pub backend: RepoRegistryBackend,
    pub sqlite_path: String,
    pub manifests_dir: String,
}

#[derive(Debug, Clone, Copy, PartialEq, Eq, Structural)]
pub enum WatchBackend {
    Poll,
    Notify,
    Stub,
}

#[derive(Debug, Clone, Copy, PartialEq, Eq, Structural)]
pub struct WatchConfig {
    pub backend: WatchBackend,
    pub poll_interval_ms: u64,
    pub debounce_ms: u64,
    pub batch_max_events: usize,
}

#[derive(Debug, Clone, Copy, PartialEq, Eq, Structural)]
pub struct SchedulerDefaults {
    pub max_concurrent_repos: usize,
    pub coalesce_window_ms: u64,
    pub idle_flush_ms: u64,
    pub job_lease_ms: u64,
}

#[derive(Debug, Clone, Copy, PartialEq, Eq, Structural)]
pub enum LogVerbosity {
    Error,
    Warn,
    Info,
    Debug,
    Trace,
}

#[derive(Debug, Clone, Copy, PartialEq, Eq, Structural)]
pub enum LogFormat {
    Text,
    Json,
}

#[derive(Debug, Clone, Copy, PartialEq, Eq, Structural)]
pub struct LoggingSettings {
    pub verbosity: LogVerbosity,
    pub format: LogFormat,
}

#[derive(Debug, Clone, PartialEq, Eq)]
pub struct IgnoreSettings {
    pub global_patterns: Vec<String>,
    pub repo_patterns: Vec<String>,
    pub exclude_dot_git: bool,
    pub exclude_node_modules: bool,
    pub exclude_target: bool,
}

#[derive(Debug, Clone, Copy, PartialEq, Eq, Structural)]
pub enum ParseCacheMode {
    MemoryOnly,
    Persistent,
}

#[derive(Debug, Clone, PartialEq, Eq)]
pub struct LanguagePackConfig {
    pub pack_id: String,
    pub enabled: bool,
    pub languages: Vec<LanguageId>,
    pub include_globs: Vec<String>,
    pub grammar_version: Option<String>,
}

/// The six TS/JS languages, in the order the default pack lists them.
pub open spec fn all_ts_js_languages() -> Seq<LanguageId> {
    seq![
        LanguageId::Typescript,
        LanguageId::Tsx,
        LanguageId::Javascript,
        LanguageId::Jsx,
        LanguageId::Mts,
        LanguageId::Cts,
    ]
}

/// The six TS/JS languages, in the order the default pack lists them.
pub fn ts_js_languages() -> (v: Vec<LanguageId>)
    ensures
        v@ == all_ts_js_languages(),
{
    let v = vec![
        LanguageId::Typescript,
        LanguageId::Tsx,
        LanguageId::Javascript,
        LanguageId::Jsx,
        LanguageId::Mts,
        LanguageId::Cts,
    ];
    assert(v@ =~= all_ts_js_languages());
    v
}

/// The default pack: the TS/JS core pack, enabled, with its six languages and globs.
pub open spec fn is_default_language_pack(p: LanguagePackConfig) -> bool {
    &&& p.pack_id@ == "ts_js_core"@
    &&& p.enabled
    &&& p.languages@ == all_ts_js_languages()
    &&& p.include_globs@.len() == 6
    &&& p.include_globs@[0]@ == "**/*.ts"@
    &&& p.include_globs@[1]@ == "**/*.tsx"@
    &&& p.include_globs@[2]@ == "**/*.js"@
    &&& p.include_globs@[3]@ == "**/*.jsx"@
    &&& p.include_globs@[4]@ == "**/*.mts"@
    &&& p.include_globs@[5]@ == "**/*.cts"@
    &&& p.grammar_version matches Some(g) && g@ == "tree-sitter-typescript@phase4-contract"@
}

impl Default for LanguagePackConfig {
    fn default() -> (p: Self)
        ensures
            is_default_language_pack(p),
    {
        let globs = vec![
            owned("**/*.ts"),
            owned("**/*.tsx"),
            owned("**/*.js"),
            owned("**/*.jsx"),
            owned("**/*.mts"),
            owned("**/*.cts"),
        ];
        LanguagePackConfig {
            pack_id: owned("ts_js_core"),
            enabled: true,
            languages: ts_js_languages(),
            include_globs: globs,
            grammar_version: Some(owned("tree-sitter-typescript@phase4-contract")),
        }
    }
}

#[derive(Debug, Clone, PartialEq, Eq)]
pub struct ParserConfig {
    pub enabled: bool,
    pub max_file_bytes: usize,
    pub diagnostics_max_per_file: usize,
    pub cache_mode: ParseCacheMode,
    pub artifact_dir: String,
    pub language_packs: Vec<LanguagePackConfig>,
}

impl Default for ParserConfig {
    fn default() -> (c: Self)
        ensures
            c.enabled,
            c.max_file_bytes == 2_097_152,
            c.diagnostics_max_per_file == 32,
            c.cache_mode == ParseCacheMode::Persistent,
            c.artifact_dir@ == ".hyperindex/data/parse-artifacts"@,
            c.language_packs@.len() == 1,
            is_default_language_pack(c.language_packs@[0]),
    {
        let mut packs = Vec::new();
        packs.push(LanguagePackConfig::default());
        ParserConfig {
            enabled: true,
            max_file_bytes: 2_097_152,
            diagnostics_max_per_file: 32,
            cache_mode: ParseCacheMode::Persistent,
            artifact_dir: owned(".hyperindex/data/parse-artifacts"),
            language_packs: packs,
        }
    }
}

#[derive(Debug, Clone, PartialEq, Eq)]
pub struct SymbolIndexConfig {
    pub enabled: bool,
    pub store_dir: String,
    pub default_search_limit: usize,
    pub max_search_limit: usize,
    pub persist_occurrences: bool,
}

impl Default for SymbolIndexConfig {
    fn default() -> (c: Self)
        ensures
            c.enabled,
            c.store_dir@ == ".hyperindex/data/symbols"@,
            c.default_search_limit == 25,
            c.max_search_limit == 200,
            c.persist_occurrences,
    {
        SymbolIndexConfig {
            enabled: true,
            store_dir: owned(".hyperindex/data/symbols"),
            default_search_limit: 25,
            max_search_limit: 200,
            persist_occurrences: true,
        }
    }
}

#[derive(Debug, Clone, PartialEq, Eq)]
pub struct ImpactConfig {
    pub enabled: bool,
    pub store_dir: String,
    pub materialization_mode: ImpactMaterializationMode,
    pub default_limit: usize,
    pub max_limit: usize,
    pub default_include_transitive: bool,
    pub default_include_reason_paths: bool,
    pub max_reason_paths_per_hit: usize,
    pub max_transitive_depth: u32,
    pub include_possible_results: bool,
}

impl Default for ImpactConfig {
    fn default() -> (c: Self)
        ensures
            c.enabled,
            c.store_dir@ == ".hyperindex/data/impact"@,
            c.materialization_mode == ImpactMaterializationMode::PreferPersisted,
            c.default_limit == 20,
            c.max_limit == 200,
            c.default_include_transitive,
            c.default_include_reason_paths,
            c.max_reason_paths_per_hit == 4,
            c.max_transitive_depth == 8,
            c.include_possible_results,
    {
        ImpactConfig {
            enabled: true,
            store_dir: owned(".hyperindex/data/impact"),
            materialization_mode: ImpactMaterializationMode::PreferPersisted,
            default_limit: 20,
            max_limit: 200,
            default_include_transitive: true,
            default_include_reason_paths: true,
            max_reason_paths_per_hit: 4,
            max_transitive_depth: 8,
            include_possible_results: true,
        }
    }
}

#[derive(Debug, Clone, PartialEq, Eq)]
pub struct SemanticQueryConfig {
    pub default_search_limit: usize,
    pub max_search_limit: usize,
    pub default_rerank_mode: SemanticRerankMode,
    pub default_path_globs: Vec<String>,
}

impl Default for SemanticQueryConfig {
    fn default() -> (c: Self)
        ensures
            c.default_search_limit == 20,
            c.max_search_limit == 200,
            c.default_rerank_mode == SemanticRerankMode::Hybrid,
            c.default_path_globs@.len() == 0,
    {
        SemanticQueryConfig {
            default_search_limit: 20,
            max_search_limit: 200,
            default_rerank_mode: SemanticRerankMode::Hybrid,
            default_path_globs: Vec::new(),
        }
    }
}

#[derive(Debug, Clone, PartialEq, Eq, Default)]
pub struct SemanticEmbeddingRuntimeConfig {
    pub command: Option<String>,
    pub args: Vec<String>,
}

#[derive(Debug, Clone, PartialEq, Eq)]
pub struct SemanticConfig {
    pub enabled: bool,
    pub store_dir: String,
    pub chunk_schema_version: u32,
    pub embedding_provider: SemanticEmbeddingProviderConfig,
    pub embedding_runtime: SemanticEmbeddingRuntimeConfig,
    pub chunk_text: SemanticChunkTextConfig,
    pub query: SemanticQueryConfig,
}

impl Default for SemanticConfig {
    fn default() -> (c: Self)
        ensures
            c.enabled,
            c.store_dir@ == ".hyperindex/data/semantic"@,
            c.chunk_schema_version == 1,
            c.embedding_provider.provider_kind
                == SemanticEmbeddingProviderKind::DeterministicFixture,
            c.embedding_provider.model_id@ == "phase6-deterministic-fixture"@,
            c.embedding_provider.model_digest@ == "phase6-deterministic-fixture-v1"@,
            c.embedding_provider.vector_dimensions == 384,
            c.embedding_provider.normalized,
            c.embedding_provider.max_input_bytes == 8_192,
            c.embedding_provider.max_batch_size == 32,
            c.embedding_runtime.command is None,
            c.embedding_runtime.args@.len() == 0,
            c.chunk_text.serializer_id@ == "phase6-structured-text"@,
            c.chunk_text.format_version == 1,
            c.chunk_text.includes_path_header,
            c.chunk_text.includes_symbol_context,
            c.chunk_text.normalized_newlines,
            c.query.default_search_limit == 20,
            c.query.max_search_limit == 200,
            c.query.default_rerank_mode == SemanticRerankMode::Hybrid,
            c.query.default_path_globs@.len() == 0,
    {
        SemanticConfig {
            enabled: true,
            store_dir: owned(".hyperindex/data/semantic"),
            chunk_schema_version: 1,
            embedding_provider: SemanticEmbeddingProviderConfig {
                provider_kind: SemanticEmbeddingProviderKind::DeterministicFixture,
                model_id: owned("phase6-deterministic-fixture"),
                model_digest: owned("phase6-deterministic-fixture-v1"),
                vector_dimensions: 384,
                normalized: true,
                max_input_bytes: 8_192,
                max_batch_size: 32,
            },
            embedding_runtime: SemanticEmbeddingRuntimeConfig { command: None, args: Vec::new() },
            chunk_text: SemanticChunkTextConfig {
                serializer_id: owned("phase6-structured-text"),
                format_version: 1,
                includes_path_header: true,
                includes_symbol_context: true,
                normalized_newlines: true,
            },
            query: SemanticQueryConfig::default(),
        }
    }
}

#[derive(Debug, Clone, Copy, PartialEq, Eq, Structural)]
pub struct PlannerRoutesConfig {
    pub exact_enabled: bool,
    pub symbol_enabled: bool,
    pub semantic_enabled: bool,
    pub impact_enabled: bool,
}

impl Default for PlannerRoutesConfig {
    fn default() -> (c: Self)
        ensures
            c.exact_enabled,
            c.symbol_enabled,
            c.semantic_enabled,
            c.impact_enabled,
    {
        PlannerRoutesConfig {
            exact_enabled: true,
            symbol_enabled: true,
            semantic_enabled: true,
            impact_enabled: true,
        }
    }
}

/// The default budget of each route, in route order exact, symbol, semantic, impact.
pub open spec fn default_route_budgets() -> Seq<PlannerRouteBudget> {
    seq![
        PlannerRouteBudget {
            route_kind: PlannerRouteKind::Exact,
            max_candidates: 25,
            max_groups: 10,
            timeout_ms: 150,
        },
        PlannerRouteBudget {
            route_kind: PlannerRouteKind::Symbol,
            max_candidates: 20,
            max_groups: 10,
            timeout_ms: 250,
        },
        PlannerRouteBudget {
            route_kind: PlannerRouteKind::Semantic,
            max_candidates: 16,
            max_groups: 8,
            timeout_ms: 400,
        },
        PlannerRouteBudget {
            route_kind: PlannerRouteKind::Impact,
            max_candidates: 8,
            max_groups: 4,
            timeout_ms: 600,
        },
    ]
}

/// The default budget policy: a 1.5 s total timeout, ten groups, and the default route budgets.
pub open spec fn is_default_budget_policy(p: PlannerBudgetPolicy) -> bool {
    &&& p.total_timeout_ms == 1_500
    &&& p.max_groups == 10
    &&& p.route_budgets@ == default_route_budgets()
}

/// The default planner budget policy.
pub fn default_budget_policy() -> (p: PlannerBudgetPolicy)
    ensures
        is_default_budget_policy(p),
{
    let budgets = vec![
        PlannerRouteBudget {
            route_kind: PlannerRouteKind::Exact,
            max_candidates: 25,
            max_groups: 10,
            timeout_ms: 150,
        },
        PlannerRouteBudget {
            route_kind: PlannerRouteKind::Symbol,
            max_candidates: 20,
            max_groups: 10,
            timeout_ms: 250,
        },
        PlannerRouteBudget {
            route_kind: PlannerRouteKind::Semantic,
            max_candidates: 16,
            max_groups: 8,
            timeout_ms: 400,
        },
        PlannerRouteBudget {
            route_kind: PlannerRouteKind::Impact,
            max_candidates: 8,
            max_groups: 4,
            timeout_ms: 600,
        },
    ];
    assert(budgets@ =~= default_route_budgets());
    PlannerBudgetPolicy { total_timeout_ms: 1_500, max_groups: 10, route_budgets: budgets }
}

#[derive(Debug, Clone, PartialEq, Eq)]
pub struct PlannerConfig {
    pub enabled: bool,
    pub default_mode: PlannerMode,
    pub default_limit: usize,
    pub max_limit: usize,
    pub default_include_trace: bool,
    pub routes: PlannerRoutesConfig,
    pub budgets: PlannerBudgetPolicy,
}

impl Default for PlannerConfig {
    fn default() -> (c: Self)
        ensures
            c.enabled,
            c.default_mode == PlannerMode::Auto,
            c.default_limit == 10,
            c.max_limit == 50,
            !c.default_include_trace,
            c.routes == (PlannerRoutesConfig {
                exact_enabled: true,
                symbol_enabled: true,
                semantic_enabled: true,
                impact_enabled: true,
            }),
            is_default_budget_policy(c.budgets),
    {
        PlannerConfig {
            enabled: true,
            default_mode: PlannerMode::Auto,
            default_limit: 10,
            max_limit: 50,
            default_include_trace: false,
            routes: PlannerRoutesConfig::default(),
            budgets: default_budget_policy(),
        }
    }
}

#[derive(Debug, Clone, PartialEq, Eq)]
pub struct RuntimeConfig {
    pub version: u32,
    pub protocol_version: String,
    pub directories: AppDirectories,
    pub transport: TransportSettings,
    pub repo_registry: RepoRegistrySettings,
    pub watch: WatchConfig,
    pub scheduler: SchedulerDefaults,
    pub logging: LoggingSettings,
    pub ignores: IgnoreSettings,
    pub parser: ParserConfig,
    pub symbol_index: SymbolIndexConfig,
    pub impact: ImpactConfig,
    pub semantic: SemanticConfig,
    pub planner: PlannerConfig,
}

/// The five ignore patterns every runtime starts with.
pub open spec fn default_global_ignore_patterns() -> Seq<Seq<char>> {
    seq![".git/**"@, "node_modules/**"@, "target/**"@, ".next/**"@, "dist/**"@]
}

/// The five ignore patterns every runtime starts with.
pub fn global_ignore_patterns() -> (v: Vec<String>)
    ensures
        v@.map_values(|s: String| s@) == default_global_ignore_patterns(),
{
    let v = vec![
        owned(".git/**"),
        owned("node_modules/**"),
        owned("target/**"),
        owned(".next/**"),
        owned("dist/**"),
    ];
    assert(v@.map_values(|s: String| s@) =~= default_global_ignore_patterns());
    v
}

impl Default for RuntimeConfig {
    fn default() -> (c: Self)
        ensures
            c.version == CONFIG_VERSION,
            c.protocol_version@ == PROTOCOL_VERSION@,
            c.directories.runtime_root@ == ".hyperindex"@,
            c.directories.state_dir@ == ".hyperindex/state"@,
            c.directories.data_dir@ == ".hyperindex/data"@,
            c.directories.manifests_dir@ == ".hyperindex/data/manifests"@,
            c.directories.logs_dir@ == ".hyperindex/logs"@,
            c.directories.temp_dir@ == ".hyperindex/tmp"@,
            c.transport.kind == TransportKind::UnixSocket,
            c.transport.socket_path@ == ".hyperindex/hyperd.sock"@,
            c.transport.connect_timeout_ms == 2_000,
            c.transport.request_timeout_ms == 30_000,
            c.transport.max_frame_bytes == 1_048_576,
            c.repo_registry.backend == RepoRegistryBackend::Sqlite,
            c.repo_registry.sqlite_path@ == ".hyperindex/state/runtime.sqlite3"@,
            c.repo_registry.manifests_dir@ == ".hyperindex/data/manifests"@,
            c.watch == (WatchConfig {
                backend: WatchBackend::Poll,
                poll_interval_ms: 250,
                debounce_ms: 100,
                batch_max_events: 256,
            }),
            c.scheduler == (SchedulerDefaults {
                max_concurrent_repos: 1,
                coalesce_window_ms: 150,
                idle_flush_ms: 500,
                job_lease_ms: 30_000,
            }),
            c.logging == (LoggingSettings { verbosity: LogVerbosity::Info, format: LogFormat::Text }),
            c.ignores.global_patterns@.map_values(|s: String| s@)
                == default_global_ignore_patterns(),
            c.ignores.repo_patterns@.len() == 0,
            c.ignores.exclude_dot_git,
            c.ignores.exclude_node_modules,
            c.ignores.exclude_target,
            c.parser.max_file_bytes == 2_097_152,
            c.parser.language_packs@.len() == 1,
            is_default_language_pack(c.parser.language_packs@[0]),
            c.planner.enabled,
            c.planner.default_mode == PlannerMode::Auto,
            c.planner.max_limit == 50,
            is_default_budget_policy(c.planner.budgets),
    {
        RuntimeConfig {
            version: CONFIG_VERSION,
            protocol_version: owned(PROTOCOL_VERSION),
            directories: AppDirectories {
                runtime_root: owned(".hyperindex"),
                state_dir: owned(".hyperindex/state"),
                data_dir: owned(".hyperindex/data"),
                manifests_dir: owned(".hyperindex/data/manifests"),
                logs_dir: owned(".hyperindex/logs"),
                temp_dir: owned(".hyperindex/tmp"),
            },
            transport: TransportSettings {
                kind: TransportKind::UnixSocket,
                socket_path: owned(".hyperindex/hyperd.sock"),
                connect_timeout_ms: 2_000,
                request_timeout_ms: 30_000,
                max_frame_bytes: 1_048_576,
            },
            repo_registry: RepoRegistrySettings {
                backend: RepoRegistryBackend::Sqlite,
                sqlite_path: owned(".hyperindex/state/runtime.sqlite3"),
                manifests_dir: owned(".hyperindex/data/manifests"),
            },
            watch: WatchConfig {
                backend: WatchBackend::Poll,
                poll_interval_ms: 250,
                debounce_ms: 100,
                batch_max_events: 256,
            },
            scheduler: SchedulerDefaults {
                max_concurrent_repos: 1,
                coalesce_window_ms: 150,
                idle_flush_ms: 500,
                job_lease_ms: 30_000,
            },
            logging: LoggingSettings { verbosity: LogVerbosity::Info, format: LogFormat::Text },
            ignores: IgnoreSettings {
                global_patterns: global_ignore_patterns(),
                repo_patterns: Vec::new(),
                exclude_dot_git: true,
                exclude_node_modules: true,
                exclude_target: true,
            },
            parser: ParserConfig::default(),
            symbol_index: SymbolIndexConfig::default(),
            impact: ImpactConfig::default(),
            semantic: SemanticConfig::default(),
            planner: PlannerConfig::default(),
        }
    }
}

} // verus!

use vstd::prelude::*;

verus! {

/// One step of the semantic store's schema history.
#[derive(Debug, Clone, PartialEq, Eq)]
pub struct SemanticStoreMigration {
    pub schema_version: u32,
    pub description: &'static str,
}

/// The schema version of the semantic store.
pub const SEMANTIC_STORE_SCHEMA_VERSION: u32 = 4;

/// The schema history, oldest first: one step per version up to the current one.
pub fn planned_migrations() -> (m: Vec<SemanticStoreMigration>)
    ensures
        m@.len() == SEMANTIC_STORE_SCHEMA_VERSION,
        forall|i: int| 0 <= i < m@.len() ==> #[trigger] m@[i].schema_version == i + 1,
        m@[0].description@ == "phase6 semantic scaffold tables"@,
        m@[1].description@ == "phase6 semantic chunk persistence"@,
        m@[2].description@ == "phase6 embedding cache identity expansion"@,
        m@[3].description@ == "phase6 persisted flat vector index"@,
{
    vec![
        SemanticStoreMigration { schema_version: 1, description: "phase6 semantic scaffold tables" },
        SemanticStoreMigration { schema_version: 2, description: "phase6 semantic chunk persistence" },
        SemanticStoreMigration { schema_version: 3, description: "phase6 embedding cache identity expansion" },
        SemanticStoreMigration { schema_version: 4, description: "phase6 persisted flat vector index" },
    ]
}

} // verus!

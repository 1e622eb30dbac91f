use vstd::prelude::*;

use crate::planner::copy::{copy_vec, extend_evidence, DeepCopy};
use crate::planner::daemon_integration::PlannerRuntimeContext;
use crate::protocol::impact::ImpactEntityRef;
use crate::protocol::planner::{
    PlannerAmbiguity, PlannerAnchor, PlannerCandidate, PlannerDiagnostic, PlannerEvidenceItem,
    PlannerFilterCapabilities, PlannerQueryFilters, PlannerQueryIr, PlannerRouteBudget,
    PlannerRouteCapability, PlannerRouteKind,
};
use crate::protocol::snapshot::ComposedSnapshot;
use crate::protocol::symbols::{LanguageId, SourceSpan, SymbolId, SymbolKind};
use crate::text::{concat2, opt_view, str_chars, string_from_chars, utf8};

verus! {

/// How ready a route is to answer.
#[derive(Debug, Clone, Copy, PartialEq, Eq, Structural)]
pub enum PlannerRouteReadiness {
    Ready,
    Disabled,
    Unavailable,
    Unbuilt,
    Degraded,
}

/// What a route promises about the results it returns.
#[derive(Debug, Clone, Copy, PartialEq, Eq, Structural)]
pub struct PlannerRouteConstraints {
    pub requires_unique_target: bool,
    pub emits_engine_local_scores: bool,
    pub returns_file_provenance: bool,
    pub returns_symbol_provenance: bool,
    pub returns_span_provenance: bool,
    pub planner_applies_filters_post_retrieval: bool,
}

impl Default for PlannerRouteConstraints {
    /// No promises at all.
    fn default() -> (c: Self)
        ensures
            !c.requires_unique_target,
            !c.emits_engine_local_scores,
            !c.returns_file_provenance,
            !c.returns_symbol_provenance,
            !c.returns_span_provenance,
            !c.planner_applies_filters_post_retrieval,
    {
        PlannerRouteConstraints {
            requires_unique_target: false,
            emits_engine_local_scores: false,
            returns_file_provenance: false,
            returns_symbol_provenance: false,
            returns_span_provenance: false,
            planner_applies_filters_post_retrieval: false,
        }
    }
}

/// A route's full account of its own capability.
#[derive(Debug, Clone, PartialEq, Eq)]
pub struct PlannerRouteCapabilityReport {
    pub route_kind: PlannerRouteKind,
    pub enabled: bool,
    pub available: bool,
    pub readiness: PlannerRouteReadiness,
    pub reason: Option<String>,
    pub supported_filters: PlannerFilterCapabilities,
    pub constraints: PlannerRouteConstraints,
    pub diagnostics: Vec<PlannerDiagnostic>,
    pub notes: Vec<String>,
}

/// The names of the filters that are requested but that a route does not support, in a
/// fixed order.
pub open spec fn unsupported_filter_names(filters: PlannerQueryFilters, supported: PlannerFilterCapabilities) -> Seq<Seq<char>> {
    (if filters.path_globs@.len() > 0 && !supported.path_globs { seq!["path_globs"@] } else { seq![] })
    + (if filters.package_names@.len() > 0 && !supported.package_names { seq!["package_names"@] } else { seq![] })
    + (if filters.package_roots@.len() > 0 && !supported.package_roots { seq!["package_roots"@] } else { seq![] })
    + (if filters.workspace_roots@.len() > 0 && !supported.workspace_roots { seq!["workspace_roots"@] } else { seq![] })
    + (if filters.languages@.len() > 0 && !supported.languages { seq!["languages"@] } else { seq![] })
    + (if filters.extensions@.len() > 0 && !supported.extensions { seq!["extensions"@] } else { seq![] })
    + (if filters.symbol_kinds@.len() > 0 && !supported.symbol_kinds { seq!["symbol_kinds"@] } else { seq![] })
}

/// The views of a sequence of string slices.
pub open spec fn str_views(s: Seq<&'static str>) -> Seq<Seq<char>> {
    s.map_values(|x: &'static str| x@)
}

fn push_name(out: &mut Vec<&'static str>, cond: bool, name: &'static str)
    ensures
        str_views(final(out)@) == str_views(old(out)@) + (if cond { seq![name@] } else { seq![] }),
{
    if cond {
        out.push(name);
        assert(str_views(out@) =~= str_views(old(out)@) + seq![name@]);
    } else {
        assert(str_views(out@) =~= str_views(old(out)@) + seq![]);
    }
}

impl PlannerRouteCapabilityReport {
    /// The public part of this report.
    pub fn to_public_capability(&self) -> (c: PlannerRouteCapability)
        ensures
            c.route_kind == self.route_kind,
            c.enabled == self.enabled,
            c.available == self.available,
            c.reason == self.reason,
    {
        PlannerRouteCapability {
            route_kind: self.route_kind,
            enabled: self.enabled,
            available: self.available,
            reason: self.reason.deep_copy(),
        }
    }

    /// The requested filters that this route cannot apply.
    pub fn unsupported_filters(&self, filters: &PlannerQueryFilters) -> (r: Vec<&'static str>)
        ensures
            str_views(r@) == unsupported_filter_names(*filters, self.supported_filters),
    {
        let mut unsupported: Vec<&'static str> = Vec::new();
        let s = self.supported_filters;
        push_name(&mut unsupported, filters.path_globs.len() > 0 && !s.path_globs, "path_globs");
        push_name(&mut unsupported, filters.package_names.len() > 0 && !s.package_names, "package_names");
        push_name(&mut unsupported, filters.package_roots.len() > 0 && !s.package_roots, "package_roots");
        push_name(&mut unsupported, filters.workspace_roots.len() > 0 && !s.workspace_roots, "workspace_roots");
        push_name(&mut unsupported, filters.languages.len() > 0 && !s.languages, "languages");
        push_name(&mut unsupported, filters.extensions.len() > 0 && !s.extensions, "extensions");
        push_name(&mut unsupported, filters.symbol_kinds.len() > 0 && !s.symbol_kinds, "symbol_kinds");
        assert(str_views(unsupported@) =~= unsupported_filter_names(*filters, self.supported_filters));
        unsupported
    }
}

/// What a route is asked to do for one query.
pub struct PlannerRouteRequest<'a> {
    pub runtime: &'a PlannerRuntimeContext,
    pub snapshot: &'a ComposedSnapshot,
    pub ir: &'a PlannerQueryIr,
    pub budget: PlannerRouteBudget,
}

/// Whether a route ran.
#[derive(Debug, Clone, Copy, PartialEq, Eq, Structural)]
pub enum PlannerRouteExecutionState {
    Deferred,
    Executed,
}

/// A route's candidate, in the planner's common shape.
#[derive(Debug, Clone, PartialEq, Eq)]
pub struct NormalizedPlannerCandidate {
    pub candidate_id: String,
    pub route_kind: PlannerRouteKind,
    pub engine_type: PlannerRouteKind,
    pub label: String,
    pub anchor: PlannerAnchor,
    pub rank: Option<u32>,
    pub engine_score: Option<u32>,
    pub normalized_score: Option<u32>,
    pub primary_path: Option<String>,
    pub primary_symbol_id: Option<SymbolId>,
    pub primary_span: Option<SourceSpan>,
    pub language: Option<LanguageId>,
    pub extension: Option<String>,
    pub symbol_kind: Option<SymbolKind>,
    pub package_name: Option<String>,
    pub package_root: Option<String>,
    pub workspace_root: Option<String>,
    pub evidence: Vec<PlannerEvidenceItem>,
    pub engine_diagnostics: Vec<String>,
    pub notes: Vec<String>,
}

/// The view of an optional string slice.
pub open spec fn opt_str(o: Option<&str>) -> Option<Seq<char>> {
    match o {
        Some(s) => Some(s@),
        None => None,
    }
}

/// The file path an anchor points into, if any.
pub open spec fn anchor_path(anchor: PlannerAnchor) -> Option<Seq<char>> {
    match anchor {
        PlannerAnchor::Symbol { path, .. } => Some(path@),
        PlannerAnchor::Span { path, .. } => Some(path@),
        PlannerAnchor::File { path } => Some(path@),
        PlannerAnchor::Impact { entity } => match entity {
            ImpactEntityRef::Symbol { path, .. } => Some(path@),
            ImpactEntityRef::File { path } => Some(path@),
            ImpactEntityRef::Test { path, .. } => Some(path@),
            ImpactEntityRef::Package { .. } => None,
        },
        PlannerAnchor::Package { .. } => None,
        PlannerAnchor::Workspace { .. } => None,
    }
}

/// The package name an anchor names, if any.
pub open spec fn anchor_package_name(anchor: PlannerAnchor) -> Option<Seq<char>> {
    match anchor {
        PlannerAnchor::Package { package_name, .. } => Some(package_name@),
        PlannerAnchor::Impact { entity } => match entity {
            ImpactEntityRef::Package { package_name, .. } => Some(package_name@),
            _ => None,
        },
        _ => None,
    }
}

/// The package root an anchor names, if any.
pub open spec fn anchor_package_root(anchor: PlannerAnchor) -> Option<Seq<char>> {
    match anchor {
        PlannerAnchor::Package { package_root, .. } => Some(package_root@),
        PlannerAnchor::Impact { entity } => match entity {
            ImpactEntityRef::Package { package_root, .. } => Some(package_root@),
            _ => None,
        },
        _ => None,
    }
}

/// The text after the last `.` of `s`, if `s` holds a `.`.
pub open spec fn after_last_dot(s: Seq<char>) -> Option<Seq<char>>
    decreases s.len(),
{
    if s.len() == 0 {
        None
    } else if s.last() == '.' {
        Some(Seq::empty())
    } else {
        match after_last_dot(s.drop_last()) {
            Some(e) => Some(e.push(s.last())),
            None => None,
        }
    }
}

/// `s` without its leading dots.
pub open spec fn strip_leading_dots(s: Seq<char>) -> Seq<char>
    decreases s.len(),
{
    if s.len() > 0 && s[0] == '.' {
        strip_leading_dots(s.drop_first())
    } else {
        s
    }
}

/// The code of `c`, with ASCII upper case folded to lower case.
pub open spec fn fold_char(c: char) -> u32 {
    let u = c as u32;
    if 65 <= u && u <= 90 { (u + 32) as u32 } else { u }
}

/// `a` and `b` are equal up to ASCII case.
pub open spec fn eq_ignore_ascii_case(a: Seq<char>, b: Seq<char>) -> bool {
    a.len() == b.len() && forall|i: int| 0 <= i < a.len() ==> fold_char(#[trigger] a[i]) == fold_char(b[i])
}

/// The byte `b`, with ASCII upper case folded to lower case.
pub open spec fn fold_byte(b: u8) -> u8 {
    if 65 <= b && b <= 90 { (b + 32) as u8 } else { b }
}

/// Glob matching on bytes: `*` matches any run, `?` any one byte, other bytes match
/// themselves up to ASCII case.
pub open spec fn wildcard(p: Seq<u8>, c: Seq<u8>) -> bool
    decreases p.len() + c.len(),
{
    if p.len() == 0 {
        c.len() == 0
    } else if p[0] == 42u8 {
        wildcard(p.drop_first(), c) || (c.len() > 0 && wildcard(p, c.drop_first()))
    } else if p[0] == 63u8 {
        c.len() > 0 && wildcard(p.drop_first(), c.drop_first())
    } else {
        c.len() > 0 && fold_byte(p[0]) == fold_byte(c[0]) && wildcard(p.drop_first(), c.drop_first())
    }
}

impl NormalizedPlannerCandidate {
    /// The path of the candidate: its own, else its anchor's.
    pub open spec fn path_view(&self) -> Option<Seq<char>> {
        match self.primary_path {
            Some(p) => Some(p@),
            None => anchor_path(self.anchor),
        }
    }

    /// The package name of the candidate: its own, else its anchor's.
    pub open spec fn package_name_view(&self) -> Option<Seq<char>> {
        match self.package_name {
            Some(p) => Some(p@),
            None => anchor_package_name(self.anchor),
        }
    }

    /// The package root of the candidate: its own, else its anchor's.
    pub open spec fn package_root_view(&self) -> Option<Seq<char>> {
        match self.package_root {
            Some(p) => Some(p@),
            None => anchor_package_root(self.anchor),
        }
    }

    /// The extension of the candidate: its own, else what follows the last dot of its path.
    pub open spec fn extension_view(&self) -> Option<Seq<char>> {
        match self.extension {
            Some(e) => Some(e@),
            None => match self.path_view() {
                Some(p) => after_last_dot(p),
                None => None,
            },
        }
    }

    /// The path-glob filter: some glob matches the candidate's path.
    pub open spec fn passes_path_globs(&self, filters: PlannerQueryFilters) -> bool {
        filters.path_globs@.len() > 0 ==> (self.path_view() is Some && exists|i: int|
            0 <= i < filters.path_globs@.len() && #[trigger] wildcard(utf8(filters.path_globs@[i]@), utf8(self.path_view()->0)))
    }

    /// The package-name filter: the candidate's package name is listed.
    pub open spec fn passes_package_names(&self, filters: PlannerQueryFilters) -> bool {
        filters.package_names@.len() > 0 ==> (self.package_name_view() matches Some(n) && exists|i: int|
            0 <= i < filters.package_names@.len() && #[trigger] filters.package_names@[i]@ == n)
    }

    /// The package-root filter: the candidate's package root is listed.
    pub open spec fn passes_package_roots(&self, filters: PlannerQueryFilters) -> bool {
        filters.package_roots@.len() > 0 ==> (self.package_root_view() matches Some(n) && exists|i: int|
            0 <= i < filters.package_roots@.len() && #[trigger] filters.package_roots@[i]@ == n)
    }

    /// The workspace-root filter: the candidate's workspace root, or else the snapshot's
    /// repository root, is listed.
    pub open spec fn passes_workspace_roots(&self, filters: PlannerQueryFilters, repo_root: Seq<char>) -> bool {
        filters.workspace_roots@.len() > 0 ==> exists|i: int|
            0 <= i < filters.workspace_roots@.len() && #[trigger] filters.workspace_roots@[i]@ == (match self.workspace_root {
                Some(w) => w@,
                None => repo_root,
            })
    }

    /// The extension filter: some listed extension, without leading dots, equals the
    /// candidate's extension up to ASCII case.
    pub open spec fn passes_extensions(&self, filters: PlannerQueryFilters) -> bool {
        filters.extensions@.len() > 0 ==> (self.extension_view() is Some && exists|i: int|
            0 <= i < filters.extensions@.len() && #[trigger] eq_ignore_ascii_case(
                strip_leading_dots(filters.extensions@[i]@), self.extension_view()->0))
    }

    /// Whether this candidate passes every non-empty filter of `filters`.
    pub open spec fn passes(&self, filters: PlannerQueryFilters, repo_root: Seq<char>) -> bool {
        &&& self.passes_path_globs(filters)
        &&& self.passes_package_names(filters)
        &&& self.passes_package_roots(filters)
        &&& self.passes_workspace_roots(filters, repo_root)
        &&& filters.languages@.len() > 0 ==> (self.language matches Some(l) && filters.languages@.contains(l))
        &&& self.passes_extensions(filters)
        &&& filters.symbol_kinds@.len() > 0 ==> (self.symbol_kind matches Some(k) && filters.symbol_kinds@.contains(k))
    }

    /// The public candidate: the same fields, with each engine diagnostic appended to the
    /// notes as `engine diagnostic: ..`.
    pub fn to_public_candidate(&self) -> (c: PlannerCandidate)
        ensures
            c.candidate_id == self.candidate_id,
            c.route_kind == self.route_kind,
            c.label == self.label,
            c.anchor == self.anchor,
            c.rank == self.rank,
            c.route_score == self.engine_score,
            c.normalized_score == self.normalized_score,
            c.evidence.deep_view() == self.evidence.deep_view(),
            c.notes@.len() == self.notes@.len() + self.engine_diagnostics@.len(),
            forall|i: int| 0 <= i < self.notes@.len() ==> c.notes@[i] == self.notes@[i],
            forall|i: int| 0 <= i < self.engine_diagnostics@.len() ==>
                #[trigger] c.notes@[self.notes@.len() + i]@ == "engine diagnostic: "@ + self.engine_diagnostics@[i]@,
    {
        let mut notes = copy_vec(&self.notes);
        let mut i: usize = 0;
        while i < self.engine_diagnostics.len()
            invariant
                0 <= i <= self.engine_diagnostics@.len(),
                notes@.len() == self.notes@.len() + i,
                forall|k: int| 0 <= k < self.notes@.len() ==> notes@[k] == self.notes@[k],
                forall|k: int| 0 <= k < i ==>
                    #[trigger] notes@[self.notes@.len() + k]@ == "engine diagnostic: "@ + self.engine_diagnostics@[k]@,
            decreases self.engine_diagnostics@.len() - i,
        {
            let line = concat2("engine diagnostic: ", self.engine_diagnostics[i].as_str());
            notes.push(line);
            i = i + 1;
        }
        let mut evidence: Vec<PlannerEvidenceItem> = Vec::new();
        extend_evidence(&mut evidence, &self.evidence);
        assert(evidence.deep_view() =~= self.evidence.deep_view());
        PlannerCandidate {
            candidate_id: self.candidate_id.clone(),
            route_kind: self.route_kind,
            label: self.label.clone(),
            anchor: self.anchor.deep_copy(),
            rank: self.rank,
            route_score: self.engine_score,
            normalized_score: self.normalized_score,
            evidence,
            notes,
        }
    }

    /// Whether the candidate passes every non-empty filter; a candidate that lacks the
    /// field a filter reads fails it, and the workspace root defaults to the snapshot's.
    pub fn matches_filters(&self, filters: &PlannerQueryFilters, snapshot: &ComposedSnapshot) -> (r: bool)
        ensures
            r == self.passes(*filters, snapshot.repo_root@),
    {
        self.path_globs_ok(filters) && self.package_names_ok(filters) && self.package_roots_ok(filters)
            && self.workspace_roots_ok(filters, snapshot) && self.languages_ok(filters)
            && self.extensions_ok(filters) && self.symbol_kinds_ok(filters)
    }

    fn path_globs_ok(&self, filters: &PlannerQueryFilters) -> (r: bool)
        ensures
            r == self.passes_path_globs(*filters),
    {
        if filters.path_globs.len() == 0 {
            return true;
        }
        match self.path() {
            None => false,
            Some(path) => {
                let found = any_glob_matches(&filters.path_globs, path);
                proof {
                    assert(self.path_view() == Some(path@));
                    if found {
                        let i = choose|i: int| 0 <= i < filters.path_globs@.len() && #[trigger] wildcard(utf8(filters.path_globs@[i]@), utf8(path@));
                        assert(self.path_view() == Some(path@));
                        assert(wildcard(utf8(filters.path_globs@[i]@), utf8(path@)));
                        assert(wildcard(utf8(filters.path_globs@[i]@), utf8(self.path_view()->0)));
                    } else {
                        assert(!self.passes_path_globs(*filters));
                    }
                }
                found
            },
        }
    }

    fn package_names_ok(&self, filters: &PlannerQueryFilters) -> (r: bool)
        ensures
            r == self.passes_package_names(*filters),
    {
        if filters.package_names.len() == 0 {
            return true;
        }
        match self.package_name() {
            None => false,
            Some(name) => contains_str(&filters.package_names, name),
        }
    }

    fn package_roots_ok(&self, filters: &PlannerQueryFilters) -> (r: bool)
        ensures
            r == self.passes_package_roots(*filters),
    {
        if filters.package_roots.len() == 0 {
            return true;
        }
        match self.package_root() {
            None => false,
            Some(root) => contains_str(&filters.package_roots, root),
        }
    }

    fn workspace_roots_ok(&self, filters: &PlannerQueryFilters, snapshot: &ComposedSnapshot) -> (r: bool)
        ensures
            r == self.passes_workspace_roots(*filters, snapshot.repo_root@),
    {
        if filters.workspace_roots.len() == 0 {
            return true;
        }
        let workspace_root = match &self.workspace_root {
            Some(w) => w.as_str(),
            None => snapshot.repo_root.as_str(),
        };
        contains_str(&filters.workspace_roots, workspace_root)
    }

    fn languages_ok(&self, filters: &PlannerQueryFilters) -> (r: bool)
        ensures
            r == (filters.languages@.len() > 0 ==> (self.language matches Some(l) && filters.languages@.contains(l))),
    {
        if filters.languages.len() == 0 {
            return true;
        }
        match self.language {
            None => false,
            Some(language) => contains_language(&filters.languages, language),
        }
    }

    fn extensions_ok(&self, filters: &PlannerQueryFilters) -> (r: bool)
        ensures
            r == self.passes_extensions(*filters),
    {
        if filters.extensions.len() == 0 {
            return true;
        }
        match self.extension() {
            None => false,
            Some(extension) => {
                let found = any_extension_matches(&filters.extensions, &extension);
                proof {
                    assert(self.extension_view() == Some(extension@));
                    if found {
                        let i = choose|i: int| 0 <= i < filters.extensions@.len() && #[trigger] eq_ignore_ascii_case(
                            strip_leading_dots(filters.extensions@[i]@), extension@);
                        assert(self.extension_view() == Some(extension@));
                        assert(eq_ignore_ascii_case(strip_leading_dots(filters.extensions@[i]@), self.extension_view()->0));
                    }
                }
                found
            },
        }
    }

    fn symbol_kinds_ok(&self, filters: &PlannerQueryFilters) -> (r: bool)
        ensures
            r == (filters.symbol_kinds@.len() > 0 ==> (self.symbol_kind matches Some(k) && filters.symbol_kinds@.contains(k))),
    {
        if filters.symbol_kinds.len() == 0 {
            return true;
        }
        match self.symbol_kind {
            None => false,
            Some(kind) => contains_symbol_kind(&filters.symbol_kinds, kind),
        }
    }

    /// The path of the candidate: its own, else its anchor's.
    pub fn path(&self) -> (r: Option<&str>)
        ensures
            opt_str(r) == self.path_view(),
    {
        if let Some(path) = &self.primary_path {
            return Some(path.as_str());
        }
        match &self.anchor {
            PlannerAnchor::Symbol { path, .. } => Some(path.as_str()),
            PlannerAnchor::Span { path, .. } => Some(path.as_str()),
            PlannerAnchor::File { path } => Some(path.as_str()),
            PlannerAnchor::Impact { entity } => match entity {
                ImpactEntityRef::Symbol { path, .. } => Some(path.as_str()),
                ImpactEntityRef::File { path } => Some(path.as_str()),
                ImpactEntityRef::Test { path, .. } => Some(path.as_str()),
                ImpactEntityRef::Package { .. } => None,
            },
            PlannerAnchor::Package { .. } => None,
            PlannerAnchor::Workspace { .. } => None,
        }
    }

    /// The package name of the candidate: its own, else its anchor's.
    pub fn package_name(&self) -> (r: Option<&str>)
        ensures
            opt_str(r) == self.package_name_view(),
    {
        if let Some(name) = &self.package_name {
            return Some(name.as_str());
        }
        match &self.anchor {
            PlannerAnchor::Package { package_name, .. } => Some(package_name.as_str()),
            PlannerAnchor::Impact { entity } => match entity {
                ImpactEntityRef::Package { package_name, .. } => Some(package_name.as_str()),
                _ => None,
            },
            _ => None,
        }
    }

    /// The package root of the candidate: its own, else its anchor's.
    pub fn package_root(&self) -> (r: Option<&str>)
        ensures
            opt_str(r) == self.package_root_view(),
    {
        if let Some(root) = &self.package_root {
            return Some(root.as_str());
        }
        match &self.anchor {
            PlannerAnchor::Package { package_root, .. } => Some(package_root.as_str()),
            PlannerAnchor::Impact { entity } => match entity {
                ImpactEntityRef::Package { package_root, .. } => Some(package_root.as_str()),
                _ => None,
            },
            _ => None,
        }
    }

    fn extension(&self) -> (r: Option<String>)
        ensures
            opt_view(r) == self.extension_view(),
    {
        if let Some(extension) = &self.extension {
            return Some(extension.clone());
        }
        match self.path() {
            None => None,
            Some(path) => text_after_last_dot(path),
        }
    }
}

/// The text after the last `.` of `s`.
fn text_after_last_dot(s: &str) -> (r: Option<String>)
    ensures
        opt_view(r) == after_last_dot(s@),
{
    let chars = str_chars(s);
    let n = chars.len();
    let mut i: usize = n;
    assert(s@.subrange(0, n as int) =~= s@);
    proof {
        match after_last_dot(s@) {
            Some(e) => {
                assert(e + s@.subrange(n as int, n as int) =~= e);
            },
            None => {},
        }
    }
    while i > 0 && chars[i - 1] != '.'
        invariant
            0 <= i <= n,
            n == chars@.len(),
            chars@ == s@,
            after_last_dot(s@) == (match after_last_dot(s@.subrange(0, i as int)) {
                Some(e) => Some(e + s@.subrange(i as int, n as int)),
                None => None,
            }),
        decreases i,
    {
        let ghost pre = s@.subrange(0, i as int);
        assert(pre.drop_last() =~= s@.subrange(0, i - 1));
        assert(s@.subrange(i - 1, n as int) =~= seq![pre.last()] + s@.subrange(i as int, n as int));
        proof {
            match after_last_dot(pre.drop_last()) {
                Some(e) => {
                    assert(e.push(pre.last()) + s@.subrange(i as int, n as int) =~= e + s@.subrange(i - 1, n as int));
                },
                None => {},
            }
        }
        i = i - 1;
    }
    if i == 0 {
        assert(s@.subrange(0, 0) =~= Seq::<char>::empty());
        None
    } else {
        let mut tail: Vec<char> = Vec::new();
        let mut j: usize = i;
        while j < n
            invariant
                i <= j <= n,
                n == chars@.len(),
                chars@ == s@,
                tail@ == s@.subrange(i as int, j as int),
            decreases n - j,
        {
            tail.push(chars[j]);
            assert(s@.subrange(i as int, j + 1) =~= s@.subrange(i as int, j as int).push(s@[j as int]));
            j = j + 1;
        }
        let ghost pre = s@.subrange(0, i as int);
        assert(pre.last() == '.');
        assert(Seq::<char>::empty() + s@.subrange(i as int, n as int) =~= s@.subrange(i as int, n as int));
        Some(string_from_chars(&tail))
    }
}


fn fold_ascii_byte(b: u8) -> (r: u8)
    ensures
        r == fold_byte(b),
{
    if 65 <= b && b <= 90 { b + 32 } else { b }
}

fn wildcard_from(p: &[u8], i: usize, c: &[u8], j: usize) -> (r: bool)
    requires
        i <= p@.len(),
        j <= c@.len(),
    ensures
        r == wildcard(p@.subrange(i as int, p@.len() as int), c@.subrange(j as int, c@.len() as int)),
    decreases (p@.len() - i) + (c@.len() - j),
{
    let ghost ps = p@.subrange(i as int, p@.len() as int);
    let ghost cs = c@.subrange(j as int, c@.len() as int);
    if i == p.len() {
        return j == c.len();
    }
    assert(ps[0] == p@[i as int]);
    assert(ps.drop_first() =~= p@.subrange(i + 1, p@.len() as int));
    if j < c.len() {
        assert(cs[0] == c@[j as int]);
        assert(cs.drop_first() =~= c@.subrange(j + 1, c@.len() as int));
    }
    if p[i] == 42u8 {
        if wildcard_from(p, i + 1, c, j) {
            true
        } else {
            j < c.len() && wildcard_from(p, i, c, j + 1)
        }
    } else if p[i] == 63u8 {
        j < c.len() && wildcard_from(p, i + 1, c, j + 1)
    } else {
        j < c.len() && fold_ascii_byte(p[i]) == fold_ascii_byte(c[j]) && wildcard_from(p, i + 1, c, j + 1)
    }
}

/// Glob matching of `candidate` against `pattern`, on their UTF-8 bytes.
pub fn wildcard_match(pattern: &str, candidate: &str) -> (r: bool)
    ensures
        r == wildcard(utf8(pattern@), utf8(candidate@)),
{
    let p = pattern.as_bytes();
    let c = candidate.as_bytes();
    assert(p@.subrange(0, p@.len() as int) =~= p@);
    assert(c@.subrange(0, c@.len() as int) =~= c@);
    wildcard_from(p, 0, c, 0)
}

fn any_glob_matches(globs: &Vec<String>, path: &str) -> (r: bool)
    ensures
        r == exists|i: int| 0 <= i < globs@.len() && #[trigger] wildcard(utf8(globs@[i]@), utf8(path@)),
{
    let mut i: usize = 0;
    while i < globs.len()
        invariant
            0 <= i <= globs@.len(),
            forall|k: int| 0 <= k < i ==> !#[trigger] wildcard(utf8(globs@[k]@), utf8(path@)),
        decreases globs@.len() - i,
    {
        if wildcard_match(globs[i].as_str(), path) {
            return true;
        }
        i = i + 1;
    }
    false
}

fn contains_str(list: &Vec<String>, value: &str) -> (r: bool)
    ensures
        r == exists|i: int| 0 <= i < list@.len() && #[trigger] list@[i]@ == value@,
{
    let owned = value.to_owned();
    let mut i: usize = 0;
    while i < list.len()
        invariant
            0 <= i <= list@.len(),
            owned@ == value@,
            forall|k: int| 0 <= k < i ==> #[trigger] list@[k]@ != value@,
        decreases list@.len() - i,
    {
        if list[i] == owned {
            return true;
        }
        i = i + 1;
    }
    false
}

fn contains_language(list: &Vec<LanguageId>, value: LanguageId) -> (r: bool)
    ensures
        r == list@.contains(value),
{
    let mut i: usize = 0;
    while i < list.len()
        invariant
            0 <= i <= list@.len(),
            forall|k: int| 0 <= k < i ==> list@[k] != value,
        decreases list@.len() - i,
    {
        if list[i] == value {
            return true;
        }
        i = i + 1;
    }
    false
}

fn contains_symbol_kind(list: &Vec<SymbolKind>, value: SymbolKind) -> (r: bool)
    ensures
        r == list@.contains(value),
{
    let mut i: usize = 0;
    while i < list.len()
        invariant
            0 <= i <= list@.len(),
            forall|k: int| 0 <= k < i ==> list@[k] != value,
        decreases list@.len() - i,
    {
        if list[i] == value {
            return true;
        }
        i = i + 1;
    }
    false
}

fn fold_ascii_char(c: char) -> (r: u32)
    ensures
        r == fold_char(c),
{
    let u = c as u32;
    if 65 <= u && u <= 90 { u + 32 } else { u }
}

/// Whether `a`, without its leading dots, equals `b` up to ASCII case.
fn extension_matches(a: &str, b: &str) -> (r: bool)
    ensures
        r == eq_ignore_ascii_case(strip_leading_dots(a@), b@),
{
    let av = str_chars(a);
    let bv = str_chars(b);
    let mut start: usize = 0;
    assert(a@.subrange(0, a@.len() as int) =~= a@);
    while start < av.len() && av[start] == '.'
        invariant
            0 <= start <= av@.len(),
            av@ == a@,
            strip_leading_dots(a@) == strip_leading_dots(a@.subrange(start as int, a@.len() as int)),
        decreases av@.len() - start,
    {
        assert(a@.subrange(start as int, a@.len() as int).drop_first() =~= a@.subrange(start + 1, a@.len() as int));
        start = start + 1;
    }
    let ghost stripped = a@.subrange(start as int, a@.len() as int);
    assert(strip_leading_dots(stripped) == stripped);
    if av.len() - start != bv.len() {
        return false;
    }
    let total = av.len();
    let mut k: usize = 0;
    while k < bv.len()
        invariant
            0 <= k <= bv@.len(),
            total == av@.len(),
            strip_leading_dots(a@) == stripped,
            av@ == a@,
            bv@ == b@,
            stripped == a@.subrange(start as int, a@.len() as int),
            stripped.len() == bv@.len(),
            start + bv@.len() == av@.len(),
            forall|m: int| 0 <= m < k ==> fold_char(#[trigger] stripped[m]) == fold_char(b@[m]),
        decreases bv@.len() - k,
    {
        assert(start + k < av@.len());
        if fold_ascii_char(av[start + k]) != fold_ascii_char(bv[k]) {
            assert(stripped[k as int] == av@[start + k]);
            return false;
        }
        assert(stripped[k as int] == av@[start + k]);
        k = k + 1;
    }
    true
}

fn any_extension_matches(list: &Vec<String>, extension: &String) -> (r: bool)
    ensures
        r == exists|i: int| 0 <= i < list@.len() && #[trigger] eq_ignore_ascii_case(
            strip_leading_dots(list@[i]@), extension@),
{
    let mut i: usize = 0;
    while i < list.len()
        invariant
            0 <= i <= list@.len(),
            forall|k: int| 0 <= k < i ==> !#[trigger] eq_ignore_ascii_case(
                strip_leading_dots(list@[k]@), extension@),
        decreases list@.len() - i,
    {
        if extension_matches(list[i].as_str(), extension.as_str()) {
            return true;
        }
        i = i + 1;
    }
    false
}

/// What a route returned for one query.
#[derive(Debug, Clone, PartialEq, Eq)]
pub struct PlannerRouteExecution {
    pub state: PlannerRouteExecutionState,
    pub candidates: Vec<NormalizedPlannerCandidate>,
    pub diagnostics: Vec<PlannerDiagnostic>,
    pub notes: Vec<String>,
    pub elapsed_ms: u64,
    pub ambiguity: Option<PlannerAmbiguity>,
}

/// A route that the planner can consult.
///
/// An adapter may name, as spec functions, the capability reports it gives and the
/// executions it returns; one that does not claims nothing of them.
pub trait PlannerRouteAdapter {
    /// `r` is a report this adapter may give for `context` and `snapshot`.
    open spec fn reports(&self, context: PlannerRuntimeContext, snapshot: ComposedSnapshot, r: PlannerRouteCapabilityReport) -> bool {
        true
    }

    /// `e` is an execution this adapter may return for a request of `runtime`,
    /// `snapshot`, `ir` and `budget`.
    open spec fn executes(
        &self,
        runtime: PlannerRuntimeContext,
        snapshot: ComposedSnapshot,
        ir: PlannerQueryIr,
        budget: PlannerRouteBudget,
        e: PlannerRouteExecution,
    ) -> bool {
        true
    }

    fn kind(&self) -> PlannerRouteKind;

    fn capability(&self, context: &PlannerRuntimeContext, snapshot: &ComposedSnapshot) -> (r: PlannerRouteCapabilityReport)
        ensures
            self.reports(*context, *snapshot, r),
    ;

    fn execute(&self, request: &PlannerRouteRequest<'_>) -> (e: PlannerRouteExecution)
        ensures
            self.executes(*request.runtime, *request.snapshot, *request.ir, request.budget, e),
    ;
}

/// Filter support in which every filter is supported.
pub open spec fn full_filter_set() -> PlannerFilterCapabilities {
    PlannerFilterCapabilities {
        path_globs: true,
        package_names: true,
        package_roots: true,
        workspace_roots: true,
        languages: true,
        extensions: true,
        symbol_kinds: true,
    }
}

/// Filter support in which every filter is supported.
pub fn full_filter_capabilities() -> (c: PlannerFilterCapabilities)
    ensures
        c == (PlannerFilterCapabilities {
            path_globs: true,
            package_names: true,
            package_roots: true,
            workspace_roots: true,
            languages: true,
            extensions: true,
            symbol_kinds: true,
        }),
{
    PlannerFilterCapabilities {
        path_globs: true,
        package_names: true,
        package_roots: true,
        workspace_roots: true,
        languages: true,
        extensions: true,
        symbol_kinds: true,
    }
}

/// Filter support in which no filter is supported.
pub fn empty_filter_capabilities() -> (c: PlannerFilterCapabilities)
    ensures
        c == (PlannerFilterCapabilities {
            path_globs: false,
            package_names: false,
            package_roots: false,
            workspace_roots: false,
            languages: false,
            extensions: false,
            symbol_kinds: false,
        }),
{
    PlannerFilterCapabilities {
        path_globs: false,
        package_names: false,
        package_roots: false,
        workspace_roots: false,
        languages: false,
        extensions: false,
        symbol_kinds: false,
    }
}

} // verus!

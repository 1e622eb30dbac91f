use vstd::prelude::*;

use crate::planner::planner_engine::{bool_text, bracketed, mode_kind_name, mode_name, style_kind_name, style_name, style_names};
use crate::planner::trust_payloads::{join, route_kind_name, route_name, route_names};
use crate::protocol::planner::{
    PlannerAmbiguity, PlannerAmbiguityReason, PlannerCandidate, PlannerCapabilitiesResponse,
    PlannerDiagnostic, PlannerDiagnosticSeverity, PlannerEvidenceItem, PlannerEvidenceKind,
    PlannerExplainResponse, PlannerIntentSignal, PlannerMode, PlannerModeSelectionSource,
    PlannerNoAnswer, PlannerNoAnswerReason, PlannerQueryResponse, PlannerQueryState,
    PlannerQueryStyle, PlannerResultGroup, PlannerRouteBudget, PlannerRouteCapability,
    PlannerRouteKind, PlannerRouteSkipReason, PlannerRouteStatus, PlannerRouteTrace,
    PlannerStatusResponse, PlannerTrace, PlannerTraceStep, PlannerTrustTier,
};
use crate::text::{decimal, decimal_string, owned, push_str, views};

verus! {

/// Rust's debug rendering of a string: quoted, with special characters escaped.
pub uninterp spec fn debug_quoted(s: Seq<char>) -> Seq<char>;

/// `format!("{:?}", s)`: Rust's debug rendering of a string slice. The contract names
/// the result and says nothing of how characters are escaped.
#[verifier::external_body]
fn debug_string(s: &str) -> (r: String)
    ensures
        r@ == debug_quoted(s@),
{
    format!("{:?}", s)
}

/// The name of a `PlannerModeSelectionSource` variant.
pub open spec fn source_name(v: PlannerModeSelectionSource) -> Seq<char> {
    match v {
        PlannerModeSelectionSource::ExplicitOverride => "ExplicitOverride"@,
        PlannerModeSelectionSource::Heuristic => "Heuristic"@,
    }
}

/// The name of a `PlannerModeSelectionSource` variant.
pub fn source_str(v: PlannerModeSelectionSource) -> (r: &'static str)
    ensures
        r@ == source_name(v),
{
    match v {
        PlannerModeSelectionSource::ExplicitOverride => "ExplicitOverride",
        PlannerModeSelectionSource::Heuristic => "Heuristic",
    }
}

/// The name of a `PlannerTrustTier` variant.
pub open spec fn tier_name(v: PlannerTrustTier) -> Seq<char> {
    match v {
        PlannerTrustTier::High => "High"@,
        PlannerTrustTier::Medium => "Medium"@,
        PlannerTrustTier::Low => "Low"@,
        PlannerTrustTier::NeedsReview => "NeedsReview"@,
    }
}

/// The name of a `PlannerTrustTier` variant.
pub fn tier_str(v: PlannerTrustTier) -> (r: &'static str)
    ensures
        r@ == tier_name(v),
{
    match v {
        PlannerTrustTier::High => "High",
        PlannerTrustTier::Medium => "Medium",
        PlannerTrustTier::Low => "Low",
        PlannerTrustTier::NeedsReview => "NeedsReview",
    }
}

/// The name of a `PlannerEvidenceKind` variant.
pub open spec fn evidence_kind_name(v: PlannerEvidenceKind) -> Seq<char> {
    match v {
        PlannerEvidenceKind::ExactMatch => "ExactMatch"@,
        PlannerEvidenceKind::SymbolHit => "SymbolHit"@,
        PlannerEvidenceKind::SemanticHit => "SemanticHit"@,
        PlannerEvidenceKind::ImpactHit => "ImpactHit"@,
        PlannerEvidenceKind::ContextSeed => "ContextSeed"@,
        PlannerEvidenceKind::FilterMatch => "FilterMatch"@,
    }
}

/// The name of a `PlannerEvidenceKind` variant.
pub fn evidence_kind_str(v: PlannerEvidenceKind) -> (r: &'static str)
    ensures
        r@ == evidence_kind_name(v),
{
    match v {
        PlannerEvidenceKind::ExactMatch => "ExactMatch",
        PlannerEvidenceKind::SymbolHit => "SymbolHit",
        PlannerEvidenceKind::SemanticHit => "SemanticHit",
        PlannerEvidenceKind::ImpactHit => "ImpactHit",
        PlannerEvidenceKind::ContextSeed => "ContextSeed",
        PlannerEvidenceKind::FilterMatch => "FilterMatch",
    }
}

/// The name of a `PlannerRouteStatus` variant.
pub open spec fn status_name(v: PlannerRouteStatus) -> Seq<char> {
    match v {
        PlannerRouteStatus::Planned => "Planned"@,
        PlannerRouteStatus::Skipped => "Skipped"@,
        PlannerRouteStatus::Executed => "Executed"@,
        PlannerRouteStatus::Deferred => "Deferred"@,
    }
}

/// The name of a `PlannerRouteStatus` variant.
pub fn status_str(v: PlannerRouteStatus) -> (r: &'static str)
    ensures
        r@ == status_name(v),
{
    match v {
        PlannerRouteStatus::Planned => "Planned",
        PlannerRouteStatus::Skipped => "Skipped",
        PlannerRouteStatus::Executed => "Executed",
        PlannerRouteStatus::Deferred => "Deferred",
    }
}

/// The name of a `PlannerAmbiguityReason` variant.
pub open spec fn ambiguity_reason_name(v: PlannerAmbiguityReason) -> Seq<char> {
    match v {
        PlannerAmbiguityReason::MultipleAnchorsRemain => "MultipleAnchorsRemain"@,
        PlannerAmbiguityReason::MultipleSymbolsMatched => "MultipleSymbolsMatched"@,
    }
}

/// The name of a `PlannerAmbiguityReason` variant.
pub fn ambiguity_reason_str(v: PlannerAmbiguityReason) -> (r: &'static str)
    ensures
        r@ == ambiguity_reason_name(v),
{
    match v {
        PlannerAmbiguityReason::MultipleAnchorsRemain => "MultipleAnchorsRemain",
        PlannerAmbiguityReason::MultipleSymbolsMatched => "MultipleSymbolsMatched",
    }
}

/// The name of a `PlannerNoAnswerReason` variant.
pub open spec fn no_answer_reason_name(v: PlannerNoAnswerReason) -> Seq<char> {
    match v {
        PlannerNoAnswerReason::PlannerDisabled => "PlannerDisabled"@,
        PlannerNoAnswerReason::NoRouteAvailable => "NoRouteAvailable"@,
        PlannerNoAnswerReason::ExecutionDeferred => "ExecutionDeferred"@,
        PlannerNoAnswerReason::FiltersExcludedAllCandidates => "FiltersExcludedAllCandidates"@,
        PlannerNoAnswerReason::NoCandidateMatched => "NoCandidateMatched"@,
    }
}

/// The name of a `PlannerNoAnswerReason` variant.
pub fn no_answer_reason_str(v: PlannerNoAnswerReason) -> (r: &'static str)
    ensures
        r@ == no_answer_reason_name(v),
{
    match v {
        PlannerNoAnswerReason::PlannerDisabled => "PlannerDisabled",
        PlannerNoAnswerReason::NoRouteAvailable => "NoRouteAvailable",
        PlannerNoAnswerReason::ExecutionDeferred => "ExecutionDeferred",
        PlannerNoAnswerReason::FiltersExcludedAllCandidates => "FiltersExcludedAllCandidates",
        PlannerNoAnswerReason::NoCandidateMatched => "NoCandidateMatched",
    }
}

/// The name of a `PlannerIntentSignal` variant.
pub open spec fn signal_name(v: PlannerIntentSignal) -> Seq<char> {
    match v {
        PlannerIntentSignal::ExplicitModeOverride => "ExplicitModeOverride"@,
        PlannerIntentSignal::RegexLike => "RegexLike"@,
        PlannerIntentSignal::QuotedLiteral => "QuotedLiteral"@,
        PlannerIntentSignal::PathLike => "PathLike"@,
        PlannerIntentSignal::GlobLike => "GlobLike"@,
        PlannerIntentSignal::IdentifierLike => "IdentifierLike"@,
        PlannerIntentSignal::QualifiedSymbolLike => "QualifiedSymbolLike"@,
        PlannerIntentSignal::NaturalLanguageQuestion => "NaturalLanguageQuestion"@,
        PlannerIntentSignal::MultiTokenQuery => "MultiTokenQuery"@,
        PlannerIntentSignal::ImpactPhrase => "ImpactPhrase"@,
        PlannerIntentSignal::SelectedSymbolContext => "SelectedSymbolContext"@,
        PlannerIntentSignal::SelectedFileContext => "SelectedFileContext"@,
        PlannerIntentSignal::SelectedSpanContext => "SelectedSpanContext"@,
        PlannerIntentSignal::SelectedPackageContext => "SelectedPackageContext"@,
        PlannerIntentSignal::SelectedWorkspaceContext => "SelectedWorkspaceContext"@,
        PlannerIntentSignal::SelectedImpactContext => "SelectedImpactContext"@,
        PlannerIntentSignal::TargetContextProvided => "TargetContextProvided"@,
        PlannerIntentSignal::FilterScopeProvided => "FilterScopeProvided"@,
    }
}

/// The name of a `PlannerIntentSignal` variant.
pub fn signal_str(v: PlannerIntentSignal) -> (r: &'static str)
    ensures
        r@ == signal_name(v),
{
    match v {
        PlannerIntentSignal::ExplicitModeOverride => "ExplicitModeOverride",
        PlannerIntentSignal::RegexLike => "RegexLike",
        PlannerIntentSignal::QuotedLiteral => "QuotedLiteral",
        PlannerIntentSignal::PathLike => "PathLike",
        PlannerIntentSignal::GlobLike => "GlobLike",
        PlannerIntentSignal::IdentifierLike => "IdentifierLike",
        PlannerIntentSignal::QualifiedSymbolLike => "QualifiedSymbolLike",
        PlannerIntentSignal::NaturalLanguageQuestion => "NaturalLanguageQuestion",
        PlannerIntentSignal::MultiTokenQuery => "MultiTokenQuery",
        PlannerIntentSignal::ImpactPhrase => "ImpactPhrase",
        PlannerIntentSignal::SelectedSymbolContext => "SelectedSymbolContext",
        PlannerIntentSignal::SelectedFileContext => "SelectedFileContext",
        PlannerIntentSignal::SelectedSpanContext => "SelectedSpanContext",
        PlannerIntentSignal::SelectedPackageContext => "SelectedPackageContext",
        PlannerIntentSignal::SelectedWorkspaceContext => "SelectedWorkspaceContext",
        PlannerIntentSignal::SelectedImpactContext => "SelectedImpactContext",
        PlannerIntentSignal::TargetContextProvided => "TargetContextProvided",
        PlannerIntentSignal::FilterScopeProvided => "FilterScopeProvided",
    }
}

/// The name of a `PlannerDiagnosticSeverity` variant.
pub open spec fn severity_name(v: PlannerDiagnosticSeverity) -> Seq<char> {
    match v {
        PlannerDiagnosticSeverity::Info => "Info"@,
        PlannerDiagnosticSeverity::Warning => "Warning"@,
    }
}

/// The name of a `PlannerDiagnosticSeverity` variant.
pub fn severity_str(v: PlannerDiagnosticSeverity) -> (r: &'static str)
    ensures
        r@ == severity_name(v),
{
    match v {
        PlannerDiagnosticSeverity::Info => "Info",
        PlannerDiagnosticSeverity::Warning => "Warning",
    }
}

/// The name of a `PlannerRouteSkipReason` variant.
pub open spec fn skip_reason_name(v: PlannerRouteSkipReason) -> Seq<char> {
    match v {
        PlannerRouteSkipReason::ExactEngineUnavailable => "ExactEngineUnavailable"@,
        PlannerRouteSkipReason::CapabilityDisabled => "CapabilityDisabled"@,
        PlannerRouteSkipReason::ExecutionDeferred => "ExecutionDeferred"@,
        PlannerRouteSkipReason::FilteredByMode => "FilteredByMode"@,
        PlannerRouteSkipReason::FilteredByRouteHint => "FilteredByRouteHint"@,
    }
}

/// The name of a `PlannerRouteSkipReason` variant.
pub fn skip_reason_str(v: PlannerRouteSkipReason) -> (r: &'static str)
    ensures
        r@ == skip_reason_name(v),
{
    match v {
        PlannerRouteSkipReason::ExactEngineUnavailable => "ExactEngineUnavailable",
        PlannerRouteSkipReason::CapabilityDisabled => "CapabilityDisabled",
        PlannerRouteSkipReason::ExecutionDeferred => "ExecutionDeferred",
        PlannerRouteSkipReason::FilteredByMode => "FilteredByMode",
        PlannerRouteSkipReason::FilteredByRouteHint => "FilteredByRouteHint",
    }
}

/// The name of a `PlannerQueryState` variant.
pub open spec fn state_name(v: PlannerQueryState) -> Seq<char> {
    match v {
        PlannerQueryState::Disabled => "Disabled"@,
        PlannerQueryState::Ready => "Ready"@,
        PlannerQueryState::Degraded => "Degraded"@,
    }
}

/// The name of a `PlannerQueryState` variant.
pub fn state_str(v: PlannerQueryState) -> (r: &'static str)
    ensures
        r@ == state_name(v),
{
    match v {
        PlannerQueryState::Disabled => "Disabled",
        PlannerQueryState::Ready => "Ready",
        PlannerQueryState::Degraded => "Degraded",
    }
}


/// The decimal text of an optional number, zero when absent.
pub open spec fn or_zero(n: Option<u32>) -> Seq<char> {
    match n {
        Some(v) => decimal(v as nat),
        None => "0"@,
    }
}

/// The decimal text of an optional number, zero when absent.
pub open spec fn or_zero64(n: Option<u64>) -> Seq<char> {
    match n {
        Some(v) => decimal(v as nat),
        None => "0"@,
    }
}

fn or_zero_string(n: Option<u32>) -> (r: String)
    ensures
        r@ == or_zero(n),
{
    match n {
        Some(v) => decimal_string(v as u64),
        None => owned("0"),
    }
}

fn or_zero64_string(n: Option<u64>) -> (r: String)
    ensures
        r@ == or_zero64(n),
{
    match n {
        Some(v) => decimal_string(v),
        None => owned("0"),
    }
}

/// The text of lines joined by line breaks.
pub open spec fn joined_lines(lines: Seq<Seq<char>>) -> Seq<char> {
    join(lines, "\n"@)
}

fn join_lines(lines: &Vec<String>) -> (r: String)
    ensures
        r@ == joined_lines(views(lines@)),
{
    let ghost v = views(lines@);
    let mut out = String::new();
    let mut i: usize = 0;
    while i < lines.len()
        invariant
            0 <= i <= lines@.len(),
            v == views(lines@),
            out@ == join(v.subrange(0, i as int), "\n"@),
        decreases lines@.len() - i,
    {
        let ghost sub = v.subrange(0, i + 1);
        assert(sub.drop_last() =~= v.subrange(0, i as int));
        if i > 0 {
            push_str(&mut out, "\n");
        } else {
            assert(v.subrange(0, 0) =~= Seq::<Seq<char>>::empty());
        }
        push_str(&mut out, lines[i].as_str());
        assert(out@ =~= join(sub, "\n"@));
        i = i + 1;
    }
    assert(v.subrange(0, lines@.len() as int) =~= v);
    out
}

fn push_line(lines: &mut Vec<String>, line: String)
    ensures
        views(final(lines)@) == views(old(lines)@).push(line@),
{
    lines.push(line);
    assert(views(lines@) =~= views(old(lines)@).push(line@));
}

fn names_list(names: Vec<&'static str>) -> (r: String)
    ensures
        r@ == bracketed(crate::planner::route_adapters::str_views(names@)),
{
    let mut r = String::new();
    push_str(&mut r, "[");
    crate::planner::trust_payloads::push_joined(&mut r, &names, ", ");
    push_str(&mut r, "]");
    r
}

/// The names of intent signals.
pub open spec fn signal_names(s: Seq<PlannerIntentSignal>) -> Seq<Seq<char>> {
    s.map_values(|x: PlannerIntentSignal| signal_name(x))
}

/// The names of planner modes.
pub open spec fn mode_names(s: Seq<PlannerMode>) -> Seq<Seq<char>> {
    s.map_values(|x: PlannerMode| mode_name(x))
}

fn route_list(routes: &Vec<PlannerRouteKind>) -> (r: String)
    ensures
        r@ == bracketed(route_names(routes@)),
{
    let mut names: Vec<&'static str> = Vec::new();
    let mut i: usize = 0;
    while i < routes.len()
        invariant
            0 <= i <= routes@.len(),
            crate::planner::route_adapters::str_views(names@) == route_names(routes@.subrange(0, i as int)),
        decreases routes@.len() - i,
    {
        let ghost before = names@;
        names.push(route_kind_name(routes[i]));
        assert(crate::planner::route_adapters::str_views(names@) =~= crate::planner::route_adapters::str_views(before).push(route_name(routes@[i as int])));
        assert(route_names(routes@.subrange(0, i + 1)) =~= route_names(routes@.subrange(0, i as int)).push(route_name(routes@[i as int])));
        i = i + 1;
    }
    assert(routes@.subrange(0, routes@.len() as int) =~= routes@);
    names_list(names)
}

fn style_list(styles: &Vec<PlannerQueryStyle>) -> (r: String)
    ensures
        r@ == bracketed(style_names(styles@)),
{
    let mut names: Vec<&'static str> = Vec::new();
    let mut i: usize = 0;
    while i < styles.len()
        invariant
            0 <= i <= styles@.len(),
            crate::planner::route_adapters::str_views(names@) == style_names(styles@.subrange(0, i as int)),
        decreases styles@.len() - i,
    {
        let ghost before = names@;
        names.push(style_kind_name(styles[i]));
        assert(crate::planner::route_adapters::str_views(names@) =~= crate::planner::route_adapters::str_views(before).push(style_name(styles@[i as int])));
        assert(style_names(styles@.subrange(0, i + 1)) =~= style_names(styles@.subrange(0, i as int)).push(style_name(styles@[i as int])));
        i = i + 1;
    }
    assert(styles@.subrange(0, styles@.len() as int) =~= styles@);
    names_list(names)
}

fn signal_list(signals: &Vec<PlannerIntentSignal>) -> (r: String)
    ensures
        r@ == bracketed(signal_names(signals@)),
{
    let mut names: Vec<&'static str> = Vec::new();
    let mut i: usize = 0;
    while i < signals.len()
        invariant
            0 <= i <= signals@.len(),
            crate::planner::route_adapters::str_views(names@) == signal_names(signals@.subrange(0, i as int)),
        decreases signals@.len() - i,
    {
        let ghost before = names@;
        names.push(signal_str(signals[i]));
        assert(crate::planner::route_adapters::str_views(names@) =~= crate::planner::route_adapters::str_views(before).push(signal_name(signals@[i as int])));
        assert(signal_names(signals@.subrange(0, i + 1)) =~= signal_names(signals@.subrange(0, i as int)).push(signal_name(signals@[i as int])));
        i = i + 1;
    }
    assert(signals@.subrange(0, signals@.len() as int) =~= signals@);
    names_list(names)
}

fn mode_list(modes: &Vec<PlannerMode>) -> (r: String)
    ensures
        r@ == bracketed(mode_names(modes@)),
{
    let mut names: Vec<&'static str> = Vec::new();
    let mut i: usize = 0;
    while i < modes.len()
        invariant
            0 <= i <= modes@.len(),
            crate::planner::route_adapters::str_views(names@) == mode_names(modes@.subrange(0, i as int)),
        decreases modes@.len() - i,
    {
        let ghost before = names@;
        names.push(mode_kind_name(modes[i]));
        assert(crate::planner::route_adapters::str_views(names@) =~= crate::planner::route_adapters::str_views(before).push(mode_name(modes@[i as int])));
        assert(mode_names(modes@.subrange(0, i + 1)) =~= mode_names(modes@.subrange(0, i as int)).push(mode_name(modes@[i as int])));
        i = i + 1;
    }
    assert(modes@.subrange(0, modes@.len() as int) =~= modes@);
    names_list(names)
}


/// The line of one piece of evidence.
pub open spec fn evidence_line(e: PlannerEvidenceItem) -> Seq<char> {
    "    evidence: "@ + evidence_kind_name(e.evidence_kind) + " "@
        + (match e.path { Some(p) => p@, None => "-"@ }) + " (score="@ + or_zero(e.score) + ")"@
}

/// The lines of a list of evidence.
pub open spec fn evidence_lines(es: Seq<PlannerEvidenceItem>) -> Seq<Seq<char>> {
    es.map_values(|e: PlannerEvidenceItem| evidence_line(e))
}

/// The heading line of a result group.
pub open spec fn group_heading(g: PlannerResultGroup) -> Seq<char> {
    "  ["@ + debug_quoted(g.group_id@) + "] "@ + g.label@ + " (score="@ + or_zero(g.score) + ", trust="@
        + tier_name(g.trust.tier) + ", routes="@ + bracketed(route_names(g.routes@)) + ")"@
}

/// The lines of a result group in a query response.
pub open spec fn query_group_lines(g: PlannerResultGroup) -> Seq<Seq<char>> {
    seq![group_heading(g), "    "@ + g.explanation.summary@] + evidence_lines(g.evidence@)
}

/// The lines of the result groups of a query response.
pub open spec fn query_groups_lines(gs: Seq<PlannerResultGroup>) -> Seq<Seq<char>>
    decreases gs.len(),
{
    if gs.len() == 0 { Seq::empty() } else { query_groups_lines(gs.drop_last()) + query_group_lines(gs.last()) }
}

/// A diagnostic as a query response shows it.
pub open spec fn short_diagnostic_line(d: PlannerDiagnostic) -> Seq<char> {
    "- "@ + d.code@ + ": "@ + d.message@
}

/// A diagnostic with its severity.
pub open spec fn diagnostic_line(d: PlannerDiagnostic) -> Seq<char> {
    "  ["@ + severity_name(d.severity) + "] "@ + d.code@ + ": "@ + d.message@
}

/// A trace step.
pub open spec fn step_line(s: PlannerTraceStep) -> Seq<char> {
    "  step: "@ + s.code@ + " - "@ + s.message@
}

/// The summary line of a route trace.
pub open spec fn route_line(t: PlannerRouteTrace) -> Seq<char> {
    "  route "@ + route_name(t.route_kind) + ": "@ + status_name(t.status) + " (available="@ + bool_text(t.available)
        + ", selected="@ + bool_text(t.selected) + ", candidates="@ + or_zero(t.candidate_count) + ", elapsed="@
        + or_zero64(t.elapsed_ms) + "ms)"@
}

/// The lines of a route trace in an explain response: its summary, skip reason and notes.
pub open spec fn explain_route_lines(t: PlannerRouteTrace) -> Seq<Seq<char>> {
    seq![route_line(t)]
        + (match t.skip_reason { Some(r) => seq!["    skip_reason: "@ + skip_reason_name(r)], None => seq![] })
        + views(t.notes@).map_values(|n: Seq<char>| "    note: "@ + n)
}

/// The lines of the route traces of an explain response.
pub open spec fn explain_routes_lines(ts: Seq<PlannerRouteTrace>) -> Seq<Seq<char>>
    decreases ts.len(),
{
    if ts.len() == 0 { Seq::empty() } else { explain_routes_lines(ts.drop_last()) + explain_route_lines(ts.last()) }
}

/// Lines indented by two spaces.
pub open spec fn indented(lines: Seq<Seq<char>>) -> Seq<Seq<char>> {
    lines.map_values(|l: Seq<char>| "  "@ + l)
}

/// The lines of an ambiguity, if any.
pub open spec fn ambiguity_lines(a: Option<PlannerAmbiguity>) -> Seq<Seq<char>> {
    match a {
        Some(a) => seq!["ambiguity: "@ + ambiguity_reason_name(a.reason)] + indented(views(a.details@)),
        None => seq![],
    }
}

/// The lines of a no-answer, if any.
pub open spec fn no_answer_lines(n: Option<PlannerNoAnswer>) -> Seq<Seq<char>> {
    match n {
        Some(n) => seq!["no_answer: "@ + no_answer_reason_name(n.reason)] + indented(views(n.details@)),
        None => seq![],
    }
}

/// The lines of a query response.
pub open spec fn query_lines(r: PlannerQueryResponse) -> Seq<Seq<char>> {
    seq![
        "planner query "@ + r.snapshot_id@,
        "mode: "@ + mode_name(r.mode.selected_mode) + " ("@ + source_name(r.mode.source) + ")"@,
        "routes: "@ + decimal(r.stats.routes_available as nat) + "/"@ + decimal(r.stats.routes_considered as nat) + " available"@,
        "groups_returned: "@ + decimal(r.stats.groups_returned as nat),
    ]
    + query_groups_lines(r.groups@)
    + (if r.diagnostics@.len() > 0 {
        seq!["diagnostics:"@] + r.diagnostics@.map_values(|d: PlannerDiagnostic| short_diagnostic_line(d))
    } else { seq![] })
    + (match r.trace {
        Some(t) => seq!["trace:"@] + t.steps@.map_values(|s: PlannerTraceStep| step_line(s))
            + t.routes@.map_values(|t: PlannerRouteTrace| route_line(t)),
        None => seq![],
    })
    + ambiguity_lines(r.ambiguity)
    + no_answer_lines(r.no_answer)
}

fn evidence_line_exec(e: &PlannerEvidenceItem) -> (r: String)
    ensures
        r@ == evidence_line(*e),
{
    let mut r = owned("    evidence: ");
    push_str(&mut r, evidence_kind_str(e.evidence_kind));
    push_str(&mut r, " ");
    match &e.path {
        Some(p) => push_str(&mut r, p.as_str()),
        None => push_str(&mut r, "-"),
    }
    push_str(&mut r, " (score=");
    push_str(&mut r, or_zero_string(e.score).as_str());
    push_str(&mut r, ")");
    r
}

fn push_evidence_lines(lines: &mut Vec<String>, es: &Vec<PlannerEvidenceItem>)
    ensures
        views(final(lines)@) == views(old(lines)@) + evidence_lines(es@),
{
    let ghost start = views(lines@);
    let mut i: usize = 0;
    while i < es.len()
        invariant
            0 <= i <= es@.len(),
            views(lines@) == start + evidence_lines(es@.subrange(0, i as int)),
        decreases es@.len() - i,
    {
        push_line(lines, evidence_line_exec(&es[i]));
        assert(evidence_lines(es@.subrange(0, i + 1)) =~= evidence_lines(es@.subrange(0, i as int)).push(evidence_line(es@[i as int])));
        i = i + 1;
    }
    assert(es@.subrange(0, es@.len() as int) =~= es@);
}

fn group_heading_exec(g: &PlannerResultGroup) -> (r: String)
    ensures
        r@ == group_heading(*g),
{
    let mut r = owned("  [");
    push_str(&mut r, debug_string(g.group_id.as_str()).as_str());
    push_str(&mut r, "] ");
    push_str(&mut r, g.label.as_str());
    push_str(&mut r, " (score=");
    push_str(&mut r, or_zero_string(g.score).as_str());
    push_str(&mut r, ", trust=");
    push_str(&mut r, tier_str(g.trust.tier));
    push_str(&mut r, ", routes=");
    push_str(&mut r, route_list(&g.routes).as_str());
    push_str(&mut r, ")");
    r
}

fn push_query_groups(lines: &mut Vec<String>, gs: &Vec<PlannerResultGroup>)
    ensures
        views(final(lines)@) == views(old(lines)@) + query_groups_lines(gs@),
{
    let ghost start = views(lines@);
    let mut i: usize = 0;
    while i < gs.len()
        invariant
            0 <= i <= gs@.len(),
            views(lines@) == start + query_groups_lines(gs@.subrange(0, i as int)),
        decreases gs@.len() - i,
    {
        assert(gs@.subrange(0, i + 1).drop_last() =~= gs@.subrange(0, i as int));
        let g = &gs[i];
        let ghost before = views(lines@);
        push_line(lines, group_heading_exec(g));
        let mut summary = owned("    ");
        push_str(&mut summary, g.explanation.summary.as_str());
        push_line(lines, summary);
        push_evidence_lines(lines, &g.evidence);
        assert(views(lines@) =~= before + query_group_lines(*g));
        i = i + 1;
    }
    assert(gs@.subrange(0, gs@.len() as int) =~= gs@);
}

fn push_short_diagnostics(lines: &mut Vec<String>, ds: &Vec<PlannerDiagnostic>)
    ensures
        views(final(lines)@) == views(old(lines)@) + ds@.map_values(|d: PlannerDiagnostic| short_diagnostic_line(d)),
{
    let ghost start = views(lines@);
    let mut i: usize = 0;
    while i < ds.len()
        invariant
            0 <= i <= ds@.len(),
            views(lines@) == start + ds@.subrange(0, i as int).map_values(|d: PlannerDiagnostic| short_diagnostic_line(d)),
        decreases ds@.len() - i,
    {
        let mut line = owned("- ");
        push_str(&mut line, ds[i].code.as_str());
        push_str(&mut line, ": ");
        push_str(&mut line, ds[i].message.as_str());
        push_line(lines, line);
        assert(ds@.subrange(0, i + 1).map_values(|d: PlannerDiagnostic| short_diagnostic_line(d))
            =~= ds@.subrange(0, i as int).map_values(|d: PlannerDiagnostic| short_diagnostic_line(d)).push(short_diagnostic_line(ds@[i as int])));
        i = i + 1;
    }
    assert(ds@.subrange(0, ds@.len() as int) =~= ds@);
}

fn push_diagnostics(lines: &mut Vec<String>, ds: &Vec<PlannerDiagnostic>)
    ensures
        views(final(lines)@) == views(old(lines)@) + ds@.map_values(|d: PlannerDiagnostic| diagnostic_line(d)),
{
    let ghost start = views(lines@);
    let mut i: usize = 0;
    while i < ds.len()
        invariant
            0 <= i <= ds@.len(),
            views(lines@) == start + ds@.subrange(0, i as int).map_values(|d: PlannerDiagnostic| diagnostic_line(d)),
        decreases ds@.len() - i,
    {
        let mut line = owned("  [");
        push_str(&mut line, severity_str(ds[i].severity));
        push_str(&mut line, "] ");
        push_str(&mut line, ds[i].code.as_str());
        push_str(&mut line, ": ");
        push_str(&mut line, ds[i].message.as_str());
        push_line(lines, line);
        assert(ds@.subrange(0, i + 1).map_values(|d: PlannerDiagnostic| diagnostic_line(d))
            =~= ds@.subrange(0, i as int).map_values(|d: PlannerDiagnostic| diagnostic_line(d)).push(diagnostic_line(ds@[i as int])));
        i = i + 1;
    }
    assert(ds@.subrange(0, ds@.len() as int) =~= ds@);
}

fn push_steps(lines: &mut Vec<String>, steps: &Vec<PlannerTraceStep>)
    ensures
        views(final(lines)@) == views(old(lines)@) + steps@.map_values(|s: PlannerTraceStep| step_line(s)),
{
    let ghost start = views(lines@);
    let mut i: usize = 0;
    while i < steps.len()
        invariant
            0 <= i <= steps@.len(),
            views(lines@) == start + steps@.subrange(0, i as int).map_values(|s: PlannerTraceStep| step_line(s)),
        decreases steps@.len() - i,
    {
        let mut line = owned("  step: ");
        push_str(&mut line, steps[i].code.as_str());
        push_str(&mut line, " - ");
        push_str(&mut line, steps[i].message.as_str());
        push_line(lines, line);
        assert(steps@.subrange(0, i + 1).map_values(|s: PlannerTraceStep| step_line(s))
            =~= steps@.subrange(0, i as int).map_values(|s: PlannerTraceStep| step_line(s)).push(step_line(steps@[i as int])));
        i = i + 1;
    }
    assert(steps@.subrange(0, steps@.len() as int) =~= steps@);
}

fn route_line_exec(t: &PlannerRouteTrace) -> (r: String)
    ensures
        r@ == route_line(*t),
{
    let mut r = owned("  route ");
    push_str(&mut r, route_kind_name(t.route_kind));
    push_str(&mut r, ": ");
    push_str(&mut r, status_str(t.status));
    push_str(&mut r, " (available=");
    push_str(&mut r, if t.available { "true" } else { "false" });
    push_str(&mut r, ", selected=");
    push_str(&mut r, if t.selected { "true" } else { "false" });
    push_str(&mut r, ", candidates=");
    push_str(&mut r, or_zero_string(t.candidate_count).as_str());
    push_str(&mut r, ", elapsed=");
    push_str(&mut r, or_zero64_string(t.elapsed_ms).as_str());
    push_str(&mut r, "ms)");
    r
}

fn push_route_lines(lines: &mut Vec<String>, ts: &Vec<PlannerRouteTrace>)
    ensures
        views(final(lines)@) == views(old(lines)@) + ts@.map_values(|t: PlannerRouteTrace| route_line(t)),
{
    let ghost start = views(lines@);
    let mut i: usize = 0;
    while i < ts.len()
        invariant
            0 <= i <= ts@.len(),
            views(lines@) == start + ts@.subrange(0, i as int).map_values(|t: PlannerRouteTrace| route_line(t)),
        decreases ts@.len() - i,
    {
        push_line(lines, route_line_exec(&ts[i]));
        assert(ts@.subrange(0, i + 1).map_values(|t: PlannerRouteTrace| route_line(t))
            =~= ts@.subrange(0, i as int).map_values(|t: PlannerRouteTrace| route_line(t)).push(route_line(ts@[i as int])));
        i = i + 1;
    }
    assert(ts@.subrange(0, ts@.len() as int) =~= ts@);
}

fn push_prefixed(lines: &mut Vec<String>, prefix: &str, items: &Vec<String>)
    ensures
        views(final(lines)@) == views(old(lines)@) + views(items@).map_values(|n: Seq<char>| prefix@ + n),
{
    let ghost start = views(lines@);
    let mut i: usize = 0;
    while i < items.len()
        invariant
            0 <= i <= items@.len(),
            views(lines@) == start + views(items@.subrange(0, i as int)).map_values(|n: Seq<char>| prefix@ + n),
        decreases items@.len() - i,
    {
        let mut line = owned(prefix);
        push_str(&mut line, items[i].as_str());
        push_line(lines, line);
        assert(views(items@.subrange(0, i + 1)).map_values(|n: Seq<char>| prefix@ + n)
            =~= views(items@.subrange(0, i as int)).map_values(|n: Seq<char>| prefix@ + n).push(prefix@ + items@[i as int]@));
        i = i + 1;
    }
    assert(items@.subrange(0, items@.len() as int) =~= items@);
}

fn push_ambiguity(lines: &mut Vec<String>, a: &Option<PlannerAmbiguity>)
    ensures
        views(final(lines)@) == views(old(lines)@) + ambiguity_lines(*a),
{
    if let Some(a) = a {
        let ghost before = views(lines@);
        let mut head = owned("ambiguity: ");
        push_str(&mut head, ambiguity_reason_str(a.reason));
        push_line(lines, head);
        push_prefixed(lines, "  ", &a.details);
        assert(views(lines@) =~= before + ambiguity_lines(Some(*a)));
    } else {
        assert(views(lines@) =~= views(lines@) + Seq::<Seq<char>>::empty());
    }
}

fn push_no_answer(lines: &mut Vec<String>, n: &Option<PlannerNoAnswer>)
    ensures
        views(final(lines)@) == views(old(lines)@) + no_answer_lines(*n),
{
    if let Some(n) = n {
        let ghost before = views(lines@);
        let mut head = owned("no_answer: ");
        push_str(&mut head, no_answer_reason_str(n.reason));
        push_line(lines, head);
        push_prefixed(lines, "  ", &n.details);
        assert(views(lines@) =~= before + no_answer_lines(Some(*n)));
    } else {
        assert(views(lines@) =~= views(lines@) + Seq::<Seq<char>>::empty());
    }
}

/// The text of a query response: a summary, the groups with their evidence, then the
/// diagnostics, trace, ambiguity and no-answer when present, one per line.
pub fn render_query_text(response: &PlannerQueryResponse) -> (s: String)
    ensures
        s@ == joined_lines(query_lines(*response)),
{
    let mut lines: Vec<String> = Vec::new();
    let mut l1 = owned("planner query ");
    push_str(&mut l1, response.snapshot_id.as_str());
    push_line(&mut lines, l1);
    let mut l2 = owned("mode: ");
    push_str(&mut l2, mode_kind_name(response.mode.selected_mode));
    push_str(&mut l2, " (");
    push_str(&mut l2, source_str(response.mode.source));
    push_str(&mut l2, ")");
    push_line(&mut lines, l2);
    let mut l3 = owned("routes: ");
    push_str(&mut l3, decimal_string(response.stats.routes_available as u64).as_str());
    push_str(&mut l3, "/");
    push_str(&mut l3, decimal_string(response.stats.routes_considered as u64).as_str());
    push_str(&mut l3, " available");
    push_line(&mut lines, l3);
    let mut l4 = owned("groups_returned: ");
    push_str(&mut l4, decimal_string(response.stats.groups_returned as u64).as_str());
    push_line(&mut lines, l4);
    let ghost head = views(lines@);
    push_query_groups(&mut lines, &response.groups);
    let ghost after_groups = views(lines@);
    if response.diagnostics.len() > 0 {
        push_line(&mut lines, owned("diagnostics:"));
        push_short_diagnostics(&mut lines, &response.diagnostics);
    }
    let ghost after_diags = views(lines@);
    if let Some(trace) = &response.trace {
        push_line(&mut lines, owned("trace:"));
        push_steps(&mut lines, &trace.steps);
        push_route_lines(&mut lines, &trace.routes);
    }
    let ghost after_trace = views(lines@);
    push_ambiguity(&mut lines, &response.ambiguity);
    push_no_answer(&mut lines, &response.no_answer);
    assert(views(lines@) =~= query_lines(*response));
    join_lines(&lines)
}


/// The heading line of a candidate.
pub open spec fn candidate_heading(c: PlannerCandidate) -> Seq<char> {
    "  ["@ + debug_quoted(c.candidate_id@) + "] "@ + c.label@ + " (route="@ + route_name(c.route_kind) + ", score="@
        + or_zero(c.route_score) + ", normalized="@ + or_zero(c.normalized_score) + ")"@
}

/// The lines of the candidates of an explain response.
pub open spec fn candidates_lines(cs: Seq<PlannerCandidate>) -> Seq<Seq<char>>
    decreases cs.len(),
{
    if cs.len() == 0 {
        Seq::empty()
    } else {
        candidates_lines(cs.drop_last()) + seq![candidate_heading(cs.last())] + evidence_lines(cs.last().evidence@)
    }
}

/// The lines of a result group in an explain response.
pub open spec fn explain_group_lines(g: PlannerResultGroup) -> Seq<Seq<char>> {
    seq![group_heading(g), "    "@ + g.explanation.summary@]
        + views(g.trust.reasons@).map_values(|n: Seq<char>| "    trust: "@ + n)
        + views(g.trust.warnings@).map_values(|n: Seq<char>| "    warning: "@ + n)
}

/// The lines of the result groups of an explain response.
pub open spec fn explain_groups_lines(gs: Seq<PlannerResultGroup>) -> Seq<Seq<char>>
    decreases gs.len(),
{
    if gs.len() == 0 { Seq::empty() } else { explain_groups_lines(gs.drop_last()) + explain_group_lines(gs.last()) }
}

/// The lines of the trace of an explain response.
pub open spec fn explain_trace_lines(t: Option<PlannerTrace>) -> Seq<Seq<char>> {
    match t {
        Some(t) => seq!["trace:"@, "  planner_version: "@ + t.planner_version@, "  selected_mode: "@ + mode_name(t.selected_mode)]
            + t.steps@.map_values(|s: PlannerTraceStep| step_line(s))
            + explain_routes_lines(t.routes@),
        None => seq![],
    }
}

/// The opening lines of an explain response: the mode and the query reading.
pub open spec fn explain_head_lines(r: PlannerExplainResponse) -> Seq<Seq<char>> {
    seq![
        "planner explain "@ + r.snapshot_id@,
        "mode: "@ + mode_name(r.mode.selected_mode) + " ("@ + source_name(r.mode.source) + ")"@,
        "query_ir:"@,
        "  surface_query: \""@ + r.ir.surface_query@ + "\""@,
        "  normalized_query: \""@ + r.ir.normalized_query@ + "\""@,
        "  primary_style: "@ + style_name(r.ir.primary_style),
        "  candidate_styles: "@ + bracketed(style_names(r.ir.candidate_styles@)),
        "  planned_routes: "@ + bracketed(route_names(r.ir.planned_routes@)),
        "  intent_signals: "@ + bracketed(signal_names(r.ir.intent_signals@)),
    ]
}

/// The candidate section of an explain response, when it has candidates.
pub open spec fn candidate_section(cs: Seq<PlannerCandidate>) -> Seq<Seq<char>> {
    if cs.len() > 0 { seq!["candidates: ("@ + decimal(cs.len()) + ")"@] + candidates_lines(cs) } else { seq![] }
}

/// The group section of an explain response, when it has groups.
pub open spec fn group_section(gs: Seq<PlannerResultGroup>) -> Seq<Seq<char>> {
    if gs.len() > 0 { seq!["groups: ("@ + decimal(gs.len()) + ")"@] + explain_groups_lines(gs) } else { seq![] }
}

/// The diagnostic section, with severities, when there are diagnostics.
pub open spec fn diagnostic_section(ds: Seq<PlannerDiagnostic>) -> Seq<Seq<char>> {
    if ds.len() > 0 { seq!["diagnostics:"@] + ds.map_values(|d: PlannerDiagnostic| diagnostic_line(d)) } else { seq![] }
}

/// The statistics line of an explain response.
pub open spec fn stats_line(r: PlannerExplainResponse) -> Seq<char> {
    "stats: candidates_considered="@ + decimal(r.stats.candidates_considered as nat) + ", groups_returned="@
        + decimal(r.stats.groups_returned as nat) + ", elapsed="@ + decimal(r.stats.elapsed_ms as nat) + "ms"@
}

/// The lines of an explain response.
pub open spec fn explain_lines(r: PlannerExplainResponse) -> Seq<Seq<char>> {
    explain_head_lines(r) + candidate_section(r.candidates@) + group_section(r.groups@)
        + diagnostic_section(r.diagnostics@) + explain_trace_lines(r.trace) + ambiguity_lines(r.ambiguity)
        + no_answer_lines(r.no_answer) + seq![stats_line(r)]
}

fn push_candidates(lines: &mut Vec<String>, cs: &Vec<PlannerCandidate>)
    ensures
        views(final(lines)@) == views(old(lines)@) + candidates_lines(cs@),
{
    let ghost start = views(lines@);
    let mut i: usize = 0;
    while i < cs.len()
        invariant
            0 <= i <= cs@.len(),
            views(lines@) == start + candidates_lines(cs@.subrange(0, i as int)),
        decreases cs@.len() - i,
    {
        assert(cs@.subrange(0, i + 1).drop_last() =~= cs@.subrange(0, i as int));
        let c = &cs[i];
        let ghost before = views(lines@);
        let mut head = owned("  [");
        push_str(&mut head, debug_string(c.candidate_id.as_str()).as_str());
        push_str(&mut head, "] ");
        push_str(&mut head, c.label.as_str());
        push_str(&mut head, " (route=");
        push_str(&mut head, route_kind_name(c.route_kind));
        push_str(&mut head, ", score=");
        push_str(&mut head, or_zero_string(c.route_score).as_str());
        push_str(&mut head, ", normalized=");
        push_str(&mut head, or_zero_string(c.normalized_score).as_str());
        push_str(&mut head, ")");
        push_line(lines, head);
        push_evidence_lines(lines, &c.evidence);
        assert(views(lines@) =~= before + seq![candidate_heading(*c)] + evidence_lines(c.evidence@));
        i = i + 1;
    }
    assert(cs@.subrange(0, cs@.len() as int) =~= cs@);
}

fn push_explain_groups(lines: &mut Vec<String>, gs: &Vec<PlannerResultGroup>)
    ensures
        views(final(lines)@) == views(old(lines)@) + explain_groups_lines(gs@),
{
    let ghost start = views(lines@);
    let mut i: usize = 0;
    while i < gs.len()
        invariant
            0 <= i <= gs@.len(),
            views(lines@) == start + explain_groups_lines(gs@.subrange(0, i as int)),
        decreases gs@.len() - i,
    {
        assert(gs@.subrange(0, i + 1).drop_last() =~= gs@.subrange(0, i as int));
        let g = &gs[i];
        let ghost before = views(lines@);
        push_line(lines, group_heading_exec(g));
        let mut summary = owned("    ");
        push_str(&mut summary, g.explanation.summary.as_str());
        push_line(lines, summary);
        push_prefixed(lines, "    trust: ", &g.trust.reasons);
        push_prefixed(lines, "    warning: ", &g.trust.warnings);
        assert(views(lines@) =~= before + explain_group_lines(*g));
        i = i + 1;
    }
    assert(gs@.subrange(0, gs@.len() as int) =~= gs@);
}

fn push_explain_routes(lines: &mut Vec<String>, ts: &Vec<PlannerRouteTrace>)
    ensures
        views(final(lines)@) == views(old(lines)@) + explain_routes_lines(ts@),
{
    let ghost start = views(lines@);
    let mut i: usize = 0;
    while i < ts.len()
        invariant
            0 <= i <= ts@.len(),
            views(lines@) == start + explain_routes_lines(ts@.subrange(0, i as int)),
        decreases ts@.len() - i,
    {
        assert(ts@.subrange(0, i + 1).drop_last() =~= ts@.subrange(0, i as int));
        let t = &ts[i];
        let ghost before = views(lines@);
        push_line(lines, route_line_exec(t));
        let ghost mid = views(lines@);
        if let Some(reason) = t.skip_reason {
            let mut line = owned("    skip_reason: ");
            push_str(&mut line, skip_reason_str(reason));
            push_line(lines, line);
        }
        let ghost mid2 = views(lines@);
        push_prefixed(lines, "    note: ", &t.notes);
        assert(views(lines@) =~= before + explain_route_lines(*t));
        i = i + 1;
    }
    assert(ts@.subrange(0, ts@.len() as int) =~= ts@);
}

fn explain_head(response: &PlannerExplainResponse) -> (r: Vec<String>)
    ensures
        views(r@) == explain_head_lines(*response),
{
    let mut lines: Vec<String> = Vec::new();
    let mut l1 = owned("planner explain ");
    push_str(&mut l1, response.snapshot_id.as_str());
    push_line(&mut lines, l1);
    let mut l2 = owned("mode: ");
    push_str(&mut l2, mode_kind_name(response.mode.selected_mode));
    push_str(&mut l2, " (");
    push_str(&mut l2, source_str(response.mode.source));
    push_str(&mut l2, ")");
    push_line(&mut lines, l2);
    push_line(&mut lines, owned("query_ir:"));
    let mut l4 = owned("  surface_query: \"");
    push_str(&mut l4, response.ir.surface_query.as_str());
    push_str(&mut l4, "\"");
    push_line(&mut lines, l4);
    let mut l5 = owned("  normalized_query: \"");
    push_str(&mut l5, response.ir.normalized_query.as_str());
    push_str(&mut l5, "\"");
    push_line(&mut lines, l5);
    let mut l6 = owned("  primary_style: ");
    push_str(&mut l6, style_kind_name(response.ir.primary_style));
    push_line(&mut lines, l6);
    let mut l7 = owned("  candidate_styles: ");
    push_str(&mut l7, style_list(&response.ir.candidate_styles).as_str());
    push_line(&mut lines, l7);
    let mut l8 = owned("  planned_routes: ");
    push_str(&mut l8, route_list(&response.ir.planned_routes).as_str());
    push_line(&mut lines, l8);
    let mut l9 = owned("  intent_signals: ");
    push_str(&mut l9, signal_list(&response.ir.intent_signals).as_str());
    push_line(&mut lines, l9);
    assert(views(lines@) =~= explain_head_lines(*response));
    lines
}

fn push_candidate_section(lines: &mut Vec<String>, cs: &Vec<PlannerCandidate>)
    ensures
        views(final(lines)@) == views(old(lines)@) + candidate_section(cs@),
{
    if cs.len() > 0 {
        let mut line = owned("candidates: (");
        push_str(&mut line, decimal_string(cs.len() as u64).as_str());
        push_str(&mut line, ")");
        push_line(lines, line);
        push_candidates(lines, cs);
        assert(views(lines@) =~= views(old(lines)@) + candidate_section(cs@));
    } else {
        assert(views(lines@) =~= views(old(lines)@) + candidate_section(cs@));
    }
}

fn push_group_section(lines: &mut Vec<String>, gs: &Vec<PlannerResultGroup>)
    ensures
        views(final(lines)@) == views(old(lines)@) + group_section(gs@),
{
    if gs.len() > 0 {
        let mut line = owned("groups: (");
        push_str(&mut line, decimal_string(gs.len() as u64).as_str());
        push_str(&mut line, ")");
        push_line(lines, line);
        push_explain_groups(lines, gs);
        assert(views(lines@) =~= views(old(lines)@) + group_section(gs@));
    } else {
        assert(views(lines@) =~= views(old(lines)@) + group_section(gs@));
    }
}

fn push_diagnostic_section(lines: &mut Vec<String>, ds: &Vec<PlannerDiagnostic>)
    ensures
        views(final(lines)@) == views(old(lines)@) + diagnostic_section(ds@),
{
    if ds.len() > 0 {
        push_line(lines, owned("diagnostics:"));
        push_diagnostics(lines, ds);
        assert(views(lines@) =~= views(old(lines)@) + diagnostic_section(ds@));
    } else {
        assert(views(lines@) =~= views(old(lines)@) + diagnostic_section(ds@));
    }
}

fn push_explain_trace(lines: &mut Vec<String>, trace: &Option<PlannerTrace>)
    ensures
        views(final(lines)@) == views(old(lines)@) + explain_trace_lines(*trace),
{
    if let Some(trace) = trace {
        push_line(lines, owned("trace:"));
        let mut v = owned("  planner_version: ");
        push_str(&mut v, trace.planner_version.as_str());
        push_line(lines, v);
        let mut m = owned("  selected_mode: ");
        push_str(&mut m, mode_kind_name(trace.selected_mode));
        push_line(lines, m);
        push_steps(lines, &trace.steps);
        push_explain_routes(lines, &trace.routes);
        assert(views(lines@) =~= views(old(lines)@) + explain_trace_lines(Some(*trace)));
    } else {
        assert(views(lines@) =~= views(old(lines)@) + Seq::<Seq<char>>::empty());
    }
}

fn stats_line_exec(response: &PlannerExplainResponse) -> (r: String)
    ensures
        r@ == stats_line(*response),
{
    let mut stats = owned("stats: candidates_considered=");
    push_str(&mut stats, decimal_string(response.stats.candidates_considered as u64).as_str());
    push_str(&mut stats, ", groups_returned=");
    push_str(&mut stats, decimal_string(response.stats.groups_returned as u64).as_str());
    push_str(&mut stats, ", elapsed=");
    push_str(&mut stats, decimal_string(response.stats.elapsed_ms).as_str());
    push_str(&mut stats, "ms");
    stats
}

/// The text of an explain response: the query reading, candidates, groups with their
/// trust reasons and warnings, diagnostics, the full trace, ambiguity, no-answer and
/// statistics, one per line.
pub fn render_explain_text(response: &PlannerExplainResponse) -> (s: String)
    ensures
        s@ == joined_lines(explain_lines(*response)),
{
    let mut lines = explain_head(response);
    push_candidate_section(&mut lines, &response.candidates);
    push_group_section(&mut lines, &response.groups);
    push_diagnostic_section(&mut lines, &response.diagnostics);
    push_explain_trace(&mut lines, &response.trace);
    push_ambiguity(&mut lines, &response.ambiguity);
    push_no_answer(&mut lines, &response.no_answer);
    push_line(&mut lines, stats_line_exec(response));
    assert(views(lines@) =~= explain_lines(*response));
    join_lines(&lines)
}

/// The readiness word of a route capability.
pub open spec fn readiness_word(c: PlannerRouteCapability) -> Seq<char> {
    if c.available { "ready"@ } else if c.enabled { "enabled (not ready)"@ } else { "disabled"@ }
}

/// The lines of one route capability: its readiness and, when given, its reason.
pub open spec fn capability_lines(c: PlannerRouteCapability) -> Seq<Seq<char>> {
    seq!["  "@ + route_name(c.route_kind) + ": "@ + readiness_word(c)]
        + (match c.reason { Some(r) => seq!["    "@ + r@], None => seq![] })
}

/// The lines of a list of route capabilities.
pub open spec fn capabilities_lines(cs: Seq<PlannerRouteCapability>) -> Seq<Seq<char>>
    decreases cs.len(),
{
    if cs.len() == 0 { Seq::empty() } else { capabilities_lines(cs.drop_last()) + capability_lines(cs.last()) }
}

fn push_capabilities(lines: &mut Vec<String>, cs: &Vec<PlannerRouteCapability>)
    ensures
        views(final(lines)@) == views(old(lines)@) + capabilities_lines(cs@),
{
    let ghost start = views(lines@);
    let mut i: usize = 0;
    while i < cs.len()
        invariant
            0 <= i <= cs@.len(),
            views(lines@) == start + capabilities_lines(cs@.subrange(0, i as int)),
        decreases cs@.len() - i,
    {
        assert(cs@.subrange(0, i + 1).drop_last() =~= cs@.subrange(0, i as int));
        let c = &cs[i];
        let ghost before = views(lines@);
        let mut line = owned("  ");
        push_str(&mut line, route_kind_name(c.route_kind));
        push_str(&mut line, ": ");
        push_str(&mut line, if c.available { "ready" } else if c.enabled { "enabled (not ready)" } else { "disabled" });
        push_line(lines, line);
        if let Some(reason) = &c.reason {
            let mut r = owned("    ");
            push_str(&mut r, reason.as_str());
            push_line(lines, r);
        }
        assert(views(lines@) =~= before + capability_lines(*c));
        i = i + 1;
    }
    assert(cs@.subrange(0, cs@.len() as int) =~= cs@);
}

/// The lines of a status response.
pub open spec fn status_lines(r: PlannerStatusResponse) -> Seq<Seq<char>> {
    seq!["planner status "@ + r.snapshot_id@, "state: "@ + state_name(r.state)]
    + capabilities_lines(r.capabilities.routes@)
    + diagnostic_section(r.diagnostics@)
}

/// The text of a status response: the state, each route's readiness and the
/// diagnostics, one per line.
pub fn render_status_text(response: &PlannerStatusResponse) -> (s: String)
    ensures
        s@ == joined_lines(status_lines(*response)),
{
    let mut lines: Vec<String> = Vec::new();
    let mut l1 = owned("planner status ");
    push_str(&mut l1, response.snapshot_id.as_str());
    push_line(&mut lines, l1);
    let mut l2 = owned("state: ");
    push_str(&mut l2, state_str(response.state));
    push_line(&mut lines, l2);
    push_capabilities(&mut lines, &response.capabilities.routes);
    push_diagnostic_section(&mut lines, &response.diagnostics);
    assert(views(lines@) =~= status_lines(*response));
    join_lines(&lines)
}

/// The line of a route budget.
pub open spec fn budget_line(b: PlannerRouteBudget) -> Seq<char> {
    "  "@ + route_name(b.route_kind) + ": max_candidates="@ + decimal(b.max_candidates as nat) + ", max_groups="@
        + decimal(b.max_groups as nat) + ", timeout="@ + decimal(b.timeout_ms as nat) + "ms"@
}

/// The opening lines of a capabilities response: defaults, limits, budgets, features
/// and modes.
pub open spec fn capabilities_head_lines(r: PlannerCapabilitiesResponse) -> Seq<Seq<char>> {
    let c = r.capabilities;
    seq![
        "planner capabilities "@ + r.snapshot_id@,
        "default_mode: "@ + mode_name(r.default_mode),
        "limits: default="@ + decimal(r.default_limit as nat) + ", max="@ + decimal(r.max_limit as nat),
        "budgets: timeout="@ + decimal(r.budgets.total_timeout_ms as nat) + "ms, max_groups="@ + decimal(r.budgets.max_groups as nat),
        "capabilities:"@,
        "  status="@ + bool_text(c.status) + ", query="@ + bool_text(c.query) + ", explain="@ + bool_text(c.explain)
            + ", trace="@ + bool_text(c.trace),
        "  modes: "@ + bracketed(mode_names(c.modes@)),
    ]
}

/// The line of filter support.
pub open spec fn filters_line(f: crate::protocol::planner::PlannerFilterCapabilities) -> Seq<char> {
    "  path_globs="@ + bool_text(f.path_globs) + ", languages="@ + bool_text(f.languages) + ", extensions="@
        + bool_text(f.extensions) + ", symbol_kinds="@ + bool_text(f.symbol_kinds) + ", packages="@
        + bool_text(f.package_names) + ", workspaces="@ + bool_text(f.workspace_roots)
}

/// The route budget section, when there are route budgets.
pub open spec fn budget_section(bs: Seq<PlannerRouteBudget>) -> Seq<Seq<char>> {
    if bs.len() > 0 { seq!["route_budgets:"@] + bs.map_values(|b: PlannerRouteBudget| budget_line(b)) } else { seq![] }
}

/// The lines of a capabilities response.
pub open spec fn capabilities_response_lines(r: PlannerCapabilitiesResponse) -> Seq<Seq<char>> {
    capabilities_head_lines(r) + seq!["routes:"@] + capabilities_lines(r.capabilities.routes@)
        + seq!["filters:"@, filters_line(r.capabilities.filters)] + budget_section(r.budgets.route_budgets@)
        + diagnostic_section(r.diagnostics@)
}

fn bool_word(b: bool) -> (r: &'static str)
    ensures
        r@ == bool_text(b),
{
    if b { "true" } else { "false" }
}

fn push_budgets(lines: &mut Vec<String>, bs: &Vec<PlannerRouteBudget>)
    ensures
        views(final(lines)@) == views(old(lines)@) + bs@.map_values(|b: PlannerRouteBudget| budget_line(b)),
{
    let ghost start = views(lines@);
    let mut i: usize = 0;
    while i < bs.len()
        invariant
            0 <= i <= bs@.len(),
            views(lines@) == start + bs@.subrange(0, i as int).map_values(|b: PlannerRouteBudget| budget_line(b)),
        decreases bs@.len() - i,
    {
        let b = bs[i];
        let mut line = owned("  ");
        push_str(&mut line, route_kind_name(b.route_kind));
        push_str(&mut line, ": max_candidates=");
        push_str(&mut line, decimal_string(b.max_candidates as u64).as_str());
        push_str(&mut line, ", max_groups=");
        push_str(&mut line, decimal_string(b.max_groups as u64).as_str());
        push_str(&mut line, ", timeout=");
        push_str(&mut line, decimal_string(b.timeout_ms).as_str());
        push_str(&mut line, "ms");
        push_line(lines, line);
        assert(bs@.subrange(0, i + 1).map_values(|b: PlannerRouteBudget| budget_line(b))
            =~= bs@.subrange(0, i as int).map_values(|b: PlannerRouteBudget| budget_line(b)).push(budget_line(bs@[i as int])));
        i = i + 1;
    }
    assert(bs@.subrange(0, bs@.len() as int) =~= bs@);
}

fn capabilities_head(response: &PlannerCapabilitiesResponse) -> (r: Vec<String>)
    ensures
        views(r@) == capabilities_head_lines(*response),
{
    let c = &response.capabilities;
    let mut lines: Vec<String> = Vec::new();
    let mut l1 = owned("planner capabilities ");
    push_str(&mut l1, response.snapshot_id.as_str());
    push_line(&mut lines, l1);
    let mut l2 = owned("default_mode: ");
    push_str(&mut l2, mode_kind_name(response.default_mode));
    push_line(&mut lines, l2);
    let mut l3 = owned("limits: default=");
    push_str(&mut l3, decimal_string(response.default_limit as u64).as_str());
    push_str(&mut l3, ", max=");
    push_str(&mut l3, decimal_string(response.max_limit as u64).as_str());
    push_line(&mut lines, l3);
    let mut l4 = owned("budgets: timeout=");
    push_str(&mut l4, decimal_string(response.budgets.total_timeout_ms).as_str());
    push_str(&mut l4, "ms, max_groups=");
    push_str(&mut l4, decimal_string(response.budgets.max_groups as u64).as_str());
    push_line(&mut lines, l4);
    push_line(&mut lines, owned("capabilities:"));
    let mut l6 = owned("  status=");
    push_str(&mut l6, bool_word(c.status));
    push_str(&mut l6, ", query=");
    push_str(&mut l6, bool_word(c.query));
    push_str(&mut l6, ", explain=");
    push_str(&mut l6, bool_word(c.explain));
    push_str(&mut l6, ", trace=");
    push_str(&mut l6, bool_word(c.trace));
    push_line(&mut lines, l6);
    let mut l7 = owned("  modes: ");
    push_str(&mut l7, mode_list(&c.modes).as_str());
    push_line(&mut lines, l7);
    assert(views(lines@) =~= capabilities_head_lines(*response));
    lines
}

fn filters_line_exec(f: crate::protocol::planner::PlannerFilterCapabilities) -> (r: String)
    ensures
        r@ == filters_line(f),
{
    let mut lf = owned("  path_globs=");
    push_str(&mut lf, bool_word(f.path_globs));
    push_str(&mut lf, ", languages=");
    push_str(&mut lf, bool_word(f.languages));
    push_str(&mut lf, ", extensions=");
    push_str(&mut lf, bool_word(f.extensions));
    push_str(&mut lf, ", symbol_kinds=");
    push_str(&mut lf, bool_word(f.symbol_kinds));
    push_str(&mut lf, ", packages=");
    push_str(&mut lf, bool_word(f.package_names));
    push_str(&mut lf, ", workspaces=");
    push_str(&mut lf, bool_word(f.workspace_roots));
    lf
}

fn push_budget_section(lines: &mut Vec<String>, bs: &Vec<PlannerRouteBudget>)
    ensures
        views(final(lines)@) == views(old(lines)@) + budget_section(bs@),
{
    if bs.len() > 0 {
        push_line(lines, owned("route_budgets:"));
        push_budgets(lines, bs);
        assert(views(lines@) =~= views(old(lines)@) + budget_section(bs@));
    } else {
        assert(views(lines@) =~= views(old(lines)@) + budget_section(bs@));
    }
}

/// The text of a capabilities response: defaults, limits and budgets, the supported
/// features and modes, each route's readiness, filter support, route budgets and
/// diagnostics, one per line.
pub fn render_capabilities_text(response: &PlannerCapabilitiesResponse) -> (s: String)
    ensures
        s@ == joined_lines(capabilities_response_lines(*response)),
{
    let mut lines = capabilities_head(response);
    push_line(&mut lines, owned("routes:"));
    push_capabilities(&mut lines, &response.capabilities.routes);
    push_line(&mut lines, owned("filters:"));
    push_line(&mut lines, filters_line_exec(response.capabilities.filters));
    push_budget_section(&mut lines, &response.budgets.route_budgets);
    push_diagnostic_section(&mut lines, &response.diagnostics);
    assert(views(lines@) =~= capabilities_response_lines(*response));
    join_lines(&lines)
}

} // verus!

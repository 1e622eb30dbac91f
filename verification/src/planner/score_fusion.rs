use vstd::prelude::*;

use crate::planner::copy::{extend_evidence, DeepCopy, EvidenceModel};
use crate::planner::ranking::{
    is_ranked, lemma_ranked_sort_elements, lemma_ranked_sort_is_ranked, ranked_sort, sort_ranked, strict_order, Ranked,
};
use crate::planner::route_adapters::NormalizedPlannerCandidate;
use crate::planner::route_policy::{contains_route, PlannerRoutePolicyKind};
use crate::protocol::planner::{PlannerAnchor, PlannerEvidenceItem, PlannerRouteKind, PlannerRouteTrace};
use crate::protocol::symbols::{SourceSpan, SymbolId};
use crate::text::{lemma_seq_lt_asymmetric, lemma_seq_lt_transitive, seq_lt, str_lt};

verus! {

/// Merges the candidates of all routes into ranked, de-duplicated results.
#[derive(Debug, Default, Clone, Copy)]
pub struct ScoreFusion;

/// What makes two candidates the same result.
#[derive(Debug, Clone, PartialEq, Eq)]
pub enum DedupKey {
    Symbol(SymbolId),
    PathSpan { path: String, byte_start: u32, byte_end: u32 },
    Path(String),
    Unique(String),
}

/// One result after fusion, with the candidates that were merged into it.
#[derive(Debug, Clone, PartialEq, Eq)]
pub struct FusedCandidate {
    pub dedup_key: DedupKey,
    pub fused_score: u32,
    pub contributing_routes: Vec<PlannerRouteKind>,
    pub primary: NormalizedPlannerCandidate,
    pub merged_evidence: Vec<PlannerEvidenceItem>,
    pub anchor: PlannerAnchor,
    pub label: String,
}

/// A candidate with its normalized score.
pub type ScoredCandidate = (NormalizedPlannerCandidate, u32);

/// The raw score that maps to 100 for an engine.
pub open spec fn max_raw(engine_type: PlannerRouteKind) -> u32 {
    match engine_type {
        PlannerRouteKind::Exact => 1100,
        PlannerRouteKind::Symbol => 1100,
        PlannerRouteKind::Semantic => 1_000_000,
        PlannerRouteKind::Impact => 1000,
    }
}

/// A candidate's engine score on a 0..=100 scale: `raw * 100 / max` (the product saturating
/// at `u32::MAX`), capped at 100; no score gives 0.
pub open spec fn normalized_score(c: NormalizedPlannerCandidate) -> u32 {
    match c.engine_score {
        None => 0,
        Some(raw) => {
            let product: int = if raw * 100 > u32::MAX { u32::MAX as int } else { raw * 100 };
            let q: int = product / (max_raw(c.engine_type) as int);
            if q < 100 { q as u32 } else { 100 }
        },
    }
}

/// The key a candidate is de-duplicated by: its symbol, else its path and span, else its
/// path, else its own id.
pub open spec fn key_of(c: NormalizedPlannerCandidate) -> DedupKey {
    match c.primary_symbol_id {
        Some(s) => DedupKey::Symbol(s),
        None => match c.primary_path {
            Some(p) => match c.primary_span {
                Some(span) => DedupKey::PathSpan { path: p, byte_start: span.bytes.start, byte_end: span.bytes.end },
                None => DedupKey::Path(p),
            },
            None => DedupKey::Unique(c.candidate_id),
        },
    }
}

/// Equality of keys by content.
pub open spec fn key_same(a: DedupKey, b: DedupKey) -> bool {
    match (a, b) {
        (DedupKey::Symbol(x), DedupKey::Symbol(y)) => x.0@ == y.0@,
        (DedupKey::PathSpan { path: p1, byte_start: s1, byte_end: e1 },
            DedupKey::PathSpan { path: p2, byte_start: s2, byte_end: e2 }) => p1@ == p2@ && s1 == s2 && e1 == e2,
        (DedupKey::Path(x), DedupKey::Path(y)) => x@ == y@,
        (DedupKey::Unique(x), DedupKey::Unique(y)) => x@ == y@,
        _ => false,
    }
}

/// Whether two spans share at least one byte.
pub open spec fn overlapping(a: SourceSpan, b: SourceSpan) -> bool {
    a.bytes.start < b.bytes.end && b.bytes.start < a.bytes.end
}

/// Whether the candidate's symbol is the symbol a group is keyed by.
pub open spec fn symbol_hit(group_key: DedupKey, c: NormalizedPlannerCandidate) -> bool {
    c.primary_symbol_id matches Some(s) && group_key matches DedupKey::Symbol(k) && k.0@ == s.0@
}

/// Whether some member has the candidate's path and a span overlapping the candidate's.
pub open spec fn overlap_hit(members: Seq<ScoredCandidate>, c: NormalizedPlannerCandidate) -> bool {
    c.primary_path is Some && c.primary_span is Some && exists|i: int| 0 <= i < members.len()
        && (#[trigger] members[i]).0.primary_path is Some && members[i].0.primary_span is Some
        && members[i].0.primary_path->0@ == c.primary_path->0@
        && overlapping(c.primary_span->0, members[i].0.primary_span->0)
}

/// Whether a candidate joins a group: same key, same symbol, or same path with overlapping spans.
pub open spec fn merges(group_key: DedupKey, members: Seq<ScoredCandidate>, key: DedupKey, c: NormalizedPlannerCandidate) -> bool {
    key_same(group_key, key) || symbol_hit(group_key, c) || overlap_hit(members, c)
}

/// The first group that a candidate joins.
pub open spec fn first_merge(groups: Seq<(DedupKey, Seq<ScoredCandidate>)>, key: DedupKey, c: NormalizedPlannerCandidate) -> Option<int>
    decreases groups.len(),
{
    if groups.len() == 0 {
        None
    } else if merges(groups[0].0, groups[0].1, key, c) {
        Some(0)
    } else {
        match first_merge(groups.drop_first(), key, c) {
            Some(i) => Some(i + 1),
            None => None,
        }
    }
}

/// The groups of `cs`: each candidate in turn joins the first group it merges with, or
/// opens a group of its own.
pub open spec fn dedup(cs: Seq<NormalizedPlannerCandidate>) -> Seq<(DedupKey, Seq<ScoredCandidate>)>
    decreases cs.len(),
{
    if cs.len() == 0 {
        Seq::empty()
    } else {
        let groups = dedup(cs.drop_last());
        let c = cs.last();
        let entry = (c, normalized_score(c));
        match first_merge(groups, key_of(c), c) {
            Some(i) => groups.update(i, (groups[i].0, groups[i].1.push(entry))),
            None => groups.push((key_of(c), seq![entry])),
        }
    }
}

/// The rank of a route when scores tie: exact, symbol, semantic, impact.
pub open spec fn priority(route_kind: PlannerRouteKind) -> u32 {
    match route_kind {
        PlannerRouteKind::Exact => 4,
        PlannerRouteKind::Symbol => 3,
        PlannerRouteKind::Semantic => 2,
        PlannerRouteKind::Impact => 1,
    }
}

/// The highest priority among routes, 0 for none.
pub open spec fn best_priority(routes: Seq<PlannerRouteKind>) -> u32
    decreases routes.len(),
{
    if routes.len() == 0 {
        0
    } else {
        let rest = best_priority(routes.drop_last());
        let p = priority(routes.last());
        if p > rest { p } else { rest }
    }
}

impl Ranked for (NormalizedPlannerCandidate, u32) {
    /// Higher normalized score first, then higher route priority.
    open spec fn ranks_before(a: Self, b: Self) -> bool {
        a.1 > b.1 || (a.1 == b.1 && priority(a.0.engine_type) > priority(b.0.engine_type))
    }

    fn before(&self, other: &Self) -> (r: bool) {
        self.1 > other.1 || (self.1 == other.1 && route_priority(self.0.engine_type) > route_priority(other.0.engine_type))
    }
}

/// The engine rank used for ordering: unranked candidates come last.
pub open spec fn rank_key(c: NormalizedPlannerCandidate) -> u32 {
    match c.rank {
        Some(r) => r,
        None => u32::MAX,
    }
}

impl Ranked for FusedCandidate {
    /// Higher fused score, then higher route priority, then lower engine rank, then the
    /// smaller candidate id.
    open spec fn ranks_before(a: Self, b: Self) -> bool {
        let pa = best_priority(a.contributing_routes@);
        let pb = best_priority(b.contributing_routes@);
        ||| a.fused_score > b.fused_score
        ||| (a.fused_score == b.fused_score && pa > pb)
        ||| (a.fused_score == b.fused_score && pa == pb && rank_key(a.primary) < rank_key(b.primary))
        ||| (a.fused_score == b.fused_score && pa == pb && rank_key(a.primary) == rank_key(b.primary)
            && seq_lt(a.primary.candidate_id@, b.primary.candidate_id@))
    }

    fn before(&self, other: &Self) -> (r: bool) {
        let pa = best_route_priority(&self.contributing_routes);
        let pb = best_route_priority(&other.contributing_routes);
        let ra = match self.primary.rank { Some(r) => r, None => u32::MAX };
        let rb = match other.primary.rank { Some(r) => r, None => u32::MAX };
        if self.fused_score != other.fused_score {
            self.fused_score > other.fused_score
        } else if pa != pb {
            pa > pb
        } else if ra != rb {
            ra < rb
        } else {
            str_lt(self.primary.candidate_id.as_str(), other.primary.candidate_id.as_str())
        }
    }
}

/// The routes of `members` in order, each once.
pub open spec fn distinct_routes(members: Seq<ScoredCandidate>) -> Seq<PlannerRouteKind>
    decreases members.len(),
{
    if members.len() == 0 {
        Seq::empty()
    } else {
        let routes = distinct_routes(members.drop_last());
        let k = members.last().0.route_kind;
        if routes.contains(k) { routes } else { routes.push(k) }
    }
}

/// The evidence of `members`, in order.
pub open spec fn merged_evidence_of(members: Seq<ScoredCandidate>) -> Seq<EvidenceModel>
    decreases members.len(),
{
    if members.len() == 0 {
        Seq::empty()
    } else {
        merged_evidence_of(members.drop_last()) + members.last().0.evidence.deep_view()
    }
}

/// The bonus for agreement between routes: 2 per route beyond the first, at most 6.
pub open spec fn agreement_bonus(route_count: nat) -> u32 {
    let extra: int = if route_count == 0 { 0 } else { route_count - 1 };
    if extra * 2 < 6 { (extra * 2) as u32 } else { 6 }
}

/// Whether `f` is the fused result of a group with this key and these members: the best
/// member (by score, then route priority) leads it, every member's routes and evidence
/// are kept, and the score is the best member's plus the agreement bonus.
pub open spec fn fuses(f: FusedCandidate, key: DedupKey, members: Seq<ScoredCandidate>) -> bool {
    let sorted = ranked_sort(members);
    let routes = distinct_routes(sorted);
    &&& f.dedup_key == key
    &&& f.primary == sorted[0].0
    &&& f.contributing_routes@ == routes
    &&& f.merged_evidence.deep_view() == merged_evidence_of(sorted)
    &&& f.fused_score == sorted[0].1 + agreement_bonus(routes.len())
    &&& f.anchor == sorted[0].0.anchor
    &&& f.label == sorted[0].0.label
}

/// Whether `r` is the ranked list of the fused results of the groups of `cs`.
pub open spec fn fusion_of(r: Seq<FusedCandidate>, cs: Seq<NormalizedPlannerCandidate>) -> bool {
    let groups = dedup(cs);
    exists|built: Seq<FusedCandidate>| #![trigger ranked_sort(built)]
        built.len() == groups.len()
        && (forall|i: int| 0 <= i < built.len() ==> fuses(#[trigger] built[i], groups[i].0, groups[i].1))
        && r == ranked_sort(built)
}

impl ScoreFusion {
    /// Groups the candidates of all routes into results, fuses each group, and ranks them.
    pub fn fuse(
        &self,
        candidates: Vec<NormalizedPlannerCandidate>,
        traces: &Vec<PlannerRouteTrace>,
        route_policy: PlannerRoutePolicyKind,
    ) -> (r: Vec<FusedCandidate>)
        ensures
            fusion_of(r@, candidates@),
    {
        let ghost cs = candidates@;
        let (keys, groups) = dedup_candidates(candidates);
        let ghost groups_model = dedup(cs);
        let n = keys.len();
        let mut keys = keys;
        let mut groups = groups;
        let mut built: Vec<FusedCandidate> = Vec::new();
        let mut i: usize = 0;
        proof {
            lemma_dedup_facts(cs);
            assert(groups_model.subrange(0, n as int) =~= groups_model);
        }
        while keys.len() > 0
            invariant
                0 <= i <= n,
                n == groups_model.len(),
                keys@.len() == n - i,
                groups@.len() == n - i,
                groups_view(keys@, groups@) == groups_model.subrange(i as int, n as int),
                forall|k: int| 0 <= k < n ==> (#[trigger] groups_model[k]).1.len() > 0,
                forall|k: int, m: int| 0 <= k < n && 0 <= m < groups_model[k].1.len() ==> #[trigger] groups_model[k].1[m].1 <= 100,
                built@.len() == i,
                forall|k: int| 0 <= k < i ==> fuses(#[trigger] built@[k], groups_model[k].0, groups_model[k].1),
            decreases keys@.len(),
        {
            let ghost old_view = groups_view(keys@, groups@);
            let key = keys.remove(0);
            let members = groups.remove(0);
            assert(old_view[0] == (key, members@));
            assert(groups_view(keys@, groups@) =~= old_view.drop_first());
            assert(groups_model.subrange(i as int, n as int).drop_first() =~= groups_model.subrange(i + 1, n as int));
            assert(members@ == groups_model[i as int].1);
            assert(key == groups_model[i as int].0);
            assert(forall|m: int| 0 <= m < members@.len() ==> #[trigger] members@[m].1 <= 100);
            let f = build_fused(key, members);
            built.push(f);
            i = i + 1;
        }
        let ghost b = built@;
        let r = sort_ranked(built);
        assert(b.len() == groups_model.len());
        assert(forall|k: int| 0 <= k < b.len() ==> fuses(#[trigger] b[k], groups_model[k].0, groups_model[k].1));
        assert(r@ == ranked_sort(b));
        r
    }
}

proof fn lemma_fused_strict_order()
    ensures
        strict_order::<FusedCandidate>(),
{
    assert forall|a: FusedCandidate, b: FusedCandidate| #[trigger] FusedCandidate::ranks_before(a, b)
        implies !FusedCandidate::ranks_before(b, a) by {
        lemma_seq_lt_asymmetric(a.primary.candidate_id@, b.primary.candidate_id@);
    }
    assert forall|a: FusedCandidate, b: FusedCandidate, c: FusedCandidate|
        #[trigger] FusedCandidate::ranks_before(a, b) && #[trigger] FusedCandidate::ranks_before(b, c)
        implies FusedCandidate::ranks_before(a, c) by {
        lemma_seq_lt_transitive(a.primary.candidate_id@, b.primary.candidate_id@, c.primary.candidate_id@);
    }
}

/// Fusion returns its results in ranking order: by fused score, highest first, then by
/// route priority, engine rank and candidate id, so a result never ranks before one that
/// precedes it.
pub proof fn law_fusion_is_ranked(r: Seq<FusedCandidate>, cs: Seq<NormalizedPlannerCandidate>)
    requires
        fusion_of(r, cs),
    ensures
        is_ranked(r),
        forall|i: int, j: int| 0 <= i < j < r.len() ==> #[trigger] r[i].fused_score >= #[trigger] r[j].fused_score,
{
    let groups = dedup(cs);
    let built = choose|built: Seq<FusedCandidate>| #![trigger ranked_sort(built)]
        built.len() == groups.len()
        && (forall|i: int| 0 <= i < built.len() ==> fuses(#[trigger] built[i], groups[i].0, groups[i].1))
        && r == ranked_sort(built);
    lemma_fused_strict_order();
    lemma_ranked_sort_is_ranked(built);
    assert forall|i: int, j: int| 0 <= i < j < r.len() implies #[trigger] r[i].fused_score >= #[trigger] r[j].fused_score by {
        assert(!FusedCandidate::ranks_before(r[j], r[i]));
    }
}

/// Every fused score is a normalized score (at most 100) plus an agreement bonus of at
/// most 6.
pub proof fn law_fused_score_bounded(r: Seq<FusedCandidate>, cs: Seq<NormalizedPlannerCandidate>)
    requires
        fusion_of(r, cs),
    ensures
        forall|i: int| 0 <= i < r.len() ==> #[trigger] r[i].fused_score <= 106,
{
    let groups = dedup(cs);
    let built = choose|built: Seq<FusedCandidate>| #![trigger ranked_sort(built)]
        built.len() == groups.len()
        && (forall|i: int| 0 <= i < built.len() ==> fuses(#[trigger] built[i], groups[i].0, groups[i].1))
        && r == ranked_sort(built);
    lemma_dedup_facts(cs);
    lemma_ranked_sort_elements(built);
    assert forall|k: int| 0 <= k < built.len() implies #[trigger] built[k].fused_score <= 106 by {
        let members = groups[k].1;
        lemma_ranked_sort_elements(members);
        let sorted = ranked_sort(members);
        let j = choose|j: int| 0 <= j < members.len() && sorted[0] == members[j];
        assert(members[j].1 <= 100);
    }
    assert forall|i: int| 0 <= i < r.len() implies #[trigger] r[i].fused_score <= 106 by {
        let k = choose|k: int| 0 <= k < built.len() && r[i] == built[k];
        assert(built[k].fused_score <= 106);
    }
}

/// The groups of `candidates`, as parallel lists of keys and members.
pub open spec fn groups_view(keys: Seq<DedupKey>, groups: Seq<Vec<ScoredCandidate>>) -> Seq<(DedupKey, Seq<ScoredCandidate>)> {
    Seq::new(keys.len(), |i: int| (keys[i], groups[i]@))
}

proof fn lemma_dedup_facts(cs: Seq<NormalizedPlannerCandidate>)
    ensures
        forall|k: int| 0 <= k < dedup(cs).len() ==> (#[trigger] dedup(cs)[k]).1.len() > 0,
        forall|k: int, m: int| 0 <= k < dedup(cs).len() && 0 <= m < dedup(cs)[k].1.len() ==> #[trigger] dedup(cs)[k].1[m].1 <= 100,
    decreases cs.len(),
{
    if cs.len() > 0 {
        lemma_dedup_facts(cs.drop_last());
        let groups = dedup(cs.drop_last());
        let c = cs.last();
        lemma_first_merge_range(groups, key_of(c), c);
    }
}

proof fn lemma_first_merge_range(groups: Seq<(DedupKey, Seq<ScoredCandidate>)>, key: DedupKey, c: NormalizedPlannerCandidate)
    ensures
        first_merge(groups, key, c) matches Some(i) ==> 0 <= i < groups.len(),
    decreases groups.len(),
{
    if groups.len() > 0 {
        lemma_first_merge_range(groups.drop_first(), key, c);
    }
}

fn dedup_candidates(candidates: Vec<NormalizedPlannerCandidate>) -> (r: (Vec<DedupKey>, Vec<Vec<ScoredCandidate>>))
    ensures
        r.0@.len() == r.1@.len(),
        groups_view(r.0@, r.1@) == dedup(candidates@),
{
    let ghost cs = candidates@;
    let n = candidates.len();
    let mut rest = candidates;
    let mut keys: Vec<DedupKey> = Vec::new();
    let mut groups: Vec<Vec<ScoredCandidate>> = Vec::new();
    let mut i: usize = 0;
    while rest.len() > 0
        invariant
            0 <= i <= n,
            n == cs.len(),
            rest@ == cs.subrange(i as int, n as int),
            keys@.len() == groups@.len(),
            groups_view(keys@, groups@) == dedup(cs.subrange(0, i as int)),
        decreases rest@.len(),
    {
        let c = rest.remove(0);
        let score = normalize_score(&c);
        let key = dedup_key_for(&c);
        let ghost before = groups_view(keys@, groups@);
        let found = find_merge(&keys, &groups, &key, &c);
        proof {
            lemma_first_merge_range(before, key, c);
        }
        let ghost pre = cs.subrange(0, i + 1);
        assert(pre.drop_last() =~= cs.subrange(0, i as int));
        assert(pre.last() == c);
        match found {
            Some(j) => {
                let mut members = groups.remove(j);
                members.push((c, score));
                groups.insert(j, members);
                assert(groups_view(keys@, groups@) =~= before.update(j as int, (before[j as int].0, before[j as int].1.push((c, score)))));
            },
            None => {
                let mut single: Vec<ScoredCandidate> = Vec::new();
                single.push((c, score));
                assert(single@ =~= seq![(c, score)]);
                keys.push(key);
                groups.push(single);
                assert(groups_view(keys@, groups@) =~= before.push((key, seq![(c, score)])));
            },
        }
        assert(rest@ =~= cs.subrange(i + 1, n as int));
        i = i + 1;
    }
    assert(cs.subrange(0, n as int) =~= cs);
    (keys, groups)
}

fn find_merge(keys: &Vec<DedupKey>, groups: &Vec<Vec<ScoredCandidate>>, key: &DedupKey, c: &NormalizedPlannerCandidate) -> (r: Option<usize>)
    requires
        keys@.len() == groups@.len(),
    ensures
        match r {
            Some(j) => first_merge(groups_view(keys@, groups@), *key, *c) == Some(j as int),
            None => first_merge(groups_view(keys@, groups@), *key, *c) is None,
        },
{
    let ghost g = groups_view(keys@, groups@);
    let mut j: usize = 0;
    assert(g.subrange(0, g.len() as int) =~= g);
    while j < keys.len()
        invariant
            0 <= j <= keys@.len(),
            keys@.len() == groups@.len(),
            g == groups_view(keys@, groups@),
            first_merge(g, *key, *c) == (match first_merge(g.subrange(j as int, g.len() as int), *key, *c) {
                Some(k) => Some(k + j),
                None => None,
            }),
        decreases keys@.len() - j,
    {
        let ghost rest = g.subrange(j as int, g.len() as int);
        assert(rest[0] == g[j as int]);
        assert(rest.drop_first() =~= g.subrange(j + 1, g.len() as int));
        if should_merge(&keys[j], &groups[j], key, c) {
            return Some(j);
        }
        j = j + 1;
    }
    None
}

fn should_merge(group_key: &DedupKey, members: &Vec<ScoredCandidate>, key: &DedupKey, c: &NormalizedPlannerCandidate) -> (r: bool)
    ensures
        r == merges(*group_key, members@, *key, *c),
{
    if key_eq(group_key, key) {
        return true;
    }
    let sym = match (&c.primary_symbol_id, group_key) {
        (Some(s), DedupKey::Symbol(k)) => k.0 == s.0,
        _ => false,
    };
    if sym {
        return true;
    }
    match (&c.primary_path, &c.primary_span) {
        (Some(path), Some(span)) => {
            let mut i: usize = 0;
            while i < members.len()
                invariant
                    0 <= i <= members@.len(),
                    c.primary_path == Some(*path),
                    c.primary_span == Some(*span),
                    forall|k: int| 0 <= k < i ==> !((#[trigger] members@[k]).0.primary_path is Some && members@[k].0.primary_span is Some
                        && members@[k].0.primary_path->0@ == path@
                        && overlapping(*span, members@[k].0.primary_span->0)),
                decreases members@.len() - i,
            {
                match (&members[i].0.primary_path, &members[i].0.primary_span) {
                    (Some(e_path), Some(e_span)) => {
                        if *path == *e_path && spans_overlap(span, e_span) {
                            assert(members@[i as int].0.primary_path is Some);
                            return true;
                        }
                    },
                    _ => {},
                }
                i = i + 1;
            }
            false
        },
        _ => false,
    }
}

fn key_eq(a: &DedupKey, b: &DedupKey) -> (r: bool)
    ensures
        r == key_same(*a, *b),
{
    match (a, b) {
        (DedupKey::Symbol(x), DedupKey::Symbol(y)) => x.0 == y.0,
        (DedupKey::PathSpan { path: p1, byte_start: s1, byte_end: e1 },
            DedupKey::PathSpan { path: p2, byte_start: s2, byte_end: e2 }) => *p1 == *p2 && *s1 == *s2 && *e1 == *e2,
        (DedupKey::Path(x), DedupKey::Path(y)) => *x == *y,
        (DedupKey::Unique(x), DedupKey::Unique(y)) => *x == *y,
        _ => false,
    }
}

/// Whether two spans share at least one byte.
pub fn spans_overlap(a: &SourceSpan, b: &SourceSpan) -> (r: bool)
    ensures
        r == overlapping(*a, *b),
{
    a.bytes.start < b.bytes.end && b.bytes.start < a.bytes.end
}

/// The raw score that maps to 100 for an engine.
pub fn max_raw_for(engine_type: PlannerRouteKind) -> (r: u32)
    ensures
        r == max_raw(engine_type),
{
    match engine_type {
        PlannerRouteKind::Exact => 1100,
        PlannerRouteKind::Symbol => 1100,
        PlannerRouteKind::Semantic => 1_000_000,
        PlannerRouteKind::Impact => 1000,
    }
}

/// A candidate's engine score on a 0..=100 scale.
pub fn normalize_score(candidate: &NormalizedPlannerCandidate) -> (r: u32)
    ensures
        r == normalized_score(*candidate),
        r <= 100,
{
    match candidate.engine_score {
        None => 0,
        Some(raw) => {
            let wide: u64 = (raw as u64) * 100;
            let product: u32 = if wide > 0xffff_ffffu64 { 0xffff_ffffu32 } else { wide as u32 };
            let q = product / max_raw_for(candidate.engine_type);
            if q < 100 { q } else { 100 }
        },
    }
}

/// The key a candidate is de-duplicated by.
pub fn dedup_key_for(candidate: &NormalizedPlannerCandidate) -> (k: DedupKey)
    ensures
        k == key_of(*candidate),
{
    if let Some(symbol_id) = &candidate.primary_symbol_id {
        return DedupKey::Symbol(symbol_id.deep_copy());
    }
    if let Some(path) = &candidate.primary_path {
        if let Some(span) = &candidate.primary_span {
            return DedupKey::PathSpan { path: path.clone(), byte_start: span.bytes.start, byte_end: span.bytes.end };
        }
        return DedupKey::Path(path.clone());
    }
    DedupKey::Unique(candidate.candidate_id.clone())
}

/// The rank of a route when scores tie.
pub fn route_priority(route_kind: PlannerRouteKind) -> (r: u32)
    ensures
        r == priority(route_kind),
{
    match route_kind {
        PlannerRouteKind::Exact => 4,
        PlannerRouteKind::Symbol => 3,
        PlannerRouteKind::Semantic => 2,
        PlannerRouteKind::Impact => 1,
    }
}

/// The highest priority among routes, 0 for none.
pub fn best_route_priority(routes: &Vec<PlannerRouteKind>) -> (r: u32)
    ensures
        r == best_priority(routes@),
{
    let mut best: u32 = 0;
    let mut i: usize = 0;
    while i < routes.len()
        invariant
            0 <= i <= routes@.len(),
            best == best_priority(routes@.subrange(0, i as int)),
        decreases routes@.len() - i,
    {
        assert(routes@.subrange(0, i + 1).drop_last() =~= routes@.subrange(0, i as int));
        let p = route_priority(routes[i]);
        if p > best {
            best = p;
        }
        i = i + 1;
    }
    assert(routes@.subrange(0, routes@.len() as int) =~= routes@);
    best
}

fn build_fused(key: DedupKey, members: Vec<ScoredCandidate>) -> (f: FusedCandidate)
    requires
        members@.len() > 0,
        forall|m: int| 0 <= m < members@.len() ==> #[trigger] members@[m].1 <= 100,
    ensures
        fuses(f, key, members@),
{
    let ghost ms = members@;
    let mut sorted = sort_ranked(members);
    proof {
        lemma_ranked_sort_elements(ms);
    }
    let ghost s = sorted@;
    assert(s.len() > 0);
    let mut routes: Vec<PlannerRouteKind> = Vec::new();
    let mut evidence: Vec<PlannerEvidenceItem> = Vec::new();
    let mut i: usize = 0;
    while i < sorted.len()
        invariant
            0 <= i <= s.len(),
            sorted@ == s,
            routes@ == distinct_routes(s.subrange(0, i as int)),
            evidence.deep_view() == merged_evidence_of(s.subrange(0, i as int)),
        decreases s.len() - i,
    {
        assert(s.subrange(0, i + 1).drop_last() =~= s.subrange(0, i as int));
        let route_kind = sorted[i].0.route_kind;
        if !contains_route(&routes, route_kind) {
            routes.push(route_kind);
        }
        extend_evidence(&mut evidence, &sorted[i].0.evidence);
        i = i + 1;
    }
    assert(s.subrange(0, s.len() as int) =~= s);
    let count = routes.len();
    let extra: usize = if count == 0 { 0 } else { count - 1 };
    let bonus: u32 = if extra >= 3 { 6 } else { (extra * 2) as u32 };
    let best = sorted[0].1;
    assert(best <= 100) by {
        let j = choose|j: int| 0 <= j < ms.len() && s[0] == ms[j];
        assert(ms[j].1 <= 100);
    }
    let (primary, _) = sorted.remove(0);
    FusedCandidate {
        dedup_key: key,
        fused_score: best + bonus,
        contributing_routes: routes,
        anchor: primary.anchor.deep_copy(),
        label: primary.label.clone(),
        primary,
        merged_evidence: evidence,
    }
}

} // verus!

use vstd::prelude::*;

use crate::planner::copy::{extend_evidence, DeepCopy, EvidenceModel};
use crate::planner::ranking::{
    lemma_ranked_sort_elements, lemma_ranked_sort_is_ranked, lemma_ranked_sort_keeps, lemma_ranked_sort_len, ranked_sort,
    sort_ranked, strict_order, Ranked,
};
use crate::planner::route_policy::contains_route;
use crate::planner::score_fusion::FusedCandidate;
use crate::protocol::planner::{
    PlannerEvidenceItem, PlannerExplanationPayload, PlannerResultGroup, PlannerRouteKind,
    PlannerTrustPayload, PlannerTrustTier,
};
use crate::text::{concat2, decimal, lemma_seq_lt_asymmetric, lemma_seq_lt_transitive, push_decimal, push_str, seq_lt, str_lt};

verus! {

/// Turns fused candidates into result groups.
#[derive(Debug, Default, Clone, Copy)]
pub struct ResultGrouping;

/// A fused candidate as a member of a group, ranked by fused score and then by id.
pub struct GroupMember(pub FusedCandidate);

impl Ranked for GroupMember {
    open spec fn ranks_before(a: Self, b: Self) -> bool {
        a.0.fused_score > b.0.fused_score || (a.0.fused_score == b.0.fused_score && seq_lt(
            a.0.primary.candidate_id@,
            b.0.primary.candidate_id@,
        ))
    }

    fn before(&self, other: &Self) -> (r: bool) {
        if self.0.fused_score != other.0.fused_score {
            self.0.fused_score > other.0.fused_score
        } else {
            str_lt(self.0.primary.candidate_id.as_str(), other.0.primary.candidate_id.as_str())
        }
    }
}

/// Groups rank by score (none counting as 0), highest first, then by id.
impl Ranked for PlannerResultGroup {
    open spec fn ranks_before(a: Self, b: Self) -> bool {
        let sa: u32 = match a.score { Some(s) => s, None => 0 };
        let sb: u32 = match b.score { Some(s) => s, None => 0 };
        sa > sb || (sa == sb && seq_lt(a.group_id@, b.group_id@))
    }

    fn before(&self, other: &Self) -> (r: bool) {
        let sa: u32 = match self.score { Some(s) => s, None => 0 };
        let sb: u32 = match other.score { Some(s) => s, None => 0 };
        if sa != sb {
            sa > sb
        } else {
            str_lt(self.group_id.as_str(), other.group_id.as_str())
        }
    }
}

/// The group a fused candidate belongs to: its symbol, else its file, else itself.
pub open spec fn group_key_of(f: FusedCandidate) -> Seq<char> {
    match f.primary.primary_symbol_id {
        Some(s) => "group:symbol:"@ + s.0@,
        None => match f.primary.primary_path {
            Some(p) => "group:file:"@ + p@,
            None => "group:standalone:"@ + f.primary.candidate_id@,
        },
    }
}

/// The index of the group with key `key`, if any.
pub open spec fn key_index(groups: Seq<(Seq<char>, Seq<GroupMember>)>, key: Seq<char>) -> Option<int>
    decreases groups.len(),
{
    if groups.len() == 0 {
        None
    } else if groups.last().0 == key {
        Some(groups.len() - 1)
    } else {
        key_index(groups.drop_last(), key)
    }
}

/// The groups of `fs` by key, in order of first appearance, each with its members in order.
pub open spec fn collect_groups(fs: Seq<FusedCandidate>) -> Seq<(Seq<char>, Seq<GroupMember>)>
    decreases fs.len(),
{
    if fs.len() == 0 {
        Seq::empty()
    } else {
        let groups = collect_groups(fs.drop_last());
        let f = fs.last();
        let key = group_key_of(f);
        match key_index(groups, key) {
            Some(i) => groups.update(i, (key, groups[i].1.push(GroupMember(f)))),
            None => groups.push((key, seq![GroupMember(f)])),
        }
    }
}

/// `acc` with each route of `rs` appended, in order, unless already present.
pub open spec fn add_routes(acc: Seq<PlannerRouteKind>, rs: Seq<PlannerRouteKind>) -> Seq<PlannerRouteKind>
    decreases rs.len(),
{
    if rs.len() == 0 {
        acc
    } else {
        let before = add_routes(acc, rs.drop_last());
        if before.contains(rs.last()) { before } else { before.push(rs.last()) }
    }
}

/// The routes of the members, in order, each once.
pub open spec fn member_routes(ms: Seq<GroupMember>) -> Seq<PlannerRouteKind>
    decreases ms.len(),
{
    if ms.len() == 0 {
        Seq::empty()
    } else {
        add_routes(member_routes(ms.drop_last()), ms.last().0.contributing_routes@)
    }
}

/// The evidence of the members, in order.
pub open spec fn member_evidence(ms: Seq<GroupMember>) -> Seq<EvidenceModel>
    decreases ms.len(),
{
    if ms.len() == 0 {
        Seq::empty()
    } else {
        member_evidence(ms.drop_last()) + ms.last().0.merged_evidence.deep_view()
    }
}

/// The highest fused score among the members, 0 for none.
pub open spec fn max_member_score(ms: Seq<GroupMember>) -> u32
    decreases ms.len(),
{
    if ms.len() == 0 {
        0
    } else {
        let rest = max_member_score(ms.drop_last());
        let s = ms.last().0.fused_score;
        if s > rest { s } else { rest }
    }
}

/// The summary line of a group.
pub open spec fn group_summary(member_count: nat, route_count: nat) -> Seq<char> {
    if member_count == 1 {
        "1 candidate from "@ + decimal(route_count) + " route(s)"@
    } else {
        decimal(member_count) + " candidates from "@ + decimal(route_count) + " route(s)"@
    }
}

/// Whether `t` is the structural trust a group receives before decoration.
pub open spec fn is_default_trust(t: PlannerTrustPayload, evidence_count: u32, route_agreement_count: u32) -> bool {
    &&& t.tier == PlannerTrustTier::NeedsReview
    &&& !t.deterministic
    &&& t.evidence_count == evidence_count
    &&& t.route_agreement_count == route_agreement_count
    &&& t.template_id@ == "planner.trust.structural_default"@
    &&& t.reasons@.len() == 1
    &&& t.reasons@[0]@ == "trust decoration is deferred; structural default applied"@
    &&& t.warnings@.len() == 0
}

/// Whether `g` is the group built from these members under this id: led by the best
/// member (by fused score, then id), with every member's routes and evidence, the highest
/// member score, a summary of its size, and the structural trust.
pub open spec fn builds(g: PlannerResultGroup, id: Seq<char>, members: Seq<GroupMember>) -> bool {
    let sorted = ranked_sort(members);
    let best = sorted[0].0;
    let routes = member_routes(sorted);
    let evidence = member_evidence(sorted);
    &&& g.group_id@ == id
    &&& g.label == best.label
    &&& g.anchor == Some(best.anchor)
    &&& g.routes@ == routes
    &&& g.evidence.deep_view() == evidence
    &&& g.score == Some(max_member_score(sorted))
    &&& g.explanation.template_id@ == "planner.group.fused"@
    &&& g.explanation.summary@ == group_summary(members.len(), routes.len())
    &&& g.explanation.details@.len() == 0
    &&& is_default_trust(g.trust, evidence.len() as u32, routes.len() as u32)
}

/// Whether `r` is the grouping of `fs`: the groups built from `fs`, ranked, and cut to `limit`.
pub open spec fn grouping_of(r: Seq<PlannerResultGroup>, fs: Seq<FusedCandidate>, limit: u32) -> bool {
    let groups = collect_groups(fs);
    exists|built: Seq<PlannerResultGroup>| #![trigger ranked_sort(built)]
        built.len() == groups.len()
        && (forall|i: int| 0 <= i < built.len() ==> builds(#[trigger] built[i], groups[i].0, groups[i].1))
        && r == (if limit < built.len() { ranked_sort(built).take(limit as int) } else { ranked_sort(built) })
}

/// The keys and members of the collected groups, as one sequence.
pub open spec fn collected_view(keys: Seq<String>, members: Seq<Vec<GroupMember>>) -> Seq<(Seq<char>, Seq<GroupMember>)> {
    Seq::new(keys.len(), |i: int| (keys[i]@, members[i]@))
}

proof fn lemma_key_index_range(groups: Seq<(Seq<char>, Seq<GroupMember>)>, key: Seq<char>)
    ensures
        key_index(groups, key) matches Some(i) ==> 0 <= i < groups.len() && groups[i].0 == key,
    decreases groups.len(),
{
    if groups.len() > 0 {
        lemma_key_index_range(groups.drop_last(), key);
    }
}

proof fn lemma_collect_nonempty(fs: Seq<FusedCandidate>)
    ensures
        forall|k: int| 0 <= k < collect_groups(fs).len() ==> (#[trigger] collect_groups(fs)[k]).1.len() > 0,
    decreases fs.len(),
{
    if fs.len() > 0 {
        lemma_collect_nonempty(fs.drop_last());
        lemma_key_index_range(collect_groups(fs.drop_last()), group_key_of(fs.last()));
    }
}

proof fn lemma_group_strict_order()
    ensures
        strict_order::<PlannerResultGroup>(),
{
    assert forall|a: PlannerResultGroup, b: PlannerResultGroup| #[trigger] PlannerResultGroup::ranks_before(a, b)
        implies !PlannerResultGroup::ranks_before(b, a) by {
        lemma_seq_lt_asymmetric(a.group_id@, b.group_id@);
    }
    assert forall|a: PlannerResultGroup, b: PlannerResultGroup, c: PlannerResultGroup|
        #[trigger] PlannerResultGroup::ranks_before(a, b) && #[trigger] PlannerResultGroup::ranks_before(b, c)
        implies PlannerResultGroup::ranks_before(a, c) by {
        lemma_seq_lt_transitive(a.group_id@, b.group_id@, c.group_id@);
    }
}

/// The score a group is ranked by: its score, or 0 without one.
pub open spec fn rank_score(g: PlannerResultGroup) -> u32 {
    match g.score {
        Some(s) => s,
        None => 0,
    }
}

/// Grouping returns at most `limit` groups, highest score first (ties by group id).
pub proof fn law_grouping_is_ranked_and_limited(r: Seq<PlannerResultGroup>, fs: Seq<FusedCandidate>, limit: u32)
    requires
        grouping_of(r, fs, limit),
    ensures
        r.len() <= limit,
        r.len() <= collect_groups(fs).len(),
        forall|i: int, j: int| 0 <= i < j < r.len() ==> rank_score(#[trigger] r[i]) >= rank_score(#[trigger] r[j]),
{
    let groups = collect_groups(fs);
    let built = choose|built: Seq<PlannerResultGroup>| #![trigger ranked_sort(built)]
        built.len() == groups.len()
        && (forall|i: int| 0 <= i < built.len() ==> builds(#[trigger] built[i], groups[i].0, groups[i].1))
        && r == (if limit < built.len() { ranked_sort(built).take(limit as int) } else { ranked_sort(built) });
    lemma_group_strict_order();
    lemma_ranked_sort_is_ranked(built);
    lemma_ranked_sort_len(built);
    let sorted = ranked_sort(built);
    assert forall|i: int, j: int| 0 <= i < j < r.len() implies rank_score(#[trigger] r[i]) >= rank_score(#[trigger] r[j]) by {
        assert(r[i] == sorted[i] && r[j] == sorted[j]);
        assert(!PlannerResultGroup::ranks_before(sorted[j], sorted[i]));
    }
}

proof fn lemma_member_strict_order()
    ensures
        strict_order::<GroupMember>(),
{
    assert forall|a: GroupMember, b: GroupMember| #[trigger] GroupMember::ranks_before(a, b)
        implies !GroupMember::ranks_before(b, a) by {
        lemma_seq_lt_asymmetric(a.0.primary.candidate_id@, b.0.primary.candidate_id@);
    }
    assert forall|a: GroupMember, b: GroupMember, c: GroupMember|
        #[trigger] GroupMember::ranks_before(a, b) && #[trigger] GroupMember::ranks_before(b, c)
        implies GroupMember::ranks_before(a, c) by {
        lemma_seq_lt_transitive(a.0.primary.candidate_id@, b.0.primary.candidate_id@, c.0.primary.candidate_id@);
    }
}

proof fn lemma_max_member_score(ms: Seq<GroupMember>)
    ensures
        forall|j: int| 0 <= j < ms.len() ==> (#[trigger] ms[j]).0.fused_score <= max_member_score(ms),
        ms.len() > 0 ==> exists|k: int| 0 <= k < ms.len() && max_member_score(ms) == (#[trigger] ms[k]).0.fused_score,
    decreases ms.len(),
{
    if ms.len() > 0 {
        let prev = ms.drop_last();
        lemma_max_member_score(prev);
        assert forall|j: int| 0 <= j < ms.len() implies (#[trigger] ms[j]).0.fused_score <= max_member_score(ms) by {
            if j < ms.len() - 1 {
                assert(prev[j] == ms[j]);
            }
        }
        if prev.len() == 0 || ms.last().0.fused_score > max_member_score(prev) {
            assert(max_member_score(ms) == ms[ms.len() - 1].0.fused_score);
        } else {
            let k = choose|k: int| 0 <= k < prev.len() && max_member_score(prev) == (#[trigger] prev[k]).0.fused_score;
            assert(prev[k] == ms[k]);
            assert(max_member_score(ms) == ms[k].0.fused_score);
        }
    }
}

/// A group built from `members` takes its label, anchor and score from one member whose
/// fused score is the highest among them.
proof fn lemma_builds_led(g: PlannerResultGroup, id: Seq<char>, members: Seq<GroupMember>)
    requires
        builds(g, id, members),
        members.len() > 0,
    ensures
        exists|k: int| 0 <= k < members.len() && g.label == (#[trigger] members[k]).0.label
            && g.anchor == Some(members[k].0.anchor) && g.score == Some(members[k].0.fused_score)
            && forall|j: int| 0 <= j < members.len() ==> (#[trigger] members[j]).0.fused_score <= members[k].0.fused_score,
{
    let sorted = ranked_sort(members);
    lemma_member_strict_order();
    lemma_ranked_sort_is_ranked(members);
    lemma_ranked_sort_elements(members);
    lemma_ranked_sort_keeps(members);
    let best = sorted[0];
    assert forall|j: int| 0 <= j < sorted.len() implies (#[trigger] sorted[j]).0.fused_score <= best.0.fused_score by {
        if j > 0 {
            assert(!GroupMember::ranks_before(sorted[j], sorted[0]));
        }
    }
    lemma_max_member_score(sorted);
    let m = choose|m: int| 0 <= m < sorted.len() && max_member_score(sorted) == (#[trigger] sorted[m]).0.fused_score;
    assert(max_member_score(sorted) == best.0.fused_score);
    let k = choose|k: int| 0 <= k < members.len() && sorted[0] == members[k];
    assert forall|j: int| 0 <= j < members.len() implies (#[trigger] members[j]).0.fused_score <= members[k].0.fused_score by {
        assert(sorted.contains(members[j]));
        let q = choose|q: int| 0 <= q < sorted.len() && sorted[q] == members[j];
        assert(sorted[q].0.fused_score <= best.0.fused_score);
    }
    assert(g.label == members[k].0.label);
}

proof fn lemma_key_index_none(groups: Seq<(Seq<char>, Seq<GroupMember>)>, key: Seq<char>)
    ensures
        key_index(groups, key) is None ==> forall|i: int| 0 <= i < groups.len() ==> (#[trigger] groups[i]).0 != key,
    decreases groups.len(),
{
    if groups.len() > 0 {
        lemma_key_index_none(groups.drop_last(), key);
        if key_index(groups, key) is None {
            assert forall|i: int| 0 <= i < groups.len() implies (#[trigger] groups[i]).0 != key by {
                if i < groups.len() - 1 {
                    assert(groups.drop_last()[i] == groups[i]);
                }
            }
        }
    }
}

/// The groups of `fs`: keys distinct, every member a candidate of `fs` with the group's key,
/// and every candidate a member of the group of its key.
proof fn lemma_collect_groups(fs: Seq<FusedCandidate>)
    ensures
        forall|i: int, j: int| 0 <= i < j < collect_groups(fs).len()
            ==> (#[trigger] collect_groups(fs)[i]).0 != (#[trigger] collect_groups(fs)[j]).0,
        forall|i: int, m: int| 0 <= i < collect_groups(fs).len() && 0 <= m < collect_groups(fs)[i].1.len()
            ==> fs.contains((#[trigger] collect_groups(fs)[i].1[m]).0)
                && group_key_of(collect_groups(fs)[i].1[m].0) == collect_groups(fs)[i].0,
        forall|k: int| 0 <= k < fs.len() ==> exists|i: int| 0 <= i < collect_groups(fs).len()
            && (#[trigger] collect_groups(fs)[i]).0 == group_key_of(#[trigger] fs[k])
            && collect_groups(fs)[i].1.contains(GroupMember(fs[k])),
    decreases fs.len(),
{
    if fs.len() > 0 {
        let prev = fs.drop_last();
        lemma_collect_groups(prev);
        let gs = collect_groups(prev);
        let out = collect_groups(fs);
        let f = fs.last();
        let key = group_key_of(f);
        lemma_key_index_range(gs, key);
        lemma_key_index_none(gs, key);
        assert forall|k: int| 0 <= k < prev.len() implies #[trigger] fs.contains(prev[k]) by {
            assert(fs[k] == prev[k]);
        }
        assert(fs.contains(f)) by {
            assert(fs[fs.len() - 1] == f);
        }
        match key_index(gs, key) {
            Some(x) => {
                let newm = gs[x].1.push(GroupMember(f));
                assert(out == gs.update(x, (key, newm)));
                assert forall|i: int, m: int| 0 <= i < out.len() && 0 <= m < out[i].1.len()
                    implies fs.contains((#[trigger] out[i].1[m]).0) && group_key_of(out[i].1[m].0) == out[i].0 by {
                    if i == x {
                        if m < gs[x].1.len() {
                            assert(out[i].1[m] == gs[x].1[m]);
                            assert(prev.contains(gs[x].1[m].0));
                            let q = choose|q: int| 0 <= q < prev.len() && prev[q] == gs[x].1[m].0;
                            assert(fs.contains(prev[q]));
                        }
                    } else {
                        assert(out[i] == gs[i]);
                        assert(prev.contains(gs[i].1[m].0));
                        let q = choose|q: int| 0 <= q < prev.len() && prev[q] == gs[i].1[m].0;
                        assert(fs.contains(prev[q]));
                    }
                }
                assert forall|k: int| 0 <= k < fs.len() implies exists|i: int| 0 <= i < out.len()
                    && (#[trigger] out[i]).0 == group_key_of(#[trigger] fs[k]) && out[i].1.contains(GroupMember(fs[k])) by {
                    if k == fs.len() - 1 {
                        assert(newm[gs[x].1.len() as int] == GroupMember(f));
                        assert(out[x].0 == group_key_of(fs[k]));
                    } else {
                        assert(prev[k] == fs[k]);
                        let i = choose|i: int| 0 <= i < gs.len() && (#[trigger] gs[i]).0 == group_key_of(prev[k])
                            && gs[i].1.contains(GroupMember(prev[k]));
                        if i == x {
                            let q = choose|q: int| 0 <= q < gs[x].1.len() && gs[x].1[q] == GroupMember(prev[k]);
                            assert(newm[q] == GroupMember(fs[k]));
                            assert(out[x].0 == group_key_of(fs[k]));
                        } else {
                            assert(out[i] == gs[i]);
                        }
                    }
                }
            },
            None => {
                assert(out == gs.push((key, seq![GroupMember(f)])));
                assert forall|i: int, m: int| 0 <= i < out.len() && 0 <= m < out[i].1.len()
                    implies fs.contains((#[trigger] out[i].1[m]).0) && group_key_of(out[i].1[m].0) == out[i].0 by {
                    if i < gs.len() {
                        assert(out[i] == gs[i]);
                        assert(prev.contains(gs[i].1[m].0));
                        let q = choose|q: int| 0 <= q < prev.len() && prev[q] == gs[i].1[m].0;
                        assert(fs.contains(prev[q]));
                    }
                }
                assert forall|k: int| 0 <= k < fs.len() implies exists|i: int| 0 <= i < out.len()
                    && (#[trigger] out[i]).0 == group_key_of(#[trigger] fs[k]) && out[i].1.contains(GroupMember(fs[k])) by {
                    if k == fs.len() - 1 {
                        let last = gs.len() as int;
                        assert(out[last].1[0] == GroupMember(f));
                        assert(out[last].0 == group_key_of(fs[k]));
                    } else {
                        assert(prev[k] == fs[k]);
                        let i = choose|i: int| 0 <= i < gs.len() && (#[trigger] gs[i]).0 == group_key_of(prev[k])
                            && gs[i].1.contains(GroupMember(prev[k]));
                        assert(out[i] == gs[i]);
                    }
                }
                assert forall|i: int, j: int| 0 <= i < j < out.len() implies (#[trigger] out[i]).0 != (#[trigger] out[j]).0 by {
                    if j < gs.len() {
                        assert(out[i] == gs[i] && out[j] == gs[j]);
                    } else {
                        assert(out[i] == gs[i]);
                    }
                }
            },
        }
    }
}

/// Whether group `g` is led by candidate `f`: `f` belongs to `g`, and `g` carries its label,
/// its anchor and its fused score.
pub open spec fn led_by(g: PlannerResultGroup, f: FusedCandidate) -> bool {
    &&& group_key_of(f) == g.group_id@
    &&& g.label == f.label
    &&& g.anchor == Some(f.anchor)
    &&& g.score == Some(f.fused_score)
}

/// Whether group `g` is led by a candidate of `fs` in it whose fused score no other
/// candidate of `fs` in the group exceeds.
pub open spec fn led_by_best(g: PlannerResultGroup, fs: Seq<FusedCandidate>) -> bool {
    exists|k: int| 0 <= k < fs.len() && #[trigger] led_by(g, fs[k])
        && forall|j: int| 0 <= j < fs.len() && group_key_of(#[trigger] fs[j]) == g.group_id@
            ==> fs[j].fused_score <= fs[k].fused_score
}

/// The group built from the `b`-th collected group of `fs` is led by a best-scoring
/// candidate of that group.
proof fn lemma_built_group_led(g: PlannerResultGroup, fs: Seq<FusedCandidate>, b: int)
    requires
        0 <= b < collect_groups(fs).len(),
        builds(g, collect_groups(fs)[b].0, collect_groups(fs)[b].1),
    ensures
        led_by_best(g, fs),
{
    let groups = collect_groups(fs);
    lemma_collect_nonempty(fs);
    lemma_collect_groups(fs);
    let members = groups[b].1;
    assert(members.len() > 0);
    lemma_builds_led(g, groups[b].0, members);
    let m = choose|m: int| 0 <= m < members.len() && g.label == (#[trigger] members[m]).0.label
        && g.anchor == Some(members[m].0.anchor) && g.score == Some(members[m].0.fused_score)
        && forall|j: int| 0 <= j < members.len() ==> (#[trigger] members[j]).0.fused_score <= members[m].0.fused_score;
    let f = members[m].0;
    assert(fs.contains(f) && group_key_of(f) == groups[b].0);
    let k = choose|k: int| 0 <= k < fs.len() && fs[k] == f;
    assert(led_by(g, fs[k]));
    assert forall|j: int| 0 <= j < fs.len() && group_key_of(#[trigger] fs[j]) == g.group_id@
        implies fs[j].fused_score <= fs[k].fused_score by {
        let gi = choose|gi: int| 0 <= gi < groups.len() && (#[trigger] groups[gi]).0 == group_key_of(fs[j])
            && groups[gi].1.contains(GroupMember(fs[j]));
        if gi != b {
            if gi < b {
                assert(groups[gi].0 != groups[b].0);
            } else {
                assert(groups[b].0 != groups[gi].0);
            }
        }
        let q = choose|q: int| 0 <= q < members.len() && members[q] == GroupMember(fs[j]);
        assert(members[q].0.fused_score <= members[m].0.fused_score);
    }
}

/// Every group that grouping returns is led by a best-scoring candidate of its own: a
/// candidate of `fs` in that group whose fused score no other candidate of the group exceeds
/// gives the group its label, anchor and score.
pub proof fn law_groups_led_by_best_member(r: Seq<PlannerResultGroup>, fs: Seq<FusedCandidate>, limit: u32)
    requires
        grouping_of(r, fs, limit),
    ensures
        forall|i: int| 0 <= i < r.len() ==> led_by_best(#[trigger] r[i], fs),
{
    let groups = collect_groups(fs);
    let built = choose|built: Seq<PlannerResultGroup>| #![trigger ranked_sort(built)]
        built.len() == groups.len()
        && (forall|i: int| 0 <= i < built.len() ==> builds(#[trigger] built[i], groups[i].0, groups[i].1))
        && r == (if limit < built.len() { ranked_sort(built).take(limit as int) } else { ranked_sort(built) });
    lemma_ranked_sort_elements(built);
    let sorted = ranked_sort(built);
    assert forall|i: int| 0 <= i < r.len() implies led_by_best(#[trigger] r[i], fs) by {
        assert(r[i] == sorted[i]);
        let b = choose|b: int| 0 <= b < built.len() && #[trigger] sorted[i] == built[b];
        lemma_built_group_led(built[b], fs, b);
    }
}

impl ResultGrouping {
    /// Groups fused candidates by symbol, file or id, ranks the groups by score and then
    /// id, and keeps at most `limit` of them.
    pub fn group(&self, fused_candidates: Vec<FusedCandidate>, limit: u32) -> (r: Vec<PlannerResultGroup>)
        ensures
            grouping_of(r@, fused_candidates@, limit),
    {
        let ghost fs = fused_candidates@;
        let (keys, members) = collect(fused_candidates);
        let ghost groups = collect_groups(fs);
        proof {
            lemma_collect_nonempty(fs);
        }
        let n = keys.len();
        let mut keys = keys;
        let mut members = members;
        let mut built: Vec<PlannerResultGroup> = Vec::new();
        let mut i: usize = 0;
        assert(groups.subrange(0, n as int) =~= groups);
        while keys.len() > 0
            invariant
                0 <= i <= n,
                n == groups.len(),
                keys@.len() == members@.len(),
                collected_view(keys@, members@) == groups.subrange(i as int, n as int),
                forall|k: int| 0 <= k < n ==> (#[trigger] groups[k]).1.len() > 0,
                built@.len() == i,
                forall|k: int| 0 <= k < i ==> builds(#[trigger] built@[k], groups[k].0, groups[k].1),
            decreases keys@.len(),
        {
            let ghost old_view = collected_view(keys@, members@);
            let id = keys.remove(0);
            let ms = members.remove(0);
            assert(old_view[0] == (id@, ms@));
            assert(collected_view(keys@, members@) =~= old_view.drop_first());
            assert(groups.subrange(i as int, n as int).drop_first() =~= groups.subrange(i + 1, n as int));
            let g = build_group(id, ms);
            built.push(g);
            i = i + 1;
        }
        let ghost b = built@;
        let mut sorted = sort_ranked(built);
        proof {
            lemma_ranked_sort_len(b);
        }
        if (limit as usize) < sorted.len() {
            sorted.truncate(limit as usize);
        }
        sorted
    }
}

fn collect(fs: Vec<FusedCandidate>) -> (r: (Vec<String>, Vec<Vec<GroupMember>>))
    ensures
        r.0@.len() == r.1@.len(),
        collected_view(r.0@, r.1@) == collect_groups(fs@),
{
    let ghost all = fs@;
    let n = fs.len();
    let mut rest = fs;
    let mut keys: Vec<String> = Vec::new();
    let mut members: Vec<Vec<GroupMember>> = Vec::new();
    let mut i: usize = 0;
    while rest.len() > 0
        invariant
            0 <= i <= n,
            n == all.len(),
            rest@ == all.subrange(i as int, n as int),
            keys@.len() == members@.len(),
            collected_view(keys@, members@) == collect_groups(all.subrange(0, i as int)),
        decreases rest@.len(),
    {
        let f = rest.remove(0);
        let key = grouping_key(&f);
        let ghost before = collected_view(keys@, members@);
        let found = find_key(&keys, &members, &key);
        proof {
            lemma_key_index_range(before, key@);
        }
        let ghost pre = all.subrange(0, i + 1);
        assert(pre.drop_last() =~= all.subrange(0, i as int));
        assert(pre.last() == f);
        match found {
            Some(j) => {
                let mut ms = members.remove(j);
                ms.push(GroupMember(f));
                members.insert(j, ms);
                assert(collected_view(keys@, members@) =~= before.update(j as int, (key@, before[j as int].1.push(GroupMember(f)))));
            },
            None => {
                let mut ms: Vec<GroupMember> = Vec::new();
                ms.push(GroupMember(f));
                assert(ms@ =~= seq![GroupMember(f)]);
                keys.push(key);
                members.push(ms);
                assert(collected_view(keys@, members@) =~= before.push((key@, seq![GroupMember(f)])));
            },
        }
        assert(rest@ =~= all.subrange(i + 1, n as int));
        i = i + 1;
    }
    assert(all.subrange(0, n as int) =~= all);
    (keys, members)
}

fn find_key(keys: &Vec<String>, members: &Vec<Vec<GroupMember>>, key: &String) -> (r: Option<usize>)
    requires
        keys@.len() == members@.len(),
    ensures
        match r {
            Some(j) => key_index(collected_view(keys@, members@), key@) == Some(j as int),
            None => key_index(collected_view(keys@, members@), key@) is None,
        },
{
    let ghost g = collected_view(keys@, members@);
    let n = keys.len();
    let mut j: usize = n;
    assert(g.subrange(0, n as int) =~= g);
    while j > 0
        invariant
            0 <= j <= n,
            n == keys@.len(),
            g == collected_view(keys@, members@),
            key_index(g, key@) == key_index(g.subrange(0, j as int), key@),
        decreases j,
    {
        let ghost sub = g.subrange(0, j as int);
        assert(sub.last() == g[j - 1]);
        assert(sub.drop_last() =~= g.subrange(0, j - 1));
        if keys[j - 1] == *key {
            return Some(j - 1);
        }
        j = j - 1;
    }
    None
}

/// The key of the group a fused candidate belongs to.
pub fn grouping_key(candidate: &FusedCandidate) -> (k: String)
    ensures
        k@ == group_key_of(*candidate),
{
    if let Some(symbol_id) = &candidate.primary.primary_symbol_id {
        return concat2("group:symbol:", symbol_id.0.as_str());
    }
    if let Some(path) = &candidate.primary.primary_path {
        return concat2("group:file:", path.as_str());
    }
    concat2("group:standalone:", candidate.primary.candidate_id.as_str())
}

fn build_group(group_id: String, members: Vec<GroupMember>) -> (g: PlannerResultGroup)
    requires
        members@.len() > 0,
    ensures
        builds(g, group_id@, members@),
{
    let ghost ms = members@;
    let member_count = members.len();
    let sorted = sort_ranked(members);
    proof {
        lemma_ranked_sort_len(ms);
    }
    let ghost s = sorted@;
    let mut routes: Vec<PlannerRouteKind> = Vec::new();
    let mut evidence: Vec<PlannerEvidenceItem> = Vec::new();
    let mut score: u32 = 0;
    let mut i: usize = 0;
    while i < sorted.len()
        invariant
            0 <= i <= s.len(),
            sorted@ == s,
            routes@ == member_routes(s.subrange(0, i as int)),
            evidence.deep_view() == member_evidence(s.subrange(0, i as int)),
            score == max_member_score(s.subrange(0, i as int)),
        decreases s.len() - i,
    {
        assert(s.subrange(0, i + 1).drop_last() =~= s.subrange(0, i as int));
        add_member_routes(&mut routes, &sorted[i].0.contributing_routes);
        extend_evidence(&mut evidence, &sorted[i].0.merged_evidence);
        if sorted[i].0.fused_score > score {
            score = sorted[i].0.fused_score;
        }
        i = i + 1;
    }
    assert(s.subrange(0, s.len() as int) =~= s);
    let route_count = routes.len();
    let mut summary = String::new();
    if member_count == 1 {
        push_str(&mut summary, "1 candidate from ");
    } else {
        push_decimal(&mut summary, member_count as u64);
        push_str(&mut summary, " candidates from ");
    }
    push_decimal(&mut summary, route_count as u64);
    push_str(&mut summary, " route(s)");
    let evidence_count = evidence.len() as u32;
    let route_agreement_count = route_count as u32;
    PlannerResultGroup {
        group_id,
        label: sorted[0].0.label.clone(),
        anchor: Some(sorted[0].0.anchor.deep_copy()),
        routes,
        trust: default_trust(evidence_count, route_agreement_count),
        explanation: PlannerExplanationPayload {
            template_id: "planner.group.fused".to_owned(),
            summary,
            details: Vec::new(),
        },
        evidence,
        score: Some(score),
    }
}

fn add_member_routes(routes: &mut Vec<PlannerRouteKind>, rs: &Vec<PlannerRouteKind>)
    ensures
        final(routes)@ == add_routes(old(routes)@, rs@),
{
    let ghost start = routes@;
    let mut i: usize = 0;
    while i < rs.len()
        invariant
            0 <= i <= rs@.len(),
            routes@ == add_routes(start, rs@.subrange(0, i as int)),
        decreases rs@.len() - i,
    {
        assert(rs@.subrange(0, i + 1).drop_last() =~= rs@.subrange(0, i as int));
        if !contains_route(routes, rs[i]) {
            routes.push(rs[i]);
        }
        i = i + 1;
    }
    assert(rs@.subrange(0, rs@.len() as int) =~= rs@);
}

/// The structural trust of a group before decoration.
pub fn default_trust(evidence_count: u32, route_agreement_count: u32) -> (t: PlannerTrustPayload)
    ensures
        is_default_trust(t, evidence_count, route_agreement_count),
{
    PlannerTrustPayload {
        tier: PlannerTrustTier::NeedsReview,
        deterministic: false,
        evidence_count,
        route_agreement_count,
        template_id: "planner.trust.structural_default".to_owned(),
        reasons: vec!["trust decoration is deferred; structural default applied".to_owned()],
        warnings: Vec::new(),
    }
}

} // verus!

use vstd::prelude::*;

use crate::protocol::planner::{
    PlannerBudgetPolicy, PlannerDiagnostic, PlannerDiagnosticSeverity, PlannerRouteBudget,
    PlannerRouteKind,
};
use crate::text::{str_chars, string_push};

verus! {

/// The development phase the planner belongs to.
pub const PLANNER_PHASE: &'static str = "phase7";

/// The layout version reported by every planner trace.
pub const PLANNER_LAYOUT_VERSION: &'static str = "phase7-planner-scaffold-v1";

/// Whether `c` is a Unicode `White_Space` character (the set `char::is_whitespace` accepts).
pub open spec fn is_ws(c: char) -> bool {
    let u = c as u32;
    (0x9 <= u && u <= 0xd) || u == 0x20 || u == 0x85 || u == 0xa0 || u == 0x1680 || (0x2000
        <= u && u <= 0x200a) || u == 0x2028 || u == 0x2029 || u == 0x202f || u == 0x205f || u
        == 0x3000
}

/// Whether `c` is whitespace, in the sense of `is_ws`.
pub fn is_whitespace(c: char) -> (r: bool)
    ensures
        r == is_ws(c),
{
    let u = c as u32;
    (0x9 <= u && u <= 0xd) || u == 0x20 || u == 0x85 || u == 0xa0 || u == 0x1680 || (0x2000
        <= u && u <= 0x200a) || u == 0x2028 || u == 0x2029 || u == 0x202f || u == 0x205f || u
        == 0x3000
}

/// One step of whitespace collapsing: the text written so far, and whether whitespace was
/// seen since the last word character.
pub open spec fn collapse_step(state: (Seq<char>, bool), c: char) -> (Seq<char>, bool) {
    if is_ws(c) {
        (state.0, true)
    } else if state.0.len() > 0 && state.1 {
        (state.0.push(' ').push(c), false)
    } else {
        (state.0.push(c), false)
    }
}

/// The collapsing state after reading all of `s`.
pub open spec fn collapse_state(s: Seq<char>) -> (Seq<char>, bool)
    decreases s.len(),
{
    if s.len() == 0 {
        (Seq::empty(), false)
    } else {
        collapse_step(collapse_state(s.drop_last()), s.last())
    }
}

/// The words of `s` (maximal runs of non-whitespace) joined by single spaces.
pub open spec fn normalized(s: Seq<char>) -> Seq<char> {
    collapse_state(s).0
}

/// Whether text is already collapsed: every whitespace character is a single space
/// between two other characters, neither of which is whitespace.
pub open spec fn collapsed(t: Seq<char>) -> bool {
    forall|i: int| 0 <= i < t.len() && is_ws(#[trigger] t[i]) ==>
        t[i] == ' ' && 0 < i && i + 1 < t.len() && !is_ws(t[i - 1]) && !is_ws(t[i + 1])
}

proof fn lemma_collapse_output(s: Seq<char>)
    ensures
        collapsed(collapse_state(s).0),
    decreases s.len(),
{
    if s.len() > 0 {
        lemma_collapse_output(s.drop_last());
        let (o, g) = collapse_state(s.drop_last());
        let c = s.last();
        assert(is_ws(' '));
        if !is_ws(c) && o.len() > 0 && g {
            let n = o.push(' ').push(c);
            assert(!is_ws(o[o.len() - 1]));
            assert forall|i: int| 0 <= i < n.len() && is_ws(#[trigger] n[i]) implies
                n[i] == ' ' && 0 < i && i + 1 < n.len() && !is_ws(n[i - 1]) && !is_ws(n[i + 1]) by {
                if i < o.len() {
                    assert(n[i] == o[i]);
                    assert(o[i + 1] == n[i + 1] || i + 1 == o.len());
                }
            }
        } else if !is_ws(c) {
            let n = o.push(c);
            assert forall|i: int| 0 <= i < n.len() && is_ws(#[trigger] n[i]) implies
                n[i] == ' ' && 0 < i && i + 1 < n.len() && !is_ws(n[i - 1]) && !is_ws(n[i + 1]) by {
                assert(n[i] == o[i]);
            }
        }
    }
}

proof fn lemma_collapse_fixpoint(t: Seq<char>, k: int)
    requires
        collapsed(t),
        0 <= k <= t.len(),
    ensures
        collapse_state(t.take(k)) == (if k > 0 && is_ws(t[k - 1]) { (t.take(k - 1), true) } else { (t.take(k), false) }),
    decreases k,
{
    if k > 0 {
        lemma_collapse_fixpoint(t, k - 1);
        assert(t.take(k).drop_last() =~= t.take(k - 1));
        assert(t.take(k).last() == t[k - 1]);
        let c = t[k - 1];
        if is_ws(c) {
            assert(k - 2 >= 0 && !is_ws(t[k - 2]));
        } else if k > 1 && is_ws(t[k - 2]) {
            assert(t[k - 2] == ' ');
            assert(k - 2 > 0);
            assert(t.take(k - 2).push(' ').push(c) =~= t.take(k));
        } else {
            assert(t.take(k - 1).push(c) =~= t.take(k));
        }
    } else {
        assert(t.take(0) =~= Seq::<char>::empty());
    }
}

/// A normalized query has no whitespace at either end and no two whitespace characters
/// in a row (each is one space between two word characters), and normalizing it again
/// gives it back.
pub proof fn law_normalize_idempotent(s: Seq<char>)
    ensures
        collapsed(normalized(s)),
        normalized(normalized(s)) == normalized(s),
{
    let t = normalized(s);
    lemma_collapse_output(s);
    lemma_collapse_fixpoint(t, t.len() as int);
    assert(t.take(t.len() as int) =~= t);
    if t.len() > 0 && is_ws(t[t.len() - 1]) {
        assert(false);
    }
}

/// Collapses every run of whitespace to one space and trims both ends.
pub fn normalize_query(raw: &str) -> (r: String)
    ensures
        r@ == normalized(raw@),
        collapsed(r@),
{
    let chars = str_chars(raw);
    let mut out = String::new();
    let mut gap = false;
    let mut started = false;
    let mut i: usize = 0;
    while i < chars.len()
        invariant
            0 <= i <= chars.len(),
            chars@ == raw@,
            (out@, gap) == collapse_state(raw@.subrange(0, i as int)),
            started == (out@.len() > 0),
        decreases chars.len() - i,
    {
        let c = chars[i];
        assert(raw@.subrange(0, i + 1).drop_last() =~= raw@.subrange(0, i as int));
        if is_whitespace(c) {
            gap = true;
        } else {
            if started && gap {
                string_push(&mut out, ' ');
            }
            string_push(&mut out, c);
            gap = false;
            started = true;
        }
        i = i + 1;
    }
    assert(raw@.subrange(0, chars.len() as int) =~= raw@);
    proof {
        law_normalize_idempotent(raw@);
    }
    out
}

/// The planner layout version as an owned string.
pub fn planner_version() -> (r: String)
    ensures
        r@ == PLANNER_LAYOUT_VERSION@,
{
    PLANNER_LAYOUT_VERSION.to_owned()
}

/// An informational diagnostic with the given code and message.
pub fn scaffold_info(code: &str, message: &str) -> (d: PlannerDiagnostic)
    ensures
        d.severity == PlannerDiagnosticSeverity::Info,
        d.code@ == code@,
        d.message@ == message@,
{
    PlannerDiagnostic {
        severity: PlannerDiagnosticSeverity::Info,
        code: code.to_owned(),
        message: message.to_owned(),
    }
}

/// A warning diagnostic with the given code and message.
pub fn scaffold_warning(code: &str, message: &str) -> (d: PlannerDiagnostic)
    ensures
        d.severity == PlannerDiagnosticSeverity::Warning,
        d.code@ == code@,
        d.message@ == message@,
{
    PlannerDiagnostic {
        severity: PlannerDiagnosticSeverity::Warning,
        code: code.to_owned(),
        message: message.to_owned(),
    }
}

/// The built-in budget of a route: candidates, groups and time.
pub open spec fn default_route_budget(route_kind: PlannerRouteKind) -> PlannerRouteBudget {
    match route_kind {
        PlannerRouteKind::Exact => PlannerRouteBudget {
            route_kind,
            max_candidates: 25,
            max_groups: 10,
            timeout_ms: 150,
        },
        PlannerRouteKind::Symbol => PlannerRouteBudget {
            route_kind,
            max_candidates: 20,
            max_groups: 10,
            timeout_ms: 250,
        },
        PlannerRouteKind::Semantic => PlannerRouteBudget {
            route_kind,
            max_candidates: 16,
            max_groups: 8,
            timeout_ms: 400,
        },
        PlannerRouteKind::Impact => PlannerRouteBudget {
            route_kind,
            max_candidates: 8,
            max_groups: 4,
            timeout_ms: 600,
        },
    }
}

/// The built-in budget of a route.
pub fn default_budget(route_kind: PlannerRouteKind) -> (b: PlannerRouteBudget)
    ensures
        b == default_route_budget(route_kind),
{
    match route_kind {
        PlannerRouteKind::Exact => PlannerRouteBudget {
            route_kind,
            max_candidates: 25,
            max_groups: 10,
            timeout_ms: 150,
        },
        PlannerRouteKind::Symbol => PlannerRouteBudget {
            route_kind,
            max_candidates: 20,
            max_groups: 10,
            timeout_ms: 250,
        },
        PlannerRouteKind::Semantic => PlannerRouteBudget {
            route_kind,
            max_candidates: 16,
            max_groups: 8,
            timeout_ms: 400,
        },
        PlannerRouteKind::Impact => PlannerRouteBudget {
            route_kind,
            max_candidates: 8,
            max_groups: 4,
            timeout_ms: 600,
        },
    }
}

/// The index of the first budget in `budgets` for `route_kind`, if any.
pub open spec fn first_budget_index(budgets: Seq<PlannerRouteBudget>, route_kind: PlannerRouteKind) -> Option<int>
    decreases budgets.len(),
{
    if budgets.len() == 0 {
        None
    } else if budgets[0].route_kind == route_kind {
        Some(0)
    } else {
        match first_budget_index(budgets.drop_first(), route_kind) {
            Some(i) => Some(i + 1),
            None => None,
        }
    }
}

/// The budget a policy gives a route: its first entry for that route, else the built-in one.
pub open spec fn policy_budget(budgets: Seq<PlannerRouteBudget>, route_kind: PlannerRouteKind) -> PlannerRouteBudget {
    match first_budget_index(budgets, route_kind) {
        Some(i) => budgets[i],
        None => default_route_budget(route_kind),
    }
}

/// The budget `policy` gives `route_kind`.
pub fn budget_for_route(policy: &PlannerBudgetPolicy, route_kind: PlannerRouteKind) -> (b: PlannerRouteBudget)
    ensures
        b == policy_budget(policy.route_budgets@, route_kind),
{
    let mut i: usize = 0;
    let ghost s = policy.route_budgets@;
    assert(s.subrange(0, s.len() as int) =~= s);
    while i < policy.route_budgets.len()
        invariant
            0 <= i <= s.len(),
            s == policy.route_budgets@,
            first_budget_index(s, route_kind) == (match first_budget_index(s.subrange(i as int, s.len() as int), route_kind) {
                Some(k) => Some(k + i),
                None => None,
            }),
        decreases s.len() - i,
    {
        assert(s.subrange(i as int, s.len() as int).drop_first() =~= s.subrange(i + 1, s.len() as int));
        assert(s.subrange(i as int, s.len() as int)[0] == s[i as int]);
        if policy.route_budgets[i].route_kind == route_kind {
            return policy.route_budgets[i];
        }
        i = i + 1;
    }
    assert(s.subrange(i as int, s.len() as int).len() == 0);
    default_budget(route_kind)
}

} // verus!

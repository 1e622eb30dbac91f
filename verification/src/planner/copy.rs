use vstd::prelude::*;

use crate::text::opt_view;

use crate::protocol::impact::ImpactEntityRef;
use crate::protocol::planner::{
    PlannerAnchor, PlannerContextRef, PlannerDiagnostic, PlannerEvidenceItem, PlannerEvidenceKind,
    PlannerIntentSignal, PlannerQueryStyle, PlannerRouteBudget, PlannerRouteKind,
};
use crate::protocol::symbols::{LanguageId, SourceSpan, SymbolId, SymbolKind};

verus! {

/// Values that can be duplicated into an equal value.
pub trait DeepCopy: Sized {
    fn deep_copy(&self) -> (r: Self)
        ensures
            r == *self,
    ;
}

impl DeepCopy for String {
    fn deep_copy(&self) -> (r: Self) {
        self.clone()
    }
}

impl DeepCopy for u32 {
    fn deep_copy(&self) -> (r: Self) {
        *self
    }
}

impl DeepCopy for SymbolId {
    fn deep_copy(&self) -> (r: Self) {
        SymbolId(self.0.clone())
    }
}

impl DeepCopy for SourceSpan {
    fn deep_copy(&self) -> (r: Self) {
        *self
    }
}

impl DeepCopy for LanguageId {
    fn deep_copy(&self) -> (r: Self) {
        *self
    }
}

impl DeepCopy for SymbolKind {
    fn deep_copy(&self) -> (r: Self) {
        *self
    }
}

impl DeepCopy for PlannerRouteKind {
    fn deep_copy(&self) -> (r: Self) {
        *self
    }
}

impl DeepCopy for PlannerRouteBudget {
    fn deep_copy(&self) -> (r: Self) {
        *self
    }
}

impl DeepCopy for PlannerQueryStyle {
    fn deep_copy(&self) -> (r: Self) {
        *self
    }
}

impl DeepCopy for PlannerIntentSignal {
    fn deep_copy(&self) -> (r: Self) {
        *self
    }
}

impl<T: DeepCopy> DeepCopy for Option<T> {
    fn deep_copy(&self) -> (r: Self) {
        match self {
            Some(v) => Some(v.deep_copy()),
            None => None,
        }
    }
}

/// An element-wise copy of a vector whose elements copy exactly.
pub fn copy_vec<T: DeepCopy>(v: &Vec<T>) -> (r: Vec<T>)
    ensures
        r@ == v@,
{
    let mut r: Vec<T> = Vec::new();
    let mut i: usize = 0;
    while i < v.len()
        invariant
            0 <= i <= v.len(),
            r@ == v@.subrange(0, i as int),
        decreases v.len() - i,
    {
        r.push(v[i].deep_copy());
        assert(v@.subrange(0, i + 1) =~= v@.subrange(0, i as int).push(v@[i as int]));
        i = i + 1;
    }
    assert(v@.subrange(0, v.len() as int) =~= v@);
    r
}

impl DeepCopy for ImpactEntityRef {
    fn deep_copy(&self) -> (r: Self) {
        match self {
            ImpactEntityRef::Symbol { symbol_id, path, display_name } => ImpactEntityRef::Symbol {
                symbol_id: symbol_id.deep_copy(),
                path: path.clone(),
                display_name: display_name.clone(),
            },
            ImpactEntityRef::File { path } => ImpactEntityRef::File { path: path.clone() },
            ImpactEntityRef::Package { package_name, package_root } => ImpactEntityRef::Package {
                package_name: package_name.clone(),
                package_root: package_root.clone(),
            },
            ImpactEntityRef::Test { path, display_name, symbol_id } => ImpactEntityRef::Test {
                path: path.clone(),
                display_name: display_name.clone(),
                symbol_id: symbol_id.deep_copy(),
            },
        }
    }
}

impl DeepCopy for PlannerAnchor {
    fn deep_copy(&self) -> (r: Self) {
        match self {
            PlannerAnchor::Symbol { symbol_id, path, span } => PlannerAnchor::Symbol {
                symbol_id: symbol_id.deep_copy(),
                path: path.clone(),
                span: *span,
            },
            PlannerAnchor::Span { path, span } => PlannerAnchor::Span {
                path: path.clone(),
                span: *span,
            },
            PlannerAnchor::Impact { entity } => PlannerAnchor::Impact { entity: entity.deep_copy() },
            PlannerAnchor::File { path } => PlannerAnchor::File { path: path.clone() },
            PlannerAnchor::Package { package_name, package_root } => PlannerAnchor::Package {
                package_name: package_name.clone(),
                package_root: package_root.clone(),
            },
            PlannerAnchor::Workspace { workspace_root } => PlannerAnchor::Workspace {
                workspace_root: workspace_root.clone(),
            },
        }
    }
}

impl DeepCopy for PlannerContextRef {
    fn deep_copy(&self) -> (r: Self) {
        match self {
            PlannerContextRef::Symbol { symbol_id, path, span, display_name } =>
                PlannerContextRef::Symbol {
                symbol_id: symbol_id.deep_copy(),
                path: path.clone(),
                span: *span,
                display_name: display_name.deep_copy(),
            },
            PlannerContextRef::Span { path, span } => PlannerContextRef::Span {
                path: path.clone(),
                span: *span,
            },
            PlannerContextRef::File { path } => PlannerContextRef::File { path: path.clone() },
            PlannerContextRef::Package { package_name, package_root } =>
                PlannerContextRef::Package {
                package_name: package_name.clone(),
                package_root: package_root.clone(),
            },
            PlannerContextRef::Workspace { workspace_root } => PlannerContextRef::Workspace {
                workspace_root: workspace_root.clone(),
            },
            PlannerContextRef::Impact { entity } => PlannerContextRef::Impact {
                entity: entity.deep_copy(),
            },
        }
    }
}


impl DeepCopy for PlannerDiagnostic {
    fn deep_copy(&self) -> (r: Self) {
        PlannerDiagnostic {
            severity: self.severity,
            code: self.code.clone(),
            message: self.message.clone(),
        }
    }
}



/// The content of an evidence item, with its notes taken by value.
pub struct EvidenceModel {
    pub evidence_kind: PlannerEvidenceKind,
    pub route_kind: PlannerRouteKind,
    pub label: Seq<char>,
    pub path: Option<Seq<char>>,
    pub span: Option<SourceSpan>,
    pub symbol_id: Option<SymbolId>,
    pub impact_entity: Option<ImpactEntityRef>,
    pub snippet: Option<Seq<char>>,
    pub score: Option<u32>,
    pub notes: Seq<String>,
}

impl DeepView for PlannerEvidenceItem {
    type V = EvidenceModel;

    open spec fn deep_view(&self) -> EvidenceModel {
        EvidenceModel {
            evidence_kind: self.evidence_kind,
            route_kind: self.route_kind,
            label: self.label@,
            path: opt_view(self.path),
            span: self.span,
            symbol_id: self.symbol_id,
            impact_entity: self.impact_entity,
            snippet: opt_view(self.snippet),
            score: self.score,
            notes: self.notes@,
        }
    }
}

impl PlannerEvidenceItem {
    /// A copy of this item with the same content.
    pub fn copy(&self) -> (r: Self)
        ensures
            r.deep_view() == self.deep_view(),
    {
        PlannerEvidenceItem {
            evidence_kind: self.evidence_kind,
            route_kind: self.route_kind,
            label: self.label.clone(),
            path: self.path.deep_copy(),
            span: self.span,
            symbol_id: self.symbol_id.deep_copy(),
            impact_entity: self.impact_entity.deep_copy(),
            snippet: self.snippet.deep_copy(),
            score: self.score,
            notes: copy_vec(&self.notes),
        }
    }
}

/// Appends copies of every item of `src` to `dst`.
pub fn extend_evidence(dst: &mut Vec<PlannerEvidenceItem>, src: &Vec<PlannerEvidenceItem>)
    ensures
        final(dst).deep_view() == old(dst).deep_view() + src.deep_view(),
{
    let mut i: usize = 0;
    let ghost start = dst.deep_view();
    while i < src.len()
        invariant
            0 <= i <= src.len(),
            dst.deep_view() == start + src.deep_view().subrange(0, i as int),
        decreases src.len() - i,
    {
        let ghost before = dst.deep_view();
        let item = src[i].copy();
        dst.push(item);
        assert(dst.deep_view() =~= before.push(src[i as int].deep_view()));
        assert(src.deep_view().subrange(0, i + 1) =~= src.deep_view().subrange(0, i as int).push(src[i as int].deep_view()));
        assert(dst.deep_view() =~= start + src.deep_view().subrange(0, i + 1));
        i = i + 1;
    }
    assert(src.deep_view().subrange(0, src.len() as int) =~= src.deep_view());
}

} // verus!

use hyperindex::protocol::impact::{ImpactTargetKind, ImpactTargetRef};

#[test]
fn target_selector_helpers_report_kind_and_value() {
    let symbol = ImpactTargetRef::Symbol {
        value: "sym.invalidate_session".to_string(),
        symbol_id: None,
        path: None,
    };
    let file = ImpactTargetRef::File {
        path: "packages/api/src/routes/logout.ts".to_string(),
    };

    assert_eq!(symbol.target_kind(), ImpactTargetKind::Symbol);
    assert_eq!(symbol.selector_value(), "sym.invalidate_session");
    assert_eq!(file.target_kind(), ImpactTargetKind::File);
    assert_eq!(file.selector_value(), "packages/api/src/routes/logout.ts");
}

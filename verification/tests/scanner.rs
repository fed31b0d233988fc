use module_pipeline::build_info::{BuildMeta, BuildMetaDefaultObject, BuildMetaExportsType};
use module_pipeline::common_js_export_scanner::{
    is_falsy_literal, is_lit_truthy_literal, is_truthy_literal, AssignShape,
    CommonJsExportDependencyScanner, Literal, ModuleDecorator, ValueExpr,
};
use module_pipeline::import_dependency::{ChunkGroupOptions, ImportDependency};
use module_pipeline::module_type::ModuleType;
use module_pipeline::resolve::ErrorSpan;
use module_pipeline::resolver::{DependencyCategory, DependencyType};

fn scanner(state: Option<bool>) -> CommonJsExportDependencyScanner {
    CommonJsExportDependencyScanner::new(BuildMeta::new(), ModuleType::Js, state)
}

fn lit(l: Literal) -> ValueExpr {
    ValueExpr::Lit(l)
}

fn not(e: ValueExpr) -> ValueExpr {
    ValueExpr::Not(Box::new(e))
}

fn shape() -> AssignShape {
    AssignShape {
        left_is_expr: true,
        left_is_esmodule_flag: false,
        left_starts_at_exports: false,
        left_is_exports: false,
        right_is_require: false,
        right_is_exports: false,
    }
}

#[test]
fn literals_are_judged_as_conditions() {
    assert!(is_lit_truthy_literal(&Literal::Str("x".to_string())));
    assert!(!is_lit_truthy_literal(&Literal::Str(String::new())));
    assert!(is_lit_truthy_literal(&Literal::Bool(true)));
    assert!(!is_lit_truthy_literal(&Literal::Bool(false)));
    assert!(!is_lit_truthy_literal(&Literal::Null));
    assert!(is_lit_truthy_literal(&Literal::Num { nonzero: true }));
    assert!(!is_lit_truthy_literal(&Literal::Num { nonzero: false }));
    assert!(is_lit_truthy_literal(&Literal::Other));
}

#[test]
fn negations_are_judged_by_what_they_negate() {
    assert!(is_truthy_literal(&lit(Literal::Bool(true))));
    assert!(!is_falsy_literal(&lit(Literal::Bool(true))));
    assert!(is_truthy_literal(&not(lit(Literal::Num { nonzero: false }))));
    assert!(is_falsy_literal(&not(lit(Literal::Bool(true)))));
    assert!(is_truthy_literal(&not(not(lit(Literal::Str("a".to_string()))))));
    assert!(!is_truthy_literal(&ValueExpr::Other));
    assert!(!is_falsy_literal(&ValueExpr::Other));
    assert!(!is_truthy_literal(&not(ValueExpr::Other)));
    assert!(!is_falsy_literal(&not(ValueExpr::Other)));
}

#[test]
fn esm_types_are_harmony_from_the_start() {
    assert!(!scanner(None).is_harmony);
    assert!(CommonJsExportDependencyScanner::new(BuildMeta::new(), ModuleType::JsEsm, None).is_harmony);
    assert!(CommonJsExportDependencyScanner::new(BuildMeta::new(), ModuleType::JsxEsm, None).is_harmony);
    let mut s = scanner(None);
    s.visit_program(true);
    assert!(s.is_harmony);
    assert_eq!(s.visit_module_ident(), ModuleDecorator::Harmony);
    assert_eq!(scanner(None).visit_module_ident(), ModuleDecorator::Node);
}

#[test]
fn exports_flag_set_to_true_flags_the_module() {
    let mut s = scanner(None);
    let mut flag = shape();
    flag.left_is_esmodule_flag = true;
    flag.left_starts_at_exports = true;
    s.visit_assign_expr(flag, &lit(Literal::Bool(true)));
    assert_eq!(s.parser_exports_state, Some(true));
    assert_eq!(s.build_meta.exports_type, BuildMetaExportsType::Flagged);
    assert_eq!(s.build_meta.default_object, BuildMetaDefaultObject::Redirect);
}

#[test]
fn exports_flag_set_to_unknown_value_makes_the_module_dynamic() {
    let mut s = scanner(None);
    let mut flag = shape();
    flag.left_is_esmodule_flag = true;
    s.visit_assign_expr(flag, &ValueExpr::Other);
    assert_eq!(s.build_meta.exports_type, BuildMetaExportsType::Dynamic);
    s.visit_assign_expr(flag, &lit(Literal::Bool(true)));
    assert_eq!(s.build_meta.exports_type, BuildMetaExportsType::Dynamic);
}

#[test]
fn member_of_exports_enables() {
    let mut s = scanner(None);
    let mut member = shape();
    member.left_starts_at_exports = true;
    s.visit_assign_expr(member, &ValueExpr::Other);
    assert_eq!(s.parser_exports_state, Some(true));
    assert_eq!(s.build_meta.exports_type, BuildMetaExportsType::Default);
    assert_eq!(s.build_meta.default_object, BuildMetaDefaultObject::Redirect);
}

#[test]
fn assigning_exports_bails_out_unless_required() {
    let mut whole = shape();
    whole.left_is_exports = true;
    let mut s = scanner(None);
    s.visit_assign_expr(whole, &ValueExpr::Other);
    assert_eq!(s.parser_exports_state, Some(false));
    assert_eq!(s.build_meta.exports_type, BuildMetaExportsType::Unset);
    assert_eq!(s.build_meta.default_object, BuildMetaDefaultObject::False);
    whole.right_is_require = true;
    let mut s = scanner(None);
    s.visit_assign_expr(whole, &ValueExpr::Other);
    assert_eq!(s.parser_exports_state, Some(true));
    assert_eq!(s.build_meta.exports_type, BuildMetaExportsType::Dynamic);
}

#[test]
fn reading_exports_bails_out() {
    let mut read = shape();
    read.left_is_expr = false;
    read.left_is_exports = true;
    read.right_is_exports = true;
    let mut s = scanner(Some(true));
    s.visit_assign_expr(read, &ValueExpr::Other);
    assert_eq!(s.parser_exports_state, Some(false));
    assert_eq!(s.build_meta.exports_type, BuildMetaExportsType::Unset);
}

#[test]
fn after_bailout_nothing_is_flagged() {
    let mut s = scanner(None);
    s.bailout();
    assert_eq!(s.parser_exports_state, Some(false));
    s.set_flagged();
    s.set_dynamic();
    s.check_namespace(&lit(Literal::Bool(true)));
    assert_eq!(s.build_meta, BuildMeta::new());
    s.enable();
    assert_eq!(s.parser_exports_state, Some(true));
    assert_eq!(s.build_meta.exports_type, BuildMetaExportsType::Default);
}

#[test]
fn define_property_is_judged_like_an_assignment() {
    let mut s = scanner(None);
    s.visit_call_expr(Some(&not(lit(Literal::Null))), false);
    assert_eq!(s.build_meta.exports_type, BuildMetaExportsType::Flagged);
    let mut s = scanner(None);
    s.visit_call_expr(None, true);
    assert_eq!(s.parser_exports_state, Some(false));
    let mut s = scanner(None);
    s.visit_call_expr(None, false);
    assert_eq!(s.parser_exports_state, None);
}

#[test]
fn this_is_exports_only_outside_calls() {
    let mut s = scanner(None);
    assert!(s.this_is_exports());
    assert!(s.enter_call());
    assert!(!s.this_is_exports());
    s.leave_call();
    assert!(s.this_is_exports());
    s.enter_call = u32::MAX;
    assert!(!s.enter_call());
    assert_eq!(s.enter_call, u32::MAX);
}

#[test]
fn module_properties_are_not_descended_into() {
    let s = scanner(None);
    assert!(s.descends(false, false));
    assert!(!s.descends(true, false));
    assert!(!s.descends(false, true));
    let harmony = CommonJsExportDependencyScanner::new(BuildMeta::new(), ModuleType::JsEsm, None);
    assert!(harmony.descends(false, true));
}

#[test]
fn import_dependency_keeps_what_it_was_made_of() {
    let mut d = ImportDependency::new(
        4,
        20,
        "./lazy".to_string(),
        Some(ErrorSpan { start: 4, end: 20 }),
        ChunkGroupOptions { name: Some("lazy".to_string()) },
        11,
    );
    assert_eq!(d.id(), 11);
    assert_eq!(d.category(), DependencyCategory::Esm);
    assert_eq!(d.dependency_type(), DependencyType::DynamicImport);
    assert_eq!(d.request(), "./lazy");
    assert_eq!(d.user_request(), "./lazy");
    assert_eq!(d.span(), Some(ErrorSpan { start: 4, end: 20 }));
    assert_eq!(d.group_options().unwrap().name.as_deref(), Some("lazy"));
    d.set_request("./other".to_string());
    assert_eq!(d.request(), "./other");
    let r = d.apply("import('./other')".to_string());
    assert_eq!((r.start, r.end), (4, 20));
    assert_eq!(r.content, "import('./other')");
}

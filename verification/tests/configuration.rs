//! Configuration, failures, and the builders of syntax.

use global_esm::constants::{
    MODULE_EXPORT_ALL_METHOD_NAME, MODULE_EXPORT_METHOD_NAME, MODULE_IMPORT_METHOD_NAME,
    MODULE_IMPORT_WILDCARD_METHOD_NAME, MODULE_INIT_METHOD_NAME, MODULE_RESET_METHOD_NAME, REGISTRY,
};
use global_esm::emitter::{global_esm, GlobalEsmModule};
use global_esm::error::TransformError;
use global_esm::es_module_collector::{ExportModule, ImportModule, ModuleType};
use global_esm::import_paths::ImportPaths;
use global_esm::syntax::{Decl, Expr, Ident, Module, ModuleItem, Origin, Prop, Span, Stmt};
use global_esm::utils::{
    call_expr, decl_var_and_assign_stmt, global_module_api_call_expr, ident, ident_expr,
    obj_lit, obj_member_expr, str_lit_expr,
};

fn text(s: &str) -> String {
    String::from(s)
}

fn plain(sym: &str) -> Ident {
    Ident { sym: text(sym), span: Span { lo: 0, hi: 0 }, origin: Origin::Source(0) }
}

#[test]
fn a_table_with_one_source_twice_is_refused() {
    let entries = vec![(text("a"), text("x")), (text("b"), text("y")), (text("a"), text("z"))];
    assert!(matches!(ImportPaths::new(entries), Err(TransformError::Configuration)));
    let entries = vec![(text("a"), text("x")), (text("a"), text("x"))];
    assert!(matches!(
        global_esm(text("m.js"), true, Some(entries)),
        Err(TransformError::Configuration)
    ));
}

#[test]
fn a_table_maps_its_sources_and_no_others() {
    let paths = ImportPaths::new(vec![(text("a"), text("x")), (text("b"), text("a"))]).unwrap();
    assert_eq!(paths.to_actual_path(text("a")), text("x"));
    assert_eq!(paths.to_actual_path(text("b")), text("a"));
    assert_eq!(paths.to_actual_path(text("x")), text("x"));
    assert_eq!(paths.to_actual_path(text("")), text(""));
    let empty = ImportPaths::new(Vec::new()).unwrap();
    assert_eq!(empty.to_actual_path(text("a")), text("a"));
}

#[test]
fn a_lowering_is_made_as_configured() {
    let lowering = global_esm(text("dir/m.js"), false, None).unwrap();
    assert_eq!(lowering.module_name, text("dir/m.js"));
    assert!(!lowering.runtime_module);
    assert!(lowering.import_paths.is_none());
    let lowering = global_esm(text(""), true, Some(vec![(text("a"), text("x"))])).unwrap();
    assert_eq!(lowering.module_name, text(""));
    assert!(lowering.runtime_module);
    assert_eq!(lowering.to_actual_path(text("a")), text("x"));
    let lowering = GlobalEsmModule::default(text("m.js"), true, None);
    assert_eq!(lowering.module_name, text("m.js"));
    assert!(lowering.runtime_module);
    assert!(lowering.import_paths.is_none());
}

#[test]
fn failures_say_what_they_are() {
    assert_eq!(
        TransformError::Configuration.message(),
        text("the import path table names a source module twice")
    );
    assert_eq!(
        TransformError::UnsupportedSyntax { item: 3 }.message(),
        text("unsupported import or export specifier")
    );
    assert_eq!(TransformError::InternalInvariantViolation.message(), text("internal invariant violated"));
}

#[test]
fn the_registry_is_reached_by_these_names() {
    assert_eq!(REGISTRY, "registry");
    assert_eq!(MODULE_IMPORT_METHOD_NAME, "import");
    assert_eq!(MODULE_IMPORT_WILDCARD_METHOD_NAME, "importAll");
    assert_eq!(MODULE_EXPORT_METHOD_NAME, "export");
    assert_eq!(MODULE_EXPORT_ALL_METHOD_NAME, "exportAll");
    assert_eq!(MODULE_INIT_METHOD_NAME, "init");
    assert_eq!(MODULE_RESET_METHOD_NAME, "reset");
}

#[test]
fn builders_build_what_they_say() {
    assert_eq!(ident(text("a")), plain("a"));
    assert_eq!(ident_expr(text("a")), Expr::Ident(plain("a")));
    assert_eq!(str_lit_expr(text("value")), Expr::Str(text("value")));
    assert_eq!(
        obj_member_expr(ident_expr(text("obj")), text("prop")),
        Expr::Member { obj: Box::new(Expr::Ident(plain("obj"))), prop: text("prop") }
    );
    assert_eq!(
        call_expr(ident_expr(text("f")), vec![str_lit_expr(text("x")), Expr::Other(1)]),
        Expr::Call {
            callee: Box::new(Expr::Ident(plain("f"))),
            args: vec![Expr::Str(text("x")), Expr::Other(1)],
        }
    );
    assert_eq!(obj_lit(vec![Prop::Shorthand(plain("a"))]), Expr::Object(vec![Prop::Shorthand(plain("a"))]));
    assert_eq!(
        decl_var_and_assign_stmt(plain("name"), Expr::Other(2)),
        Stmt::Decl(Decl::Const { name: plain("name"), init: Expr::Other(2) })
    );
    assert_eq!(
        global_module_api_call_expr("init", vec![Expr::Other(3)]),
        Expr::Call {
            callee: Box::new(Expr::Member {
                obj: Box::new(Expr::Ident(plain("registry"))),
                prop: text("init"),
            }),
            args: vec![Expr::Other(3)],
        }
    );
}

#[test]
fn bindings_are_built_by_kind() {
    assert_eq!(
        ImportModule::default(plain("a"), text("m")),
        ImportModule { ident: plain("a"), imported: None, module_src: text("m"), module_type: ModuleType::Default }
    );
    assert_eq!(
        ImportModule::named(plain("a"), text("m"), Some(plain("b"))),
        ImportModule {
            ident: plain("a"),
            imported: Some(plain("b")),
            module_src: text("m"),
            module_type: ModuleType::Named,
        }
    );
    assert_eq!(
        ImportModule::namespace(plain("a"), text("m")),
        ImportModule {
            ident: plain("a"),
            imported: None,
            module_src: text("m"),
            module_type: ModuleType::NamespaceOrAll,
        }
    );
    assert_eq!(
        ExportModule::default(plain("a")),
        ExportModule { ident: plain("a"), as_ident: None, module_type: ModuleType::Default }
    );
    assert_eq!(
        ExportModule::named(plain("a"), Some(plain("b"))),
        ExportModule { ident: plain("a"), as_ident: Some(plain("b")), module_type: ModuleType::Named }
    );
    assert_eq!(
        ExportModule::all(plain("a"), None),
        ExportModule { ident: plain("a"), as_ident: None, module_type: ModuleType::NamespaceOrAll }
    );
}

#[test]
fn identifiers_are_copied_whole_and_compared_without_their_span() {
    let here = Ident { sym: text("a"), span: Span { lo: 4, hi: 5 }, origin: Origin::Synthesized { decl: 1, spec: 2 } };
    assert_eq!(here.clone(), here);
    let there = Ident { sym: text("a"), span: Span::dummy(), origin: Origin::Synthesized { decl: 1, spec: 2 } };
    assert!(here.same_binding(&there));
    let other = Ident { sym: text("a"), span: Span { lo: 4, hi: 5 }, origin: Origin::Synthesized { decl: 1, spec: 3 } };
    assert!(!here.same_binding(&other));
    let renamed = Ident { sym: text("b"), span: Span { lo: 4, hi: 5 }, origin: Origin::Synthesized { decl: 1, spec: 2 } };
    assert!(!here.same_binding(&renamed));
    assert_eq!(Span::dummy(), Span { lo: 0, hi: 0 });
}

#[test]
fn an_empty_module_resets_its_registration() {
    let lowering = global_esm(text("test.js"), true, None).unwrap();
    let lowered = lowering.visit_mut_module(Module { body: Vec::new() }).unwrap();
    assert_eq!(
        lowered.body,
        vec![ModuleItem::Stmt(Stmt::Expr(global_module_api_call_expr("reset", vec![Expr::Str(text("test.js"))])))]
    );
    let kept = global_esm(text("test.js"), false, None).unwrap();
    assert_eq!(kept.visit_mut_module(Module { body: Vec::new() }).unwrap().body, vec![]);
}

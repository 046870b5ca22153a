//! The lowering emitter: from bindings to the statements around the body.

use global_esm::emitter::{find_namespace_source, global_esm, GlobalEsmModule};
use global_esm::error::TransformError;
use global_esm::es_module_collector::{ExportModule, ImportModule, ModuleType};
use global_esm::import_idents::{module_ident, module_ident_from, ImportIdents};
use global_esm::syntax::{
    Decl, ExportAll, ExportSpecifier, Expr, Ident, ImportDecl, ImportSpecifier, ModuleExportName,
    ModuleItem, NamedExport, Origin, Prop, Span, Stmt,
};

fn text(s: &str) -> String {
    String::from(s)
}

fn dummy() -> Span {
    Span { lo: 0, hi: 0 }
}

fn source(sym: &str) -> Ident {
    Ident { sym: text(sym), span: Span { lo: 1, hi: 2 }, origin: Origin::Source(0) }
}

fn private(sym: &str, decl: usize) -> Ident {
    Ident { sym: text(sym), span: dummy(), origin: Origin::Synthesized { decl, spec: 0 } }
}

fn handle(index: usize, sym: &str) -> Ident {
    Ident { sym: text(sym), span: dummy(), origin: Origin::Handle(index) }
}

fn import(ident: Ident, imported: Option<Ident>, src: &str, module_type: ModuleType) -> ImportModule {
    ImportModule { ident, imported, module_src: text(src), module_type }
}

fn export(ident: Ident, as_ident: Option<Ident>, module_type: ModuleType) -> ExportModule {
    ExportModule { ident, as_ident, module_type }
}

fn registry(method: &str, args: Vec<Expr>) -> Expr {
    let registry = Ident { sym: text("registry"), span: dummy(), origin: Origin::Source(0) };
    Expr::Call {
        callee: Box::new(Expr::Member { obj: Box::new(Expr::Ident(registry)), prop: text(method) }),
        args,
    }
}

fn registry_stmt(method: &str, args: Vec<Expr>) -> ModuleItem {
    ModuleItem::Stmt(Stmt::Expr(registry(method, args)))
}

fn constant(name: Ident, init: Expr) -> ModuleItem {
    ModuleItem::Stmt(Stmt::Decl(Decl::Const { name, init }))
}

fn read_off(handle: Ident, prop: &str) -> Expr {
    Expr::Member { obj: Box::new(Expr::Ident(handle)), prop: text(prop) }
}

fn import_decl(specifier: ImportSpecifier, src: &str) -> ModuleItem {
    ModuleItem::Import(ImportDecl { specifiers: vec![specifier], src: text(src), type_only: false, node: None })
}

fn lowering(runtime_module: bool) -> GlobalEsmModule {
    global_esm(text("test.js"), runtime_module, None).unwrap()
}

fn remapped(runtime_module: bool) -> GlobalEsmModule {
    let paths = vec![(text("react"), text("node_modules/react/index.js")), (text("ns"), text("lib/ns.js"))];
    global_esm(text("test.js"), runtime_module, Some(paths)).unwrap()
}

fn some_imports() -> Vec<ImportModule> {
    vec![
        import(source("React"), None, "react", ModuleType::Default),
        import(source("all"), None, "ns", ModuleType::NamespaceOrAll),
        import(source("Button"), None, "@app/components", ModuleType::Named),
        import(source("state"), Some(source("useState")), "react", ModuleType::Named),
        import(private("__default", 3), Some(source("default")), "@app/components", ModuleType::DefaultAsNamed),
    ]
}

#[test]
fn bindings_of_one_source_share_one_handle() {
    let react = || handle(0, "__react");
    let components = || handle(1, "___app_components");
    assert_eq!(
        lowering(true).convert_esm_import(&some_imports()),
        Ok(vec![
            constant(react(), registry("import", vec![Expr::Str(text("react"))])),
            constant(components(), registry("import", vec![Expr::Str(text("@app/components"))])),
            constant(source("React"), read_off(react(), "default")),
            constant(source("all"), registry("importAll", vec![Expr::Str(text("ns"))])),
            constant(source("Button"), read_off(components(), "Button")),
            constant(source("state"), read_off(react(), "useState")),
            constant(private("__default", 3), read_off(components(), "default")),
        ])
    );
}

#[test]
fn sources_with_one_name_have_two_handles() {
    // "a-b" and "a_b" are both named `__a_b`, and are told apart all the same.
    let imports = vec![
        import(source("x"), None, "a-b", ModuleType::Default),
        import(source("y"), None, "a_b", ModuleType::Default),
    ];
    let items = lowering(true).convert_esm_import(&imports).unwrap();
    assert_eq!(items[0], constant(handle(0, "__a_b"), registry("import", vec![Expr::Str(text("a-b"))])));
    assert_eq!(items[1], constant(handle(1, "__a_b"), registry("import", vec![Expr::Str(text("a_b"))])));
    assert!(!handle(0, "__a_b").same_binding(&handle(1, "__a_b")));
    assert_eq!(items[2], constant(source("x"), read_off(handle(0, "__a_b"), "default")));
    assert_eq!(items[3], constant(source("y"), read_off(handle(1, "__a_b"), "default")));
}

#[test]
fn handles_come_in_the_order_of_first_reference() {
    let imports = vec![
        import(source("z"), None, "zeta", ModuleType::Named),
        import(source("a"), None, "alpha", ModuleType::Named),
        import(source("y"), None, "zeta", ModuleType::Named),
    ];
    let items = lowering(true).convert_esm_import(&imports).unwrap();
    assert_eq!(items.len(), 5);
    assert_eq!(items[0], constant(handle(0, "__zeta"), registry("import", vec![Expr::Str(text("zeta"))])));
    assert_eq!(items[1], constant(handle(1, "__alpha"), registry("import", vec![Expr::Str(text("alpha"))])));
}

#[test]
fn the_name_of_a_handle_keeps_letters_and_digits_only() {
    assert_eq!(module_ident(&text("react"), 0), Ok(handle(0, "__react")));
    assert_eq!(module_ident(&text("@app/core-2.js"), 4), Ok(handle(4, "___app_core_2_js")));
    // A letter outside ASCII and a line feed.
    let beyond_ascii = String::from_utf8(vec![0xc3, 0xa9, 0x0a]).unwrap();
    assert_eq!(module_ident(&beyond_ascii, 1), Ok(handle(1, "____")));
    assert_eq!(module_ident(&text(""), 0), Ok(handle(0, "__")));
}

#[test]
fn a_handle_is_made_of_what_the_replacement_came_to() {
    assert_eq!(module_ident_from(Ok(text("name")), 3), Ok(handle(3, "name")));
    assert_eq!(module_ident_from(Ok(text("")), 0), Ok(handle(0, "")));
    let unclosed = regex::Regex::new("(").unwrap_err();
    assert_eq!(module_ident_from(Err(unclosed), 3), Err(TransformError::InternalInvariantViolation));
}

#[test]
fn a_handle_is_made_once() {
    let mut idents = ImportIdents::new();
    assert_eq!(idents.len(), 0);
    assert_eq!(idents.get_module_ident(&text("react")), Ok(handle(0, "__react")));
    assert_eq!(idents.get_module_ident(&text("./a")), Ok(handle(1, "____a")));
    assert_eq!(idents.get_module_ident(&text("react")), Ok(handle(0, "__react")));
    assert_eq!(idents.len(), 2);
    assert_eq!(idents.module_src(1), &text("./a"));
    assert_eq!(idents.ident(1), handle(1, "____a"));
}

#[test]
fn the_table_of_paths_reaches_the_registry_calls_only() {
    let react = || handle(0, "__react");
    let components = || handle(1, "___app_components");
    assert_eq!(
        remapped(true).convert_esm_import(&some_imports()),
        Ok(vec![
            constant(react(), registry("import", vec![Expr::Str(text("node_modules/react/index.js"))])),
            constant(components(), registry("import", vec![Expr::Str(text("@app/components"))])),
            constant(source("React"), read_off(react(), "default")),
            constant(source("all"), registry("importAll", vec![Expr::Str(text("lib/ns.js"))])),
            constant(source("Button"), read_off(components(), "Button")),
            constant(source("state"), read_off(react(), "useState")),
            constant(private("__default", 3), read_off(components(), "default")),
        ])
    );
}

#[test]
fn import_declarations_are_written_one_for_each_binding() {
    let expected = || {
        vec![
            import_decl(ImportSpecifier::Default { local: source("React") }, "react"),
            import_decl(ImportSpecifier::Namespace { local: source("all") }, "ns"),
            import_decl(
                ImportSpecifier::Named { local: source("Button"), imported: None, is_type_only: false },
                "@app/components",
            ),
            import_decl(
                ImportSpecifier::Named {
                    local: source("state"),
                    imported: Some(ModuleExportName::Ident(source("useState"))),
                    is_type_only: false,
                },
                "react",
            ),
            import_decl(ImportSpecifier::Default { local: private("__default", 3) }, "@app/components"),
        ]
    };
    assert_eq!(lowering(false).convert_esm_import(&some_imports()), Ok(expected()));
    // The table of paths changes nothing of them.
    assert_eq!(remapped(false).convert_esm_import(&some_imports()), Ok(expected()));
}

#[test]
fn no_imports_no_statements() {
    assert_eq!(lowering(true).convert_esm_import(&Vec::new()), Ok(vec![]));
    assert_eq!(lowering(false).convert_esm_import(&Vec::new()), Ok(vec![]));
}

#[test]
fn to_actual_path_follows_the_table() {
    assert_eq!(remapped(true).to_actual_path(text("react")), text("node_modules/react/index.js"));
    assert_eq!(remapped(true).to_actual_path(text("react-dom")), text("react-dom"));
    assert_eq!(lowering(true).to_actual_path(text("react")), text("react"));
}

fn some_exports() -> Vec<ExportModule> {
    vec![
        export(source("plain"), None, ModuleType::Named),
        export(private("__h", 1), None, ModuleType::NamespaceOrAll),
        export(private("__export_default", 2), None, ModuleType::Default),
        export(source("before"), Some(source("after")), ModuleType::Named),
        export(source("same"), Some(source("same")), ModuleType::Named),
        export(private("__h", 5), None, ModuleType::NamespaceOrAll),
    ]
}

fn namespaces() -> Vec<ImportModule> {
    vec![
        import(source("x"), None, "m", ModuleType::Default),
        import(private("__h", 1), None, "first", ModuleType::NamespaceOrAll),
        import(private("__h", 5), None, "second", ModuleType::NamespaceOrAll),
    ]
}

#[test]
fn exports_are_registered() {
    assert_eq!(
        lowering(true).convert_esm_export(&some_exports(), &Vec::new()),
        Ok(vec![
            registry_stmt("init", vec![Expr::Str(text("test.js"))]),
            registry_stmt(
                "export",
                vec![
                    Expr::Str(text("test.js")),
                    Expr::Object(vec![
                        Prop::Shorthand(source("plain")),
                        Prop::KeyValue { key: text("default"), value: private("__export_default", 2) },
                        Prop::KeyValue { key: text("after"), value: source("before") },
                        Prop::Shorthand(source("same")),
                    ]),
                ]
            ),
            registry_stmt(
                "exportAll",
                vec![
                    Expr::Str(text("test.js")),
                    Expr::Object(vec![
                        Prop::Spread(private("__h", 1)),
                        Prop::Spread(private("__h", 5)),
                    ]),
                ]
            ),
        ])
    );
}

#[test]
fn no_exports_one_reset() {
    assert_eq!(
        lowering(true).convert_esm_export(&Vec::new(), &some_imports()),
        Ok(vec![registry_stmt("reset", vec![Expr::Str(text("test.js"))])])
    );
}

#[test]
fn namespaces_alone_are_registered_without_export() {
    let exports = vec![export(private("__h", 0), None, ModuleType::NamespaceOrAll)];
    assert_eq!(
        lowering(true).convert_esm_export(&exports, &Vec::new()),
        Ok(vec![
            registry_stmt("init", vec![Expr::Str(text("test.js"))]),
            registry_stmt(
                "exportAll",
                vec![Expr::Str(text("test.js")), Expr::Object(vec![Prop::Spread(private("__h", 0))])]
            ),
        ])
    );
}

#[test]
fn a_default_re_exported_under_a_name_registers_as_default() {
    let exports = vec![export(source("d"), None, ModuleType::DefaultAsNamed)];
    assert_eq!(
        lowering(true).convert_esm_export(&exports, &Vec::new()),
        Ok(vec![
            registry_stmt("init", vec![Expr::Str(text("test.js"))]),
            registry_stmt(
                "export",
                vec![
                    Expr::Str(text("test.js")),
                    Expr::Object(vec![Prop::KeyValue { key: text("default"), value: source("d") }]),
                ]
            ),
        ])
    );
}

#[test]
fn export_declarations_are_written_where_syntax_is_kept() {
    let named = |orig: &str, exported: Option<&str>| ExportSpecifier::Named {
        orig: ModuleExportName::Ident(source(orig)),
        exported: exported.map(|name| ModuleExportName::Ident(source(name))),
        is_type_only: false,
    };
    assert_eq!(
        lowering(false).convert_esm_export(&some_exports(), &namespaces()),
        Ok(vec![
            ModuleItem::ExportDefaultExpr(Expr::Ident(private("__export_default", 2))),
            ModuleItem::ExportNamed(NamedExport {
                specifiers: vec![named("plain", None), named("before", Some("after")), named("same", None)],
                src: None,
                type_only: false,
                node: None,
            }),
            ModuleItem::ExportAll(ExportAll { src: text("first"), type_only: false, node: None }),
            ModuleItem::ExportAll(ExportAll { src: text("second"), type_only: false, node: None }),
        ])
    );
}

#[test]
fn no_exports_no_declarations_where_syntax_is_kept() {
    assert_eq!(lowering(false).convert_esm_export(&Vec::new(), &Vec::new()), Ok(vec![]));
}

#[test]
fn a_namespace_that_nothing_imports_cannot_be_handed_on() {
    assert_eq!(
        lowering(false).convert_esm_export(&some_exports(), &Vec::new()),
        Err(TransformError::InternalInvariantViolation)
    );
    // The name alone does not do: it has to be the same binding.
    let other = vec![import(source("__h"), None, "first", ModuleType::NamespaceOrAll)];
    assert_eq!(
        lowering(false).convert_esm_export(&some_exports(), &other),
        Err(TransformError::InternalInvariantViolation)
    );
}

#[test]
fn the_source_of_a_namespace_is_that_of_its_first_import() {
    let imports = vec![
        import(source("ns"), None, "named", ModuleType::Named),
        import(source("ns"), None, "first", ModuleType::NamespaceOrAll),
        import(source("ns"), None, "second", ModuleType::NamespaceOrAll),
    ];
    assert_eq!(find_namespace_source(&imports, &source("ns")), Some(text("first")));
    assert_eq!(find_namespace_source(&imports, &source("other")), None);
    // The span is no part of what a binding is.
    let elsewhere = Ident { sym: text("ns"), span: Span { lo: 7, hi: 9 }, origin: Origin::Source(0) };
    assert_eq!(find_namespace_source(&imports, &elsewhere), Some(text("first")));
    let another_context = Ident { sym: text("ns"), span: dummy(), origin: Origin::Source(1) };
    assert_eq!(find_namespace_source(&imports, &another_context), None);
}

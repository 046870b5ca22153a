//! The binding collector, declaration by declaration.

use global_esm::error::TransformError;
use global_esm::es_module_collector::{
    first_unsupported_item, EsModuleCollector, ExportModule, ImportModule, ModuleType,
};
use global_esm::syntax::{
    Decl, DefaultDecl, ExportAll, ExportSpecifier, Expr, Ident, ImportDecl, ImportSpecifier,
    Module, ModuleExportName, ModuleItem, NamedExport, Origin, Span, Stmt,
};

fn text(s: &str) -> String {
    String::from(s)
}

fn dummy() -> Span {
    Span { lo: 0, hi: 0 }
}

fn source(sym: &str) -> Ident {
    Ident { sym: text(sym), span: Span { lo: 10, hi: 20 }, origin: Origin::Source(1) }
}

fn private(sym: &str, span: Span, decl: usize, spec: usize) -> Ident {
    Ident { sym: text(sym), span, origin: Origin::Synthesized { decl, spec } }
}

fn import_decl(specifiers: Vec<ImportSpecifier>, src: &str) -> ModuleItem {
    ModuleItem::Import(ImportDecl { specifiers, src: text(src), type_only: false, node: Some(100) })
}

fn named_export(specifiers: Vec<ExportSpecifier>, src: Option<&str>) -> ModuleItem {
    ModuleItem::ExportNamed(NamedExport { specifiers, src: src.map(text), type_only: false, node: Some(101) })
}

fn specifier(orig: &str, exported: Option<&str>) -> ExportSpecifier {
    ExportSpecifier::Named {
        orig: ModuleExportName::Ident(source(orig)),
        exported: exported.map(|name| ModuleExportName::Ident(source(name))),
        is_type_only: false,
    }
}

fn import(ident: Ident, imported: Option<Ident>, src: &str, module_type: ModuleType) -> ImportModule {
    ImportModule { ident, imported, module_src: text(src), module_type }
}

fn export(ident: Ident, as_ident: Option<Ident>, module_type: ModuleType) -> ExportModule {
    ExportModule { ident, as_ident, module_type }
}

fn constant(name: Ident, init: Expr) -> ModuleItem {
    ModuleItem::Stmt(Stmt::Decl(Decl::Const { name, init }))
}

fn export_default_of(ident: Ident) -> ModuleItem {
    ModuleItem::ExportDefaultExpr(Expr::Ident(ident))
}

/// What the collector lists for `body`, and what it leaves of it.
fn collect(runtime_module: bool, body: Vec<ModuleItem>) -> (Vec<ImportModule>, Vec<ExportModule>, Vec<ModuleItem>) {
    let mut collector = EsModuleCollector::default(runtime_module);
    let mut module = Module { body };
    assert_eq!(collector.visit_mut_module(&mut module), Ok(()));
    assert_eq!(collector.runtime_module, runtime_module);
    (collector.imports, collector.exports, module.body)
}

#[test]
fn a_new_collector_holds_nothing() {
    let collector = EsModuleCollector::default(true);
    assert!(collector.imports.is_empty());
    assert!(collector.exports.is_empty());
    assert!(collector.runtime_module);
}

#[test]
fn default_import_is_collected_and_removed() {
    let body = || vec![import_decl(vec![ImportSpecifier::Default { local: source("x") }], "m")];
    let (imports, exports, rest) = collect(true, body());
    assert_eq!(imports, vec![import(source("x"), None, "m", ModuleType::Default)]);
    assert_eq!(exports, vec![]);
    assert_eq!(rest, vec![]);
}

#[test]
fn default_import_is_collected_and_kept() {
    let body = || vec![import_decl(vec![ImportSpecifier::Default { local: source("x") }], "m")];
    let (imports, exports, rest) = collect(false, body());
    assert_eq!(imports, vec![import(source("x"), None, "m", ModuleType::Default)]);
    assert_eq!(exports, vec![]);
    assert_eq!(rest, body());
}

#[test]
fn imports_of_every_kind_are_collected() {
    // import React, { useState, useContext as ctx } from 'react'; import * as all from 'all';
    let (imports, _, rest) = collect(
        true,
        vec![
            import_decl(
                vec![
                    ImportSpecifier::Default { local: source("React") },
                    ImportSpecifier::Named { local: source("useState"), imported: None, is_type_only: false },
                    ImportSpecifier::Named {
                        local: source("ctx"),
                        imported: Some(ModuleExportName::Ident(source("useContext"))),
                        is_type_only: false,
                    },
                ],
                "react",
            ),
            import_decl(vec![ImportSpecifier::Namespace { local: source("all") }], "all"),
        ],
    );
    assert_eq!(
        imports,
        vec![
            import(source("React"), None, "react", ModuleType::Default),
            import(source("useState"), None, "react", ModuleType::Named),
            import(source("ctx"), Some(source("useContext")), "react", ModuleType::Named),
            import(source("all"), None, "all", ModuleType::NamespaceOrAll),
        ]
    );
    assert_eq!(rest, vec![]);
}

#[test]
fn an_exported_function_is_collected() {
    // export function namedFunction() {}
    let declaration = || Decl::Fn { ident: source("namedFunction"), declare: false, function: 5 };
    let (_, exports, rest) = collect(true, vec![ModuleItem::ExportDecl(declaration())]);
    assert_eq!(exports, vec![export(source("namedFunction"), None, ModuleType::Named)]);
    assert_eq!(rest, vec![ModuleItem::Stmt(Stmt::Decl(declaration()))]);
    let (_, exports, rest) = collect(false, vec![ModuleItem::ExportDecl(declaration())]);
    assert_eq!(exports, vec![export(source("namedFunction"), None, ModuleType::Named)]);
    assert_eq!(rest, vec![ModuleItem::ExportDecl(declaration())]);
}

#[test]
fn export_class_decl() {
    let declaration = || Decl::Class { ident: source("C"), declare: false, class: 6 };
    let (_, exports, rest) = collect(true, vec![ModuleItem::ExportDecl(declaration())]);
    assert_eq!(exports, vec![export(source("C"), None, ModuleType::Named)]);
    assert_eq!(rest, vec![ModuleItem::Stmt(Stmt::Decl(declaration()))]);
}

#[test]
fn export_var_decl_exports_its_first_name_only() {
    // export const a = 1, b = 2;
    let declaration = || Decl::Var { names: vec![Some(source("a")), Some(source("b"))], node: 7 };
    let (_, exports, _) = collect(true, vec![ModuleItem::ExportDecl(declaration())]);
    assert_eq!(exports, vec![export(source("a"), None, ModuleType::Named)]);
}

#[test]
fn export_var_decl_of_a_pattern_exports_nothing() {
    // export const { a } = o, b = 2;
    let declaration = || Decl::Var { names: vec![None, Some(source("b"))], node: 7 };
    let (_, exports, rest) = collect(true, vec![ModuleItem::ExportDecl(declaration())]);
    assert_eq!(exports, vec![]);
    assert_eq!(rest, vec![ModuleItem::Stmt(Stmt::Decl(declaration()))]);
}

#[test]
fn export_of_a_type_declaration_exports_nothing() {
    let (_, exports, rest) = collect(true, vec![ModuleItem::ExportDecl(Decl::Other(8))]);
    assert_eq!(exports, vec![]);
    assert_eq!(rest, vec![ModuleItem::Stmt(Stmt::Decl(Decl::Other(8)))]);
}

#[test]
fn a_default_class_with_a_name_is_collected() {
    // export default class ClassDecl {}
    let body = || vec![ModuleItem::ExportDefaultDecl(DefaultDecl::Class { ident: Some(source("ClassDecl")), class: 9 })];
    let declared = || ModuleItem::Stmt(Stmt::Decl(Decl::Class { ident: source("ClassDecl"), declare: false, class: 9 }));
    let (_, exports, rest) = collect(true, body());
    assert_eq!(exports, vec![export(source("ClassDecl"), None, ModuleType::Default)]);
    assert_eq!(rest, vec![declared()]);
    let (_, exports, rest) = collect(false, body());
    assert_eq!(exports, vec![export(source("ClassDecl"), None, ModuleType::Default)]);
    assert_eq!(rest, vec![declared(), export_default_of(source("ClassDecl"))]);
}

#[test]
fn export_default_named_function() {
    // export default function f() {}
    let body = || vec![ModuleItem::ExportDefaultDecl(DefaultDecl::Fn { ident: Some(source("f")), function: 9 })];
    let declared = || ModuleItem::Stmt(Stmt::Decl(Decl::Fn { ident: source("f"), declare: false, function: 9 }));
    let (_, exports, rest) = collect(false, body());
    assert_eq!(exports, vec![export(source("f"), None, ModuleType::Default)]);
    assert_eq!(rest, vec![declared(), export_default_of(source("f"))]);
}

#[test]
fn export_default_anonymous_function() {
    // const x = 1; export default function () {}
    let body = || {
        vec![
            ModuleItem::Stmt(Stmt::Other(1)),
            ModuleItem::ExportDefaultDecl(DefaultDecl::Fn { ident: None, function: 9 }),
        ]
    };
    let name = || private("__export_default", dummy(), 0, 0);
    let declared = || constant(name(), Expr::Fn { ident: None, function: 9 });
    let (_, exports, rest) = collect(true, body());
    assert_eq!(exports, vec![export(name(), None, ModuleType::Default)]);
    assert_eq!(rest, vec![ModuleItem::Stmt(Stmt::Other(1)), declared()]);
    let (_, exports, rest) = collect(false, body());
    assert_eq!(exports, vec![export(name(), None, ModuleType::Default)]);
    assert_eq!(rest, vec![ModuleItem::Stmt(Stmt::Other(1)), declared(), export_default_of(name())]);
}

#[test]
fn export_default_of_a_type_stays() {
    let body = || vec![ModuleItem::ExportDefaultDecl(DefaultDecl::Other(12))];
    let (imports, exports, rest) = collect(true, body());
    assert_eq!(imports, vec![]);
    assert_eq!(exports, vec![]);
    assert_eq!(rest, body());
}

#[test]
fn a_default_expression_is_bound_to_a_private_name() {
    // import a from 'a'; export default 0;
    let body = || {
        vec![
            import_decl(vec![ImportSpecifier::Default { local: source("a") }], "a"),
            ModuleItem::ExportDefaultExpr(Expr::Other(13)),
        ]
    };
    // The second declaration of the module: numbered 1.
    let name = || private("__export_default", dummy(), 1, 0);
    let (_, exports, rest) = collect(true, body());
    assert_eq!(exports, vec![export(name(), None, ModuleType::Default)]);
    assert_eq!(rest, vec![constant(name(), Expr::Other(13))]);
    let (_, exports, rest) = collect(false, body());
    assert_eq!(exports, vec![export(name(), None, ModuleType::Default)]);
    assert_eq!(
        rest,
        vec![
            import_decl(vec![ImportSpecifier::Default { local: source("a") }], "a"),
            constant(name(), Expr::Other(13)),
            export_default_of(name()),
        ]
    );
}

#[test]
fn named_exports_are_collected() {
    // export { plain, beforeRename as afterRename };
    let body = || vec![named_export(vec![specifier("plain", None), specifier("beforeRename", Some("afterRename"))], None)];
    let expected = || {
        vec![
            export(source("plain"), None, ModuleType::Named),
            export(source("beforeRename"), Some(source("afterRename")), ModuleType::Named),
        ]
    };
    let (imports, exports, rest) = collect(true, body());
    assert_eq!(imports, vec![]);
    assert_eq!(exports, expected());
    assert_eq!(rest, vec![]);
    let (imports, exports, rest) = collect(false, body());
    assert_eq!(imports, vec![]);
    assert_eq!(exports, expected());
    assert_eq!(rest, body());
}

#[test]
fn export_named_skips_types() {
    // export { type T, a };
    let type_only = ExportSpecifier::Named {
        orig: ModuleExportName::Ident(source("T")),
        exported: None,
        is_type_only: true,
    };
    let (_, exports, _) = collect(true, vec![named_export(vec![type_only, specifier("a", None)], None)]);
    assert_eq!(exports, vec![export(source("a"), None, ModuleType::Named)]);
}

#[test]
fn re_export_of_names_and_of_the_default() {
    // export { a, default as d, b as c } from 'm';
    let body = || {
        vec![named_export(
            vec![specifier("a", None), specifier("default", Some("d")), specifier("b", Some("c"))],
            Some("m"),
        )]
    };
    let a = || private("a", source("a").span, 0, 0);
    let d = || private("__default", dummy(), 0, 1);
    let b = || private("b", source("b").span, 0, 2);
    let imports_expected = || {
        vec![
            import(a(), Some(source("a")), "m", ModuleType::Named),
            import(d(), Some(source("default")), "m", ModuleType::DefaultAsNamed),
            import(b(), Some(source("b")), "m", ModuleType::Named),
        ]
    };
    let exports_expected = || {
        vec![
            export(a(), Some(source("a")), ModuleType::Named),
            export(d(), Some(source("d")), ModuleType::Named),
            export(b(), Some(source("c")), ModuleType::Named),
        ]
    };
    let (imports, exports, rest) = collect(true, body());
    assert_eq!(imports, imports_expected());
    assert_eq!(exports, exports_expected());
    assert_eq!(rest, vec![]);
    let (imports, exports, rest) = collect(false, body());
    assert_eq!(imports, imports_expected());
    assert_eq!(exports, exports_expected());
    assert_eq!(rest, body());
}

#[test]
fn a_namespace_re_exported_under_a_name_is_collected() {
    // export * as rename from 'module';
    let body = || {
        vec![named_export(
            vec![ExportSpecifier::Namespace { name: ModuleExportName::Ident(source("rename")) }],
            Some("module"),
        )]
    };
    let namespace = || private("__re_export", dummy(), 0, 0);
    let (imports, exports, rest) = collect(true, body());
    assert_eq!(imports, vec![import(namespace(), None, "module", ModuleType::NamespaceOrAll)]);
    assert_eq!(exports, vec![export(namespace(), Some(source("rename")), ModuleType::Named)]);
    assert_eq!(rest, vec![]);
    let (_, _, rest) = collect(false, body());
    assert_eq!(rest, body());
}

#[test]
fn export_all_is_collected() {
    // export * from 'module';
    let body = || vec![ModuleItem::ExportAll(ExportAll { src: text("module"), type_only: false, node: Some(3) })];
    let namespace = || private("__h", dummy(), 0, 0);
    let (imports, exports, rest) = collect(true, body());
    assert_eq!(imports, vec![import(namespace(), None, "module", ModuleType::NamespaceOrAll)]);
    assert_eq!(exports, vec![export(namespace(), None, ModuleType::NamespaceOrAll)]);
    assert_eq!(rest, vec![]);
    let (_, _, rest) = collect(false, body());
    assert_eq!(rest, body());
}

#[test]
fn declarations_of_types_pass_through() {
    let body = || {
        vec![
            ModuleItem::Import(ImportDecl {
                specifiers: vec![ImportSpecifier::Named { local: source("T"), imported: None, is_type_only: false }],
                src: text("types"),
                type_only: true,
                node: Some(1),
            }),
            ModuleItem::ExportNamed(NamedExport {
                specifiers: vec![specifier("T", None)],
                src: None,
                type_only: true,
                node: Some(2),
            }),
            ModuleItem::ExportAll(ExportAll { src: text("types"), type_only: true, node: Some(3) }),
        ]
    };
    for runtime_module in [true, false] {
        let (imports, exports, rest) = collect(runtime_module, body());
        assert_eq!(imports, vec![]);
        assert_eq!(exports, vec![]);
        assert_eq!(rest, body());
    }
}

#[test]
fn other_module_declarations_stay_only_where_syntax_is_kept() {
    let body = || vec![ModuleItem::Other(42)];
    assert_eq!(collect(true, body()).2, vec![]);
    assert_eq!(collect(false, body()).2, body());
}

#[test]
fn statements_stay_as_they_are() {
    let body = || {
        vec![
            ModuleItem::Stmt(Stmt::Other(1)),
            ModuleItem::Stmt(Stmt::Other(2)),
            ModuleItem::Stmt(Stmt::Expr(Expr::Other(3))),
            ModuleItem::Stmt(Stmt::Other(1)),
        ]
    };
    for runtime_module in [true, false] {
        let (imports, exports, rest) = collect(runtime_module, body());
        assert_eq!(imports, vec![]);
        assert_eq!(exports, vec![]);
        assert_eq!(rest, body());
    }
}

#[test]
fn bindings_do_not_depend_on_where_statements_stand() {
    let declarations = || {
        vec![
            import_decl(vec![ImportSpecifier::Default { local: source("x") }], "m"),
            ModuleItem::ExportDefaultDecl(DefaultDecl::Fn { ident: None, function: 9 }),
            named_export(vec![specifier("a", None)], Some("n")),
            ModuleItem::ExportAll(ExportAll { src: text("o"), type_only: false, node: None }),
        ]
    };
    let statement = |node| ModuleItem::Stmt(Stmt::Other(node));
    let mut interleaved = Vec::new();
    interleaved.push(statement(1));
    for (at, declaration) in declarations().into_iter().enumerate() {
        interleaved.push(declaration);
        interleaved.push(statement(10 + at));
    }
    let mut trailing = declarations();
    trailing.push(statement(1));
    let (imports, exports, _) = collect(true, declarations());
    assert_eq!(imports.len(), 3);
    assert_eq!(exports.len(), 3);
    for body in [interleaved, trailing] {
        let (imports_again, exports_again, _) = collect(true, body);
        assert_eq!(imports_again, imports);
        assert_eq!(exports_again, exports);
    }
}

#[test]
fn private_identifiers_of_two_declarations_differ() {
    // export default function () {}  export default class {}
    let (_, exports, _) = collect(
        true,
        vec![
            ModuleItem::ExportDefaultDecl(DefaultDecl::Fn { ident: None, function: 1 }),
            ModuleItem::Stmt(Stmt::Other(2)),
            ModuleItem::ExportDefaultDecl(DefaultDecl::Class { ident: None, class: 3 }),
        ],
    );
    assert_eq!(exports[0].ident, private("__export_default", dummy(), 0, 0));
    assert_eq!(exports[1].ident, private("__export_default", dummy(), 1, 0));
    assert!(!exports[0].ident.same_binding(&exports[1].ident));
    assert!(!exports[0].ident.same_binding(&Ident {
        sym: text("__export_default"),
        span: dummy(),
        origin: Origin::Source(0),
    }));
}

#[test]
fn a_collector_goes_on_where_it_stopped() {
    let mut collector = EsModuleCollector::default(true);
    let mut first = Module { body: vec![import_decl(vec![ImportSpecifier::Default { local: source("x") }], "m")] };
    let mut second = Module { body: vec![import_decl(vec![ImportSpecifier::Default { local: source("y") }], "n")] };
    assert_eq!(collector.visit_mut_module(&mut first), Ok(()));
    assert_eq!(collector.visit_mut_module(&mut second), Ok(()));
    assert_eq!(
        collector.imports,
        vec![
            import(source("x"), None, "m", ModuleType::Default),
            import(source("y"), None, "n", ModuleType::Default),
        ]
    );
}

#[test]
fn import_of_a_string_name_is_refused() {
    // import x from 'm'; import { "a b" as c } from 'm';
    let body = || {
        vec![
            import_decl(vec![ImportSpecifier::Default { local: source("x") }], "m"),
            import_decl(
                vec![ImportSpecifier::Named {
                    local: source("c"),
                    imported: Some(ModuleExportName::Str(text("a b"))),
                    is_type_only: false,
                }],
                "m",
            ),
        ]
    };
    assert_eq!(first_unsupported_item(&body()), Some(1));
    let mut collector = EsModuleCollector::default(true);
    let mut module = Module { body: body() };
    assert_eq!(collector.visit_mut_module(&mut module), Err(TransformError::UnsupportedSyntax { item: 1 }));
    // Nothing was collected and nothing was rewritten.
    assert_eq!(collector.imports, vec![]);
    assert_eq!(collector.exports, vec![]);
    assert_eq!(module.body, body());
}

#[test]
fn export_under_a_string_name_is_refused() {
    // export { a as "a b" };
    let body = vec![named_export(
        vec![ExportSpecifier::Named {
            orig: ModuleExportName::Ident(source("a")),
            exported: Some(ModuleExportName::Str(text("a b"))),
            is_type_only: false,
        }],
        None,
    )];
    assert_eq!(first_unsupported_item(&body), Some(0));
}

#[test]
fn re_export_of_a_string_name_is_refused() {
    // export { "a b" as c } from 'm';
    let body = vec![
        ModuleItem::Stmt(Stmt::Other(0)),
        ModuleItem::Stmt(Stmt::Other(1)),
        named_export(
            vec![
                specifier("ok", None),
                ExportSpecifier::Named {
                    orig: ModuleExportName::Str(text("a b")),
                    exported: Some(ModuleExportName::Ident(source("c"))),
                    is_type_only: false,
                },
            ],
            Some("m"),
        ),
    ];
    assert_eq!(first_unsupported_item(&body), Some(2));
}

#[test]
fn namespace_re_export_under_a_string_name_is_refused() {
    // export * as "a b" from 'm';
    let body = vec![named_export(
        vec![ExportSpecifier::Namespace { name: ModuleExportName::Str(text("a b")) }],
        Some("m"),
    )];
    assert_eq!(first_unsupported_item(&body), Some(0));
}

#[test]
fn specifiers_out_of_place_are_refused() {
    // export v from 'm';
    let default_from = vec![named_export(vec![ExportSpecifier::Default { ident: source("v") }], Some("m"))];
    assert_eq!(first_unsupported_item(&default_from), Some(0));
    // export * as ns, { a } from 'm';
    let mixed = vec![named_export(
        vec![ExportSpecifier::Namespace { name: ModuleExportName::Ident(source("ns")) }, specifier("a", None)],
        Some("m"),
    )];
    assert_eq!(first_unsupported_item(&mixed), Some(0));
    // export * as ns;
    let without_source = vec![named_export(
        vec![ExportSpecifier::Namespace { name: ModuleExportName::Ident(source("ns")) }],
        None,
    )];
    assert_eq!(first_unsupported_item(&without_source), Some(0));
}

#[test]
fn a_module_of_known_shapes_is_accepted() {
    let body = vec![
        import_decl(vec![ImportSpecifier::Default { local: source("x") }], "m"),
        named_export(vec![], Some("m")),
        named_export(vec![specifier("a", Some("b"))], None),
        ModuleItem::Other(3),
    ];
    assert_eq!(first_unsupported_item(&body), None);
}

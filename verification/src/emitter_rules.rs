//! What the emitter makes of the bindings of a module: the statements
//! that stand before the rewritten body and behind it.

use crate::bindings::{ExportModuleView, ImportModuleView, ModuleType};
use crate::collector_rules::{default_export_item, module_exports, module_imports, module_rewritten};
use crate::constants::{
    DEFAULT_EXPORT_NAME, MODULE_EXPORT_ALL_METHOD_NAME, MODULE_EXPORT_METHOD_NAME,
    MODULE_IMPORT_METHOD_NAME, MODULE_IMPORT_WILDCARD_METHOD_NAME, MODULE_INIT_METHOD_NAME,
    MODULE_RESET_METHOD_NAME,
};
use crate::import_idents::{handle_ident, handles_can_be_named, source_index, with_source};
use crate::import_paths::remap;
use crate::syntax::{
    ExportAllView, ExportSpecifierView, ExprView, IdentView, ImportDeclView, ImportSpecifierView,
    ModuleExportNameView, ModuleItemView, NamedExportView, PropView, StmtView,
};
use crate::utils::{const_stmt, global_module_api_call, member};
use vstd::prelude::*;

verus! {

// ---------------------------------------------------------------------------
// Imports
// ---------------------------------------------------------------------------

/// Whether a binding is read off the handle of its source module. An
/// import of a whole namespace is not: it asks the registry itself.
pub open spec fn uses_handle(binding: ImportModuleView) -> bool {
    !(binding.module_type is NamespaceOrAll)
}

/// The source modules that get a handle, in the order in which the
/// bindings first refer to them.
pub open spec fn handle_sources(imports: Seq<ImportModuleView>) -> Seq<Seq<char>>
    decreases imports.len(),
{
    if imports.len() == 0 {
        Seq::empty()
    } else if uses_handle(imports.last()) {
        with_source(handle_sources(imports.drop_last()), imports.last().module_src)
    } else {
        handle_sources(imports.drop_last())
    }
}

/// Whether the bindings need a handle that cannot be made: module syntax
/// is lowered, a binding is read off a handle, and handles cannot be
/// named.
pub open spec fn handle_unavailable(imports: Seq<ImportModuleView>, runtime_module: bool) -> bool {
    runtime_module && handle_sources(imports).len() > 0 && !handles_can_be_named()
}

/// The handle of the source module `module_src`, one of `sources`.
pub open spec fn source_handle(sources: Seq<Seq<char>>, module_src: Seq<char>) -> IdentView {
    handle_ident(source_index(sources, module_src), module_src)
}

/// `const handle = registry.import("path");` for the `index`-th
/// source module, where `path` is what `table` makes of the source.
pub open spec fn global_import_stmt(
    index: int,
    module_src: Seq<char>,
    table: Map<Seq<char>, Seq<char>>,
) -> StmtView {
    const_stmt(
        handle_ident(index, module_src),
        global_module_api_call(MODULE_IMPORT_METHOD_NAME@, seq![ExprView::Str(remap(table, module_src))]),
    )
}

/// One import of a handle for each of `sources`, in order.
pub open spec fn global_import_items(sources: Seq<Seq<char>>, table: Map<Seq<char>, Seq<char>>) -> Seq<
    ModuleItemView,
> {
    Seq::new(sources.len(), |k: int| ModuleItemView::Stmt(global_import_stmt(k, sources[k], table)))
}

/// The name under which the source module exports a binding: the one
/// given, else the local one.
pub open spec fn imported_name(binding: ImportModuleView) -> Seq<char> {
    match binding.imported {
        Some(imported) => imported.sym,
        None => binding.ident.sym,
    }
}

/// The statement that binds one import where module syntax is lowered:
/// `const local = handle.default;`, `const local = handle.name;`, or
/// `const local = registry.importAll("path");`.
pub open spec fn runtime_import_stmt(
    binding: ImportModuleView,
    sources: Seq<Seq<char>>,
    table: Map<Seq<char>, Seq<char>>,
) -> StmtView {
    match binding.module_type {
        ModuleType::Default | ModuleType::DefaultAsNamed => const_stmt(
            binding.ident,
            member(ExprView::Ident(source_handle(sources, binding.module_src)), DEFAULT_EXPORT_NAME@),
        ),
        ModuleType::Named => const_stmt(
            binding.ident,
            member(ExprView::Ident(source_handle(sources, binding.module_src)), imported_name(binding)),
        ),
        ModuleType::NamespaceOrAll => const_stmt(
            binding.ident,
            global_module_api_call(
                MODULE_IMPORT_WILDCARD_METHOD_NAME@,
                seq![ExprView::Str(remap(table, binding.module_src))],
            ),
        ),
    }
}

/// The specifier of the import declaration that binds one import where
/// module syntax is kept.
pub open spec fn static_import_specifier(binding: ImportModuleView) -> ImportSpecifierView {
    match binding.module_type {
        ModuleType::Default | ModuleType::DefaultAsNamed => ImportSpecifierView::Default {
            local: binding.ident,
        },
        ModuleType::Named => ImportSpecifierView::Named {
            local: binding.ident,
            imported: match binding.imported {
                Some(imported) => Some(ModuleExportNameView::Ident(imported)),
                None => None,
            },
            is_type_only: false,
        },
        ModuleType::NamespaceOrAll => ImportSpecifierView::Namespace { local: binding.ident },
    }
}

/// The import declaration that binds one import where module syntax is
/// kept. Its source is the one written: no table is applied to it.
pub open spec fn static_import_item(binding: ImportModuleView) -> ModuleItemView {
    ModuleItemView::Import(
        ImportDeclView {
            specifiers: seq![static_import_specifier(binding)],
            src: binding.module_src,
            type_only: false,
            node: None,
        },
    )
}

/// What binds one import.
pub open spec fn import_item(
    binding: ImportModuleView,
    sources: Seq<Seq<char>>,
    table: Map<Seq<char>, Seq<char>>,
    runtime_module: bool,
) -> ModuleItemView {
    if runtime_module {
        ModuleItemView::Stmt(runtime_import_stmt(binding, sources, table))
    } else {
        static_import_item(binding)
    }
}

/// What binds each import, in the order of the bindings.
pub open spec fn import_items(
    imports: Seq<ImportModuleView>,
    sources: Seq<Seq<char>>,
    table: Map<Seq<char>, Seq<char>>,
    runtime_module: bool,
) -> Seq<ModuleItemView> {
    Seq::new(imports.len(), |i: int| import_item(imports[i], sources, table, runtime_module))
}

/// What stands before the body of a module with these imports. Where
/// module syntax is lowered: one import of a handle for each source
/// module that needs one, then one statement for each binding. Where it
/// is kept: one import declaration for each binding.
pub open spec fn esm_import_items(
    imports: Seq<ImportModuleView>,
    table: Map<Seq<char>, Seq<char>>,
    runtime_module: bool,
) -> Seq<ModuleItemView> {
    if runtime_module {
        global_import_items(handle_sources(imports), table) + import_items(
            imports,
            handle_sources(imports),
            table,
            true,
        )
    } else {
        import_items(imports, Seq::empty(), table, false)
    }
}

// ---------------------------------------------------------------------------
// Exports
// ---------------------------------------------------------------------------

/// Whether an export hands on everything that a namespace holds.
pub open spec fn is_spread(export: ExportModuleView) -> bool {
    export.module_type is NamespaceOrAll
}

/// The name that importers see where it differs from the local one.
pub open spec fn distinct_alias(export: ExportModuleView) -> Option<IdentView> {
    match export.as_ident {
        Some(alias) => if alias.sym != export.ident.sym {
            Some(alias)
        } else {
            None
        },
        None => None,
    }
}

/// The property by which an export is registered: `default: local` for a
/// default export; `local`, or `alias: local` where the alias differs,
/// for a named one; `...local` for a namespace.
pub open spec fn export_prop(export: ExportModuleView) -> PropView {
    match export.module_type {
        ModuleType::Default | ModuleType::DefaultAsNamed => PropView::KeyValue {
            key: DEFAULT_EXPORT_NAME@,
            value: export.ident,
        },
        ModuleType::Named => match distinct_alias(export) {
            Some(alias) => PropView::KeyValue { key: alias.sym, value: export.ident },
            None => PropView::Shorthand(export.ident),
        },
        ModuleType::NamespaceOrAll => PropView::Spread(export.ident),
    }
}

/// The properties of the default and named exports, in order.
pub open spec fn export_props(exports: Seq<ExportModuleView>) -> Seq<PropView>
    decreases exports.len(),
{
    if exports.len() == 0 {
        Seq::empty()
    } else if is_spread(exports.last()) {
        export_props(exports.drop_last())
    } else {
        export_props(exports.drop_last()).push(export_prop(exports.last()))
    }
}

/// The properties of the namespaces that are handed on, in order.
pub open spec fn export_all_props(exports: Seq<ExportModuleView>) -> Seq<PropView>
    decreases exports.len(),
{
    if exports.len() == 0 {
        Seq::empty()
    } else if is_spread(exports.last()) {
        export_all_props(exports.drop_last()).push(export_prop(exports.last()))
    } else {
        export_all_props(exports.drop_last())
    }
}

/// `registry.method(args);`
pub open spec fn registry_stmt(method: Seq<char>, args: Seq<ExprView>) -> ModuleItemView {
    ModuleItemView::Stmt(StmtView::Expr(global_module_api_call(method, args)))
}

/// `items` if `present`, else nothing.
pub open spec fn only_if(present: bool, items: Seq<ModuleItemView>) -> Seq<ModuleItemView> {
    if present {
        items
    } else {
        Seq::empty()
    }
}

/// The registration of a module with these exports under `module_name`.
/// Without exports: one call of `reset`. With exports: a call of `init`,
/// then one of `export` if any export is a default or named one, then one
/// of `exportAll` if any hands on a namespace.
pub open spec fn runtime_export_items(exports: Seq<ExportModuleView>, module_name: Seq<char>) -> Seq<
    ModuleItemView,
> {
    if exports.len() == 0 {
        seq![registry_stmt(MODULE_RESET_METHOD_NAME@, seq![ExprView::Str(module_name)])]
    } else {
        seq![registry_stmt(MODULE_INIT_METHOD_NAME@, seq![ExprView::Str(module_name)])] + only_if(
            export_props(exports).len() > 0,
            seq![
                registry_stmt(
                    MODULE_EXPORT_METHOD_NAME@,
                    seq![ExprView::Str(module_name), ExprView::Object(export_props(exports))],
                ),
            ],
        ) + only_if(
            export_all_props(exports).len() > 0,
            seq![
                registry_stmt(
                    MODULE_EXPORT_ALL_METHOD_NAME@,
                    seq![ExprView::Str(module_name), ExprView::Object(export_all_props(exports))],
                ),
            ],
        )
    }
}

/// Whether an export is a default one.
pub open spec fn is_default_export(export: ExportModuleView) -> bool {
    export.module_type is Default || export.module_type is DefaultAsNamed
}

/// `export default local;` for each default export, in order.
pub open spec fn static_default_exports(exports: Seq<ExportModuleView>) -> Seq<ModuleItemView>
    decreases exports.len(),
{
    if exports.len() == 0 {
        Seq::empty()
    } else if is_default_export(exports.last()) {
        static_default_exports(exports.drop_last()).push(default_export_item(exports.last().ident))
    } else {
        static_default_exports(exports.drop_last())
    }
}

/// The specifier `local` or `local as alias` of a named export.
pub open spec fn static_export_specifier(export: ExportModuleView) -> ExportSpecifierView {
    ExportSpecifierView::Named {
        orig: ModuleExportNameView::Ident(export.ident),
        exported: match distinct_alias(export) {
            Some(alias) => Some(ModuleExportNameView::Ident(alias)),
            None => None,
        },
        is_type_only: false,
    }
}

/// The specifiers of the named exports, in order.
pub open spec fn static_export_specifiers(exports: Seq<ExportModuleView>) -> Seq<ExportSpecifierView>
    decreases exports.len(),
{
    if exports.len() == 0 {
        Seq::empty()
    } else if exports.last().module_type is Named {
        static_export_specifiers(exports.drop_last()).push(static_export_specifier(exports.last()))
    } else {
        static_export_specifiers(exports.drop_last())
    }
}

/// `export { specifiers };`
pub open spec fn static_named_export(specifiers: Seq<ExportSpecifierView>) -> ModuleItemView {
    ModuleItemView::ExportNamed(NamedExportView { specifiers, src: None, type_only: false, node: None })
}

/// Whether `binding` imports a namespace under the name `ident`.
pub open spec fn binds_namespace(binding: ImportModuleView, ident: IdentView) -> bool {
    binding.module_type is NamespaceOrAll && binding.ident.same_binding(ident)
}

/// The source module whose namespace `ident` is bound to: that of the
/// first binding that imports a namespace under this name, if any does.
pub open spec fn namespace_source(imports: Seq<ImportModuleView>, ident: IdentView) -> Option<Seq<char>>
    decreases imports.len(),
{
    if imports.len() == 0 {
        None
    } else {
        match namespace_source(imports.drop_last(), ident) {
            Some(module_src) => Some(module_src),
            None => if binds_namespace(imports.last(), ident) {
                Some(imports.last().module_src)
            } else {
                None
            },
        }
    }
}

/// Whether every namespace that is handed on is one that `imports` bind.
pub open spec fn spreads_resolved(exports: Seq<ExportModuleView>, imports: Seq<ImportModuleView>) -> bool {
    forall|k: int|
        0 <= k < exports.len() && is_spread(#[trigger] exports[k]) ==> namespace_source(
            imports,
            exports[k].ident,
        ) is Some
}

/// `export * from "module_src";`
pub open spec fn static_export_all(module_src: Seq<char>) -> ModuleItemView {
    ModuleItemView::ExportAll(ExportAllView { src: module_src, type_only: false, node: None })
}

/// `export * from "src";` for each namespace that is handed on, in order,
/// where `src` is the source module that `imports` bind it to.
pub open spec fn static_export_alls(exports: Seq<ExportModuleView>, imports: Seq<ImportModuleView>) -> Seq<
    ModuleItemView,
>
    decreases exports.len(),
{
    if exports.len() == 0 {
        Seq::empty()
    } else if is_spread(exports.last()) {
        static_export_alls(exports.drop_last(), imports).push(
            static_export_all(namespace_source(imports, exports.last().ident).unwrap()),
        )
    } else {
        static_export_alls(exports.drop_last(), imports)
    }
}

/// The export declarations of a module with these exports: `export
/// default ..;` for each default export, one `export { .. };` for the
/// named ones if there are any, and `export * from ..;` for each
/// namespace that is handed on.
pub open spec fn static_export_items(exports: Seq<ExportModuleView>, imports: Seq<ImportModuleView>) -> Seq<
    ModuleItemView,
> {
    static_default_exports(exports) + only_if(
        static_export_specifiers(exports).len() > 0,
        seq![static_named_export(static_export_specifiers(exports))],
    ) + static_export_alls(exports, imports)
}

/// What stands behind the body of a module with these exports.
pub open spec fn esm_export_items(
    exports: Seq<ExportModuleView>,
    imports: Seq<ImportModuleView>,
    module_name: Seq<char>,
    runtime_module: bool,
) -> Seq<ModuleItemView> {
    if runtime_module {
        runtime_export_items(exports, module_name)
    } else {
        static_export_items(exports, imports)
    }
}

// ---------------------------------------------------------------------------
// The whole module
// ---------------------------------------------------------------------------

/// The body of a module after lowering: what binds its imports, its own
/// body as the collector rewrites it, and what registers or declares its
/// exports.
pub open spec fn lowered_module(
    body: Seq<ModuleItemView>,
    module_name: Seq<char>,
    table: Map<Seq<char>, Seq<char>>,
    runtime_module: bool,
) -> Seq<ModuleItemView> {
    esm_import_items(module_imports(body), table, runtime_module) + module_rewritten(
        body,
        runtime_module,
    ) + esm_export_items(module_exports(body), module_imports(body), module_name, runtime_module)
}

} // verus!

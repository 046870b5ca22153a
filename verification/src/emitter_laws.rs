//! What holds of every module that is lowered.

use crate::collector_laws::{
    is_anonymous_default, lemma_anonymous_default_is_named, lemma_statements_only,
};
use crate::constants::{
    DEFAULT_EXPORT_NAME, MODULE_EXPORT_ALL_METHOD_NAME, MODULE_EXPORT_METHOD_NAME,
    MODULE_IMPORT_METHOD_NAME, MODULE_IMPORT_WILDCARD_METHOD_NAME, MODULE_INIT_METHOD_NAME,
    MODULE_RESET_METHOD_NAME,
};
use crate::emitter_rules::{
    binds_namespace, esm_export_items, esm_import_items, export_prop, export_props,
    global_import_items, global_import_stmt, handle_sources, import_items, is_spread,
    lowered_module, namespace_source, registry_stmt, runtime_export_items, runtime_import_stmt,
    source_handle, spreads_resolved, uses_handle,
};
use crate::bindings::{export_default, ExportModuleView, ImportModuleView};
use crate::collector_rules::{
    declarations_before, export_default_ident, exports_before, imports_before, item_exports,
    item_imports, local_export_bindings, module_exports, module_imports, module_rewritten,
};
use crate::import_idents::{handle_ident, source_index};
use crate::import_paths::remap;
use crate::syntax::{ExportSpecifierView, ExprView, IdentView, ModuleItemView, PropView};
use crate::utils::{const_stmt, global_module_api_call};
use vstd::prelude::*;

verus! {

/// Handles are given out without duplicates.
pub proof fn lemma_handle_sources_distinct(imports: Seq<ImportModuleView>)
    ensures
        handle_sources(imports).no_duplicates(),
        handle_sources(imports).len() <= imports.len(),
    decreases imports.len(),
{
    if imports.len() > 0 {
        lemma_handle_sources_distinct(imports.drop_last());
    }
}

/// Every binding that is read off a handle has its source module among
/// those that get one.
pub proof fn lemma_handle_sources_complete(imports: Seq<ImportModuleView>, i: int)
    requires
        0 <= i < imports.len(),
        uses_handle(imports[i]),
    ensures
        handle_sources(imports).contains(imports[i].module_src),
    decreases imports.len(),
{
    let rest = handle_sources(imports.drop_last());
    if i < imports.len() - 1 {
        lemma_handle_sources_complete(imports.drop_last(), i);
        let k = choose|k: int| 0 <= k < rest.len() && rest[k] == imports[i].module_src;
        assert(handle_sources(imports)[k] == imports[i].module_src);
    } else {
        let src = imports.last().module_src;
        if rest.contains(src) {
        } else {
            assert(rest.push(src)[rest.len() as int] == src);
        }
    }
}

/// The sources that have a handle after some bindings still have one
/// after more: the list only grows.
pub proof fn lemma_handle_sources_grow(imports: Seq<ImportModuleView>, n: int, m: int)
    requires
        0 <= n <= m <= imports.len(),
    ensures
        handle_sources(imports.take(n)).len() <= handle_sources(imports.take(m)).len(),
    decreases m - n,
{
    if n < m {
        lemma_handle_sources_grow(imports, n, m - 1);
        assert(imports.take(m).drop_last() =~= imports.take(m - 1));
    }
}

/// A namespace that the first `n` bindings bind to a source module is
/// bound to the same one by all of them.
pub proof fn lemma_namespace_source_stays(imports: Seq<ImportModuleView>, n: int, ident: IdentView)
    requires
        0 <= n <= imports.len(),
        namespace_source(imports.take(n), ident) is Some,
    ensures
        namespace_source(imports, ident) == namespace_source(imports.take(n), ident),
    decreases imports.len() - n,
{
    if n < imports.len() {
        assert(imports.take(n + 1).drop_last() =~= imports.take(n));
        lemma_namespace_source_stays(imports, n + 1, ident);
    } else {
        assert(imports.take(n) =~= imports);
    }
}

/// A namespace that some binding imports under a name has a source.
pub proof fn lemma_namespace_source_found(imports: Seq<ImportModuleView>, j: int, ident: IdentView)
    requires
        0 <= j < imports.len(),
        binds_namespace(imports[j], ident),
    ensures
        namespace_source(imports, ident) is Some,
    decreases imports.len(),
{
    if j < imports.len() - 1 {
        lemma_namespace_source_found(imports.drop_last(), j, ident);
    }
}

/// `export { .. }` without a source hands on no namespace.
proof fn lemma_local_exports_named(specifiers: Seq<ExportSpecifierView>, k: int)
    requires
        0 <= k < local_export_bindings(specifiers).len(),
    ensures
        local_export_bindings(specifiers)[k].module_type is Named,
    decreases specifiers.len(),
{
    if specifiers.len() > 0 {
        if k < local_export_bindings(specifiers.drop_last()).len() {
            lemma_local_exports_named(specifiers.drop_last(), k);
        }
    }
}

/// Among the bindings of the first `n` items of a module, every namespace
/// that is handed on is one that is imported.
proof fn lemma_spreads_bound(body: Seq<ModuleItemView>, n: int, k: int)
    requires
        0 <= n <= body.len(),
        0 <= k < exports_before(body, n).len(),
        is_spread(exports_before(body, n)[k]),
    ensures
        exists|j: int|
            0 <= j < imports_before(body, n).len() && binds_namespace(
                #[trigger] imports_before(body, n)[j],
                exports_before(body, n)[k].ident,
            ),
    decreases n,
{
    if n > 0 {
        let earlier_exports = exports_before(body, n - 1);
        let earlier_imports = imports_before(body, n - 1);
        let item = body[n - 1];
        let decl = declarations_before(body, n - 1);
        let ident = exports_before(body, n)[k].ident;
        if k < earlier_exports.len() {
            lemma_spreads_bound(body, n - 1, k);
            let j = choose|j: int|
                0 <= j < earlier_imports.len() && binds_namespace(#[trigger] earlier_imports[j], ident);
            assert(imports_before(body, n)[j] == earlier_imports[j]);
        } else {
            let at = k - earlier_exports.len();
            assert(exports_before(body, n)[k] == item_exports(item, decl)[at]);
            match item {
                ModuleItemView::ExportNamed(named) => {
                    if !named.type_only && named.src is None {
                        lemma_local_exports_named(named.specifiers, at);
                    }
                },
                _ => {},
            }
            assert(item is ExportAll);
            let j = earlier_imports.len() as int;
            assert(imports_before(body, n)[j] == item_imports(item, decl)[0]);
        }
    }
}

/// Every namespace that a module hands on has a source among the imports
/// that the collector lists for the module.
pub proof fn lemma_module_spreads_resolved(body: Seq<ModuleItemView>)
    ensures
        spreads_resolved(module_exports(body), module_imports(body)),
{
    let exports = module_exports(body);
    let imports = module_imports(body);
    assert forall|k: int| 0 <= k < exports.len() && is_spread(#[trigger] exports[k]) implies namespace_source(
        imports,
        exports[k].ident,
    ) is Some by {
        lemma_spreads_bound(body, body.len() as int, k);
        let j = choose|j: int|
            0 <= j < imports.len() && binds_namespace(#[trigger] imports[j], exports[k].ident);
        lemma_namespace_source_found(imports, j, exports[k].ident);
    }
}

/// Bindings share a handle exactly if they import from the same source
/// module: each source module that a binding is read off has one handle,
/// imported by one call of the registry, and no two of them have the
/// same.
pub proof fn lemma_handle_sharing(
    imports: Seq<ImportModuleView>,
    table: Map<Seq<char>, Seq<char>>,
    i: int,
    j: int,
)
    requires
        imports.len() <= usize::MAX,
        0 <= i < imports.len(),
        0 <= j < imports.len(),
        uses_handle(imports[i]),
        uses_handle(imports[j]),
    ensures
        ({
            let sources = handle_sources(imports);
            let at = source_index(sources, imports[i].module_src);
            &&& sources.no_duplicates()
            &&& global_import_items(sources, table).len() == sources.len()
            &&& 0 <= at < sources.len()
            &&& sources[at] == imports[i].module_src
            &&& global_import_items(sources, table)[at] == ModuleItemView::Stmt(
                global_import_stmt(at, imports[i].module_src, table),
            )
            &&& source_handle(sources, imports[i].module_src) == handle_ident(at, imports[i].module_src)
            &&& (source_handle(sources, imports[i].module_src) == source_handle(
                sources,
                imports[j].module_src,
            ) <==> imports[i].module_src == imports[j].module_src)
        }),
{
    lemma_handle_sources_distinct(imports);
    lemma_handle_sources_complete(imports, i);
    lemma_handle_sources_complete(imports, j);
}

/// The table of paths reaches nothing but the text that is handed to the
/// registry when a module or a namespace is imported. Where module
/// syntax is kept, the lowered module is the same whatever the table
/// holds. Where it is lowered, the handles and what is read off them are
/// the same whatever the table holds.
pub proof fn lemma_paths_reach_registry_calls_only(
    body: Seq<ModuleItemView>,
    module_name: Seq<char>,
    table: Map<Seq<char>, Seq<char>>,
    other: Map<Seq<char>, Seq<char>>,
)
    ensures
        lowered_module(body, module_name, table, false) == lowered_module(body, module_name, other, false),
        lowered_module(body, module_name, table, true).len() == lowered_module(
            body,
            module_name,
            other,
            true,
        ).len(),
        ({
            let imports = module_imports(body);
            let sources = handle_sources(imports);
            &&& forall|k: int|
                0 <= k < sources.len() ==> #[trigger] global_import_stmt(k, sources[k], table)
                    == const_stmt(
                    handle_ident(k, sources[k]),
                    global_module_api_call(
                        MODULE_IMPORT_METHOD_NAME@,
                        seq![ExprView::Str(remap(table, sources[k]))],
                    ),
                )
            &&& forall|i: int|
                0 <= i < imports.len() && uses_handle(imports[i]) ==> #[trigger] runtime_import_stmt(
                    imports[i],
                    sources,
                    table,
                ) == runtime_import_stmt(imports[i], sources, other)
            &&& forall|i: int|
                0 <= i < imports.len() && !uses_handle(imports[i]) ==> #[trigger] runtime_import_stmt(
                    imports[i],
                    sources,
                    table,
                ) == const_stmt(
                    imports[i].ident,
                    global_module_api_call(
                        MODULE_IMPORT_WILDCARD_METHOD_NAME@,
                        seq![ExprView::Str(remap(table, imports[i].module_src))],
                    ),
                )
        }),
{
    let imports = module_imports(body);
    assert(import_items(imports, Seq::empty(), table, false) =~= import_items(
        imports,
        Seq::empty(),
        other,
        false,
    ));
}

/// The name of the operation that clears a registration differs from the
/// names of those that make one.
pub proof fn lemma_reset_is_no_registration()
    ensures
        MODULE_RESET_METHOD_NAME@ != MODULE_INIT_METHOD_NAME@,
        MODULE_RESET_METHOD_NAME@ != MODULE_EXPORT_METHOD_NAME@,
        MODULE_RESET_METHOD_NAME@ != MODULE_EXPORT_ALL_METHOD_NAME@,
{
    reveal_strlit("reset");
    reveal_strlit("init");
    reveal_strlit("export");
    reveal_strlit("exportAll");
    assert(MODULE_RESET_METHOD_NAME@.len() == 5);
    assert(MODULE_INIT_METHOD_NAME@.len() == 4);
    assert(MODULE_EXPORT_METHOD_NAME@.len() == 6);
    assert(MODULE_EXPORT_ALL_METHOD_NAME@.len() == 9);
}

/// A module that exports nothing registers nothing: where module syntax
/// is lowered, what stands behind its body is one call of `reset` with
/// the name of the module, and nothing else.
pub proof fn lemma_nothing_exported_resets(
    exports: Seq<ExportModuleView>,
    imports: Seq<ImportModuleView>,
    module_name: Seq<char>,
)
    requires
        exports.len() == 0,
    ensures
        esm_export_items(exports, imports, module_name, true) == seq![
            registry_stmt(MODULE_RESET_METHOD_NAME@, seq![ExprView::Str(module_name)]),
        ],
{
}

/// A module without module declarations is lowered to its statements
/// and one call of `reset` with its name behind them.
pub proof fn lemma_no_declarations_resets(
    body: Seq<ModuleItemView>,
    module_name: Seq<char>,
    table: Map<Seq<char>, Seq<char>>,
)
    requires
        forall|i: int| 0 <= i < body.len() ==> #[trigger] body[i] is Stmt,
    ensures
        lowered_module(body, module_name, table, true) == body + seq![
            registry_stmt(MODULE_RESET_METHOD_NAME@, seq![ExprView::Str(module_name)]),
        ],
{
    lemma_statements_only(body, true);
    assert(handle_sources(Seq::<ImportModuleView>::empty()) =~= Seq::<Seq<char>>::empty());
    assert(esm_import_items(Seq::<ImportModuleView>::empty(), table, true) =~= Seq::<
        ModuleItemView,
    >::empty());
    assert(lowered_module(body, module_name, table, true) =~= body + seq![
        registry_stmt(MODULE_RESET_METHOD_NAME@, seq![ExprView::Str(module_name)]),
    ]);
}

/// Every default or named export has its property in the object by which
/// the exports are registered.
pub proof fn lemma_export_is_registered(exports: Seq<ExportModuleView>, k: int)
    requires
        0 <= k < exports.len(),
        !is_spread(exports[k]),
    ensures
        export_props(exports).contains(export_prop(exports[k])),
    decreases exports.len(),
{
    let rest = export_props(exports.drop_last());
    if k < exports.len() - 1 {
        lemma_export_is_registered(exports.drop_last(), k);
        let at = choose|at: int| 0 <= at < rest.len() && rest[at] == export_prop(exports[k]);
        assert(export_props(exports)[at] == export_prop(exports[k]));
    } else {
        assert(export_props(exports)[rest.len() as int] == export_prop(exports[k]));
    }
}

/// The name that a default export without a name gets is the one by
/// which it is declared and the one by which it is registered: the body
/// of the lowered module holds `const name = <function or class>;`, and
/// the object that is handed to `export` holds `default: name`.
pub proof fn lemma_anonymous_default_registered(
    body: Seq<ModuleItemView>,
    i: int,
    module_name: Seq<char>,
)
    requires
        0 <= i < body.len(),
        is_anonymous_default(body[i]),
    ensures
        ({
            let name = export_default_ident(declarations_before(body, i));
            let exports = module_exports(body);
            &&& module_rewritten(body, true).contains(
                ModuleItemView::Stmt(
                    const_stmt(name, crate::collector_laws::anonymous_default_value(body[i])),
                ),
            )
            &&& export_props(exports).contains(PropView::KeyValue { key: DEFAULT_EXPORT_NAME@, value: name })
            &&& runtime_export_items(exports, module_name).contains(
                registry_stmt(
                    MODULE_EXPORT_METHOD_NAME@,
                    seq![ExprView::Str(module_name), ExprView::Object(export_props(exports))],
                ),
            )
        }),
{
    let name = export_default_ident(declarations_before(body, i));
    let exports = module_exports(body);
    lemma_anonymous_default_is_named(body, i, true);
    let k = choose|k: int| 0 <= k < exports.len() && exports[k] == export_default(name);
    lemma_export_is_registered(exports, k);
    let call = registry_stmt(
        MODULE_EXPORT_METHOD_NAME@,
        seq![ExprView::Str(module_name), ExprView::Object(export_props(exports))],
    );
    assert(runtime_export_items(exports, module_name)[1] == call);
}

} // verus!

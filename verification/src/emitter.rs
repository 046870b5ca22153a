//! The lowering emitter: from the bindings that the collector lists to the
//! statements that stand before and behind the rewritten body, and the
//! lowering of a whole module.

use crate::bindings::{ExportModule, ImportModule, ImportModuleView, ModuleType};
use crate::collector_rules::{
    is_first_unsupported, module_exports, module_imports, module_supported,
};
use crate::constants::{
    DEFAULT_EXPORT_NAME, MODULE_EXPORT_ALL_METHOD_NAME, MODULE_EXPORT_METHOD_NAME,
    MODULE_IMPORT_METHOD_NAME, MODULE_IMPORT_WILDCARD_METHOD_NAME, MODULE_INIT_METHOD_NAME,
    MODULE_RESET_METHOD_NAME,
};
use crate::emitter_laws::{
    lemma_handle_sources_complete, lemma_handle_sources_distinct, lemma_handle_sources_grow,
    lemma_module_spreads_resolved, lemma_namespace_source_stays,
};
use crate::emitter_rules::{
    distinct_alias, esm_export_items, esm_import_items, export_all_props, export_prop, export_props,
    global_import_items, global_import_stmt, handle_sources, handle_unavailable, import_item,
    import_items, is_spread, lowered_module, namespace_source, registry_stmt, runtime_export_items,
    spreads_resolved, static_default_exports, static_export_alls, static_export_items,
    static_export_specifiers, static_named_export, uses_handle,
};
use crate::error::TransformError;
use crate::es_module_collector::EsModuleCollector;
use crate::import_idents::{
    handles_can_be_named, lemma_with_source_keeps, with_source, ImportIdents,
};
use crate::import_paths::{
    distinct_sources, entries_view, paths_table, remap, table_of, ImportPaths,
};
use crate::syntax::{
    view_opt, views, ExportAll, ExportSpecifier, Expr, ExprView, Ident, ImportDecl, ImportSpecifier,
    Module, ModuleExportName, ModuleItem, ModuleItemView, NamedExport, Prop, Stmt,
};
use crate::utils::{
    const_stmt, decl_var_and_assign_stmt, global_module_api_call, global_module_api_call_expr,
    obj_lit, obj_member_expr, str_lit_expr,
};
use vstd::prelude::*;

verus! {

/// Returns the property by which `export` is registered.
fn export_property(export: &ExportModule) -> (r: Prop)
    ensures
        r@ == export_prop(export@),
{
    match export.module_type {
        ModuleType::Default | ModuleType::DefaultAsNamed => Prop::KeyValue {
            key: String::from_str(DEFAULT_EXPORT_NAME),
            value: export.ident.clone(),
        },
        ModuleType::Named => match renamed(export) {
            Some(renamed_ident) => Prop::KeyValue { key: renamed_ident.sym, value: export.ident.clone() },
            None => Prop::Shorthand(export.ident.clone()),
        },
        ModuleType::NamespaceOrAll => Prop::Spread(export.ident.clone()),
    }
}

/// Returns the name that importers see where it differs from the local
/// one.
fn renamed(export: &ExportModule) -> (r: Option<Ident>)
    ensures
        view_opt(r) == distinct_alias(export@),
{
    match &export.as_ident {
        Some(alias) => if alias.sym != export.ident.sym {
            Some(alias.clone())
        } else {
            None
        },
        None => None,
    }
}

/// Returns the source module whose namespace `imports` bind to `ident`.
pub fn find_namespace_source(imports: &Vec<ImportModule>, ident: &Ident) -> (r: Option<String>)
    ensures
        view_opt(r) == namespace_source(views(imports@), ident@),
{
    let ghost bindings = views(imports@);
    let mut i: usize = 0;
    while i < imports.len()
        invariant
            i <= imports.len(),
            bindings == views(imports@),
            namespace_source(bindings.take(i as int), ident@) is None,
        decreases imports.len() - i,
    {
        assert(bindings.take(i + 1).drop_last() =~= bindings.take(i as int));
        assert(bindings.take(i + 1).last() == imports@[i as int]@);
        let is_namespace = match imports[i].module_type {
            ModuleType::NamespaceOrAll => true,
            _ => false,
        };
        if is_namespace && imports[i].ident.same_binding(ident) {
            let found = imports[i].module_src.clone();
            proof {
                lemma_namespace_source_stays(bindings, i as int + 1, ident@);
            }
            return Some(found);
        }
        i += 1;
    }
    assert(bindings.take(i as int) =~= bindings);
    None
}

/// The lowering of one module, as configured: the name under which the
/// module registers, whether module syntax is lowered to calls of the
/// registry or kept, and the table of paths.
pub struct GlobalEsmModule {
    pub module_name: String,
    pub runtime_module: bool,
    pub import_paths: Option<ImportPaths>,
}

impl GlobalEsmModule {
    /// The table of paths as a mapping; empty where there is no table.
    pub open spec fn table(&self) -> Map<Seq<char>, Seq<char>> {
        paths_table(self.import_paths)
    }

    /// The lowering of the module `module_name`.
    pub fn default(module_name: String, runtime_module: bool, import_paths: Option<ImportPaths>) -> (r: Self)
        ensures
            r.module_name == module_name,
            r.runtime_module == runtime_module,
            r.import_paths == import_paths,
    {
        GlobalEsmModule { module_name, runtime_module, import_paths }
    }

    /// Returns the path at which the code of `module_src` is found.
    pub fn to_actual_path(&self, module_src: String) -> (r: String)
        ensures
            r@ == remap(self.table(), module_src@),
    {
        match &self.import_paths {
            Some(import_paths) => import_paths.to_actual_path(module_src),
            None => module_src,
        }
    }

    /// Returns `const ident = registry.import("path");`, where
    /// `path` is the one at which the code of `module_src` is found.
    fn get_global_import_stmt(&self, ident: Ident, module_src: &String) -> (r: Stmt)
        ensures
            r@ == const_stmt(
                ident@,
                global_module_api_call(
                    MODULE_IMPORT_METHOD_NAME@,
                    seq![ExprView::Str(remap(self.table(), module_src@))],
                ),
            ),
    {
        let mut args: Vec<Expr> = Vec::new();
        args.push(str_lit_expr(self.to_actual_path(module_src.clone())));
        assert(views(args@) =~= seq![ExprView::Str(remap(self.table(), module_src@))]);
        decl_var_and_assign_stmt(ident, global_module_api_call_expr(MODULE_IMPORT_METHOD_NAME, args))
    }

    /// Returns what binds `ident` to the default export of `module_src`:
    /// `const ident = handle.default;` or `import ident from "module_src";`.
    fn create_default_import_stmt(
        &self,
        import_idents: &mut ImportIdents,
        module_src: &String,
        ident: &Ident,
    ) -> (r: Result<ModuleItem, TransformError>)
        requires
            old(import_idents).wf(),
        ensures
            final(import_idents).wf(),
            match r {
                Ok(item) => {
                    &&& !self.runtime_module || old(import_idents).sources().contains(module_src@)
                        || handles_can_be_named()
                    &&& final(import_idents).sources() == if self.runtime_module {
                        with_source(old(import_idents).sources(), module_src@)
                    } else {
                        old(import_idents).sources()
                    }
                    &&& item@ == import_item(
                        ImportModuleView {
                            ident: ident@,
                            imported: None,
                            module_src: module_src@,
                            module_type: ModuleType::Default,
                        },
                        final(import_idents).sources(),
                        self.table(),
                        self.runtime_module,
                    )
                },
                Err(e) => {
                    &&& e == TransformError::InternalInvariantViolation
                    &&& self.runtime_module
                    &&& !old(import_idents).sources().contains(module_src@)
                    &&& !handles_can_be_named()
                    &&& final(import_idents).sources() == old(import_idents).sources()
                },
            },
    {
        if self.runtime_module {
            match import_idents.get_module_ident(module_src) {
                Ok(module_ident) => Ok(
                    ModuleItem::Stmt(
                        decl_var_and_assign_stmt(
                            ident.clone(),
                            obj_member_expr(Expr::Ident(module_ident), String::from_str(DEFAULT_EXPORT_NAME)),
                        ),
                    ),
                ),
                Err(e) => Err(e),
            }
        } else {
            let mut specifiers: Vec<ImportSpecifier> = Vec::new();
            let specifier = ImportSpecifier::Default { local: ident.clone() };
            specifiers.push(specifier);
            assert(views(specifiers@) =~= seq![specifier@]);
            Ok(
                ModuleItem::Import(
                    ImportDecl { specifiers, src: module_src.clone(), type_only: false, node: None },
                ),
            )
        }
    }

    /// Returns what binds `ident` to the export `imported` of
    /// `module_src`, or to the export `ident` where `imported` is absent:
    /// `const ident = handle.imported;` or
    /// `import { imported as ident } from "module_src";`.
    fn create_named_import_stmt(
        &self,
        import_idents: &mut ImportIdents,
        module_src: &String,
        ident: &Ident,
        imported: &Option<Ident>,
    ) -> (r: Result<ModuleItem, TransformError>)
        requires
            old(import_idents).wf(),
        ensures
            final(import_idents).wf(),
            match r {
                Ok(item) => {
                    &&& !self.runtime_module || old(import_idents).sources().contains(module_src@)
                        || handles_can_be_named()
                    &&& final(import_idents).sources() == if self.runtime_module {
                        with_source(old(import_idents).sources(), module_src@)
                    } else {
                        old(import_idents).sources()
                    }
                    &&& item@ == import_item(
                        ImportModuleView {
                            ident: ident@,
                            imported: view_opt(*imported),
                            module_src: module_src@,
                            module_type: ModuleType::Named,
                        },
                        final(import_idents).sources(),
                        self.table(),
                        self.runtime_module,
                    )
                },
                Err(e) => {
                    &&& e == TransformError::InternalInvariantViolation
                    &&& self.runtime_module
                    &&& !old(import_idents).sources().contains(module_src@)
                    &&& !handles_can_be_named()
                    &&& final(import_idents).sources() == old(import_idents).sources()
                },
            },
    {
        if self.runtime_module {
            match import_idents.get_module_ident(module_src) {
                Ok(module_ident) => {
                    let name = match imported {
                        Some(imported_ident) => imported_ident.sym.clone(),
                        None => ident.sym.clone(),
                    };
                    Ok(
                        ModuleItem::Stmt(
                            decl_var_and_assign_stmt(
                                ident.clone(),
                                obj_member_expr(Expr::Ident(module_ident), name),
                            ),
                        ),
                    )
                },
                Err(e) => Err(e),
            }
        } else {
            let mut specifiers: Vec<ImportSpecifier> = Vec::new();
            let specifier = ImportSpecifier::Named {
                local: ident.clone(),
                imported: match imported {
                    Some(imported_ident) => Some(ModuleExportName::Ident(imported_ident.clone())),
                    None => None,
                },
                is_type_only: false,
            };
            specifiers.push(specifier);
            assert(views(specifiers@) =~= seq![specifier@]);
            Ok(
                ModuleItem::Import(
                    ImportDecl { specifiers, src: module_src.clone(), type_only: false, node: None },
                ),
            )
        }
    }

    /// Returns what binds `ident` to the namespace of `module_src`:
    /// `const ident = registry.importAll("path");` or
    /// `import * as ident from "module_src";`.
    fn create_namespace_import_stmt(&self, module_src: &String, ident: &Ident) -> (r: ModuleItem)
        ensures
            r@ == import_item(
                ImportModuleView {
                    ident: ident@,
                    imported: None,
                    module_src: module_src@,
                    module_type: ModuleType::NamespaceOrAll,
                },
                Seq::empty(),
                self.table(),
                self.runtime_module,
            ),
    {
        if self.runtime_module {
            let mut args: Vec<Expr> = Vec::new();
            args.push(str_lit_expr(self.to_actual_path(module_src.clone())));
            assert(views(args@) =~= seq![ExprView::Str(remap(self.table(), module_src@))]);
            ModuleItem::Stmt(
                decl_var_and_assign_stmt(
                    ident.clone(),
                    global_module_api_call_expr(MODULE_IMPORT_WILDCARD_METHOD_NAME, args),
                ),
            )
        } else {
            let mut specifiers: Vec<ImportSpecifier> = Vec::new();
            let specifier = ImportSpecifier::Namespace { local: ident.clone() };
            specifiers.push(specifier);
            assert(views(specifiers@) =~= seq![specifier@]);
            ModuleItem::Import(
                ImportDecl { specifiers, src: module_src.clone(), type_only: false, node: None },
            )
        }
    }

    /// Returns what stands before the body of a module with these
    /// imports.
    ///
    /// Fails where module syntax is lowered, a handle has to be made, and
    /// the pattern by which handles are named does not compile, and only
    /// there.
    pub fn convert_esm_import(&self, imports: &Vec<ImportModule>) -> (r: Result<
        Vec<ModuleItem>,
        TransformError,
    >)
        ensures
            match r {
                Ok(items) => {
                    &&& !handle_unavailable(views(imports@), self.runtime_module)
                    &&& views(items@) == esm_import_items(
                        views(imports@),
                        self.table(),
                        self.runtime_module,
                    )
                },
                Err(e) => {
                    &&& e == TransformError::InternalInvariantViolation
                    &&& handle_unavailable(views(imports@), self.runtime_module)
                },
            },
    {
        let ghost bindings = views(imports@);
        let ghost table = self.table();
        let runtime_module = self.runtime_module;
        let mut import_idents = ImportIdents::new();
        let mut stmts: Vec<ModuleItem> = Vec::new();
        let mut i: usize = 0;
        while i < imports.len()
            invariant
                i <= imports.len(),
                bindings == views(imports@),
                table == self.table(),
                runtime_module == self.runtime_module,
                import_idents.wf(),
                import_idents.sources().len() > 0 ==> handles_can_be_named(),
                runtime_module ==> import_idents.sources() == handle_sources(bindings.take(i as int)),
                !runtime_module ==> import_idents.sources() == Seq::<Seq<char>>::empty(),
                stmts@.len() == i,
                forall|j: int|
                    0 <= j < i ==> (#[trigger] stmts@[j])@ == import_item(
                        bindings[j],
                        import_idents.sources(),
                        table,
                        runtime_module,
                    ),
            decreases imports.len() - i,
        {
            let ghost sources = import_idents.sources();
            let ghost binding = bindings[i as int];
            assert(binding == imports@[i as int]@);
            assert(bindings.take(i + 1).drop_last() =~= bindings.take(i as int));
            assert(bindings.take(i + 1).last() == binding);
            let import = &imports[i];
            let created = match import.module_type {
                ModuleType::Default | ModuleType::DefaultAsNamed => self.create_default_import_stmt(
                    &mut import_idents,
                    &import.module_src,
                    &import.ident,
                ),
                ModuleType::Named => self.create_named_import_stmt(
                    &mut import_idents,
                    &import.module_src,
                    &import.ident,
                    &import.imported,
                ),
                ModuleType::NamespaceOrAll => Ok(
                    self.create_namespace_import_stmt(&import.module_src, &import.ident),
                ),
            };
            match created {
                Ok(stmt) => {
                    proof {
                        assert(stmt@ == import_item(binding, import_idents.sources(), table, runtime_module));
                        if runtime_module {
                            lemma_handle_sources_distinct(bindings.take(i as int));
                            assert forall|j: int| 0 <= j < i implies (#[trigger] stmts@[j])@ == import_item(
                                bindings[j],
                                import_idents.sources(),
                                table,
                                runtime_module,
                            ) by {
                                if uses_handle(bindings[j]) {
                                    assert(bindings.take(i as int)[j] == bindings[j]);
                                    lemma_handle_sources_complete(bindings.take(i as int), j);
                                    if uses_handle(binding) {
                                        lemma_with_source_keeps(
                                            sources,
                                            binding.module_src,
                                            bindings[j].module_src,
                                        );
                                    }
                                }
                            }
                        }
                    }
                    stmts.push(stmt);
                },
                Err(e) => {
                    proof {
                        lemma_handle_sources_grow(bindings, i as int + 1, bindings.len() as int);
                        assert(bindings.take(bindings.len() as int) =~= bindings);
                    }
                    return Err(e);
                },
            }
            i += 1;
        }
        assert(bindings.take(i as int) =~= bindings);
        if !runtime_module {
            assert(views(stmts@) =~= import_items(bindings, Seq::empty(), table, false));
            return Ok(stmts);
        }
        let ghost sources = import_idents.sources();
        let mut items: Vec<ModuleItem> = Vec::new();
        let mut k: usize = 0;
        while k < import_idents.len()
            invariant
                k <= sources.len(),
                import_idents.wf(),
                sources == import_idents.sources(),
                table == self.table(),
                items@.len() == k,
                forall|j: int|
                    0 <= j < k ==> (#[trigger] items@[j])@ == ModuleItemView::Stmt(
                        global_import_stmt(j, sources[j], table),
                    ),
            decreases sources.len() - k,
        {
            let stmt = self.get_global_import_stmt(import_idents.ident(k), import_idents.module_src(k));
            items.push(ModuleItem::Stmt(stmt));
            k += 1;
        }
        let ghost handles = items@;
        let ghost bound = stmts@;
        items.append(&mut stmts);
        assert(views(items@) =~= global_import_items(sources, table) + import_items(
            bindings,
            sources,
            table,
            true,
        )) by {
            assert(items@ =~= handles + bound);
        }
        Ok(items)
    }

    /// Returns `registry.method("module_name");`.
    fn get_module_name_call_stmt(&self, method: &str) -> (r: Stmt)
        ensures
            ModuleItemView::Stmt(r@) == registry_stmt(method@, seq![ExprView::Str(self.module_name@)]),
    {
        let mut args: Vec<Expr> = Vec::new();
        args.push(str_lit_expr(self.module_name.clone()));
        assert(views(args@) =~= seq![ExprView::Str(self.module_name@)]);
        Stmt::Expr(global_module_api_call_expr(method, args))
    }

    /// Returns `registry.init("module_name");`, which opens the
    /// registration of the module.
    fn get_init_global_export_stmt(&self) -> (r: Stmt)
        ensures
            ModuleItemView::Stmt(r@) == registry_stmt(
                MODULE_INIT_METHOD_NAME@,
                seq![ExprView::Str(self.module_name@)],
            ),
    {
        self.get_module_name_call_stmt(MODULE_INIT_METHOD_NAME)
    }

    /// Returns `registry.reset("module_name");`, which clears what
    /// the module registered before.
    fn get_reset_global_export_stmt(&self) -> (r: Stmt)
        ensures
            ModuleItemView::Stmt(r@) == registry_stmt(
                MODULE_RESET_METHOD_NAME@,
                seq![ExprView::Str(self.module_name@)],
            ),
    {
        self.get_module_name_call_stmt(MODULE_RESET_METHOD_NAME)
    }

    /// Returns `registry.method("module_name", { props });`.
    fn get_export_call_stmt(&self, method: &str, props: Vec<Prop>) -> (r: ModuleItem)
        ensures
            r@ == registry_stmt(
                method@,
                seq![ExprView::Str(self.module_name@), ExprView::Object(views(props@))],
            ),
    {
        let ghost shown = views(props@);
        let mut args: Vec<Expr> = Vec::new();
        args.push(str_lit_expr(self.module_name.clone()));
        args.push(obj_lit(props));
        assert(views(args@) =~= seq![ExprView::Str(self.module_name@), ExprView::Object(shown)]);
        ModuleItem::Stmt(Stmt::Expr(global_module_api_call_expr(method, args)))
    }

    /// Returns the registration of a module with these exports.
    fn convert_runtime_export(&self, exports: &Vec<ExportModule>) -> (r: Vec<ModuleItem>)
        ensures
            views(r@) == runtime_export_items(views(exports@), self.module_name@),
    {
        let ghost bindings = views(exports@);
        let mut stmts: Vec<ModuleItem> = Vec::new();
        if exports.len() == 0 {
            stmts.push(ModuleItem::Stmt(self.get_reset_global_export_stmt()));
            assert(views(stmts@) =~= runtime_export_items(bindings, self.module_name@));
            return stmts;
        }
        let mut named: Vec<Prop> = Vec::new();
        let mut spread: Vec<Prop> = Vec::new();
        let mut i: usize = 0;
        while i < exports.len()
            invariant
                i <= exports.len(),
                bindings == views(exports@),
                views(named@) == export_props(bindings.take(i as int)),
                views(spread@) == export_all_props(bindings.take(i as int)),
            decreases exports.len() - i,
        {
            assert(bindings.take(i + 1).drop_last() =~= bindings.take(i as int));
            assert(bindings.take(i + 1).last() == exports@[i as int]@);
            let prop = export_property(&exports[i]);
            match exports[i].module_type {
                ModuleType::NamespaceOrAll => {
                    let ghost before = spread@;
                    spread.push(prop);
                    assert(views(spread@) =~= views(before).push(prop@));
                },
                _ => {
                    let ghost before = named@;
                    named.push(prop);
                    assert(views(named@) =~= views(before).push(prop@));
                },
            }
            i += 1;
        }
        assert(bindings.take(i as int) =~= bindings);
        stmts.push(ModuleItem::Stmt(self.get_init_global_export_stmt()));
        if named.len() > 0 {
            stmts.push(self.get_export_call_stmt(MODULE_EXPORT_METHOD_NAME, named));
        }
        if spread.len() > 0 {
            stmts.push(self.get_export_call_stmt(MODULE_EXPORT_ALL_METHOD_NAME, spread));
        }
        assert(views(stmts@) =~= runtime_export_items(bindings, self.module_name@));
        stmts
    }

    /// Returns the export declarations of a module with these exports.
    ///
    /// Fails if a namespace is handed on that `imports` do not bind.
    fn convert_static_export(&self, exports: &Vec<ExportModule>, imports: &Vec<ImportModule>) -> (r: Result<
        Vec<ModuleItem>,
        TransformError,
    >)
        ensures
            match r {
                Ok(items) => {
                    &&& spreads_resolved(views(exports@), views(imports@))
                    &&& views(items@) == static_export_items(views(exports@), views(imports@))
                },
                Err(e) => {
                    &&& e == TransformError::InternalInvariantViolation
                    &&& !spreads_resolved(views(exports@), views(imports@))
                },
            },
    {
        let ghost bindings = views(exports@);
        let ghost imported = views(imports@);
        let mut defaults: Vec<ModuleItem> = Vec::new();
        let mut specifiers: Vec<ExportSpecifier> = Vec::new();
        let mut export_alls: Vec<ModuleItem> = Vec::new();
        let mut i: usize = 0;
        while i < exports.len()
            invariant
                i <= exports.len(),
                bindings == views(exports@),
                imported == views(imports@),
                views(defaults@) == static_default_exports(bindings.take(i as int)),
                views(specifiers@) == static_export_specifiers(bindings.take(i as int)),
                views(export_alls@) == static_export_alls(bindings.take(i as int), imported),
                forall|k: int|
                    0 <= k < i && is_spread(#[trigger] bindings[k]) ==> namespace_source(
                        imported,
                        bindings[k].ident,
                    ) is Some,
            decreases exports.len() - i,
        {
            assert(bindings.take(i + 1).drop_last() =~= bindings.take(i as int));
            assert(bindings.take(i + 1).last() == exports@[i as int]@);
            assert(bindings[i as int] == exports@[i as int]@);
            let export = &exports[i];
            match export.module_type {
                ModuleType::Default | ModuleType::DefaultAsNamed => {
                    let item = ModuleItem::ExportDefaultExpr(Expr::Ident(export.ident.clone()));
                    let ghost before = defaults@;
                    defaults.push(item);
                    assert(views(defaults@) =~= views(before).push(item@));
                },
                ModuleType::Named => {
                    let specifier = ExportSpecifier::Named {
                        orig: ModuleExportName::Ident(export.ident.clone()),
                        exported: match renamed(export) {
                            Some(renamed_ident) => Some(ModuleExportName::Ident(renamed_ident)),
                            None => None,
                        },
                        is_type_only: false,
                    };
                    let ghost before = specifiers@;
                    specifiers.push(specifier);
                    assert(views(specifiers@) =~= views(before).push(specifier@));
                },
                ModuleType::NamespaceOrAll => {
                    match find_namespace_source(imports, &export.ident) {
                        Some(src) => {
                            let item = ModuleItem::ExportAll(ExportAll { src, type_only: false, node: None });
                            let ghost before = export_alls@;
                            export_alls.push(item);
                            assert(views(export_alls@) =~= views(before).push(item@));
                        },
                        None => {
                            assert(is_spread(bindings[i as int]));
                            return Err(TransformError::InternalInvariantViolation);
                        },
                    }
                },
            }
            i += 1;
        }
        assert(bindings.take(i as int) =~= bindings);
        let mut items = defaults;
        if specifiers.len() > 0 {
            let ghost shown = views(specifiers@);
            let ghost before = items@;
            let item = ModuleItem::ExportNamed(NamedExport { specifiers, src: None, type_only: false, node: None });
            items.push(item);
            assert(views(items@) =~= views(before) + seq![static_named_export(shown)]);
        }
        let ghost before = items@;
        let ghost behind = export_alls@;
        items.append(&mut export_alls);
        assert(items@ =~= before + behind);
        assert(views(items@) =~= static_export_items(bindings, imported));
        Ok(items)
    }

    /// Returns what stands behind the body of a module with these exports
    /// and these imports.
    ///
    /// Fails only where module syntax is kept and a namespace is handed
    /// on that `imports` do not bind.
    pub fn convert_esm_export(&self, exports: &Vec<ExportModule>, imports: &Vec<ImportModule>) -> (r: Result<
        Vec<ModuleItem>,
        TransformError,
    >)
        ensures
            match r {
                Ok(items) => {
                    &&& self.runtime_module || spreads_resolved(views(exports@), views(imports@))
                    &&& views(items@) == esm_export_items(
                        views(exports@),
                        views(imports@),
                        self.module_name@,
                        self.runtime_module,
                    )
                },
                Err(e) => {
                    &&& e == TransformError::InternalInvariantViolation
                    &&& !self.runtime_module
                    &&& !spreads_resolved(views(exports@), views(imports@))
                },
            },
    {
        if self.runtime_module {
            Ok(self.convert_runtime_export(exports))
        } else {
            self.convert_static_export(exports, imports)
        }
    }

    /// Lowers `module`: collects its bindings, rewrites its body, and puts
    /// what binds the imports before the body and what registers or
    /// declares the exports behind it.
    ///
    /// Fails if the module holds an import or export specifier of a shape
    /// that the collector does not lower, or if a handle has to be made
    /// and the pattern by which handles are named does not compile, and
    /// in no other case. A module that imports nothing but namespaces,
    /// and any module where module syntax is kept, needs no handle.
    pub fn visit_mut_module(&self, module: Module) -> (r: Result<Module, TransformError>)
        ensures
            match r {
                Ok(lowered) => {
                    &&& module_supported(module@)
                    &&& !handle_unavailable(module_imports(module@), self.runtime_module)
                    &&& lowered@ == lowered_module(
                        module@,
                        self.module_name@,
                        self.table(),
                        self.runtime_module,
                    )
                },
                Err(TransformError::UnsupportedSyntax { item }) => is_first_unsupported(module@, item as int),
                Err(TransformError::InternalInvariantViolation) => {
                    &&& module_supported(module@)
                    &&& handle_unavailable(module_imports(module@), self.runtime_module)
                },
                Err(TransformError::Configuration) => false,
            },
    {
        let ghost body = module@;
        let mut module = module;
        let mut collector = EsModuleCollector::default(self.runtime_module);
        match collector.visit_mut_module(&mut module) {
            Ok(()) => {},
            Err(e) => {
                return Err(e);
            },
        }
        assert(views(collector.imports@) =~= module_imports(body));
        assert(views(collector.exports@) =~= module_exports(body));
        let mut items = match self.convert_esm_import(&collector.imports) {
            Ok(items) => items,
            Err(e) => {
                return Err(e);
            },
        };
        proof {
            lemma_module_spreads_resolved(body);
        }
        let mut exports = match self.convert_esm_export(&collector.exports, &collector.imports) {
            Ok(exports) => exports,
            Err(e) => {
                return Err(e);
            },
        };
        let ghost before = items@;
        let ghost rewritten = module.body@;
        let ghost behind = exports@;
        items.append(&mut module.body);
        items.append(&mut exports);
        assert(items@ =~= before + rewritten + behind);
        assert(views(items@) =~= views(before) + views(rewritten) + views(behind));
        Ok(Module { body: items })
    }
}

/// Makes the lowering of the module `module_name`, with the table of
/// paths that `import_paths` lists, if it lists any.
///
/// Fails if `import_paths` has two entries for one source module.
pub fn global_esm(
    module_name: String,
    runtime_module: bool,
    import_paths: Option<Vec<(String, String)>>,
) -> (r: Result<GlobalEsmModule, TransformError>)
    ensures
        match r {
            Ok(lowering) => {
                &&& lowering.module_name == module_name
                &&& lowering.runtime_module == runtime_module
                &&& match import_paths {
                    Some(entries) => {
                        &&& distinct_sources(entries_view(entries@))
                        &&& lowering.table() == table_of(entries_view(entries@))
                    },
                    None => lowering.import_paths is None,
                }
            },
            Err(e) => {
                &&& e == TransformError::Configuration
                &&& import_paths matches Some(entries)
                &&& !distinct_sources(entries_view(entries@))
            },
        },
{
    let import_paths = match import_paths {
        Some(entries) => match ImportPaths::new(entries) {
            Ok(paths) => Some(paths),
            Err(e) => {
                return Err(e);
            },
        },
        None => None,
    };
    Ok(GlobalEsmModule::default(module_name, runtime_module, import_paths))
}

} // verus!

//! The binding collector: one pass over a module body that lists what the
//! module imports and exports and strips, or keeps, the declarations that
//! say so.

pub use crate::bindings::{ExportModule, ImportModule, ModuleType};
use crate::bindings::{export_default, export_spread, import_namespace};
use crate::collector_rules::{
    declarations_before, default_decl_ident, default_decl_stmt, default_export_item,
    default_export_items, export_decl_exports, export_default_ident, exports_before,
    import_bindings, import_decl_supported, import_specifier_supported, imports_before,
    is_first_unsupported, is_namespace_re_export, item_exports, item_imports, item_rewritten,
    item_supported, kept_if_static, local_export_bindings, local_export_specifier_supported,
    module_exports, module_imports, module_rewritten, module_supported, name_ident,
    named_export_exports, named_export_imports, named_export_supported, re_export_all_ident,
    re_export_exports, re_export_imports, re_export_specifier_supported, rewritten_before,
    synthesized,
};
use crate::constants::{
    DEFAULT_EXPORT_NAME, EXPORT_DEFAULT_IDENT, RE_EXPORT_ALL_IDENT, RE_EXPORT_DEFAULT_IDENT,
    RE_EXPORT_IDENT,
};
use crate::error::TransformError;
use crate::syntax::{
    view_opt, views, Decl, DefaultDecl, ExportAll, ExportSpecifier, Expr, Ident, ImportDecl,
    ImportSpecifier, Module, ModuleExportName, ModuleExportNameView, ModuleItem, ModuleItemView,
    NamedExport, Origin, Span, Stmt, StmtView,
};
use crate::utils::{const_stmt, decl_var_and_assign_stmt};
use vstd::prelude::*;

verus! {

/// Returns the identifier that the collector introduces for the `spec`-th
/// specifier of the `decl`-th module declaration.
fn private_ident(sym: String, span: Span, decl: usize, spec: usize) -> (r: Ident)
    ensures
        r@ == synthesized(sym@, span, decl as nat, spec as nat),
{
    Ident { sym, span, origin: Origin::Synthesized { decl, spec } }
}

/// Returns the private name of the default export that is the `decl`-th
/// declaration of its module, and the statement that binds it:
/// `const __export_default = expr;`.
fn get_export_decl_stmt_with_private_ident(expr: Expr, decl: usize) -> (r: (Ident, Stmt))
    ensures
        r.0@ == export_default_ident(decl as nat),
        r.1@ == const_stmt(export_default_ident(decl as nat), expr@),
{
    let export_ident = private_ident(String::from_str(EXPORT_DEFAULT_IDENT), Span::dummy(), decl, 0);
    let stmt = decl_var_and_assign_stmt(export_ident.clone(), expr);
    (export_ident, stmt)
}

/// Returns `export default ident;`.
fn get_default_export_stmt(ident: Ident) -> (r: ModuleItem)
    ensures
        r@ == default_export_item(ident@),
{
    ModuleItem::ExportDefaultExpr(Expr::Ident(ident))
}

/// Returns the identifier that `name` is, where it is one.
fn name_to_ident(name: &Option<ModuleExportName>) -> (r: Option<Ident>)
    ensures
        view_opt(r) == name_ident(view_opt(*name)),
{
    match name {
        Some(ModuleExportName::Ident(id)) => Some(id.clone()),
        _ => None,
    }
}

/// The collector. It gathers the bindings of the modules that it visits
/// in `imports` and `exports`, each in source order.
pub struct EsModuleCollector {
    pub imports: Vec<ImportModule>,
    pub exports: Vec<ExportModule>,
    /// Whether module syntax is stripped from the modules visited (`true`)
    /// or kept (`false`).
    pub runtime_module: bool,
}

impl EsModuleCollector {
    /// A collector that has seen nothing yet.
    pub fn default(runtime_module: bool) -> (r: Self)
        ensures
            r.imports@.len() == 0,
            r.exports@.len() == 0,
            r.runtime_module == runtime_module,
    {
        EsModuleCollector { runtime_module, imports: Vec::new(), exports: Vec::new() }
    }

    /// Adds the bindings of `import .. from "src"`.
    fn collect_import(&mut self, import_decl: &ImportDecl)
        ensures
            views(final(self).imports@) == views(old(self).imports@) + import_bindings(import_decl@),
            final(self).exports == old(self).exports,
            final(self).runtime_module == old(self).runtime_module,
    {
        let mut k: usize = 0;
        while k < import_decl.specifiers.len()
            invariant
                k <= import_decl.specifiers.len(),
                views(self.imports@) == views(old(self).imports@) + import_bindings(import_decl@).take(
                    k as int,
                ),
                self.exports == old(self).exports,
                self.runtime_module == old(self).runtime_module,
            decreases import_decl.specifiers.len() - k,
        {
            let module_src = import_decl.src.clone();
            let binding = match &import_decl.specifiers[k] {
                ImportSpecifier::Default { local } => ImportModule::default(local.clone(), module_src),
                ImportSpecifier::Named { local, imported, .. } => ImportModule::named(
                    local.clone(),
                    module_src,
                    name_to_ident(imported),
                ),
                ImportSpecifier::Namespace { local } => ImportModule::namespace(local.clone(), module_src),
            };
            assert(binding@ == import_bindings(import_decl@)[k as int]);
            let ghost before = self.imports@;
            self.imports.push(binding);
            assert(views(self.imports@) =~= views(before).push(binding@));
            assert(import_bindings(import_decl@).take(k + 1) =~= import_bindings(import_decl@).take(
                k as int,
            ).push(binding@));
            k += 1;
        }
        assert(import_bindings(import_decl@).take(k as int) =~= import_bindings(import_decl@));
    }

    /// Adds the bindings of `export { a, b as c }`.
    fn collect_named_export_specifiers(&mut self, specifiers: &Vec<ExportSpecifier>)
        ensures
            views(final(self).exports@) == views(old(self).exports@) + local_export_bindings(
                views(specifiers@),
            ),
            final(self).imports == old(self).imports,
            final(self).runtime_module == old(self).runtime_module,
    {
        let ghost specs = views(specifiers@);
        let mut k: usize = 0;
        while k < specifiers.len()
            invariant
                k <= specifiers.len(),
                specs == views(specifiers@),
                views(self.exports@) == views(old(self).exports@) + local_export_bindings(specs.take(k as int)),
                self.imports == old(self).imports,
                self.runtime_module == old(self).runtime_module,
            decreases specifiers.len() - k,
        {
            assert(specs.take(k + 1).drop_last() =~= specs.take(k as int));
            assert(specs.take(k + 1).last() == specifiers@[k as int]@);
            match &specifiers[k] {
                ExportSpecifier::Named { orig: ModuleExportName::Ident(orig_ident), exported, is_type_only } => {
                    if !*is_type_only {
                        let binding = ExportModule::named(orig_ident.clone(), name_to_ident(exported));
                        let ghost before = self.exports@;
                        self.exports.push(binding);
                        assert(views(self.exports@) =~= views(before).push(binding@));
                    }
                },
                _ => {},
            }
            k += 1;
        }
        assert(specs.take(k as int) =~= specs);
    }

    /// Adds the bindings of `export { a, default as d } from "src"`, the
    /// `decl`-th declaration of its module.
    fn collect_named_re_export_specifiers(
        &mut self,
        specifiers: &Vec<ExportSpecifier>,
        src: &String,
        decl: usize,
    )
        requires
            forall|k: int|
                0 <= k < specifiers@.len() ==> re_export_specifier_supported(#[trigger] specifiers@[k]@),
        ensures
            views(final(self).imports@) == views(old(self).imports@) + re_export_imports(
                views(specifiers@),
                src@,
                decl as nat,
            ),
            views(final(self).exports@) == views(old(self).exports@) + re_export_exports(
                views(specifiers@),
                decl as nat,
            ),
            final(self).runtime_module == old(self).runtime_module,
    {
        let ghost specs = views(specifiers@);
        let ghost all_imports = re_export_imports(specs, src@, decl as nat);
        let ghost all_exports = re_export_exports(specs, decl as nat);
        let mut k: usize = 0;
        while k < specifiers.len()
            invariant
                k <= specifiers.len(),
                specs == views(specifiers@),
                all_imports == re_export_imports(specs, src@, decl as nat),
                all_exports == re_export_exports(specs, decl as nat),
                forall|j: int|
                    0 <= j < specifiers@.len() ==> re_export_specifier_supported(#[trigger] specifiers@[j]@),
                views(self.imports@) == views(old(self).imports@) + all_imports.take(k as int),
                views(self.exports@) == views(old(self).exports@) + all_exports.take(k as int),
                self.runtime_module == old(self).runtime_module,
            decreases specifiers.len() - k,
        {
            assert(re_export_specifier_supported(specifiers@[k as int]@));
            assert(specs[k as int] == specifiers@[k as int]@);
            match &specifiers[k] {
                ExportSpecifier::Named { orig: ModuleExportName::Ident(orig_ident), exported, .. } => {
                    let is_default = is_default_name(orig_ident);
                    let target_ident = if is_default {
                        private_ident(String::from_str(RE_EXPORT_DEFAULT_IDENT), Span::dummy(), decl, k)
                    } else {
                        private_ident(orig_ident.sym.clone(), orig_ident.span, decl, k)
                    };
                    let import = ImportModule {
                        ident: target_ident.clone(),
                        imported: Some(orig_ident.clone()),
                        module_src: src.clone(),
                        module_type: if is_default {
                            ModuleType::DefaultAsNamed
                        } else {
                            ModuleType::Named
                        },
                    };
                    let as_ident = match name_to_ident(exported) {
                        Some(alias) => alias,
                        None => orig_ident.clone(),
                    };
                    let export = ExportModule::named(target_ident, Some(as_ident));
                    assert(import@ == all_imports[k as int]);
                    assert(export@ == all_exports[k as int]);
                    let ghost imports_before = self.imports@;
                    let ghost exports_before = self.exports@;
                    self.imports.push(import);
                    self.exports.push(export);
                    assert(views(self.imports@) =~= views(imports_before).push(import@));
                    assert(views(self.exports@) =~= views(exports_before).push(export@));
                },
                _ => {},
            }
            assert(all_imports.take(k + 1) =~= all_imports.take(k as int).push(all_imports[k as int]));
            assert(all_exports.take(k + 1) =~= all_exports.take(k as int).push(all_exports[k as int]));
            k += 1;
        }
        assert(all_imports.take(k as int) =~= all_imports);
        assert(all_exports.take(k as int) =~= all_exports);
    }

    /// Adds the bindings of an `export { .. }` declaration, the `decl`-th
    /// declaration of its module.
    fn collect_named_exports(&mut self, named_export: &NamedExport, decl: usize)
        requires
            named_export_supported(named_export@),
            !named_export.type_only,
        ensures
            views(final(self).imports@) == views(old(self).imports@) + named_export_imports(
                named_export@,
                decl as nat,
            ),
            views(final(self).exports@) == views(old(self).exports@) + named_export_exports(
                named_export@,
                decl as nat,
            ),
            final(self).runtime_module == old(self).runtime_module,
    {
        let ghost n = named_export@;
        match &named_export.src {
            // `export { .. };`
            None => {
                self.collect_named_export_specifiers(&named_export.specifiers);
                assert(views(self.imports@) =~= views(old(self).imports@) + Seq::empty());
            },
            // `export * as name from "src";` or `export { .. } from "src";`
            Some(module_src) => {
                if named_export.specifiers.len() > 0 {
                    assert(n.specifiers[0] == named_export.specifiers@[0]@);
                }
                let namespace = named_export.specifiers.len() > 0 && is_namespace_specifier(
                    &named_export.specifiers[0],
                );
                if namespace {
                    let export_ident = private_ident(String::from_str(RE_EXPORT_IDENT), Span::dummy(), decl, 0);
                    let import = ImportModule::namespace(export_ident.clone(), module_src.clone());
                    let as_ident = match &named_export.specifiers[0] {
                        ExportSpecifier::Namespace { name: ModuleExportName::Ident(module_ident) } => Some(
                            module_ident.clone(),
                        ),
                        _ => None,
                    };
                    let export = ExportModule::named(export_ident, as_ident);
                    let ghost imports_before = self.imports@;
                    let ghost exports_before = self.exports@;
                    self.imports.push(import);
                    self.exports.push(export);
                    assert(views(self.imports@) =~= views(imports_before) + seq![import@]);
                    assert(views(self.exports@) =~= views(exports_before) + seq![export@]);
                } else {
                    assert forall|k: int| 0 <= k < named_export.specifiers@.len() implies re_export_specifier_supported(
                        #[trigger] named_export.specifiers@[k]@,
                    ) by {
                        assert(n.specifiers[k] == named_export.specifiers@[k]@);
                    }
                    self.collect_named_re_export_specifiers(&named_export.specifiers, module_src, decl);
                }
            },
        }
    }

    /// Adds the bindings of `export * from "src"`, the `decl`-th
    /// declaration of its module.
    fn collect_export_all(&mut self, export_all: &ExportAll, decl: usize)
        ensures
            views(final(self).imports@) == views(old(self).imports@) + seq![
                import_namespace(re_export_all_ident(decl as nat), export_all@.src),
            ],
            views(final(self).exports@) == views(old(self).exports@) + seq![
                export_spread(re_export_all_ident(decl as nat), None),
            ],
            final(self).runtime_module == old(self).runtime_module,
    {
        let export_all_ident = private_ident(String::from_str(RE_EXPORT_ALL_IDENT), Span::dummy(), decl, 0);
        let import = ImportModule::namespace(export_all_ident.clone(), export_all.src.clone());
        let export = ExportModule::all(export_all_ident, None);
        let ghost imports_before = self.imports@;
        let ghost exports_before = self.exports@;
        self.imports.push(import);
        self.exports.push(export);
        assert(views(self.imports@) =~= views(imports_before) + seq![import@]);
        assert(views(self.exports@) =~= views(exports_before) + seq![export@]);
    }

    /// Pushes `item` where module syntax is kept; drops it where module
    /// syntax is lowered.
    fn clone_module_decl_if_needed(&self, module_items: &mut Vec<ModuleItem>, item: ModuleItem)
        ensures
            views(final(module_items)@) == views(old(module_items)@) + kept_if_static(
                item@,
                self.runtime_module,
            ),
    {
        if self.runtime_module {
            assert(views(module_items@) =~= views(module_items@) + Seq::empty());
            return ;
        }
        let ghost before = module_items@;
        module_items.push(item);
        assert(views(module_items@) =~= views(before) + seq![item@]);
    }

    /// Lowers `export <decl>`: collects the name that it exports, and
    /// returns the declaration, without `export` where module syntax is
    /// lowered.
    fn convert_export_decl(&mut self, decl: Decl) -> (r: ModuleItem)
        ensures
            views(final(self).exports@) == views(old(self).exports@) + export_decl_exports(decl@),
            final(self).imports == old(self).imports,
            final(self).runtime_module == old(self).runtime_module,
            r@ == if old(self).runtime_module {
                ModuleItemView::Stmt(StmtView::Decl(decl@))
            } else {
                ModuleItemView::ExportDecl(decl@)
            },
    {
        let exported = match &decl {
            Decl::Var { names, .. } => {
                if names.len() > 0 {
                    assert(decl@->Var_names[0] == view_opt(names@[0]));
                    match &names[0] {
                        Some(var_ident) => Some(var_ident.clone()),
                        None => None,
                    }
                } else {
                    None
                }
            },
            Decl::Fn { ident, .. } => Some(ident.clone()),
            Decl::Class { ident, .. } => Some(ident.clone()),
            Decl::Const { name, .. } => Some(name.clone()),
            Decl::Other(_) => None,
        };
        match exported {
            Some(ident) => {
                let binding = ExportModule::named(ident, None);
                let ghost before = self.exports@;
                self.exports.push(binding);
                assert(views(self.exports@) =~= views(before) + seq![binding@]);
            },
            None => {
                assert(views(self.exports@) =~= views(self.exports@) + Seq::empty());
            },
        }
        if self.runtime_module {
            ModuleItem::Stmt(Stmt::Decl(decl))
        } else {
            ModuleItem::ExportDecl(decl)
        }
    }

    /// Returns what stands for a default export in the body: `stmt`, which
    /// binds it to `ident`, and `export default ident;` where module
    /// syntax is kept.
    fn get_default_export_items(&self, stmt: Stmt, ident: Ident) -> (r: Vec<ModuleItem>)
        ensures
            views(r@) == default_export_items(stmt@, ident@, self.runtime_module),
    {
        let mut items: Vec<ModuleItem> = Vec::new();
        items.push(ModuleItem::Stmt(stmt));
        if !self.runtime_module {
            items.push(get_default_export_stmt(ident));
        }
        assert(views(items@) =~= default_export_items(stmt@, ident@, self.runtime_module));
        items
    }

    /// Lowers `export default function ..` or `export default class ..`,
    /// the `decl`-th declaration of its module: collects the export and
    /// returns the declaration that now binds it, under its own name or,
    /// where it has none, under a private one.
    fn convert_export_default_decl(&mut self, export_default_decl: DefaultDecl, decl: usize) -> (r: Vec<
        ModuleItem,
    >)
        ensures
            views(final(self).exports@) == views(old(self).exports@) + item_exports(
                ModuleItemView::ExportDefaultDecl(export_default_decl@),
                decl as nat,
            ),
            final(self).imports == old(self).imports,
            final(self).runtime_module == old(self).runtime_module,
            views(r@) == item_rewritten(
                ModuleItemView::ExportDefaultDecl(export_default_decl@),
                decl as nat,
                old(self).runtime_module,
            ),
    {
        let ghost d = export_default_decl@;
        let (ident, stmt): (Ident, Stmt) = match export_default_decl {
            DefaultDecl::Fn { ident: Some(fn_ident), function } => (
                fn_ident.clone(),
                Stmt::Decl(Decl::Fn { ident: fn_ident, declare: false, function }),
            ),
            DefaultDecl::Class { ident: Some(class_ident), class } => (
                class_ident.clone(),
                Stmt::Decl(Decl::Class { ident: class_ident, declare: false, class }),
            ),
            DefaultDecl::Fn { ident: None, function } => get_export_decl_stmt_with_private_ident(
                Expr::Fn { ident: None, function },
                decl,
            ),
            DefaultDecl::Class { ident: None, class } => get_export_decl_stmt_with_private_ident(
                Expr::Class { ident: None, class },
                decl,
            ),
            DefaultDecl::Other(node) => {
                let mut items: Vec<ModuleItem> = Vec::new();
                items.push(ModuleItem::ExportDefaultDecl(DefaultDecl::Other(node)));
                assert(views(items@) =~= seq![ModuleItemView::ExportDefaultDecl(d)]);
                assert(views(self.exports@) =~= views(self.exports@) + Seq::empty());
                return items;
            },
        };
        assert(default_decl_ident(d, decl as nat) == Some(ident@));
        assert(stmt@ == default_decl_stmt(d, decl as nat));
        let binding = ExportModule::default(ident.clone());
        let ghost before = self.exports@;
        self.exports.push(binding);
        assert(views(self.exports@) =~= views(before) + seq![binding@]);
        self.get_default_export_items(stmt, ident)
    }

    /// Lowers `export default <expr>;`, the `decl`-th declaration of its
    /// module: binds the value to a private name, and collects the export
    /// of that name.
    fn convert_export_default_expr(&mut self, export_default_expr: Expr, decl: usize) -> (r: Vec<ModuleItem>)
        ensures
            views(final(self).exports@) == views(old(self).exports@) + seq![
                export_default(export_default_ident(decl as nat)),
            ],
            final(self).imports == old(self).imports,
            final(self).runtime_module == old(self).runtime_module,
            views(r@) == item_rewritten(
                ModuleItemView::ExportDefaultExpr(export_default_expr@),
                decl as nat,
                old(self).runtime_module,
            ),
    {
        let (ident, stmt) = get_export_decl_stmt_with_private_ident(export_default_expr, decl);
        let binding = ExportModule::default(ident.clone());
        let ghost before = self.exports@;
        self.exports.push(binding);
        assert(views(self.exports@) =~= views(before) + seq![binding@]);
        self.get_default_export_items(stmt, ident)
    }

    /// Passes over `module`: adds its bindings to `imports` and `exports`,
    /// in source order, and rewrites its body.
    ///
    /// Fails, and changes nothing, if the module holds an import or export
    /// specifier of a shape that the collector does not lower.
    pub fn visit_mut_module(&mut self, module: &mut Module) -> (r: Result<(), TransformError>)
        ensures
            final(self).runtime_module == old(self).runtime_module,
            match r {
                Ok(()) => {
                    &&& module_supported(old(module)@)
                    &&& views(final(self).imports@) == views(old(self).imports@) + module_imports(old(module)@)
                    &&& views(final(self).exports@) == views(old(self).exports@) + module_exports(old(module)@)
                    &&& final(module)@ == module_rewritten(old(module)@, old(self).runtime_module)
                },
                Err(e) => {
                    &&& e matches TransformError::UnsupportedSyntax { item }
                    &&& is_first_unsupported(old(module)@, item as int)
                    &&& *final(self) == *old(self)
                    &&& *final(module) == *old(module)
                },
            },
    {
        match first_unsupported_item(&module.body) {
            Some(item) => {
                return Err(TransformError::UnsupportedSyntax { item });
            },
            None => {},
        }
        let mut body: Vec<ModuleItem> = Vec::new();
        std::mem::swap(&mut module.body, &mut body);
        let ghost items = body@;
        let ghost shown = views(items);
        let len = body.len();
        let ghost runtime_module = self.runtime_module;
        let mut module_body: Vec<ModuleItem> = Vec::new();
        let mut decl: usize = 0;
        assert(views(self.imports@) =~= views(old(self).imports@) + imports_before(shown, 0));
        assert(views(self.exports@) =~= views(old(self).exports@) + exports_before(shown, 0));
        assert(views(module_body@) =~= rewritten_before(shown, 0, runtime_module));
        for module_item in it: body
            invariant
                it.seq() == items,
                items.len() == len,
                shown == views(items),
                module_supported(shown),
                self.runtime_module == runtime_module,
                decl == declarations_before(shown, it.index() as int),
                decl <= it.index(),
                views(self.imports@) == views(old(self).imports@) + imports_before(shown, it.index() as int),
                views(self.exports@) == views(old(self).exports@) + exports_before(shown, it.index() as int),
                views(module_body@) == rewritten_before(shown, it.index() as int, runtime_module),
        {
            let ghost i = it.index() as int;
            let ghost item = module_item@;
            assert(i < len);
            assert(item == shown[i]);
            assert(item_supported(item));
            let ghost imports_so_far = views(self.imports@);
            let ghost exports_so_far = views(self.exports@);
            let ghost body_so_far = views(module_body@);
            let is_stmt = match &module_item {
                ModuleItem::Stmt(_) => true,
                _ => false,
            };
            match module_item {
                ModuleItem::Stmt(stmt) => {
                    module_body.push(ModuleItem::Stmt(stmt));
                },
                ModuleItem::Import(import_decl) => {
                    if import_decl.type_only {
                        module_body.push(ModuleItem::Import(import_decl));
                    } else {
                        self.collect_import(&import_decl);
                        self.clone_module_decl_if_needed(&mut module_body, ModuleItem::Import(import_decl));
                    }
                },
                // `export var ..`, `export function ..`, `export class ..`
                ModuleItem::ExportDecl(export_decl) => {
                    let converted = self.convert_export_decl(export_decl);
                    module_body.push(converted);
                },
                // `export default function ..`, `export default class ..`
                ModuleItem::ExportDefaultDecl(export_default_decl) => {
                    let mut converted = self.convert_export_default_decl(export_default_decl, decl);
                    module_body.append(&mut converted);
                },
                // `export default <expr>`
                ModuleItem::ExportDefaultExpr(export_default_expr) => {
                    let mut converted = self.convert_export_default_expr(export_default_expr, decl);
                    module_body.append(&mut converted);
                },
                // `export { .. }`, `export { .. } from ..`, `export * as .. from ..`
                ModuleItem::ExportNamed(named_export) => {
                    if named_export.type_only {
                        module_body.push(ModuleItem::ExportNamed(named_export));
                    } else {
                        self.collect_named_exports(&named_export, decl);
                        self.clone_module_decl_if_needed(&mut module_body, ModuleItem::ExportNamed(named_export));
                    }
                },
                // `export * from ..`
                ModuleItem::ExportAll(export_all) => {
                    if export_all.type_only {
                        module_body.push(ModuleItem::ExportAll(export_all));
                    } else {
                        self.collect_export_all(&export_all, decl);
                        self.clone_module_decl_if_needed(&mut module_body, ModuleItem::ExportAll(export_all));
                    }
                },
                ModuleItem::Other(node) => {
                    self.clone_module_decl_if_needed(&mut module_body, ModuleItem::Other(node));
                },
            }
            assert(views(self.imports@) =~= imports_so_far + item_imports(item, decl as nat));
            assert(views(self.exports@) =~= exports_so_far + item_exports(item, decl as nat));
            assert(views(module_body@) =~= body_so_far + item_rewritten(item, decl as nat, runtime_module));
            assert(views(self.imports@) =~= views(old(self).imports@) + imports_before(shown, i + 1));
            assert(views(self.exports@) =~= views(old(self).exports@) + exports_before(shown, i + 1));
            if !is_stmt {
                decl = decl + 1;
            }
        }
        module.body = module_body;
        Ok(())
    }
}

/// Tells whether `ident` is spelled `default`.
fn is_default_name(ident: &Ident) -> (r: bool)
    ensures
        r == (ident@.sym == DEFAULT_EXPORT_NAME@),
{
    let name = String::from_str(DEFAULT_EXPORT_NAME);
    ident.sym == name
}

/// Tells whether `specifier` has the form `* as name`.
fn is_namespace_specifier(specifier: &ExportSpecifier) -> (r: bool)
    ensures
        r == (specifier@ is Namespace),
{
    match specifier {
        ExportSpecifier::Namespace { .. } => true,
        _ => false,
    }
}

/// Tells whether every specifier of `import_decl` is one that the
/// collector lowers.
fn import_decl_is_supported(import_decl: &ImportDecl) -> (r: bool)
    ensures
        r == import_decl_supported(import_decl@),
{
    if import_decl.type_only {
        return true;
    }
    let ghost specs = import_decl@.specifiers;
    let mut k: usize = 0;
    while k < import_decl.specifiers.len()
        invariant
            k <= import_decl.specifiers.len(),
            !import_decl.type_only,
            specs == import_decl@.specifiers,
            specs == views(import_decl.specifiers@),
            forall|j: int| 0 <= j < k ==> import_specifier_supported(#[trigger] specs[j]),
        decreases import_decl.specifiers.len() - k,
    {
        assert(specs[k as int] == import_decl.specifiers@[k as int]@);
        match &import_decl.specifiers[k] {
            ImportSpecifier::Named { imported: Some(ModuleExportName::Str(_)), .. } => {
                assert(!import_specifier_supported(specs[k as int]));
                return false;
            },
            _ => {},
        }
        k += 1;
    }
    true
}

/// Tells whether `name` is an identifier.
fn is_ident_name(name: &ModuleExportName) -> (r: bool)
    ensures
        r == (name@ is Ident),
{
    match name {
        ModuleExportName::Ident(_) => true,
        ModuleExportName::Str(_) => false,
    }
}

/// Tells whether `name` is absent or an identifier.
fn is_ident_or_absent(name: &Option<ModuleExportName>) -> (r: bool)
    ensures
        r == !(view_opt(*name) matches Some(ModuleExportNameView::Str(_))),
{
    match name {
        Some(ModuleExportName::Str(_)) => false,
        _ => true,
    }
}

/// Tells whether `specifier` can stand in `export { .. }` without a
/// source.
fn local_export_specifier_is_supported(specifier: &ExportSpecifier) -> (r: bool)
    ensures
        r == local_export_specifier_supported(specifier@),
{
    match specifier {
        ExportSpecifier::Named { orig, exported, is_type_only } => {
            *is_type_only || (is_ident_name(orig) && is_ident_or_absent(exported))
        },
        _ => false,
    }
}

/// Tells whether `specifier` can stand in `export { .. } from "m"`.
fn re_export_specifier_is_supported(specifier: &ExportSpecifier) -> (r: bool)
    ensures
        r == re_export_specifier_supported(specifier@),
{
    match specifier {
        ExportSpecifier::Named { orig, exported, .. } => {
            is_ident_name(orig) && is_ident_or_absent(exported)
        },
        _ => false,
    }
}

/// Tells whether every specifier of `named_export` is one that the
/// collector lowers.
fn named_export_is_supported(named_export: &NamedExport) -> (r: bool)
    ensures
        r == named_export_supported(named_export@),
{
    if named_export.type_only {
        return true;
    }
    let ghost specs = named_export@.specifiers;
    let local = named_export.src.is_none();
    if !local && named_export.specifiers.len() > 0 {
        assert(specs[0] == named_export.specifiers@[0]@);
        match &named_export.specifiers[0] {
            ExportSpecifier::Namespace { name } => {
                return named_export.specifiers.len() == 1 && is_ident_name(name);
            },
            _ => {},
        }
    }
    let mut k: usize = 0;
    while k < named_export.specifiers.len()
        invariant
            k <= named_export.specifiers.len(),
            !named_export.type_only,
            specs == named_export@.specifiers,
            specs == views(named_export.specifiers@),
            local == (named_export@.src is None),
            !local ==> !is_namespace_re_export(named_export@),
            local ==> forall|j: int| 0 <= j < k ==> local_export_specifier_supported(#[trigger] specs[j]),
            !local ==> forall|j: int| 0 <= j < k ==> re_export_specifier_supported(#[trigger] specs[j]),
        decreases named_export.specifiers.len() - k,
    {
        assert(specs[k as int] == named_export.specifiers@[k as int]@);
        let supported = if local {
            local_export_specifier_is_supported(&named_export.specifiers[k])
        } else {
            re_export_specifier_is_supported(&named_export.specifiers[k])
        };
        if !supported {
            assert(local ==> !local_export_specifier_supported(specs[k as int]));
            assert(!local ==> !re_export_specifier_supported(specs[k as int]));
            return false;
        }
        k += 1;
    }
    true
}

/// Tells whether the collector lowers `item`.
fn item_is_supported(item: &ModuleItem) -> (r: bool)
    ensures
        r == item_supported(item@),
{
    match item {
        ModuleItem::Import(import_decl) => import_decl_is_supported(import_decl),
        ModuleItem::ExportNamed(named_export) => named_export_is_supported(named_export),
        _ => true,
    }
}

/// Returns the place of the first item of `body` that the collector
/// refuses, if there is one.
pub fn first_unsupported_item(body: &Vec<ModuleItem>) -> (r: Option<usize>)
    ensures
        match r {
            None => module_supported(views(body@)),
            Some(i) => is_first_unsupported(views(body@), i as int),
        },
{
    let mut i: usize = 0;
    while i < body.len()
        invariant
            i <= body.len(),
            forall|j: int| 0 <= j < i ==> item_supported(#[trigger] views(body@)[j]),
        decreases body.len() - i,
    {
        assert(views(body@)[i as int] == body@[i as int]@);
        if !item_is_supported(&body[i]) {
            return Some(i);
        }
        i += 1;
    }
    None
}

} // verus!

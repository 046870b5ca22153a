//! What the collector makes of a module: which declarations it lowers,
//! what each of them adds to the bindings of the module, and what stands
//! in its place in the body.

use crate::bindings::{
    export_default, export_named, export_spread, import_default, import_named, import_namespace,
    ExportModuleView, ImportModuleView, ModuleType,
};
use crate::constants::{
    DEFAULT_EXPORT_NAME, EXPORT_DEFAULT_IDENT, RE_EXPORT_ALL_IDENT, RE_EXPORT_DEFAULT_IDENT,
    RE_EXPORT_IDENT,
};
use crate::syntax::{
    dummy_span, DeclView, DefaultDeclView, ExportSpecifierView, ExprView, IdentView, ImportDeclView,
    ImportSpecifierView, ModuleExportNameView, ModuleItemView, NamedExportView, Origin, Span,
    StmtView,
};
use crate::utils::const_stmt;
use vstd::prelude::*;

verus! {

// ---------------------------------------------------------------------------
// The identifiers that the collector introduces
// ---------------------------------------------------------------------------

/// The identifier that the collector introduces for the `spec`-th
/// specifier of the `decl`-th module declaration.
pub open spec fn synthesized(sym: Seq<char>, span: Span, decl: nat, spec: nat) -> IdentView {
    IdentView { sym, span, origin: Origin::Synthesized { decl: decl as usize, spec: spec as usize } }
}

/// The name bound to an anonymous default export.
pub open spec fn export_default_ident(decl: nat) -> IdentView {
    synthesized(EXPORT_DEFAULT_IDENT@, dummy_span(), decl, 0)
}

/// The name bound to the default export of a module that is re-exported.
pub open spec fn re_export_default_ident(decl: nat, spec: nat) -> IdentView {
    synthesized(RE_EXPORT_DEFAULT_IDENT@, dummy_span(), decl, spec)
}

/// The name bound to a namespace that is re-exported under a name.
pub open spec fn re_export_ident(decl: nat) -> IdentView {
    synthesized(RE_EXPORT_IDENT@, dummy_span(), decl, 0)
}

/// The name bound to a namespace all of whose exports are re-exported.
pub open spec fn re_export_all_ident(decl: nat) -> IdentView {
    synthesized(RE_EXPORT_ALL_IDENT@, dummy_span(), decl, 0)
}

/// The identifier that a name is, where it is one.
pub open spec fn name_ident(name: Option<ModuleExportNameView>) -> Option<IdentView> {
    match name {
        Some(ModuleExportNameView::Ident(id)) => Some(id),
        _ => None,
    }
}

// ---------------------------------------------------------------------------
// What is lowered, and what is refused
// ---------------------------------------------------------------------------

/// A specifier of an import declaration is lowered unless it names what it
/// imports by a string literal.
pub open spec fn import_specifier_supported(s: ImportSpecifierView) -> bool {
    !(s matches ImportSpecifierView::Named { imported: Some(ModuleExportNameView::Str(_)), .. })
}

/// A specifier of `export { .. }` without a source is lowered if it names
/// a local binding by an identifier and exports it under an identifier.
/// One that exports a type is skipped, whatever its names.
pub open spec fn local_export_specifier_supported(s: ExportSpecifierView) -> bool {
    match s {
        ExportSpecifierView::Named { orig, exported, is_type_only } => is_type_only || (orig is Ident
            && !(exported matches Some(ModuleExportNameView::Str(_)))),
        _ => false,
    }
}

/// A specifier of `export { .. } from "m"` is lowered if both of its names
/// are identifiers.
pub open spec fn re_export_specifier_supported(s: ExportSpecifierView) -> bool {
    s matches ExportSpecifierView::Named { orig, exported, .. } && orig is Ident && !(exported matches Some(
        ModuleExportNameView::Str(_),
    ))
}

/// Whether a re-export has the form `export * as name from "m"`.
pub open spec fn is_namespace_re_export(n: NamedExportView) -> bool {
    n.specifiers.len() > 0 && n.specifiers[0] is Namespace
}

/// Whether the collector lowers `export { .. }`. One that exports types
/// only is left alone. `export * as name from "m"` is lowered if it has
/// this one specifier and `name` is an identifier. Any other is lowered
/// if each of its specifiers is.
pub open spec fn named_export_supported(n: NamedExportView) -> bool {
    if n.type_only {
        true
    } else if n.src is None {
        forall|k: int| 0 <= k < n.specifiers.len() ==> local_export_specifier_supported(#[trigger] n.specifiers[k])
    } else if is_namespace_re_export(n) {
        n.specifiers.len() == 1 && n.specifiers[0]->Namespace_name is Ident
    } else {
        forall|k: int| 0 <= k < n.specifiers.len() ==> re_export_specifier_supported(#[trigger] n.specifiers[k])
    }
}

/// Whether the collector lowers `import .. from "m"`. One that imports
/// types only is left alone; any other is lowered if each of its
/// specifiers is.
pub open spec fn import_decl_supported(d: ImportDeclView) -> bool {
    d.type_only || forall|k: int| 0 <= k < d.specifiers.len() ==> import_specifier_supported(#[trigger] d.specifiers[k])
}

/// Whether the collector lowers `item`. It refuses an import or export
/// declaration with a specifier of a shape that it does not know, rather
/// than drop a binding.
pub open spec fn item_supported(item: ModuleItemView) -> bool {
    match item {
        ModuleItemView::Import(d) => import_decl_supported(d),
        ModuleItemView::ExportNamed(n) => named_export_supported(n),
        _ => true,
    }
}

/// Whether the collector lowers every item of `body`.
pub open spec fn module_supported(body: Seq<ModuleItemView>) -> bool {
    forall|i: int| 0 <= i < body.len() ==> item_supported(#[trigger] body[i])
}

/// Whether `body[i]` is the first item of `body` that the collector
/// refuses.
pub open spec fn is_first_unsupported(body: Seq<ModuleItemView>, i: int) -> bool {
    &&& 0 <= i < body.len()
    &&& !item_supported(body[i])
    &&& forall|j: int| 0 <= j < i ==> item_supported(#[trigger] body[j])
}

// ---------------------------------------------------------------------------
// What each declaration contributes
// ---------------------------------------------------------------------------

/// The binding that one specifier of an import from `src` introduces.
pub open spec fn import_binding(s: ImportSpecifierView, src: Seq<char>) -> ImportModuleView {
    match s {
        ImportSpecifierView::Default { local } => import_default(local, src),
        ImportSpecifierView::Named { local, imported, .. } => import_named(local, src, name_ident(imported)),
        ImportSpecifierView::Namespace { local } => import_namespace(local, src),
    }
}

/// The bindings of `import .. from "src"`: one for each specifier, in
/// order.
pub open spec fn import_bindings(d: ImportDeclView) -> Seq<ImportModuleView> {
    d.specifiers.map_values(|s: ImportSpecifierView| import_binding(s, d.src))
}

/// The identifier by which a specifier of `export { .. }` names what it
/// exports. Left open for a specifier that names it otherwise: the
/// collector refuses those.
pub open spec fn specifier_orig(s: ExportSpecifierView) -> IdentView {
    match s {
        ExportSpecifierView::Named { orig: ModuleExportNameView::Ident(id), .. } => id,
        _ => arbitrary(),
    }
}

/// The identifier under which a specifier of `export { .. }` exports,
/// where it gives one.
pub open spec fn specifier_exported(s: ExportSpecifierView) -> Option<IdentView> {
    match s {
        ExportSpecifierView::Named { exported, .. } => name_ident(exported),
        _ => None,
    }
}

/// Whether a specifier of `export { .. }` without a source exports a
/// value.
pub open spec fn local_export_collected(s: ExportSpecifierView) -> bool {
    s matches ExportSpecifierView::Named { orig, is_type_only, .. } && !is_type_only && orig is Ident
}

/// The binding of one specifier `a` or `a as b` of `export { .. }`
/// without a source.
pub open spec fn local_export_binding(s: ExportSpecifierView) -> ExportModuleView {
    export_named(specifier_orig(s), specifier_exported(s))
}

/// The bindings of `export { a, b as c }`: one for each specifier that
/// exports a value, in order.
pub open spec fn local_export_bindings(specifiers: Seq<ExportSpecifierView>) -> Seq<ExportModuleView>
    decreases specifiers.len(),
{
    if specifiers.len() == 0 {
        Seq::empty()
    } else if local_export_collected(specifiers.last()) {
        local_export_bindings(specifiers.drop_last()).push(local_export_binding(specifiers.last()))
    } else {
        local_export_bindings(specifiers.drop_last())
    }
}

/// Whether a specifier of a re-export passes on the default export of the
/// source module.
pub open spec fn re_exports_default(s: ExportSpecifierView) -> bool {
    specifier_orig(s).sym == DEFAULT_EXPORT_NAME@
}

/// The private name under which the `spec`-th specifier of the re-export
/// that is the `decl`-th declaration is imported: `__default` for the
/// default export, else the name and span that the specifier gives.
pub open spec fn re_export_local(s: ExportSpecifierView, decl: nat, spec: nat) -> IdentView {
    if re_exports_default(s) {
        re_export_default_ident(decl, spec)
    } else {
        synthesized(specifier_orig(s).sym, specifier_orig(s).span, decl, spec)
    }
}

/// The import that stands behind the `spec`-th specifier of a re-export
/// from `src`: of the default export of `src`, or of the export that the
/// specifier names, under a private name.
pub open spec fn re_export_import(
    s: ExportSpecifierView,
    src: Seq<char>,
    decl: nat,
    spec: nat,
) -> ImportModuleView {
    ImportModuleView {
        ident: re_export_local(s, decl, spec),
        imported: Some(specifier_orig(s)),
        module_src: src,
        module_type: if re_exports_default(s) {
            ModuleType::DefaultAsNamed
        } else {
            ModuleType::Named
        },
    }
}

/// The export of the `spec`-th specifier of a re-export: of the private
/// name, under the name that the specifier exports as, or else under the
/// name that it has in the source module.
pub open spec fn re_export_export(s: ExportSpecifierView, decl: nat, spec: nat) -> ExportModuleView {
    export_named(
        re_export_local(s, decl, spec),
        Some(
            match specifier_exported(s) {
                Some(alias) => alias,
                None => specifier_orig(s),
            },
        ),
    )
}

/// The imports of `export { a, default as d } from "src"`.
pub open spec fn re_export_imports(
    specifiers: Seq<ExportSpecifierView>,
    src: Seq<char>,
    decl: nat,
) -> Seq<ImportModuleView> {
    Seq::new(specifiers.len(), |k: int| re_export_import(specifiers[k], src, decl, k as nat))
}

/// The exports of `export { a, default as d } from "src"`.
pub open spec fn re_export_exports(specifiers: Seq<ExportSpecifierView>, decl: nat) -> Seq<ExportModuleView> {
    Seq::new(specifiers.len(), |k: int| re_export_export(specifiers[k], decl, k as nat))
}

/// The imports of an `export { .. }` declaration that is the `decl`-th
/// declaration of its module.
pub open spec fn named_export_imports(n: NamedExportView, decl: nat) -> Seq<ImportModuleView> {
    match n.src {
        None => Seq::empty(),
        Some(src) => if is_namespace_re_export(n) {
            seq![import_namespace(re_export_ident(decl), src)]
        } else {
            re_export_imports(n.specifiers, src, decl)
        },
    }
}

/// The exports of an `export { .. }` declaration that is the `decl`-th
/// declaration of its module.
pub open spec fn named_export_exports(n: NamedExportView, decl: nat) -> Seq<ExportModuleView> {
    match n.src {
        None => local_export_bindings(n.specifiers),
        Some(src) => if is_namespace_re_export(n) {
            seq![export_named(re_export_ident(decl), name_ident(Some(n.specifiers[0]->Namespace_name)))]
        } else {
            re_export_exports(n.specifiers, decl)
        },
    }
}

/// The export of `export <decl>`: the first name that the declaration
/// binds, where it is an identifier.
pub open spec fn export_decl_exports(d: DeclView) -> Seq<ExportModuleView> {
    match d {
        DeclView::Var { names, .. } => if names.len() > 0 && names[0] is Some {
            seq![export_named(names[0]->Some_0, None)]
        } else {
            Seq::empty()
        },
        DeclView::Fn { ident, .. } => seq![export_named(ident, None)],
        DeclView::Class { ident, .. } => seq![export_named(ident, None)],
        DeclView::Const { name, .. } => seq![export_named(name, None)],
        DeclView::Other(_) => Seq::empty(),
    }
}

/// The name under which `export default function ..` or `export default
/// class ..` is bound: its own where it has one, else a private one.
pub open spec fn default_decl_ident(d: DefaultDeclView, decl: nat) -> Option<IdentView> {
    match d {
        DefaultDeclView::Fn { ident, .. } => Some(
            match ident {
                Some(id) => id,
                None => export_default_ident(decl),
            },
        ),
        DefaultDeclView::Class { ident, .. } => Some(
            match ident {
                Some(id) => id,
                None => export_default_ident(decl),
            },
        ),
        DefaultDeclView::Other(_) => None,
    }
}

/// The declaration that binds what `export default function ..` or
/// `export default class ..` exports, as a statement.
pub open spec fn default_decl_stmt(d: DefaultDeclView, decl: nat) -> StmtView {
    match d {
        DefaultDeclView::Fn { ident: Some(id), function } => StmtView::Decl(
            DeclView::Fn { ident: id, declare: false, function },
        ),
        DefaultDeclView::Fn { ident: None, function } => const_stmt(
            export_default_ident(decl),
            ExprView::Fn { ident: None, function },
        ),
        DefaultDeclView::Class { ident: Some(id), class } => StmtView::Decl(
            DeclView::Class { ident: id, declare: false, class },
        ),
        DefaultDeclView::Class { ident: None, class } => const_stmt(
            export_default_ident(decl),
            ExprView::Class { ident: None, class },
        ),
        DefaultDeclView::Other(node) => StmtView::Other(node),
    }
}

/// `export default ident;`
pub open spec fn default_export_item(ident: IdentView) -> ModuleItemView {
    ModuleItemView::ExportDefaultExpr(ExprView::Ident(ident))
}

/// What stands for a default export in the body: the declaration that
/// binds it to `ident` and, where module syntax is kept, `export default
/// ident;` behind it.
pub open spec fn default_export_items(stmt: StmtView, ident: IdentView, runtime_module: bool) -> Seq<
    ModuleItemView,
> {
    if runtime_module {
        seq![ModuleItemView::Stmt(stmt)]
    } else {
        seq![ModuleItemView::Stmt(stmt), default_export_item(ident)]
    }
}

/// `item` where module syntax is kept, nothing where it is lowered.
pub open spec fn kept_if_static(item: ModuleItemView, runtime_module: bool) -> Seq<ModuleItemView> {
    if runtime_module {
        Seq::empty()
    } else {
        seq![item]
    }
}

/// The import bindings that `item` contributes when it is the `decl`-th
/// module declaration of its module.
pub open spec fn item_imports(item: ModuleItemView, decl: nat) -> Seq<ImportModuleView> {
    match item {
        ModuleItemView::Import(d) => if d.type_only {
            Seq::empty()
        } else {
            import_bindings(d)
        },
        ModuleItemView::ExportNamed(n) => if n.type_only {
            Seq::empty()
        } else {
            named_export_imports(n, decl)
        },
        ModuleItemView::ExportAll(a) => if a.type_only {
            Seq::empty()
        } else {
            seq![import_namespace(re_export_all_ident(decl), a.src)]
        },
        _ => Seq::empty(),
    }
}

/// The export bindings that `item` contributes when it is the `decl`-th
/// module declaration of its module.
pub open spec fn item_exports(item: ModuleItemView, decl: nat) -> Seq<ExportModuleView> {
    match item {
        ModuleItemView::ExportDecl(d) => export_decl_exports(d),
        ModuleItemView::ExportDefaultDecl(d) => match default_decl_ident(d, decl) {
            Some(ident) => seq![export_default(ident)],
            None => Seq::empty(),
        },
        ModuleItemView::ExportDefaultExpr(_) => seq![export_default(export_default_ident(decl))],
        ModuleItemView::ExportNamed(n) => if n.type_only {
            Seq::empty()
        } else {
            named_export_exports(n, decl)
        },
        ModuleItemView::ExportAll(a) => if a.type_only {
            Seq::empty()
        } else {
            seq![export_spread(re_export_all_ident(decl), None)]
        },
        _ => Seq::empty(),
    }
}

/// What stands in the body in place of `item` when it is the `decl`-th
/// module declaration of its module.
///
/// Statements stay, and so do declarations that only import or export
/// types. With `runtime_module`, every other module declaration goes, and
/// an exported declaration stays without `export`; without it, they stay
/// as they are. A default export becomes a declaration of its own in
/// either case.
pub open spec fn item_rewritten(item: ModuleItemView, decl: nat, runtime_module: bool) -> Seq<ModuleItemView> {
    match item {
        ModuleItemView::Stmt(_) => seq![item],
        ModuleItemView::Import(d) => if d.type_only {
            seq![item]
        } else {
            kept_if_static(item, runtime_module)
        },
        ModuleItemView::ExportDecl(d) => if runtime_module {
            seq![ModuleItemView::Stmt(StmtView::Decl(d))]
        } else {
            seq![item]
        },
        ModuleItemView::ExportDefaultDecl(d) => match default_decl_ident(d, decl) {
            Some(ident) => default_export_items(default_decl_stmt(d, decl), ident, runtime_module),
            None => seq![item],
        },
        ModuleItemView::ExportDefaultExpr(e) => default_export_items(
            const_stmt(export_default_ident(decl), e),
            export_default_ident(decl),
            runtime_module,
        ),
        ModuleItemView::ExportNamed(n) => if n.type_only {
            seq![item]
        } else {
            kept_if_static(item, runtime_module)
        },
        ModuleItemView::ExportAll(a) => if a.type_only {
            seq![item]
        } else {
            kept_if_static(item, runtime_module)
        },
        ModuleItemView::Other(_) => kept_if_static(item, runtime_module),
    }
}

// ---------------------------------------------------------------------------
// The whole module
// ---------------------------------------------------------------------------

/// The number of module declarations among the first `n` items of `body`.
pub open spec fn declarations_before(body: Seq<ModuleItemView>, n: int) -> nat
    decreases n,
{
    if n <= 0 {
        0
    } else {
        declarations_before(body, n - 1) + if body[n - 1] is Stmt {
            0nat
        } else {
            1nat
        }
    }
}

/// The import bindings of the first `n` items of `body`, in source order.
pub open spec fn imports_before(body: Seq<ModuleItemView>, n: int) -> Seq<ImportModuleView>
    decreases n,
{
    if n <= 0 {
        Seq::empty()
    } else {
        imports_before(body, n - 1) + item_imports(body[n - 1], declarations_before(body, n - 1))
    }
}

/// The export bindings of the first `n` items of `body`, in source order.
pub open spec fn exports_before(body: Seq<ModuleItemView>, n: int) -> Seq<ExportModuleView>
    decreases n,
{
    if n <= 0 {
        Seq::empty()
    } else {
        exports_before(body, n - 1) + item_exports(body[n - 1], declarations_before(body, n - 1))
    }
}

/// What the first `n` items of `body` are rewritten to.
pub open spec fn rewritten_before(body: Seq<ModuleItemView>, n: int, runtime_module: bool) -> Seq<
    ModuleItemView,
>
    decreases n,
{
    if n <= 0 {
        Seq::empty()
    } else {
        rewritten_before(body, n - 1, runtime_module) + item_rewritten(
            body[n - 1],
            declarations_before(body, n - 1),
            runtime_module,
        )
    }
}

/// Every binding that the module imports, in source order.
pub open spec fn module_imports(body: Seq<ModuleItemView>) -> Seq<ImportModuleView> {
    imports_before(body, body.len() as int)
}

/// Every binding that the module exports, in source order.
pub open spec fn module_exports(body: Seq<ModuleItemView>) -> Seq<ExportModuleView> {
    exports_before(body, body.len() as int)
}

/// The body of the module after the collector has passed over it.
pub open spec fn module_rewritten(body: Seq<ModuleItemView>, runtime_module: bool) -> Seq<ModuleItemView> {
    rewritten_before(body, body.len() as int, runtime_module)
}

} // verus!

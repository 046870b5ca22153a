//! What holds of every module that the collector passes over.

use crate::bindings::{export_default, ExportModuleView, ImportModuleView};
use crate::collector_rules::{
    declarations_before, export_decl_exports, export_default_ident, exports_before, imports_before,
    item_exports, item_imports, item_rewritten, local_export_bindings, local_export_collected,
    module_exports, module_imports, module_rewritten, rewritten_before, specifier_orig, synthesized,
};
use crate::syntax::{
    DeclView, DefaultDeclView, ExportSpecifierView, ExprView, IdentView, ModuleItemView, StmtView,
};
use crate::utils::const_stmt;
use vstd::prelude::*;

verus! {

/// The module declarations of `body`, in order: `body` without its
/// statements.
pub open spec fn declarations_of(body: Seq<ModuleItemView>) -> Seq<ModuleItemView>
    decreases body.len(),
{
    if body.len() == 0 {
        Seq::empty()
    } else if body.last() is Stmt {
        declarations_of(body.drop_last())
    } else {
        declarations_of(body.drop_last()).push(body.last())
    }
}

/// The bindings of the first `n` items depend on these items alone.
proof fn lemma_bindings_of_prefix(a: Seq<ModuleItemView>, b: Seq<ModuleItemView>, n: int)
    requires
        0 <= n <= a.len(),
        n <= b.len(),
        forall|i: int| 0 <= i < n ==> a[i] == b[i],
    ensures
        declarations_before(a, n) == declarations_before(b, n),
        imports_before(a, n) == imports_before(b, n),
        exports_before(a, n) == exports_before(b, n),
    decreases n,
{
    if n > 0 {
        lemma_bindings_of_prefix(a, b, n - 1);
    }
}

/// What the law below says, of the first `n` items of `body`.
proof fn lemma_statements_apart_before(body: Seq<ModuleItemView>, n: int)
    requires
        0 <= n <= body.len(),
    ensures
        declarations_of(body.take(n)).len() == declarations_before(body, n),
        forall|i: int|
            0 <= i <= declarations_of(body.take(n)).len() ==> declarations_before(
                declarations_of(body.take(n)),
                i,
            ) == i,
        module_imports(declarations_of(body.take(n))) == imports_before(body, n),
        module_exports(declarations_of(body.take(n))) == exports_before(body, n),
    decreases n,
{
    let now = declarations_of(body.take(n));
    if n > 0 {
        let earlier = declarations_of(body.take(n - 1));
        lemma_statements_apart_before(body, n - 1);
        assert(body.take(n).drop_last() =~= body.take(n - 1));
        assert(body.take(n).last() == body[n - 1]);
        if !(body[n - 1] is Stmt) {
            assert(now == earlier.push(body[n - 1]));
            let m = earlier.len() as int;
            lemma_bindings_of_prefix(now, earlier, m);
            assert forall|i: int| 0 <= i <= now.len() implies declarations_before(now, i) == i by {
                if i <= m {
                    lemma_bindings_of_prefix(now, earlier, i);
                }
            }
        }
    }
}

/// The bindings of a module are those of its declarations: the
/// statements that stand between the declarations, before them or behind
/// them add nothing and change nothing.
pub proof fn lemma_statements_do_not_matter(body: Seq<ModuleItemView>)
    ensures
        module_imports(body) == module_imports(declarations_of(body)),
        module_exports(body) == module_exports(declarations_of(body)),
{
    lemma_statements_apart_before(body, body.len() as int);
    assert(body.take(body.len() as int) =~= body);
}

/// Two modules with the same declarations in the same order have the
/// same bindings, wherever their statements stand.
pub proof fn lemma_bindings_follow_declarations(a: Seq<ModuleItemView>, b: Seq<ModuleItemView>)
    requires
        declarations_of(a) == declarations_of(b),
    ensures
        module_imports(a) == module_imports(b),
        module_exports(a) == module_exports(b),
{
    lemma_statements_do_not_matter(a);
    lemma_statements_do_not_matter(b);
}

/// Whether `a` is the beginning of `b`.
pub open spec fn begins<T>(a: Seq<T>, b: Seq<T>) -> bool {
    a.len() <= b.len() && forall|k: int| 0 <= k < a.len() ==> a[k] == b[k]
}

/// What the collector has listed and rewritten after some items stays
/// as it is, at the same place, after more items.
pub proof fn lemma_collected_stays(body: Seq<ModuleItemView>, n: int, m: int, runtime_module: bool)
    requires
        0 <= n <= m <= body.len(),
    ensures
        declarations_before(body, n) <= declarations_before(body, m),
        declarations_before(body, m) <= m,
        begins(imports_before(body, n), imports_before(body, m)),
        begins(exports_before(body, n), exports_before(body, m)),
        begins(rewritten_before(body, n, runtime_module), rewritten_before(body, m, runtime_module)),
    decreases m,
{
    if m > 0 {
        if n < m {
            lemma_collected_stays(body, n, m - 1, runtime_module);
        } else {
            lemma_collected_stays(body, n - 1, m - 1, runtime_module);
        }
    }
}

/// Declarations are numbered apart: a later item of a module counts
/// more declarations before it than a declaration that stands before it.
/// So no two declarations of a module that a machine can hold are given
/// the same private identifier.
pub proof fn lemma_declarations_numbered_apart(body: Seq<ModuleItemView>, i: int, j: int)
    requires
        0 <= i < j < body.len(),
        !(body[i] is Stmt),
    ensures
        declarations_before(body, i) < declarations_before(body, j),
        declarations_before(body, j) <= j,
        body.len() <= usize::MAX ==> export_default_ident(declarations_before(body, i)).origin
            != export_default_ident(declarations_before(body, j)).origin,
{
    lemma_collected_stays(body, i + 1, j, true);
    lemma_collected_stays(body, i, i + 1, true);
}

/// Whether `item` exports a function or a class that has no name as the
/// default export.
pub open spec fn is_anonymous_default(item: ModuleItemView) -> bool {
    match item {
        ModuleItemView::ExportDefaultDecl(DefaultDeclView::Fn { ident, .. }) => ident is None,
        ModuleItemView::ExportDefaultDecl(DefaultDeclView::Class { ident, .. }) => ident is None,
        _ => false,
    }
}

/// The function or class expression that an anonymous default export
/// exports.
pub open spec fn anonymous_default_value(item: ModuleItemView) -> ExprView {
    match item {
        ModuleItemView::ExportDefaultDecl(DefaultDeclView::Fn { function, .. }) => ExprView::Fn {
            ident: None,
            function,
        },
        ModuleItemView::ExportDefaultDecl(DefaultDeclView::Class { class, .. }) => ExprView::Class {
            ident: None,
            class,
        },
        _ => arbitrary(),
    }
}

/// A default export without a name gets one. The body of the module then
/// holds `const name = <function or class>;`, the exports of the module
/// hold the default export of that same `name`, and `name` is an
/// identifier that the collector introduced, not one of the source.
pub proof fn lemma_anonymous_default_is_named(body: Seq<ModuleItemView>, i: int, runtime_module: bool)
    requires
        0 <= i < body.len(),
        is_anonymous_default(body[i]),
    ensures
        ({
            let name = export_default_ident(declarations_before(body, i));
            &&& name.origin is Synthesized
            &&& module_rewritten(body, runtime_module).contains(
                ModuleItemView::Stmt(const_stmt(name, anonymous_default_value(body[i]))),
            )
            &&& module_exports(body).contains(export_default(name))
        }),
{
    let decl = declarations_before(body, i);
    let name = export_default_ident(decl);
    let stmt = ModuleItemView::Stmt(const_stmt(name, anonymous_default_value(body[i])));
    lemma_collected_stays(body, i + 1, body.len() as int, runtime_module);
    let rewritten_at = rewritten_before(body, i, runtime_module).len() as int;
    let exported_at = exports_before(body, i).len() as int;
    assert(item_rewritten(body[i], decl, runtime_module)[0] == stmt);
    assert(item_exports(body[i], decl)[0] == export_default(name));
    assert(rewritten_before(body, i + 1, runtime_module)[rewritten_at] == stmt);
    assert(exports_before(body, i + 1)[exported_at] == export_default(name));
    assert(module_rewritten(body, runtime_module)[rewritten_at] == stmt);
    assert(module_exports(body)[exported_at] == export_default(name));
}

/// What the law below says, of the first `n` items of `body`.
proof fn lemma_statements_only_before(body: Seq<ModuleItemView>, n: int, runtime_module: bool)
    requires
        0 <= n <= body.len(),
        forall|i: int| 0 <= i < body.len() ==> #[trigger] body[i] is Stmt,
    ensures
        imports_before(body, n) == Seq::<ImportModuleView>::empty(),
        exports_before(body, n) == Seq::<ExportModuleView>::empty(),
        rewritten_before(body, n, runtime_module) == body.take(n),
    decreases n,
{
    if n > 0 {
        lemma_statements_only_before(body, n - 1, runtime_module);
        assert(body[n - 1] is Stmt);
        assert(body.take(n) =~= body.take(n - 1) + seq![body[n - 1]]);
    }
}

/// A module without module declarations imports nothing and exports
/// nothing, and the collector leaves it as it is.
pub proof fn lemma_statements_only(body: Seq<ModuleItemView>, runtime_module: bool)
    requires
        forall|i: int| 0 <= i < body.len() ==> #[trigger] body[i] is Stmt,
    ensures
        module_imports(body) == Seq::<ImportModuleView>::empty(),
        module_exports(body) == Seq::<ExportModuleView>::empty(),
        module_rewritten(body, runtime_module) == body,
{
    lemma_statements_only_before(body, body.len() as int, runtime_module);
    assert(body.take(body.len() as int) =~= body);
}

/// Identifiers that the collector introduces for different specifiers,
/// or for different declarations, are different bindings, whatever their
/// text; and none of them is a binding of the source.
pub proof fn lemma_introduced_identifiers_apart(
    a: IdentView,
    b: IdentView,
    decl_a: nat,
    spec_a: nat,
    decl_b: nat,
    spec_b: nat,
    written: IdentView,
)
    requires
        a == synthesized(a.sym, a.span, decl_a, spec_a),
        b == synthesized(b.sym, b.span, decl_b, spec_b),
        decl_a <= usize::MAX && spec_a <= usize::MAX,
        decl_b <= usize::MAX && spec_b <= usize::MAX,
        decl_a != decl_b || spec_a != spec_b,
        written.origin is Source,
    ensures
        !a.same_binding(b),
        !a.same_binding(written),
{
}

/// Whether `ident` is the name that a statement `const ident = ..` binds.
pub open spec fn binds_constant(item: ModuleItemView, ident: IdentView) -> bool {
    item matches ModuleItemView::Stmt(StmtView::Decl(DeclView::Const { name, .. })) && name == ident
}

/// Whether every identifier that `item` exports by its name is one of
/// the source.
pub open spec fn exports_names_of_source(item: ModuleItemView) -> bool {
    match item {
        ModuleItemView::ExportDecl(d) => forall|k: int|
            0 <= k < export_decl_exports(d).len() ==> (#[trigger] export_decl_exports(
                d,
            )[k]).ident.origin is Source,
        ModuleItemView::ExportDefaultDecl(DefaultDeclView::Fn { ident: Some(id), .. }) => id.origin is Source,
        ModuleItemView::ExportDefaultDecl(DefaultDeclView::Class { ident: Some(id), .. }) => id.origin is Source,
        ModuleItemView::ExportNamed(n) => n.src is None ==> forall|k: int|
            0 <= k < n.specifiers.len() && local_export_collected(#[trigger] n.specifiers[k])
                ==> specifier_orig(n.specifiers[k]).origin is Source,
        _ => true,
    }
}

/// `export { .. }` without a source exports the identifiers that its
/// specifiers name.
proof fn lemma_local_exports_are_named(specifiers: Seq<ExportSpecifierView>, k: int)
    requires
        0 <= k < local_export_bindings(specifiers).len(),
    ensures
        exists|j: int|
            0 <= j < specifiers.len() && local_export_collected(#[trigger] specifiers[j])
                && local_export_bindings(specifiers)[k].ident == specifier_orig(specifiers[j]),
    decreases specifiers.len(),
{
    if specifiers.len() > 0 {
        if k < local_export_bindings(specifiers.drop_last()).len() {
            lemma_local_exports_are_named(specifiers.drop_last(), k);
            let j = choose|j: int|
                0 <= j < specifiers.drop_last().len() && local_export_collected(
                    #[trigger] specifiers.drop_last()[j],
                ) && local_export_bindings(specifiers.drop_last())[k].ident == specifier_orig(
                    specifiers.drop_last()[j],
                );
            assert(specifiers[j] == specifiers.drop_last()[j]);
        } else {
            assert(specifiers[specifiers.len() - 1] == specifiers.last());
        }
    }
}

/// What the law below says, of the first `n` items of `body`.
proof fn lemma_introduced_exports_bound_before(
    body: Seq<ModuleItemView>,
    runtime_module: bool,
    n: int,
    k: int,
)
    requires
        forall|i: int| 0 <= i < body.len() ==> exports_names_of_source(#[trigger] body[i]),
        0 <= n <= body.len(),
        0 <= k < exports_before(body, n).len(),
        !(exports_before(body, n)[k].ident.origin is Source),
    ensures
        ({
            let ident = exports_before(body, n)[k].ident;
            ||| exists|j: int|
                0 <= j < imports_before(body, n).len() && (#[trigger] imports_before(body, n)[j]).ident
                    == ident
            ||| exists|j: int|
                0 <= j < rewritten_before(body, n, runtime_module).len() && binds_constant(
                    #[trigger] rewritten_before(body, n, runtime_module)[j],
                    ident,
                )
        }),
    decreases n,
{
    if n > 0 {
        let earlier_exports = exports_before(body, n - 1);
        let earlier_imports = imports_before(body, n - 1);
        let earlier_rewritten = rewritten_before(body, n - 1, runtime_module);
        let item = body[n - 1];
        let decl = declarations_before(body, n - 1);
        let ident = exports_before(body, n)[k].ident;
        assert(exports_names_of_source(item));
        if k < earlier_exports.len() {
            lemma_introduced_exports_bound_before(body, runtime_module, n - 1, k);
            if exists|j: int| 0 <= j < earlier_imports.len() && (#[trigger] earlier_imports[j]).ident == ident {
                let j = choose|j: int|
                    0 <= j < earlier_imports.len() && (#[trigger] earlier_imports[j]).ident == ident;
                assert(imports_before(body, n)[j] == earlier_imports[j]);
            } else {
                let j = choose|j: int|
                    0 <= j < earlier_rewritten.len() && binds_constant(#[trigger] earlier_rewritten[j], ident);
                assert(rewritten_before(body, n, runtime_module)[j] == earlier_rewritten[j]);
            }
        } else {
            let at = k - earlier_exports.len();
            let added = item_exports(item, decl);
            assert(exports_before(body, n)[k] == added[at]);
            match item {
                ModuleItemView::ExportDecl(d) => {
                    assert(export_decl_exports(d)[at].ident.origin is Source);
                },
                ModuleItemView::ExportDefaultDecl(_) | ModuleItemView::ExportDefaultExpr(_) => {
                    let j = earlier_rewritten.len() as int;
                    assert(rewritten_before(body, n, runtime_module)[j] == item_rewritten(
                        item,
                        decl,
                        runtime_module,
                    )[0]);
                    assert(binds_constant(rewritten_before(body, n, runtime_module)[j], ident));
                },
                ModuleItemView::ExportNamed(named) => {
                    if named.src is None {
                        lemma_local_exports_are_named(named.specifiers, at);
                    } else {
                        let j = earlier_imports.len() + at;
                        assert(imports_before(body, n)[j] == item_imports(item, decl)[at]);
                    }
                },
                ModuleItemView::ExportAll(_) => {
                    let j = earlier_imports.len() as int;
                    assert(imports_before(body, n)[j] == item_imports(item, decl)[0]);
                },
                _ => {},
            }
        }
    }
}

/// No export is left without a binding by the collector: an export of an
/// identifier that the collector introduced is the export of what one of
/// the collected imports binds, or of what a statement `const name = ..`
/// of the rewritten body binds.
pub proof fn lemma_introduced_exports_are_bound(body: Seq<ModuleItemView>, runtime_module: bool, k: int)
    requires
        forall|i: int| 0 <= i < body.len() ==> exports_names_of_source(#[trigger] body[i]),
        0 <= k < module_exports(body).len(),
        !(module_exports(body)[k].ident.origin is Source),
    ensures
        ({
            let ident = module_exports(body)[k].ident;
            ||| exists|j: int|
                0 <= j < module_imports(body).len() && (#[trigger] module_imports(body)[j]).ident == ident
            ||| exists|j: int|
                0 <= j < module_rewritten(body, runtime_module).len() && binds_constant(
                    #[trigger] module_rewritten(body, runtime_module)[j],
                    ident,
                )
        }),
{
    let n = body.len() as int;
    let ident = module_exports(body)[k].ident;
    lemma_introduced_exports_bound_before(body, runtime_module, n, k);
    if exists|j: int| 0 <= j < imports_before(body, n).len() && (#[trigger] imports_before(body, n)[j]).ident == ident {
        let j = choose|j: int|
            0 <= j < imports_before(body, n).len() && (#[trigger] imports_before(body, n)[j]).ident == ident;
        assert(module_imports(body)[j].ident == ident);
    } else {
        let j = choose|j: int|
            0 <= j < rewritten_before(body, n, runtime_module).len() && binds_constant(
                #[trigger] rewritten_before(body, n, runtime_module)[j],
                ident,
            );
        assert(binds_constant(module_rewritten(body, runtime_module)[j], ident));
    }
}

} // verus!

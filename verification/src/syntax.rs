//! A small abstract syntax for ECMAScript modules.
//!
//! Only what the lowering reads or writes is spelled out. Everything else
//! (function bodies, class bodies, arbitrary expressions and statements) is
//! held by the host compiler and referred to here by a [`NodeId`].

use vstd::prelude::*;

verus! {

/// The host compiler's handle for a syntax node that the lowering carries
/// along without looking inside.
pub type NodeId = usize;

/// A byte range in the source text.
#[derive(Clone, Copy, Debug, PartialEq, Eq, Structural)]
pub struct Span {
    pub lo: u32,
    pub hi: u32,
}

/// The span of a node that has no place in the source text.
pub open spec fn dummy_span() -> Span {
    Span { lo: 0, hi: 0 }
}

impl Span {
    /// The span of a node that has no place in the source text.
    pub fn dummy() -> (r: Span)
        ensures
            r == dummy_span(),
    {
        Span { lo: 0, hi: 0 }
    }
}

/// Where an identifier comes from. Two identifiers name the same binding
/// only if their origins are equal, so an identifier that the lowering
/// introduces can never capture, or be captured by, one written in the
/// source.
#[derive(Clone, Copy, Debug, PartialEq, Eq, Hash, Structural)]
pub enum Origin {
    /// Written in the source text, in the given syntax context of the host.
    Source(u32),
    /// Introduced for the `spec`-th specifier of the `decl`-th module
    /// declaration of the module.
    Synthesized { decl: usize, spec: usize },
    /// Introduced as the handle of one of the source modules that the
    /// module imports from: the one that is first referred to in the given
    /// place among them.
    Handle(usize),
}

/// An identifier.
#[derive(Debug, PartialEq, Eq)]
pub struct Ident {
    pub sym: String,
    pub span: Span,
    pub origin: Origin,
}

/// The view of [`Ident`].
pub struct IdentView {
    pub sym: Seq<char>,
    pub span: Span,
    pub origin: Origin,
}

impl View for Ident {
    type V = IdentView;

    open spec fn view(&self) -> IdentView {
        IdentView { sym: self.sym@, span: self.span, origin: self.origin }
    }
}

impl IdentView {
    /// Whether two identifiers name the same binding: the same text from
    /// the same origin. The span plays no part.
    pub open spec fn same_binding(self, other: IdentView) -> bool {
        self.sym == other.sym && self.origin == other.origin
    }
}

impl Clone for Ident {
    fn clone(&self) -> (r: Self)
        ensures
            r@ == self@,
    {
        Ident { sym: self.sym.clone(), span: self.span, origin: self.origin }
    }
}

impl Ident {
    /// Tells whether `self` and `other` name the same binding.
    pub fn same_binding(&self, other: &Ident) -> (r: bool)
        ensures
            r == self@.same_binding(other@),
    {
        self.sym == other.sym && self.origin == other.origin
    }
}

/// The views of the elements of a sequence, in order.
pub open spec fn views<T: View>(s: Seq<T>) -> Seq<T::V> {
    s.map_values(|t: T| t@)
}

/// The view of an optional value.
pub open spec fn view_opt<T: View>(o: Option<T>) -> Option<T::V> {
    match o {
        Some(t) => Some(t@),
        None => None,
    }
}

/// The name of a binding on the far side of an import or export.
#[derive(Debug, PartialEq, Eq)]
pub enum ModuleExportName {
    Ident(Ident),
    /// A string-literal name, as in `export { a as "a b" }`.
    Str(String),
}

/// The view of [`ModuleExportName`].
pub enum ModuleExportNameView {
    Ident(IdentView),
    Str(Seq<char>),
}

impl View for ModuleExportName {
    type V = ModuleExportNameView;

    open spec fn view(&self) -> ModuleExportNameView {
        match self {
            ModuleExportName::Ident(id) => ModuleExportNameView::Ident(id@),
            ModuleExportName::Str(s) => ModuleExportNameView::Str(s@),
        }
    }
}

/// One binding of an import declaration.
#[derive(Debug, PartialEq, Eq)]
pub enum ImportSpecifier {
    /// `import local from "m"`
    Default { local: Ident },
    /// `import { local } from "m"` or `import { imported as local } from "m"`
    Named { local: Ident, imported: Option<ModuleExportName>, is_type_only: bool },
    /// `import * as local from "m"`
    Namespace { local: Ident },
}

/// The view of [`ImportSpecifier`].
pub enum ImportSpecifierView {
    Default { local: IdentView },
    Named { local: IdentView, imported: Option<ModuleExportNameView>, is_type_only: bool },
    Namespace { local: IdentView },
}

impl View for ImportSpecifier {
    type V = ImportSpecifierView;

    open spec fn view(&self) -> ImportSpecifierView {
        match self {
            ImportSpecifier::Default { local } => ImportSpecifierView::Default { local: local@ },
            ImportSpecifier::Named { local, imported, is_type_only } => ImportSpecifierView::Named {
                local: local@,
                imported: view_opt(*imported),
                is_type_only: *is_type_only,
            },
            ImportSpecifier::Namespace { local } => ImportSpecifierView::Namespace { local: local@ },
        }
    }
}

/// `import specifiers from "src"`.
///
/// `node` is the host's node that the declaration was read from; a
/// declaration that the lowering writes has none.
#[derive(Debug, PartialEq, Eq)]
pub struct ImportDecl {
    pub specifiers: Vec<ImportSpecifier>,
    pub src: String,
    pub type_only: bool,
    pub node: Option<NodeId>,
}

/// The view of [`ImportDecl`].
pub struct ImportDeclView {
    pub specifiers: Seq<ImportSpecifierView>,
    pub src: Seq<char>,
    pub type_only: bool,
    pub node: Option<NodeId>,
}

impl View for ImportDecl {
    type V = ImportDeclView;

    open spec fn view(&self) -> ImportDeclView {
        ImportDeclView {
            specifiers: views(self.specifiers@),
            src: self.src@,
            type_only: self.type_only,
            node: self.node,
        }
    }
}

/// One binding of an `export { .. }` declaration.
#[derive(Debug, PartialEq, Eq)]
pub enum ExportSpecifier {
    /// `export * as name from "m"`
    Namespace { name: ModuleExportName },
    /// `export ident from "m"`
    Default { ident: Ident },
    /// `export { orig }` or `export { orig as exported }`
    Named { orig: ModuleExportName, exported: Option<ModuleExportName>, is_type_only: bool },
}

/// The view of [`ExportSpecifier`].
pub enum ExportSpecifierView {
    Namespace { name: ModuleExportNameView },
    Default { ident: IdentView },
    Named { orig: ModuleExportNameView, exported: Option<ModuleExportNameView>, is_type_only: bool },
}

impl View for ExportSpecifier {
    type V = ExportSpecifierView;

    open spec fn view(&self) -> ExportSpecifierView {
        match self {
            ExportSpecifier::Namespace { name } => ExportSpecifierView::Namespace { name: name@ },
            ExportSpecifier::Default { ident } => ExportSpecifierView::Default { ident: ident@ },
            ExportSpecifier::Named { orig, exported, is_type_only } => ExportSpecifierView::Named {
                orig: orig@,
                exported: view_opt(*exported),
                is_type_only: *is_type_only,
            },
        }
    }
}

/// `export { specifiers }`, with `from "src"` when it re-exports.
#[derive(Debug, PartialEq, Eq)]
pub struct NamedExport {
    pub specifiers: Vec<ExportSpecifier>,
    pub src: Option<String>,
    pub type_only: bool,
    pub node: Option<NodeId>,
}

/// The view of [`NamedExport`].
pub struct NamedExportView {
    pub specifiers: Seq<ExportSpecifierView>,
    pub src: Option<Seq<char>>,
    pub type_only: bool,
    pub node: Option<NodeId>,
}

impl View for NamedExport {
    type V = NamedExportView;

    open spec fn view(&self) -> NamedExportView {
        NamedExportView {
            specifiers: views(self.specifiers@),
            src: view_opt(self.src),
            type_only: self.type_only,
            node: self.node,
        }
    }
}

/// `export * from "src"`.
#[derive(Debug, PartialEq, Eq)]
pub struct ExportAll {
    pub src: String,
    pub type_only: bool,
    pub node: Option<NodeId>,
}

/// The view of [`ExportAll`].
pub struct ExportAllView {
    pub src: Seq<char>,
    pub type_only: bool,
    pub node: Option<NodeId>,
}

impl View for ExportAll {
    type V = ExportAllView;

    open spec fn view(&self) -> ExportAllView {
        ExportAllView { src: self.src@, type_only: self.type_only, node: self.node }
    }
}

/// A property of an object literal.
#[derive(Debug, PartialEq, Eq)]
pub enum Prop {
    /// `{ a }`
    Shorthand(Ident),
    /// `{ key: value }`
    KeyValue { key: String, value: Ident },
    /// `{ ...value }`
    Spread(Ident),
}

/// The view of [`Prop`].
pub enum PropView {
    Shorthand(IdentView),
    KeyValue { key: Seq<char>, value: IdentView },
    Spread(IdentView),
}

impl View for Prop {
    type V = PropView;

    open spec fn view(&self) -> PropView {
        match self {
            Prop::Shorthand(id) => PropView::Shorthand(id@),
            Prop::KeyValue { key, value } => PropView::KeyValue { key: key@, value: value@ },
            Prop::Spread(id) => PropView::Spread(id@),
        }
    }
}

/// An expression.
#[derive(Debug, PartialEq, Eq)]
pub enum Expr {
    /// A reference to a binding.
    Ident(Ident),
    /// A string literal.
    Str(String),
    /// `obj.prop`
    Member { obj: Box<Expr>, prop: String },
    /// `callee(args)`
    Call { callee: Box<Expr>, args: Vec<Expr> },
    /// `{ props }`
    Object(Vec<Prop>),
    /// A function expression, named or not.
    Fn { ident: Option<Ident>, function: NodeId },
    /// A class expression, named or not.
    Class { ident: Option<Ident>, class: NodeId },
    /// Any other expression.
    Other(NodeId),
}

/// The view of [`Expr`].
pub enum ExprView {
    Ident(IdentView),
    Str(Seq<char>),
    Member { obj: Box<ExprView>, prop: Seq<char> },
    Call { callee: Box<ExprView>, args: Seq<ExprView> },
    Object(Seq<PropView>),
    Fn { ident: Option<IdentView>, function: NodeId },
    Class { ident: Option<IdentView>, class: NodeId },
    Other(NodeId),
}

/// The view of an expression, by recursion on its structure.
pub open spec fn expr_view(e: Expr) -> ExprView
    decreases e,
{
    match e {
        Expr::Ident(id) => ExprView::Ident(id@),
        Expr::Str(s) => ExprView::Str(s@),
        Expr::Member { obj, prop } => ExprView::Member { obj: Box::new(expr_view(*obj)), prop: prop@ },
        Expr::Call { callee, args } => ExprView::Call {
            callee: Box::new(expr_view(*callee)),
            args: Seq::new(
                args@.len(),
                |i: int|
                    if 0 <= i < args@.len() {
                        expr_view(args@[i])
                    } else {
                        ExprView::Other(0)
                    },
            ),
        },
        Expr::Object(props) => ExprView::Object(views(props@)),
        Expr::Fn { ident, function } => ExprView::Fn { ident: view_opt(ident), function },
        Expr::Class { ident, class } => ExprView::Class { ident: view_opt(ident), class },
        Expr::Other(node) => ExprView::Other(node),
    }
}

impl View for Expr {
    type V = ExprView;

    open spec fn view(&self) -> ExprView {
        expr_view(*self)
    }
}

/// A declaration.
#[derive(Debug, PartialEq, Eq)]
pub enum Decl {
    /// A `var`, `let` or `const` declaration of the source, held by the
    /// host. `names` has one entry for each declarator, in order: the
    /// identifier that it binds, or `None` where it binds a pattern.
    Var { names: Vec<Option<Ident>>, node: NodeId },
    /// `function ident() { .. }`
    Fn { ident: Ident, declare: bool, function: NodeId },
    /// `class ident { .. }`
    Class { ident: Ident, declare: bool, class: NodeId },
    /// `const name = init;`
    Const { name: Ident, init: Expr },
    /// Any other declaration, one of types among them.
    Other(NodeId),
}

/// The view of [`Decl`].
pub enum DeclView {
    Var { names: Seq<Option<IdentView>>, node: NodeId },
    Fn { ident: IdentView, declare: bool, function: NodeId },
    Class { ident: IdentView, declare: bool, class: NodeId },
    Const { name: IdentView, init: ExprView },
    Other(NodeId),
}

impl View for Decl {
    type V = DeclView;

    open spec fn view(&self) -> DeclView {
        match self {
            Decl::Var { names, node } => DeclView::Var {
                names: names@.map_values(|n: Option<Ident>| view_opt(n)),
                node: *node,
            },
            Decl::Fn { ident, declare, function } => DeclView::Fn {
                ident: ident@,
                declare: *declare,
                function: *function,
            },
            Decl::Class { ident, declare, class } => DeclView::Class {
                ident: ident@,
                declare: *declare,
                class: *class,
            },
            Decl::Const { name, init } => DeclView::Const { name: name@, init: init@ },
            Decl::Other(node) => DeclView::Other(*node),
        }
    }
}

/// What follows `export default` when it is not an expression.
#[derive(Debug, PartialEq, Eq)]
pub enum DefaultDecl {
    /// `function ident() { .. }` or `function () { .. }`
    Fn { ident: Option<Ident>, function: NodeId },
    /// `class ident { .. }` or `class { .. }`
    Class { ident: Option<Ident>, class: NodeId },
    /// A declaration of a type.
    Other(NodeId),
}

/// The view of [`DefaultDecl`].
pub enum DefaultDeclView {
    Fn { ident: Option<IdentView>, function: NodeId },
    Class { ident: Option<IdentView>, class: NodeId },
    Other(NodeId),
}

impl View for DefaultDecl {
    type V = DefaultDeclView;

    open spec fn view(&self) -> DefaultDeclView {
        match self {
            DefaultDecl::Fn { ident, function } => DefaultDeclView::Fn {
                ident: view_opt(*ident),
                function: *function,
            },
            DefaultDecl::Class { ident, class } => DefaultDeclView::Class {
                ident: view_opt(*ident),
                class: *class,
            },
            DefaultDecl::Other(node) => DefaultDeclView::Other(*node),
        }
    }
}

/// A statement.
#[derive(Debug, PartialEq, Eq)]
pub enum Stmt {
    Decl(Decl),
    /// An expression statement.
    Expr(Expr),
    /// Any other statement.
    Other(NodeId),
}

/// The view of [`Stmt`].
pub enum StmtView {
    Decl(DeclView),
    Expr(ExprView),
    Other(NodeId),
}

impl View for Stmt {
    type V = StmtView;

    open spec fn view(&self) -> StmtView {
        match self {
            Stmt::Decl(d) => StmtView::Decl(d@),
            Stmt::Expr(e) => StmtView::Expr(e@),
            Stmt::Other(node) => StmtView::Other(*node),
        }
    }
}

/// One item of a module body: a statement or a module declaration.
#[derive(Debug, PartialEq, Eq)]
pub enum ModuleItem {
    Stmt(Stmt),
    Import(ImportDecl),
    /// `export <decl>`
    ExportDecl(Decl),
    /// `export default function ..` or `export default class ..`
    ExportDefaultDecl(DefaultDecl),
    /// `export default <expr>;`
    ExportDefaultExpr(Expr),
    ExportNamed(NamedExport),
    ExportAll(ExportAll),
    /// Any other module declaration.
    Other(NodeId),
}

/// The view of [`ModuleItem`].
pub enum ModuleItemView {
    Stmt(StmtView),
    Import(ImportDeclView),
    ExportDecl(DeclView),
    ExportDefaultDecl(DefaultDeclView),
    ExportDefaultExpr(ExprView),
    ExportNamed(NamedExportView),
    ExportAll(ExportAllView),
    Other(NodeId),
}

impl View for ModuleItem {
    type V = ModuleItemView;

    open spec fn view(&self) -> ModuleItemView {
        match self {
            ModuleItem::Stmt(s) => ModuleItemView::Stmt(s@),
            ModuleItem::Import(d) => ModuleItemView::Import(d@),
            ModuleItem::ExportDecl(d) => ModuleItemView::ExportDecl(d@),
            ModuleItem::ExportDefaultDecl(d) => ModuleItemView::ExportDefaultDecl(d@),
            ModuleItem::ExportDefaultExpr(e) => ModuleItemView::ExportDefaultExpr(e@),
            ModuleItem::ExportNamed(n) => ModuleItemView::ExportNamed(n@),
            ModuleItem::ExportAll(a) => ModuleItemView::ExportAll(a@),
            ModuleItem::Other(node) => ModuleItemView::Other(*node),
        }
    }
}

/// A module: its body, in source order.
#[derive(Debug, PartialEq, Eq)]
pub struct Module {
    pub body: Vec<ModuleItem>,
}

impl View for Module {
    type V = Seq<ModuleItemView>;

    open spec fn view(&self) -> Seq<ModuleItemView> {
        views(self.body@)
    }
}

} // verus!

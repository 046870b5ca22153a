//! Builders for the syntax that the lowering writes.

use crate::constants::REGISTRY;
use crate::syntax::{
    dummy_span, views, Decl, DeclView, Expr, ExprView, Ident, IdentView, Origin, Prop, Span, Stmt,
    StmtView,
};
use vstd::prelude::*;

verus! {

/// The identifier `sym` as lowered code writes it when it means a global
/// name: without a place in the source, in the host's empty syntax context.
pub open spec fn plain_ident(sym: Seq<char>) -> IdentView {
    IdentView { sym, span: dummy_span(), origin: Origin::Source(0) }
}

/// `obj.prop`
pub open spec fn member(obj: ExprView, prop: Seq<char>) -> ExprView {
    ExprView::Member { obj: Box::new(obj), prop }
}

/// `callee(args)`
pub open spec fn call(callee: ExprView, args: Seq<ExprView>) -> ExprView {
    ExprView::Call { callee: Box::new(callee), args }
}

/// `registry.method(args)`: a call of the registry operation `method`.
pub open spec fn global_module_api_call(method: Seq<char>, args: Seq<ExprView>) -> ExprView {
    call(member(ExprView::Ident(plain_ident(REGISTRY@)), method), args)
}

/// `const name = init;`
pub open spec fn const_stmt(name: IdentView, init: ExprView) -> StmtView {
    StmtView::Decl(DeclView::Const { name, init })
}

/// Returns the identifier `sym`, without a place in the source.
pub fn ident(sym: String) -> (r: Ident)
    ensures
        r@ == plain_ident(sym@),
{
    Ident { sym, span: Span::dummy(), origin: Origin::Source(0) }
}

/// Returns the expression that refers to `sym`.
pub fn ident_expr(sym: String) -> (r: Expr)
    ensures
        r@ == ExprView::Ident(plain_ident(sym@)),
{
    Expr::Ident(ident(sym))
}

/// Returns the string literal `"value"`.
pub fn str_lit_expr(value: String) -> (r: Expr)
    ensures
        r@ == ExprView::Str(value@),
{
    Expr::Str(value)
}

/// Returns `obj.prop`.
pub fn obj_member_expr(obj: Expr, prop: String) -> (r: Expr)
    ensures
        r@ == member(obj@, prop@),
{
    Expr::Member { obj: Box::new(obj), prop }
}

/// Returns `callee(args)`.
pub fn call_expr(callee: Expr, args: Vec<Expr>) -> (r: Expr)
    ensures
        r@ == call(callee@, views(args@)),
{
    let ghost shown = views(args@);
    let r = Expr::Call { callee: Box::new(callee), args };
    assert(r@->Call_args =~= shown);
    r
}

/// Returns the object literal `{ props }`.
pub fn obj_lit(props: Vec<Prop>) -> (r: Expr)
    ensures
        r@ == ExprView::Object(views(props@)),
{
    Expr::Object(props)
}

/// Returns `const name = init;`.
pub fn decl_var_and_assign_stmt(name: Ident, init: Expr) -> (r: Stmt)
    ensures
        r@ == const_stmt(name@, init@),
{
    Stmt::Decl(Decl::Const { name, init })
}

/// Returns `registry.method(args)`.
pub fn global_module_api_call_expr(method: &str, args: Vec<Expr>) -> (r: Expr)
    ensures
        r@ == global_module_api_call(method@, views(args@)),
{
    let registry = ident_expr(String::from_str(REGISTRY));
    call_expr(obj_member_expr(registry, String::from_str(method)), args)
}

} // verus!

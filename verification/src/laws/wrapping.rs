//! What becomes of a function that is tracked.
use vstd::prelude::*;

use crate::ast::{
    ArrowBodyView, ArrowExpr, ArrowExprView, CallExprView, DeclView, DefaultDeclView, Expr,
    ExprView, FnDeclView, Function, FunctionView, IdentView, NodeView, Span, StmtView, VarDeclView,
};
use crate::expr::{is_fn_expr, unparenthesized, with_unparenthesized};
use crate::names::Trackable;
use crate::policy::{
    wrapped_export_decl, wrapped_export_default_decl, wrapped_export_default_expr, wrapped_node,
};
use crate::wrap::{wrapped_arrow, wrapped_expr, wrapped_function, wrapped_stmts, SignalWrappable};

verus! {

/// `stop`, made in the context of `ident` and standing nowhere in the source.
pub open spec fn stop_beside(ident: IdentView) -> IdentView {
    IdentView { span: Span { lo: 0, hi: 0 }, ctxt: ident.ctxt, sym: "stop"@, optional: false }
}

/// `var stop = ident(args); try { old } finally { stop(); }`
pub open spec fn is_guarded(
    new: Seq<StmtView>,
    old: Seq<StmtView>,
    ident: IdentView,
    args: Seq<u32>,
) -> bool {
    &&& new.len() == 2
    &&& new[0] == StmtView::Var(stop_beside(ident), CallExprView { callee: ident, args })
    &&& new[1] matches StmtView::Try(block, finalizer) && block == old && finalizer.len() == 1
        && finalizer[0] == StmtView::Expr(
        CallExprView { callee: stop_beside(ident), args: Seq::empty() },
    )
}

/// `ident(); old`
pub open spec fn is_begun(new: Seq<StmtView>, old: Seq<StmtView>, ident: IdentView) -> bool {
    &&& new.len() == old.len() + 1
    &&& new[0] == StmtView::Expr(CallExprView { callee: ident, args: Seq::empty() })
    &&& forall|i: int| 0 <= i < old.len() ==> #[trigger] new[i + 1] == old[i]
}

/// `new` tracks the statements `old`, and tells that they are taken for `told`.
pub open spec fn stmts_track(
    new: Seq<StmtView>,
    old: Seq<StmtView>,
    ident: IdentView,
    told: Option<Trackable>,
) -> bool {
    match told {
        None => is_guarded(new, old, ident, Seq::empty()),
        Some(Trackable::Component) => is_guarded(new, old, ident, seq![1u32]),
        Some(Trackable::Hook) => is_guarded(new, old, ident, seq![2u32]),
        Some(Trackable::Unknown) => is_begun(new, old, ident),
    }
}

/// `new` is the function `old`, with the statements of its body tracked.
pub open spec fn function_tracks(
    new: FunctionView,
    old: FunctionView,
    ident: IdentView,
    told: Option<Trackable>,
) -> bool {
    &&& new.span == old.span
    &&& new.params == old.params
    &&& new.body is Some <==> old.body is Some
    &&& old.body is Some ==> stmts_track(new.body->0, old.body->0, ident, told)
}

/// `new` is the arrow function `old`, with the statements of its body tracked, where
/// the body that is an expression stands for the statement that returns it.
pub open spec fn arrow_tracks(
    new: ArrowExprView,
    old: ArrowExprView,
    ident: IdentView,
    told: Option<Trackable>,
) -> bool {
    &&& new.span == old.span
    &&& new.params == old.params
    &&& new.body matches ArrowBodyView::Block(stmts) && match old.body {
        ArrowBodyView::Block(before) => stmts_track(stmts, before, ident, told),
        ArrowBodyView::Expr(expr) => stmts_track(
            stmts,
            seq![StmtView::Return(*expr)],
            ident,
            told,
        ),
    }
}

/// `new` is the expression `old`, in the same parentheses, with the function that it
/// is tracked.
pub open spec fn expr_tracks(
    new: ExprView,
    old: ExprView,
    ident: IdentView,
    told: Option<Trackable>,
) -> bool
    decreases old,
{
    match old {
        ExprView::Fn(f) => new matches ExprView::Fn(g) && g.ident == f.ident && function_tracks(
            g.function,
            f.function,
            ident,
            told,
        ),
        ExprView::Arrow(f) => new matches ExprView::Arrow(g) && arrow_tracks(g, f, ident, told),
        ExprView::Paren(span, inner) => new matches ExprView::Paren(new_span, new_inner) && new_span
            == span && expr_tracks(*new_inner, *inner, ident, told),
        ExprView::Other(_, _) => false,
    }
}

/// `new` is the declaration `old`, with the function that its first binding holds
/// tracked.
pub open spec fn var_decl_tracks(
    new: VarDeclView,
    old: VarDeclView,
    ident: IdentView,
    told: Option<Trackable>,
) -> bool {
    &&& new.span == old.span
    &&& old.decls.len() > 0
    &&& new.decls.len() == old.decls.len()
    &&& forall|i: int| 1 <= i < old.decls.len() ==> #[trigger] new.decls[i] == old.decls[i]
    &&& new.decls[0].name == old.decls[0].name
    &&& new.decls[0].pattern == old.decls[0].pattern
    &&& new.decls[0].init is Some
    &&& old.decls[0].init is Some
    &&& expr_tracks(new.decls[0].init->0, old.decls[0].init->0, ident, told)
}

pub open spec fn fn_decl_tracks(
    new: FnDeclView,
    old: FnDeclView,
    ident: IdentView,
    told: Option<Trackable>,
) -> bool {
    new.ident == old.ident && function_tracks(new.function, old.function, ident, told)
}

/// `new` is the node `old`, with the function that it introduces tracked. Functions
/// that are assigned or that are properties stand in no parentheses.
pub open spec fn node_tracks(
    new: NodeView,
    old: NodeView,
    ident: IdentView,
    told: Option<Trackable>,
) -> bool {
    match old {
        NodeView::VarDecl(n) => new matches NodeView::VarDecl(m) && var_decl_tracks(
            m,
            n,
            ident,
            told,
        ),
        NodeView::FnDecl(n) => new matches NodeView::FnDecl(m) && fn_decl_tracks(m, n, ident, told),
        NodeView::AssignExpr(n) => new matches NodeView::AssignExpr(m) && m.span == n.span && m.left
            == n.left && m.target == n.target && n.right !is Paren && expr_tracks(
            m.right,
            n.right,
            ident,
            told,
        ),
        NodeView::KeyValueProp(n) => new matches NodeView::KeyValueProp(m) && m.key == n.key
            && m.computed == n.computed && n.value !is Paren && expr_tracks(
            m.value,
            n.value,
            ident,
            told,
        ),
        NodeView::MethodProp(n) => new matches NodeView::MethodProp(m) && m.key == n.key
            && m.computed == n.computed && function_tracks(m.function, n.function, ident, told),
        NodeView::ExportDecl(n) => new matches NodeView::ExportDecl(m) && m.span == n.span
            && match n.decl {
            DeclView::Var(v) => m.decl matches DeclView::Var(w) && var_decl_tracks(
                w,
                v,
                ident,
                told,
            ),
            DeclView::Fn(f) => m.decl matches DeclView::Fn(g) && fn_decl_tracks(g, f, ident, told),
            DeclView::Other(_) => false,
        },
        NodeView::ExportDefaultDecl(n) => new matches NodeView::ExportDefaultDecl(m) && m.span
            == n.span && match n.decl {
            DefaultDeclView::Fn(f) => m.decl matches DefaultDeclView::Fn(g) && g.ident == f.ident
                && function_tracks(g.function, f.function, ident, told),
            DefaultDeclView::Other(_) => false,
        },
        NodeView::ExportDefaultExpr(n) => new matches NodeView::ExportDefaultExpr(m) && m.span
            == n.span && expr_tracks(m.expr, n.expr, ident, told),
        NodeView::Jsx(_) => false,
    }
}

/// A body that is tracked begins tracking, holds the old statements whole and in
/// order, and stops tracking at its end; it tells `1` of a component and `2` of a
/// hook. One that is told to be neither only begins tracking before the old
/// statements.
pub proof fn bodies_are_guarded(stmts: Seq<StmtView>, ident: IdentView, told: Option<Trackable>)
    ensures
        stmts_track(wrapped_stmts(stmts, ident, told), stmts, ident, told),
{
    reveal_strlit("stop");
}

/// Functions and arrow functions are tracked whatever their bodies are.
pub proof fn functions_are_guarded(
    function: FunctionView,
    arrow: ArrowExprView,
    ident: IdentView,
    told: Option<Trackable>,
)
    ensures
        function_tracks(wrapped_function(function, ident, told), function, ident, told),
        arrow_tracks(wrapped_arrow(arrow, ident, told), arrow, ident, told),
{
    if let Some(stmts) = function.body {
        bodies_are_guarded(stmts, ident, told);
    }
    match arrow.body {
        ArrowBodyView::Block(stmts) => bodies_are_guarded(stmts, ident, told),
        ArrowBodyView::Expr(expr) => bodies_are_guarded(
            seq![StmtView::Return(*expr)],
            ident,
            told,
        ),
    }
}

/// An arrow function that is an expression, in parentheses or not, still returns that
/// expression once it is tracked: the block holds one statement that returns it, in
/// the `try` where there is one, and else after the call.
pub proof fn arrows_return_their_expression(
    arrow: ArrowExprView,
    expr: ExprView,
    ident: IdentView,
    told: Option<Trackable>,
)
    requires
        arrow.body == ArrowBodyView::Expr(Box::new(expr)),
    ensures
        wrapped_arrow(arrow, ident, told).body is Block,
        ({
            let block = wrapped_arrow(arrow, ident, told).body->Block_0;
            &&& block.len() == 2
            &&& told != Some(Trackable::Unknown) ==> block[0] is Var && block[1] is Try
                && block[1]->Try_0 == seq![StmtView::Return(expr)]
            &&& told == Some(Trackable::Unknown) ==> block[0] is Expr && block[1]
                == StmtView::Return(expr)
        }),
{
}

/// An arrow function that is a block keeps its statements, as every function does.
pub proof fn arrows_keep_their_statements(
    arrow: ArrowExprView,
    function: FunctionView,
    stmts: Seq<StmtView>,
    ident: IdentView,
    told: Option<Trackable>,
)
    requires
        arrow.body == ArrowBodyView::Block(stmts),
        function.body == Some(stmts),
    ensures
        wrapped_arrow(arrow, ident, told).body is Block,
        wrapped_function(function, ident, told).body == Some(
            wrapped_arrow(arrow, ident, told).body->Block_0,
        ),
        told != Some(Trackable::Unknown) ==> wrapped_arrow(arrow, ident, told).body->Block_0[1]
            is Try && wrapped_arrow(arrow, ident, told).body->Block_0[1]->Try_0 == stmts,
{
}

/// Whatever kind of syntax is wrapped, the function that it is is tracked; an
/// expression that is no function stays as it is.
pub proof fn every_function_is_guarded(
    function: Function,
    arrow: ArrowExpr,
    expr: Expr,
    ident: IdentView,
    told: Option<Trackable>,
)
    ensures
        function.model() == function@,
        arrow.model() == arrow@,
        expr.model() == expr@,
        function_tracks(
            Function::spec_wrapped(function@, ident, told),
            function@,
            ident,
            told,
        ),
        arrow_tracks(ArrowExpr::spec_wrapped(arrow@, ident, told), arrow@, ident, told),
        expr@ is Fn || expr@ is Arrow ==> expr_tracks(
            Expr::spec_wrapped(expr@, ident, told),
            expr@,
            ident,
            told,
        ),
        !(expr@ is Fn || expr@ is Arrow) ==> Expr::spec_wrapped(expr@, ident, told) == expr@,
{
    functions_are_guarded(function@, arrow@, ident, told);
    wrapped_exprs_track(expr@, ident, told);
}

proof fn wrapped_exprs_track(expr: ExprView, ident: IdentView, told: Option<Trackable>)
    ensures
        is_fn_expr(expr) ==> expr_tracks(wrapped_expr(expr, ident, told), expr, ident, told),
{
    match expr {
        ExprView::Fn(f) => {
            let arrow = ArrowExprView {
                span: f.function.span,
                params: f.function.params,
                body: ArrowBodyView::Block(Seq::empty()),
            };
            functions_are_guarded(f.function, arrow, ident, told);
        },
        ExprView::Arrow(arrow) => {
            let function = FunctionView { span: arrow.span, params: arrow.params, body: None };
            functions_are_guarded(function, arrow, ident, told);
        },
        _ => {},
    }
}

proof fn parenthesized_exprs_track(expr: ExprView, ident: IdentView, told: Option<Trackable>)
    requires
        is_fn_expr(unparenthesized(expr)),
    ensures
        expr_tracks(
            with_unparenthesized(expr, wrapped_expr(unparenthesized(expr), ident, told)),
            expr,
            ident,
            told,
        ),
    decreases expr,
{
    match expr {
        ExprView::Paren(_, inner) => {
            parenthesized_exprs_track(*inner, ident, told);
        },
        _ => {
            wrapped_exprs_track(expr, ident, told);
        },
    }
}

/// The function that a declaration declares, or that its first binding holds.
pub open spec fn var_decl_holds_function(n: VarDeclView) -> bool {
    n.decls.len() > 0 && n.decls[0].init is Some && is_fn_expr(unparenthesized(n.decls[0].init->0))
}

/// A node introduces a function that can be tracked.
pub open spec fn introduces_function(n: NodeView) -> bool {
    match n {
        NodeView::VarDecl(n) => var_decl_holds_function(n),
        NodeView::FnDecl(_) => true,
        NodeView::AssignExpr(n) => is_fn_expr(n.right),
        NodeView::KeyValueProp(n) => is_fn_expr(n.value),
        NodeView::MethodProp(_) => true,
        NodeView::ExportDecl(n) => match n.decl {
            DeclView::Var(v) => var_decl_holds_function(v),
            DeclView::Fn(_) => true,
            DeclView::Other(_) => false,
        },
        NodeView::ExportDefaultDecl(n) => n.decl is Fn,
        NodeView::ExportDefaultExpr(n) => is_fn_expr(unparenthesized(n.expr)),
        NodeView::Jsx(_) => false,
    }
}

proof fn functions_track(function: FunctionView, ident: IdentView, told: Option<Trackable>)
    ensures
        function_tracks(wrapped_function(function, ident, told), function, ident, told),
{
    if let Some(stmts) = function.body {
        bodies_are_guarded(stmts, ident, told);
    }
}

/// A node that is wrapped stays as it was but for the function that it introduces,
/// which is tracked; parentheses, names, keys, other bindings and spans are kept.
pub proof fn nodes_are_kept_but_for_the_function(
    n: NodeView,
    ident: IdentView,
    told: Option<Trackable>,
)
    requires
        introduces_function(n),
    ensures
        node_tracks(wrapped_node(n, ident, told), n, ident, told),
{
    match n {
        NodeView::VarDecl(n) => parenthesized_exprs_track(n.decls[0].init->0, ident, told),
        NodeView::FnDecl(n) => functions_track(n.function, ident, told),
        NodeView::AssignExpr(n) => wrapped_exprs_track(n.right, ident, told),
        NodeView::KeyValueProp(n) => wrapped_exprs_track(n.value, ident, told),
        NodeView::MethodProp(n) => functions_track(n.function, ident, told),
        NodeView::ExportDecl(n) => match n.decl {
            DeclView::Var(v) => {
                parenthesized_exprs_track(v.decls[0].init->0, ident, told);
                assert(wrapped_export_decl(n, ident, told).span == n.span);
            },
            DeclView::Fn(f) => functions_track(f.function, ident, told),
            DeclView::Other(_) => {},
        },
        NodeView::ExportDefaultDecl(n) => match n.decl {
            DefaultDeclView::Fn(f) => {
                functions_track(f.function, ident, told);
                assert(wrapped_export_default_decl(n, ident, told).span == n.span);
            },
            DefaultDeclView::Other(_) => {},
        },
        NodeView::ExportDefaultExpr(n) => {
            parenthesized_exprs_track(n.expr, ident, told);
            assert(wrapped_export_default_expr(n, ident, told).span == n.span);
        },
        NodeView::Jsx(_) => {},
    }
}

} // verus!

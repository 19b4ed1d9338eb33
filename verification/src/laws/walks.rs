//! What a visit does to the syntax that nodes are made of.
use vstd::prelude::*;

use crate::ast::{
    ArrowBodyView, ArrowExprView, DeclView, DefaultDeclView, ExprView, FunctionView, IdentView,
    NodeView, StmtView, VarDeclView, VarDeclaratorView,
};
use crate::policy::Policy;
use crate::visitor::VisitorView;

verus! {

/// `new` lists the nodes of `old`, each after its visit.
pub open spec fn nodes_visited(
    new: Seq<NodeView>,
    old: Seq<NodeView>,
    policy: Policy,
    ident: IdentView,
) -> bool {
    &&& new.len() == old.len()
    &&& forall|i: int|
        0 <= i < old.len() ==> #[trigger] new[i] == policy.visited_node(ident, old[i])
}

/// `new` lists the statements of `old`, each with its nodes visited.
pub open spec fn stmts_visited(
    new: Seq<StmtView>,
    old: Seq<StmtView>,
    policy: Policy,
    ident: IdentView,
) -> bool
    decreases old,
{
    &&& new.len() == old.len()
    &&& forall|i: int|
        0 <= i < old.len() ==> stmt_visited(new[i], #[trigger] old[i], policy, ident)
}

/// `new` is the statement `old` with its nodes visited. What the transform wrote holds
/// none.
pub open spec fn stmt_visited(
    new: StmtView,
    old: StmtView,
    policy: Policy,
    ident: IdentView,
) -> bool
    decreases old,
{
    match old {
        StmtView::Source(source) => new is Source && new->Source_0.directive == source.directive
            && nodes_visited(new->Source_0.nodes, source.nodes, policy, ident),
        StmtView::Var(_, _) => new == old,
        StmtView::Expr(_) => new == old,
        StmtView::Return(expr) => new is Return && expr_visited(
            new->Return_0,
            expr,
            policy,
            ident,
        ),
        StmtView::Try(block, finalizer) => new is Try && stmts_visited(
            new->Try_0,
            block,
            policy,
            ident,
        ) && stmts_visited(new->Try_1, finalizer, policy, ident),
    }
}

/// `new` is the function `old` with the nodes of its parameters and its body visited.
pub open spec fn function_visited(
    new: FunctionView,
    old: FunctionView,
    policy: Policy,
    ident: IdentView,
) -> bool
    decreases old,
{
    &&& new.span == old.span
    &&& nodes_visited(new.params, old.params, policy, ident)
    &&& match old.body {
        Some(stmts) => new.body is Some && stmts_visited(new.body->0, stmts, policy, ident),
        None => new.body is None,
    }
}

/// `new` is the arrow function `old` with the nodes of its parameters and its body
/// visited; a body that is an expression stays one.
pub open spec fn arrow_visited(
    new: ArrowExprView,
    old: ArrowExprView,
    policy: Policy,
    ident: IdentView,
) -> bool
    decreases old,
{
    &&& new.span == old.span
    &&& nodes_visited(new.params, old.params, policy, ident)
    &&& match old.body {
        ArrowBodyView::Block(stmts) => new.body is Block && stmts_visited(
            new.body->Block_0,
            stmts,
            policy,
            ident,
        ),
        ArrowBodyView::Expr(expr) => new.body is Expr && expr_visited(
            *new.body->Expr_0,
            *expr,
            policy,
            ident,
        ),
    }
}

/// `new` is the expression `old` with its nodes visited, in the same parentheses.
pub open spec fn expr_visited(
    new: ExprView,
    old: ExprView,
    policy: Policy,
    ident: IdentView,
) -> bool
    decreases old,
{
    match old {
        ExprView::Fn(f) => new is Fn && new->Fn_0.ident == f.ident && function_visited(
            new->Fn_0.function,
            f.function,
            policy,
            ident,
        ),
        ExprView::Arrow(arrow) => new is Arrow && arrow_visited(
            new->Arrow_0,
            arrow,
            policy,
            ident,
        ),
        ExprView::Paren(span, inner) => new is Paren && new->Paren_0 == span && expr_visited(
            *new->Paren_1,
            *inner,
            policy,
            ident,
        ),
        ExprView::Other(span, nodes) => new is Other && new->Other_0 == span && nodes_visited(
            new->Other_1,
            nodes,
            policy,
            ident,
        ),
    }
}

/// `new` is the binding `old` with the nodes of its pattern and its value visited.
pub open spec fn declarator_visited(
    new: VarDeclaratorView,
    old: VarDeclaratorView,
    policy: Policy,
    ident: IdentView,
) -> bool {
    &&& new.name == old.name
    &&& nodes_visited(new.pattern, old.pattern, policy, ident)
    &&& match old.init {
        Some(init) => new.init is Some && expr_visited(new.init->0, init, policy, ident),
        None => new.init is None,
    }
}

proof fn nodes_are_visited(policy: Policy, ident: IdentView, nodes: Seq<NodeView>)
    ensures
        nodes_visited(policy.visited_nodes(ident, nodes), nodes, policy, ident),
{
}

proof fn stmts_are_visited(policy: Policy, ident: IdentView, n: Seq<StmtView>)
    ensures
        stmts_visited(policy.visited_stmts(ident, n), n, policy, ident),
    decreases n,
{
    let new = policy.visited_stmts(ident, n);
    assert forall|i: int| 0 <= i < n.len() implies stmt_visited(
        new[i],
        #[trigger] n[i],
        policy,
        ident,
    ) by {
        stmt_is_visited(policy, ident, n[i]);
    }
}

proof fn stmt_is_visited(policy: Policy, ident: IdentView, n: StmtView)
    ensures
        stmt_visited(policy.visited_stmt(ident, n), n, policy, ident),
    decreases n,
{
    match n {
        StmtView::Source(source) => nodes_are_visited(policy, ident, source.nodes),
        StmtView::Return(expr) => expr_is_visited(policy, ident, expr),
        StmtView::Try(block, finalizer) => {
            stmts_are_visited(policy, ident, block);
            stmts_are_visited(policy, ident, finalizer);
        },
        _ => {},
    }
}

proof fn function_is_visited(policy: Policy, ident: IdentView, n: FunctionView)
    ensures
        function_visited(policy.visited_function(ident, n), n, policy, ident),
    decreases n,
{
    nodes_are_visited(policy, ident, n.params);
    if let Some(stmts) = n.body {
        stmts_are_visited(policy, ident, stmts);
    }
}

proof fn arrow_is_visited(policy: Policy, ident: IdentView, n: ArrowExprView)
    ensures
        arrow_visited(policy.visited_arrow(ident, n), n, policy, ident),
    decreases n,
{
    nodes_are_visited(policy, ident, n.params);
    match n.body {
        ArrowBodyView::Block(stmts) => stmts_are_visited(policy, ident, stmts),
        ArrowBodyView::Expr(expr) => expr_is_visited(policy, ident, *expr),
    }
}

proof fn expr_is_visited(policy: Policy, ident: IdentView, n: ExprView)
    ensures
        expr_visited(policy.visited_expr(ident, n), n, policy, ident),
    decreases n,
{
    match n {
        ExprView::Fn(f) => function_is_visited(policy, ident, f.function),
        ExprView::Arrow(arrow) => arrow_is_visited(policy, ident, arrow),
        ExprView::Paren(_, inner) => expr_is_visited(policy, ident, *inner),
        ExprView::Other(_, nodes) => nodes_are_visited(policy, ident, nodes),
    }
}

proof fn declarator_is_visited(policy: Policy, ident: IdentView, n: VarDeclaratorView)
    ensures
        declarator_visited(policy.visited_declarator(ident, n), n, policy, ident),
{
    nodes_are_visited(policy, ident, n.pattern);
    if let Some(init) = n.init {
        expr_is_visited(policy, ident, init);
    }
}

/// Outside every node, a visit of syntax visits each node in it that stands in no
/// other, and keeps all else: parentheses, spans, names and the order of statements.
pub proof fn syntax_is_visited_node_by_node(
    policy: Policy,
    ident: IdentView,
    expr: ExprView,
    function: FunctionView,
    arrow: ArrowExprView,
    stmt: StmtView,
    stmts: Seq<StmtView>,
    declarator: VarDeclaratorView,
)
    ensures
        expr_visited(policy.visited_expr(ident, expr), expr, policy, ident),
        function_visited(policy.visited_function(ident, function), function, policy, ident),
        arrow_visited(policy.visited_arrow(ident, arrow), arrow, policy, ident),
        stmt_visited(policy.visited_stmt(ident, stmt), stmt, policy, ident),
        stmts_visited(policy.visited_stmts(ident, stmts), stmts, policy, ident),
        declarator_visited(
            policy.visited_declarator(ident, declarator),
            declarator,
            policy,
            ident,
        ),
{
    expr_is_visited(policy, ident, expr);
    function_is_visited(policy, ident, function);
    arrow_is_visited(policy, ident, arrow);
    stmt_is_visited(policy, ident, stmt);
    stmts_are_visited(policy, ident, stmts);
    declarator_is_visited(policy, ident, declarator);
}

/// A visit of the bindings of a declaration visits each of them, and does not track
/// the declaration itself.
pub proof fn bindings_are_visited_one_by_one(policy: Policy, ident: IdentView, n: VarDeclView, i: int)
    requires
        0 <= i < n.decls.len(),
    ensures
        policy.visited_declarators(ident, n).span == n.span,
        policy.visited_declarators(ident, n).decls.len() == n.decls.len(),
        declarator_visited(
            policy.visited_declarators(ident, n).decls[i],
            n.decls[i],
            policy,
            ident,
        ),
{
    declarator_is_visited(policy, ident, n.decls[i]);
}

/// A declaration that is visited as such becomes what the node that it is becomes; the
/// nodes in other declarations are visited one by one.
pub proof fn declarations_are_visited_as_nodes(
    policy: Policy,
    ident: IdentView,
    n: DeclView,
    default_decl: DefaultDeclView,
)
    ensures
        match n {
            DeclView::Var(v) => policy.visited_decl(ident, n) is Var && policy.visited_node(
                ident,
                NodeView::VarDecl(v),
            ) == NodeView::VarDecl(policy.visited_decl(ident, n)->Var_0) && policy.tracks_decl(n)
                == policy.tracks_node(NodeView::VarDecl(v)),
            DeclView::Fn(f) => policy.visited_decl(ident, n) is Fn && policy.visited_node(
                ident,
                NodeView::FnDecl(f),
            ) == NodeView::FnDecl(policy.visited_decl(ident, n)->Fn_0) && policy.tracks_decl(n)
                == policy.tracks_node(NodeView::FnDecl(f)),
            DeclView::Other(nodes) => policy.visited_decl(ident, n) is Other && nodes_visited(
                policy.visited_decl(ident, n)->Other_0,
                nodes,
                policy,
                ident,
            ) && (policy.tracks_decl(n) <==> nodes_track(nodes, policy)),
        },
        match default_decl {
            DefaultDeclView::Fn(f) => {
                &&& policy.visited_default_decl(ident, default_decl) is Fn
                &&& policy.visited_default_decl(ident, default_decl)->Fn_0.ident == f.ident
                &&& function_visited(
                    policy.visited_default_decl(ident, default_decl)->Fn_0.function,
                    f.function,
                    policy,
                    ident,
                )
                &&& policy.tracks_default_decl(default_decl) == policy.tracks_function(f.function)
            },
            DefaultDeclView::Other(nodes) => {
                &&& policy.visited_default_decl(ident, default_decl) is Other
                &&& nodes_visited(
                    policy.visited_default_decl(ident, default_decl)->Other_0,
                    nodes,
                    policy,
                    ident,
                )
                &&& policy.tracks_default_decl(default_decl) <==> nodes_track(nodes, policy)
            },
        },
{
    if let DefaultDeclView::Fn(f) = default_decl {
        function_is_visited(policy, ident, f.function);
    }
}

/// Some of the nodes is tracked.
pub open spec fn nodes_track(nodes: Seq<NodeView>, policy: Policy) -> bool {
    exists|i: int| 0 <= i < nodes.len() && policy.tracks_node(#[trigger] nodes[i])
}

/// Something is tracked in syntax if and only if something is tracked in a part of it.
pub proof fn syntax_tracks_through_its_parts(
    policy: Policy,
    expr: ExprView,
    function: FunctionView,
    arrow: ArrowExprView,
    stmt: StmtView,
    stmts: Seq<StmtView>,
    declarator: VarDeclaratorView,
    var_decl: VarDeclView,
)
    ensures
        policy.tracks_expr(expr) <==> match expr {
            ExprView::Fn(f) => policy.tracks_function(f.function),
            ExprView::Arrow(arrow) => policy.tracks_arrow(arrow),
            ExprView::Paren(_, inner) => policy.tracks_expr(*inner),
            ExprView::Other(_, nodes) => nodes_track(nodes, policy),
        },
        policy.tracks_function(function) <==> nodes_track(function.params, policy) || (
        function.body is Some && policy.tracks_stmts(function.body->0)),
        policy.tracks_arrow(arrow) <==> nodes_track(arrow.params, policy) || match arrow.body {
            ArrowBodyView::Block(stmts) => policy.tracks_stmts(stmts),
            ArrowBodyView::Expr(expr) => policy.tracks_expr(*expr),
        },
        policy.tracks_stmt(stmt) <==> match stmt {
            StmtView::Source(source) => nodes_track(source.nodes, policy),
            StmtView::Var(_, _) => false,
            StmtView::Expr(_) => false,
            StmtView::Return(expr) => policy.tracks_expr(expr),
            StmtView::Try(block, finalizer) => policy.tracks_stmts(block) || policy.tracks_stmts(
                finalizer,
            ),
        },
        policy.tracks_stmts(stmts) <==> exists|i: int|
            0 <= i < stmts.len() && policy.tracks_stmt(#[trigger] stmts[i]),
        policy.tracks_declarator(declarator) <==> nodes_track(declarator.pattern, policy) || (
        declarator.init is Some && policy.tracks_expr(declarator.init->0)),
        policy.tracks_declarators(var_decl) <==> exists|i: int|
            0 <= i < var_decl.decls.len() && policy.tracks_declarator(#[trigger] var_decl.decls[i]),
{
    assert(forall|nodes: Seq<NodeView>| #[trigger]
        policy.tracks_nodes(nodes) <==> nodes_track(nodes, policy));
}

/// Outside every node, a visitor does to syntax what its policy says, under the name
/// that it has for tracking; in a node, it changes nothing and tracks nothing.
pub proof fn visitors_follow_their_policy(
    visitor: VisitorView,
    expr: ExprView,
    function: FunctionView,
    arrow: ArrowExprView,
    stmt: StmtView,
    stmts: Seq<StmtView>,
    declarator: VarDeclaratorView,
    declarators: VarDeclView,
    decl: DeclView,
    default_decl: DefaultDeclView,
)
    ensures
        visitor.depth == 0 ==> visitor.visited_expr(expr) == visitor.policy.visited_expr(
            visitor.import_ident(),
            expr,
        ) && visitor.tracks_expr(expr) == visitor.policy.tracks_expr(expr),
        visitor.depth > 0 ==> visitor.visited_expr(expr) == expr && !visitor.tracks_expr(expr),
        visitor.depth == 0 ==> visitor.visited_function(function) == visitor.policy.visited_function(
            visitor.import_ident(),
            function,
        ) && visitor.tracks_function(function) == visitor.policy.tracks_function(function),
        visitor.depth > 0 ==> visitor.visited_function(function) == function && !visitor.tracks_function(function),
        visitor.depth == 0 ==> visitor.visited_arrow(arrow) == visitor.policy.visited_arrow(
            visitor.import_ident(),
            arrow,
        ) && visitor.tracks_arrow(arrow) == visitor.policy.tracks_arrow(arrow),
        visitor.depth > 0 ==> visitor.visited_arrow(arrow) == arrow && !visitor.tracks_arrow(arrow),
        visitor.depth == 0 ==> visitor.visited_stmt(stmt) == visitor.policy.visited_stmt(
            visitor.import_ident(),
            stmt,
        ) && visitor.tracks_stmt(stmt) == visitor.policy.tracks_stmt(stmt),
        visitor.depth > 0 ==> visitor.visited_stmt(stmt) == stmt && !visitor.tracks_stmt(stmt),
        visitor.depth == 0 ==> visitor.visited_stmts(stmts) == visitor.policy.visited_stmts(
            visitor.import_ident(),
            stmts,
        ) && visitor.tracks_stmts(stmts) == visitor.policy.tracks_stmts(stmts),
        visitor.depth > 0 ==> visitor.visited_stmts(stmts) == stmts && !visitor.tracks_stmts(stmts),
        visitor.depth == 0 ==> visitor.visited_declarator(declarator) == visitor.policy.visited_declarator(
            visitor.import_ident(),
            declarator,
        ) && visitor.tracks_declarator(declarator) == visitor.policy.tracks_declarator(declarator),
        visitor.depth > 0 ==> visitor.visited_declarator(declarator) == declarator && !visitor.tracks_declarator(declarator),
        visitor.depth == 0 ==> visitor.visited_declarators(declarators) == visitor.policy.visited_declarators(
            visitor.import_ident(),
            declarators,
        ) && visitor.tracks_declarators(declarators) == visitor.policy.tracks_declarators(declarators),
        visitor.depth > 0 ==> visitor.visited_declarators(declarators) == declarators && !visitor.tracks_declarators(declarators),
        visitor.depth == 0 ==> visitor.visited_decl(decl) == visitor.policy.visited_decl(
            visitor.import_ident(),
            decl,
        ) && visitor.tracks_decl(decl) == visitor.policy.tracks_decl(decl),
        visitor.depth > 0 ==> visitor.visited_decl(decl) == decl && !visitor.tracks_decl(decl),
        visitor.depth == 0 ==> visitor.visited_default_decl(default_decl) == visitor.policy.visited_default_decl(
            visitor.import_ident(),
            default_decl,
        ) && visitor.tracks_default_decl(default_decl) == visitor.policy.tracks_default_decl(default_decl),
        visitor.depth > 0 ==> visitor.visited_default_decl(default_decl) == default_decl && !visitor.tracks_default_decl(default_decl),
{
}

} // verus!

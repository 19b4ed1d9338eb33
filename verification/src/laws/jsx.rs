//! Where JSX is found.
use vstd::prelude::*;

use crate::ast::{
    ArrowBodyView, ArrowExpr, ArrowExprView, DeclView, DefaultDeclView, ExprView, FnDecl, FnExpr,
    Function, FunctionView, NodeView, StmtView, VarDeclView, VarDeclaratorView,
};
use crate::detect::{
    arrow_has_jsx, declarator_has_jsx, expr_has_jsx, function_has_jsx, node_has_jsx,
    nodes_have_jsx, stmt_has_jsx, stmts_have_jsx, var_decl_has_jsx, Detectable,
};
use crate::expr::FnLike;

verus! {

/// A part of a program, of any kind.
pub enum Part {
    Node(NodeView),
    Stmt(StmtView),
    Expr(ExprView),
    Function(FunctionView),
    Arrow(ArrowExprView),
    Declarator(VarDeclaratorView),
}

/// The part is one of the nodes.
pub open spec fn among_nodes(part: Part, nodes: Seq<NodeView>) -> bool {
    part matches Part::Node(n) && nodes.contains(n)
}

/// The part is one of the statements.
pub open spec fn among_stmts(part: Part, stmts: Seq<StmtView>) -> bool {
    part matches Part::Stmt(n) && stmts.contains(n)
}

/// The part is one of the bindings.
pub open spec fn among_declarators(part: Part, decls: Seq<VarDeclaratorView>) -> bool {
    part matches Part::Declarator(n) && decls.contains(n)
}

/// `part` stands directly in `whole`.
pub open spec fn child_of(part: Part, whole: Part) -> bool {
    match whole {
        Part::Function(n) => {
            ||| among_nodes(part, n.params)
            ||| n.body matches Some(stmts) && among_stmts(part, stmts)
        },
        Part::Arrow(n) => {
            ||| among_nodes(part, n.params)
            ||| match n.body {
                ArrowBodyView::Block(stmts) => among_stmts(part, stmts),
                ArrowBodyView::Expr(expr) => part == Part::Expr(*expr),
            }
        },
        Part::Expr(ExprView::Fn(n)) => part == Part::Function(n.function),
        Part::Expr(ExprView::Arrow(n)) => part == Part::Arrow(n),
        Part::Expr(ExprView::Paren(_, inner)) => part == Part::Expr(*inner),
        Part::Expr(ExprView::Other(_, nodes)) => among_nodes(part, nodes),
        Part::Stmt(StmtView::Source(n)) => among_nodes(part, n.nodes),
        Part::Stmt(StmtView::Var(_, _)) => false,
        Part::Stmt(StmtView::Expr(_)) => false,
        Part::Stmt(StmtView::Return(expr)) => part == Part::Expr(expr),
        Part::Stmt(StmtView::Try(block, finalizer)) => {
            ||| among_stmts(part, block)
            ||| among_stmts(part, finalizer)
        },
        Part::Declarator(n) => {
            ||| among_nodes(part, n.pattern)
            ||| n.init matches Some(init) && part == Part::Expr(init)
        },
        Part::Node(NodeView::VarDecl(n)) => among_declarators(part, n.decls),
        Part::Node(NodeView::FnDecl(n)) => part == Part::Function(n.function),
        Part::Node(NodeView::AssignExpr(n)) => {
            ||| among_nodes(part, n.target)
            ||| part == Part::Expr(n.right)
        },
        Part::Node(NodeView::KeyValueProp(n)) => {
            ||| among_nodes(part, n.computed)
            ||| part == Part::Expr(n.value)
        },
        Part::Node(NodeView::MethodProp(n)) => {
            ||| among_nodes(part, n.computed)
            ||| part == Part::Function(n.function)
        },
        Part::Node(NodeView::ExportDecl(n)) => match n.decl {
            DeclView::Var(var_decl) => part == Part::Node(NodeView::VarDecl(var_decl)),
            DeclView::Fn(fn_decl) => part == Part::Node(NodeView::FnDecl(fn_decl)),
            DeclView::Other(nodes) => among_nodes(part, nodes),
        },
        Part::Node(NodeView::ExportDefaultDecl(n)) => match n.decl {
            DefaultDeclView::Fn(f) => part == Part::Function(f.function),
            DefaultDeclView::Other(nodes) => among_nodes(part, nodes),
        },
        Part::Node(NodeView::ExportDefaultExpr(n)) => part == Part::Expr(n.expr),
        Part::Node(NodeView::Jsx(nodes)) => among_nodes(part, nodes),
    }
}

/// Each part of the chain stands directly in the one before it.
pub open spec fn is_chain(chain: Seq<Part>) -> bool {
    forall|i: int| 0 < i < chain.len() ==> child_of(#[trigger] chain[i], chain[i - 1])
}

/// The part is JSX.
pub open spec fn is_jsx(part: Part) -> bool {
    part is Node && part->Node_0 is Jsx
}

/// The chain leads from `whole` down to JSX.
pub open spec fn leads_to_jsx(chain: Seq<Part>, whole: Part) -> bool {
    &&& chain.len() > 0
    &&& chain[0] == whole
    &&& is_chain(chain)
    &&& is_jsx(chain.last())
}

/// JSX stands in the part, however deep, or the part is JSX.
pub open spec fn holds_jsx(whole: Part) -> bool {
    exists|chain: Seq<Part>| leads_to_jsx(chain, whole)
}

/// What is decided of the part.
pub open spec fn has_jsx(part: Part) -> bool {
    match part {
        Part::Node(n) => node_has_jsx(n),
        Part::Stmt(n) => stmt_has_jsx(n),
        Part::Expr(n) => expr_has_jsx(n),
        Part::Function(n) => function_has_jsx(n),
        Part::Arrow(n) => arrow_has_jsx(n),
        Part::Declarator(n) => declarator_has_jsx(n),
    }
}

/// What is found in a part is found in whatever the part stands in.
pub proof fn jsx_is_found_through_children(part: Part, whole: Part)
    requires
        child_of(part, whole),
        has_jsx(part),
    ensures
        has_jsx(whole),
{
    reveal_with_fuel(node_has_jsx, 2);
    reveal_with_fuel(nodes_have_jsx, 2);
    reveal_with_fuel(stmts_have_jsx, 2);
    reveal_with_fuel(var_decl_has_jsx, 2);
    assert(forall|nodes: Seq<NodeView>| #[trigger]
        among_nodes(part, nodes) ==> nodes_have_jsx(nodes));
    assert(forall|stmts: Seq<StmtView>| #[trigger]
        among_stmts(part, stmts) ==> stmts_have_jsx(stmts));
}

proof fn chains_are_found(chain: Seq<Part>)
    requires
        chain.len() > 0,
        is_chain(chain),
        has_jsx(chain.last()),
    ensures
        has_jsx(chain[0]),
    decreases chain.len(),
{
    if chain.len() > 1 {
        let rest = chain.drop_first();
        assert forall|i: int| 0 < i < rest.len() implies child_of(#[trigger] rest[i], rest[i - 1]) by {
            assert(child_of(chain[i + 1], chain[i]));
        }
        assert(rest.last() == chain.last());
        chains_are_found(rest);
        assert(child_of(chain[1], chain[0]));
        jsx_is_found_through_children(rest[0], chain[0]);
    }
}

proof fn longer(chain: Seq<Part>, part: Part, whole: Part) -> (r: Seq<Part>)
    requires
        leads_to_jsx(chain, part),
        child_of(part, whole),
    ensures
        leads_to_jsx(r, whole),
{
    let r = seq![whole] + chain;
    assert forall|i: int| 0 < i < r.len() implies child_of(#[trigger] r[i], r[i - 1]) by {
        if i > 1 {
            assert(child_of(chain[i - 1], chain[i - 2]));
        }
    }
    r
}

proof fn chain_from_nodes(nodes: Seq<NodeView>, whole: Part) -> (chain: Seq<Part>)
    requires
        nodes_have_jsx(nodes),
        forall|n: NodeView| nodes.contains(n) ==> child_of(Part::Node(n), whole),
    ensures
        leads_to_jsx(chain, whole),
    decreases nodes,
{
    let i = choose|i: int| 0 <= i < nodes.len() && node_has_jsx(#[trigger] nodes[i]);
    assert(nodes.contains(nodes[i]));
    let inner = chain_from_node(nodes[i]);
    longer(inner, Part::Node(nodes[i]), whole)
}

proof fn chain_from_stmts(stmts: Seq<StmtView>, whole: Part) -> (chain: Seq<Part>)
    requires
        stmts_have_jsx(stmts),
        forall|n: StmtView| stmts.contains(n) ==> child_of(Part::Stmt(n), whole),
    ensures
        leads_to_jsx(chain, whole),
    decreases stmts,
{
    let i = choose|i: int| 0 <= i < stmts.len() && stmt_has_jsx(#[trigger] stmts[i]);
    assert(stmts.contains(stmts[i]));
    let inner = chain_from_stmt(stmts[i]);
    longer(inner, Part::Stmt(stmts[i]), whole)
}

proof fn chain_from_function(n: FunctionView) -> (chain: Seq<Part>)
    requires
        function_has_jsx(n),
    ensures
        leads_to_jsx(chain, Part::Function(n)),
    decreases n,
{
    if nodes_have_jsx(n.params) {
        chain_from_nodes(n.params, Part::Function(n))
    } else {
        chain_from_stmts(n.body->0, Part::Function(n))
    }
}

proof fn chain_from_arrow(n: ArrowExprView) -> (chain: Seq<Part>)
    requires
        arrow_has_jsx(n),
    ensures
        leads_to_jsx(chain, Part::Arrow(n)),
    decreases n,
{
    if nodes_have_jsx(n.params) {
        chain_from_nodes(n.params, Part::Arrow(n))
    } else {
        match n.body {
            ArrowBodyView::Block(stmts) => chain_from_stmts(stmts, Part::Arrow(n)),
            ArrowBodyView::Expr(expr) => {
                let inner = chain_from_expr(*expr);
                longer(inner, Part::Expr(*expr), Part::Arrow(n))
            },
        }
    }
}

proof fn chain_from_expr(n: ExprView) -> (chain: Seq<Part>)
    requires
        expr_has_jsx(n),
    ensures
        leads_to_jsx(chain, Part::Expr(n)),
    decreases n,
{
    match n {
        ExprView::Fn(f) => {
            let inner = chain_from_function(f.function);
            longer(inner, Part::Function(f.function), Part::Expr(n))
        },
        ExprView::Arrow(arrow) => {
            let inner = chain_from_arrow(arrow);
            longer(inner, Part::Arrow(arrow), Part::Expr(n))
        },
        ExprView::Paren(_, expr) => {
            let inner = chain_from_expr(*expr);
            longer(inner, Part::Expr(*expr), Part::Expr(n))
        },
        ExprView::Other(_, nodes) => chain_from_nodes(nodes, Part::Expr(n)),
    }
}

proof fn chain_from_stmt(n: StmtView) -> (chain: Seq<Part>)
    requires
        stmt_has_jsx(n),
    ensures
        leads_to_jsx(chain, Part::Stmt(n)),
    decreases n,
{
    match n {
        StmtView::Source(source) => chain_from_nodes(source.nodes, Part::Stmt(n)),
        StmtView::Return(expr) => {
            let inner = chain_from_expr(expr);
            longer(inner, Part::Expr(expr), Part::Stmt(n))
        },
        StmtView::Try(block, finalizer) => if stmts_have_jsx(block) {
            chain_from_stmts(block, Part::Stmt(n))
        } else {
            chain_from_stmts(finalizer, Part::Stmt(n))
        },
        _ => seq![],
    }
}

proof fn chain_from_declarator(n: VarDeclaratorView) -> (chain: Seq<Part>)
    requires
        declarator_has_jsx(n),
    ensures
        leads_to_jsx(chain, Part::Declarator(n)),
    decreases n,
{
    if nodes_have_jsx(n.pattern) {
        chain_from_nodes(n.pattern, Part::Declarator(n))
    } else {
        let inner = chain_from_expr(n.init->0);
        longer(inner, Part::Expr(n.init->0), Part::Declarator(n))
    }
}

proof fn chain_from_var_decl(n: VarDeclView) -> (chain: Seq<Part>)
    requires
        var_decl_has_jsx(n),
    ensures
        leads_to_jsx(chain, Part::Node(NodeView::VarDecl(n))),
    decreases n,
{
    let i = choose|i: int| 0 <= i < n.decls.len() && declarator_has_jsx(#[trigger] n.decls[i]);
    assert(n.decls.contains(n.decls[i]));
    let inner = chain_from_declarator(n.decls[i]);
    longer(inner, Part::Declarator(n.decls[i]), Part::Node(NodeView::VarDecl(n)))
}

proof fn chain_from_node(n: NodeView) -> (chain: Seq<Part>)
    requires
        node_has_jsx(n),
    ensures
        leads_to_jsx(chain, Part::Node(n)),
    decreases n,
{
    let whole = Part::Node(n);
    match n {
        NodeView::VarDecl(n) => chain_from_var_decl(n),
        NodeView::FnDecl(n) => {
            let inner = chain_from_function(n.function);
            longer(inner, Part::Function(n.function), whole)
        },
        NodeView::AssignExpr(n) => if nodes_have_jsx(n.target) {
            chain_from_nodes(n.target, whole)
        } else {
            let inner = chain_from_expr(n.right);
            longer(inner, Part::Expr(n.right), whole)
        },
        NodeView::KeyValueProp(n) => if nodes_have_jsx(n.computed) {
            chain_from_nodes(n.computed, whole)
        } else {
            let inner = chain_from_expr(n.value);
            longer(inner, Part::Expr(n.value), whole)
        },
        NodeView::MethodProp(n) => if nodes_have_jsx(n.computed) {
            chain_from_nodes(n.computed, whole)
        } else {
            let inner = chain_from_function(n.function);
            longer(inner, Part::Function(n.function), whole)
        },
        NodeView::ExportDecl(n) => match n.decl {
            DeclView::Var(var_decl) => {
                let inner = chain_from_var_decl(var_decl);
                longer(inner, Part::Node(NodeView::VarDecl(var_decl)), whole)
            },
            DeclView::Fn(fn_decl) => {
                let found = chain_from_function(fn_decl.function);
                let inner = longer(found, Part::Function(fn_decl.function), Part::Node(NodeView::FnDecl(fn_decl)));
                longer(inner, Part::Node(NodeView::FnDecl(fn_decl)), whole)
            },
            DeclView::Other(nodes) => chain_from_nodes(nodes, whole),
        },
        NodeView::ExportDefaultDecl(n) => match n.decl {
            DefaultDeclView::Fn(f) => {
                let inner = chain_from_function(f.function);
                longer(inner, Part::Function(f.function), whole)
            },
            DefaultDeclView::Other(nodes) => chain_from_nodes(nodes, whole),
        },
        NodeView::ExportDefaultExpr(n) => {
            let inner = chain_from_expr(n.expr);
            longer(inner, Part::Expr(n.expr), whole)
        },
        NodeView::Jsx(_) => {
            let chain = seq![whole];
            assert(is_chain(chain));
            chain
        },
    }
}

/// JSX is found in a part if and only if some chain of children leads from the part
/// to JSX: through parameters, statements, bindings and their values, right sides,
/// properties, methods, exports, parentheses and nested functions.
pub proof fn jsx_is_found_wherever_it_stands(part: Part)
    ensures
        has_jsx(part) <==> holds_jsx(part),
{
    if has_jsx(part) {
        let chain = match part {
            Part::Node(n) => chain_from_node(n),
            Part::Stmt(n) => chain_from_stmt(n),
            Part::Expr(n) => chain_from_expr(n),
            Part::Function(n) => chain_from_function(n),
            Part::Arrow(n) => chain_from_arrow(n),
            Part::Declarator(n) => chain_from_declarator(n),
        };
        assert(leads_to_jsx(chain, part));
    }
    if holds_jsx(part) {
        let chain = choose|chain: Seq<Part>| leads_to_jsx(chain, part);
        chains_are_found(chain);
    }
}

/// A function that puts JSX in a variable holds JSX, wherever in the value of the
/// variable it stands and whichever binding of the declaration holds it.
pub proof fn jsx_in_variables_is_found(
    function: FunctionView,
    i: int,
    j: int,
    n: VarDeclView,
    k: int,
    nodes: Seq<NodeView>,
    l: int,
)
    requires
        function.body matches Some(stmts) && 0 <= i < stmts.len() && (stmts[i] matches StmtView::Source(
            source,
        ) && 0 <= j < source.nodes.len() && source.nodes[j] == NodeView::VarDecl(n)),
        0 <= k < n.decls.len(),
        n.decls[k].init matches Some(ExprView::Other(_, found)) && found == nodes,
        0 <= l < nodes.len(),
        nodes[l] is Jsx,
    ensures
        function_has_jsx(function),
{
    let stmts = function.body->0;
    let source = stmts[i]->Source_0;
    let init = n.decls[k].init->0;
    let chain = seq![
        Part::Function(function),
        Part::Stmt(stmts[i]),
        Part::Node(source.nodes[j]),
        Part::Declarator(n.decls[k]),
        Part::Expr(init),
        Part::Node(nodes[l]),
    ];
    assert(stmts.contains(stmts[i]));
    assert(source.nodes.contains(source.nodes[j]));
    assert(n.decls.contains(n.decls[k]));
    assert(nodes.contains(nodes[l]));
    assert(child_of(chain[1], chain[0]));
    assert(child_of(chain[2], chain[1]));
    assert(child_of(chain[3], chain[2]));
    assert(child_of(chain[4], chain[3]));
    assert(child_of(chain[5], chain[4]));
    assert(leads_to_jsx(chain, Part::Function(function)));
    jsx_is_found_wherever_it_stands(Part::Function(function));
}

/// Whatever kind of function is asked, `has_jsx` tells whether a chain of children
/// leads from it to JSX.
pub proof fn every_function_is_searched(
    function: Function,
    fn_decl: FnDecl,
    fn_expr: FnExpr,
    arrow: ArrowExpr,
    like: FnLike<'_>,
)
    ensures
        function.spec_has_jsx() <==> holds_jsx(Part::Function(function@)),
        fn_decl.spec_has_jsx() <==> holds_jsx(Part::Function(fn_decl@.function)),
        fn_expr.spec_has_jsx() <==> holds_jsx(Part::Function(fn_expr@.function)),
        arrow.spec_has_jsx() <==> holds_jsx(Part::Arrow(arrow@)),
        like.spec_has_jsx() <==> holds_jsx(Part::Expr(like@)),
{
    jsx_is_found_wherever_it_stands(Part::Function(function@));
    jsx_is_found_wherever_it_stands(Part::Function(fn_decl@.function));
    jsx_is_found_wherever_it_stands(Part::Function(fn_expr@.function));
    jsx_is_found_wherever_it_stands(Part::Arrow(arrow@));
    jsx_is_found_wherever_it_stands(Part::Expr(like@));
}

} // verus!

//! Whether syntax holds JSX.
use vstd::prelude::*;

use crate::ast::{
    decls_view, nodes_view, stmts_view, ArrowBody, ArrowBodyView, ArrowExpr, ArrowExprView, Decl,
    DeclView, DefaultDecl, DefaultDeclView, Expr, ExprView, FnDecl, FnExpr, Function, FunctionView,
    Node, NodeView, Stmt, StmtView, VarDecl, VarDeclView, VarDeclarator, VarDeclaratorView,
};

verus! {

pub open spec fn nodes_have_jsx(nodes: Seq<NodeView>) -> bool
    decreases nodes,
{
    exists|i: int| 0 <= i < nodes.len() && node_has_jsx(#[trigger] nodes[i])
}

pub open spec fn stmts_have_jsx(stmts: Seq<StmtView>) -> bool
    decreases stmts,
{
    exists|i: int| 0 <= i < stmts.len() && stmt_has_jsx(#[trigger] stmts[i])
}

pub open spec fn function_has_jsx(function: FunctionView) -> bool
    decreases function,
{
    ||| nodes_have_jsx(function.params)
    ||| function.body matches Some(stmts) && stmts_have_jsx(stmts)
}

pub open spec fn arrow_has_jsx(arrow: ArrowExprView) -> bool
    decreases arrow,
{
    ||| nodes_have_jsx(arrow.params)
    ||| match arrow.body {
        ArrowBodyView::Block(stmts) => stmts_have_jsx(stmts),
        ArrowBodyView::Expr(expr) => expr_has_jsx(*expr),
    }
}

pub open spec fn expr_has_jsx(expr: ExprView) -> bool
    decreases expr,
{
    match expr {
        ExprView::Fn(f) => function_has_jsx(f.function),
        ExprView::Arrow(arrow) => arrow_has_jsx(arrow),
        ExprView::Paren(_, inner) => expr_has_jsx(*inner),
        ExprView::Other(_, nodes) => nodes_have_jsx(nodes),
    }
}

pub open spec fn stmt_has_jsx(stmt: StmtView) -> bool
    decreases stmt,
{
    match stmt {
        StmtView::Source(source) => nodes_have_jsx(source.nodes),
        StmtView::Var(_, _) => false,
        StmtView::Expr(_) => false,
        StmtView::Return(expr) => expr_has_jsx(expr),
        StmtView::Try(block, finalizer) => stmts_have_jsx(block) || stmts_have_jsx(finalizer),
    }
}

pub open spec fn declarator_has_jsx(decl: VarDeclaratorView) -> bool
    decreases decl,
{
    ||| nodes_have_jsx(decl.pattern)
    ||| decl.init matches Some(init) && expr_has_jsx(init)
}

pub open spec fn var_decl_has_jsx(var_decl: VarDeclView) -> bool
    decreases var_decl,
{
    exists|i: int|
        0 <= i < var_decl.decls.len() && declarator_has_jsx(#[trigger] var_decl.decls[i])
}

/// A JSX element or fragment stands in the node, at any depth.
pub open spec fn node_has_jsx(node: NodeView) -> bool
    decreases node,
{
    match node {
        NodeView::VarDecl(n) => var_decl_has_jsx(n),
        NodeView::FnDecl(n) => function_has_jsx(n.function),
        NodeView::AssignExpr(n) => nodes_have_jsx(n.target) || expr_has_jsx(n.right),
        NodeView::KeyValueProp(n) => nodes_have_jsx(n.computed) || expr_has_jsx(n.value),
        NodeView::MethodProp(n) => nodes_have_jsx(n.computed) || function_has_jsx(n.function),
        NodeView::ExportDecl(n) => match n.decl {
            DeclView::Var(var_decl) => var_decl_has_jsx(var_decl),
            DeclView::Fn(fn_decl) => function_has_jsx(fn_decl.function),
            DeclView::Other(nodes) => nodes_have_jsx(nodes),
        },
        NodeView::ExportDefaultDecl(n) => match n.decl {
            DefaultDeclView::Fn(f) => function_has_jsx(f.function),
            DefaultDeclView::Other(nodes) => nodes_have_jsx(nodes),
        },
        NodeView::ExportDefaultExpr(n) => expr_has_jsx(n.expr),
        NodeView::Jsx(_) => true,
    }
}

/// Functions in which JSX can be looked for.
pub trait Detectable {
    spec fn spec_has_jsx(&self) -> bool;

    /// Whether a JSX element or fragment stands in the function, at any depth.
    fn has_jsx(&self) -> (r: bool)
        ensures
            r == self.spec_has_jsx(),
    ;
}

impl Detectable for Function {
    open spec fn spec_has_jsx(&self) -> bool {
        function_has_jsx(self@)
    }

    fn has_jsx(&self) -> (r: bool) {
        find_in_function(self)
    }
}

impl Detectable for FnDecl {
    open spec fn spec_has_jsx(&self) -> bool {
        function_has_jsx(self@.function)
    }

    fn has_jsx(&self) -> (r: bool) {
        find_in_function(&self.function)
    }
}

impl Detectable for FnExpr {
    open spec fn spec_has_jsx(&self) -> bool {
        function_has_jsx(self@.function)
    }

    fn has_jsx(&self) -> (r: bool) {
        find_in_function(&self.function)
    }
}

impl Detectable for ArrowExpr {
    open spec fn spec_has_jsx(&self) -> bool {
        arrow_has_jsx(self@)
    }

    fn has_jsx(&self) -> (r: bool) {
        find_in_arrow(self)
    }
}

fn find_in_nodes(nodes: &Vec<Node>) -> (r: bool)
    ensures
        r == nodes_have_jsx(nodes_view(nodes@)),
    decreases nodes,
{
    let mut i: usize = 0;
    while i < nodes.len()
        invariant
            i <= nodes.len(),
            forall|j: int| 0 <= j < i ==> !node_has_jsx(#[trigger] nodes_view(nodes@)[j]),
        decreases nodes.len() - i,
    {
        if find_in_node(&nodes[i]) {
            assert(node_has_jsx(nodes_view(nodes@)[i as int]));
            return true;
        }
        i += 1;
    }
    false
}

fn find_in_stmts(stmts: &Vec<Stmt>) -> (r: bool)
    ensures
        r == stmts_have_jsx(stmts_view(stmts@)),
    decreases stmts,
{
    let mut i: usize = 0;
    while i < stmts.len()
        invariant
            i <= stmts.len(),
            forall|j: int| 0 <= j < i ==> !stmt_has_jsx(#[trigger] stmts_view(stmts@)[j]),
        decreases stmts.len() - i,
    {
        if find_in_stmt(&stmts[i]) {
            assert(stmt_has_jsx(stmts_view(stmts@)[i as int]));
            return true;
        }
        i += 1;
    }
    false
}

fn find_in_function(function: &Function) -> (r: bool)
    ensures
        r == function_has_jsx(function@),
    decreases function,
{
    if find_in_nodes(&function.params) {
        return true;
    }
    match &function.body {
        Some(stmts) => find_in_stmts(stmts),
        None => false,
    }
}

fn find_in_arrow(arrow: &ArrowExpr) -> (r: bool)
    ensures
        r == arrow_has_jsx(arrow@),
    decreases arrow,
{
    if find_in_nodes(&arrow.params) {
        return true;
    }
    match &arrow.body {
        ArrowBody::Block(stmts) => find_in_stmts(stmts),
        ArrowBody::Expr(expr) => find_in_expr(expr),
    }
}

fn find_in_expr(expr: &Expr) -> (r: bool)
    ensures
        r == expr_has_jsx(expr@),
    decreases expr,
{
    proof {
        reveal_with_fuel(Expr::view, 2);
    }
    match expr {
        Expr::Fn(f) => find_in_function(&f.function),
        Expr::Arrow(arrow) => find_in_arrow(arrow),
        Expr::Paren(_, inner) => find_in_expr(inner),
        Expr::Other(_, nodes) => find_in_nodes(nodes),
    }
}

fn find_in_stmt(stmt: &Stmt) -> (r: bool)
    ensures
        r == stmt_has_jsx(stmt@),
    decreases stmt,
{
    match stmt {
        Stmt::Source(source) => find_in_nodes(&source.nodes),
        Stmt::Var(_, _) => false,
        Stmt::Expr(_) => false,
        Stmt::Return(expr) => find_in_expr(expr),
        Stmt::Try(block, finalizer) => find_in_stmts(block) || find_in_stmts(finalizer),
    }
}

fn find_in_declarator(decl: &VarDeclarator) -> (r: bool)
    ensures
        r == declarator_has_jsx(decl@),
    decreases decl,
{
    if find_in_nodes(&decl.pattern) {
        return true;
    }
    match &decl.init {
        Some(init) => find_in_expr(init),
        None => false,
    }
}

fn find_in_var_decl(var_decl: &VarDecl) -> (r: bool)
    ensures
        r == var_decl_has_jsx(var_decl@),
    decreases var_decl,
{
    let mut i: usize = 0;
    while i < var_decl.decls.len()
        invariant
            i <= var_decl.decls.len(),
            var_decl@.decls == decls_view(var_decl.decls@),
            forall|j: int|
                0 <= j < i ==> !declarator_has_jsx(#[trigger] decls_view(var_decl.decls@)[j]),
        decreases var_decl.decls.len() - i,
    {
        if find_in_declarator(&var_decl.decls[i]) {
            assert(declarator_has_jsx(decls_view(var_decl.decls@)[i as int]));
            return true;
        }
        i += 1;
    }
    false
}

fn find_in_node(node: &Node) -> (r: bool)
    ensures
        r == node_has_jsx(node@),
    decreases node,
{
    proof {
        reveal_with_fuel(Node::view, 3);
    }
    match node {
        Node::VarDecl(n) => find_in_var_decl(n),
        Node::FnDecl(n) => find_in_function(&n.function),
        Node::AssignExpr(n) => find_in_nodes(&n.target) || find_in_expr(&n.right),
        Node::KeyValueProp(n) => find_in_nodes(&n.computed) || find_in_expr(&n.value),
        Node::MethodProp(n) => find_in_nodes(&n.computed) || find_in_function(&n.function),
        Node::ExportDecl(n) => match &n.decl {
            Decl::Var(var_decl) => find_in_var_decl(var_decl),
            Decl::Fn(fn_decl) => find_in_function(&fn_decl.function),
            Decl::Other(nodes) => find_in_nodes(nodes),
        },
        Node::ExportDefaultDecl(n) => match &n.decl {
            DefaultDecl::Fn(f) => find_in_function(&f.function),
            DefaultDecl::Other(nodes) => find_in_nodes(nodes),
        },
        Node::ExportDefaultExpr(n) => find_in_expr(&n.expr),
        Node::Jsx(_) => true,
    }
}

} // verus!

//! What a visit makes of the syntax that nodes are made of.
use vstd::prelude::*;

use crate::ast::{
    ArrowBodyView, ArrowExprView, DeclView, DefaultDeclView, ExprView, FnExprView, FunctionView,
    IdentView, NodeView, SourceStmtView, StmtView, VarDeclView, VarDeclaratorView,
};
use crate::policy::{wrapped_fn_decl, wrapped_var_decl, Policy};
use crate::visitor::VisitorView;

verus! {

/// Syntax that stands in no node. The nodes in it stand in no other, so each of
/// them is visited as such; all else stays.
impl Policy {
    pub open spec fn visited_expr(self, ident: IdentView, n: ExprView) -> ExprView
        decreases n,
    {
        match n {
            ExprView::Fn(f) => ExprView::Fn(
                FnExprView { function: self.visited_function(ident, f.function), ..f },
            ),
            ExprView::Arrow(arrow) => ExprView::Arrow(self.visited_arrow(ident, arrow)),
            ExprView::Paren(span, inner) => ExprView::Paren(
                span,
                Box::new(self.visited_expr(ident, *inner)),
            ),
            ExprView::Other(span, nodes) => ExprView::Other(span, self.visited_nodes(ident, nodes)),
        }
    }

    pub open spec fn visited_function(self, ident: IdentView, n: FunctionView) -> FunctionView
        decreases n,
    {
        FunctionView {
            params: self.visited_nodes(ident, n.params),
            body: match n.body {
                Some(stmts) => Some(self.visited_stmts(ident, stmts)),
                None => None,
            },
            ..n
        }
    }

    pub open spec fn visited_arrow(self, ident: IdentView, n: ArrowExprView) -> ArrowExprView
        decreases n,
    {
        ArrowExprView {
            params: self.visited_nodes(ident, n.params),
            body: match n.body {
                ArrowBodyView::Block(stmts) => ArrowBodyView::Block(
                    self.visited_stmts(ident, stmts),
                ),
                ArrowBodyView::Expr(expr) => ArrowBodyView::Expr(
                    Box::new(self.visited_expr(ident, *expr)),
                ),
            },
            ..n
        }
    }

    pub open spec fn visited_stmt(self, ident: IdentView, n: StmtView) -> StmtView
        decreases n,
    {
        match n {
            StmtView::Source(source) => StmtView::Source(
                SourceStmtView { nodes: self.visited_nodes(ident, source.nodes), ..source },
            ),
            StmtView::Var(_, _) => n,
            StmtView::Expr(_) => n,
            StmtView::Return(expr) => StmtView::Return(self.visited_expr(ident, expr)),
            StmtView::Try(block, finalizer) => StmtView::Try(
                self.visited_stmts(ident, block),
                self.visited_stmts(ident, finalizer),
            ),
        }
    }

    pub open spec fn visited_stmts(self, ident: IdentView, stmts: Seq<StmtView>) -> Seq<StmtView>
        decreases stmts,
    {
        Seq::new(
            stmts.len(),
            |i: int|
                if 0 <= i < stmts.len() {
                    self.visited_stmt(ident, stmts[i])
                } else {
                    arbitrary()
                },
        )
    }

    pub open spec fn visited_declarator(
        self,
        ident: IdentView,
        n: VarDeclaratorView,
    ) -> VarDeclaratorView {
        VarDeclaratorView {
            pattern: self.visited_nodes(ident, n.pattern),
            init: match n.init {
                Some(init) => Some(self.visited_expr(ident, init)),
                None => None,
            },
            ..n
        }
    }

    /// The declaration after a visit of its bindings alone.
    pub open spec fn visited_declarators(self, ident: IdentView, n: VarDeclView) -> VarDeclView {
        VarDeclView {
            decls: n.decls.map_values(|decl: VarDeclaratorView| self.visited_declarator(ident, decl)),
            ..n
        }
    }

    /// A declaration is visited as the node that it is.
    pub open spec fn visited_decl(self, ident: IdentView, n: DeclView) -> DeclView {
        match n {
            DeclView::Var(var_decl) => match self.node_verdict(NodeView::VarDecl(var_decl)) {
                Some(trackable) => DeclView::Var(
                    wrapped_var_decl(var_decl, ident, self.context(trackable)),
                ),
                None => n,
            },
            DeclView::Fn(fn_decl) => match self.node_verdict(NodeView::FnDecl(fn_decl)) {
                Some(trackable) => DeclView::Fn(
                    wrapped_fn_decl(fn_decl, ident, self.context(trackable)),
                ),
                None => n,
            },
            DeclView::Other(nodes) => DeclView::Other(self.visited_nodes(ident, nodes)),
        }
    }

    pub open spec fn visited_default_decl(
        self,
        ident: IdentView,
        n: DefaultDeclView,
    ) -> DefaultDeclView {
        match n {
            DefaultDeclView::Fn(f) => DefaultDeclView::Fn(
                FnExprView { function: self.visited_function(ident, f.function), ..f },
            ),
            DefaultDeclView::Other(nodes) => DefaultDeclView::Other(
                self.visited_nodes(ident, nodes),
            ),
        }
    }

    pub open spec fn tracks_expr(self, n: ExprView) -> bool
        decreases n,
    {
        match n {
            ExprView::Fn(f) => self.tracks_function(f.function),
            ExprView::Arrow(arrow) => self.tracks_arrow(arrow),
            ExprView::Paren(_, inner) => self.tracks_expr(*inner),
            ExprView::Other(_, nodes) => self.tracks_nodes(nodes),
        }
    }

    pub open spec fn tracks_function(self, n: FunctionView) -> bool
        decreases n,
    {
        ||| self.tracks_nodes(n.params)
        ||| n.body matches Some(stmts) && self.tracks_stmts(stmts)
    }

    pub open spec fn tracks_arrow(self, n: ArrowExprView) -> bool
        decreases n,
    {
        ||| self.tracks_nodes(n.params)
        ||| match n.body {
            ArrowBodyView::Block(stmts) => self.tracks_stmts(stmts),
            ArrowBodyView::Expr(expr) => self.tracks_expr(*expr),
        }
    }

    pub open spec fn tracks_stmt(self, n: StmtView) -> bool
        decreases n,
    {
        match n {
            StmtView::Source(source) => self.tracks_nodes(source.nodes),
            StmtView::Var(_, _) => false,
            StmtView::Expr(_) => false,
            StmtView::Return(expr) => self.tracks_expr(expr),
            StmtView::Try(block, finalizer) => self.tracks_stmts(block) || self.tracks_stmts(
                finalizer,
            ),
        }
    }

    pub open spec fn tracks_stmts(self, stmts: Seq<StmtView>) -> bool
        decreases stmts,
    {
        exists|i: int| 0 <= i < stmts.len() && self.tracks_stmt(#[trigger] stmts[i])
    }

    pub open spec fn tracks_declarator(self, n: VarDeclaratorView) -> bool {
        ||| self.tracks_nodes(n.pattern)
        ||| n.init matches Some(init) && self.tracks_expr(init)
    }

    pub open spec fn tracks_declarators(self, n: VarDeclView) -> bool {
        exists|i: int| 0 <= i < n.decls.len() && self.tracks_declarator(#[trigger] n.decls[i])
    }

    pub open spec fn tracks_decl(self, n: DeclView) -> bool {
        match n {
            DeclView::Var(var_decl) => self.tracks_node(NodeView::VarDecl(var_decl)),
            DeclView::Fn(fn_decl) => self.tracks_node(NodeView::FnDecl(fn_decl)),
            DeclView::Other(nodes) => self.tracks_nodes(nodes),
        }
    }

    pub open spec fn tracks_default_decl(self, n: DefaultDeclView) -> bool {
        match n {
            DefaultDeclView::Fn(f) => self.tracks_function(f.function),
            DefaultDeclView::Other(nodes) => self.tracks_nodes(nodes),
        }
    }
}

/// Syntax after the visit, and whether the visit tracks anything. In a node
/// nothing is changed.
impl VisitorView {
    pub open spec fn visited_expr(self, n: ExprView) -> ExprView {
        if self.depth == 0 {
            self.policy.visited_expr(self.import_ident(), n)
        } else {
            n
        }
    }

    pub open spec fn tracks_expr(self, n: ExprView) -> bool {
        self.depth == 0 && self.policy.tracks_expr(n)
    }

    pub open spec fn visited_function(self, n: FunctionView) -> FunctionView {
        if self.depth == 0 {
            self.policy.visited_function(self.import_ident(), n)
        } else {
            n
        }
    }

    pub open spec fn tracks_function(self, n: FunctionView) -> bool {
        self.depth == 0 && self.policy.tracks_function(n)
    }

    pub open spec fn visited_arrow(self, n: ArrowExprView) -> ArrowExprView {
        if self.depth == 0 {
            self.policy.visited_arrow(self.import_ident(), n)
        } else {
            n
        }
    }

    pub open spec fn tracks_arrow(self, n: ArrowExprView) -> bool {
        self.depth == 0 && self.policy.tracks_arrow(n)
    }

    pub open spec fn visited_stmt(self, n: StmtView) -> StmtView {
        if self.depth == 0 {
            self.policy.visited_stmt(self.import_ident(), n)
        } else {
            n
        }
    }

    pub open spec fn tracks_stmt(self, n: StmtView) -> bool {
        self.depth == 0 && self.policy.tracks_stmt(n)
    }

    pub open spec fn visited_stmts(self, n: Seq<StmtView>) -> Seq<StmtView> {
        if self.depth == 0 {
            self.policy.visited_stmts(self.import_ident(), n)
        } else {
            n
        }
    }

    pub open spec fn tracks_stmts(self, n: Seq<StmtView>) -> bool {
        self.depth == 0 && self.policy.tracks_stmts(n)
    }

    pub open spec fn visited_declarator(self, n: VarDeclaratorView) -> VarDeclaratorView {
        if self.depth == 0 {
            self.policy.visited_declarator(self.import_ident(), n)
        } else {
            n
        }
    }

    pub open spec fn tracks_declarator(self, n: VarDeclaratorView) -> bool {
        self.depth == 0 && self.policy.tracks_declarator(n)
    }

    pub open spec fn visited_declarators(self, n: VarDeclView) -> VarDeclView {
        if self.depth == 0 {
            self.policy.visited_declarators(self.import_ident(), n)
        } else {
            n
        }
    }

    pub open spec fn tracks_declarators(self, n: VarDeclView) -> bool {
        self.depth == 0 && self.policy.tracks_declarators(n)
    }

    pub open spec fn visited_decl(self, n: DeclView) -> DeclView {
        if self.depth == 0 {
            self.policy.visited_decl(self.import_ident(), n)
        } else {
            n
        }
    }

    pub open spec fn tracks_decl(self, n: DeclView) -> bool {
        self.depth == 0 && self.policy.tracks_decl(n)
    }

    pub open spec fn visited_default_decl(self, n: DefaultDeclView) -> DefaultDeclView {
        if self.depth == 0 {
            self.policy.visited_default_decl(self.import_ident(), n)
        } else {
            n
        }
    }

    pub open spec fn tracks_default_decl(self, n: DefaultDeclView) -> bool {
        self.depth == 0 && self.policy.tracks_default_decl(n)
    }
}

} // verus!

//! Which functions of a program are tracked, and what becomes of it.
use vstd::prelude::*;

use crate::ast::{
    AssignExprView, DeclView, DefaultDeclView, ExportDeclView, ExportDefaultDeclView,
    ExportDefaultExprView, ExprView, FnDeclView, FnExprView, IdentView, KeyValuePropView,
    MethodPropView, ModuleItemView, NodeView, ScriptItemView, SourceStmtView, Span, VarDeclView,
    VarDeclaratorView,
};
use crate::comments::{spans_directive, CommentView, ShouldTrack};
use crate::detect::{expr_has_jsx, function_has_jsx};
use crate::expr::{
    expr_span, fn_ident, is_fn_expr, key_span, unparenthesized, with_unparenthesized,
};
use crate::names::{key_trackable, name_trackable, pat_trackable, target_trackable, Trackable};
use crate::options::TransformMode;
use crate::wrap::{wrapped_expr, wrapped_function};

verus! {

/// What the decision to track a function rests on, besides the function.
pub struct Policy {
    pub comments: Map<u32, Seq<CommentView>>,
    pub mode: TransformMode,
    pub ignore_span: Option<Span>,
    pub file_trackable_name: Option<Trackable>,
    pub add_context_to_hooks: bool,
}

impl Policy {
    /// What a function is taken for. `name` is what its name says, or `None` where
    /// it has no name; a default export without a name goes by the file's name.
    pub open spec fn named(
        self,
        name: Option<Option<Trackable>>,
        is_default_export: bool,
    ) -> Option<Trackable> {
        match name {
            Some(trackable) => trackable,
            None => if is_default_export {
                self.file_trackable_name
            } else {
                None
            },
        }
    }

    /// Whether a function outside object literals is tracked, and what it is taken
    /// for. A directive before any of `spans` decides; without one, components that
    /// hold JSX are tracked, except in manual mode.
    pub open spec fn verdict(
        self,
        spans: Seq<Span>,
        name: Option<Option<Trackable>>,
        has_jsx: bool,
        is_default_export: bool,
    ) -> Option<Trackable> {
        let named = self.named(name, is_default_export);
        match spans_directive(self.comments, spans) {
            ShouldTrack::OptOut => None,
            ShouldTrack::OptIn => match named {
                Some(trackable) => Some(trackable),
                None => Some(Trackable::Unknown),
            },
            ShouldTrack::Auto => if self.mode != TransformMode::Manual && named == Some(
                Trackable::Component,
            ) && has_jsx {
                Some(Trackable::Component)
            } else {
                None
            },
        }
    }

    /// What a tracked function is told of what it is taken for.
    pub open spec fn context(self, trackable: Trackable) -> Option<Trackable> {
        if self.add_context_to_hooks {
            Some(trackable)
        } else {
            None
        }
    }

    /// A function that is an expression. Its own name goes before `outer`, which is
    /// what the name of what holds it says.
    pub open spec fn expr_verdict(
        self,
        spans: Seq<Span>,
        expr: ExprView,
        outer: Option<Option<Trackable>>,
        is_default_export: bool,
    ) -> Option<Trackable> {
        if is_fn_expr(expr) {
            self.verdict(
                spans,
                match fn_ident(expr) {
                    Some(ident) => Some(name_trackable(ident.sym)),
                    None => outer,
                },
                expr_has_jsx(expr),
                is_default_export,
            )
        } else {
            None
        }
    }

    /// The first binding of a declaration.
    pub open spec fn var_decl_verdict(
        self,
        n: VarDeclView,
        additional_spans: Seq<Span>,
    ) -> Option<Trackable> {
        if n.decls.len() == 0 {
            None
        } else {
            match n.decls[0].init {
                Some(init) => self.expr_verdict(
                    seq![expr_span(unparenthesized(init)), n.span] + additional_spans,
                    unparenthesized(init),
                    Some(pat_trackable(n.decls[0].name)),
                    false,
                ),
                None => None,
            }
        }
    }

    pub open spec fn fn_decl_verdict(self, n: FnDeclView, spans: Seq<Span>) -> Option<Trackable> {
        self.verdict(
            spans,
            Some(name_trackable(n.ident.sym)),
            function_has_jsx(n.function),
            false,
        )
    }

    pub open spec fn export_decl_verdict(self, n: ExportDeclView) -> Option<Trackable> {
        match n.decl {
            DeclView::Var(var_decl) => self.var_decl_verdict(var_decl, seq![n.span]),
            DeclView::Fn(fn_decl) => self.fn_decl_verdict(
                fn_decl,
                seq![n.span, fn_decl.function.span],
            ),
            DeclView::Other(_) => None,
        }
    }

    pub open spec fn export_default_decl_verdict(
        self,
        n: ExportDefaultDeclView,
    ) -> Option<Trackable> {
        match n.decl {
            DefaultDeclView::Fn(f) => self.verdict(
                seq![n.span, f.function.span],
                match f.ident {
                    Some(ident) => Some(name_trackable(ident.sym)),
                    None => None,
                },
                function_has_jsx(f.function),
                true,
            ),
            DefaultDeclView::Other(_) => None,
        }
    }

    pub open spec fn export_default_expr_verdict(
        self,
        n: ExportDefaultExprView,
    ) -> Option<Trackable> {
        let expr = unparenthesized(n.expr);
        self.expr_verdict(seq![n.span, expr_span(expr)], expr, None, true)
    }

    pub open spec fn assign_expr_verdict(self, n: AssignExprView) -> Option<Trackable> {
        self.expr_verdict(seq![n.span], n.right, Some(target_trackable(n.left)), false)
    }

    /// A property of an object literal, whose value is tracked on request alone.
    pub open spec fn key_value_prop_verdict(self, n: KeyValuePropView) -> Option<Trackable> {
        let spans = seq![key_span(n.key)];
        if spans_directive(self.comments, spans) == ShouldTrack::OptIn {
            self.expr_verdict(spans, n.value, Some(key_trackable(n.key)), false)
        } else {
            None
        }
    }

    /// A method of an object literal, which is tracked on request alone.
    pub open spec fn method_prop_verdict(self, n: MethodPropView) -> Option<Trackable> {
        let spans = seq![n.function.span, key_span(n.key)];
        if spans_directive(self.comments, spans) == ShouldTrack::OptIn {
            self.verdict(
                spans,
                Some(key_trackable(n.key)),
                function_has_jsx(n.function),
                false,
            )
        } else {
            None
        }
    }

    /// The verdict on a node that stands in no other node but JSX.
    pub open spec fn node_verdict(self, n: NodeView) -> Option<Trackable> {
        match n {
            NodeView::VarDecl(n) => if self.ignore_span == Some(n.span) {
                None
            } else {
                self.var_decl_verdict(n, seq![])
            },
            NodeView::FnDecl(n) => if self.ignore_span == Some(n.function.span) {
                None
            } else {
                self.fn_decl_verdict(n, seq![n.function.span])
            },
            NodeView::AssignExpr(n) => self.assign_expr_verdict(n),
            NodeView::KeyValueProp(n) => self.key_value_prop_verdict(n),
            NodeView::MethodProp(n) => self.method_prop_verdict(n),
            NodeView::ExportDecl(n) => self.export_decl_verdict(n),
            NodeView::ExportDefaultDecl(n) => self.export_default_decl_verdict(n),
            NodeView::ExportDefaultExpr(n) => self.export_default_expr_verdict(n),
            NodeView::Jsx(_) => None,
        }
    }

    /// A node that stands in no other node but JSX, after the visit: the function
    /// that it introduces is tracked if the verdict says so, and nothing in it is
    /// changed otherwise. JSX is looked into.
    pub open spec fn visited_node(self, ident: IdentView, n: NodeView) -> NodeView
        decreases n,
    {
        match n {
            NodeView::Jsx(nodes) => NodeView::Jsx(self.visited_nodes(ident, nodes)),
            _ => match self.node_verdict(n) {
                Some(trackable) => wrapped_node(n, ident, self.context(trackable)),
                None => n,
            },
        }
    }

    pub open spec fn visited_nodes(self, ident: IdentView, nodes: Seq<NodeView>) -> Seq<NodeView>
        decreases nodes,
    {
        Seq::new(
            nodes.len(),
            |i: int|
                if 0 <= i < nodes.len() {
                    self.visited_node(ident, nodes[i])
                } else {
                    arbitrary()
                },
        )
    }

    /// Whether the visit of a node tracks anything.
    pub open spec fn tracks_node(self, n: NodeView) -> bool
        decreases n,
    {
        match n {
            NodeView::Jsx(nodes) => self.tracks_nodes(nodes),
            _ => self.node_verdict(n) is Some,
        }
    }

    pub open spec fn tracks_nodes(self, nodes: Seq<NodeView>) -> bool
        decreases nodes,
    {
        exists|i: int| 0 <= i < nodes.len() && self.tracks_node(#[trigger] nodes[i])
    }

    pub open spec fn visited_module_item(
        self,
        ident: IdentView,
        item: ModuleItemView,
    ) -> ModuleItemView {
        match item {
            ModuleItemView::Stmt(stmt) => ModuleItemView::Stmt(
                SourceStmtView { nodes: self.visited_nodes(ident, stmt.nodes), ..stmt },
            ),
            ModuleItemView::ModuleDecl(_) => item,
        }
    }

    pub open spec fn tracks_module_item(self, item: ModuleItemView) -> bool {
        item matches ModuleItemView::Stmt(stmt) && self.tracks_nodes(stmt.nodes)
    }

    pub open spec fn visited_script_item(
        self,
        ident: IdentView,
        item: ScriptItemView,
    ) -> ScriptItemView {
        match item {
            ScriptItemView::Stmt(stmt) => ScriptItemView::Stmt(
                SourceStmtView { nodes: self.visited_nodes(ident, stmt.nodes), ..stmt },
            ),
            ScriptItemView::Require(_) => item,
        }
    }

    pub open spec fn tracks_script_item(self, item: ScriptItemView) -> bool {
        item matches ScriptItemView::Stmt(stmt) && self.tracks_nodes(stmt.nodes)
    }

    pub open spec fn tracks_module(self, items: Seq<ModuleItemView>) -> bool {
        exists|i: int| 0 <= i < items.len() && self.tracks_module_item(#[trigger] items[i])
    }

    pub open spec fn tracks_script(self, items: Seq<ScriptItemView>) -> bool {
        exists|i: int| 0 <= i < items.len() && self.tracks_script_item(#[trigger] items[i])
    }

    pub open spec fn visited_module_items(
        self,
        ident: IdentView,
        items: Seq<ModuleItemView>,
    ) -> Seq<ModuleItemView> {
        items.map_values(|item: ModuleItemView| self.visited_module_item(ident, item))
    }

    pub open spec fn visited_script_items(
        self,
        ident: IdentView,
        items: Seq<ScriptItemView>,
    ) -> Seq<ScriptItemView> {
        items.map_values(|item: ScriptItemView| self.visited_script_item(ident, item))
    }
}

/// The declaration with the function that its first binding holds tracked.
pub open spec fn wrapped_var_decl(
    n: VarDeclView,
    ident: IdentView,
    trackable: Option<Trackable>,
) -> VarDeclView {
    let init = n.decls[0].init->0;
    VarDeclView {
        decls: n.decls.update(
            0,
            VarDeclaratorView {
                init: Some(
                    with_unparenthesized(
                        init,
                        wrapped_expr(unparenthesized(init), ident, trackable),
                    ),
                ),
                ..n.decls[0]
            },
        ),
        ..n
    }
}

pub open spec fn wrapped_fn_decl(
    n: FnDeclView,
    ident: IdentView,
    trackable: Option<Trackable>,
) -> FnDeclView {
    FnDeclView { function: wrapped_function(n.function, ident, trackable), ..n }
}

pub open spec fn wrapped_assign_expr(
    n: AssignExprView,
    ident: IdentView,
    trackable: Option<Trackable>,
) -> AssignExprView {
    AssignExprView { right: wrapped_expr(n.right, ident, trackable), ..n }
}

pub open spec fn wrapped_key_value_prop(
    n: KeyValuePropView,
    ident: IdentView,
    trackable: Option<Trackable>,
) -> KeyValuePropView {
    KeyValuePropView { value: wrapped_expr(n.value, ident, trackable), ..n }
}

pub open spec fn wrapped_method_prop(
    n: MethodPropView,
    ident: IdentView,
    trackable: Option<Trackable>,
) -> MethodPropView {
    MethodPropView { function: wrapped_function(n.function, ident, trackable), ..n }
}

pub open spec fn wrapped_export_decl(
    n: ExportDeclView,
    ident: IdentView,
    trackable: Option<Trackable>,
) -> ExportDeclView {
    ExportDeclView {
        decl: match n.decl {
            DeclView::Var(var_decl) => DeclView::Var(wrapped_var_decl(var_decl, ident, trackable)),
            DeclView::Fn(fn_decl) => DeclView::Fn(wrapped_fn_decl(fn_decl, ident, trackable)),
            DeclView::Other(nodes) => DeclView::Other(nodes),
        },
        ..n
    }
}

pub open spec fn wrapped_export_default_decl(
    n: ExportDefaultDeclView,
    ident: IdentView,
    trackable: Option<Trackable>,
) -> ExportDefaultDeclView {
    ExportDefaultDeclView {
        decl: match n.decl {
            DefaultDeclView::Fn(f) => DefaultDeclView::Fn(
                FnExprView { function: wrapped_function(f.function, ident, trackable), ..f },
            ),
            DefaultDeclView::Other(nodes) => DefaultDeclView::Other(nodes),
        },
        ..n
    }
}

pub open spec fn wrapped_export_default_expr(
    n: ExportDefaultExprView,
    ident: IdentView,
    trackable: Option<Trackable>,
) -> ExportDefaultExprView {
    ExportDefaultExprView {
        expr: with_unparenthesized(
            n.expr,
            wrapped_expr(unparenthesized(n.expr), ident, trackable),
        ),
        ..n
    }
}

/// A node with the function that it introduces tracked.
pub open spec fn wrapped_node(
    n: NodeView,
    ident: IdentView,
    trackable: Option<Trackable>,
) -> NodeView {
    match n {
        NodeView::VarDecl(n) => NodeView::VarDecl(wrapped_var_decl(n, ident, trackable)),
        NodeView::FnDecl(n) => NodeView::FnDecl(wrapped_fn_decl(n, ident, trackable)),
        NodeView::AssignExpr(n) => NodeView::AssignExpr(wrapped_assign_expr(n, ident, trackable)),
        NodeView::KeyValueProp(n) => NodeView::KeyValueProp(
            wrapped_key_value_prop(n, ident, trackable),
        ),
        NodeView::MethodProp(n) => NodeView::MethodProp(wrapped_method_prop(n, ident, trackable)),
        NodeView::ExportDecl(n) => NodeView::ExportDecl(wrapped_export_decl(n, ident, trackable)),
        NodeView::ExportDefaultDecl(n) => NodeView::ExportDefaultDecl(
            wrapped_export_default_decl(n, ident, trackable),
        ),
        NodeView::ExportDefaultExpr(n) => NodeView::ExportDefaultExpr(
            wrapped_export_default_expr(n, ident, trackable),
        ),
        NodeView::Jsx(nodes) => NodeView::Jsx(nodes),
    }
}

} // verus!

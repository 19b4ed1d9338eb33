//! What holds of the transform as a whole.
//!
//! - `names`, `files`: what names say, letter by letter
//! - `jsx`: where JSX is found
//! - `directives`: what comments ask for
//! - `decisions`: which functions are tracked, node by node
//! - `wrapping`: what becomes of a function that is tracked
//! - `programs`, `walks`: what becomes of programs, and of syntax in them
//! - `views`: that views leave nothing out
pub mod decisions;
pub mod directives;
pub mod files;
pub mod jsx;
pub mod names;
pub mod programs;
pub mod views;
pub mod walks;
pub mod wrapping;

use vstd::prelude::*;

use crate::ast::{
    ArrowExprView, DeclView, DefaultDeclView, ExprView, FnDeclView, FunctionView, IdentView,
    ModuleItemView, ModuleView, NodeView, ProgramView, ScriptItemView, ScriptView, Span, StmtView,
    VarDeclView,
};
use crate::comments::{
    comments_directive, span_directive, spans_directive, CommentView, ShouldTrack,
};
use crate::detect::{expr_has_jsx, function_has_jsx};
use crate::expr::{expr_span, fn_ident, is_fn_expr, key_span, unparenthesized};
use crate::imports::{
    leading_directives, leading_directives_stop, module_item_is_directive,
    script_item_is_directive, use_signals_ident,
};
use crate::names::{key_trackable, name_trackable, pat_trackable, target_trackable, Trackable};
use crate::options::{PreactSignalsPluginOptionsView, TransformMode};
use crate::policy::Policy;
use crate::transform::{
    becomes_under_name, file_says, is_portable_path, is_separator, last_segment, may_become,
    path_file_name, transformed, without_trailing,
};
use crate::visitor::{visitor_from, VisitorView};
use crate::wrap::{call, stop_ident, wrapped_arrow, wrapped_function, wrapped_stmts};

verus! {

/// A comment that forbids tracking before any of the spans wins, whatever the
/// other comments, the mode, the name and the function are.
pub proof fn opt_out_wins(
    policy: Policy,
    spans: Seq<Span>,
    i: int,
    name: Option<Option<Trackable>>,
    has_jsx: bool,
    is_default_export: bool,
)
    requires
        0 <= i < spans.len(),
        span_directive(policy.comments, spans[i]) == ShouldTrack::OptOut,
    ensures
        policy.verdict(spans, name, has_jsx, is_default_export) is None,
{
}

/// A comment that asks for tracking is followed where no other forbids it, in
/// every mode, with JSX or without. A function whose name says nothing is then
/// taken for `Unknown`.
pub proof fn opt_in_is_followed(
    policy: Policy,
    spans: Seq<Span>,
    i: int,
    name: Option<Option<Trackable>>,
    has_jsx: bool,
    is_default_export: bool,
)
    requires
        0 <= i < spans.len(),
        span_directive(policy.comments, spans[i]) == ShouldTrack::OptIn,
        forall|j: int|
            0 <= j < spans.len() ==> span_directive(policy.comments, #[trigger] spans[j])
                != ShouldTrack::OptOut,
    ensures
        policy.verdict(spans, name, has_jsx, is_default_export) == Some(
            match policy.named(name, is_default_export) {
                Some(trackable) => trackable,
                None => Trackable::Unknown,
            },
        ),
{
}

/// What the comments say depends neither on the order of the spans nor on how
/// often one is given.
pub proof fn order_of_spans_is_irrelevant(
    comments: Map<u32, Seq<CommentView>>,
    spans: Seq<Span>,
    others: Seq<Span>,
)
    requires
        spans.to_set() == others.to_set(),
    ensures
        spans_directive(comments, spans) == spans_directive(comments, others),
{
    assert forall|i: int| 0 <= i < spans.len() implies exists|j: int|
        0 <= j < others.len() && others[j] == #[trigger] spans[i] by {
        assert(spans.to_set().contains(spans[i]));
        assert(others.to_set().contains(spans[i]));
    }
    assert forall|i: int| 0 <= i < others.len() implies exists|j: int|
        0 <= j < spans.len() && spans[j] == #[trigger] others[i] by {
        assert(others.to_set().contains(others[i]));
        assert(spans.to_set().contains(others[i]));
    }
}

/// Where no comment decides, a function outside object literals is tracked if and
/// only if it is a component that holds JSX, and the mode is not manual. So a hook
/// is tracked on request alone.
pub proof fn components_are_tracked(
    policy: Policy,
    spans: Seq<Span>,
    name: Option<Option<Trackable>>,
    has_jsx: bool,
    is_default_export: bool,
)
    requires
        spans_directive(policy.comments, spans) == ShouldTrack::Auto,
    ensures
        policy.verdict(spans, name, has_jsx, is_default_export) is Some <==> (policy.mode
            != TransformMode::Manual && policy.named(name, is_default_export) == Some(
            Trackable::Component,
        ) && has_jsx),
        policy.verdict(spans, name, has_jsx, is_default_export) is Some ==> policy.verdict(
            spans,
            name,
            has_jsx,
            is_default_export,
        ) == Some(Trackable::Component),
{
}

/// In manual mode nothing is tracked but on request.
pub proof fn manual_mode_waits_for_request(
    policy: Policy,
    spans: Seq<Span>,
    name: Option<Option<Trackable>>,
    has_jsx: bool,
    is_default_export: bool,
)
    requires
        policy.mode == TransformMode::Manual,
    ensures
        policy.verdict(spans, name, has_jsx, is_default_export) is Some <==> spans_directive(
            policy.comments,
            spans,
        ) == ShouldTrack::OptIn,
{
}

/// No comment of a program asks for tracking, or each that does stands beside one
/// that forbids it.
pub open spec fn asks_nowhere(comments: Map<u32, Seq<CommentView>>) -> bool {
    forall|pos: u32| #[trigger]
        comments.contains_key(pos) ==> comments_directive(comments[pos]) != ShouldTrack::OptIn
}

proof fn manual_mode_tracks_no_node(policy: Policy, n: NodeView)
    requires
        policy.mode == TransformMode::Manual,
        asks_nowhere(policy.comments),
    ensures
        !policy.tracks_node(n),
    decreases n,
{
    if let NodeView::Jsx(nodes) = n {
        assert forall|i: int| 0 <= i < nodes.len() implies !policy.tracks_node(
            #[trigger] nodes[i],
        ) by {
            manual_mode_tracks_no_node(policy, nodes[i]);
        }
    }
}

/// In manual mode a program without a request stays as it was; nothing is imported
/// or required.
pub proof fn manual_mode_leaves_programs_alone(
    visitor: VisitorView,
    n: ProgramView,
    private_ctxt: u32,
)
    requires
        visitor.policy.mode == TransformMode::Manual,
        asks_nowhere(visitor.policy.comments),
    ensures
        visitor.visited_program(n, private_ctxt) == n,
{
    let policy = visitor.policy;
    match n {
        ProgramView::Module(module) => {
            assert forall|i: int| 0 <= i < module.body.len() implies !policy.tracks_module_item(
                #[trigger] module.body[i],
            ) by {
                if let ModuleItemView::Stmt(stmt) = module.body[i] {
                    assert forall|j: int| 0 <= j < stmt.nodes.len() implies !policy.tracks_node(
                        #[trigger] stmt.nodes[j],
                    ) by {
                        manual_mode_tracks_no_node(policy, stmt.nodes[j]);
                    }
                }
            }
            untracked_module_is_unchanged(visitor.fresh(private_ctxt), module);
        },
        ProgramView::Script(script) => {
            assert forall|i: int| 0 <= i < script.body.len() implies !policy.tracks_script_item(
                #[trigger] script.body[i],
            ) by {
                if let ScriptItemView::Stmt(stmt) = script.body[i] {
                    assert forall|j: int| 0 <= j < stmt.nodes.len() implies !policy.tracks_node(
                        #[trigger] stmt.nodes[j],
                    ) by {
                        manual_mode_tracks_no_node(policy, stmt.nodes[j]);
                    }
                }
            }
            untracked_script_is_unchanged(visitor.fresh(private_ctxt), script);
        },
    }
}

/// Inside another node nothing is tracked, whatever it is: components in
/// components and in the properties of objects that a declaration holds are left
/// alone.
pub proof fn nested_nodes_are_unchanged(visitor: VisitorView, n: NodeView)
    requires
        visitor.depth > 0,
    ensures
        visitor.visited_node(n) == n,
        !visitor.tracks_node(n),
{
}

/// Without a comment that asks for it, no property and no method of an object
/// literal is tracked, wherever the literal stands: in a declaration, in an
/// argument of a call or in a statement of its own. Nor is anything tracked that
/// stands in it.
pub proof fn object_literals_wait_for_request(visitor: VisitorView, n: NodeView)
    requires
        match n {
            NodeView::KeyValueProp(prop) => spans_directive(
                visitor.policy.comments,
                seq![key_span(prop.key)],
            ) != ShouldTrack::OptIn,
            NodeView::MethodProp(method) => spans_directive(
                visitor.policy.comments,
                seq![method.function.span, key_span(method.key)],
            ) != ShouldTrack::OptIn,
            _ => false,
        },
    ensures
        visitor.visited_node(n) == n,
        !visitor.tracks_node(n),
{
}

/// A new visitor stands in no node and ignores no declaration, and no visit
/// changes that; so no declaration outside every other node is passed over.
pub proof fn no_declaration_is_passed_over(
    options: PreactSignalsPluginOptionsView,
    comments: Map<u32, Seq<CommentView>>,
    file_trackable_name: Option<Trackable>,
    private_ctxt: u32,
    any: bool,
    n: NodeView,
)
    ensures
        ({
            let visitor = visitor_from(options, comments, file_trackable_name, private_ctxt).noting(
                any,
            );
            &&& visitor.depth == 0
            &&& visitor.policy.ignore_span is None
            &&& n matches NodeView::VarDecl(var_decl) ==> visitor.policy.node_verdict(n)
                == visitor.policy.var_decl_verdict(var_decl, seq![])
            &&& n matches NodeView::FnDecl(fn_decl) ==> visitor.policy.node_verdict(n)
                == visitor.policy.fn_decl_verdict(fn_decl, seq![fn_decl.function.span])
        }),
{
}

/// The policy in the mode `All`.
pub open spec fn in_mode_all(policy: Policy) -> Policy {
    Policy { mode: TransformMode::All, ..policy }
}

/// The modes `Auto` and `All` give the same verdict on every function.
pub proof fn auto_decides_as_all(
    policy: Policy,
    spans: Seq<Span>,
    name: Option<Option<Trackable>>,
    has_jsx: bool,
    is_default_export: bool,
)
    requires
        policy.mode == TransformMode::Auto,
    ensures
        policy.verdict(spans, name, has_jsx, is_default_export) == in_mode_all(policy).verdict(
            spans,
            name,
            has_jsx,
            is_default_export,
        ),
{
}

proof fn auto_decides_exprs_as_all(
    policy: Policy,
    spans: Seq<Span>,
    expr: ExprView,
    outer: Option<Option<Trackable>>,
    is_default_export: bool,
)
    requires
        policy.mode == TransformMode::Auto,
    ensures
        policy.expr_verdict(spans, expr, outer, is_default_export) == in_mode_all(
            policy,
        ).expr_verdict(spans, expr, outer, is_default_export),
{
    let name = match fn_ident(expr) {
        Some(ident) => Some(name_trackable(ident.sym)),
        None => outer,
    };
    auto_decides_as_all(policy, spans, name, expr_has_jsx(expr), is_default_export);
}

proof fn auto_decides_var_decls_as_all(policy: Policy, n: VarDeclView, additional_spans: Seq<Span>)
    requires
        policy.mode == TransformMode::Auto,
    ensures
        policy.var_decl_verdict(n, additional_spans) == in_mode_all(policy).var_decl_verdict(
            n,
            additional_spans,
        ),
{
    if n.decls.len() > 0 {
        if let Some(init) = n.decls[0].init {
            auto_decides_exprs_as_all(
                policy,
                seq![expr_span(unparenthesized(init)), n.span] + additional_spans,
                unparenthesized(init),
                Some(pat_trackable(n.decls[0].name)),
                false,
            );
        }
    }
}

proof fn auto_decides_fn_decls_as_all(policy: Policy, n: FnDeclView, spans: Seq<Span>)
    requires
        policy.mode == TransformMode::Auto,
    ensures
        policy.fn_decl_verdict(n, spans) == in_mode_all(policy).fn_decl_verdict(n, spans),
{
    auto_decides_as_all(
        policy,
        spans,
        Some(name_trackable(n.ident.sym)),
        function_has_jsx(n.function),
        false,
    );
}

proof fn auto_decides_nodes_as_all(policy: Policy, n: NodeView)
    requires
        policy.mode == TransformMode::Auto,
    ensures
        policy.node_verdict(n) == in_mode_all(policy).node_verdict(n),
{
    match n {
        NodeView::VarDecl(n) => auto_decides_var_decls_as_all(policy, n, seq![]),
        NodeView::FnDecl(n) => auto_decides_fn_decls_as_all(policy, n, seq![n.function.span]),
        NodeView::AssignExpr(n) => auto_decides_exprs_as_all(
            policy,
            seq![n.span],
            n.right,
            Some(target_trackable(n.left)),
            false,
        ),
        NodeView::KeyValueProp(n) => auto_decides_exprs_as_all(
            policy,
            seq![key_span(n.key)],
            n.value,
            Some(key_trackable(n.key)),
            false,
        ),
        NodeView::MethodProp(n) => auto_decides_as_all(
            policy,
            seq![n.function.span, key_span(n.key)],
            Some(key_trackable(n.key)),
            function_has_jsx(n.function),
            false,
        ),
        NodeView::ExportDecl(n) => match n.decl {
            DeclView::Var(var_decl) => auto_decides_var_decls_as_all(
                policy,
                var_decl,
                seq![n.span],
            ),
            DeclView::Fn(fn_decl) => auto_decides_fn_decls_as_all(
                policy,
                fn_decl,
                seq![n.span, fn_decl.function.span],
            ),
            DeclView::Other(_) => {},
        },
        NodeView::ExportDefaultDecl(n) => match n.decl {
            DefaultDeclView::Fn(f) => auto_decides_as_all(
                policy,
                seq![n.span, f.function.span],
                match f.ident {
                    Some(ident) => Some(name_trackable(ident.sym)),
                    None => None,
                },
                function_has_jsx(f.function),
                true,
            ),
            DefaultDeclView::Other(_) => {},
        },
        NodeView::ExportDefaultExpr(n) => auto_decides_exprs_as_all(
            policy,
            seq![n.span, expr_span(unparenthesized(n.expr))],
            unparenthesized(n.expr),
            None,
            true,
        ),
        NodeView::Jsx(_) => {},
    }
}

/// The modes `Auto` and `All` track the same functions and write the same code.
pub proof fn auto_is_all(policy: Policy, ident: IdentView, n: NodeView)
    requires
        policy.mode == TransformMode::Auto,
    ensures
        policy.visited_node(ident, n) == in_mode_all(policy).visited_node(ident, n),
        policy.tracks_node(n) == in_mode_all(policy).tracks_node(n),
    decreases n,
{
    let all = in_mode_all(policy);
    match n {
        NodeView::Jsx(nodes) => {
            assert forall|i: int| 0 <= i < nodes.len() implies policy.visited_node(ident, nodes[i])
                == all.visited_node(ident, nodes[i]) && policy.tracks_node(#[trigger] nodes[i])
                == all.tracks_node(nodes[i]) by {
                auto_is_all(policy, ident, nodes[i]);
            }
            assert(policy.visited_nodes(ident, nodes) =~= all.visited_nodes(ident, nodes));
            assert(policy.tracks_nodes(nodes) == all.tracks_nodes(nodes));
        },
        _ => {
            auto_decides_nodes_as_all(policy, n);
        },
    }
}

/// A program is transformed in the mode `Auto` as it is in the mode `All`.
pub proof fn auto_transforms_as_all(
    program: ProgramView,
    options: PreactSignalsPluginOptionsView,
    comments: Map<u32, Seq<CommentView>>,
    file_trackable_name: Option<Trackable>,
    private_ctxt: u32,
)
    requires
        options.mode == TransformMode::Auto,
    ensures
        transformed(program, options, comments, file_trackable_name, private_ctxt) == transformed(
            program,
            PreactSignalsPluginOptionsView { mode: TransformMode::All, ..options },
            comments,
            file_trackable_name,
            private_ctxt,
        ),
{
    let visitor = visitor_from(options, comments, file_trackable_name, private_ctxt);
    let policy = visitor.policy;
    let all = in_mode_all(policy);
    let ident = visitor.import_ident();
    match program {
        ProgramView::Module(n) => {
            assert forall|i: int| 0 <= i < n.body.len() implies policy.tracks_module_item(
                #[trigger] n.body[i],
            ) == all.tracks_module_item(n.body[i]) && policy.visited_module_item(ident, n.body[i])
                == all.visited_module_item(ident, n.body[i]) by {
                if let ModuleItemView::Stmt(stmt) = n.body[i] {
                    auto_lists_are_all(policy, ident, stmt.nodes);
                }
            }
            assert(policy.visited_module_items(ident, n.body) =~= all.visited_module_items(
                ident,
                n.body,
            ));
            assert(policy.tracks_module(n.body) == all.tracks_module(n.body));
        },
        ProgramView::Script(n) => {
            assert forall|i: int| 0 <= i < n.body.len() implies policy.tracks_script_item(
                #[trigger] n.body[i],
            ) == all.tracks_script_item(n.body[i]) && policy.visited_script_item(ident, n.body[i])
                == all.visited_script_item(ident, n.body[i]) by {
                if let ScriptItemView::Stmt(stmt) = n.body[i] {
                    auto_lists_are_all(policy, ident, stmt.nodes);
                }
            }
            assert(policy.visited_script_items(ident, n.body) =~= all.visited_script_items(
                ident,
                n.body,
            ));
            assert(policy.tracks_script(n.body) == all.tracks_script(n.body));
        },
    }
}

proof fn auto_lists_are_all(policy: Policy, ident: IdentView, nodes: Seq<NodeView>)
    requires
        policy.mode == TransformMode::Auto,
    ensures
        policy.visited_nodes(ident, nodes) == in_mode_all(policy).visited_nodes(ident, nodes),
        policy.tracks_nodes(nodes) == in_mode_all(policy).tracks_nodes(nodes),
{
    let all = in_mode_all(policy);
    assert forall|i: int| 0 <= i < nodes.len() implies policy.visited_node(ident, nodes[i])
        == all.visited_node(ident, nodes[i]) && policy.tracks_node(#[trigger] nodes[i])
        == all.tracks_node(nodes[i]) by {
        auto_is_all(policy, ident, nodes[i]);
    }
    assert(policy.visited_nodes(ident, nodes) =~= all.visited_nodes(ident, nodes));
}

/// A binding is tracked only where its value is a function, in parentheses or
/// not. The functions that are handed to a call are left alone.
pub proof fn only_functions_are_tracked(policy: Policy, n: VarDeclView, additional_spans: Seq<Span>)
    requires
        policy.var_decl_verdict(n, additional_spans) is Some,
    ensures
        n.decls.len() > 0,
        n.decls[0].init matches Some(init) && is_fn_expr(unparenthesized(init)),
{
}

/// Where a visit tracks nothing, it changes nothing.
pub proof fn untracked_nodes_are_unchanged(policy: Policy, ident: IdentView, n: NodeView)
    requires
        !policy.tracks_node(n),
    ensures
        policy.visited_node(ident, n) == n,
    decreases n,
{
    if let NodeView::Jsx(nodes) = n {
        assert(policy.tracks_node(n) == policy.tracks_nodes(nodes));
        assert forall|i: int| 0 <= i < nodes.len() implies policy.visited_node(
            ident,
            #[trigger] nodes[i],
        ) == nodes[i] by {
            untracked_nodes_are_unchanged(policy, ident, nodes[i]);
        }
        assert(policy.visited_nodes(ident, nodes) =~= nodes);
    }
}

/// Where nothing of a module is tracked, the module stays as it was; nothing is
/// imported.
pub proof fn untracked_module_is_unchanged(visitor: VisitorView, n: ModuleView)
    requires
        !visitor.tracks_module(n),
    ensures
        visitor.visited_module(n) == n,
{
    if visitor.depth == 0 {
        let ident = visitor.import_ident();
        assert forall|i: int| 0 <= i < n.body.len() implies visitor.policy.visited_module_item(
            ident,
            #[trigger] n.body[i],
        ) == n.body[i] by {
            assert(!visitor.policy.tracks_module_item(n.body[i]));
            if let ModuleItemView::Stmt(stmt) = n.body[i] {
                untracked_lists_are_unchanged(visitor.policy, ident, stmt.nodes);
            }
        }
        assert(visitor.policy.visited_module_items(ident, n.body) =~= n.body);
    }
}

/// Where nothing of a script is tracked, the script stays as it was; nothing is
/// required.
pub proof fn untracked_script_is_unchanged(visitor: VisitorView, n: ScriptView)
    requires
        !visitor.tracks_script(n),
    ensures
        visitor.visited_script(n) == n,
{
    if visitor.depth == 0 {
        let ident = visitor.import_ident();
        assert forall|i: int| 0 <= i < n.body.len() implies visitor.policy.visited_script_item(
            ident,
            #[trigger] n.body[i],
        ) == n.body[i] by {
            assert(!visitor.policy.tracks_script_item(n.body[i]));
            if let ScriptItemView::Stmt(stmt) = n.body[i] {
                untracked_lists_are_unchanged(visitor.policy, ident, stmt.nodes);
            }
        }
        assert(visitor.policy.visited_script_items(ident, n.body) =~= n.body);
    }
}

proof fn untracked_lists_are_unchanged(policy: Policy, ident: IdentView, nodes: Seq<NodeView>)
    requires
        !policy.tracks_nodes(nodes),
    ensures
        policy.visited_nodes(ident, nodes) == nodes,
{
    assert forall|i: int| 0 <= i < nodes.len() implies policy.visited_node(
        ident,
        #[trigger] nodes[i],
    ) == nodes[i] by {
        untracked_nodes_are_unchanged(policy, ident, nodes[i]);
    }
    assert(policy.visited_nodes(ident, nodes) =~= nodes);
}

/// A module of which something is tracked gains one item: an import of tracking
/// under the name that the visitor uses for it, after the directives that the
/// module begins with. The other items keep their places.
pub proof fn tracked_module_gains_one_import(visitor: VisitorView, n: ModuleView) -> (k: int)
    requires
        visitor.tracks_module(n),
    ensures
        0 <= k <= n.body.len(),
        visitor.visited_module(n).body.len() == n.body.len() + 1,
        visitor.visited_module(n).body[k] matches ModuleItemView::ModuleDecl(decl)
            && decl.local == visitor.import_ident() && decl.src
            == visitor.use_signals_import_source && decl.imported == Some(
            use_signals_ident(visitor.import_ident().ctxt),
        ),
        visitor.visited_module(n).body.remove(k) == visitor.visited_module_items(n),
        forall|i: int| 0 <= i < k ==> module_item_is_directive(#[trigger] n.body[i]),
        k < n.body.len() ==> !module_item_is_directive(n.body[k]),
{
    let items = visitor.visited_module_items(n);
    let flags = items.map_values(|item: ModuleItemView| module_item_is_directive(item));
    let k = leading_directives(flags);
    leading_directives_stop(flags);
    assert forall|i: int| 0 <= i < n.body.len() implies flags[i] == module_item_is_directive(
        #[trigger] n.body[i],
    ) by {}
    assert(visitor.visited_module(n).body.remove(k) =~= items);
    k
}

/// A script of which something is tracked gains one statement: tracking is
/// required under the name that the visitor uses for it, after the directives
/// that the script begins with. The other statements keep their places.
pub proof fn tracked_script_gains_one_require(visitor: VisitorView, n: ScriptView) -> (k: int)
    requires
        visitor.tracks_script(n),
    ensures
        0 <= k <= n.body.len(),
        visitor.visited_script(n).body.len() == n.body.len() + 1,
        visitor.visited_script(n).body[k] matches ScriptItemView::Require(decl) && decl.local
            == visitor.import_ident() && decl.src == visitor.use_signals_import_source
            && decl.imported == Some(use_signals_ident(visitor.import_ident().ctxt)),
        visitor.visited_script(n).body.remove(k) == visitor.visited_script_items(n),
        forall|i: int| 0 <= i < k ==> script_item_is_directive(#[trigger] n.body[i]),
        k < n.body.len() ==> !script_item_is_directive(n.body[k]),
{
    let items = visitor.visited_script_items(n);
    let flags = items.map_values(|item: ScriptItemView| script_item_is_directive(item));
    let k = leading_directives(flags);
    leading_directives_stop(flags);
    assert forall|i: int| 0 <= i < n.body.len() implies flags[i] == script_item_is_directive(
        #[trigger] n.body[i],
    ) by {}
    assert(visitor.visited_script(n).body.remove(k) =~= items);
    k
}

/// A visit leaves a visitor at the depth, with the policy and with the name for
/// tracking that it had before; so visits can follow one another, and all that
/// they track is tracked under one name.
pub proof fn visits_share_one_name(visitor: VisitorView, first: bool, second: bool)
    ensures
        visitor.noting(first).depth == visitor.depth,
        visitor.noting(first).policy == visitor.policy,
        visitor.noting(first).import_ident() == visitor.import_ident(),
        visitor.noting(first).noting(second) == visitor.noting(first || second),
{
}

/// What one program left behind does not reach the next one.
pub proof fn programs_are_independent(
    visitor: VisitorView,
    any: bool,
    earlier: u32,
    n: ProgramView,
    private_ctxt: u32,
)
    ensures
        visitor.fresh(earlier).noting(any).visited_program(n, private_ctxt)
            == visitor.visited_program(n, private_ctxt),
{
}

/// No two programs that one visitor visits share an identifier that is written
/// into them, as long as each brings a context of its own.
pub proof fn programs_share_no_name(visitor: VisitorView, first: u32, second: u32)
    requires
        first != second,
    ensures
        ({
            let one = visitor.fresh(first).import_ident();
            let other = visitor.fresh(second).import_ident();
            &&& one != other
            &&& stop_ident(one.ctxt) != stop_ident(other.ctxt)
            &&& use_signals_ident(one.ctxt) != use_signals_ident(other.ctxt)
        }),
{
}

/// The statements of a tracked function stand together and unchanged in its new
/// body: all of them in the `try`, after which tracking is stopped, or after the
/// call that begins it.
pub proof fn tracking_keeps_the_body(
    stmts: Seq<StmtView>,
    ident: IdentView,
    trackable: Option<Trackable>,
)
    ensures
        trackable != Some(Trackable::Unknown) ==> {
            let wrapped = wrapped_stmts(stmts, ident, trackable);
            &&& wrapped.len() == 2
            &&& wrapped[0] is Var
            &&& wrapped[1] == StmtView::Try(
                stmts,
                seq![StmtView::Expr(call(stop_ident(ident.ctxt), seq![]))],
            )
        },
        trackable == Some(Trackable::Unknown) ==> wrapped_stmts(
            stmts,
            ident,
            trackable,
        ).drop_first() == stmts,
{
    if trackable == Some(Trackable::Unknown) {
        assert(wrapped_stmts(stmts, ident, trackable).drop_first() =~= stmts);
    }
}

/// Tracking changes nothing of a function but its body.
pub proof fn tracking_changes_only_the_body(
    function: FunctionView,
    arrow: ArrowExprView,
    ident: IdentView,
    trackable: Option<Trackable>,
)
    ensures
        wrapped_function(function, ident, trackable).span == function.span,
        wrapped_function(function, ident, trackable).params == function.params,
        wrapped_function(function, ident, trackable).body is Some <==> function.body is Some,
        wrapped_arrow(arrow, ident, trackable).span == arrow.span,
        wrapped_arrow(arrow, ident, trackable).params == arrow.params,
{
}

/// A tracked function is told what it is taken for if the options say so: `1`
/// for a component, `2` for a hook. One that is taken for neither then only
/// begins with the call. Where the options do not say so, nothing is told, and
/// every tracked function stops tracking at its end.
pub proof fn usage_flag_tells_the_kind(
    policy: Policy,
    stmts: Seq<StmtView>,
    ident: IdentView,
    trackable: Trackable,
)
    ensures
        ({
            let wrapped = wrapped_stmts(stmts, ident, policy.context(trackable));
            let stop = stop_ident(ident.ctxt);
            if policy.add_context_to_hooks {
                match trackable {
                    Trackable::Component => wrapped[0] == StmtView::Var(
                        stop,
                        call(ident, seq![1u32]),
                    ),
                    Trackable::Hook => wrapped[0] == StmtView::Var(stop, call(ident, seq![2u32])),
                    Trackable::Unknown => wrapped[0] == StmtView::Expr(call(ident, seq![])),
                }
            } else {
                wrapped[0] == StmtView::Var(stop, call(ident, seq![]))
            }
        }),
{
}

/// The names that the transform writes differ from one another, and all belong
/// to the visitor's own context.
pub proof fn written_names_are_private(visitor: VisitorView)
    requires
        visitor.import_use_signals is None,
    ensures
        visitor.import_ident().ctxt == visitor.private_ctxt,
        stop_ident(visitor.import_ident().ctxt).ctxt == visitor.private_ctxt,
        stop_ident(visitor.import_ident().ctxt) != visitor.import_ident(),
{
    reveal_strlit("stop");
    reveal_strlit("_useComponentTracking");
    assert("stop"@.len() != "_useComponentTracking"@.len());
}

/// What follows the directories of a path is the name of the file, whatever the
/// directories are called: also where they begin with a drive. The path then ends
/// alike on Unix and on Windows, unless the name holds `\` or `:` or the path
/// begins with two separators.
pub proof fn directories_are_irrelevant(directories: Seq<char>, name: Seq<char>)
    requires
        !name.contains('/'),
        name.len() > 0,
        name != "."@,
        name != ".."@,
    ensures
        path_file_name(directories.push('/') + name) == Some(name),
        is_portable_path(directories.push('/') + name) <==> {
            &&& !name.contains('\\')
            &&& !name.contains(':')
            &&& directories.len() == 0 || !is_separator(directories[0]) || (directories.len() > 1
                && !is_separator(directories[1]))
        },
{
    reveal_strlit(".");
    let path = directories.push('/') + name;
    assert(name.contains(name.last()));
    assert(path.last() == name.last());
    if name.len() > 1 {
        assert(path[path.len() - 2] == name[name.len() - 2]);
        assert(name.contains(name[name.len() - 2]));
    } else if name.last() == '.' {
        assert(name =~= "."@);
    }
    assert(without_trailing(path) == path);
    last_segment_follows_separator(directories, name);
}

proof fn last_segment_follows_separator(directories: Seq<char>, name: Seq<char>)
    requires
        !name.contains('/'),
    ensures
        last_segment(directories.push('/') + name) == name,
    decreases name.len(),
{
    let path = directories.push('/') + name;
    if name.len() == 0 {
        assert(path =~= directories.push('/'));
        assert(last_segment(path) =~= name);
    } else {
        assert forall|c: char| name.drop_last().contains(c) implies name.contains(c) by {
            let i = choose|i: int| 0 <= i < name.drop_last().len() && name.drop_last()[i] == c;
            assert(name[i] == c);
        }
        assert(name.contains(name.last()));
        last_segment_follows_separator(directories, name.drop_last());
        assert(path.drop_last() =~= directories.push('/') + name.drop_last());
        assert(last_segment(path) =~= name);
    }
}

/// Of the path of a file only the final component matters, on every platform and
/// for every path: where two files have the same one, a program becomes the same
/// in either.
pub proof fn only_the_file_name_matters(
    program: ProgramView,
    options: PreactSignalsPluginOptionsView,
    first: Option<&str>,
    second: Option<&str>,
    name: Option<Seq<char>>,
    comments: Map<u32, Seq<CommentView>>,
    private_ctxt: u32,
    r: ProgramView,
    s: ProgramView,
)
    requires
        becomes_under_name(program, options, first, name, comments, private_ctxt, r),
        becomes_under_name(program, options, second, name, comments, private_ctxt, s),
    ensures
        r == s,
{
}

/// Where two paths end alike on Unix and on Windows, and in the same final
/// component, a program becomes the same in either file.
pub proof fn paths_of_one_name_give_one_program(
    program: ProgramView,
    options: PreactSignalsPluginOptionsView,
    first: &str,
    second: &str,
    comments: Map<u32, Seq<CommentView>>,
    private_ctxt: u32,
    r: ProgramView,
    s: ProgramView,
)
    requires
        is_portable_path(first@),
        is_portable_path(second@),
        path_file_name(first@) == path_file_name(second@),
        may_become(program, options, Some(first), comments, private_ctxt, r),
        may_become(program, options, Some(second), comments, private_ctxt, s),
    ensures
        r == s,
{
}

/// The node is a default export of a function without a name, or JSX in which such
/// an export stands.
pub open spec fn goes_by_file(n: NodeView) -> bool
    decreases n,
{
    match n {
        NodeView::ExportDefaultDecl(n) => n.decl matches DefaultDeclView::Fn(f) && f.ident is None,
        NodeView::ExportDefaultExpr(n) => {
            &&& is_fn_expr(unparenthesized(n.expr))
            &&& fn_ident(unparenthesized(n.expr)) is None
        },
        NodeView::Jsx(nodes) => nodes_go_by_file(nodes),
        _ => false,
    }
}

pub open spec fn nodes_go_by_file(nodes: Seq<NodeView>) -> bool
    decreases nodes,
{
    exists|i: int| 0 <= i < nodes.len() && goes_by_file(#[trigger] nodes[i])
}

/// A function without a name is exported by default from the program.
pub open spec fn program_goes_by_file(program: ProgramView) -> bool {
    match program {
        ProgramView::Module(n) => exists|i: int|
            0 <= i < n.body.len() && (#[trigger] n.body[i] matches ModuleItemView::Stmt(stmt)
                && nodes_go_by_file(stmt.nodes)),
        ProgramView::Script(n) => exists|i: int|
            0 <= i < n.body.len() && (#[trigger] n.body[i] matches ScriptItemView::Stmt(stmt)
                && nodes_go_by_file(stmt.nodes)),
    }
}

/// The policy in a file whose name says `trackable`.
pub open spec fn in_file(policy: Policy, trackable: Option<Trackable>) -> Policy {
    Policy { file_trackable_name: trackable, ..policy }
}

/// The name of the file decides on nothing but a default export without a name.
pub proof fn file_decides_unnamed_defaults_alone(
    policy: Policy,
    trackable: Option<Trackable>,
    spans: Seq<Span>,
    name: Option<Option<Trackable>>,
    has_jsx: bool,
    is_default_export: bool,
)
    requires
        name is Some || !is_default_export,
    ensures
        in_file(policy, trackable).verdict(spans, name, has_jsx, is_default_export)
            == policy.verdict(spans, name, has_jsx, is_default_export),
{
}

proof fn file_decides_no_named_expr(
    policy: Policy,
    trackable: Option<Trackable>,
    spans: Seq<Span>,
    expr: ExprView,
    outer: Option<Option<Trackable>>,
    is_default_export: bool,
)
    requires
        is_fn_expr(expr) ==> fn_ident(expr) is Some || !is_default_export,
    ensures
        in_file(policy, trackable).expr_verdict(spans, expr, outer, is_default_export)
            == policy.expr_verdict(spans, expr, outer, is_default_export),
{
    if is_fn_expr(expr) {
        let name = match fn_ident(expr) {
            Some(ident) => Some(name_trackable(ident.sym)),
            None => outer,
        };
        file_decides_unnamed_defaults_alone(
            policy,
            trackable,
            spans,
            name,
            expr_has_jsx(expr),
            is_default_export,
        );
    }
}

proof fn file_decides_no_var_decl(
    policy: Policy,
    trackable: Option<Trackable>,
    n: VarDeclView,
    additional_spans: Seq<Span>,
)
    ensures
        in_file(policy, trackable).var_decl_verdict(n, additional_spans)
            == policy.var_decl_verdict(n, additional_spans),
{
    if n.decls.len() > 0 {
        if let Some(init) = n.decls[0].init {
            file_decides_no_named_expr(
                policy,
                trackable,
                seq![expr_span(unparenthesized(init)), n.span] + additional_spans,
                unparenthesized(init),
                Some(pat_trackable(n.decls[0].name)),
                false,
            );
        }
    }
}

proof fn file_decides_no_fn_decl(
    policy: Policy,
    trackable: Option<Trackable>,
    n: FnDeclView,
    spans: Seq<Span>,
)
    ensures
        in_file(policy, trackable).fn_decl_verdict(n, spans) == policy.fn_decl_verdict(n, spans),
{
    file_decides_unnamed_defaults_alone(
        policy,
        trackable,
        spans,
        Some(name_trackable(n.ident.sym)),
        function_has_jsx(n.function),
        false,
    );
}

proof fn file_gives_no_named_verdict(policy: Policy, trackable: Option<Trackable>, n: NodeView)
    requires
        !goes_by_file(n),
    ensures
        in_file(policy, trackable).node_verdict(n) == policy.node_verdict(n),
{
    match n {
        NodeView::VarDecl(n) => file_decides_no_var_decl(policy, trackable, n, seq![]),
        NodeView::FnDecl(n) => file_decides_no_fn_decl(
            policy,
            trackable,
            n,
            seq![n.function.span],
        ),
        NodeView::AssignExpr(n) => file_decides_no_named_expr(
            policy,
            trackable,
            seq![n.span],
            n.right,
            Some(target_trackable(n.left)),
            false,
        ),
        NodeView::KeyValueProp(n) => file_decides_no_named_expr(
            policy,
            trackable,
            seq![key_span(n.key)],
            n.value,
            Some(key_trackable(n.key)),
            false,
        ),
        NodeView::MethodProp(n) => file_decides_unnamed_defaults_alone(
            policy,
            trackable,
            seq![n.function.span, key_span(n.key)],
            Some(key_trackable(n.key)),
            function_has_jsx(n.function),
            false,
        ),
        NodeView::ExportDecl(n) => match n.decl {
            DeclView::Var(var_decl) => file_decides_no_var_decl(
                policy,
                trackable,
                var_decl,
                seq![n.span],
            ),
            DeclView::Fn(fn_decl) => file_decides_no_fn_decl(
                policy,
                trackable,
                fn_decl,
                seq![n.span, fn_decl.function.span],
            ),
            DeclView::Other(_) => {},
        },
        NodeView::ExportDefaultDecl(n) => match n.decl {
            DefaultDeclView::Fn(f) => file_decides_unnamed_defaults_alone(
                policy,
                trackable,
                seq![n.span, f.function.span],
                match f.ident {
                    Some(ident) => Some(name_trackable(ident.sym)),
                    None => None,
                },
                function_has_jsx(f.function),
                true,
            ),
            DefaultDeclView::Other(_) => {},
        },
        NodeView::ExportDefaultExpr(n) => file_decides_no_named_expr(
            policy,
            trackable,
            seq![n.span, expr_span(unparenthesized(n.expr))],
            unparenthesized(n.expr),
            None,
            true,
        ),
        NodeView::Jsx(_) => {},
    }
}

proof fn file_decides_no_named_node(
    policy: Policy,
    trackable: Option<Trackable>,
    ident: IdentView,
    n: NodeView,
)
    requires
        !goes_by_file(n),
    ensures
        in_file(policy, trackable).visited_node(ident, n) == policy.visited_node(ident, n),
        in_file(policy, trackable).tracks_node(n) == policy.tracks_node(n),
    decreases n,
{
    let other = in_file(policy, trackable);
    match n {
        NodeView::Jsx(nodes) => {
            assert(!nodes_go_by_file(nodes));
            assert forall|i: int| 0 <= i < nodes.len() implies other.visited_node(ident, nodes[i])
                == policy.visited_node(ident, nodes[i]) && other.tracks_node(#[trigger] nodes[i])
                == policy.tracks_node(nodes[i]) by {
                file_decides_no_named_node(policy, trackable, ident, nodes[i]);
            }
            assert(other.visited_nodes(ident, nodes) =~= policy.visited_nodes(ident, nodes));
            assert(other.tracks_nodes(nodes) == policy.tracks_nodes(nodes));
        },
        _ => {
            file_gives_no_named_verdict(policy, trackable, n);
        },
    }
}

proof fn file_decides_no_named_list(
    policy: Policy,
    trackable: Option<Trackable>,
    ident: IdentView,
    nodes: Seq<NodeView>,
)
    requires
        !nodes_go_by_file(nodes),
    ensures
        in_file(policy, trackable).visited_nodes(ident, nodes) == policy.visited_nodes(
            ident,
            nodes,
        ),
        in_file(policy, trackable).tracks_nodes(nodes) == policy.tracks_nodes(nodes),
{
    file_decides_no_named_node(policy, trackable, ident, NodeView::Jsx(nodes));
}

/// The name of the file matters to nothing but a default export without a name: a
/// program that has none becomes the same whatever the name says.
pub proof fn file_name_is_for_unnamed_defaults(
    program: ProgramView,
    options: PreactSignalsPluginOptionsView,
    comments: Map<u32, Seq<CommentView>>,
    first: Option<Trackable>,
    second: Option<Trackable>,
    private_ctxt: u32,
)
    requires
        !program_goes_by_file(program),
    ensures
        transformed(program, options, comments, first, private_ctxt) == transformed(
            program,
            options,
            comments,
            second,
            private_ctxt,
        ),
{
    let visitor = visitor_from(options, comments, first, private_ctxt);
    let policy = visitor.policy;
    let other = in_file(policy, second);
    let ident = visitor.import_ident();
    match program {
        ProgramView::Module(n) => {
            assert forall|i: int| 0 <= i < n.body.len() implies policy.tracks_module_item(
                #[trigger] n.body[i],
            ) == other.tracks_module_item(n.body[i]) && policy.visited_module_item(ident, n.body[i])
                == other.visited_module_item(ident, n.body[i]) by {
                if let ModuleItemView::Stmt(stmt) = n.body[i] {
                    file_decides_no_named_list(policy, second, ident, stmt.nodes);
                }
            }
            assert(policy.visited_module_items(ident, n.body) =~= other.visited_module_items(
                ident,
                n.body,
            ));
            assert(policy.tracks_module(n.body) == other.tracks_module(n.body));
        },
        ProgramView::Script(n) => {
            assert forall|i: int| 0 <= i < n.body.len() implies policy.tracks_script_item(
                #[trigger] n.body[i],
            ) == other.tracks_script_item(n.body[i]) && policy.visited_script_item(ident, n.body[i])
                == other.visited_script_item(ident, n.body[i]) by {
                if let ScriptItemView::Stmt(stmt) = n.body[i] {
                    file_decides_no_named_list(policy, second, ident, stmt.nodes);
                }
            }
            assert(policy.visited_script_items(ident, n.body) =~= other.visited_script_items(
                ident,
                n.body,
            ));
            assert(policy.tracks_script(n.body) == other.tracks_script(n.body));
        },
    }
}

/// A program that exports no function without a name by default becomes the same in
/// every file, on every platform.
pub proof fn named_programs_ignore_their_files(
    program: ProgramView,
    options: PreactSignalsPluginOptionsView,
    first: Option<&str>,
    second: Option<&str>,
    comments: Map<u32, Seq<CommentView>>,
    private_ctxt: u32,
    r: ProgramView,
    s: ProgramView,
)
    requires
        !program_goes_by_file(program),
        may_become(program, options, first, comments, private_ctxt, r),
        may_become(program, options, second, comments, private_ctxt, s),
    ensures
        r == s,
{
    let one = choose|name: Option<Seq<char>>| #[trigger]
        becomes_under_name(program, options, first, name, comments, private_ctxt, r);
    let other = choose|name: Option<Seq<char>>| #[trigger]
        becomes_under_name(program, options, second, name, comments, private_ctxt, s);
    file_name_is_for_unnamed_defaults(
        program,
        options,
        comments,
        file_says(one),
        file_says(other),
        private_ctxt,
    );
}

} // verus!

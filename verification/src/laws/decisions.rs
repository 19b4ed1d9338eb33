//! Which functions are tracked, node by node.
use vstd::prelude::*;

use crate::ast::{
    ArrowExprView, AssignExprView, DeclView, DefaultDeclView, ExportDeclView, ExportDefaultDeclView,
    ExportDefaultExprView, ExprView, FnDeclView, FnExprView, IdentView, KeyValuePropView,
    MethodPropView, NodeView, PatView, PropNameView, Span, StrView, VarDeclView,
};
use crate::comments::{spans_directive, CommentView, ShouldTrack};
use crate::detect::{expr_has_jsx, function_has_jsx};
use crate::expr::{
    expr_span, fn_ident, is_fn_expr, key_span, unparenthesized, with_unparenthesized,
};
use crate::laws::directives::{any_span_decides, asks_at, forbids_at};
use crate::laws::jsx::{holds_jsx, jsx_is_found_wherever_it_stands, Part};
use crate::laws::names::{
    begins_as_hook, begins_with_capital, first_letters_tell, key_name, pat_name, target_name,
};
use crate::laws::wrapping::{
    introduces_function, node_tracks, nodes_are_kept_but_for_the_function,
};
use crate::names::{name_trackable, pat_trackable, MaybeComponentName, Trackable};
use crate::options::TransformMode;
use crate::policy::Policy;
use crate::visitor::option_name;

verus! {

/// What stands in the parentheses around an expression.
pub open spec fn bare(expr: ExprView) -> ExprView
    decreases expr,
{
    if let ExprView::Paren(_, inner) = expr {
        bare(*inner)
    } else {
        expr
    }
}

/// Parentheses are taken off one by one, until none is left, and put back in the same
/// way around whatever takes the place of what stood in them.
pub proof fn parentheses_are_taken_off(expr: ExprView, new: ExprView, span: Span)
    ensures
        unparenthesized(expr) == bare(expr),
        unparenthesized(expr) !is Paren,
        expr !is Paren ==> unparenthesized(expr) == expr && with_unparenthesized(expr, new) == new,
        unparenthesized(ExprView::Paren(span, Box::new(expr))) == unparenthesized(expr),
        with_unparenthesized(ExprView::Paren(span, Box::new(expr)), new) == ExprView::Paren(
            span,
            Box::new(with_unparenthesized(expr, new)),
        ),
    decreases expr,
{
    if let ExprView::Paren(_, inner) = expr {
        parentheses_are_taken_off(*inner, new, span);
    }
}

/// Where an expression begins in the source.
pub open spec fn expr_begins(expr: ExprView) -> u32 {
    match expr {
        ExprView::Fn(f) => f.function.span.lo,
        ExprView::Arrow(arrow) => arrow.span.lo,
        ExprView::Paren(span, _) => span.lo,
        ExprView::Other(span, _) => span.lo,
    }
}

/// Where a key begins in the source.
pub open spec fn key_begins(key: PropNameView) -> u32 {
    match key {
        PropNameView::Ident(ident) => ident.span.lo,
        PropNameView::Str(lit) => lit.span.lo,
        PropNameView::Computed(span, _) => span.lo,
        PropNameView::Num(span) => span.lo,
    }
}

/// The spans of expressions and of keys are those that the source gives them.
pub proof fn spans_are_given(
    f: FnExprView,
    arrow: ArrowExprView,
    span: Span,
    inner: ExprView,
    nodes: Seq<NodeView>,
    ident: IdentView,
    lit: StrView,
    text: Option<StrView>,
)
    ensures
        expr_span(ExprView::Fn(f)) == f.function.span,
        expr_span(ExprView::Arrow(arrow)) == arrow.span,
        expr_span(ExprView::Paren(span, Box::new(inner))) == span,
        expr_span(ExprView::Other(span, nodes)) == span,
        key_span(PropNameView::Ident(ident)) == ident.span,
        key_span(PropNameView::Str(lit)) == lit.span,
        key_span(PropNameView::Computed(span, text)) == span,
        key_span(PropNameView::Num(span)) == span,
{
}

/// The function that an expression is.
pub open spec fn function_in(expr: ExprView) -> Option<Part> {
    match expr {
        ExprView::Fn(f) => Some(Part::Function(f.function)),
        ExprView::Arrow(arrow) => Some(Part::Arrow(arrow)),
        ExprView::Paren(_, _) => None,
        ExprView::Other(_, _) => None,
    }
}

/// The name that the function in an expression gives itself, or else `outer`.
pub open spec fn own_name_or(expr: ExprView, outer: Option<Seq<char>>) -> Option<Seq<char>> {
    match expr {
        ExprView::Fn(FnExprView { ident: Some(ident), .. }) => Some(ident.sym),
        _ => outer,
    }
}

/// The function that the first binding of a declaration holds, in parentheses or not.
pub open spec fn function_bound(n: VarDeclView) -> Option<Part> {
    if n.decls.len() > 0 && n.decls[0].init is Some {
        function_in(bare(n.decls[0].init->0))
    } else {
        None
    }
}

/// The function that a node introduces.
pub open spec fn function_of(n: NodeView) -> Option<Part> {
    match n {
        NodeView::VarDecl(n) => function_bound(n),
        NodeView::FnDecl(n) => Some(Part::Function(n.function)),
        NodeView::AssignExpr(n) => function_in(n.right),
        NodeView::KeyValueProp(n) => function_in(n.value),
        NodeView::MethodProp(n) => Some(Part::Function(n.function)),
        NodeView::ExportDecl(n) => match n.decl {
            DeclView::Var(v) => function_bound(v),
            DeclView::Fn(f) => Some(Part::Function(f.function)),
            DeclView::Other(_) => None,
        },
        NodeView::ExportDefaultDecl(n) => match n.decl {
            DefaultDeclView::Fn(f) => Some(Part::Function(f.function)),
            DefaultDeclView::Other(_) => None,
        },
        NodeView::ExportDefaultExpr(n) => function_in(bare(n.expr)),
        NodeView::Jsx(_) => None,
    }
}

/// The name of the function that the first binding of a declaration holds.
pub open spec fn name_bound(n: VarDeclView) -> Option<Seq<char>> {
    own_name_or(bare(n.decls[0].init->0), pat_name(n.decls[0].name))
}

/// The name of the function that a node introduces: the one that it gives itself, or
/// else the one that the node gives it.
pub open spec fn name_of(n: NodeView) -> Option<Seq<char>> {
    match n {
        NodeView::VarDecl(n) => name_bound(n),
        NodeView::FnDecl(n) => Some(n.ident.sym),
        NodeView::AssignExpr(n) => own_name_or(n.right, target_name(n.left)),
        NodeView::KeyValueProp(n) => own_name_or(n.value, key_name(n.key)),
        NodeView::MethodProp(n) => key_name(n.key),
        NodeView::ExportDecl(n) => match n.decl {
            DeclView::Var(v) => name_bound(v),
            DeclView::Fn(f) => Some(f.ident.sym),
            DeclView::Other(_) => None,
        },
        NodeView::ExportDefaultDecl(n) => match n.decl {
            DefaultDeclView::Fn(FnExprView { ident: Some(ident), .. }) => Some(ident.sym),
            _ => None,
        },
        NodeView::ExportDefaultExpr(n) => own_name_or(bare(n.expr), None),
        NodeView::Jsx(_) => None,
    }
}

pub open spec fn is_default_export(n: NodeView) -> bool {
    n is ExportDefaultDecl || n is ExportDefaultExpr
}

/// What the function that a node introduces is taken for, in a file whose name says
/// `file`: what the letters of its name say, or what the file says of a default
/// export without a name.
pub open spec fn taken_for(n: NodeView, file: Option<Trackable>) -> Option<Trackable> {
    match name_of(n) {
        Some(name) => if begins_with_capital(name) {
            Some(Trackable::Component)
        } else if begins_as_hook(name) {
            Some(Trackable::Hook)
        } else {
            None
        },
        None => if is_default_export(n) {
            file
        } else {
            None
        },
    }
}

pub open spec fn stands_in_object_literal(n: NodeView) -> bool {
    n is KeyValueProp || n is MethodProp
}

/// Comments right before `pos` count for the first binding of a declaration.
pub open spec fn counts_for_binding(n: VarDeclView, pos: u32) -> bool {
    ||| pos == n.span.lo
    ||| n.decls.len() > 0 && n.decls[0].init is Some && pos == expr_begins(
        bare(n.decls[0].init->0),
    )
}

/// Comments right before `pos` count for the function that a node introduces: those
/// before an export, a declaration, an assignment or a key, and those before the
/// function.
pub open spec fn counts_for(n: NodeView, pos: u32) -> bool {
    match n {
        NodeView::VarDecl(n) => counts_for_binding(n, pos),
        NodeView::FnDecl(n) => pos == n.function.span.lo,
        NodeView::AssignExpr(n) => pos == n.span.lo,
        NodeView::KeyValueProp(n) => pos == key_begins(n.key),
        NodeView::MethodProp(n) => pos == n.function.span.lo || pos == key_begins(n.key),
        NodeView::ExportDecl(n) => {
            ||| pos == n.span.lo
            ||| match n.decl {
                DeclView::Var(v) => counts_for_binding(v, pos),
                DeclView::Fn(f) => pos == f.function.span.lo,
                DeclView::Other(_) => false,
            }
        },
        NodeView::ExportDefaultDecl(n) => {
            ||| pos == n.span.lo
            ||| match n.decl {
                DefaultDeclView::Fn(f) => pos == f.function.span.lo,
                DefaultDeclView::Other(_) => false,
            }
        },
        NodeView::ExportDefaultExpr(n) => pos == n.span.lo || pos == expr_begins(bare(n.expr)),
        NodeView::Jsx(_) => false,
    }
}

/// A comment that counts for the node forbids tracking.
pub open spec fn is_forbidden(comments: Map<u32, Seq<CommentView>>, n: NodeView) -> bool {
    exists|pos: u32| counts_for(n, pos) && #[trigger] forbids_at(comments, pos)
}

/// A comment that counts for the node asks for tracking.
pub open spec fn is_asked_for(comments: Map<u32, Seq<CommentView>>, n: NodeView) -> bool {
    exists|pos: u32| counts_for(n, pos) && #[trigger] asks_at(comments, pos)
}

/// The node is the declaration that the visit of an export has dealt with.
pub open spec fn is_ignored(policy: Policy, n: NodeView) -> bool {
    match n {
        NodeView::VarDecl(n) => policy.ignore_span == Some(n.span),
        NodeView::FnDecl(n) => policy.ignore_span == Some(n.function.span),
        _ => false,
    }
}

/// What is decided on a node that introduces the function `part`.
pub open spec fn decision(policy: Policy, n: NodeView, part: Part) -> Option<Trackable> {
    let kind = taken_for(n, policy.file_trackable_name);
    if is_forbidden(policy.comments, n) {
        None
    } else if is_asked_for(policy.comments, n) {
        match kind {
            Some(kind) => Some(kind),
            None => Some(Trackable::Unknown),
        }
    } else if policy.mode == TransformMode::Manual || stands_in_object_literal(n) {
        None
    } else if kind == Some(Trackable::Component) && holds_jsx(part) {
        Some(Trackable::Component)
    } else {
        None
    }
}

/// The spans that are looked at begin where the comments count.
pub open spec fn covers(spans: Seq<Span>, n: NodeView) -> bool {
    &&& forall|i: int| 0 <= i < spans.len() ==> counts_for(n, (#[trigger] spans[i]).lo)
    &&& forall|pos: u32| #[trigger]
        counts_for(n, pos) ==> exists|i: int| 0 <= i < spans.len() && (#[trigger] spans[i]).lo == pos
}

proof fn covered_spans_decide(policy: Policy, n: NodeView, spans: Seq<Span>)
    requires
        covers(spans, n),
    ensures
        spans_directive(policy.comments, spans) == ShouldTrack::OptOut <==> is_forbidden(
            policy.comments,
            n,
        ),
        spans_directive(policy.comments, spans) == ShouldTrack::OptIn <==> is_asked_for(
            policy.comments,
            n,
        ) && !is_forbidden(policy.comments, n),
{
    let comments = policy.comments;
    any_span_decides(comments, spans);
    if is_forbidden(comments, n) {
        let pos = choose|pos: u32| counts_for(n, pos) && #[trigger] forbids_at(comments, pos);
        let i = choose|i: int| 0 <= i < spans.len() && (#[trigger] spans[i]).lo == pos;
        assert(forbids_at(comments, spans[i].lo));
    }
    if is_asked_for(comments, n) {
        let pos = choose|pos: u32| counts_for(n, pos) && #[trigger] asks_at(comments, pos);
        let i = choose|i: int| 0 <= i < spans.len() && (#[trigger] spans[i]).lo == pos;
        assert(asks_at(comments, spans[i].lo));
    }
}

/// What the name of a function says, as the policy is handed it.
spec fn name_handed(n: NodeView) -> Option<Option<Trackable>> {
    match name_of(n) {
        Some(name) => Some(name_trackable(name)),
        None => if is_default_export(n) {
            None
        } else {
            Some(None)
        },
    }
}

proof fn names_are_handed(policy: Policy, n: NodeView)
    ensures
        policy.named(name_handed(n), is_default_export(n)) == taken_for(
            n,
            policy.file_trackable_name,
        ),
{
    if let Some(name) = name_of(n) {
        first_letters_tell(name);
    }
}

proof fn verdicts_decide(policy: Policy, n: NodeView, part: Part, spans: Seq<Span>, jsx: bool)
    requires
        covers(spans, n),
        !stands_in_object_literal(n),
        jsx == holds_jsx(part),
    ensures
        policy.verdict(spans, name_handed(n), jsx, is_default_export(n)) == decision(
            policy,
            n,
            part,
        ),
{
    covered_spans_decide(policy, n, spans);
    names_are_handed(policy, n);
}

proof fn requests_decide(policy: Policy, n: NodeView, part: Part, spans: Seq<Span>, jsx: bool)
    requires
        covers(spans, n),
        stands_in_object_literal(n),
    ensures
        decision(policy, n, part) == if spans_directive(policy.comments, spans)
            == ShouldTrack::OptIn {
            policy.verdict(spans, name_handed(n), jsx, is_default_export(n))
        } else {
            None
        },
{
    covered_spans_decide(policy, n, spans);
    names_are_handed(policy, n);
}

proof fn functions_in_exprs(expr: ExprView)
    ensures
        is_fn_expr(expr) <==> function_in(expr) is Some,
        function_in(expr) matches Some(part) ==> expr_has_jsx(expr) == holds_jsx(part),
        expr_span(expr).lo == expr_begins(expr),
        unparenthesized(expr) == bare(expr),
{
    parentheses_are_taken_off(expr, expr, expr_span(expr));
    if let Some(part) = function_in(expr) {
        jsx_is_found_wherever_it_stands(part);
    }
}

proof fn var_decls_are_decided(policy: Policy, whole: NodeView, n: VarDeclView, extra: Seq<Span>)
    requires
        ({
            ||| whole == NodeView::VarDecl(n) && extra == Seq::<Span>::empty()
            ||| whole matches NodeView::ExportDecl(export) && export.decl == DeclView::Var(n)
                && extra == seq![export.span]
        }),
    ensures
        policy.var_decl_verdict(n, extra) == match function_of(whole) {
            Some(part) => decision(policy, whole, part),
            None => None,
        },
{
    if n.decls.len() > 0 && n.decls[0].init is Some {
        let init = n.decls[0].init->0;
        let expr = unparenthesized(init);
        functions_in_exprs(init);
        functions_in_exprs(expr);
        let spans = seq![expr_span(expr), n.span] + extra;
        assert(spans[0] == expr_span(expr));
        assert(spans[1] == n.span);
        if extra.len() > 0 {
            assert(spans[2] == extra[0]);
        }
        assert(covers(spans, whole));
        if let Some(part) = function_of(whole) {
            verdicts_decide(policy, whole, part, spans, expr_has_jsx(expr));
            if let PatView::Ident(ident) = n.decls[0].name {
                assert(pat_trackable(n.decls[0].name) == name_trackable(ident.sym));
            }
        }
    }
}

proof fn fn_decls_are_decided(policy: Policy, whole: NodeView, n: FnDeclView, spans: Seq<Span>)
    requires
        ({
            ||| whole == NodeView::FnDecl(n) && spans == seq![n.function.span]
            ||| whole matches NodeView::ExportDecl(export) && export.decl == DeclView::Fn(n)
                && spans == seq![export.span, n.function.span]
        }),
    ensures
        policy.fn_decl_verdict(n, spans) == decision(policy, whole, Part::Function(n.function)),
{
    if let NodeView::ExportDecl(export) = whole {
        assert(spans[0] == export.span);
        assert(spans[1] == n.function.span);
    } else {
        assert(spans[0] == n.function.span);
    }
    assert(covers(spans, whole));
    jsx_is_found_wherever_it_stands(Part::Function(n.function));
    verdicts_decide(
        policy,
        whole,
        Part::Function(n.function),
        spans,
        function_has_jsx(n.function),
    );
}

proof fn assignments_are_decided(policy: Policy, n: AssignExprView)
    ensures
        policy.assign_expr_verdict(n) == match function_of(NodeView::AssignExpr(n)) {
            Some(part) => decision(policy, NodeView::AssignExpr(n), part),
            None => None,
        },
{
    let whole = NodeView::AssignExpr(n);
    let spans = seq![n.span];
    assert(spans[0] == n.span);
    assert(covers(spans, whole));
    functions_in_exprs(n.right);
    if let Some(part) = function_of(whole) {
        verdicts_decide(policy, whole, part, spans, expr_has_jsx(n.right));
    }
}

proof fn properties_are_decided(policy: Policy, n: KeyValuePropView)
    ensures
        policy.key_value_prop_verdict(n) == match function_of(NodeView::KeyValueProp(n)) {
            Some(part) => decision(policy, NodeView::KeyValueProp(n), part),
            None => None,
        },
{
    let whole = NodeView::KeyValueProp(n);
    let spans = seq![key_span(n.key)];
    assert(spans[0] == key_span(n.key));
    assert(covers(spans, whole));
    functions_in_exprs(n.value);
    if let Some(part) = function_of(whole) {
        requests_decide(policy, whole, part, spans, expr_has_jsx(n.value));
    }
}

proof fn methods_are_decided(policy: Policy, n: MethodPropView)
    ensures
        policy.method_prop_verdict(n) == decision(
            policy,
            NodeView::MethodProp(n),
            Part::Function(n.function),
        ),
{
    let whole = NodeView::MethodProp(n);
    let spans = seq![n.function.span, key_span(n.key)];
    assert(spans[0] == n.function.span);
    assert(spans[1] == key_span(n.key));
    assert(covers(spans, whole));
    requests_decide(
        policy,
        whole,
        Part::Function(n.function),
        spans,
        function_has_jsx(n.function),
    );
}

proof fn default_declarations_are_decided(policy: Policy, n: ExportDefaultDeclView)
    ensures
        policy.export_default_decl_verdict(n) == match function_of(NodeView::ExportDefaultDecl(n)) {
            Some(part) => decision(policy, NodeView::ExportDefaultDecl(n), part),
            None => None,
        },
{
    let whole = NodeView::ExportDefaultDecl(n);
    if let DefaultDeclView::Fn(f) = n.decl {
        let spans = seq![n.span, f.function.span];
        assert(spans[0] == n.span);
        assert(spans[1] == f.function.span);
        assert(covers(spans, whole));
        jsx_is_found_wherever_it_stands(Part::Function(f.function));
        verdicts_decide(
            policy,
            whole,
            Part::Function(f.function),
            spans,
            function_has_jsx(f.function),
        );
    }
}

proof fn default_expressions_are_decided(policy: Policy, n: ExportDefaultExprView)
    ensures
        policy.export_default_expr_verdict(n) == match function_of(NodeView::ExportDefaultExpr(n)) {
            Some(part) => decision(policy, NodeView::ExportDefaultExpr(n), part),
            None => None,
        },
{
    let whole = NodeView::ExportDefaultExpr(n);
    let expr = unparenthesized(n.expr);
    functions_in_exprs(n.expr);
    functions_in_exprs(expr);
    let spans = seq![n.span, expr_span(expr)];
    assert(spans[0] == n.span);
    assert(spans[1] == expr_span(expr));
    assert(covers(spans, whole));
    if let Some(part) = function_of(whole) {
        verdicts_decide(policy, whole, part, spans, expr_has_jsx(expr));
    }
}

/// Every node is decided by the function that it introduces, by the letters of that
/// function's name, by the comments right before it and before what introduces it, by
/// whether JSX stands in it, and by the mode. A node that introduces no function is
/// not tracked.
pub proof fn every_node_is_decided(policy: Policy, n: NodeView)
    ensures
        policy.node_verdict(n) == match function_of(n) {
            Some(part) => if is_ignored(policy, n) {
                None
            } else {
                decision(policy, n, part)
            },
            None => None,
        },
{
    match n {
        NodeView::VarDecl(v) => var_decls_are_decided(policy, n, v, seq![]),
        NodeView::FnDecl(f) => fn_decls_are_decided(policy, n, f, seq![f.function.span]),
        NodeView::AssignExpr(a) => assignments_are_decided(policy, a),
        NodeView::KeyValueProp(p) => properties_are_decided(policy, p),
        NodeView::MethodProp(m) => methods_are_decided(policy, m),
        NodeView::ExportDecl(e) => match e.decl {
            DeclView::Var(v) => var_decls_are_decided(policy, n, v, seq![e.span]),
            DeclView::Fn(f) => fn_decls_are_decided(
                policy,
                n,
                f,
                seq![e.span, f.function.span],
            ),
            DeclView::Other(_) => {},
        },
        NodeView::ExportDefaultDecl(e) => default_declarations_are_decided(policy, e),
        NodeView::ExportDefaultExpr(e) => default_expressions_are_decided(policy, e),
        NodeView::Jsx(_) => {},
    }
}

/// A comment right before a node, or right before the function in it, that forbids
/// tracking is followed, whatever kind of node it is: nothing of the node changes.
pub proof fn forbidden_nodes_are_unchanged(policy: Policy, ident: IdentView, n: NodeView, pos: u32)
    requires
        counts_for(n, pos),
        forbids_at(policy.comments, pos),
    ensures
        policy.node_verdict(n) is None,
        policy.visited_node(ident, n) == n,
        !policy.tracks_node(n),
{
    every_node_is_decided(policy, n);
    assert(is_forbidden(policy.comments, n));
}

/// A comment right before a node, or right before the function in it, that asks for
/// tracking is followed where none forbids it, whatever kind of node it is, in every
/// mode, whatever its name and with JSX or without.
pub proof fn nodes_are_tracked_on_request(policy: Policy, ident: IdentView, n: NodeView, pos: u32)
    requires
        function_of(n) is Some,
        !is_ignored(policy, n),
        counts_for(n, pos),
        asks_at(policy.comments, pos),
        forall|other: u32| counts_for(n, other) ==> !#[trigger] forbids_at(policy.comments, other),
    ensures
        policy.tracks_node(n),
        policy.node_verdict(n) == Some(
            match taken_for(n, policy.file_trackable_name) {
                Some(kind) => kind,
                None => Trackable::Unknown,
            },
        ),
        node_tracks(
            policy.visited_node(ident, n),
            n,
            ident,
            if policy.add_context_to_hooks {
                policy.node_verdict(n)
            } else {
                None
            },
        ),
{
    every_node_is_decided(policy, n);
    assert(is_asked_for(policy.comments, n));
    visits_do_what_is_decided(policy, ident, n);
}

/// Where no comment decides and the mode is not manual, a function outside object
/// literals is tracked if and only if its name begins with a capital letter and JSX
/// stands in it.
pub proof fn components_are_tracked_by_their_letters(
    policy: Policy,
    ident: IdentView,
    n: NodeView,
    part: Part,
    name: Seq<char>,
)
    requires
        function_of(n) == Some(part),
        name_of(n) == Some(name),
        !is_ignored(policy, n),
        !stands_in_object_literal(n),
        policy.mode != TransformMode::Manual,
        forall|pos: u32| counts_for(n, pos) ==> !#[trigger] forbids_at(policy.comments, pos),
        forall|pos: u32| counts_for(n, pos) ==> !#[trigger] asks_at(policy.comments, pos),
    ensures
        policy.tracks_node(n) <==> 'A' <= name[0] <= 'Z' && name.len() > 0 && holds_jsx(part),
        policy.tracks_node(n) ==> node_tracks(
            policy.visited_node(ident, n),
            n,
            ident,
            if policy.add_context_to_hooks {
                Some(Trackable::Component)
            } else {
                None
            },
        ),
        !policy.tracks_node(n) ==> policy.visited_node(ident, n) == n,
{
    every_node_is_decided(policy, n);
    visits_do_what_is_decided(policy, ident, n);
}

/// A visit does what is decided: the node is kept but for the function that it
/// introduces, which is tracked, or it is kept whole. It is told what it is taken for
/// if the options say so. JSX is visited node by node.
pub proof fn visits_do_what_is_decided(policy: Policy, ident: IdentView, n: NodeView)
    ensures
        policy.node_verdict(n) matches Some(kind) ==> node_tracks(
            policy.visited_node(ident, n),
            n,
            ident,
            if policy.add_context_to_hooks {
                Some(kind)
            } else {
                None
            },
        ),
        n !is Jsx ==> (policy.tracks_node(n) <==> policy.node_verdict(n) is Some),
        n !is Jsx && policy.node_verdict(n) is None ==> policy.visited_node(ident, n) == n,
        n matches NodeView::Jsx(nodes) ==> {
            &&& policy.visited_node(ident, n) is Jsx
            &&& policy.visited_node(ident, n)->Jsx_0.len() == nodes.len()
            &&& forall|i: int|
                0 <= i < nodes.len() ==> #[trigger] policy.visited_node(ident, n)->Jsx_0[i]
                    == policy.visited_node(ident, nodes[i])
            &&& policy.tracks_node(n) <==> exists|i: int|
                0 <= i < nodes.len() && policy.tracks_node(#[trigger] nodes[i])
        },
{
    every_node_is_decided(policy, n);
    if let Some(kind) = policy.node_verdict(n) {
        match n {
            NodeView::VarDecl(v) => functions_in_exprs(v.decls[0].init->0),
            NodeView::ExportDecl(ExportDeclView { decl: DeclView::Var(v), .. }) => {
                functions_in_exprs(v.decls[0].init->0)
            },
            NodeView::ExportDefaultExpr(e) => functions_in_exprs(e.expr),
            _ => {},
        }
        assert(introduces_function(n));
        nodes_are_kept_but_for_the_function(
            n,
            ident,
            if policy.add_context_to_hooks {
                Some(kind)
            } else {
                None
            },
        );
    }
    if let NodeView::Jsx(nodes) = n {
        assert(policy.visited_node(ident, n)->Jsx_0 == policy.visited_nodes(ident, nodes));
        assert(policy.tracks_node(n) == policy.tracks_nodes(nodes));
    }
}

/// The name of a function goes before the name of its file, which is asked of a default
/// export without a name alone. A function is told what it is taken for if the options
/// say so.
pub proof fn names_go_before_files(policy: Policy, said: Option<Trackable>, kind: Trackable)
    ensures
        policy.named(Some(said), true) == said,
        policy.named(Some(said), false) == said,
        policy.named(None, true) == policy.file_trackable_name,
        policy.named(None, false) is None,
        policy.add_context_to_hooks ==> policy.context(kind) == Some(kind),
        !policy.add_context_to_hooks ==> policy.context(kind) is None,
{
}

/// Syntax that bears a name says what it says; without any, nothing is said.
pub proof fn bearers_are_asked<I: MaybeComponentName>(ident: &I)
    ensures
        option_name(Some(ident)) == Some(ident.spec_is_trackable()),
        option_name(None::<&I>) is None,
{
}

/// Comments before any of the spans go before the mode, the name and JSX: one that
/// forbids tracking before one that asks for it.
pub proof fn comments_go_before_names(
    policy: Policy,
    spans: Seq<Span>,
    name: Option<Option<Trackable>>,
    has_jsx: bool,
    is_default_export: bool,
)
    ensures
        ({
            let verdict = policy.verdict(spans, name, has_jsx, is_default_export);
            let kind = match name {
                Some(said) => said,
                None => if is_default_export {
                    policy.file_trackable_name
                } else {
                    None
                },
            };
            let forbidden = exists|i: int|
                0 <= i < spans.len() && forbids_at(policy.comments, (#[trigger] spans[i]).lo);
            let asked_for = exists|i: int|
                0 <= i < spans.len() && asks_at(policy.comments, (#[trigger] spans[i]).lo);
            &&& forbidden ==> verdict is None
            &&& !forbidden && asked_for ==> verdict is Some && (kind is Some ==> verdict == kind)
                && (kind is None ==> verdict == Some(Trackable::Unknown))
            &&& !forbidden && !asked_for ==> (verdict is Some <==> policy.mode
                != TransformMode::Manual && kind == Some(Trackable::Component) && has_jsx)
            &&& !forbidden && !asked_for && verdict is Some ==> verdict == Some(
                Trackable::Component,
            )
        }),
{
    any_span_decides(policy.comments, spans);
}

/// The first binding of a declaration is decided by the comments before the declaration,
/// before its value and before whatever else is looked at; by the name that its value
/// gives itself, or else the one that it binds; and by JSX in its value. Where it holds
/// no function, it is not tracked.
pub proof fn bindings_are_decided(policy: Policy, n: VarDeclView, extra: Seq<Span>)
    ensures
        function_bound(n) is None ==> policy.var_decl_verdict(n, extra) is None,
        function_bound(n) matches Some(part) ==> {
            let verdict = policy.var_decl_verdict(n, extra);
            let name = name_bound(n);
            let component = name is Some && begins_with_capital(name->0);
            let hook = name is Some && begins_as_hook(name->0);
            let forbidden = (exists|pos: u32|
                counts_for_binding(n, pos) && #[trigger] forbids_at(policy.comments, pos)) || (
            exists|i: int|
                0 <= i < extra.len() && forbids_at(policy.comments, (#[trigger] extra[i]).lo));
            let asked_for = (exists|pos: u32|
                counts_for_binding(n, pos) && #[trigger] asks_at(policy.comments, pos)) || (exists|
                i: int,
            |
                0 <= i < extra.len() && asks_at(policy.comments, (#[trigger] extra[i]).lo));
            &&& forbidden ==> verdict is None
            &&& !forbidden && asked_for ==> verdict is Some && (verdict == Some(
                Trackable::Component,
            ) <==> component) && (verdict == Some(Trackable::Hook) <==> hook)
            &&& !forbidden && !asked_for ==> (verdict is Some <==> policy.mode
                != TransformMode::Manual && component && holds_jsx(part)) && (verdict is Some
                ==> verdict == Some(Trackable::Component))
        },
{
    if n.decls.len() > 0 && n.decls[0].init is Some {
        let comments = policy.comments;
        let init = n.decls[0].init->0;
        let expr = unparenthesized(init);
        functions_in_exprs(init);
        functions_in_exprs(expr);
        let spans = seq![expr_span(expr), n.span] + extra;
        assert(spans[0] == expr_span(expr));
        assert(spans[1] == n.span);
        assert forall|i: int| 0 <= i < extra.len() implies #[trigger] extra[i] == spans[i + 2] by {}
        assert forall|i: int| 2 <= i < spans.len() implies #[trigger] spans[i] == extra[i - 2] by {}
        let forbidden = (exists|pos: u32|
            counts_for_binding(n, pos) && #[trigger] forbids_at(comments, pos)) || (exists|i: int|
            0 <= i < extra.len() && forbids_at(comments, (#[trigger] extra[i]).lo));
        let asked_for = (exists|pos: u32|
            counts_for_binding(n, pos) && #[trigger] asks_at(comments, pos)) || (exists|i: int|
            0 <= i < extra.len() && asks_at(comments, (#[trigger] extra[i]).lo));
        assert(forbidden <==> exists|i: int|
            0 <= i < spans.len() && forbids_at(comments, (#[trigger] spans[i]).lo)) by {
            if exists|i: int| 0 <= i < extra.len() && forbids_at(comments, (#[trigger] extra[i]).lo) {
                let i = choose|i: int|
                    0 <= i < extra.len() && forbids_at(comments, (#[trigger] extra[i]).lo);
                assert(forbids_at(comments, spans[i + 2].lo));
            }
        }
        assert(asked_for <==> exists|i: int|
            0 <= i < spans.len() && asks_at(comments, (#[trigger] spans[i]).lo)) by {
            if exists|i: int| 0 <= i < extra.len() && asks_at(comments, (#[trigger] extra[i]).lo) {
                let i = choose|i: int|
                    0 <= i < extra.len() && asks_at(comments, (#[trigger] extra[i]).lo);
                assert(asks_at(comments, spans[i + 2].lo));
            }
        }
        if let Some(part) = function_bound(n) {
            let whole = NodeView::VarDecl(n);
            names_are_handed(policy, whole);
            comments_go_before_names(
                policy,
                spans,
                name_handed(whole),
                expr_has_jsx(expr),
                false,
            );
            if let PatView::Ident(ident) = n.decls[0].name {
                assert(pat_trackable(n.decls[0].name) == name_trackable(ident.sym));
            }
        }
    }
}

/// Functions are looked for in expressions that are functions, not in parentheses and
/// not in calls; only a function expression gives itself a name.
pub proof fn functions_are_expressions(expr: ExprView)
    ensures
        is_fn_expr(expr) <==> expr is Fn || expr is Arrow,
        expr is Fn ==> fn_ident(expr) == expr->Fn_0.ident,
        expr !is Fn ==> fn_ident(expr) is None,
{
}

} // verus!

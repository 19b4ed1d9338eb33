//! What becomes of whole programs.
use vstd::prelude::*;

use crate::ast::{
    IdentView, ImportDeclView, ModuleItem, ModuleItemView, ModuleView, NodeView, ProgramView,
    RequireDeclView, ScriptItem, ScriptItemView, ScriptView, SourceStmtView, Span, StrView,
};
use crate::comments::CommentView;
use crate::imports::{
    directive_flags, leading_directives, leading_directives_stop, module_item_is_directive,
    private_use_signals_ident, script_item_is_directive, str_lit, use_signals_ident,
};
use crate::laws::decisions::{
    components_are_tracked_by_their_letters, counts_for, function_of, is_ignored, name_of,
    stands_in_object_literal,
};
use crate::laws::directives::{asks_at, forbids_at};
use crate::laws::jsx::{holds_jsx, Part};
use crate::laws::wrapping::node_tracks;
use crate::names::Trackable;
use crate::options::{
    default_options, PreactSignalsPluginOptions, PreactSignalsPluginOptionsView, TransformMode,
};
use crate::policy::Policy;
use crate::transform::{options_or_default, transformed};
use crate::visitor::{visitor_from, VisitorView};
use crate::wrap::stop_ident;

verus! {

/// An identifier that stands nowhere in the source.
pub open spec fn made_ident(sym: Seq<char>, ctxt: u32) -> IdentView {
    IdentView { span: Span { lo: 0, hi: 0 }, ctxt, sym, optional: false }
}

/// The policy of options, before any program is visited.
pub open spec fn policy_of(
    options: PreactSignalsPluginOptionsView,
    comments: Map<u32, Seq<CommentView>>,
    file: Option<Trackable>,
) -> Policy {
    Policy {
        comments,
        mode: options.mode,
        ignore_span: None,
        file_trackable_name: file,
        add_context_to_hooks: options.add_hook_usage_flag,
    }
}

/// The options that are given hold; where none are, all components are tracked,
/// tracking comes from `@react-typed-forms/core`, and functions are told nothing.
pub proof fn given_options_hold(options: Option<PreactSignalsPluginOptions>)
    ensures
        match options {
            Some(given) => {
                &&& options_or_default(options).mode == given.mode
                &&& options_or_default(options).import_source == given.import_source@
                &&& options_or_default(options).add_hook_usage_flag
                    == given.experimental.add_hook_usage_flag
            },
            None => {
                &&& options_or_default(options).mode == TransformMode::All
                &&& options_or_default(options).import_source == "@react-typed-forms/core"@
                &&& !options_or_default(options).add_hook_usage_flag
            },
        },
        default_options() == options_or_default(None),
{
}

/// A visitor does what its options say, and has visited nothing yet.
pub proof fn visitors_follow_their_options(
    options: PreactSignalsPluginOptionsView,
    comments: Map<u32, Seq<CommentView>>,
    file: Option<Trackable>,
    private_ctxt: u32,
)
    ensures
        ({
            let visitor = visitor_from(options, comments, file, private_ctxt);
            &&& visitor.policy == policy_of(options, comments, file)
            &&& visitor.import_use_signals is None
            &&& visitor.use_signals_import_source == (StrView {
                span: Span { lo: 0, hi: 0 },
                value: options.import_source,
                raw: None,
            })
            &&& visitor.depth == 0
            &&& visitor.private_ctxt == private_ctxt
            &&& visitor.import_ident() == made_ident("_useComponentTracking"@, private_ctxt)
        }),
{
}

/// Tracking keeps the name that it has; a new one is `_useComponentTracking`, made in
/// the context of the program. A step that tracks something fixes the name and changes
/// nothing else; one that tracks nothing changes nothing.
pub proof fn names_for_tracking_are_kept(visitor: VisitorView, private_ctxt: u32)
    ensures
        visitor.import_use_signals matches Some(ident) ==> visitor.import_ident() == ident,
        visitor.import_use_signals is None ==> visitor.import_ident() == made_ident(
            "_useComponentTracking"@,
            visitor.private_ctxt,
        ),
        visitor.noting(false) == visitor,
        visitor.noting(true).import_use_signals == Some(visitor.import_ident()),
        visitor.noting(true).policy == visitor.policy,
        visitor.noting(true).use_signals_import_source == visitor.use_signals_import_source,
        visitor.noting(true).depth == visitor.depth,
        visitor.noting(true).private_ctxt == visitor.private_ctxt,
        visitor.fresh(private_ctxt).import_use_signals is None,
        visitor.fresh(private_ctxt).private_ctxt == private_ctxt,
        visitor.fresh(private_ctxt).policy == visitor.policy,
        visitor.fresh(private_ctxt).use_signals_import_source == visitor.use_signals_import_source,
        visitor.fresh(private_ctxt).depth == visitor.depth,
{
}

/// Outside every node, a visit does what the policy says, node by node and in order.
pub proof fn outermost_nodes_follow_the_policy(visitor: VisitorView, nodes: Seq<NodeView>, i: int)
    requires
        visitor.depth == 0,
        0 <= i < nodes.len(),
    ensures
        visitor.visited_nodes(nodes).len() == nodes.len(),
        visitor.visited_nodes(nodes)[i] == visitor.policy.visited_node(
            visitor.import_ident(),
            nodes[i],
        ),
        visitor.visited_node(nodes[i]) == visitor.visited_nodes(nodes)[i],
        visitor.tracks_node(nodes[i]) == visitor.policy.tracks_node(nodes[i]),
        visitor.tracks_node(nodes[i]) ==> visitor.tracks_nodes(nodes),
        visitor.tracks_nodes(nodes) ==> exists|j: int|
            0 <= j < nodes.len() && visitor.tracks_node(#[trigger] nodes[j]),
{
    if visitor.tracks_nodes(nodes) {
        let j = choose|j: int| 0 <= j < nodes.len() && visitor.policy.tracks_node(#[trigger] nodes[j]);
        assert(visitor.tracks_node(nodes[j]));
    }
}

/// In a node, a visit changes nothing and tracks nothing.
pub proof fn inner_nodes_are_left_alone(visitor: VisitorView, nodes: Seq<NodeView>)
    requires
        visitor.depth > 0,
    ensures
        visitor.visited_nodes(nodes) == nodes,
        !visitor.tracks_nodes(nodes),
{
}

/// `new` is the statement `old` after its nodes were visited.
pub open spec fn stmt_is_visited(
    new: SourceStmtView,
    old: SourceStmtView,
    policy: Policy,
    ident: IdentView,
) -> bool {
    &&& new.directive == old.directive
    &&& new.nodes.len() == old.nodes.len()
    &&& forall|j: int|
        0 <= j < old.nodes.len() ==> #[trigger] new.nodes[j] == policy.visited_node(
            ident,
            old.nodes[j],
        )
}

/// Some node of the statement is tracked.
pub open spec fn stmt_tracks(stmt: SourceStmtView, policy: Policy) -> bool {
    exists|j: int| 0 <= j < stmt.nodes.len() && policy.tracks_node(#[trigger] stmt.nodes[j])
}

pub open spec fn module_item_is_visited(
    new: ModuleItemView,
    old: ModuleItemView,
    policy: Policy,
    ident: IdentView,
) -> bool {
    match old {
        ModuleItemView::Stmt(stmt) => new is Stmt && stmt_is_visited(
            new->Stmt_0,
            stmt,
            policy,
            ident,
        ),
        ModuleItemView::ModuleDecl(_) => new == old,
    }
}

pub open spec fn module_tracks(n: ModuleView, policy: Policy) -> bool {
    exists|i: int|
        0 <= i < n.body.len() && (#[trigger] n.body[i] matches ModuleItemView::Stmt(stmt)
            && stmt_tracks(stmt, policy))
}

pub open spec fn script_item_is_visited(
    new: ScriptItemView,
    old: ScriptItemView,
    policy: Policy,
    ident: IdentView,
) -> bool {
    match old {
        ScriptItemView::Stmt(stmt) => new is Stmt && stmt_is_visited(
            new->Stmt_0,
            stmt,
            policy,
            ident,
        ),
        ScriptItemView::Require(_) => new == old,
    }
}

pub open spec fn script_tracks(n: ScriptView, policy: Policy) -> bool {
    exists|i: int|
        0 <= i < n.body.len() && (#[trigger] n.body[i] matches ScriptItemView::Stmt(stmt)
            && stmt_tracks(stmt, policy))
}

/// The place of an item once another was put in at `k`.
pub open spec fn moved(i: int, k: int) -> int {
    if i < k {
        i
    } else {
        i + 1
    }
}

/// The item is a string literal alone.
pub open spec fn is_module_directive(item: ModuleItemView) -> bool {
    item is Stmt && item->Stmt_0.directive
}

pub open spec fn is_script_directive(item: ScriptItemView) -> bool {
    item is Stmt && item->Stmt_0.directive
}

/// Every item of a module is visited. If anything is tracked, an import of
/// `useComponentTracking` under the name that is used for it goes in after the
/// directives at the beginning, and else nothing goes in.
pub proof fn modules_are_visited_item_by_item(visitor: VisitorView, n: ModuleView) -> (k: int)
    requires
        visitor.depth == 0,
    ensures
        visitor.tracks_module(n) <==> module_tracks(n, visitor.policy),
        !module_tracks(n, visitor.policy) ==> visitor.visited_module(n).body.len() == n.body.len()
            && forall|i: int|
            0 <= i < n.body.len() ==> module_item_is_visited(
                #[trigger] visitor.visited_module(n).body[i],
                n.body[i],
                visitor.policy,
                visitor.import_ident(),
            ),
        module_tracks(n, visitor.policy) ==> {
            &&& 0 <= k <= n.body.len()
            &&& forall|i: int| 0 <= i < k ==> is_module_directive(#[trigger] n.body[i])
            &&& k < n.body.len() ==> !is_module_directive(n.body[k])
            &&& visitor.visited_module(n).body.len() == n.body.len() + 1
            &&& visitor.visited_module(n).body[k] == ModuleItemView::ModuleDecl(
                ImportDeclView {
                    local: visitor.import_ident(),
                    src: visitor.use_signals_import_source,
                    imported: Some(
                        made_ident("useComponentTracking"@, visitor.import_ident().ctxt),
                    ),
                },
            )
            &&& forall|i: int|
                0 <= i < n.body.len() ==> module_item_is_visited(
                    visitor.visited_module(n).body[moved(i, k)],
                    #[trigger] n.body[i],
                    visitor.policy,
                    visitor.import_ident(),
                )
        },
{
    let policy = visitor.policy;
    let ident = visitor.import_ident();
    let items = visitor.visited_module_items(n);
    assert forall|i: int| 0 <= i < n.body.len() implies policy.tracks_module_item(
        #[trigger] n.body[i],
    ) == (n.body[i] matches ModuleItemView::Stmt(stmt) && stmt_tracks(stmt, policy)) by {}
    assert forall|i: int| 0 <= i < n.body.len() implies module_item_is_visited(
        items[i],
        #[trigger] n.body[i],
        policy,
        ident,
    ) by {}
    let flags = items.map_values(|item: ModuleItemView| module_item_is_directive(item));
    let k = leading_directives(flags);
    leading_directives_stop(flags);
    assert forall|i: int| 0 <= i < n.body.len() implies flags[i] == is_module_directive(
        #[trigger] n.body[i],
    ) by {}
    k
}

/// Every statement of a script is visited. If anything is tracked,
/// `useComponentTracking` is required under the name that is used for it, after the
/// directives at the beginning, and else nothing goes in.
pub proof fn scripts_are_visited_item_by_item(visitor: VisitorView, n: ScriptView) -> (k: int)
    requires
        visitor.depth == 0,
    ensures
        visitor.tracks_script(n) <==> script_tracks(n, visitor.policy),
        !script_tracks(n, visitor.policy) ==> visitor.visited_script(n).body.len() == n.body.len()
            && forall|i: int|
            0 <= i < n.body.len() ==> script_item_is_visited(
                #[trigger] visitor.visited_script(n).body[i],
                n.body[i],
                visitor.policy,
                visitor.import_ident(),
            ),
        script_tracks(n, visitor.policy) ==> {
            &&& 0 <= k <= n.body.len()
            &&& forall|i: int| 0 <= i < k ==> is_script_directive(#[trigger] n.body[i])
            &&& k < n.body.len() ==> !is_script_directive(n.body[k])
            &&& visitor.visited_script(n).body.len() == n.body.len() + 1
            &&& visitor.visited_script(n).body[k] == ScriptItemView::Require(
                RequireDeclView {
                    local: visitor.import_ident(),
                    src: visitor.use_signals_import_source,
                    imported: Some(
                        made_ident("useComponentTracking"@, visitor.import_ident().ctxt),
                    ),
                    ctxt: visitor.import_ident().ctxt,
                },
            )
            &&& forall|i: int|
                0 <= i < n.body.len() ==> script_item_is_visited(
                    visitor.visited_script(n).body[moved(i, k)],
                    #[trigger] n.body[i],
                    visitor.policy,
                    visitor.import_ident(),
                )
        },
{
    let policy = visitor.policy;
    let ident = visitor.import_ident();
    let items = visitor.visited_script_items(n);
    assert forall|i: int| 0 <= i < n.body.len() implies policy.tracks_script_item(
        #[trigger] n.body[i],
    ) == (n.body[i] matches ScriptItemView::Stmt(stmt) && stmt_tracks(stmt, policy)) by {}
    assert forall|i: int| 0 <= i < n.body.len() implies script_item_is_visited(
        items[i],
        #[trigger] n.body[i],
        policy,
        ident,
    ) by {}
    let flags = items.map_values(|item: ScriptItemView| script_item_is_directive(item));
    let k = leading_directives(flags);
    leading_directives_stop(flags);
    assert forall|i: int| 0 <= i < n.body.len() implies flags[i] == is_script_directive(
        #[trigger] n.body[i],
    ) by {}
    k
}

/// The visitor that a program is transformed by.
pub open spec fn visitor_of(
    options: PreactSignalsPluginOptionsView,
    comments: Map<u32, Seq<CommentView>>,
    file: Option<Trackable>,
    private_ctxt: u32,
) -> VisitorView {
    VisitorView {
        policy: policy_of(options, comments, file),
        import_use_signals: None,
        use_signals_import_source: StrView {
            span: Span { lo: 0, hi: 0 },
            value: options.import_source,
            raw: None,
        },
        depth: 0,
        private_ctxt,
    }
}

/// A module becomes a module and a script a script, visited by a visitor with the
/// options, the comments and the verdict of the file that were given.
pub proof fn programs_are_visited_as_given(
    program: ProgramView,
    options: PreactSignalsPluginOptionsView,
    comments: Map<u32, Seq<CommentView>>,
    file: Option<Trackable>,
    private_ctxt: u32,
)
    ensures
        transformed(program, options, comments, file, private_ctxt) == match program {
            ProgramView::Module(n) => ProgramView::Module(
                visitor_of(options, comments, file, private_ctxt).visited_module(n),
            ),
            ProgramView::Script(n) => ProgramView::Script(
                visitor_of(options, comments, file, private_ctxt).visited_script(n),
            ),
        },
{
}

/// The node `n`, the `j`th of the `i`th statement, stands outside every other node of
/// the program.
pub open spec fn stands_outermost(program: ProgramView, i: int, j: int, n: NodeView) -> bool {
    match program {
        ProgramView::Module(m) => 0 <= i < m.body.len() && m.body[i] is Stmt && 0 <= j
            < m.body[i]->Stmt_0.nodes.len() && m.body[i]->Stmt_0.nodes[j] == n,
        ProgramView::Script(s) => 0 <= i < s.body.len() && s.body[i] is Stmt && 0 <= j
            < s.body[i]->Stmt_0.nodes.len() && s.body[i]->Stmt_0.nodes[j] == n,
    }
}

/// The program brings `useComponentTracking` in from `source` under the name
/// `_useComponentTracking`, at the place `k`.
pub open spec fn brings_tracking(
    program: ProgramView,
    k: int,
    source: Seq<char>,
    ctxt: u32,
) -> bool {
    let local = made_ident("_useComponentTracking"@, ctxt);
    let src = StrView { span: Span { lo: 0, hi: 0 }, value: source, raw: None };
    let imported = Some(made_ident("useComponentTracking"@, ctxt));
    match program {
        ProgramView::Module(m) => 0 <= k < m.body.len() && m.body[k]
            == ModuleItemView::ModuleDecl(ImportDeclView { local, src, imported }),
        ProgramView::Script(s) => 0 <= k < s.body.len() && s.body[k] == ScriptItemView::Require(
            RequireDeclView { local, src, imported, ctxt },
        ),
    }
}

/// A node outside every other is, in the program that comes out, what the policy makes
/// of it; it is found at its place, or behind what brings tracking in. If it is
/// tracked, tracking is brought in.
pub proof fn outermost_nodes_are_found_again(
    program: ProgramView,
    options: PreactSignalsPluginOptionsView,
    comments: Map<u32, Seq<CommentView>>,
    file: Option<Trackable>,
    ctxt: u32,
    i: int,
    j: int,
    n: NodeView,
) -> (k: int)
    requires
        stands_outermost(program, i, j, n),
    ensures
        ({
            let policy = policy_of(options, comments, file);
            let r = transformed(program, options, comments, file, ctxt);
            let new = policy.visited_node(made_ident("_useComponentTracking"@, ctxt), n);
            &&& stands_outermost(r, i, j, new) || stands_outermost(r, i + 1, j, new)
            &&& policy.tracks_node(n) ==> brings_tracking(r, k, options.import_source, ctxt)
                && stands_outermost(r, moved(i, k), j, new)
        }),
{
    programs_are_visited_as_given(program, options, comments, file, ctxt);
    let visitor = visitor_of(options, comments, file, ctxt);
    let policy = visitor.policy;
    names_for_tracking_are_kept(visitor, ctxt);
    match program {
        ProgramView::Module(m) => {
            let k = modules_are_visited_item_by_item(visitor, m);
            assert(m.body[i] is Stmt);
            if policy.tracks_node(n) {
                assert(stmt_tracks(m.body[i]->Stmt_0, policy));
                assert(module_tracks(m, policy));
            }
            let new = visitor.visited_module(m);
            if module_tracks(m, policy) {
                assert(module_item_is_visited(
                    new.body[moved(i, k)],
                    m.body[i],
                    policy,
                    visitor.import_ident(),
                ));
            } else {
                assert(module_item_is_visited(
                    new.body[i],
                    m.body[i],
                    policy,
                    visitor.import_ident(),
                ));
            }
            k
        },
        ProgramView::Script(s) => {
            let k = scripts_are_visited_item_by_item(visitor, s);
            assert(s.body[i] is Stmt);
            if policy.tracks_node(n) {
                assert(stmt_tracks(s.body[i]->Stmt_0, policy));
                assert(script_tracks(s, policy));
            }
            let new = visitor.visited_script(s);
            if script_tracks(s, policy) {
                assert(script_item_is_visited(
                    new.body[moved(i, k)],
                    s.body[i],
                    policy,
                    visitor.import_ident(),
                ));
            } else {
                assert(script_item_is_visited(
                    new.body[i],
                    s.body[i],
                    policy,
                    visitor.import_ident(),
                ));
            }
            k
        },
    }
}

/// A function outside every node and every object literal that no comment decides on
/// is tracked, in the modes `All` and `Auto`, if its name begins with a capital letter
/// and JSX stands in it: the program that comes out holds it with its body guarded, and
/// brings tracking in.
pub proof fn components_of_programs_are_tracked(
    program: ProgramView,
    options: PreactSignalsPluginOptionsView,
    comments: Map<u32, Seq<CommentView>>,
    file: Option<Trackable>,
    ctxt: u32,
    i: int,
    j: int,
    n: NodeView,
    part: Part,
    name: Seq<char>,
) -> (r: (int, NodeView))
    requires
        stands_outermost(program, i, j, n),
        function_of(n) == Some(part),
        name_of(n) == Some(name),
        !stands_in_object_literal(n),
        options.mode != TransformMode::Manual,
        forall|pos: u32| counts_for(n, pos) ==> !#[trigger] forbids_at(comments, pos),
        forall|pos: u32| counts_for(n, pos) ==> !#[trigger] asks_at(comments, pos),
        name.len() > 0,
        'A' <= name[0] <= 'Z',
        holds_jsx(part),
    ensures
        ({
            let (k, new) = r;
            let out = transformed(program, options, comments, file, ctxt);
            &&& brings_tracking(out, k, options.import_source, ctxt)
            &&& stands_outermost(out, moved(i, k), j, new)
            &&& node_tracks(
                new,
                n,
                made_ident("_useComponentTracking"@, ctxt),
                if options.add_hook_usage_flag {
                    Some(Trackable::Component)
                } else {
                    None
                },
            )
        }),
{
    let policy = policy_of(options, comments, file);
    let ident = made_ident("_useComponentTracking"@, ctxt);
    assert(!is_ignored(policy, n));
    components_are_tracked_by_their_letters(policy, ident, n, part, name);
    let k = outermost_nodes_are_found_again(
        program,
        options,
        comments,
        file,
        ctxt,
        i,
        j,
        n,
    );
    (k, policy.visited_node(ident, n))
}

/// The words that the transform writes are spelled as the runtime expects them.
pub proof fn written_words_are_spelled_so(ctxt: u32, text: Seq<char>)
    ensures
        use_signals_ident(ctxt) == made_ident("useComponentTracking"@, ctxt),
        private_use_signals_ident(ctxt) == made_ident("_useComponentTracking"@, ctxt),
        stop_ident(ctxt) == made_ident("stop"@, ctxt),
        str_lit(text).span == (Span { lo: 0, hi: 0 }),
        str_lit(text).value == text,
        str_lit(text).raw is None,
{
}

/// Directives are the statements that are string literals alone, in modules and in
/// scripts.
pub proof fn directives_are_literals(
    module_items: Seq<ModuleItem>,
    script_items: Seq<ScriptItem>,
    i: int,
)
    ensures
        0 <= i < module_items.len() ==> directive_flags(module_items)[i] == is_module_directive(
            module_items[i]@,
        ),
        0 <= i < script_items.len() ==> directive_flags(script_items)[i] == is_script_directive(
            script_items[i]@,
        ),
        directive_flags(module_items).len() == module_items.len(),
        directive_flags(script_items).len() == script_items.len(),
{
}

} // verus!

//! The visitor that tracks the components of a program.
use vstd::prelude::*;

use crate::ast::{
    decls_view, module_items_view, nodes_view, option_ident, script_items_view, stmts_view,
    ArrowBody, ArrowExpr, AssignExpr, Decl, DefaultDecl, ExportDecl, ExportDefaultDecl,
    ExportDefaultExpr, Expr, FnDecl, Function, Ident, IdentView, ImportDeclView, KeyValueProp,
    MethodProp, Module, ModuleItem, ModuleItemView, ModuleView, Node, NodeView, Program,
    ProgramView, RequireDeclView, Script, ScriptItem, ScriptItemView, ScriptView, Span, Stmt, Str,
    StrView, VarDecl, VarDeclarator,
};
use crate::comments::{
    should_track_by_comment, spans_directive, CommentView, Comments, ShouldTrack,
};
use crate::detect::Detectable;
use crate::expr::{extract_fn_from_expr, key_span, with_unparenthesized_same};
use crate::imports::{
    add_import, add_require, directive_flags, leading_directives, leading_directives_stop,
    module_item_is_directive, prepend_stmt, private_use_signals_ident, script_item_is_directive,
    str_lit, use_signals_ident, with_import, with_require,
};
use crate::names::{MaybeComponentName, Trackable};
use crate::options::{
    default_options, PreactSignalsPluginOptions, PreactSignalsPluginOptionsView, TransformMode,
};
use crate::policy::{wrapped_var_decl, Policy};
use crate::wrap::SignalWrappable;

verus! {

/// Visits programs and tracks their components. Each program brings a context of
/// its own, in which the identifiers that are written into it are made; so no two
/// programs share an identifier, though one visitor visits them.
#[derive(Debug)]
pub struct SignalsTransformVisitor {
    pub comments: Comments,
    pub mode: TransformMode,
    /// The name that tracking has in the program, once something is tracked
    pub import_use_signals: Option<Ident>,
    pub use_signals_import_source: Str,
    /// The declaration that an export being visited has dealt with
    pub ignore_span: Option<Span>,
    /// What the name of the file says of a default export without a name
    pub file_trackable_name: Option<Trackable>,
    /// Whether a tracked function is told what it is taken for
    pub add_context_to_hooks: bool,
    /// How many nodes the visit stands in
    pub depth: u32,
    /// The context of the identifiers that are made for the program being visited
    pub private_ctxt: u32,
}

pub struct VisitorView {
    pub policy: Policy,
    pub import_use_signals: Option<IdentView>,
    pub use_signals_import_source: StrView,
    pub depth: u32,
    pub private_ctxt: u32,
}

impl VisitorView {
    /// The name that tracking has, or will have once something is tracked.
    pub open spec fn import_ident(self) -> IdentView {
        match self.import_use_signals {
            Some(ident) => ident,
            None => private_use_signals_ident(self.private_ctxt),
        }
    }

    /// The visitor after a step that tracked something, or nothing.
    pub open spec fn noting(self, any: bool) -> VisitorView {
        VisitorView {
            import_use_signals: if any {
                Some(self.import_ident())
            } else {
                self.import_use_signals
            },
            ..self
        }
    }

    /// A node after the visit. In another node nothing is changed.
    pub open spec fn visited_node(self, n: NodeView) -> NodeView {
        if self.depth == 0 {
            self.policy.visited_node(self.import_ident(), n)
        } else {
            n
        }
    }

    pub open spec fn tracks_node(self, n: NodeView) -> bool {
        self.depth == 0 && self.policy.tracks_node(n)
    }

    pub open spec fn visited_nodes(self, nodes: Seq<NodeView>) -> Seq<NodeView> {
        if self.depth == 0 {
            self.policy.visited_nodes(self.import_ident(), nodes)
        } else {
            nodes
        }
    }

    pub open spec fn tracks_nodes(self, nodes: Seq<NodeView>) -> bool {
        self.depth == 0 && self.policy.tracks_nodes(nodes)
    }

    /// The visitor at the beginning of a program, for which identifiers are made in
    /// the context `private_ctxt`.
    pub open spec fn fresh(self, private_ctxt: u32) -> VisitorView {
        VisitorView { import_use_signals: None, private_ctxt, ..self }
    }

    pub open spec fn tracks_module(self, n: ModuleView) -> bool {
        self.depth == 0 && self.policy.tracks_module(n.body)
    }

    /// The items of a module after their visit.
    pub open spec fn visited_module_items(self, n: ModuleView) -> Seq<ModuleItemView> {
        if self.depth == 0 {
            self.policy.visited_module_items(self.import_ident(), n.body)
        } else {
            n.body
        }
    }

    /// A module after the visit: tracking is imported if anything is tracked.
    pub open spec fn visited_module(self, n: ModuleView) -> ModuleView {
        let items = self.visited_module_items(n);
        ModuleView {
            body: if self.tracks_module(n) {
                with_import(
                    items,
                    ImportDeclView {
                        local: self.import_ident(),
                        src: self.use_signals_import_source,
                        imported: Some(use_signals_ident(self.import_ident().ctxt)),
                    },
                )
            } else {
                items
            },
        }
    }

    pub open spec fn tracks_script(self, n: ScriptView) -> bool {
        self.depth == 0 && self.policy.tracks_script(n.body)
    }

    /// The statements of a script after their visit.
    pub open spec fn visited_script_items(self, n: ScriptView) -> Seq<ScriptItemView> {
        if self.depth == 0 {
            self.policy.visited_script_items(self.import_ident(), n.body)
        } else {
            n.body
        }
    }

    /// A script after the visit: tracking is required if anything is tracked.
    pub open spec fn visited_script(self, n: ScriptView) -> ScriptView {
        let items = self.visited_script_items(n);
        ScriptView {
            body: if self.tracks_script(n) {
                with_require(
                    items,
                    RequireDeclView {
                        local: self.import_ident(),
                        src: self.use_signals_import_source,
                        imported: Some(use_signals_ident(self.import_ident().ctxt)),
                        ctxt: self.import_ident().ctxt,
                    },
                )
            } else {
                items
            },
        }
    }

    /// A program after the visit.
    pub open spec fn visited_program(self, n: ProgramView, private_ctxt: u32) -> ProgramView {
        match n {
            ProgramView::Module(module) => ProgramView::Module(
                self.fresh(private_ctxt).visited_module(module),
            ),
            ProgramView::Script(script) => ProgramView::Script(
                self.fresh(private_ctxt).visited_script(script),
            ),
        }
    }
}

/// The visitor that options make.
pub open spec fn visitor_from(
    options: PreactSignalsPluginOptionsView,
    comments: Map<u32, Seq<CommentView>>,
    file_trackable_name: Option<Trackable>,
    private_ctxt: u32,
) -> VisitorView {
    VisitorView {
        policy: Policy {
            comments,
            mode: options.mode,
            ignore_span: None,
            file_trackable_name,
            add_context_to_hooks: options.add_hook_usage_flag,
        },
        import_use_signals: None,
        use_signals_import_source: str_lit(options.import_source),
        depth: 0,
        private_ctxt,
    }
}

/// What the name of a function says; `None` where it has no name.
pub open spec fn option_name<I: MaybeComponentName>(ident: Option<&I>) -> Option<Option<Trackable>> {
    match ident {
        Some(ident) => Some(ident.spec_is_trackable()),
        None => None,
    }
}

impl SignalsTransformVisitor {
    pub open spec fn view(&self) -> VisitorView {
        VisitorView {
            policy: Policy {
                comments: self.comments@,
                mode: self.mode,
                ignore_span: self.ignore_span,
                file_trackable_name: self.file_trackable_name,
                add_context_to_hooks: self.add_context_to_hooks,
            },
            import_use_signals: option_ident(self.import_use_signals),
            use_signals_import_source: self.use_signals_import_source@,
            depth: self.depth,
            private_ctxt: self.private_ctxt,
        }
    }

    /// A visitor with the given options. `file_trackable_name` is what the name of
    /// the file says. Until it visits a program, it makes identifiers in the context
    /// `private_ctxt`.
    pub fn from_options(
        options: PreactSignalsPluginOptions,
        comments: Comments,
        file_trackable_name: Option<Trackable>,
        private_ctxt: u32,
    ) -> (r: SignalsTransformVisitor)
        ensures
            r@ == visitor_from(options@, comments@, file_trackable_name, private_ctxt),
    {
        SignalsTransformVisitor {
            comments,
            mode: options.mode,
            import_use_signals: None,
            use_signals_import_source: Str::from_str(options.import_source.as_str()),
            ignore_span: None,
            file_trackable_name,
            add_context_to_hooks: options.experimental.add_hook_usage_flag,
            depth: 0,
            private_ctxt,
        }
    }

    /// A visitor with the options that hold where none are given.
    pub fn from_default(
        comments: Comments,
        file_trackable_name: Option<Trackable>,
        private_ctxt: u32,
    ) -> (r: SignalsTransformVisitor)
        ensures
            r@ == visitor_from(default_options(), comments@, file_trackable_name, private_ctxt),
    {
        SignalsTransformVisitor::from_options(
            PreactSignalsPluginOptions::default(),
            comments,
            file_trackable_name,
            private_ctxt,
        )
    }

    /// Whether the visit stands in one node, and that in no other.
    pub fn is_top_level_component(&self) -> (r: bool)
        ensures
            r == (self@.depth == 1),
    {
        self.depth == 1
    }

    /// The name that tracking has in the program, which is made at the first call.
    pub fn get_import_use_signals(&mut self) -> (r: Ident)
        ensures
            r@ == old(self)@.import_ident(),
            final(self)@ == old(self)@.noting(true),
    {
        let private_ctxt: u32 = self.private_ctxt;
        self.import_use_signals.get_or_insert(Ident::private_use_signals(private_ctxt)).clone()
    }

    /// What a function is taken for by its name; a default export without a name
    /// goes by the name of the file.
    pub fn is_trackable<I: MaybeComponentName>(
        &self,
        ident: Option<&I>,
        is_default_export: bool,
    ) -> (r: Option<Trackable>)
        ensures
            r == self@.policy.named(option_name(ident), is_default_export),
    {
        if is_default_export && ident.is_none() {
            self.file_trackable_name
        } else {
            match ident {
                Some(it) => it.is_trackable(),
                None => None,
            }
        }
    }

    /// What the comments before any of the spans say.
    pub fn should_track_by_comments(&self, comment_spans: &[Span]) -> (r: ShouldTrack)
        ensures
            r == spans_directive(self@.policy.comments, comment_spans@),
    {
        let mut should_track = ShouldTrack::Auto;
        let mut i: usize = 0;
        while i < comment_spans.len()
            invariant
                i <= comment_spans.len(),
                should_track == spans_directive(self@.policy.comments, comment_spans@.take(i as int)),
            decreases comment_spans.len() - i,
        {
            let ghost before = comment_spans@.take(i as int);
            let ghost after = comment_spans@.take(i + 1);
            assert(forall|j: int| 0 <= j < i ==> #[trigger] before[j] == after[j]);
            assert(after[i as int] == comment_spans@[i as int]);
            should_track = match (should_track, should_track_by_comment(
                &self.comments,
                &comment_spans[i],
            )) {
                (acc, ShouldTrack::Auto) => acc,
                (ShouldTrack::OptIn, ShouldTrack::OptOut) => ShouldTrack::OptOut,
                (ShouldTrack::OptOut, ShouldTrack::OptIn) => ShouldTrack::OptOut,
                (_, it) => it,
            };
            i += 1;
        }
        assert(comment_spans@.take(i as int) =~= comment_spans@);
        should_track
    }

    /// Whether a function is tracked, and what it is taken for.
    pub fn should_track_option_ident<I: MaybeComponentName, Comp: Detectable>(
        &self,
        comment_spans: &[Span],
        ident: Option<&I>,
        component: &Comp,
        is_default_export: bool,
    ) -> (r: Option<Trackable>)
        ensures
            r == self@.policy.verdict(
                comment_spans@,
                option_name(ident),
                component.spec_has_jsx(),
                is_default_export,
            ),
    {
        match self.should_track_by_comments(comment_spans) {
            ShouldTrack::Auto => match self.mode {
                TransformMode::Manual => None,
                TransformMode::Auto | TransformMode::All => match self.is_trackable(
                    ident,
                    is_default_export,
                ) {
                    Some(Trackable::Component) => if component.has_jsx() {
                        Some(Trackable::Component)
                    } else {
                        None
                    },
                    _ => None,
                },
            },
            ShouldTrack::OptIn => Some(
                self.is_trackable(ident, is_default_export).unwrap_or(Trackable::Unknown),
            ),
            ShouldTrack::OptOut => None,
        }
    }

    /// Tracks a function of the node that the visit stands in, unless that node
    /// stands in another.
    pub fn track<TWrappable: SignalWrappable>(
        &mut self,
        trackable: Trackable,
        wrappable: &mut TWrappable,
    )
        ensures
            old(self)@.depth == 1 ==> {
                &&& final(wrappable).model() == TWrappable::spec_wrapped(
                    old(wrappable).model(),
                    old(self)@.import_ident(),
                    old(self)@.policy.context(trackable),
                )
                &&& final(self)@ == old(self)@.noting(true)
            },
            old(self)@.depth != 1 ==> *final(wrappable) == *old(wrappable) && *final(self) == *old(
                self,
            ),
    {
        if self.is_top_level_component() {
            let ident = self.get_import_use_signals();
            wrappable.wrap_with_use_signals(
                ident,
                match self.add_context_to_hooks {
                    false => None,
                    true => Some(trackable),
                },
            );
        }
    }

    /// Tracks the function that the first binding of a declaration holds.
    pub fn process_var_decl(&mut self, n: &mut VarDecl, additional_spans: Option<&[Span]>)
        ensures
            ({
                let spans = match additional_spans {
                    Some(extra_spans) => extra_spans@,
                    None => seq![],
                };
                match old(self)@.policy.var_decl_verdict(old(n)@, spans) {
                    Some(trackable) if old(self)@.depth == 1 => {
                        &&& final(n)@ == wrapped_var_decl(
                            old(n)@,
                            old(self)@.import_ident(),
                            old(self)@.policy.context(trackable),
                        )
                        &&& final(self)@ == old(self)@.noting(true)
                    },
                    _ => final(n)@ == old(n)@ && final(self)@ == old(self)@,
                }
            }),
    {
        proof {
            reveal_with_fuel(VarDecl::view, 3);
        }
        if n.decls.len() == 0 {
            return;
        }
        let ghost extra: Seq<Span> = match additional_spans {
            Some(extra_spans) => extra_spans@,
            None => seq![],
        };
        let span = n.span;
        assert(old(n)@.decls[0] == old(n).decls@[0]@);
        let first = &mut n.decls[0];
        let trackable = match &first.init {
            None => None,
            Some(init) => {
                let child = init.unwrap_parens();
                let child_span = child.get_span();
                match extract_fn_from_expr(child) {
                    None => None,
                    Some(component) => {
                        let mut spans: Vec<Span> = vec![child_span, span];
                        if let Some(extra_spans) = additional_spans {
                            spans.extend_from_slice(extra_spans);
                        }
                        assert(spans@ =~= seq![child_span, span] + extra);
                        match component.get_fn_ident() {
                            None => self.should_track_option_ident(
                                spans.as_slice(),
                                Some(&first.name),
                                &component,
                                false,
                            ),
                            Some(ident) => self.should_track_option_ident(
                                spans.as_slice(),
                                Some(ident),
                                &component,
                                false,
                            ),
                        }
                    },
                }
            },
        };
        assert(trackable == self@.policy.var_decl_verdict(old(n)@, extra));
        if let Some(trackable) = trackable {
            if let Some(init) = &mut first.init {
                proof {
                    with_unparenthesized_same(init@);
                }
                self.track(trackable, init.unwrap_parens_mut());
            }
        }
        assert(decls_view(n.decls@) =~= old(n)@.decls.update(0, n.decls@[0]@));
        assert(old(n)@.decls.update(0, old(n)@.decls[0]) =~= old(n)@.decls);
    }
}

/// The visits. Outside every node, a visit tracks the function that the node
/// introduces; inside another node it changes nothing. Either way the visitor
/// ends at the depth at which it began.
impl SignalsTransformVisitor {
    /// Visits nodes in order.
    pub fn visit_mut_nodes(&mut self, nodes: &mut Vec<Node>)
        requires
            old(self)@.depth < u32::MAX,
        ensures
            nodes_view(final(nodes)@) == old(self)@.visited_nodes(nodes_view(old(nodes)@)),
            final(self)@ == old(self)@.noting(old(self)@.tracks_nodes(nodes_view(old(nodes)@))),
        decreases (if old(self).depth == 0 { 1int } else { 0int }), *old(nodes),
    {
        let ghost start = self@;
        let ghost before = nodes@;
        let ghost view = nodes_view(before);
        let mut i: usize = 0;
        while i < nodes.len()
            invariant
                i <= nodes.len(),
                nodes@.len() == before.len(),
                before == old(nodes)@,
                view == nodes_view(before),
                start == old(self)@,
                start.depth < u32::MAX,
                forall|j: int| i <= j < nodes@.len() ==> #[trigger] nodes@[j] == before[j],
                forall|j: int| 0 <= j < i ==> (#[trigger] nodes@[j])@ == start.visited_node(view[j]),
                self@ == start.noting(
                    exists|j: int| 0 <= j < i && start.tracks_node(#[trigger] view[j]),
                ),
            decreases nodes.len() - i,
        {
            assert(view[i as int] == nodes@[i as int]@);
            assert(nodes@[i as int] == before[i as int]);
            self.visit_mut_node(&mut nodes[i]);
            i += 1;
        }
        assert(nodes_view(nodes@) =~= start.visited_nodes(view));
        assert(start.tracks_nodes(view) == exists|j: int|
            0 <= j < i && start.tracks_node(#[trigger] view[j]));
    }

    /// Visits a node of any kind.
    pub fn visit_mut_node(&mut self, n: &mut Node)
        requires
            old(self)@.depth < u32::MAX,
        ensures
            final(n)@ == old(self)@.visited_node(old(n)@),
            final(self)@ == old(self)@.noting(old(self)@.tracks_node(old(n)@)),
        decreases (if old(self).depth == 0 { 1int } else { 0int }), *old(n),
    {
        match n {
            Node::VarDecl(n) => self.visit_mut_var_decl(n),
            Node::FnDecl(n) => self.visit_mut_fn_decl(n),
            Node::AssignExpr(n) => self.visit_mut_assign_expr(n),
            Node::KeyValueProp(n) => self.visit_mut_key_value_prop(n),
            Node::MethodProp(n) => self.visit_mut_method_prop(n),
            Node::ExportDecl(n) => self.visit_mut_export_decl(n),
            Node::ExportDefaultDecl(n) => self.visit_mut_export_default_decl(n),
            Node::ExportDefaultExpr(n) => self.visit_mut_export_default_expr(n),
            Node::Jsx(nodes) => self.visit_mut_nodes(nodes),
        }
    }

    /// Tracks the function that the first binding holds.
    pub fn visit_mut_var_decl(&mut self, n: &mut VarDecl)
        requires
            old(self)@.depth < u32::MAX,
        ensures
            NodeView::VarDecl(final(n)@) == old(self)@.visited_node(NodeView::VarDecl(old(n)@)),
            final(self)@ == old(self)@.noting(
                old(self)@.tracks_node(NodeView::VarDecl(old(n)@)),
            ),
        decreases (if old(self).depth == 0 { 1int } else { 0int }), *old(n),
    {
        self.depth += 1;
        if self.is_top_level_component() {
            let should_process = match self.ignore_span {
                Some(span) => span != n.span,
                None => true,
            };
            if should_process {
                self.process_var_decl(n, None);
            }
            self.visit_mut_var_decl_children(n);
        }
        self.depth -= 1;
    }

    /// Tracks the function that an export declares, or that its first binding holds.
    /// The comments before the export count too.
    pub fn visit_mut_export_decl(&mut self, n: &mut ExportDecl)
        requires
            old(self)@.depth < u32::MAX,
        ensures
            NodeView::ExportDecl(final(n)@) == old(self)@.visited_node(NodeView::ExportDecl(old(n)@)),
            final(self)@ == old(self)@.noting(
                old(self)@.tracks_node(NodeView::ExportDecl(old(n)@)),
            ),
        decreases (if old(self).depth == 0 { 1int } else { 0int }), *old(n),
    {
        self.depth += 1;
        if self.is_top_level_component() {
            let span = n.span;
            match &mut n.decl {
                Decl::Var(var_decl) => {
                    let spans = [span];
                    assert(spans@ =~= seq![span]);
                    self.process_var_decl(var_decl, Some(spans.as_slice()));
                    let old_span = self.ignore_span;
                    self.ignore_span = Some(var_decl.span);
                    self.visit_mut_decl(&mut n.decl);
                    self.ignore_span = old_span;
                },
                Decl::Fn(fn_decl) => {
                    let spans = [span, fn_decl.function.span];
                    assert(spans@ =~= seq![span, fn_decl.function.span]);
                    let trackable = self.should_track_option_ident(
                        spans.as_slice(),
                        Some(&fn_decl.ident),
                        &*fn_decl,
                        false,
                    );
                    if let Some(trackable) = trackable {
                        self.track(trackable, &mut *fn_decl.function);
                    }
                    let old_span = self.ignore_span;
                    self.ignore_span = Some(fn_decl.function.span);
                    self.visit_mut_decl(&mut n.decl);
                    self.ignore_span = old_span;
                },
                Decl::Other(_) => {
                    self.visit_mut_decl(&mut n.decl);
                },
            }
        }
        self.depth -= 1;
    }

    /// Tracks the function that a default export declares; without a name it goes by
    /// the name of the file.
    pub fn visit_mut_export_default_decl(&mut self, n: &mut ExportDefaultDecl)
        requires
            old(self)@.depth < u32::MAX,
        ensures
            NodeView::ExportDefaultDecl(final(n)@) == old(self)@.visited_node(NodeView::ExportDefaultDecl(old(n)@)),
            final(self)@ == old(self)@.noting(
                old(self)@.tracks_node(NodeView::ExportDefaultDecl(old(n)@)),
            ),
        decreases (if old(self).depth == 0 { 1int } else { 0int }), *old(n),
    {
        self.depth += 1;
        if self.is_top_level_component() {
            let span = n.span;
            match &mut n.decl {
                DefaultDecl::Fn(fn_expr) => {
                    let spans = [span, fn_expr.function.span];
                    assert(spans@ =~= seq![span, fn_expr.function.span]);
                    let trackable = self.should_track_option_ident(
                        spans.as_slice(),
                        fn_expr.ident.as_ref(),
                        &*fn_expr,
                        true,
                    );
                    if let Some(trackable) = trackable {
                        self.track(trackable, &mut *fn_expr.function);
                    }
                    let old_span = self.ignore_span;
                    self.ignore_span = Some(fn_expr.function.span);
                    self.visit_mut_default_decl(&mut n.decl);
                    self.ignore_span = old_span;
                },
                DefaultDecl::Other(_) => {
                    self.visit_mut_default_decl(&mut n.decl);
                },
            }
        }
        self.depth -= 1;
    }

    /// Tracks the function that a default export is; without a name it goes by the
    /// name of the file.
    pub fn visit_mut_export_default_expr(&mut self, n: &mut ExportDefaultExpr)
        requires
            old(self)@.depth < u32::MAX,
        ensures
            NodeView::ExportDefaultExpr(final(n)@) == old(self)@.visited_node(NodeView::ExportDefaultExpr(old(n)@)),
            final(self)@ == old(self)@.noting(
                old(self)@.tracks_node(NodeView::ExportDefaultExpr(old(n)@)),
            ),
        decreases (if old(self).depth == 0 { 1int } else { 0int }), *old(n),
    {
        self.depth += 1;
        if self.is_top_level_component() {
            let child = n.expr.unwrap_parens();
            let child_span = child.get_span();
            let spans = [n.span, child_span];
            assert(spans@ =~= seq![n.span, child_span]);
            let trackable = match extract_fn_from_expr(child) {
                Some(component) => self.should_track_option_ident(
                    spans.as_slice(),
                    component.get_fn_ident(),
                    &component,
                    true,
                ),
                None => None,
            };
            if let Some(trackable) = trackable {
                self.track(trackable, n.expr.unwrap_parens_mut());
            }
            self.visit_mut_expr(&mut n.expr);
        }
        self.depth -= 1;
    }

    /// Tracks a function that is declared.
    pub fn visit_mut_fn_decl(&mut self, n: &mut FnDecl)
        requires
            old(self)@.depth < u32::MAX,
        ensures
            NodeView::FnDecl(final(n)@) == old(self)@.visited_node(NodeView::FnDecl(old(n)@)),
            final(self)@ == old(self)@.noting(
                old(self)@.tracks_node(NodeView::FnDecl(old(n)@)),
            ),
        decreases (if old(self).depth == 0 { 1int } else { 0int }), *old(n),
    {
        self.depth += 1;
        if self.is_top_level_component() {
            let should_process = match self.ignore_span {
                Some(span) => span != n.function.span,
                None => true,
            };
            if should_process {
                let spans = [n.function.span];
                assert(spans@ =~= seq![n.function.span]);
                let trackable = self.should_track_option_ident(
                    spans.as_slice(),
                    Some(&n.ident),
                    &*n,
                    false,
                );
                if let Some(trackable) = trackable {
                    self.track(trackable, &mut *n.function);
                }
            }
            self.visit_mut_function(&mut n.function);
        }
        self.depth -= 1;
    }

    /// Tracks a function that is assigned.
    pub fn visit_mut_assign_expr(&mut self, n: &mut AssignExpr)
        requires
            old(self)@.depth < u32::MAX,
        ensures
            NodeView::AssignExpr(final(n)@) == old(self)@.visited_node(NodeView::AssignExpr(old(n)@)),
            final(self)@ == old(self)@.noting(
                old(self)@.tracks_node(NodeView::AssignExpr(old(n)@)),
            ),
        decreases (if old(self).depth == 0 { 1int } else { 0int }), *old(n),
    {
        self.depth += 1;
        if self.is_top_level_component() {
            let spans = [n.span];
            assert(spans@ =~= seq![n.span]);
            let trackable = match extract_fn_from_expr(&n.right) {
                Some(component) => match component.get_fn_ident() {
                    None => self.should_track_option_ident(
                        spans.as_slice(),
                        Some(&n.left),
                        &component,
                        false,
                    ),
                    Some(ident) => self.should_track_option_ident(
                        spans.as_slice(),
                        Some(ident),
                        &component,
                        false,
                    ),
                },
                None => None,
            };
            if let Some(trackable) = trackable {
                self.track(trackable, &mut n.right);
            }
            self.visit_mut_nodes(&mut n.target);
            self.visit_mut_expr(&mut n.right);
        }
        self.depth -= 1;
    }

    /// Tracks a function that is the value of a property, where a comment asks for it.
    pub fn visit_mut_key_value_prop(&mut self, n: &mut KeyValueProp)
        requires
            old(self)@.depth < u32::MAX,
        ensures
            NodeView::KeyValueProp(final(n)@) == old(self)@.visited_node(NodeView::KeyValueProp(old(n)@)),
            final(self)@ == old(self)@.noting(
                old(self)@.tracks_node(NodeView::KeyValueProp(old(n)@)),
            ),
        decreases (if old(self).depth == 0 { 1int } else { 0int }), *old(n),
    {
        self.depth += 1;
        if self.is_top_level_component() {
            let spans = [n.key.get_span()];
            assert(spans@ =~= seq![key_span(n.key@)]);
            let trackable = if self.should_track_by_comments(spans.as_slice())
                == ShouldTrack::OptIn {
                match extract_fn_from_expr(&n.value) {
                    Some(component) => match component.get_fn_ident() {
                        None => self.should_track_option_ident(
                            spans.as_slice(),
                            Some(&n.key),
                            &component,
                            false,
                        ),
                        Some(ident) => self.should_track_option_ident(
                            spans.as_slice(),
                            Some(ident),
                            &component,
                            false,
                        ),
                    },
                    None => None,
                }
            } else {
                None
            };
            if let Some(trackable) = trackable {
                self.track(trackable, &mut n.value);
            }
            self.visit_mut_nodes(&mut n.computed);
            self.visit_mut_expr(&mut n.value);
        }
        self.depth -= 1;
    }

    /// Tracks a method of an object literal, where a comment asks for it.
    pub fn visit_mut_method_prop(&mut self, n: &mut MethodProp)
        requires
            old(self)@.depth < u32::MAX,
        ensures
            NodeView::MethodProp(final(n)@) == old(self)@.visited_node(NodeView::MethodProp(old(n)@)),
            final(self)@ == old(self)@.noting(
                old(self)@.tracks_node(NodeView::MethodProp(old(n)@)),
            ),
        decreases (if old(self).depth == 0 { 1int } else { 0int }), *old(n),
    {
        self.depth += 1;
        if self.is_top_level_component() {
            let spans = [n.function.span, n.key.get_span()];
            assert(spans@ =~= seq![n.function.span, key_span(n.key@)]);
            let trackable = if self.should_track_by_comments(spans.as_slice())
                == ShouldTrack::OptIn {
                self.should_track_option_ident(
                    spans.as_slice(),
                    Some(&n.key),
                    &*n.function,
                    false,
                )
            } else {
                None
            };
            if let Some(trackable) = trackable {
                self.track(trackable, &mut *n.function);
            }
            self.visit_mut_nodes(&mut n.computed);
            self.visit_mut_function(&mut n.function);
        }
        self.depth -= 1;
    }

    /// Visits a declaration as the node that it is, or the nodes in it.
    pub fn visit_mut_decl(&mut self, n: &mut Decl)
        requires
            old(self)@.depth < u32::MAX,
        ensures
            final(n)@ == old(self)@.visited_decl(old(n)@),
            final(self)@ == old(self)@.noting(old(self)@.tracks_decl(old(n)@)),
        decreases (if old(self).depth == 0 { 1int } else { 0int }), *old(n),
    {
        match n {
            Decl::Var(var_decl) => self.visit_mut_var_decl(var_decl),
            Decl::Fn(fn_decl) => self.visit_mut_fn_decl(fn_decl),
            Decl::Other(nodes) => self.visit_mut_nodes(nodes),
        }
    }

    /// Visits the nodes in what a default export declares.
    pub fn visit_mut_default_decl(&mut self, n: &mut DefaultDecl)
        requires
            old(self)@.depth < u32::MAX,
        ensures
            final(n)@ == old(self)@.visited_default_decl(old(n)@),
            final(self)@ == old(self)@.noting(old(self)@.tracks_default_decl(old(n)@)),
        decreases (if old(self).depth == 0 { 1int } else { 0int }), *old(n),
    {
        proof {
            reveal_with_fuel(DefaultDecl::view, 2);
        }
        match n {
            DefaultDecl::Fn(f) => self.visit_mut_function(&mut f.function),
            DefaultDecl::Other(nodes) => self.visit_mut_nodes(nodes),
        }
    }

    /// Visits the bindings of a declaration, and not the declaration itself.
    pub fn visit_mut_var_decl_children(&mut self, n: &mut VarDecl)
        requires
            old(self)@.depth < u32::MAX,
        ensures
            final(n)@ == old(self)@.visited_declarators(old(n)@),
            final(self)@ == old(self)@.noting(old(self)@.tracks_declarators(old(n)@)),
        decreases (if old(self).depth == 0 { 1int } else { 0int }), *old(n),
    {
        let ghost start = self@;
        let ghost before = n.decls@;
        let ghost view = decls_view(before);
        let mut i: usize = 0;
        while i < n.decls.len()
            invariant
                i <= n.decls.len(),
                n.span == old(n).span,
                before == old(n).decls@,
                n.decls@.len() == before.len(),
                view == decls_view(before),
                start == old(self)@,
                start.depth < u32::MAX,
                forall|j: int| i <= j < before.len() ==> #[trigger] n.decls@[j] == before[j],
                forall|j: int|
                    0 <= j < i ==> (#[trigger] n.decls@[j])@ == start.visited_declarator(view[j]),
                self@ == start.noting(
                    exists|j: int| 0 <= j < i && start.tracks_declarator(#[trigger] view[j]),
                ),
            decreases n.decls.len() - i,
        {
            assert(view[i as int] == n.decls@[i as int]@);
            assert(n.decls@[i as int] == before[i as int]);
            self.visit_mut_var_declarator(&mut n.decls[i]);
            i += 1;
        }
        assert(decls_view(n.decls@) =~= start.visited_declarators(old(n)@).decls);
        assert(start.tracks_declarators(old(n)@) == exists|j: int|
            0 <= j < i && start.tracks_declarator(#[trigger] view[j]));
    }

    /// Visits the nodes in a binding.
    pub fn visit_mut_var_declarator(&mut self, n: &mut VarDeclarator)
        requires
            old(self)@.depth < u32::MAX,
        ensures
            final(n)@ == old(self)@.visited_declarator(old(n)@),
            final(self)@ == old(self)@.noting(old(self)@.tracks_declarator(old(n)@)),
        decreases (if old(self).depth == 0 { 1int } else { 0int }), *old(n),
    {
        self.visit_mut_nodes(&mut n.pattern);
        if let Some(init) = &mut n.init {
            self.visit_mut_expr(init);
        }
    }

    /// Visits the nodes in an expression.
    pub fn visit_mut_expr(&mut self, n: &mut Expr)
        requires
            old(self)@.depth < u32::MAX,
        ensures
            final(n)@ == old(self)@.visited_expr(old(n)@),
            final(self)@ == old(self)@.noting(old(self)@.tracks_expr(old(n)@)),
        decreases (if old(self).depth == 0 { 1int } else { 0int }), *old(n),
    {
        proof {
            reveal_with_fuel(Expr::view, 2);
        }
        match n {
            Expr::Fn(f) => self.visit_mut_function(&mut f.function),
            Expr::Arrow(arrow) => self.visit_mut_arrow_expr(arrow),
            Expr::Paren(_, inner) => self.visit_mut_expr(inner),
            Expr::Other(_, nodes) => self.visit_mut_nodes(nodes),
        }
    }

    /// Visits the nodes in a function.
    pub fn visit_mut_function(&mut self, n: &mut Function)
        requires
            old(self)@.depth < u32::MAX,
        ensures
            final(n)@ == old(self)@.visited_function(old(n)@),
            final(self)@ == old(self)@.noting(old(self)@.tracks_function(old(n)@)),
        decreases (if old(self).depth == 0 { 1int } else { 0int }), *old(n),
    {
        self.visit_mut_nodes(&mut n.params);
        if let Some(stmts) = &mut n.body {
            self.visit_mut_stmts(stmts);
        }
    }

    /// Visits the nodes in an arrow function.
    pub fn visit_mut_arrow_expr(&mut self, n: &mut ArrowExpr)
        requires
            old(self)@.depth < u32::MAX,
        ensures
            final(n)@ == old(self)@.visited_arrow(old(n)@),
            final(self)@ == old(self)@.noting(old(self)@.tracks_arrow(old(n)@)),
        decreases (if old(self).depth == 0 { 1int } else { 0int }), *old(n),
    {
        self.visit_mut_nodes(&mut n.params);
        match &mut n.body {
            ArrowBody::Block(stmts) => self.visit_mut_stmts(stmts),
            ArrowBody::Expr(expr) => self.visit_mut_expr(expr),
        }
    }

    /// Visits the nodes in a statement of a function.
    pub fn visit_mut_stmt(&mut self, n: &mut Stmt)
        requires
            old(self)@.depth < u32::MAX,
        ensures
            final(n)@ == old(self)@.visited_stmt(old(n)@),
            final(self)@ == old(self)@.noting(old(self)@.tracks_stmt(old(n)@)),
        decreases (if old(self).depth == 0 { 1int } else { 0int }), *old(n),
    {
        match n {
            Stmt::Source(source) => self.visit_mut_nodes(&mut source.nodes),
            Stmt::Var(_, _) => {},
            Stmt::Expr(_) => {},
            Stmt::Return(expr) => self.visit_mut_expr(expr),
            Stmt::Try(block, finalizer) => {
                self.visit_mut_stmts(block);
                self.visit_mut_stmts(finalizer);
            },
        }
    }

    /// Visits the nodes in the statements of a function.
    pub fn visit_mut_stmts(&mut self, n: &mut Vec<Stmt>)
        requires
            old(self)@.depth < u32::MAX,
        ensures
            stmts_view(final(n)@) == old(self)@.visited_stmts(stmts_view(old(n)@)),
            final(self)@ == old(self)@.noting(old(self)@.tracks_stmts(stmts_view(old(n)@))),
        decreases (if old(self).depth == 0 { 1int } else { 0int }), *old(n),
    {
        let ghost start = self@;
        let ghost before = n@;
        let ghost view = stmts_view(before);
        let mut i: usize = 0;
        while i < n.len()
            invariant
                i <= n.len(),
                before == old(n)@,
                n@.len() == before.len(),
                view == stmts_view(before),
                start == old(self)@,
                start.depth < u32::MAX,
                forall|j: int| i <= j < before.len() ==> #[trigger] n@[j] == before[j],
                forall|j: int| 0 <= j < i ==> (#[trigger] n@[j])@ == start.visited_stmt(view[j]),
                self@ == start.noting(
                    exists|j: int| 0 <= j < i && start.tracks_stmt(#[trigger] view[j]),
                ),
            decreases n.len() - i,
        {
            assert(view[i as int] == n@[i as int]@);
            assert(n@[i as int] == before[i as int]);
            self.visit_mut_stmt(&mut n[i]);
            i += 1;
        }
        assert(stmts_view(n@) =~= start.visited_stmts(view));
        assert(start.tracks_stmts(view) == exists|j: int|
            0 <= j < i && start.tracks_stmt(#[trigger] view[j]));
    }

    /// Visits a module, and imports tracking if anything in it is tracked.
    /// Identifiers are made in `private_ctxt`, in which no other program has any.
    pub fn visit_mut_module(&mut self, n: &mut Module, private_ctxt: u32)
        requires
            old(self)@.depth < u32::MAX,
        ensures
            final(n)@ == old(self)@.fresh(private_ctxt).visited_module(old(n)@),
            final(self)@ == old(self)@.fresh(private_ctxt).noting(
                old(self)@.tracks_module(old(n)@),
            ),
    {
        self.import_use_signals = None;
        self.private_ctxt = private_ctxt;
        let ghost start = self@;
        let ghost before = n.body@;
        let ghost view = old(n)@.body;
        let mut i: usize = 0;
        while i < n.body.len()
            invariant
                i <= n.body.len(),
                n.body@.len() == before.len(),
                view == module_items_view(before),
                start.depth < u32::MAX,
                start.import_use_signals is None,
                forall|j: int| i <= j < before.len() ==> #[trigger] n.body@[j] == before[j],
                forall|j: int|
                    0 <= j < i ==> (#[trigger] n.body@[j])@ == (if start.depth == 0 {
                        start.policy.visited_module_item(start.import_ident(), view[j])
                    } else {
                        view[j]
                    }),
                self@ == start.noting(
                    start.depth == 0 && exists|j: int|
                        0 <= j < i && start.policy.tracks_module_item(#[trigger] view[j]),
                ),
            decreases n.body.len() - i,
        {
            assert(n.body@[i as int] == before[i as int]);
            assert(view[i as int] == before[i as int]@);
            match &mut n.body[i] {
                ModuleItem::Stmt(stmt) => self.visit_mut_nodes(&mut stmt.nodes),
                ModuleItem::ModuleDecl(_) => {},
            }
            i += 1;
        }
        assert(n@.body =~= start.visited_module_items(old(n)@));
        if let Some(ident) = &self.import_use_signals {
            let item = ModuleItem::ModuleDecl(
                add_import(
                    ident.clone(),
                    self.use_signals_import_source.clone(),
                    Some(Ident::use_signals(ident.ctxt)),
                ),
            );
            let ghost items = n.body@;
            prepend_stmt(&mut n.body, item);
            proof {
                let flags = directive_flags(items);
                assert(flags =~= module_items_view(items).map_values(
                    |item: ModuleItemView| module_item_is_directive(item),
                ));
                leading_directives_stop(flags);
                assert(module_items_view(n.body@) =~= module_items_view(items).insert(
                    leading_directives(flags),
                    item@,
                ));
            }
        }
    }

    /// Visits a script, and requires tracking if anything in it is tracked.
    /// Identifiers are made in `private_ctxt`, in which no other program has any.
    pub fn visit_mut_script(&mut self, n: &mut Script, private_ctxt: u32)
        requires
            old(self)@.depth < u32::MAX,
        ensures
            final(n)@ == old(self)@.fresh(private_ctxt).visited_script(old(n)@),
            final(self)@ == old(self)@.fresh(private_ctxt).noting(
                old(self)@.tracks_script(old(n)@),
            ),
    {
        self.import_use_signals = None;
        self.private_ctxt = private_ctxt;
        let ghost start = self@;
        let ghost before = n.body@;
        let ghost view = old(n)@.body;
        let mut i: usize = 0;
        while i < n.body.len()
            invariant
                i <= n.body.len(),
                n.body@.len() == before.len(),
                view == script_items_view(before),
                start.depth < u32::MAX,
                start.import_use_signals is None,
                forall|j: int| i <= j < before.len() ==> #[trigger] n.body@[j] == before[j],
                forall|j: int|
                    0 <= j < i ==> (#[trigger] n.body@[j])@ == (if start.depth == 0 {
                        start.policy.visited_script_item(start.import_ident(), view[j])
                    } else {
                        view[j]
                    }),
                self@ == start.noting(
                    start.depth == 0 && exists|j: int|
                        0 <= j < i && start.policy.tracks_script_item(#[trigger] view[j]),
                ),
            decreases n.body.len() - i,
        {
            assert(n.body@[i as int] == before[i as int]);
            assert(view[i as int] == before[i as int]@);
            match &mut n.body[i] {
                ScriptItem::Stmt(stmt) => self.visit_mut_nodes(&mut stmt.nodes),
                ScriptItem::Require(_) => {},
            }
            i += 1;
        }
        assert(n@.body =~= start.visited_script_items(old(n)@));
        if let Some(ident) = &self.import_use_signals {
            let item = ScriptItem::Require(
                add_require(
                    ident.clone(),
                    self.use_signals_import_source.clone(),
                    Some(Ident::use_signals(ident.ctxt)),
                    ident.ctxt,
                ),
            );
            let ghost items = n.body@;
            prepend_stmt(&mut n.body, item);
            proof {
                let flags = directive_flags(items);
                assert(flags =~= script_items_view(items).map_values(
                    |item: ScriptItemView| script_item_is_directive(item),
                ));
                leading_directives_stop(flags);
                assert(script_items_view(n.body@) =~= script_items_view(items).insert(
                    leading_directives(flags),
                    item@,
                ));
            }
        }
    }

    /// Visits a program. Identifiers are made in `private_ctxt`, in which no other
    /// program has any.
    pub fn visit_mut_program(&mut self, n: &mut Program, private_ctxt: u32)
        requires
            old(self)@.depth < u32::MAX,
        ensures
            final(n)@ == old(self)@.visited_program(old(n)@, private_ctxt),
            final(self)@ == old(self)@.fresh(private_ctxt).noting(
                match old(n)@ {
                    ProgramView::Module(module) => old(self)@.tracks_module(module),
                    ProgramView::Script(script) => old(self)@.tracks_script(script),
                },
            ),
    {
        match n {
            Program::Module(module) => self.visit_mut_module(module, private_ctxt),
            Program::Script(script) => self.visit_mut_script(script, private_ctxt),
        }
    }
}

} // verus!

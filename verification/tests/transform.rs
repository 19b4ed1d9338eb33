use signals_transform::ast::{
    ArrowBody, ArrowExpr, AssignExpr, AssignTarget, CallExpr, Decl, DefaultDecl, ExportDecl,
    ExportDefaultDecl, ExportDefaultExpr, Expr, FnDecl, FnExpr, Function, Ident, ImportDecl,
    KeyValueProp, MethodProp, Module, ModuleItem, Node, Pat, Program, PropName, RequireDecl, Script,
    ScriptItem, SourceStmt, Span, Stmt, Str, VarDecl, VarDeclarator,
};
use signals_transform::comments::{Comment, CommentKind, Comments};
use signals_transform::detect::Detectable;
use signals_transform::expr::extract_fn_from_expr;
use signals_transform::imports::{add_import, add_require, prepend_stmt};
use signals_transform::names::Trackable;
use signals_transform::transform::{file_name_trackable, file_trackable_name, transform_program};
use signals_transform::wrap::SignalWrappable;
use signals_transform::{
    process_transform, PreactSignalsPluginExperimental, PreactSignalsPluginOptions,
    SignalsTransformVisitor, TransformMode,
};

const CTXT: u32 = 5;

fn span(lo: u32) -> Span {
    Span { lo, hi: lo + 1 }
}

fn ident_in(ctxt: u32, sym: &str) -> Ident {
    Ident {
        span: Span { lo: 0, hi: 0 },
        ctxt,
        sym: sym.to_string(),
        optional: false,
    }
}

fn name(sym: &str) -> Ident {
    ident_in(0, sym)
}

fn jsx_stmt() -> Stmt {
    Stmt::Source(source(vec![Node::Jsx(vec![])]))
}

fn plain_stmt() -> Stmt {
    Stmt::Source(source(vec![]))
}

fn source(nodes: Vec<Node>) -> SourceStmt {
    SourceStmt {
        directive: false,
        nodes,
    }
}

fn directive() -> SourceStmt {
    SourceStmt {
        directive: true,
        nodes: vec![],
    }
}

fn function(lo: u32, stmts: Vec<Stmt>) -> Function {
    Function {
        span: span(lo),
        params: vec![],
        body: Some(stmts),
    }
}

fn call(callee: Ident, args: Vec<u32>) -> CallExpr {
    CallExpr { callee, args }
}

/// The body of a function that is tracked and told `args`.
fn guarded(args: Vec<u32>, stmts: Vec<Stmt>) -> Vec<Stmt> {
    vec![
        Stmt::Var(
            ident_in(CTXT, "stop"),
            call(ident_in(CTXT, "_useComponentTracking"), args),
        ),
        Stmt::Try(
            stmts,
            vec![Stmt::Expr(call(ident_in(CTXT, "stop"), vec![]))],
        ),
    ]
}

fn fn_decl(sym: &str, lo: u32, stmts: Vec<Stmt>) -> FnDecl {
    FnDecl {
        ident: name(sym),
        function: Box::new(function(lo, stmts)),
    }
}

fn fn_expr(own: Option<&str>, lo: u32, stmts: Vec<Stmt>) -> FnExpr {
    FnExpr {
        ident: own.map(name),
        function: Box::new(function(lo, stmts)),
    }
}

fn arrow(lo: u32, stmts: Vec<Stmt>) -> Expr {
    Expr::Arrow(ArrowExpr {
        span: span(lo),
        params: vec![],
        body: ArrowBody::Block(stmts),
    })
}

fn paren(lo: u32, expr: Expr) -> Expr {
    Expr::Paren(span(lo), Box::new(expr))
}

fn var_decl(lo: u32, sym: &str, init: Option<Expr>) -> VarDecl {
    VarDecl {
        span: span(lo),
        decls: vec![VarDeclarator {
            name: Pat::Ident(name(sym)),
            pattern: vec![],
            init,
        }],
    }
}

fn note(comments: &mut Comments, lo: u32, text: &str) {
    comments.set_leading(
        lo,
        vec![Comment {
            kind: CommentKind::Block,
            text: text.to_string(),
        }],
    );
}

fn options(mode: TransformMode, add_hook_usage_flag: bool) -> PreactSignalsPluginOptions {
    PreactSignalsPluginOptions {
        mode,
        import_source: "forms".to_string(),
        experimental: PreactSignalsPluginExperimental {
            add_hook_usage_flag,
        },
    }
}

fn visitor(comments: Comments) -> SignalsTransformVisitor {
    SignalsTransformVisitor::from_default(comments, None, CTXT)
}

#[test]
fn visitor_takes_its_options() {
    let made = SignalsTransformVisitor::from_options(
        options(TransformMode::Manual, true),
        Comments::new(),
        Some(Trackable::Hook),
        CTXT,
    );
    assert_eq!(made.mode, TransformMode::Manual);
    assert_eq!(made.import_use_signals, None);
    assert_eq!(made.use_signals_import_source, Str::from_str("forms"));
    assert_eq!(made.ignore_span, None);
    assert_eq!(made.file_trackable_name, Some(Trackable::Hook));
    assert!(made.add_context_to_hooks);
    assert_eq!(made.depth, 0);
    assert!(!made.is_top_level_component());

    let made = SignalsTransformVisitor::from_default(Comments::new(), None, CTXT);
    assert_eq!(made.mode, TransformMode::All);
    assert_eq!(
        made.use_signals_import_source,
        Str::from_str("@react-typed-forms/core")
    );
    assert!(!made.add_context_to_hooks);
}

#[test]
fn name_for_tracking_is_made_once() {
    let mut visitor = visitor(Comments::new());
    let first = visitor.get_import_use_signals();
    assert_eq!(first, ident_in(CTXT, "_useComponentTracking"));
    visitor.import_use_signals = Some(name("kept"));
    assert_eq!(visitor.get_import_use_signals(), name("kept"));
    assert_eq!(visitor.import_use_signals, Some(name("kept")));
}

#[test]
fn components_with_jsx_are_tracked() {
    for mode in [TransformMode::All, TransformMode::Auto] {
        let mut visitor = SignalsTransformVisitor::from_options(
            options(mode, false),
            Comments::new(),
            None,
            CTXT,
        );
        let mut n = fn_decl("A", 3, vec![jsx_stmt()]);
        visitor.visit_mut_fn_decl(&mut n);
        assert_eq!(n, fn_decl("A", 3, guarded(vec![], vec![jsx_stmt()])));
        assert_eq!(
            visitor.import_use_signals,
            Some(ident_in(CTXT, "_useComponentTracking"))
        );
        assert_eq!(visitor.depth, 0);
        assert_eq!(visitor.ignore_span, None);
    }
}

#[test]
fn functions_that_are_no_components_are_not_tracked() {
    let mut visitor = visitor(Comments::new());
    let mut without_jsx = fn_decl("A", 3, vec![plain_stmt()]);
    visitor.visit_mut_fn_decl(&mut without_jsx);
    assert_eq!(without_jsx, fn_decl("A", 3, vec![plain_stmt()]));
    let mut small = fn_decl("a", 3, vec![jsx_stmt()]);
    visitor.visit_mut_fn_decl(&mut small);
    assert_eq!(small, fn_decl("a", 3, vec![jsx_stmt()]));
    let mut hook = fn_decl("useA", 3, vec![jsx_stmt()]);
    visitor.visit_mut_fn_decl(&mut hook);
    assert_eq!(hook, fn_decl("useA", 3, vec![jsx_stmt()]));
    assert_eq!(visitor.import_use_signals, None);
}

#[test]
fn manual_mode_tracks_on_request_alone() {
    let mut comments = Comments::new();
    note(&mut comments, 9, "@trackControls");
    let mut visitor = SignalsTransformVisitor::from_options(
        options(TransformMode::Manual, false),
        comments,
        None,
        CTXT,
    );
    let mut n = fn_decl("A", 3, vec![jsx_stmt()]);
    visitor.visit_mut_fn_decl(&mut n);
    assert_eq!(n, fn_decl("A", 3, vec![jsx_stmt()]));
    let mut n = fn_decl("a", 9, vec![plain_stmt()]);
    visitor.visit_mut_fn_decl(&mut n);
    assert_eq!(n, fn_decl("a", 9, guarded(vec![], vec![plain_stmt()])));
}

#[test]
fn forbidden_functions_are_not_tracked() {
    let mut comments = Comments::new();
    note(&mut comments, 3, "@noTrackControls");
    note(&mut comments, 2, "@trackControls");
    let mut visitor = visitor(comments);
    let export = || ExportDecl {
        span: span(2),
        decl: Decl::Fn(fn_decl("A", 3, vec![jsx_stmt()])),
    };
    let mut n = export();
    visitor.visit_mut_export_decl(&mut n);
    assert_eq!(n, export());
    assert_eq!(visitor.ignore_span, None);
}

#[test]
fn order_of_directives_is_irrelevant() {
    for (outer, inner) in [(2, 3), (3, 2)] {
        let mut comments = Comments::new();
        note(&mut comments, outer, "@noTrackControls");
        note(&mut comments, inner, "@trackControls");
        let visitor = visitor(comments);
        let component = function(3, vec![jsx_stmt()]);
        for spans in [
            [span(2), span(3)].as_slice(),
            [span(3), span(2)].as_slice(),
            [span(3), span(2), span(3)].as_slice(),
        ] {
            assert_eq!(
                visitor.should_track_option_ident(spans, Some(&name("A")), &component, false),
                None
            );
        }
    }
}

#[test]
fn requests_go_by_the_name() {
    let mut comments = Comments::new();
    note(&mut comments, 3, "@trackControls");
    let visitor =
        SignalsTransformVisitor::from_default(comments, Some(Trackable::Component), CTXT);
    let component = function(3, vec![plain_stmt()]);
    let asked = |sym: Option<&Ident>, is_default_export: bool| {
        visitor.should_track_option_ident(
            [span(3)].as_slice(),
            sym,
            &component,
            is_default_export,
        )
    };
    assert_eq!(asked(Some(&name("A")), false), Some(Trackable::Component));
    assert_eq!(asked(Some(&name("useA")), false), Some(Trackable::Hook));
    assert_eq!(asked(Some(&name("a")), false), Some(Trackable::Unknown));
    assert_eq!(asked(Some(&name("a")), true), Some(Trackable::Unknown));
    assert_eq!(asked(None, false), Some(Trackable::Unknown));
    assert_eq!(asked(None, true), Some(Trackable::Component));
}

#[test]
fn default_exports_go_by_the_file() {
    for (file, expected) in [
        (Some(Trackable::Component), true),
        (Some(Trackable::Hook), false),
        (None, false),
    ] {
        let mut visitor = SignalsTransformVisitor::from_default(Comments::new(), file, CTXT);
        let mut n = ExportDefaultDecl {
            span: span(2),
            decl: DefaultDecl::Fn(fn_expr(None, 3, vec![jsx_stmt()])),
        };
        visitor.visit_mut_export_default_decl(&mut n);
        let body = if expected {
            guarded(vec![], vec![jsx_stmt()])
        } else {
            vec![jsx_stmt()]
        };
        assert_eq!(n.decl, DefaultDecl::Fn(fn_expr(None, 3, body)));
        assert_eq!(visitor.import_use_signals.is_some(), expected);

        let mut n = ExportDefaultExpr {
            span: span(2),
            expr: paren(3, paren(4, arrow(5, vec![jsx_stmt()]))),
        };
        visitor.visit_mut_export_default_expr(&mut n);
        let body = if expected {
            guarded(vec![], vec![jsx_stmt()])
        } else {
            vec![jsx_stmt()]
        };
        assert_eq!(n.expr, paren(3, paren(4, arrow(5, body))));
    }
}

#[test]
fn own_name_goes_before_the_outer_one() {
    let mut visitor =
        SignalsTransformVisitor::from_default(Comments::new(), Some(Trackable::Component), CTXT);
    let small = || Expr::Fn(fn_expr(Some("small"), 4, vec![jsx_stmt()]));
    let mut n = var_decl(3, "A", Some(small()));
    visitor.visit_mut_var_decl(&mut n);
    assert_eq!(n, var_decl(3, "A", Some(small())));
    let mut n = ExportDefaultExpr {
        span: span(2),
        expr: small(),
    };
    visitor.visit_mut_export_default_expr(&mut n);
    assert_eq!(n.expr, small());
    let mut n = AssignExpr {
        span: span(2),
        left: AssignTarget::Ident(name("A")),
        target: vec![],
        right: small(),
    };
    visitor.visit_mut_assign_expr(&mut n);
    assert_eq!(n.right, small());
    assert_eq!(visitor.import_use_signals, None);

    let mut n = var_decl(
        3,
        "small",
        Some(Expr::Fn(fn_expr(Some("A"), 4, vec![jsx_stmt()]))),
    );
    visitor.visit_mut_var_decl(&mut n);
    assert_eq!(
        n.decls[0].init,
        Some(Expr::Fn(fn_expr(
            Some("A"),
            4,
            guarded(vec![], vec![jsx_stmt()])
        )))
    );
}

#[test]
fn parentheses_matter_in_assignments() {
    let mut visitor = visitor(Comments::new());
    let wrapped = || paren(4, arrow(5, vec![jsx_stmt()]));
    let mut n = AssignExpr {
        span: span(2),
        left: AssignTarget::Ident(name("A")),
        target: vec![],
        right: wrapped(),
    };
    visitor.visit_mut_assign_expr(&mut n);
    assert_eq!(n.right, wrapped());
    assert_eq!(visitor.import_use_signals, None);
    let mut n = var_decl(3, "A", Some(wrapped()));
    visitor.visit_mut_var_decl(&mut n);
    assert_eq!(
        n.decls[0].init,
        Some(paren(4, arrow(5, guarded(vec![], vec![jsx_stmt()]))))
    );
}

fn key_value_prop(value: Expr) -> KeyValueProp {
    KeyValueProp {
        key: PropName::Str(Str {
            span: span(1),
            value: "A".to_string(),
            raw: None,
        }),
        computed: vec![],
        value,
    }
}

fn method_prop(stmts: Vec<Stmt>) -> MethodProp {
    MethodProp {
        key: PropName::Computed(span(1), Some(Str::from_str("A"))),
        computed: vec![],
        function: Box::new(function(5, stmts)),
    }
}

#[test]
fn properties_and_methods_are_not_tracked() {
    for mode in [TransformMode::All, TransformMode::Auto, TransformMode::Manual] {
        for depth in [0, 1] {
            let mut visitor = SignalsTransformVisitor::from_options(
                options(mode, false),
                Comments::new(),
                Some(Trackable::Component),
                CTXT,
            );
            visitor.depth = depth;
            let mut n = key_value_prop(arrow(5, vec![jsx_stmt()]));
            visitor.visit_mut_key_value_prop(&mut n);
            assert_eq!(n, key_value_prop(arrow(5, vec![jsx_stmt()])));
            let mut n = method_prop(vec![jsx_stmt()]);
            visitor.visit_mut_method_prop(&mut n);
            assert_eq!(n, method_prop(vec![jsx_stmt()]));
            assert_eq!(visitor.import_use_signals, None);
            assert_eq!(visitor.depth, depth);
        }
    }
}

#[test]
fn properties_and_methods_are_tracked_on_request() {
    for mode in [TransformMode::All, TransformMode::Auto, TransformMode::Manual] {
        let made = |at: u32| {
            let mut comments = Comments::new();
            note(&mut comments, at, "@trackControls");
            SignalsTransformVisitor::from_options(options(mode, true), comments, None, CTXT)
        };
        let mut n = key_value_prop(arrow(5, vec![plain_stmt()]));
        made(1).visit_mut_key_value_prop(&mut n);
        assert_eq!(
            n,
            key_value_prop(arrow(5, guarded(vec![1], vec![plain_stmt()])))
        );
        let mut n = key_value_prop(arrow(5, vec![jsx_stmt()]));
        made(5).visit_mut_key_value_prop(&mut n);
        assert_eq!(n, key_value_prop(arrow(5, vec![jsx_stmt()])));
        let named = |stmts: Vec<Stmt>| {
            key_value_prop(Expr::Fn(fn_expr(Some("useB"), 5, stmts)))
        };
        let mut n = named(vec![plain_stmt()]);
        made(1).visit_mut_key_value_prop(&mut n);
        assert_eq!(n, named(guarded(vec![2], vec![plain_stmt()])));
        for at in [1, 5] {
            let mut n = method_prop(vec![plain_stmt()]);
            made(at).visit_mut_method_prop(&mut n);
            assert_eq!(n, method_prop(guarded(vec![1], vec![plain_stmt()])));
        }
        let parenthesized = || key_value_prop(paren(4, arrow(5, vec![jsx_stmt()])));
        let mut n = parenthesized();
        made(1).visit_mut_key_value_prop(&mut n);
        assert_eq!(n, parenthesized());
    }
}

#[test]
fn forbidden_properties_and_methods_are_not_tracked() {
    let mut comments = Comments::new();
    note(&mut comments, 1, "@noTrackControls");
    note(&mut comments, 5, "@trackControls");
    let mut visitor = visitor(comments);
    let mut n = method_prop(vec![jsx_stmt()]);
    visitor.visit_mut_method_prop(&mut n);
    assert_eq!(n, method_prop(vec![jsx_stmt()]));
    let mut n = key_value_prop(arrow(5, vec![jsx_stmt()]));
    visitor.visit_mut_key_value_prop(&mut n);
    assert_eq!(n, key_value_prop(arrow(5, vec![jsx_stmt()])));
    assert_eq!(visitor.import_use_signals, None);
}

#[test]
fn calls_are_not_looked_into() {
    let mut visitor = visitor(Comments::new());
    let call = || Expr::Other(span(4), vec![Node::Jsx(vec![])]);
    let mut n = var_decl(3, "A", Some(call()));
    visitor.visit_mut_var_decl(&mut n);
    assert_eq!(n, var_decl(3, "A", Some(call())));
    assert_eq!(visitor.import_use_signals, None);
}

#[test]
fn declarations_without_a_value_are_left_alone() {
    let mut visitor = visitor(Comments::new());
    let mut n = var_decl(3, "A", None);
    visitor.visit_mut_var_decl(&mut n);
    assert_eq!(n, var_decl(3, "A", None));
    let mut n = VarDecl {
        span: span(3),
        decls: vec![],
    };
    visitor.visit_mut_var_decl(&mut n);
    assert_eq!(n.decls, vec![]);
}

#[test]
fn nested_nodes_are_left_alone() {
    let mut visitor = visitor(Comments::new());
    let inner = || Node::FnDecl(fn_decl("B", 7, vec![jsx_stmt()]));
    let body = || vec![Stmt::Source(source(vec![inner()])), jsx_stmt()];
    let mut n = Node::FnDecl(fn_decl("A", 3, body()));
    visitor.visit_mut_node(&mut n);
    assert_eq!(n, Node::FnDecl(fn_decl("A", 3, guarded(vec![], body()))));

    let object = || {
        var_decl(
            3,
            "a",
            Some(Expr::Other(
                span(4),
                vec![Node::MethodProp(MethodProp {
                    key: PropName::Ident(name("B")),
                    computed: vec![],
                    function: Box::new(function(7, vec![jsx_stmt()])),
                })],
            )),
        )
    };
    let mut n = object();
    visitor.visit_mut_var_decl(&mut n);
    assert_eq!(n, object());

    visitor.depth = 1;
    visitor.import_use_signals = None;
    let mut n = inner();
    visitor.visit_mut_node(&mut n);
    assert_eq!(n, inner());
    assert_eq!(visitor.depth, 1);
    assert_eq!(visitor.import_use_signals, None);
}

#[test]
fn jsx_is_looked_into() {
    let mut visitor = visitor(Comments::new());
    let mut n = Node::Jsx(vec![Node::Jsx(vec![Node::FnDecl(fn_decl(
        "A",
        3,
        vec![jsx_stmt()],
    ))])]);
    visitor.visit_mut_node(&mut n);
    assert_eq!(
        n,
        Node::Jsx(vec![Node::Jsx(vec![Node::FnDecl(fn_decl(
            "A",
            3,
            guarded(vec![], vec![jsx_stmt()])
        ))])])
    );
}

#[test]
fn ignored_declarations_are_passed_over() {
    let mut visitor = visitor(Comments::new());
    visitor.ignore_span = Some(span(3));
    let mut n = fn_decl("A", 3, vec![jsx_stmt()]);
    visitor.visit_mut_fn_decl(&mut n);
    assert_eq!(n, fn_decl("A", 3, vec![jsx_stmt()]));
    let mut n = var_decl(3, "A", Some(arrow(4, vec![jsx_stmt()])));
    visitor.visit_mut_var_decl(&mut n);
    assert_eq!(n, var_decl(3, "A", Some(arrow(4, vec![jsx_stmt()]))));
    let mut n = fn_decl("A", 4, vec![jsx_stmt()]);
    visitor.visit_mut_fn_decl(&mut n);
    assert_eq!(n, fn_decl("A", 4, guarded(vec![], vec![jsx_stmt()])));
    assert_eq!(visitor.ignore_span, Some(span(3)));
}

#[test]
fn exports_of_other_declarations_are_left_alone() {
    let mut visitor = visitor(Comments::new());
    let inner = || vec![Node::FnDecl(fn_decl("A", 3, vec![jsx_stmt()]))];
    let mut n = ExportDecl {
        span: span(2),
        decl: Decl::Other(inner()),
    };
    visitor.visit_mut_export_decl(&mut n);
    assert_eq!(n.decl, Decl::Other(inner()));
    let mut n = ExportDefaultDecl {
        span: span(2),
        decl: DefaultDecl::Other(inner()),
    };
    visitor.visit_mut_export_default_decl(&mut n);
    assert_eq!(n.decl, DefaultDecl::Other(inner()));
    assert_eq!(visitor.import_use_signals, None);
}

#[test]
fn tracking_waits_for_the_outermost_node() {
    let mut visitor = visitor(Comments::new());
    let mut f = function(3, vec![jsx_stmt()]);
    visitor.track(Trackable::Component, &mut f);
    assert_eq!(f, function(3, vec![jsx_stmt()]));
    assert_eq!(visitor.import_use_signals, None);
    let mut n = var_decl(3, "A", Some(arrow(4, vec![jsx_stmt()])));
    visitor.process_var_decl(&mut n, None);
    assert_eq!(n, var_decl(3, "A", Some(arrow(4, vec![jsx_stmt()]))));
    visitor.depth = 1;
    visitor.track(Trackable::Component, &mut f);
    assert_eq!(f, function(3, guarded(vec![], vec![jsx_stmt()])));
    visitor.process_var_decl(&mut n, Some([span(1)].as_slice()));
    assert_eq!(
        n,
        var_decl(
            3,
            "A",
            Some(arrow(4, guarded(vec![], vec![jsx_stmt()])))
        )
    );
}

#[test]
fn usage_flag_tells_the_kind() {
    let ident = || ident_in(CTXT, "_useComponentTracking");
    let mut f = function(3, vec![jsx_stmt()]);
    f.wrap_with_use_signals(ident(), Some(Trackable::Component));
    assert_eq!(f, function(3, guarded(vec![1], vec![jsx_stmt()])));
    let mut f = function(3, vec![jsx_stmt()]);
    f.wrap_with_use_signals(ident(), Some(Trackable::Hook));
    assert_eq!(f, function(3, guarded(vec![2], vec![jsx_stmt()])));
    let mut f = function(3, vec![jsx_stmt(), plain_stmt()]);
    f.wrap_with_use_signals(ident(), Some(Trackable::Unknown));
    assert_eq!(
        f,
        function(
            3,
            vec![
                Stmt::Expr(call(ident(), vec![])),
                jsx_stmt(),
                plain_stmt()
            ]
        )
    );
    let mut f = function(3, vec![]);
    f.wrap_with_use_signals(ident(), None);
    assert_eq!(f, function(3, guarded(vec![], vec![])));
}

#[test]
fn arrow_expressions_become_blocks() {
    let value = || Expr::Other(span(6), vec![Node::Jsx(vec![])]);
    let mut e = ArrowExpr {
        span: span(3),
        params: vec![Node::Jsx(vec![])],
        body: ArrowBody::Expr(Box::new(value())),
    };
    e.wrap_with_use_signals(ident_in(CTXT, "_useComponentTracking"), None);
    assert_eq!(
        e,
        ArrowExpr {
            span: span(3),
            params: vec![Node::Jsx(vec![])],
            body: ArrowBody::Block(guarded(vec![], vec![Stmt::Return(value())])),
        }
    );
}

#[test]
fn functions_without_a_body_stay_without() {
    let mut comments = Comments::new();
    note(&mut comments, 3, "@trackControls");
    let mut visitor = visitor(comments);
    let declared = || FnDecl {
        ident: name("A"),
        function: Box::new(Function {
            span: span(3),
            params: vec![],
            body: None,
        }),
    };
    let mut n = declared();
    visitor.visit_mut_fn_decl(&mut n);
    assert_eq!(n, declared());
    assert!(visitor.import_use_signals.is_some());
}

#[test]
fn jsx_is_found_at_any_depth() {
    assert!(function(1, vec![jsx_stmt()]).has_jsx());
    assert!(!function(1, vec![plain_stmt()]).has_jsx());
    let nested = fn_decl("b", 5, vec![jsx_stmt()]);
    assert!(nested.has_jsx());
    assert!(function(1, vec![Stmt::Source(source(vec![Node::FnDecl(nested)]))]).has_jsx());
    let in_params = Function {
        span: span(1),
        params: vec![Node::AssignExpr(AssignExpr {
            span: span(2),
            left: AssignTarget::Other,
            target: vec![],
            right: paren(3, Expr::Other(span(4), vec![Node::Jsx(vec![])])),
        })],
        body: None,
    };
    assert!(in_params.has_jsx());
    assert!(function(1, guarded(vec![], vec![jsx_stmt()])).has_jsx());
    assert!(!function(1, guarded(vec![], vec![plain_stmt()])).has_jsx());
    assert!(!fn_expr(None, 1, vec![]).has_jsx());
}

#[test]
fn functions_are_taken_out_of_expressions() {
    let named = Expr::Fn(fn_expr(Some("f"), 3, vec![jsx_stmt()]));
    let found = extract_fn_from_expr(&named).unwrap();
    assert_eq!(found.get_fn_ident(), Some(&name("f")));
    assert!(found.has_jsx());
    let unnamed = arrow(4, vec![plain_stmt()]);
    let found = extract_fn_from_expr(&unnamed).unwrap();
    assert_eq!(found.get_fn_ident(), None);
    assert!(!found.has_jsx());
    assert!(extract_fn_from_expr(&paren(3, arrow(4, vec![]))).is_none());
    assert!(extract_fn_from_expr(&Expr::Other(span(3), vec![])).is_none());
}

#[test]
fn parentheses_are_taken_off() {
    let mut expr = paren(1, paren(2, arrow(3, vec![])));
    assert_eq!(expr.unwrap_parens(), &arrow(3, vec![]));
    assert_eq!(expr.get_span(), span(1));
    assert_eq!(expr.unwrap_parens().get_span(), span(3));
    *expr.unwrap_parens_mut() = Expr::Other(span(9), vec![]);
    assert_eq!(expr, paren(1, paren(2, Expr::Other(span(9), vec![]))));
    assert_eq!(
        Expr::Fn(fn_expr(Some("f"), 4, vec![])).get_span(),
        span(4)
    );
}

#[test]
fn statements_go_after_the_directives() {
    let new = || ModuleItem::ModuleDecl(add_import(name("a"), Str::from_str("m"), None));
    let mut items: Vec<ModuleItem> = vec![];
    prepend_stmt(&mut items, new());
    assert_eq!(items, vec![new()]);
    let mut items = vec![
        ModuleItem::Stmt(directive()),
        ModuleItem::Stmt(directive()),
        ModuleItem::Stmt(source(vec![])),
        ModuleItem::Stmt(directive()),
    ];
    prepend_stmt(&mut items, new());
    assert_eq!(items.len(), 5);
    assert_eq!(items[2], new());
    let mut items = vec![ModuleItem::Stmt(directive())];
    prepend_stmt(&mut items, new());
    assert_eq!(items[1], new());
    let mut items = vec![new()];
    prepend_stmt(&mut items, ModuleItem::Stmt(directive()));
    assert_eq!(items[1], new());
}

#[test]
fn imports_hold_what_they_are_given() {
    assert_eq!(
        add_import(name("a"), Str::from_str("m"), Some(name("b"))),
        ImportDecl {
            local: name("a"),
            src: Str::from_str("m"),
            imported: Some(name("b")),
        }
    );
    assert_eq!(
        add_require(name("a"), Str::from_str("m"), None, 8),
        RequireDecl {
            local: name("a"),
            src: Str::from_str("m"),
            imported: None,
            ctxt: 8,
        }
    );
    assert_eq!(
        Str::from_str("m"),
        Str {
            span: Span { lo: 0, hi: 0 },
            value: "m".to_string(),
            raw: None,
        }
    );
    assert_eq!(Ident::use_signals(3), ident_in(3, "useComponentTracking"));
}

fn component(sym: &str) -> SourceStmt {
    source(vec![Node::FnDecl(fn_decl(sym, 3, vec![jsx_stmt()]))])
}

fn tracked_component(sym: &str) -> SourceStmt {
    source(vec![Node::FnDecl(fn_decl(
        sym,
        3,
        guarded(vec![], vec![jsx_stmt()]),
    ))])
}

#[test]
fn modules_gain_one_import() {
    let module = Program::Module(Module {
        body: vec![
            ModuleItem::Stmt(directive()),
            ModuleItem::Stmt(component("A")),
            ModuleItem::Stmt(component("b")),
            ModuleItem::Stmt(component("C")),
        ],
    });
    let made = transform_program(
        module,
        Some(options(TransformMode::Auto, false)),
        Comments::new(),
        None,
        CTXT,
    );
    let expected = Program::Module(Module {
        body: vec![
            ModuleItem::Stmt(directive()),
            ModuleItem::ModuleDecl(ImportDecl {
                local: ident_in(CTXT, "_useComponentTracking"),
                src: Str::from_str("forms"),
                imported: Some(ident_in(CTXT, "useComponentTracking")),
            }),
            ModuleItem::Stmt(tracked_component("A")),
            ModuleItem::Stmt(component("b")),
            ModuleItem::Stmt(tracked_component("C")),
        ],
    });
    assert_eq!(made, expected);
}

#[test]
fn scripts_gain_one_require() {
    let script = Program::Script(Script {
        body: vec![ScriptItem::Stmt(component("A"))],
    });
    let made = transform_program(script, None, Comments::new(), None, CTXT);
    let expected = Program::Script(Script {
        body: vec![
            ScriptItem::Require(RequireDecl {
                local: ident_in(CTXT, "_useComponentTracking"),
                src: Str::from_str("@react-typed-forms/core"),
                imported: Some(ident_in(CTXT, "useComponentTracking")),
                ctxt: CTXT,
            }),
            ScriptItem::Stmt(tracked_component("A")),
        ],
    });
    assert_eq!(made, expected);
}

#[test]
fn programs_without_components_are_unchanged() {
    let module = || {
        Program::Module(Module {
            body: vec![
                ModuleItem::Stmt(directive()),
                ModuleItem::Stmt(component("b")),
            ],
        })
    };
    assert_eq!(
        transform_program(module(), None, Comments::new(), None, CTXT),
        module()
    );
    let script = || {
        Program::Script(Script {
            body: vec![ScriptItem::Stmt(component("useB"))],
        })
    };
    assert_eq!(
        transform_program(script(), None, Comments::new(), None, CTXT),
        script()
    );
}

#[test]
fn programs_are_independent() {
    let mut visitor = visitor(Comments::new());
    let mut first = Module {
        body: vec![ModuleItem::Stmt(component("A"))],
    };
    visitor.visit_mut_module(&mut first, CTXT);
    assert_eq!(first.body.len(), 2);
    let mut second = Module {
        body: vec![ModuleItem::Stmt(component("b"))],
    };
    visitor.visit_mut_module(&mut second, CTXT + 1);
    assert_eq!(second.body, vec![ModuleItem::Stmt(component("b"))]);
    assert_eq!(visitor.import_use_signals, None);
}

#[test]
fn file_names_are_the_last_components_of_paths() {
    assert_eq!(
        file_trackable_name(Some("Button.tsx")),
        Some(Trackable::Component)
    );
    assert_eq!(
        file_trackable_name(Some("/src/lower/Button.tsx")),
        Some(Trackable::Component)
    );
    assert_eq!(
        file_trackable_name(Some("Upper/useForm.ts")),
        Some(Trackable::Hook)
    );
    assert_eq!(file_trackable_name(Some("Upper/button.tsx")), None);
    assert_eq!(file_trackable_name(Some("Upper/..")), None);
    assert_eq!(file_trackable_name(Some("Upper/../")), None);
    assert_eq!(file_trackable_name(Some("/")), None);
    assert_eq!(file_trackable_name(Some("/.")), None);
    assert_eq!(file_trackable_name(Some("./")), None);
    assert_eq!(
        file_trackable_name(Some("lower/Button//")),
        Some(Trackable::Component)
    );
    assert_eq!(
        file_trackable_name(Some("lower/useForm/./.")),
        Some(Trackable::Hook)
    );
    assert_eq!(
        file_trackable_name(Some("lower/Button.")),
        Some(Trackable::Component)
    );
    assert_eq!(file_trackable_name(Some("")), None);
    assert_eq!(file_trackable_name(None), None);
}

#[test]
fn files_name_their_default_exports() {
    let program = || {
        Program::Module(Module {
            body: vec![ModuleItem::Stmt(source(vec![Node::ExportDefaultDecl(
                ExportDefaultDecl {
                    span: span(2),
                    decl: DefaultDecl::Fn(fn_expr(None, 3, vec![jsx_stmt()])),
                },
            )]))],
        })
    };
    let made = process_transform(
        program(),
        None,
        Some("lower/Button.tsx"),
        Comments::new(),
        CTXT,
    );
    assert_eq!(
        made,
        transform_program(
            program(),
            None,
            Comments::new(),
            Some(Trackable::Component),
            CTXT
        )
    );
    assert_ne!(made, program());
    assert_eq!(
        process_transform(
            program(),
            None,
            Some("Upper/button.tsx"),
            Comments::new(),
            CTXT
        ),
        program()
    );
    assert_eq!(
        process_transform(program(), None, None, Comments::new(), CTXT),
        program()
    );
}

#[test]
fn auto_mode_transforms_as_all() {
    let module = || {
        Program::Module(Module {
            body: vec![
                ModuleItem::Stmt(component("A")),
                ModuleItem::Stmt(component("useB")),
            ],
        })
    };
    let made = |mode: TransformMode| {
        transform_program(
            module(),
            Some(options(mode, true)),
            Comments::new(),
            None,
            CTXT,
        )
    };
    assert_eq!(made(TransformMode::Auto), made(TransformMode::All));
    assert_ne!(made(TransformMode::Auto), module());
    assert_eq!(made(TransformMode::Manual), module());
}

#[test]
fn written_names_are_private() {
    let mut visitor = visitor(Comments::new());
    let mut n = fn_decl("A", 3, vec![jsx_stmt()]);
    visitor.visit_mut_fn_decl(&mut n);
    match &n.function.body.as_ref().unwrap()[0] {
        Stmt::Var(stop, start) => {
            assert_eq!(stop.ctxt, CTXT);
            assert_eq!(start.callee.ctxt, CTXT);
            assert_ne!(*stop, start.callee);
        }
        _ => unreachable!(),
    }
}

/// What a visit writes when the visitor begins at the depth.
fn body_at(depth: u32) -> Vec<Stmt> {
    if depth == 0 {
        guarded(vec![], vec![jsx_stmt()])
    } else {
        vec![jsx_stmt()]
    }
}

fn node_with(stmts: Vec<Stmt>) -> Node {
    Node::FnDecl(fn_decl("A", 3, stmts))
}

fn stmt_with(stmts: Vec<Stmt>) -> Stmt {
    Stmt::Source(source(vec![node_with(stmts)]))
}

fn at_depth(depth: u32) -> SignalsTransformVisitor {
    let mut visitor = visitor(Comments::new());
    visitor.depth = depth;
    visitor
}

fn assert_noted(visitor: &SignalsTransformVisitor, depth: u32) {
    assert_eq!(visitor.depth, depth);
    assert_eq!(visitor.import_use_signals.is_some(), depth == 0);
}

#[test]
fn functions_are_looked_into_outside_of_nodes() {
    for depth in [0, 1] {
        let made = |stmts: Vec<Stmt>, params: Vec<Stmt>| Function {
            span: span(8),
            params: vec![node_with(params)],
            body: Some(vec![plain_stmt(), stmt_with(stmts)]),
        };
        let mut visitor = at_depth(depth);
        let mut n = made(vec![jsx_stmt()], vec![jsx_stmt()]);
        visitor.visit_mut_function(&mut n);
        assert_eq!(n, made(body_at(depth), body_at(depth)));
        assert_noted(&visitor, depth);

        for as_block in [true, false] {
            let made = |stmts: Vec<Stmt>| ArrowExpr {
                span: span(8),
                params: vec![],
                body: if as_block {
                    ArrowBody::Block(vec![stmt_with(stmts)])
                } else {
                    ArrowBody::Expr(Box::new(Expr::Other(span(9), vec![node_with(stmts)])))
                },
            };
            let mut visitor = at_depth(depth);
            let mut n = made(vec![jsx_stmt()]);
            visitor.visit_mut_arrow_expr(&mut n);
            assert_eq!(n, made(body_at(depth)));
            assert_noted(&visitor, depth);
        }
    }
}

#[test]
fn expressions_are_looked_into_outside_of_nodes() {
    for depth in [0, 1] {
        for made in [
            |stmts: Vec<Stmt>| paren(7, Expr::Other(span(8), vec![node_with(stmts)])),
            |stmts: Vec<Stmt>| Expr::Fn(fn_expr(Some("B"), 8, vec![jsx_stmt(), stmt_with(stmts)])),
            |stmts: Vec<Stmt>| arrow(8, vec![jsx_stmt(), stmt_with(stmts)]),
        ] {
            let mut visitor = at_depth(depth);
            let mut n = made(vec![jsx_stmt()]);
            visitor.visit_mut_expr(&mut n);
            assert_eq!(n, made(body_at(depth)));
            assert_noted(&visitor, depth);
        }
    }
}

#[test]
fn statements_are_looked_into_outside_of_nodes() {
    for depth in [0, 1] {
        for made in [
            stmt_with,
            |stmts: Vec<Stmt>| Stmt::Return(Expr::Other(span(8), vec![node_with(stmts)])),
            |stmts: Vec<Stmt>| Stmt::Try(vec![stmt_with(stmts)], vec![plain_stmt()]),
            |stmts: Vec<Stmt>| Stmt::Try(vec![plain_stmt()], vec![stmt_with(stmts)]),
        ] {
            let mut visitor = at_depth(depth);
            let mut n = made(vec![jsx_stmt()]);
            visitor.visit_mut_stmt(&mut n);
            assert_eq!(n, made(body_at(depth)));
            assert_noted(&visitor, depth);
        }
        let mut visitor = at_depth(depth);
        let mut n = vec![
            stmt_with(vec![jsx_stmt()]),
            plain_stmt(),
            stmt_with(vec![jsx_stmt()]),
        ];
        visitor.visit_mut_stmts(&mut n);
        assert_eq!(
            n,
            vec![
                stmt_with(body_at(depth)),
                plain_stmt(),
                stmt_with(body_at(depth))
            ]
        );
        assert_noted(&visitor, depth);
    }
    let mut visitor = at_depth(0);
    let mut n = vec![plain_stmt()];
    visitor.visit_mut_stmts(&mut n);
    assert_eq!(n, vec![plain_stmt()]);
    assert_eq!(visitor.import_use_signals, None);
}

#[test]
fn bindings_are_looked_into_outside_of_nodes() {
    for depth in [0, 1] {
        let made = |init: Vec<Stmt>, pattern: Vec<Stmt>| VarDeclarator {
            name: Pat::Ident(name("A")),
            pattern: vec![node_with(pattern)],
            init: Some(arrow(8, vec![jsx_stmt(), stmt_with(init)])),
        };
        let mut visitor = at_depth(depth);
        let mut n = made(vec![jsx_stmt()], vec![jsx_stmt()]);
        visitor.visit_mut_var_declarator(&mut n);
        assert_eq!(n, made(body_at(depth), body_at(depth)));
        assert_noted(&visitor, depth);

        let made_decl = |first: Vec<Stmt>, second: Vec<Stmt>| VarDecl {
            span: span(7),
            decls: vec![made(first, vec![]), made(second, vec![])],
        };
        let mut visitor = at_depth(depth);
        let mut n = made_decl(vec![jsx_stmt()], vec![jsx_stmt()]);
        visitor.visit_mut_var_decl_children(&mut n);
        assert_eq!(n, made_decl(body_at(depth), body_at(depth)));
        assert_noted(&visitor, depth);
    }
}

#[test]
fn declarations_are_visited_as_nodes() {
    for depth in [0, 1] {
        for made in [
            |stmts: Vec<Stmt>| Decl::Fn(fn_decl("A", 3, stmts)),
            |stmts: Vec<Stmt>| Decl::Var(var_decl(3, "A", Some(arrow(4, stmts)))),
            |stmts: Vec<Stmt>| Decl::Other(vec![node_with(stmts)]),
        ] {
            let mut visitor = at_depth(depth);
            let mut n = made(vec![jsx_stmt()]);
            visitor.visit_mut_decl(&mut n);
            assert_eq!(n, made(body_at(depth)));
            assert_noted(&visitor, depth);
        }
        for made in [
            |stmts: Vec<Stmt>| DefaultDecl::Fn(fn_expr(Some("B"), 8, vec![stmt_with(stmts)])),
            |stmts: Vec<Stmt>| DefaultDecl::Other(vec![node_with(stmts)]),
        ] {
            let mut visitor = at_depth(depth);
            let mut n = made(vec![jsx_stmt()]);
            visitor.visit_mut_default_decl(&mut n);
            assert_eq!(n, made(body_at(depth)));
            assert_noted(&visitor, depth);
        }
    }
    let mut visitor = at_depth(0);
    visitor.ignore_span = Some(span(3));
    let mut n = Decl::Fn(fn_decl("A", 3, vec![jsx_stmt()]));
    visitor.visit_mut_decl(&mut n);
    assert_eq!(n, Decl::Fn(fn_decl("A", 3, vec![jsx_stmt()])));
}

#[test]
fn manual_mode_leaves_programs_alone() {
    let module = || {
        Program::Module(Module {
            body: vec![
                ModuleItem::Stmt(directive()),
                ModuleItem::Stmt(component("A")),
            ],
        })
    };
    let manual = |text: &str| {
        let mut comments = Comments::new();
        note(&mut comments, 3, text);
        transform_program(
            module(),
            Some(options(TransformMode::Manual, false)),
            comments,
            None,
            CTXT,
        )
    };
    assert_eq!(manual("a component"), module());
    assert_eq!(manual("@trackControls @noTrackControls"), module());
    assert_ne!(manual("@trackControls"), module());
}

fn default_export(own: Option<&str>) -> Program {
    Program::Module(Module {
        body: vec![ModuleItem::Stmt(source(vec![Node::ExportDefaultDecl(
            ExportDefaultDecl {
                span: span(2),
                decl: DefaultDecl::Fn(fn_expr(own, 3, vec![jsx_stmt()])),
            },
        )]))],
    })
}

#[test]
fn only_the_file_name_matters() {
    let made = |path: &str| {
        process_transform(
            default_export(None),
            None,
            Some(path),
            Comments::new(),
            CTXT,
        )
    };
    assert_eq!(made("/a/Button.tsx"), made("/useX/Button.tsx"));
    assert_eq!(made("/a/Button.tsx"), made("Button.tsx"));
    assert_eq!(made("/a/Button.tsx"), made("C:/src/Button.tsx"));
    assert_eq!(made("/a/Button.tsx"), made("C:\\use\\x/Button.tsx"));
    assert_ne!(made("/a/Button.tsx"), made("/a/button.tsx"));
    assert_eq!(made("/A/useX.ts"), made("/b/useX.ts"));
}

#[test]
fn named_programs_ignore_their_files() {
    for own in ["A", "a", "useA"] {
        let made = |filename: Option<&str>| {
            process_transform(
                default_export(Some(own)),
                None,
                filename,
                Comments::new(),
                CTXT,
            )
        };
        assert_eq!(made(Some("Button.tsx")), made(Some("button.tsx")));
        assert_eq!(made(Some("Button.tsx")), made(Some("useX.ts")));
        assert_eq!(made(Some("C:\\Button.tsx")), made(None));
    }
}

#[test]
fn no_file_name_says_unknown() {
    for path in ["C:\\Button.tsx", ":", "//host/share/useX.ts", "a\\", "\\\\", "C:"] {
        assert_ne!(file_trackable_name(Some(path)), Some(Trackable::Unknown));
    }
}

#[test]
fn drives_and_directories_are_not_names() {
    for (path, expected) in [
        ("C:/src/Button.tsx", Some(Trackable::Component)),
        ("C:src/useForm.ts", Some(Trackable::Hook)),
        ("C:/Src/button.tsx", None),
        ("C:/Src/..", None),
        ("Src\\Lib/useForm.ts/.", Some(Trackable::Hook)),
        ("\\Src/button.tsx", None),
    ] {
        assert_eq!(file_trackable_name(Some(path)), expected, "{}", path);
    }
}

#[test]
fn names_of_files_are_read_as_names() {
    assert_eq!(
        file_name_trackable(Some("Button.tsx")),
        Some(Trackable::Component)
    );
    assert_eq!(file_name_trackable(Some("useForm.ts")), Some(Trackable::Hook));
    assert_eq!(file_name_trackable(Some("button.tsx")), None);
    assert_eq!(file_name_trackable(Some("")), None);
    assert_eq!(file_name_trackable(None), None);
}

#[test]
fn programs_share_no_name() {
    let mut visitor = visitor(Comments::new());
    let mut first = Module {
        body: vec![ModuleItem::Stmt(component("A"))],
    };
    visitor.visit_mut_module(&mut first, 6);
    assert_eq!(
        visitor.import_use_signals,
        Some(ident_in(6, "_useComponentTracking"))
    );
    let mut second = Script {
        body: vec![ScriptItem::Stmt(component("A"))],
    };
    visitor.visit_mut_script(&mut second, 7);
    let local = match &first.body[0] {
        ModuleItem::ModuleDecl(decl) => &decl.local,
        _ => unreachable!(),
    };
    let other = match &second.body[0] {
        ScriptItem::Require(decl) => &decl.local,
        _ => unreachable!(),
    };
    assert_eq!(*local, ident_in(6, "_useComponentTracking"));
    assert_eq!(*other, ident_in(7, "_useComponentTracking"));
    let mut third = Program::Module(Module {
        body: vec![ModuleItem::Stmt(component("A"))],
    });
    visitor.visit_mut_program(&mut third, 8);
    assert_eq!(
        visitor.import_use_signals,
        Some(ident_in(8, "_useComponentTracking"))
    );
}

//! The code that the transform writes.
use vstd::prelude::*;

use crate::ast::{
    dummy_span, stmts_view, ArrowBody, ArrowBodyView, ArrowExpr, ArrowExprView, CallExpr,
    CallExprView, Expr, ExprView, FnExprView, Function, FunctionView, Ident, IdentView, Span, Stmt,
    StmtView,
};
use crate::names::Trackable;

verus! {

/// The identifier that holds what ends the tracking of a call.
pub open spec fn stop_ident(ctxt: u32) -> IdentView {
    IdentView { span: dummy_span(), ctxt, sym: "stop"@, optional: false }
}

pub open spec fn call(callee: IdentView, args: Seq<u32>) -> CallExprView {
    CallExprView { callee, args }
}

/// The arguments that tell what a function is taken for.
pub open spec fn hook_args(trackable: Option<Trackable>) -> Seq<u32> {
    match trackable {
        Some(Trackable::Component) => seq![1u32],
        Some(Trackable::Hook) => seq![2u32],
        Some(Trackable::Unknown) => seq![],
        None => seq![],
    }
}

/// The body of a function once it is tracked: `var stop = ident(args);`, and the
/// old body in a `try` that ends with `stop();`. Where the function is taken for
/// `Unknown`, only `ident();` goes before the old body.
pub open spec fn wrapped_stmts(
    stmts: Seq<StmtView>,
    ident: IdentView,
    trackable: Option<Trackable>,
) -> Seq<StmtView> {
    if trackable == Some(Trackable::Unknown) {
        seq![StmtView::Expr(call(ident, seq![]))] + stmts
    } else {
        seq![
            StmtView::Var(stop_ident(ident.ctxt), call(ident, hook_args(trackable))),
            StmtView::Try(
                stmts,
                seq![StmtView::Expr(call(stop_ident(ident.ctxt), seq![]))],
            ),
        ]
    }
}

pub open spec fn wrapped_function(
    function: FunctionView,
    ident: IdentView,
    trackable: Option<Trackable>,
) -> FunctionView {
    FunctionView {
        body: match function.body {
            Some(stmts) => Some(wrapped_stmts(stmts, ident, trackable)),
            None => None,
        },
        ..function
    }
}

/// An arrow function that is an expression becomes a block that returns it.
pub open spec fn wrapped_arrow(
    arrow: ArrowExprView,
    ident: IdentView,
    trackable: Option<Trackable>,
) -> ArrowExprView {
    ArrowExprView {
        body: ArrowBodyView::Block(
            match arrow.body {
                ArrowBodyView::Block(stmts) => wrapped_stmts(stmts, ident, trackable),
                ArrowBodyView::Expr(expr) => wrapped_stmts(
                    seq![StmtView::Return(*expr)],
                    ident,
                    trackable,
                ),
            },
        ),
        ..arrow
    }
}

/// An expression that is a function, with the function tracked.
pub open spec fn wrapped_expr(
    expr: ExprView,
    ident: IdentView,
    trackable: Option<Trackable>,
) -> ExprView {
    match expr {
        ExprView::Fn(f) => ExprView::Fn(
            FnExprView { function: wrapped_function(f.function, ident, trackable), ..f },
        ),
        ExprView::Arrow(arrow) => ExprView::Arrow(wrapped_arrow(arrow, ident, trackable)),
        ExprView::Paren(_, _) => expr,
        ExprView::Other(_, _) => expr,
    }
}

/// Syntax that can be tracked.
pub trait SignalWrappable: Sized {
    type Model;

    spec fn model(&self) -> Self::Model;

    spec fn spec_wrapped(
        model: Self::Model,
        ident: IdentView,
        trackable: Option<Trackable>,
    ) -> Self::Model;

    /// Tracks every call of the function by the function `ident`, which is told
    /// what the function is taken for.
    fn wrap_with_use_signals(&mut self, ident: Ident, trackable: Option<Trackable>)
        ensures
            final(self).model() == Self::spec_wrapped(old(self).model(), ident@, trackable),
    ;
}

/// The arguments that tell what a function is taken for.
fn make_args(trackable: Option<Trackable>) -> (r: Vec<u32>)
    ensures
        r@ == hook_args(trackable),
{
    match trackable {
        Some(Trackable::Component) => vec![1u32],
        Some(Trackable::Hook) => vec![2u32],
        Some(Trackable::Unknown) => Vec::new(),
        None => Vec::new(),
    }
}

fn make_stop(ctxt: u32) -> (r: Ident)
    ensures
        r@ == stop_ident(ctxt),
{
    Ident { span: Span { lo: 0, hi: 0 }, ctxt, sym: "stop".to_owned(), optional: false }
}

fn wrap_stmts(stmts: Vec<Stmt>, ident: Ident, trackable: Option<Trackable>) -> (r: Vec<Stmt>)
    ensures
        stmts_view(r@) == wrapped_stmts(stmts_view(stmts@), ident@, trackable),
{
    let mut old_stmts = stmts;
    let mut r: Vec<Stmt> = Vec::new();
    match trackable {
        Some(Trackable::Unknown) => {
            r.push(Stmt::Expr(CallExpr { callee: ident, args: Vec::new() }));
            r.append(&mut old_stmts);
        },
        _ => {
            let ctxt: u32 = ident.ctxt;
            let mut finalizer: Vec<Stmt> = Vec::new();
            finalizer.push(Stmt::Expr(CallExpr { callee: make_stop(ctxt), args: Vec::new() }));
            r.push(
                Stmt::Var(
                    make_stop(ctxt),
                    CallExpr { callee: ident, args: make_args(trackable) },
                ),
            );
            r.push(Stmt::Try(old_stmts, finalizer));
            assert(stmts_view(finalizer@) =~= seq![
                StmtView::Expr(call(stop_ident(ctxt), seq![])),
            ]);
            assert(r@[1]@ == StmtView::Try(stmts_view(stmts@), stmts_view(finalizer@)));
            assert(r@[0]@ == StmtView::Var(
                stop_ident(ctxt),
                call(ident@, hook_args(trackable)),
            ));
        },
    }
    assert(stmts_view(r@) =~= wrapped_stmts(stmts_view(stmts@), ident@, trackable));
    r
}

impl SignalWrappable for Function {
    type Model = FunctionView;

    open spec fn model(&self) -> FunctionView {
        self@
    }

    open spec fn spec_wrapped(
        model: FunctionView,
        ident: IdentView,
        trackable: Option<Trackable>,
    ) -> FunctionView {
        wrapped_function(model, ident, trackable)
    }

    fn wrap_with_use_signals(&mut self, ident: Ident, trackable: Option<Trackable>) {
        match self.body.take() {
            Some(stmts) => {
                self.body = Some(wrap_stmts(stmts, ident, trackable));
            },
            None => {},
        }
    }
}

impl SignalWrappable for ArrowExpr {
    type Model = ArrowExprView;

    open spec fn model(&self) -> ArrowExprView {
        self@
    }

    open spec fn spec_wrapped(
        model: ArrowExprView,
        ident: IdentView,
        trackable: Option<Trackable>,
    ) -> ArrowExprView {
        wrapped_arrow(model, ident, trackable)
    }

    fn wrap_with_use_signals(&mut self, ident: Ident, trackable: Option<Trackable>) {
        proof {
            reveal_with_fuel(ArrowExpr::view, 2);
        }
        let mut body = ArrowBody::Block(Vec::new());
        std::mem::swap(&mut self.body, &mut body);
        assert(body@ == old(self)@.body);
        let stmts = match body {
            ArrowBody::Block(stmts) => stmts,
            ArrowBody::Expr(expr) => {
                let stmts = vec![Stmt::Return(*expr)];
                assert(stmts@[0]@ == StmtView::Return(expr@));
                assert(stmts_view(stmts@) =~= seq![StmtView::Return(expr@)]);
                stmts
            },
        };
        self.body = ArrowBody::Block(wrap_stmts(stmts, ident, trackable));
    }
}

impl SignalWrappable for Expr {
    type Model = ExprView;

    open spec fn model(&self) -> ExprView {
        self@
    }

    open spec fn spec_wrapped(
        model: ExprView,
        ident: IdentView,
        trackable: Option<Trackable>,
    ) -> ExprView {
        wrapped_expr(model, ident, trackable)
    }

    fn wrap_with_use_signals(&mut self, ident: Ident, trackable: Option<Trackable>) {
        proof {
            reveal_with_fuel(Expr::view, 2);
        }
        match self {
            Expr::Fn(f) => {
                f.function.wrap_with_use_signals(ident, trackable);
            },
            Expr::Arrow(arrow) => {
                arrow.wrap_with_use_signals(ident, trackable);
            },
            _ => {},
        }
    }
}

} // verus!

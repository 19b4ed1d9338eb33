//! Expressions, and the functions that they are.
use vstd::prelude::*;

use crate::ast::{
    ArrowExpr, Expr, ExprView, FnExpr, Ident, IdentView, PropName, PropNameView, Span,
};
use crate::detect::{expr_has_jsx, Detectable};

verus! {

pub open spec fn unparenthesized(expr: ExprView) -> ExprView
    decreases expr,
{
    match expr {
        ExprView::Paren(_, inner) => unparenthesized(*inner),
        _ => expr,
    }
}

/// The expression with `inner` in its parentheses.
pub open spec fn with_unparenthesized(expr: ExprView, inner: ExprView) -> ExprView
    decreases expr,
{
    match expr {
        ExprView::Paren(span, nested) => ExprView::Paren(
            span,
            Box::new(with_unparenthesized(*nested, inner)),
        ),
        _ => inner,
    }
}

/// To put back what stands in the parentheses changes nothing.
pub proof fn with_unparenthesized_same(expr: ExprView)
    ensures
        with_unparenthesized(expr, unparenthesized(expr)) == expr,
    decreases expr,
{
    if let ExprView::Paren(_, nested) = expr {
        with_unparenthesized_same(*nested);
    }
}

pub open spec fn is_fn_expr(expr: ExprView) -> bool {
    expr is Fn || expr is Arrow
}

pub open spec fn expr_span(expr: ExprView) -> Span {
    match expr {
        ExprView::Fn(f) => f.function.span,
        ExprView::Arrow(arrow) => arrow.span,
        ExprView::Paren(span, _) => span,
        ExprView::Other(span, _) => span,
    }
}

pub open spec fn key_span(key: PropNameView) -> Span {
    match key {
        PropNameView::Ident(ident) => ident.span,
        PropNameView::Str(lit) => lit.span,
        PropNameView::Computed(span, _) => span,
        PropNameView::Num(span) => span,
    }
}

/// The name that a function expression gives itself.
pub open spec fn fn_ident(expr: ExprView) -> Option<IdentView> {
    match expr {
        ExprView::Fn(f) => f.ident,
        _ => None,
    }
}

impl Expr {
    /// What stands in the parentheses around an expression.
    pub fn unwrap_parens(&self) -> (r: &Expr)
        ensures
            r@ == unparenthesized(self@),
        decreases self,
    {
        match self {
            Expr::Paren(_, inner) => inner.unwrap_parens(),
            _ => self,
        }
    }

    /// What stands in the parentheses around an expression, for change in place.
    pub fn unwrap_parens_mut(&mut self) -> (r: &mut Expr)
        ensures
            r@ == unparenthesized(old(self)@),
            final(self)@ == with_unparenthesized(old(self)@, final(r)@),
        decreases *old(self),
    {
        match self {
            Expr::Paren(_, inner) => inner.unwrap_parens_mut(),
            _ => self,
        }
    }
}

impl Expr {
    /// Where the expression stands in the source.
    pub fn get_span(&self) -> (r: Span)
        ensures
            r == expr_span(self@),
    {
        proof {
            reveal_with_fuel(Expr::view, 3);
        }
        match self {
            Expr::Fn(f) => f.function.span,
            Expr::Arrow(arrow) => arrow.span,
            Expr::Paren(span, _) => *span,
            Expr::Other(span, _) => *span,
        }
    }
}

impl PropName {
    /// Where the key stands in the source.
    pub fn get_span(&self) -> (r: Span)
        ensures
            r == key_span(self@),
    {
        match self {
            PropName::Ident(ident) => ident.span,
            PropName::Str(lit) => lit.span,
            PropName::Computed(span, _) => *span,
            PropName::Num(span) => *span,
        }
    }
}

/// A function that is an expression.
#[derive(Debug)]
pub enum FnLike<'a> {
    Fn(&'a FnExpr),
    Arrow(&'a ArrowExpr),
}

impl FnLike<'_> {
    /// The expression that the function is.
    pub open spec fn view(&self) -> ExprView {
        match self {
            FnLike::Fn(f) => ExprView::Fn(f@),
            FnLike::Arrow(arrow) => ExprView::Arrow(arrow@),
        }
    }

    /// The name that the function gives itself.
    pub fn get_fn_ident(&self) -> (r: Option<&Ident>)
        ensures
            fn_ident(self@) == match r {
                Some(ident) => Some(ident@),
                None => None,
            },
    {
        match self {
            FnLike::Fn(f) => f.ident.as_ref(),
            FnLike::Arrow(_) => None,
        }
    }
}

impl Detectable for FnLike<'_> {
    open spec fn spec_has_jsx(&self) -> bool {
        expr_has_jsx(self@)
    }

    fn has_jsx(&self) -> (r: bool) {
        match self {
            FnLike::Fn(f) => f.has_jsx(),
            FnLike::Arrow(arrow) => arrow.has_jsx(),
        }
    }
}

/// The function that an expression is, if it is one. It is not looked for in
/// parentheses, nor in the arguments of a call.
pub fn extract_fn_from_expr(expr: &Expr) -> (r: Option<FnLike<'_>>)
    ensures
        match r {
            Some(component) => is_fn_expr(expr@) && component@ == expr@,
            None => !is_fn_expr(expr@),
        },
{
    match expr {
        Expr::Fn(f) => Some(FnLike::Fn(f)),
        Expr::Arrow(arrow) => Some(FnLike::Arrow(arrow)),
        _ => None,
    }
}

} // verus!

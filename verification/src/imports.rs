//! The import that brings tracking into a program.
use vstd::prelude::*;

use crate::ast::{
    dummy_span, Ident, IdentView, ImportDecl, ImportDeclView, ModuleItem, ModuleItemView,
    RequireDecl, RequireDeclView, ScriptItem, ScriptItemView, Span, Str, StrView,
};

verus! {

pub open spec fn str_lit(value: Seq<char>) -> StrView {
    StrView { span: dummy_span(), value, raw: None }
}

impl Str {
    /// A literal that stands nowhere in the source.
    pub fn from_str(str: &str) -> (r: Str)
        ensures
            r@ == str_lit(str@),
    {
        Str { span: Span { lo: 0, hi: 0 }, value: str.to_owned(), raw: None }
    }
}

/// The name under which a module exports tracking.
pub open spec fn use_signals_ident(ctxt: u32) -> IdentView {
    IdentView { span: dummy_span(), ctxt, sym: "useComponentTracking"@, optional: false }
}

/// The name that tracking has in the program.
pub open spec fn private_use_signals_ident(ctxt: u32) -> IdentView {
    IdentView { span: dummy_span(), ctxt, sym: "_useComponentTracking"@, optional: false }
}

impl Ident {
    /// The name under which a module exports tracking.
    pub fn use_signals(ctxt: u32) -> (r: Ident)
        ensures
            r@ == use_signals_ident(ctxt),
    {
        Ident {
            span: Span { lo: 0, hi: 0 },
            ctxt,
            sym: "useComponentTracking".to_owned(),
            optional: false,
        }
    }

    /// The name that tracking has in the program, in a context of its own.
    pub fn private_use_signals(ctxt: u32) -> (r: Ident)
        ensures
            r@ == private_use_signals_ident(ctxt),
    {
        Ident {
            span: Span { lo: 0, hi: 0 },
            ctxt,
            sym: "_useComponentTracking".to_owned(),
            optional: false,
        }
    }
}

/// `import { imported as ident } from source;`
pub fn add_import(ident: Ident, source: Str, imported: Option<Ident>) -> (r: ImportDecl)
    ensures
        r == (ImportDecl { local: ident, src: source, imported }),
{
    ImportDecl { local: ident, src: source, imported }
}

/// `var { imported: ident } = require(source);`
pub fn add_require(ident: Ident, source: Str, imported: Option<Ident>, ctxt: u32) -> (r: RequireDecl)
    ensures
        r == (RequireDecl { local: ident, src: source, imported, ctxt }),
{
    RequireDecl { local: ident, src: source, imported, ctxt }
}

/// Statements of a module or of a script.
pub trait StmtLike: Sized {
    spec fn spec_is_directive(&self) -> bool;

    /// Whether the statement is a string literal alone, as in `"use strict";`.
    fn is_directive(&self) -> (r: bool)
        ensures
            r == self.spec_is_directive(),
    ;
}

pub open spec fn module_item_is_directive(item: ModuleItemView) -> bool {
    item matches ModuleItemView::Stmt(stmt) && stmt.directive
}

pub open spec fn script_item_is_directive(item: ScriptItemView) -> bool {
    item matches ScriptItemView::Stmt(stmt) && stmt.directive
}

impl StmtLike for ModuleItem {
    open spec fn spec_is_directive(&self) -> bool {
        module_item_is_directive(self@)
    }

    fn is_directive(&self) -> (r: bool) {
        match self {
            ModuleItem::Stmt(stmt) => stmt.directive,
            ModuleItem::ModuleDecl(_) => false,
        }
    }
}

impl StmtLike for ScriptItem {
    open spec fn spec_is_directive(&self) -> bool {
        script_item_is_directive(self@)
    }

    fn is_directive(&self) -> (r: bool) {
        match self {
            ScriptItem::Stmt(stmt) => stmt.directive,
            ScriptItem::Require(_) => false,
        }
    }
}

/// How many statements at the beginning are directives, where `flags` tells of
/// each statement whether it is one.
pub open spec fn leading_directives(flags: Seq<bool>) -> int
    decreases flags.len(),
{
    if flags.len() > 0 && flags[0] {
        1 + leading_directives(flags.drop_first())
    } else {
        0
    }
}

pub open spec fn directive_flags<T: StmtLike>(stmts: Seq<T>) -> Seq<bool> {
    stmts.map_values(|stmt: T| stmt.spec_is_directive())
}

/// The directives come first, and what follows them, if anything does, is none.
pub proof fn leading_directives_are_first(flags: Seq<bool>, k: int)
    requires
        0 <= k <= flags.len(),
        forall|i: int| 0 <= i < k ==> flags[i],
        k < flags.len() ==> !flags[k],
    ensures
        leading_directives(flags) == k,
    decreases flags.len(),
{
    if k > 0 {
        leading_directives_are_first(flags.drop_first(), k - 1);
    }
}

/// What comes before the end of the leading directives is a directive, and what
/// follows is none.
pub proof fn leading_directives_stop(flags: Seq<bool>)
    ensures
        0 <= leading_directives(flags) <= flags.len(),
        forall|i: int| 0 <= i < leading_directives(flags) ==> #[trigger] flags[i],
        leading_directives(flags) < flags.len() ==> !flags[leading_directives(flags)],
    decreases flags.len(),
{
    if flags.len() > 0 && flags[0] {
        let rest = flags.drop_first();
        leading_directives_stop(rest);
        assert forall|i: int| 0 <= i < leading_directives(flags) implies #[trigger] flags[i] by {
            if i > 0 {
                assert(rest[i - 1]);
            }
        }
    }
}

/// Puts `stmt` before the first statement that is no directive.
pub fn prepend_stmt<T: StmtLike>(stmts: &mut Vec<T>, stmt: T)
    ensures
        final(stmts)@ == old(stmts)@.insert(
            leading_directives(directive_flags(old(stmts)@)),
            stmt,
        ),
{
    let mut k: usize = 0;
    while k < stmts.len() && stmts[k].is_directive()
        invariant
            k <= stmts.len(),
            *stmts == *old(stmts),
            forall|i: int| 0 <= i < k ==> #[trigger] directive_flags(stmts@)[i],
        ensures
            k <= stmts.len(),
            *stmts == *old(stmts),
            forall|i: int| 0 <= i < k ==> #[trigger] directive_flags(stmts@)[i],
            k < stmts.len() ==> !directive_flags(stmts@)[k as int],
        decreases stmts.len() - k,
    {
        k += 1;
    }
    proof {
        leading_directives_are_first(directive_flags(stmts@), k as int);
    }
    stmts.insert(k, stmt);
}

/// The items with an import of tracking after the directives.
pub open spec fn with_import(
    items: Seq<ModuleItemView>,
    decl: ImportDeclView,
) -> Seq<ModuleItemView> {
    items.insert(
        leading_directives(items.map_values(|item: ModuleItemView| module_item_is_directive(item))),
        ModuleItemView::ModuleDecl(decl),
    )
}

/// The statements with tracking required after the directives.
pub open spec fn with_require(
    items: Seq<ScriptItemView>,
    decl: RequireDeclView,
) -> Seq<ScriptItemView> {
    items.insert(
        leading_directives(items.map_values(|item: ScriptItemView| script_item_is_directive(item))),
        ScriptItemView::Require(decl),
    )
}

} // verus!

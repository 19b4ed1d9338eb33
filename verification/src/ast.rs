//! The syntax tree that the transform works on.
//!
//! A tree records the parts of a program that decide what is tracked, and the
//! parts that the transform writes. Everything else of the program is left out:
//! where an expression, a pattern or a statement holds syntax of its own, the
//! tree lists the recorded nodes found in it, outermost ones only, in source
//! order.
//!
//! Every type has a view with the same shape, in which texts are sequences of
//! characters and lists are sequences.
use vstd::prelude::*;

verus! {

/// A range of byte positions in the source text.
#[derive(Debug, Clone, Copy, PartialEq, Eq, Structural)]
pub struct Span {
    pub lo: u32,
    pub hi: u32,
}

/// The span of syntax that no source text stands for.
pub open spec fn dummy_span() -> Span {
    Span { lo: 0, hi: 0 }
}

/// An identifier; `ctxt` numbers the hygiene context in which it was made.
#[derive(Debug, PartialEq, Eq)]
pub struct Ident {
    pub span: Span,
    pub ctxt: u32,
    pub sym: String,
    pub optional: bool,
}

pub struct IdentView {
    pub span: Span,
    pub ctxt: u32,
    pub sym: Seq<char>,
    pub optional: bool,
}

/// A string literal; `raw` is its spelling in the source, if it has one.
#[derive(Debug, PartialEq, Eq)]
pub struct Str {
    pub span: Span,
    pub value: String,
    pub raw: Option<String>,
}

pub struct StrView {
    pub span: Span,
    pub value: Seq<char>,
    pub raw: Option<Seq<char>>,
}

/// What a declarator binds.
#[derive(Debug, PartialEq, Eq)]
pub enum Pat {
    Ident(Ident),
    Other,
}

pub enum PatView {
    Ident(IdentView),
    Other,
}

/// The property that a member expression selects.
#[derive(Debug, PartialEq, Eq)]
pub enum MemberProp {
    /// `object.name`
    Ident(Ident),
    /// `object["name"]`
    Str(Str),
    /// `object.#name`, or a property that is computed
    Other,
}

pub enum MemberPropView {
    Ident(IdentView),
    Str(StrView),
    Other,
}

/// The left side of an assignment.
#[derive(Debug, PartialEq, Eq)]
pub enum AssignTarget {
    Ident(Ident),
    Member(MemberProp),
    Other,
}

pub enum AssignTargetView {
    Ident(IdentView),
    Member(MemberPropView),
    Other,
}

/// The key of a property of an object literal.
#[derive(Debug, PartialEq, Eq)]
pub enum PropName {
    /// `name`
    Ident(Ident),
    /// `"name"`
    Str(Str),
    /// `["name"]`, or a key that is computed from anything else
    Computed(Span, Option<Str>),
    /// A numeric key
    Num(Span),
}

pub enum PropNameView {
    Ident(IdentView),
    Str(StrView),
    Computed(Span, Option<StrView>),
    Num(Span),
}

/// A function with its parameters and its body, whatever introduces it.
/// A function that is only declared has no body.
#[derive(Debug, PartialEq, Eq)]
pub struct Function {
    pub span: Span,
    pub params: Vec<Node>,
    pub body: Option<Vec<Stmt>>,
}

pub struct FunctionView {
    pub span: Span,
    pub params: Seq<NodeView>,
    pub body: Option<Seq<StmtView>>,
}

/// `function name() {}`, used as an expression.
#[derive(Debug, PartialEq, Eq)]
pub struct FnExpr {
    pub ident: Option<Ident>,
    pub function: Box<Function>,
}

pub struct FnExprView {
    pub ident: Option<IdentView>,
    pub function: FunctionView,
}

/// The body of an arrow function: a block, or the expression that it returns.
#[derive(Debug, PartialEq, Eq)]
pub enum ArrowBody {
    Block(Vec<Stmt>),
    Expr(Box<Expr>),
}

pub enum ArrowBodyView {
    Block(Seq<StmtView>),
    Expr(Box<ExprView>),
}

/// `() => {}`
#[derive(Debug, PartialEq, Eq)]
pub struct ArrowExpr {
    pub span: Span,
    pub params: Vec<Node>,
    pub body: ArrowBody,
}

pub struct ArrowExprView {
    pub span: Span,
    pub params: Seq<NodeView>,
    pub body: ArrowBodyView,
}

/// An expression.
#[derive(Debug, PartialEq, Eq)]
pub enum Expr {
    Fn(FnExpr),
    Arrow(ArrowExpr),
    Paren(Span, Box<Expr>),
    Other(Span, Vec<Node>),
}

pub enum ExprView {
    Fn(FnExprView),
    Arrow(ArrowExprView),
    Paren(Span, Box<ExprView>),
    Other(Span, Seq<NodeView>),
}

/// A call of a named function with integer arguments.
#[derive(Debug, PartialEq, Eq)]
pub struct CallExpr {
    pub callee: Ident,
    pub args: Vec<u32>,
}

pub struct CallExprView {
    pub callee: IdentView,
    pub args: Seq<u32>,
}

/// A statement of the source program. `directive` tells whether it is a string
/// literal alone, as in `"use strict";`.
#[derive(Debug, PartialEq, Eq)]
pub struct SourceStmt {
    pub directive: bool,
    pub nodes: Vec<Node>,
}

pub struct SourceStmtView {
    pub directive: bool,
    pub nodes: Seq<NodeView>,
}

/// A statement in the body of a function. All but `Source` are written by the
/// transform.
#[derive(Debug, PartialEq, Eq)]
pub enum Stmt {
    Source(SourceStmt),
    /// `var name = callee(args);`
    Var(Ident, CallExpr),
    /// `callee(args);`
    Expr(CallExpr),
    /// `return expr;`
    Return(Expr),
    /// `try { block } finally { finalizer }`
    Try(Vec<Stmt>, Vec<Stmt>),
}

pub enum StmtView {
    Source(SourceStmtView),
    Var(IdentView, CallExprView),
    Expr(CallExprView),
    Return(ExprView),
    Try(Seq<StmtView>, Seq<StmtView>),
}

/// One binding of a variable declaration; `pattern` lists the nodes in what it
/// binds.
#[derive(Debug, PartialEq, Eq)]
pub struct VarDeclarator {
    pub name: Pat,
    pub pattern: Vec<Node>,
    pub init: Option<Expr>,
}

pub struct VarDeclaratorView {
    pub name: PatView,
    pub pattern: Seq<NodeView>,
    pub init: Option<ExprView>,
}

/// `var a = 1, b = 2;`, and the same with `let` and `const`.
#[derive(Debug, PartialEq, Eq)]
pub struct VarDecl {
    pub span: Span,
    pub decls: Vec<VarDeclarator>,
}

pub struct VarDeclView {
    pub span: Span,
    pub decls: Seq<VarDeclaratorView>,
}

/// `function name() {}`, used as a statement.
#[derive(Debug, PartialEq, Eq)]
pub struct FnDecl {
    pub ident: Ident,
    pub function: Box<Function>,
}

pub struct FnDeclView {
    pub ident: IdentView,
    pub function: FunctionView,
}

/// `left = right`; `target` lists the nodes in the left side.
#[derive(Debug, PartialEq, Eq)]
pub struct AssignExpr {
    pub span: Span,
    pub left: AssignTarget,
    pub target: Vec<Node>,
    pub right: Expr,
}

pub struct AssignExprView {
    pub span: Span,
    pub left: AssignTargetView,
    pub target: Seq<NodeView>,
    pub right: ExprView,
}

/// `key: value`; `computed` lists the nodes in the key.
#[derive(Debug, PartialEq, Eq)]
pub struct KeyValueProp {
    pub key: PropName,
    pub computed: Vec<Node>,
    pub value: Expr,
}

pub struct KeyValuePropView {
    pub key: PropNameView,
    pub computed: Seq<NodeView>,
    pub value: ExprView,
}

/// `key() {}`; `computed` lists the nodes in the key.
#[derive(Debug, PartialEq, Eq)]
pub struct MethodProp {
    pub key: PropName,
    pub computed: Vec<Node>,
    pub function: Box<Function>,
}

pub struct MethodPropView {
    pub key: PropNameView,
    pub computed: Seq<NodeView>,
    pub function: FunctionView,
}

/// What an export declares.
#[derive(Debug, PartialEq, Eq)]
pub enum Decl {
    Var(VarDecl),
    Fn(FnDecl),
    Other(Vec<Node>),
}

pub enum DeclView {
    Var(VarDeclView),
    Fn(FnDeclView),
    Other(Seq<NodeView>),
}

/// `export const a = 1;`, `export function a() {}` and the like.
#[derive(Debug, PartialEq, Eq)]
pub struct ExportDecl {
    pub span: Span,
    pub decl: Decl,
}

pub struct ExportDeclView {
    pub span: Span,
    pub decl: DeclView,
}

/// What a default export declares.
#[derive(Debug, PartialEq, Eq)]
pub enum DefaultDecl {
    Fn(FnExpr),
    Other(Vec<Node>),
}

pub enum DefaultDeclView {
    Fn(FnExprView),
    Other(Seq<NodeView>),
}

/// `export default function () {}` and the like.
#[derive(Debug, PartialEq, Eq)]
pub struct ExportDefaultDecl {
    pub span: Span,
    pub decl: DefaultDecl,
}

pub struct ExportDefaultDeclView {
    pub span: Span,
    pub decl: DefaultDeclView,
}

/// `export default expr;`
#[derive(Debug, PartialEq, Eq)]
pub struct ExportDefaultExpr {
    pub span: Span,
    pub expr: Expr,
}

pub struct ExportDefaultExprView {
    pub span: Span,
    pub expr: ExprView,
}

/// A recorded node of the program.
#[derive(Debug, PartialEq, Eq)]
pub enum Node {
    VarDecl(VarDecl),
    FnDecl(FnDecl),
    AssignExpr(AssignExpr),
    KeyValueProp(KeyValueProp),
    MethodProp(MethodProp),
    ExportDecl(ExportDecl),
    ExportDefaultDecl(ExportDefaultDecl),
    ExportDefaultExpr(ExportDefaultExpr),
    /// A JSX element or fragment, with the nodes in its attributes and children
    Jsx(Vec<Node>),
}

pub enum NodeView {
    VarDecl(VarDeclView),
    FnDecl(FnDeclView),
    AssignExpr(AssignExprView),
    KeyValueProp(KeyValuePropView),
    MethodProp(MethodPropView),
    ExportDecl(ExportDeclView),
    ExportDefaultDecl(ExportDefaultDeclView),
    ExportDefaultExpr(ExportDefaultExprView),
    Jsx(Seq<NodeView>),
}

/// `import { imported as local } from src;`
#[derive(Debug, PartialEq, Eq)]
pub struct ImportDecl {
    pub local: Ident,
    pub src: Str,
    pub imported: Option<Ident>,
}

pub struct ImportDeclView {
    pub local: IdentView,
    pub src: StrView,
    pub imported: Option<IdentView>,
}

/// `var { imported: local } = require(src);`, where `require` is looked up in
/// the context `ctxt`.
#[derive(Debug, PartialEq, Eq)]
pub struct RequireDecl {
    pub local: Ident,
    pub src: Str,
    pub imported: Option<Ident>,
    pub ctxt: u32,
}

pub struct RequireDeclView {
    pub local: IdentView,
    pub src: StrView,
    pub imported: Option<IdentView>,
    pub ctxt: u32,
}

/// An item of a module. Imports other than the one that the transform writes
/// are statements of the source.
#[derive(Debug, PartialEq, Eq)]
pub enum ModuleItem {
    Stmt(SourceStmt),
    ModuleDecl(ImportDecl),
}

pub enum ModuleItemView {
    Stmt(SourceStmtView),
    ModuleDecl(ImportDeclView),
}

/// A statement of a script.
#[derive(Debug, PartialEq, Eq)]
pub enum ScriptItem {
    Stmt(SourceStmt),
    Require(RequireDecl),
}

pub enum ScriptItemView {
    Stmt(SourceStmtView),
    Require(RequireDeclView),
}

#[derive(Debug, PartialEq, Eq)]
pub struct Module {
    pub body: Vec<ModuleItem>,
}

pub struct ModuleView {
    pub body: Seq<ModuleItemView>,
}

#[derive(Debug, PartialEq, Eq)]
pub struct Script {
    pub body: Vec<ScriptItem>,
}

pub struct ScriptView {
    pub body: Seq<ScriptItemView>,
}

/// A whole program.
#[derive(Debug, PartialEq, Eq)]
pub enum Program {
    Module(Module),
    Script(Script),
}

pub enum ProgramView {
    Module(ModuleView),
    Script(ScriptView),
}

impl Clone for Ident {
    fn clone(&self) -> (r: Ident)
        ensures
            r@ == self@,
    {
        Ident {
            span: self.span,
            ctxt: self.ctxt,
            sym: self.sym.clone(),
            optional: self.optional,
        }
    }
}

impl Clone for Str {
    fn clone(&self) -> (r: Str)
        ensures
            r@ == self@,
    {
        Str {
            span: self.span,
            value: self.value.clone(),
            raw: match &self.raw {
                Some(raw) => Some(raw.clone()),
                None => None,
            },
        }
    }
}

impl Ident {
    pub open spec fn view(&self) -> IdentView {
        IdentView { span: self.span, ctxt: self.ctxt, sym: self.sym@, optional: self.optional }
    }
}

impl Str {
    pub open spec fn view(&self) -> StrView {
        StrView {
            span: self.span,
            value: self.value@,
            raw: match self.raw {
                Some(raw) => Some(raw@),
                None => None,
            },
        }
    }
}

impl Pat {
    pub open spec fn view(&self) -> PatView {
        match self {
            Pat::Ident(ident) => PatView::Ident(ident@),
            Pat::Other => PatView::Other,
        }
    }
}

impl MemberProp {
    pub open spec fn view(&self) -> MemberPropView {
        match self {
            MemberProp::Ident(ident) => MemberPropView::Ident(ident@),
            MemberProp::Str(lit) => MemberPropView::Str(lit@),
            MemberProp::Other => MemberPropView::Other,
        }
    }
}

impl AssignTarget {
    pub open spec fn view(&self) -> AssignTargetView {
        match self {
            AssignTarget::Ident(ident) => AssignTargetView::Ident(ident@),
            AssignTarget::Member(prop) => AssignTargetView::Member(prop@),
            AssignTarget::Other => AssignTargetView::Other,
        }
    }
}

impl PropName {
    pub open spec fn view(&self) -> PropNameView {
        match self {
            PropName::Ident(ident) => PropNameView::Ident(ident@),
            PropName::Str(lit) => PropNameView::Str(lit@),
            PropName::Computed(span, lit) => PropNameView::Computed(
                *span,
                match lit {
                    Some(lit) => Some(lit@),
                    None => None,
                },
            ),
            PropName::Num(span) => PropNameView::Num(*span),
        }
    }
}

impl CallExpr {
    pub open spec fn view(&self) -> CallExprView {
        CallExprView { callee: self.callee@, args: self.args@ }
    }
}

pub open spec fn option_ident(ident: Option<Ident>) -> Option<IdentView> {
    match ident {
        Some(ident) => Some(ident@),
        None => None,
    }
}

pub open spec fn nodes_view(nodes: Seq<Node>) -> Seq<NodeView>
    decreases nodes,
{
    Seq::new(
        nodes.len(),
        |i: int|
            if 0 <= i < nodes.len() {
                nodes[i].view()
            } else {
                arbitrary()
            },
    )
}

pub open spec fn stmts_view(stmts: Seq<Stmt>) -> Seq<StmtView>
    decreases stmts,
{
    Seq::new(
        stmts.len(),
        |i: int|
            if 0 <= i < stmts.len() {
                stmts[i].view()
            } else {
                arbitrary()
            },
    )
}

pub open spec fn decls_view(decls: Seq<VarDeclarator>) -> Seq<VarDeclaratorView>
    decreases decls,
{
    Seq::new(
        decls.len(),
        |i: int|
            if 0 <= i < decls.len() {
                decls[i].view()
            } else {
                arbitrary()
            },
    )
}

impl Function {
    pub open spec fn view(&self) -> FunctionView
        decreases self,
    {
        FunctionView {
            span: self.span,
            params: nodes_view(self.params@),
            body: match self.body {
                Some(stmts) => Some(stmts_view(stmts@)),
                None => None,
            },
        }
    }
}

impl FnExpr {
    pub open spec fn view(&self) -> FnExprView
        decreases self,
    {
        FnExprView { ident: option_ident(self.ident), function: self.function.view() }
    }
}

impl ArrowBody {
    pub open spec fn view(&self) -> ArrowBodyView
        decreases self,
    {
        match self {
            ArrowBody::Block(stmts) => ArrowBodyView::Block(stmts_view(stmts@)),
            ArrowBody::Expr(expr) => ArrowBodyView::Expr(Box::new(expr.view())),
        }
    }
}

impl ArrowExpr {
    pub open spec fn view(&self) -> ArrowExprView
        decreases self,
    {
        ArrowExprView {
            span: self.span,
            params: nodes_view(self.params@),
            body: self.body.view(),
        }
    }
}

impl Expr {
    pub open spec fn view(&self) -> ExprView
        decreases self,
    {
        match self {
            Expr::Fn(f) => ExprView::Fn(f.view()),
            Expr::Arrow(arrow) => ExprView::Arrow(arrow.view()),
            Expr::Paren(span, expr) => ExprView::Paren(*span, Box::new(expr.view())),
            Expr::Other(span, nodes) => ExprView::Other(*span, nodes_view(nodes@)),
        }
    }
}

impl SourceStmt {
    pub open spec fn view(&self) -> SourceStmtView
        decreases self,
    {
        SourceStmtView { directive: self.directive, nodes: nodes_view(self.nodes@) }
    }
}

impl Stmt {
    pub open spec fn view(&self) -> StmtView
        decreases self,
    {
        match self {
            Stmt::Source(stmt) => StmtView::Source(stmt.view()),
            Stmt::Var(name, init) => StmtView::Var(name@, init@),
            Stmt::Expr(call) => StmtView::Expr(call@),
            Stmt::Return(expr) => StmtView::Return(expr.view()),
            Stmt::Try(block, finalizer) => StmtView::Try(
                stmts_view(block@),
                stmts_view(finalizer@),
            ),
        }
    }
}

impl VarDeclarator {
    pub open spec fn view(&self) -> VarDeclaratorView
        decreases self,
    {
        VarDeclaratorView {
            name: self.name@,
            pattern: nodes_view(self.pattern@),
            init: match self.init {
                Some(init) => Some(init.view()),
                None => None,
            },
        }
    }
}

impl VarDecl {
    pub open spec fn view(&self) -> VarDeclView
        decreases self,
    {
        VarDeclView { span: self.span, decls: decls_view(self.decls@) }
    }
}

impl FnDecl {
    pub open spec fn view(&self) -> FnDeclView
        decreases self,
    {
        FnDeclView { ident: self.ident@, function: self.function.view() }
    }
}

impl AssignExpr {
    pub open spec fn view(&self) -> AssignExprView
        decreases self,
    {
        AssignExprView {
            span: self.span,
            left: self.left@,
            target: nodes_view(self.target@),
            right: self.right.view(),
        }
    }
}

impl KeyValueProp {
    pub open spec fn view(&self) -> KeyValuePropView
        decreases self,
    {
        KeyValuePropView {
            key: self.key@,
            computed: nodes_view(self.computed@),
            value: self.value.view(),
        }
    }
}

impl MethodProp {
    pub open spec fn view(&self) -> MethodPropView
        decreases self,
    {
        MethodPropView {
            key: self.key@,
            computed: nodes_view(self.computed@),
            function: self.function.view(),
        }
    }
}

impl Decl {
    pub open spec fn view(&self) -> DeclView
        decreases self,
    {
        match self {
            Decl::Var(var_decl) => DeclView::Var(var_decl.view()),
            Decl::Fn(fn_decl) => DeclView::Fn(fn_decl.view()),
            Decl::Other(nodes) => DeclView::Other(nodes_view(nodes@)),
        }
    }
}

impl ExportDecl {
    pub open spec fn view(&self) -> ExportDeclView
        decreases self,
    {
        ExportDeclView { span: self.span, decl: self.decl.view() }
    }
}

impl DefaultDecl {
    pub open spec fn view(&self) -> DefaultDeclView
        decreases self,
    {
        match self {
            DefaultDecl::Fn(f) => DefaultDeclView::Fn(f.view()),
            DefaultDecl::Other(nodes) => DefaultDeclView::Other(nodes_view(nodes@)),
        }
    }
}

impl ExportDefaultDecl {
    pub open spec fn view(&self) -> ExportDefaultDeclView
        decreases self,
    {
        ExportDefaultDeclView { span: self.span, decl: self.decl.view() }
    }
}

impl ExportDefaultExpr {
    pub open spec fn view(&self) -> ExportDefaultExprView
        decreases self,
    {
        ExportDefaultExprView { span: self.span, expr: self.expr.view() }
    }
}

impl Node {
    pub open spec fn view(&self) -> NodeView
        decreases self,
    {
        match self {
            Node::VarDecl(n) => NodeView::VarDecl(n.view()),
            Node::FnDecl(n) => NodeView::FnDecl(n.view()),
            Node::AssignExpr(n) => NodeView::AssignExpr(n.view()),
            Node::KeyValueProp(n) => NodeView::KeyValueProp(n.view()),
            Node::MethodProp(n) => NodeView::MethodProp(n.view()),
            Node::ExportDecl(n) => NodeView::ExportDecl(n.view()),
            Node::ExportDefaultDecl(n) => NodeView::ExportDefaultDecl(n.view()),
            Node::ExportDefaultExpr(n) => NodeView::ExportDefaultExpr(n.view()),
            Node::Jsx(nodes) => NodeView::Jsx(nodes_view(nodes@)),
        }
    }
}

impl ImportDecl {
    pub open spec fn view(&self) -> ImportDeclView {
        ImportDeclView {
            local: self.local@,
            src: self.src@,
            imported: option_ident(self.imported),
        }
    }
}

impl RequireDecl {
    pub open spec fn view(&self) -> RequireDeclView {
        RequireDeclView {
            local: self.local@,
            src: self.src@,
            imported: option_ident(self.imported),
            ctxt: self.ctxt,
        }
    }
}

impl ModuleItem {
    pub open spec fn view(&self) -> ModuleItemView {
        match self {
            ModuleItem::Stmt(stmt) => ModuleItemView::Stmt(stmt@),
            ModuleItem::ModuleDecl(decl) => ModuleItemView::ModuleDecl(decl@),
        }
    }
}

impl ScriptItem {
    pub open spec fn view(&self) -> ScriptItemView {
        match self {
            ScriptItem::Stmt(stmt) => ScriptItemView::Stmt(stmt@),
            ScriptItem::Require(decl) => ScriptItemView::Require(decl@),
        }
    }
}

pub open spec fn module_items_view(items: Seq<ModuleItem>) -> Seq<ModuleItemView> {
    items.map_values(|item: ModuleItem| item@)
}

pub open spec fn script_items_view(items: Seq<ScriptItem>) -> Seq<ScriptItemView> {
    items.map_values(|item: ScriptItem| item@)
}

impl Module {
    pub open spec fn view(&self) -> ModuleView {
        ModuleView { body: module_items_view(self.body@) }
    }
}

impl Script {
    pub open spec fn view(&self) -> ScriptView {
        ScriptView { body: script_items_view(self.body@) }
    }
}

impl Program {
    pub open spec fn view(&self) -> ProgramView {
        match self {
            Program::Module(module) => ProgramView::Module(module@),
            Program::Script(script) => ProgramView::Script(script@),
        }
    }
}

} // verus!

//! Views leave nothing out.
use vstd::prelude::*;

use crate::ast::{
    decls_view, module_items_view, nodes_view, option_ident, script_items_view, stmts_view,
    ArrowBody, ArrowExpr, AssignExpr, AssignTarget, CallExpr, Decl, DefaultDecl, ExportDecl,
    ExportDefaultDecl, ExportDefaultExpr, Expr, FnDecl, FnExpr, Function, Ident, ImportDecl,
    KeyValueProp, MemberProp, MethodProp, Module, ModuleItem, Node, Pat, Program, PropName,
    RequireDecl, Script, ScriptItem, SourceStmt, Stmt, Str, VarDecl, VarDeclarator,
};
use crate::comments::Comment;
use crate::expr::FnLike;
use crate::options::PreactSignalsPluginOptions;
use crate::visitor::SignalsTransformVisitor;

verus! {

/// Lists are seen item by item, in order.
pub proof fn lists_are_seen_whole(
    nodes: Seq<Node>,
    stmts: Seq<Stmt>,
    decls: Seq<VarDeclarator>,
    module_items: Seq<ModuleItem>,
    script_items: Seq<ScriptItem>,
)
    ensures
        nodes_view(nodes).len() == nodes.len(),
        forall|i: int| 0 <= i < nodes.len() ==> #[trigger] nodes_view(nodes)[i] == nodes[i]@,
        stmts_view(stmts).len() == stmts.len(),
        forall|i: int| 0 <= i < stmts.len() ==> #[trigger] stmts_view(stmts)[i] == stmts[i]@,
        decls_view(decls).len() == decls.len(),
        forall|i: int| 0 <= i < decls.len() ==> #[trigger] decls_view(decls)[i] == decls[i]@,
        module_items_view(module_items).len() == module_items.len(),
        forall|i: int|
            0 <= i < module_items.len() ==> #[trigger] module_items_view(module_items)[i]
                == module_items[i]@,
        script_items_view(script_items).len() == script_items.len(),
        forall|i: int|
            0 <= i < script_items.len() ==> #[trigger] script_items_view(script_items)[i]
                == script_items[i]@,
{
}

/// Names, literals, calls and comments are seen with every field.
pub proof fn words_are_seen_whole(ident: Ident, lit: Str, call: CallExpr, comment: Comment)
    ensures
        ident@.span == ident.span,
        ident@.ctxt == ident.ctxt,
        ident@.sym == ident.sym@,
        ident@.optional == ident.optional,
        option_ident(Some(ident)) == Some(ident@),
        option_ident(None) is None,
        lit@.span == lit.span,
        lit@.value == lit.value@,
        match lit.raw {
            Some(raw) => lit@.raw == Some(raw@),
            None => lit@.raw is None,
        },
        call@.callee == call.callee@,
        call@.args == call.args@,
        comment@.kind == comment.kind,
        comment@.text == comment.text@,
{
}

/// Patterns, targets and keys are seen with every field.
pub proof fn bearers_of_names_are_seen_whole(
    pat: Pat,
    member: MemberProp,
    target: AssignTarget,
    key: PropName,
)
    ensures
        match pat {
            Pat::Ident(ident) => pat@ is Ident && pat@->Ident_0 == ident@,
            Pat::Other => pat@ is Other,
        },
        match member {
            MemberProp::Ident(ident) => member@ is Ident && member@->Ident_0 == ident@,
            MemberProp::Str(lit) => member@ is Str && member@->Str_0 == lit@,
            MemberProp::Other => member@ is Other,
        },
        match target {
            AssignTarget::Ident(ident) => target@ is Ident && target@->Ident_0 == ident@,
            AssignTarget::Member(member) => target@ is Member && target@->Member_0 == member@,
            AssignTarget::Other => target@ is Other,
        },
        match key {
            PropName::Ident(ident) => key@ is Ident && key@->Ident_0 == ident@,
            PropName::Str(lit) => key@ is Str && key@->Str_0 == lit@,
            PropName::Computed(span, lit) => {
                &&& key@ is Computed
                &&& key@->Computed_0 == span
                &&& match lit {
                    Some(lit) => key@->Computed_1 == Some(lit@),
                    None => key@->Computed_1 is None,
                }
            },
            PropName::Num(span) => key@ is Num && key@->Num_0 == span,
        },
{
}

/// Functions and expressions are seen with every field.
pub proof fn functions_are_seen_whole(
    function: Function,
    fn_expr: FnExpr,
    body: ArrowBody,
    arrow: ArrowExpr,
    expr: Expr,
    like: FnLike<'_>,
)
    ensures
        function@.span == function.span,
        function@.params == nodes_view(function.params@),
        match function.body {
            Some(stmts) => function@.body == Some(stmts_view(stmts@)),
            None => function@.body is None,
        },
        fn_expr@.ident == option_ident(fn_expr.ident),
        fn_expr@.function == fn_expr.function@,
        match body {
            ArrowBody::Block(stmts) => body@ is Block && body@->Block_0 == stmts_view(stmts@),
            ArrowBody::Expr(expr) => body@ is Expr && *body@->Expr_0 == expr@,
        },
        arrow@.span == arrow.span,
        arrow@.params == nodes_view(arrow.params@),
        arrow@.body == arrow.body@,
        match expr {
            Expr::Fn(f) => expr@ is Fn && expr@->Fn_0 == f@,
            Expr::Arrow(arrow) => expr@ is Arrow && expr@->Arrow_0 == arrow@,
            Expr::Paren(span, inner) => expr@ is Paren && expr@->Paren_0 == span && *expr@->Paren_1
                == inner@,
            Expr::Other(span, nodes) => expr@ is Other && expr@->Other_0 == span && expr@->Other_1
                == nodes_view(nodes@),
        },
        match like {
            FnLike::Fn(f) => like@ is Fn && like@->Fn_0 == f@,
            FnLike::Arrow(arrow) => like@ is Arrow && like@->Arrow_0 == arrow@,
        },
{
    reveal_with_fuel(Function::view, 2);
    reveal_with_fuel(FnExpr::view, 2);
    reveal_with_fuel(ArrowBody::view, 2);
    reveal_with_fuel(ArrowExpr::view, 2);
    reveal_with_fuel(Expr::view, 2);
}

/// Statements and declarations are seen with every field.
pub proof fn statements_are_seen_whole(
    source: SourceStmt,
    stmt: Stmt,
    declarator: VarDeclarator,
    var_decl: VarDecl,
    fn_decl: FnDecl,
    decl: Decl,
    default_decl: DefaultDecl,
)
    ensures
        source@.directive == source.directive,
        source@.nodes == nodes_view(source.nodes@),
        match stmt {
            Stmt::Source(source) => stmt@ is Source && stmt@->Source_0 == source@,
            Stmt::Var(name, init) => stmt@ is Var && stmt@->Var_0 == name@ && stmt@->Var_1 == init@,
            Stmt::Expr(call) => stmt@ is Expr && stmt@->Expr_0 == call@,
            Stmt::Return(expr) => stmt@ is Return && stmt@->Return_0 == expr@,
            Stmt::Try(block, finalizer) => stmt@ is Try && stmt@->Try_0 == stmts_view(block@)
                && stmt@->Try_1 == stmts_view(finalizer@),
        },
        declarator@.name == declarator.name@,
        declarator@.pattern == nodes_view(declarator.pattern@),
        match declarator.init {
            Some(init) => declarator@.init == Some(init@),
            None => declarator@.init is None,
        },
        var_decl@.span == var_decl.span,
        var_decl@.decls == decls_view(var_decl.decls@),
        fn_decl@.ident == fn_decl.ident@,
        fn_decl@.function == fn_decl.function@,
        match decl {
            Decl::Var(v) => decl@ is Var && decl@->Var_0 == v@,
            Decl::Fn(f) => decl@ is Fn && decl@->Fn_0 == f@,
            Decl::Other(nodes) => decl@ is Other && decl@->Other_0 == nodes_view(nodes@),
        },
        match default_decl {
            DefaultDecl::Fn(f) => default_decl@ is Fn && default_decl@->Fn_0 == f@,
            DefaultDecl::Other(nodes) => default_decl@ is Other && default_decl@->Other_0
                == nodes_view(nodes@),
        },
{
    reveal_with_fuel(SourceStmt::view, 2);
    reveal_with_fuel(Stmt::view, 2);
    reveal_with_fuel(VarDeclarator::view, 2);
    reveal_with_fuel(VarDecl::view, 2);
    reveal_with_fuel(FnDecl::view, 2);
    reveal_with_fuel(Decl::view, 2);
    reveal_with_fuel(DefaultDecl::view, 2);
}

/// Nodes are seen with every field.
pub proof fn nodes_are_seen_whole(
    assign: AssignExpr,
    prop: KeyValueProp,
    method: MethodProp,
    export: ExportDecl,
    default_decl: ExportDefaultDecl,
    default_expr: ExportDefaultExpr,
    node: Node,
)
    ensures
        assign@.span == assign.span,
        assign@.left == assign.left@,
        assign@.target == nodes_view(assign.target@),
        assign@.right == assign.right@,
        prop@.key == prop.key@,
        prop@.computed == nodes_view(prop.computed@),
        prop@.value == prop.value@,
        method@.key == method.key@,
        method@.computed == nodes_view(method.computed@),
        method@.function == method.function@,
        export@.span == export.span,
        export@.decl == export.decl@,
        default_decl@.span == default_decl.span,
        default_decl@.decl == default_decl.decl@,
        default_expr@.span == default_expr.span,
        default_expr@.expr == default_expr.expr@,
        match node {
            Node::VarDecl(n) => node@ is VarDecl && node@->VarDecl_0 == n@,
            Node::FnDecl(n) => node@ is FnDecl && node@->FnDecl_0 == n@,
            Node::AssignExpr(n) => node@ is AssignExpr && node@->AssignExpr_0 == n@,
            Node::KeyValueProp(n) => node@ is KeyValueProp && node@->KeyValueProp_0 == n@,
            Node::MethodProp(n) => node@ is MethodProp && node@->MethodProp_0 == n@,
            Node::ExportDecl(n) => node@ is ExportDecl && node@->ExportDecl_0 == n@,
            Node::ExportDefaultDecl(n) => node@ is ExportDefaultDecl && node@->ExportDefaultDecl_0
                == n@,
            Node::ExportDefaultExpr(n) => node@ is ExportDefaultExpr && node@->ExportDefaultExpr_0
                == n@,
            Node::Jsx(nodes) => node@ is Jsx && node@->Jsx_0 == nodes_view(nodes@),
        },
{
    reveal_with_fuel(AssignExpr::view, 2);
    reveal_with_fuel(KeyValueProp::view, 2);
    reveal_with_fuel(MethodProp::view, 2);
    reveal_with_fuel(ExportDecl::view, 2);
    reveal_with_fuel(ExportDefaultDecl::view, 2);
    reveal_with_fuel(ExportDefaultExpr::view, 2);
    reveal_with_fuel(Node::view, 2);
}

/// Programs are seen with every field.
pub proof fn programs_are_seen_whole(
    import: ImportDecl,
    require: RequireDecl,
    module_item: ModuleItem,
    script_item: ScriptItem,
    module: Module,
    script: Script,
    program: Program,
)
    ensures
        import@.local == import.local@,
        import@.src == import.src@,
        import@.imported == option_ident(import.imported),
        require@.local == require.local@,
        require@.src == require.src@,
        require@.imported == option_ident(require.imported),
        require@.ctxt == require.ctxt,
        match module_item {
            ModuleItem::Stmt(stmt) => module_item@ is Stmt && module_item@->Stmt_0 == stmt@,
            ModuleItem::ModuleDecl(decl) => module_item@ is ModuleDecl
                && module_item@->ModuleDecl_0 == decl@,
        },
        match script_item {
            ScriptItem::Stmt(stmt) => script_item@ is Stmt && script_item@->Stmt_0 == stmt@,
            ScriptItem::Require(decl) => script_item@ is Require && script_item@->Require_0
                == decl@,
        },
        module@.body == module_items_view(module.body@),
        script@.body == script_items_view(script.body@),
        match program {
            Program::Module(module) => program@ is Module && program@->Module_0 == module@,
            Program::Script(script) => program@ is Script && program@->Script_0 == script@,
        },
{
}

/// Options and visitors are seen with every field.
pub proof fn visitors_are_seen_whole(
    options: PreactSignalsPluginOptions,
    visitor: SignalsTransformVisitor,
)
    ensures
        options@.mode == options.mode,
        options@.import_source == options.import_source@,
        options@.add_hook_usage_flag == options.experimental.add_hook_usage_flag,
        visitor@.policy.comments == visitor.comments@,
        visitor@.policy.mode == visitor.mode,
        visitor@.policy.ignore_span == visitor.ignore_span,
        visitor@.policy.file_trackable_name == visitor.file_trackable_name,
        visitor@.policy.add_context_to_hooks == visitor.add_context_to_hooks,
        visitor@.import_use_signals == option_ident(visitor.import_use_signals),
        visitor@.use_signals_import_source == visitor.use_signals_import_source@,
        visitor@.depth == visitor.depth,
        visitor@.private_ctxt == visitor.private_ctxt,
{
}

} // verus!

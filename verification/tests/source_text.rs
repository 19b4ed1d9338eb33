//! Runs the transform on source text, which is parsed, read into a tree,
//! transformed, written back and printed.
use signals_transform::names::Trackable;
use signals_transform::options::{PreactSignalsPluginExperimental, PreactSignalsPluginOptions};
use signals_transform::ast as tree;
use signals_transform::comments as notes;
use signals_transform::transform::transform_program;
use swc_core::{
    common::{
        comments::{CommentKind, Comments, SingleThreadedComments},
        sync::Lrc,
        util::take::Take,
        BytePos, FileName, Globals, Mark, SourceMap, Span, Spanned, SyntaxContext, DUMMY_SP,
        GLOBALS,
    },
    ecma::{
        ast::{
            ArrowExpr, ArrowFunctionBody, AssignExpr, AssignTarget, BindingIdent, BlockStmt,
            CallExpr, Callee, Decl, DefaultDecl, EsVersion, ExportDecl, ExportDefaultDecl,
            ExportDefaultExpr, Expr, ExprOrSpread, ExprStmt, FnDecl, FnExpr, Function,
            FunctionBody, Ident, IdentName, ImportDecl, ImportDefaultSpecifier,
            ImportNamedSpecifier, ImportSpecifier, JSXElement, JSXFragment, KeyValuePatProp,
            KeyValueProp, Lit, MemberProp, MethodProp, ModuleDecl, ModuleExportName, Number,
            ObjectPat, ObjectPatProp, Pat, Program, PropName, ReturnStmt, SimpleAssignTarget,
            Stmt, Str, TryStmt, VarDecl, VarDeclKind, VarDeclarator,
        },
        codegen::{text_writer::JsWriter, Config, Emitter},
        parser::{parse_file_as_module, parse_file_as_script, EsSyntax, Syntax},
        utils::is_maybe_branch_directive,
        visit::{Visit, VisitMut, VisitMutWith, VisitWith},
    },
};

/// Collects the recorded nodes of what it visits, and the comments before them.
pub struct Outline<'a, C: Comments> {
    comments: &'a C,
    notes: notes::Comments,
    nodes: Vec<tree::Node>,
}

/// The tree of a program, and the comments that stand before its nodes.
pub fn outline<C: Comments>(program: &Program, comments: &C) -> (tree::Program, notes::Comments) {
    let mut outline = Outline {
        comments,
        notes: notes::Comments::new(),
        nodes: Vec::new(),
    };
    let program = match program {
        Program::Module(module) => tree::Program::Module(tree::Module {
            body: module
                .body
                .iter()
                .map(|item| {
                    tree::ModuleItem::Stmt(tree::SourceStmt {
                        directive: item.as_stmt().is_some_and(is_maybe_branch_directive),
                        nodes: outline.nodes_in(item),
                    })
                })
                .collect(),
        }),
        Program::Script(script) => tree::Program::Script(tree::Script {
            body: script
                .body
                .iter()
                .map(|stmt| tree::ScriptItem::Stmt(outline.source_stmt(stmt)))
                .collect(),
        }),
    };
    (program, outline.notes)
}

fn ident(ident: &Ident) -> tree::Ident {
    tree::Ident {
        span: span(ident.span),
        ctxt: ident.ctxt.as_u32(),
        sym: ident.sym.to_string(),
        optional: ident.optional,
    }
}

fn ident_name(name: &IdentName) -> tree::Ident {
    tree::Ident {
        span: span(name.span),
        ctxt: 0,
        sym: name.sym.to_string(),
        optional: false,
    }
}

fn str_lit(lit: &Str) -> tree::Str {
    tree::Str {
        span: span(lit.span),
        value: lit.value.to_string_lossy().into_owned(),
        raw: lit.raw.as_ref().map(|raw| raw.to_string()),
    }
}

fn span(span: Span) -> tree::Span {
    tree::Span {
        lo: span.lo.0,
        hi: span.hi.0,
    }
}

fn as_str_lit(expr: &Expr) -> Option<tree::Str> {
    match expr {
        Expr::Lit(Lit::Str(lit)) => Some(str_lit(lit)),
        _ => None,
    }
}

fn target(target: &AssignTarget) -> tree::AssignTarget {
    match target {
        AssignTarget::Simple(SimpleAssignTarget::Ident(name)) => {
            tree::AssignTarget::Ident(ident(&name.id))
        }
        AssignTarget::Simple(SimpleAssignTarget::Member(member)) => {
            tree::AssignTarget::Member(match &member.prop {
                MemberProp::Ident(name) => tree::MemberProp::Ident(ident_name(name)),
                MemberProp::Computed(computed) => match as_str_lit(&computed.expr) {
                    Some(lit) => tree::MemberProp::Str(lit),
                    None => tree::MemberProp::Other,
                },
                MemberProp::PrivateName(_) => tree::MemberProp::Other,
            })
        }
        _ => tree::AssignTarget::Other,
    }
}

impl<C: Comments> Outline<'_, C> {
    /// A span before which the comments matter.
    fn noted(&mut self, at: Span) -> tree::Span {
        if let Some(leading) = self.comments.get_leading(at.lo) {
            let leading = leading
                .iter()
                .map(|comment| notes::Comment {
                    kind: match comment.kind {
                        CommentKind::Line => notes::CommentKind::Line,
                        CommentKind::Block => notes::CommentKind::Block,
                    },
                    text: comment.text.to_string(),
                })
                .collect();
            self.notes.set_leading(at.lo.0, leading);
        }
        span(at)
    }

    fn nodes_in<N: VisitWith<Self>>(&mut self, n: &N) -> Vec<tree::Node> {
        let outer = std::mem::take(&mut self.nodes);
        n.visit_with(self);
        std::mem::replace(&mut self.nodes, outer)
    }

    fn nodes_under<N: VisitWith<Self>>(&mut self, n: &N) -> Vec<tree::Node> {
        let outer = std::mem::take(&mut self.nodes);
        n.visit_children_with(self);
        std::mem::replace(&mut self.nodes, outer)
    }

    fn source_stmt(&mut self, stmt: &Stmt) -> tree::SourceStmt {
        tree::SourceStmt {
            directive: is_maybe_branch_directive(stmt),
            nodes: self.nodes_in(stmt),
        }
    }

    fn stmts(&mut self, stmts: &[Stmt]) -> Vec<tree::Stmt> {
        stmts
            .iter()
            .map(|stmt| tree::Stmt::Source(self.source_stmt(stmt)))
            .collect()
    }

    fn function(&mut self, f: &Function) -> tree::Function {
        let mut params = self.nodes_in(&f.params);
        params.extend(self.nodes_in(&f.decorators));
        tree::Function {
            span: self.noted(f.span),
            params,
            body: f.body.as_ref().map(|body| self.stmts(&body.stmts)),
        }
    }

    fn fn_expr(&mut self, f: &FnExpr) -> tree::FnExpr {
        tree::FnExpr {
            ident: f.ident.as_ref().map(ident),
            function: Box::new(self.function(&f.function)),
        }
    }

    fn fn_decl(&mut self, f: &FnDecl) -> tree::FnDecl {
        tree::FnDecl {
            ident: ident(&f.ident),
            function: Box::new(self.function(&f.function)),
        }
    }

    fn expr(&mut self, expr: &Expr) -> tree::Expr {
        match expr {
            Expr::Fn(f) => tree::Expr::Fn(self.fn_expr(f)),
            Expr::Arrow(arrow) => tree::Expr::Arrow(tree::ArrowExpr {
                span: self.noted(arrow.span),
                params: self.nodes_in(&arrow.params),
                body: match &*arrow.body {
                    ArrowFunctionBody::FunctionBody(body) => {
                        tree::ArrowBody::Block(self.stmts(&body.stmts))
                    }
                    ArrowFunctionBody::Expr(expr) => {
                        tree::ArrowBody::Expr(Box::new(self.expr(expr)))
                    }
                },
            }),
            Expr::Paren(paren) => {
                tree::Expr::Paren(span(paren.span), Box::new(self.expr(&paren.expr)))
            }
            _ => tree::Expr::Other(span(expr.span()), self.nodes_in(expr)),
        }
    }

    fn key(&mut self, key: &PropName) -> tree::PropName {
        let at = self.noted(key.span());
        match key {
            PropName::Ident(name) => tree::PropName::Ident(ident_name(name)),
            PropName::Str(lit) => tree::PropName::Str(str_lit(lit)),
            PropName::Computed(computed) => {
                tree::PropName::Computed(at, as_str_lit(&computed.expr))
            }
            PropName::Num(_) | PropName::BigInt(_) => tree::PropName::Num(at),
        }
    }

    fn var_decl(&mut self, n: &VarDecl) -> tree::VarDecl {
        tree::VarDecl {
            span: self.noted(n.span),
            decls: n
                .decls
                .iter()
                .map(|decl| tree::VarDeclarator {
                    name: match &decl.name {
                        Pat::Ident(name) => tree::Pat::Ident(ident(&name.id)),
                        _ => tree::Pat::Other,
                    },
                    pattern: self.nodes_in(&decl.name),
                    init: decl.init.as_ref().map(|init| self.expr(init)),
                })
                .collect(),
        }
    }
}

impl<C: Comments> Visit for Outline<'_, C> {

    fn visit_var_decl(&mut self, n: &VarDecl) {
        let node = tree::Node::VarDecl(self.var_decl(n));
        self.nodes.push(node);
    }

    fn visit_fn_decl(&mut self, n: &FnDecl) {
        let node = tree::Node::FnDecl(self.fn_decl(n));
        self.nodes.push(node);
    }

    fn visit_assign_expr(&mut self, n: &AssignExpr) {
        let node = tree::Node::AssignExpr(tree::AssignExpr {
            span: self.noted(n.span),
            left: target(&n.left),
            target: self.nodes_in(&n.left),
            right: self.expr(&n.right),
        });
        self.nodes.push(node);
    }

    fn visit_key_value_prop(&mut self, n: &KeyValueProp) {
        let node = tree::Node::KeyValueProp(tree::KeyValueProp {
            key: self.key(&n.key),
            computed: self.nodes_in(&n.key),
            value: self.expr(&n.value),
        });
        self.nodes.push(node);
    }

    fn visit_method_prop(&mut self, n: &MethodProp) {
        let node = tree::Node::MethodProp(tree::MethodProp {
            key: self.key(&n.key),
            computed: self.nodes_in(&n.key),
            function: Box::new(self.function(&n.function)),
        });
        self.nodes.push(node);
    }

    fn visit_export_decl(&mut self, n: &ExportDecl) {
        let node = tree::Node::ExportDecl(tree::ExportDecl {
            span: self.noted(n.span),
            decl: match &n.decl {
                Decl::Var(var_decl) => tree::Decl::Var(self.var_decl(var_decl)),
                Decl::Fn(fn_decl) => tree::Decl::Fn(self.fn_decl(fn_decl)),
                decl => tree::Decl::Other(self.nodes_in(decl)),
            },
        });
        self.nodes.push(node);
    }

    fn visit_export_default_decl(&mut self, n: &ExportDefaultDecl) {
        let node = tree::Node::ExportDefaultDecl(tree::ExportDefaultDecl {
            span: self.noted(n.span),
            decl: match &n.decl {
                DefaultDecl::Fn(f) => tree::DefaultDecl::Fn(self.fn_expr(f)),
                decl => tree::DefaultDecl::Other(self.nodes_in(decl)),
            },
        });
        self.nodes.push(node);
    }

    fn visit_export_default_expr(&mut self, n: &ExportDefaultExpr) {
        let node = tree::Node::ExportDefaultExpr(tree::ExportDefaultExpr {
            span: self.noted(n.span),
            expr: self.expr(&n.expr),
        });
        self.nodes.push(node);
    }

    fn visit_jsx_element(&mut self, n: &JSXElement) {
        let node = tree::Node::Jsx(self.nodes_under(n));
        self.nodes.push(node);
    }

    fn visit_jsx_fragment(&mut self, n: &JSXFragment) {
        let node = tree::Node::Jsx(self.nodes_under(n));
        self.nodes.push(node);
    }
}

/// Hands the nodes that stand in no other node to the syntax that they stand for.
struct Writer {
    nodes: std::vec::IntoIter<tree::Node>,
}

/// Writes a tree into the program that it was read off.
pub fn write(program: &mut Program, written: tree::Program) {
    match (program, written) {
        (Program::Module(module), tree::Program::Module(written)) => {
            let mut source = module.body.take().into_iter();
            for item in written.body {
                match item {
                    tree::ModuleItem::Stmt(stmt) => {
                        let mut item = source.next().expect("a statement of the source");
                        item.visit_mut_with(&mut Writer::new(stmt.nodes));
                        module.body.push(item);
                    }
                    tree::ModuleItem::ModuleDecl(decl) => {
                        module.body.push(ModuleDecl::Import(written_import(decl)).into());
                    }
                }
            }
        }
        (Program::Script(script), tree::Program::Script(written)) => {
            let mut source = script.body.take().into_iter();
            for item in written.body {
                match item {
                    tree::ScriptItem::Stmt(stmt) => {
                        let mut item = source.next().expect("a statement of the source");
                        item.visit_mut_with(&mut Writer::new(stmt.nodes));
                        script.body.push(item);
                    }
                    tree::ScriptItem::Require(decl) => script.body.push(written_require(decl)),
                }
            }
        }
        _ => unreachable!("a program keeps its kind"),
    }
}

fn written_ident(ident: tree::Ident) -> Ident {
    Ident {
        span: Span::new(BytePos(ident.span.lo), BytePos(ident.span.hi)),
        ctxt: SyntaxContext::from_u32(ident.ctxt),
        sym: ident.sym.into(),
        optional: ident.optional,
    }
}

fn written_str_lit(lit: tree::Str) -> Str {
    Str {
        span: Span::new(BytePos(lit.span.lo), BytePos(lit.span.hi)),
        value: lit.value.into(),
        raw: lit.raw.map(|raw| raw.into()),
    }
}

fn written_import(decl: tree::ImportDecl) -> ImportDecl {
    let local = written_ident(decl.local);
    ImportDecl {
        span: DUMMY_SP,
        specifiers: vec![match decl.imported {
            Some(imported) => ImportSpecifier::Named(ImportNamedSpecifier {
                span: DUMMY_SP,
                local,
                imported: Some(ModuleExportName::Ident(written_ident(imported))),
                is_type_only: false,
            }),
            None => ImportSpecifier::Default(ImportDefaultSpecifier {
                span: DUMMY_SP,
                local,
            }),
        }],
        src: Box::new(written_str_lit(decl.src)),
        type_only: false,
        with: None,
        phase: Default::default(),
    }
}

fn written_require(decl: tree::RequireDecl) -> Stmt {
    let local = BindingIdent::from(written_ident(decl.local));
    let callee = Ident::new("require".into(), DUMMY_SP, SyntaxContext::from_u32(decl.ctxt));
    let arg = Expr::Lit(Lit::Str(written_str_lit(decl.src)));
    let name = match decl.imported {
        Some(imported) => Pat::Object(ObjectPat {
            span: DUMMY_SP,
            props: vec![ObjectPatProp::KeyValue(KeyValuePatProp {
                key: PropName::Ident(written_ident(imported).into()),
                value: Box::new(Pat::Ident(local)),
            })],
            optional: false,
            type_ann: None,
        }),
        None => Pat::Ident(local),
    };
    written_var_stmt(name, written_call_expr(callee, vec![arg.into()]))
}

fn written_call_expr(callee: Ident, args: Vec<ExprOrSpread>) -> CallExpr {
    CallExpr {
        span: DUMMY_SP,
        ctxt: SyntaxContext::empty(),
        callee: Callee::Expr(Box::new(Expr::Ident(callee))),
        args,
        type_args: None,
    }
}

fn written_call(call: tree::CallExpr) -> CallExpr {
    let args = call
        .args
        .into_iter()
        .map(|arg| Expr::Lit(Lit::Num(Number::from(f64::from(arg)))).into())
        .collect();
    written_call_expr(written_ident(call.callee), args)
}

fn written_var_stmt(name: Pat, init: CallExpr) -> Stmt {
    Stmt::Decl(Decl::Var(Box::new(VarDecl {
        span: DUMMY_SP,
        ctxt: SyntaxContext::empty(),
        kind: VarDeclKind::Var,
        declare: false,
        decls: vec![VarDeclarator {
            span: DUMMY_SP,
            name,
            init: Some(Box::new(Expr::Call(init))),
            definite: false,
        }],
    })))
}

fn written_block(stmts: Vec<Stmt>) -> BlockStmt {
    BlockStmt {
        span: DUMMY_SP,
        ctxt: SyntaxContext::empty(),
        stmts,
    }
}

/// The statements that a tree lists, where `source` holds those of the source.
fn written_stmts(written: Vec<tree::Stmt>, source: &mut std::vec::IntoIter<Stmt>) -> Vec<Stmt> {
    written
        .into_iter()
        .map(|stmt| match stmt {
            tree::Stmt::Source(_) | tree::Stmt::Return(_) => {
                source.next().expect("a statement of the source")
            }
            tree::Stmt::Var(name, init) => written_var_stmt(Pat::Ident(written_ident(name).into()), written_call(init)),
            tree::Stmt::Expr(expr) => Stmt::Expr(ExprStmt {
                span: DUMMY_SP,
                expr: Box::new(Expr::Call(written_call(expr))),
            }),
            tree::Stmt::Try(body, finalizer) => Stmt::Try(Box::new(TryStmt {
                span: DUMMY_SP,
                block: written_block(written_stmts(body, source)),
                handler: None,
                finalizer: Some(written_block(written_stmts(finalizer, source))),
            })),
        })
        .collect()
}

fn written_function(f: &mut Function, written: tree::Function) {
    if let (Some(body), Some(written)) = (&mut f.body, written.body) {
        body.stmts = written_stmts(written, &mut body.stmts.take().into_iter());
    }
}

fn written_arrow(arrow: &mut ArrowExpr, written: tree::ArrowExpr) {
    let tree::ArrowBody::Block(written) = written.body else {
        return;
    };
    match &mut *arrow.body {
        ArrowFunctionBody::FunctionBody(body) => {
            body.stmts = written_stmts(written, &mut body.stmts.take().into_iter());
        }
        ArrowFunctionBody::Expr(expr) => {
            let returned = Stmt::Return(ReturnStmt {
                span: DUMMY_SP,
                arg: Some(expr.take()),
            });
            *arrow.body = ArrowFunctionBody::FunctionBody(FunctionBody {
                span: DUMMY_SP,
                stmts: written_stmts(written, &mut vec![returned].into_iter()),
            });
        }
    }
}

fn written_expr(e: &mut Expr, written: tree::Expr) {
    match (e, written) {
        (Expr::Fn(f), tree::Expr::Fn(written)) => written_function(&mut f.function, *written.function),
        (Expr::Arrow(e), tree::Expr::Arrow(written)) => written_arrow(e, written),
        (Expr::Paren(paren), tree::Expr::Paren(_, written)) => written_expr(&mut paren.expr, *written),
        _ => {}
    }
}

fn written_var_decl(n: &mut VarDecl, written: tree::VarDecl) {
    for (decl, written) in n.decls.iter_mut().zip(written.decls) {
        if let (Some(init), Some(written)) = (&mut decl.init, written.init) {
            written_expr(init, written);
        }
    }
}

impl Writer {
    fn new(nodes: Vec<tree::Node>) -> Writer {
        let mut outermost = Vec::new();
        written_flatten(nodes, &mut outermost);
        Writer {
            nodes: outermost.into_iter(),
        }
    }
}

/// JSX has no syntax of its own to write.
fn written_flatten(nodes: Vec<tree::Node>, into: &mut Vec<tree::Node>) {
    for node in nodes {
        match node {
            tree::Node::Jsx(nodes) => written_flatten(nodes, into),
            node => into.push(node),
        }
    }
}

impl VisitMut for Writer {

    fn visit_mut_var_decl(&mut self, n: &mut VarDecl) {
        if let Some(tree::Node::VarDecl(written)) = self.nodes.next() {
            written_var_decl(n, written);
        }
    }

    fn visit_mut_fn_decl(&mut self, n: &mut FnDecl) {
        if let Some(tree::Node::FnDecl(written)) = self.nodes.next() {
            written_function(&mut n.function, *written.function);
        }
    }

    fn visit_mut_assign_expr(&mut self, n: &mut AssignExpr) {
        if let Some(tree::Node::AssignExpr(written)) = self.nodes.next() {
            written_expr(&mut n.right, written.right);
        }
    }

    fn visit_mut_key_value_prop(&mut self, n: &mut KeyValueProp) {
        if let Some(tree::Node::KeyValueProp(written)) = self.nodes.next() {
            written_expr(&mut n.value, written.value);
        }
    }

    fn visit_mut_method_prop(&mut self, n: &mut MethodProp) {
        if let Some(tree::Node::MethodProp(written)) = self.nodes.next() {
            written_function(&mut n.function, *written.function);
        }
    }

    fn visit_mut_export_decl(&mut self, n: &mut ExportDecl) {
        if let Some(tree::Node::ExportDecl(written)) = self.nodes.next() {
            match (&mut n.decl, written.decl) {
                (Decl::Var(n), tree::Decl::Var(written)) => written_var_decl(n, written),
                (Decl::Fn(n), tree::Decl::Fn(written)) => {
                    written_function(&mut n.function, *written.function)
                }
                _ => {}
            }
        }
    }

    fn visit_mut_export_default_decl(&mut self, n: &mut ExportDefaultDecl) {
        if let Some(tree::Node::ExportDefaultDecl(written)) = self.nodes.next() {
            if let (DefaultDecl::Fn(f), tree::DefaultDecl::Fn(written)) = (&mut n.decl, written.decl)
            {
                written_function(&mut f.function, *written.function);
            }
        }
    }

    fn visit_mut_export_default_expr(&mut self, n: &mut ExportDefaultExpr) {
        if let Some(tree::Node::ExportDefaultExpr(written)) = self.nodes.next() {
            written_expr(&mut n.expr, written.expr);
        }
    }
}

fn syntax() -> Syntax {
    Syntax::Es(EsSyntax {
        jsx: true,
        ..Default::default()
    })
}

fn parse(source: &str, comments: &SingleThreadedComments) -> Program {
    let cm: Lrc<SourceMap> = Default::default();
    let file = cm.new_source_file(FileName::Anon.into(), source.to_string());
    let mut errors = vec![];
    let module = parse_file_as_module(
        &file,
        syntax(),
        EsVersion::latest(),
        Some(comments),
        &mut errors,
    );
    Program::Module(module.unwrap())
}

fn parse_script(source: &str, comments: &SingleThreadedComments) -> Program {
    let cm: Lrc<SourceMap> = Default::default();
    let file = cm.new_source_file(FileName::Anon.into(), source.to_string());
    let mut errors = vec![];
    let script = parse_file_as_script(
        &file,
        syntax(),
        EsVersion::latest(),
        Some(comments),
        &mut errors,
    );
    Program::Script(script.unwrap())
}

fn printed(program: &Program) -> String {
    let cm: Lrc<SourceMap> = Default::default();
    let mut text = Vec::new();
    let mut emitter = Emitter {
        cfg: Config::default(),
        cm: cm.clone(),
        comments: None,
        wr: JsWriter::new(cm, "\n", &mut text, None),
    };
    match program {
        Program::Module(module) => emitter.emit_module(module).unwrap(),
        Program::Script(script) => emitter.emit_script(script).unwrap(),
    }
    drop(emitter);
    String::from_utf8(text).unwrap()
}

fn check_program(
    parse: fn(&str, &SingleThreadedComments) -> Program,
    options: Option<PreactSignalsPluginOptions>,
    file_trackable_name: Option<Trackable>,
    input: &str,
    expected: &str,
) {
    GLOBALS.set(&Globals::new(), || {
        let comments = SingleThreadedComments::default();
        let mut program = parse(input, &comments);
        let (tree, notes) = outline(&program, &comments);
        let private_ctxt = SyntaxContext::empty().apply_mark(Mark::new()).as_u32();
        let written = transform_program(tree, options, notes, file_trackable_name, private_ctxt);
        write(&mut program, written);
        let expected = parse(expected, &SingleThreadedComments::default());
        assert_eq!(printed(&program), printed(&expected));
    });
}

fn check(file_trackable_name: Option<Trackable>, input: &str, expected: &str) {
    check_program(parse, None, file_trackable_name, input, expected);
}

fn check_script(input: &str, expected: &str) {
    check_program(parse_script, None, None, input, expected);
}

fn check_with(options: PreactSignalsPluginOptions, input: &str, expected: &str) {
    check_program(parse, Some(options), None, input, expected);
}

#[test]
fn nested_components() {
    check(
        None,
        r#"
    function Asdjsadf() {
        const outerControl = useControl(false)
        var someControl = useControl(true)
        function B() {
            const control = useControl("")
            return <div />
        };
        function c() {
            return 5
        };
        return <div />
    }
    export default function AnotherComponent(){
    var someValue = useControl("")
      return <div>AnotherComponent</div>
    }
    export function OtherComponets(){
     return <div>OtherComponets</div>
    }
    "#,
        r#"
    import { useComponentTracking as _useComponentTracking } from "@react-typed-forms/core";
    function Asdjsadf() {
        var stop = _useComponentTracking();
        try {
            const outerControl = useControl(false);
            var someControl = useControl(true)
            function B() {
                const control = useControl("");
                return <div/>;
            }
            ;
            function c() {
                return 5;
            }
            ;
            return <div/>;
        } finally{
            stop();
        }
    }
export default function AnotherComponent(){
var stop = _useComponentTracking();
    try {
     var someValue = useControl("");
        return <div>AnotherComponent</div>;
    } finally{
        stop();
    }
}
 export function OtherComponets(){
  var stop = _useComponentTracking();
  try{
      return <div>OtherComponets</div>
  }finally{
      stop();
  }
}

"#,
    );
}

#[test]
fn hocs() {
    check(
        None,
        r#"
const Cec = memo(() => {
    return <div />
})
// hocs should be transformed
const Cyc = React.lazy(React.memo(() => {
    return <div />
}), {})
"#,
        r#"
const Cec = memo(()=>{
    return <div/>;
});
const Cyc = React.lazy(React.memo(()=>{
    return <div/>;
}), {});
"#,
    );
}

#[test]
fn arrow_fn() {
    check(
        None,
        r#"
const A = () => {
    return <div />
}
const Cecek = () => <div />
"#,
        r#"
import { useComponentTracking as _useComponentTracking } from "@react-typed-forms/core";
const A = ()=>{
    var stop = _useComponentTracking();
    try {
        return <div/>;
    } finally{
        stop();
    }
};
const Cecek = ()=>{
    var stop = _useComponentTracking();
    try {
        return <div/>;
    } finally{
        stop();
    }
};
"#,
    );
}

#[test]
fn function() {
    check(
        None,
        r#"
// should be transformed
function A(){
    return <div />
}
"#,
        r#"
import { useComponentTracking as _useComponentTracking } from "@react-typed-forms/core";
function A() {
    var stop = _useComponentTracking();
    try {
        return <div/>;
    } finally{
        stop();
    }
}
"#,
    );
}

#[test]
fn function_expr() {
    check(
        None,
        r#"
var C = function(){
    return <div />
};
var C2 = function C3(){
    return <div />
};
"#,
        r#"
import { useComponentTracking as _useComponentTracking } from "@react-typed-forms/core";
var C = function() {
    var stop = _useComponentTracking();
    try {
        return <div/>;
    } finally{
        stop();
    }
};
var C2 = function C3() {
    var stop = _useComponentTracking();
    try {
        return <div/>;
    } finally{
        stop();
    }
};
"#,
    );
}

#[test]
fn opt_in() {
    check(
        None,
        r#"
/**
 * @trackControls
 */
function a(){
    return 10;
}

/**
 * @trackControls
 */
const b = () => {
    return 10;
}

/**
 * @trackControls
 */
const c = function(){
    return 10
};
/**
 * @trackControls
 */
const d = () => 10

/**
 * @trackControls
 */
export function boba(){
    return 10
}

/**
 * @trackControls
 */
export const boba2 = () => 10
"#,
        r#"
import { useComponentTracking as _useComponentTracking } from "@react-typed-forms/core";
function a() {
    var stop = _useComponentTracking();
    try {
        return 10;
    } finally{
        stop();
    }
}
const b = ()=>{
    var stop = _useComponentTracking();
    try {
        return 10;
    } finally{
        stop();
    }
};
const c = function() {
    var stop = _useComponentTracking();
    try {
        return 10;
    } finally{
        stop();
    }
};
const d = ()=>{
    var stop = _useComponentTracking();
    try {
        return 10;
    } finally{
        stop();
    }
};

export function boba() {
    var stop = _useComponentTracking();
    try {
        return 10;
    } finally{
        stop();
    }
}
export const boba2 = ()=>{
    var stop = _useComponentTracking();
    try {
        return 10;
    } finally{
        stop();
    }
};
"#,
    );
}

#[test]
fn opt_in_opt_out() {
    check(
        None,
        r#"
/**
 * @noTrackControls
 * @trackControls
 */
function MyComponent() {
    return <div>{signal.value}</div>;
}
"#,
        r#"
function MyComponent() {
    return <div>{signal.value}</div>;
}
"#,
    );
}

#[test]
fn rare_components() {
    // Note: components in object literals (methods, properties, computed
    // keys) are NOT wrapped — only plain assignment expressions are.
    check(
        None,
        r#"
let Jopa;
Jopa = () => <>{a.value}</>
Jopa = function(){
    return <>{a.value}</>
}
const A = {
    Beb(){
        return <>10</>
    }
}

A.bebe.Baba = () => <div>{a.value}</div>

const Beb = {
    A: () => <div />
}

const _ = {
    ['Aboba']() {
        return <div />
    }
}
    "#,
        r#"
import { useComponentTracking as _useComponentTracking } from "@react-typed-forms/core";

let Jopa;
Jopa = ()=>{
    var stop = _useComponentTracking();
    try {
        return <>{a.value}</>;
    } finally{
        stop();
    }
};
Jopa = function() {
    var stop = _useComponentTracking();
    try {
        return <>{a.value}</>;
    } finally{
        stop();
    }
};
const A = {
    Beb() {
        return <>10</>;
    }
};
A.bebe.Baba = ()=>{
    var stop = _useComponentTracking();
    try {
        return <div>{a.value}</div>;
    } finally{
        stop();
    }
};
const Beb = {
    A: ()=><div/>
};

const _ = {
    ['Aboba']() {
        return <div/>;
    }
}
"#,
    );
}

#[test]
fn default_components() {
    check(
        Some(Trackable::Component),
        r#"
export default function(){
    return <div />
}
export default (() => {
    return <div />
})
"#,
        r#"
import { useComponentTracking as _useComponentTracking } from "@react-typed-forms/core";
export default function() {
    var stop = _useComponentTracking();
    try {
        return <div/>;
    } finally{
        stop();
    }
}

export default (()=>{
    var stop = _useComponentTracking();
    try {
        return <div/>;
    } finally{
        stop();
    }
});
"#,
    );
}

#[test]
fn import_goes_after_directives() {
    check(
        None,
        r#"
'use strict';

const Bebe = () => <div>{a.value}</div>
"#,
        r#"
'use strict';

import { useComponentTracking as _useComponentTracking } from "@react-typed-forms/core";
const Bebe = ()=>{
    var stop = _useComponentTracking();
    try {
        return <div>{a.value}</div>;
    } finally{
        stop();
    }
}
"#,
    );
}

#[test]
fn hooks_are_not_transformed() {
    check(
        None,
        r#"
const useAboba = () => a.value
function useBeb() {
    const counter = useControl(0);
    return counter;
}
"#,
        r#"
const useAboba = () => a.value
function useBeb() {
    const counter = useControl(0);
    return counter;
}
"#,
    );
}

#[test]
fn hook_usage_flag() {
    check_with(
        PreactSignalsPluginOptions {
            experimental: PreactSignalsPluginExperimental {
                add_hook_usage_flag: true,
            },
            ..Default::default()
        },
        r#"
/**
 * @trackControls
 */
const useAboba = () => {
    return a.b;
}
/**
 * @trackControls
 */
const unknown = () => undefined
const Component = () => {
    return <></>
}
"#,
        r#"
import { useComponentTracking as _useComponentTracking } from "@react-typed-forms/core";
const useAboba = ()=>{
    var stop = _useComponentTracking(2);
    try {
        return a.b;
    } finally{
        stop();
    }
};
const unknown = ()=>{
    _useComponentTracking();
    return undefined;
};
const Component = ()=>{
    var stop = _useComponentTracking(1);
    try {
        return <></>;
    } finally{
        stop();
    }
};
"#,
    );
}

#[test]
fn script_requires_tracking_after_directives() {
    check_script(
        r#"
'use strict';
"second";
function A() {
    return <div />
}
"#,
        r#"
'use strict';
"second";
var { useComponentTracking: _useComponentTracking } = require("@react-typed-forms/core");
function A() {
    var stop = _useComponentTracking();
    try {
        return <div/>;
    } finally{
        stop();
    }
}
"#,
    );
}

#[test]
fn components_in_plain_syntax_are_tracked() {
    check(
        None,
        r#"
if (x) {
    B = () => <p />;
    foo(() => {
        const H = (() => <q />)
    })
}
class K {
    render() {
        function L() { return <em /> }
    }
}
"#,
        r#"
import { useComponentTracking as _useComponentTracking } from "@react-typed-forms/core";
if (x) {
    B = () => {
        var stop = _useComponentTracking();
        try { return <p />; } finally { stop(); }
    };
    foo(() => {
        const H = (() => {
            var stop = _useComponentTracking();
            try { return <q />; } finally { stop(); }
        })
    })
}
class K {
    render() {
        function L() {
            var stop = _useComponentTracking();
            try { return <em /> } finally { stop(); }
        }
    }
}
"#,
    );
}

#[test]
fn components_in_object_literals_are_not_tracked() {
    let text = r#"
foo({
    C() { return <a /> },
    'D': () => <b />,
    ['E']() { return <i /> },
    [key]: function F() { return <u /> },
    G: { H: () => <s /> },
    I() {
        const J = () => <q />
        return <p />
    }
});
({ K: () => <em /> });
if (x) {
    bar([{ L() { return <em /> } }])
}
"#;
    check(None, text, text);
}

#[test]
fn functions_in_object_literals_are_tracked_on_request() {
    check(
        None,
        r#"
foo({
    /** @trackControls */
    C() { return <a /> },
    /** @trackControls */
    'D': () => <b />,
    /** @trackControls */
    ['e']() { return 1 },
    /** @noTrackControls @trackControls */
    F() { return <i /> },
    G() { return <u /> }
})
"#,
        r#"
import { useComponentTracking as _useComponentTracking } from "@react-typed-forms/core";
foo({
    C() {
        var stop = _useComponentTracking();
        try { return <a /> } finally { stop(); }
    },
    'D': () => {
        var stop = _useComponentTracking();
        try { return <b />; } finally { stop(); }
    },
    ['e']() {
        var stop = _useComponentTracking();
        try { return 1 } finally { stop(); }
    },
    F() { return <i /> },
    G() { return <u /> }
})
"#,
    );
}

#[test]
fn exported_classes_are_not_looked_into() {
    let text = r#"
export class K {
    render() {
        function L() { return <em /> }
    }
}
export default class {
    render() {
        const M = () => <em />
    }
}
"#;
    check(None, text, text);
}

#[test]
fn only_the_first_binding_is_tracked() {
    check(
        None,
        r#"
const A = () => <a />, B = () => <b />
const c = 1, D = () => <b />
"#,
        r#"
import { useComponentTracking as _useComponentTracking } from "@react-typed-forms/core";
const A = () => {
    var stop = _useComponentTracking();
    try { return <a />; } finally { stop(); }
}, B = () => <b />
const c = 1, D = () => <b />
"#,
    );
}

#[test]
fn line_comments_hold_no_directives() {
    let text = r#"
// @trackControls
function a() { return 10; }
"#;
    check(None, text, text);
}

//! Reading programs: from the text of a file to what it lets out.
use vstd::prelude::*;

use syn::visit::Visit;

use crate::guardian::leaks;
use crate::guardian::leaks::{analyze_file, FileFindings};
use crate::guardian::owners;
use crate::guardian::owners::{with_owners, Event};
use crate::guardian::syntax::{Arm, Operator, Expression, Literal, Pattern, Statement};

verus! {

/// An expression as `syn` reads it.
#[verifier::external_type_specification]
#[verifier::external_body]
pub struct ExSynExpr(syn::Expr);

/// A pattern as `syn` reads it.
#[verifier::external_type_specification]
#[verifier::external_body]
pub struct ExSynPat(syn::Pat);

/// A statement as `syn` reads it.
#[verifier::external_type_specification]
#[verifier::external_body]
pub struct ExSynStmt(syn::Stmt);

/// A block as `syn` reads it.
#[verifier::external_type_specification]
#[verifier::external_body]
pub struct ExSynBlock(syn::Block);

/// A literal as `syn` reads it.
#[verifier::external_type_specification]
#[verifier::external_body]
pub struct ExSynLit(syn::Lit);

/// An operator as `syn` reads it.
#[verifier::external_type_specification]
#[verifier::external_body]
pub struct ExSynBinOp(syn::BinOp);

/// A path as `syn` reads it.
#[verifier::external_type_specification]
#[verifier::external_body]
pub struct ExSynPath(syn::Path);

/// A function as `syn` reads it.
#[verifier::external_type_specification]
#[verifier::external_body]
pub struct ExSynItemFn(syn::ItemFn);

/// An `impl` as `syn` reads it.
#[verifier::external_type_specification]
#[verifier::external_body]
pub struct ExSynItemImpl(syn::ItemImpl);

/// A constant as `syn` reads it.
#[verifier::external_type_specification]
#[verifier::external_body]
pub struct ExSynItemConst(syn::ItemConst);

/// A static as `syn` reads it.
#[verifier::external_type_specification]
#[verifier::external_body]
pub struct ExSynItemStatic(syn::ItemStatic);

/// A method as `syn` reads it.
#[verifier::external_type_specification]
#[verifier::external_body]
pub struct ExSynImplItemFn(syn::ImplItemFn);

/// An associated constant as `syn` reads it.
#[verifier::external_type_specification]
#[verifier::external_body]
pub struct ExSynImplItemConst(syn::ImplItemConst);

/// The identifiers of a `syn::Path`.
#[verifier::external_body]
fn path_names(p: &syn::Path) -> Vec<String> {
    p.segments.iter().map(|s| s.ident.to_string()).collect()
}

/// The lines where the identifiers of a `syn::Path` stand.
#[verifier::external_body]
fn path_lines(p: &syn::Path) -> Vec<usize> {
    p.segments.iter().map(|s| s.ident.span().start().line).collect()
}

/// A `syn::Lit`, variant for variant.
#[verifier::external_body]
fn lit_of(l: &syn::Lit) -> Literal {
    match l {
        syn::Lit::Str(s) => Literal::Str(s.value()),
        syn::Lit::ByteStr(_) => Literal::ByteStr,
        syn::Lit::CStr(_) => Literal::CStr,
        syn::Lit::Byte(b) => Literal::Byte(b.value()),
        syn::Lit::Char(c) => Literal::Char(c.value()),
        syn::Lit::Int(i) => Literal::Int(i.base10_digits().to_string()),
        syn::Lit::Float(f) => Literal::Float(f.base10_digits().to_string()),
        syn::Lit::Bool(b) => Literal::Bool(b.value),
        _ => Literal::Other,
    }
}

/// A `syn::BinOp`, variant for variant.
#[verifier::external_body]
fn op_of(op: &syn::BinOp) -> Operator {
    match op {
        syn::BinOp::And(_) => Operator::And,
        syn::BinOp::Or(_) => Operator::Or,
        syn::BinOp::Eq(_) => Operator::Eq,
        syn::BinOp::Ne(_) => Operator::Ne,
        syn::BinOp::Lt(_) => Operator::Lt,
        syn::BinOp::Le(_) => Operator::Le,
        syn::BinOp::Gt(_) => Operator::Gt,
        syn::BinOp::Ge(_) => Operator::Ge,
        _ => Operator::Other,
    }
}

/// A `syn::Pat`, variant for variant.
#[verifier::external_body]
fn pat_of(p: &syn::Pat) -> Pattern {
    match p {
        syn::Pat::Ident(i) => Pattern::Ident(i.ident.to_string()),
        syn::Pat::Tuple(t) => Pattern::Tuple(t.elems.iter().map(pat_of).collect()),
        syn::Pat::TupleStruct(t) => Pattern::TupleStruct(t.elems.iter().map(pat_of).collect()),
        syn::Pat::Struct(s) => Pattern::Struct(s.fields.iter().map(|f| pat_of(&f.pat)).collect()),
        syn::Pat::Reference(r) => Pattern::Reference(Box::new(pat_of(&r.pat))),
        syn::Pat::Type(t) => Pattern::Type(Box::new(pat_of(&t.pat))),
        _ => choice_of(p),
    }
}

/// A `syn::Pat` of several patterns, variant for variant.
#[verifier::external_body]
fn choice_of(p: &syn::Pat) -> Pattern {
    match p {
        syn::Pat::Slice(s) => Pattern::Slice(s.elems.iter().map(pat_of).collect()),
        syn::Pat::Or(o) => Pattern::Or(o.cases.iter().map(pat_of).collect()),
        _ => Pattern::Other,
    }
}

/// A `syn::Expr` inside of another one.
#[verifier::external_body]
fn boxed(e: &syn::Expr) -> Box<Expression> {
    Box::new(expr_of(e))
}

/// A `syn::Expr`, variant for variant; what nothing is known of is one variant.
#[verifier::external_body]
fn expr_of(e: &syn::Expr) -> Expression {
    match e {
        syn::Expr::Lit(l) => {
            let at = l.lit.span().start();
            Expression::Lit { lit: lit_of(&l.lit), line: at.line, col: at.column }
        },
        syn::Expr::Path(p) => Expression::Path {
            segments: path_names(&p.path),
            lines: path_lines(&p.path),
            is_ident: p.path.get_ident().is_some(),
        },
        _ => operation_of(e),
    }
}

/// A `syn::Expr` that is made of others, variant for variant.
#[verifier::external_body]
fn operation_of(e: &syn::Expr) -> Expression {
    match e {
        syn::Expr::Binary(b) => {
            Expression::Binary { op: op_of(&b.op), left: boxed(&b.left), right: boxed(&b.right) }
        },
        syn::Expr::Assign(a) => Expression::Assign { left: boxed(&a.left), right: boxed(&a.right) },
        syn::Expr::Range(r) => Expression::Range {
            start: r.start.as_ref().map(|x| boxed(x)),
            end: r.end.as_ref().map(|x| boxed(x)),
        },
        _ => part_of(e),
    }
}

/// A `syn::Expr` with one expression in it, variant for variant.
#[verifier::external_body]
fn part_of(e: &syn::Expr) -> Expression {
    match e {
        syn::Expr::Unary(x) => Expression::Unary(boxed(&x.expr)),
        syn::Expr::Paren(x) => Expression::Paren(boxed(&x.expr)),
        syn::Expr::Reference(x) => Expression::Reference(boxed(&x.expr)),
        syn::Expr::Cast(x) => Expression::Cast(boxed(&x.expr)),
        syn::Expr::Try(x) => Expression::Try(boxed(&x.expr)),
        syn::Expr::Repeat(x) => Expression::Repeat(boxed(&x.expr)),
        _ => list_of(e),
    }
}

/// A `syn::Expr` with a list of expressions or a place in it, variant for variant.
#[verifier::external_body]
fn list_of(e: &syn::Expr) -> Expression {
    match e {
        syn::Expr::Field(x) => Expression::Field(boxed(&x.base)),
        syn::Expr::Index(x) => Expression::Index(boxed(&x.expr)),
        syn::Expr::Tuple(t) => Expression::Tuple(t.elems.iter().map(expr_of).collect()),
        syn::Expr::Array(a) => Expression::Array(a.elems.iter().map(expr_of).collect()),
        syn::Expr::Struct(s) => Expression::Struct {
            lines: path_lines(&s.path),
            fields: s.fields.iter().map(|f| expr_of(&f.expr)).collect(),
        },
        _ => call_of(e),
    }
}

/// A `syn::Expr` that is a call or ends something, variant for variant.
#[verifier::external_body]
fn call_of(e: &syn::Expr) -> Expression {
    match e {
        syn::Expr::Call(c) => {
            Expression::Call { func: boxed(&c.func), args: c.args.iter().map(expr_of).collect() }
        },
        syn::Expr::MethodCall(m) => Expression::MethodCall {
            receiver: boxed(&m.receiver),
            method: m.method.to_string(),
            args: m.args.iter().map(expr_of).collect(),
        },
        syn::Expr::Break(b) => Expression::Break(b.expr.as_ref().map(|x| boxed(x))),
        _ => flow_of(e),
    }
}

/// A `syn::Expr` with blocks in it, variant for variant.
#[verifier::external_body]
fn flow_of(e: &syn::Expr) -> Expression {
    match e {
        syn::Expr::If(i) => Expression::If {
            cond: boxed(&i.cond),
            then_branch: stmts_of(&i.then_branch),
            else_branch: i.else_branch.as_ref().map(|b| boxed(&b.1)),
        },
        syn::Expr::Block(b) => Expression::Block(stmts_of(&b.block)),
        syn::Expr::Unsafe(u) => Expression::Unsafe(stmts_of(&u.block)),
        syn::Expr::ForLoop(f) => Expression::ForLoop(stmts_of(&f.body)),
        _ => choosing_of(e),
    }
}

/// The rest of the variants of a `syn::Expr`.
#[verifier::external_body]
fn choosing_of(e: &syn::Expr) -> Expression {
    match e {
        syn::Expr::Match(m) => Expression::Match {
            scrutinee: boxed(&m.expr),
            arms: m.arms.iter().map(|a| Arm { pat: pat_of(&a.pat), body: expr_of(&a.body) }).collect(),
        },
        syn::Expr::Loop(l) => {
            Expression::Loop { body: stmts_of(&l.body), line: l.loop_token.span.start().line }
        },
        syn::Expr::Return(r) => Expression::Return {
            value: r.expr.as_ref().map(|x| boxed(x)),
            line: r.return_token.span.start().line,
        },
        _ => Expression::Other,
    }
}

/// A `syn::Stmt`, variant for variant.
#[verifier::external_body]
fn stmt_of(s: &syn::Stmt) -> Statement {
    match s {
        syn::Stmt::Local(l) => Statement::Local {
            pat: pat_of(&l.pat),
            init: l.init.as_ref().map(|i| expr_of(&i.expr)),
            diverge: l.init.as_ref().and_then(|i| i.diverge.as_ref()).map(|d| expr_of(&d.1)),
            line: l.let_token.span.start().line,
        },
        syn::Stmt::Expr(e, semi) => Statement::Expr { expr: expr_of(e), semi: semi.is_some() },
        syn::Stmt::Item(_) => Statement::Item,
        syn::Stmt::Macro(m) => Statement::Macro { lines: path_lines(&m.mac.path) },
    }
}

/// The statements of a `syn::Block`.
#[verifier::external_body]
fn stmts_of(b: &syn::Block) -> Vec<Statement> {
    b.stmts.iter().map(stmt_of).collect()
}

/// Tells what `syn::visit` meets on its way through a file.
struct Gathered {
    events: Vec<Event>,
}

impl<'ast> Visit<'ast> for Gathered {
    /// A function, with the line of its name; then what stands in it.
    #[verifier::external_body]
    fn visit_item_fn(&mut self, node: &'ast syn::ItemFn) {
        self.events.push(Event::Fn {
            name: node.sig.ident.to_string(),
            line: node.sig.ident.span().start().line,
            body: stmts_of(&node.block),
            is_method: false,
        });
        syn::visit::visit_item_fn(self, node);
    }

    /// An `impl`, with the name of its type where that is a path; what stands in it;
    /// and its end.
    #[verifier::external_body]
    fn visit_item_impl(&mut self, node: &'ast syn::ItemImpl) {
        self.events.push(Event::EnterImpl {
            segments: match &*node.self_ty {
                syn::Type::Path(t) => Some(path_names(&t.path)),
                _ => None,
            },
        });
        syn::visit::visit_item_impl(self, node);
        self.events.push(Event::LeaveImpl);
    }

    /// A method; then what stands in it.
    #[verifier::external_body]
    fn visit_impl_item_fn(&mut self, node: &'ast syn::ImplItemFn) {
        self.events.push(Event::Fn {
            name: node.sig.ident.to_string(),
            line: node.sig.ident.span().start().line,
            body: stmts_of(&node.block),
            is_method: true,
        });
        syn::visit::visit_impl_item_fn(self, node);
    }

    /// A constant of a type; then what stands in it.
    #[verifier::external_body]
    fn visit_impl_item_const(&mut self, node: &'ast syn::ImplItemConst) {
        self.events.push(Event::Const {
            name: node.ident.to_string(),
            line: node.ident.span().start().line,
            value: expr_of(&node.expr),
            is_public: matches!(node.vis, syn::Visibility::Public(_)),
            in_impl: true,
        });
        syn::visit::visit_impl_item_const(self, node);
    }

    /// A constant; then what stands in it.
    #[verifier::external_body]
    fn visit_item_const(&mut self, node: &'ast syn::ItemConst) {
        self.events.push(Event::Const {
            name: node.ident.to_string(),
            line: node.ident.span().start().line,
            value: expr_of(&node.expr),
            is_public: matches!(node.vis, syn::Visibility::Public(_)),
            in_impl: false,
        });
        syn::visit::visit_item_const(self, node);
    }

    /// A static; then what stands in it.
    #[verifier::external_body]
    fn visit_item_static(&mut self, node: &'ast syn::ItemStatic) {
        self.events.push(Event::Static {
            name: node.ident.to_string(),
            line: node.ident.span().start().line,
            value: expr_of(&node.expr),
            is_public: matches!(node.vis, syn::Visibility::Public(_)),
        });
        syn::visit::visit_item_static(self, node);
    }
}

/// What `syn` makes of the text of a file: what its `visit` meets on the way through
/// what `parse_file` read, or what is wrong with the text.
pub uninterp spec fn parsed_source(text: Seq<char>) -> Result<Seq<Event>, Seq<char>>;

/// What is met on the way through a file: `syn::parse_file`, and `syn::visit::Visit`
/// to go through it. This depends on the text alone, and so does what `syn::Error`
/// says where the text is no program. Places are counted from the start of the text,
/// as `proc_macro2::extra::invalidate_current_thread_spans` has what was read before
/// forgotten; they are numbers of 32 bits.
#[verifier::external_body]
pub(crate) fn parse_source(text: &str) -> (r: Result<Vec<Event>, String>)
    requires
        text@.len() < u32::MAX,
    ensures
        match r {
            Ok(events) => parsed_source(text@) == Ok::<Seq<Event>, Seq<char>>(events@),
            Err(e) => parsed_source(text@) == Err::<Seq<Event>, Seq<char>>(e@),
        },
{
    proc_macro2::extra::invalidate_current_thread_spans();
    let file = syn::parse_file(text).map_err(|e| e.to_string())?;
    let mut all = Gathered { events: Vec::new() };
    all.visit_file(&file);
    Ok(all.events)
}

/// What the text of a file lets out; an error where the text is no program.
pub fn analyze_source(text: &str) -> (r: Result<FileFindings, String>)
    requires
        text@.len() < u32::MAX,
    ensures
        match r {
            Ok(found) => {
                &&& parsed_source(text@) is Ok
                &&& leaks::is_found(found, owners::owned(parsed_source(text@)->Ok_0))
            },
            Err(e) => parsed_source(text@) == Err::<Seq<Event>, Seq<char>>(e@),
        },
{
    match parse_source(text) {
        Ok(events) => {
            let decls = with_owners(events);
            Ok(analyze_file(&decls))
        },
        Err(e) => Err(e),
    }
}

} // verus!

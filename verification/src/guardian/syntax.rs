//! Programs, as far as the search for leaks looks at them.
use vstd::prelude::*;

verus! {

/// A literal.
#[derive(Debug)]
pub enum Literal {
    Str(String),
    ByteStr,
    CStr,
    Byte(u8),
    Char(char),
    /// A whole number, by its decimal digits.
    Int(String),
    /// A floating-point number, by its decimal digits.
    Float(String),
    Bool(bool),
    Other,
}

/// An operator between two expressions, as far as it is told from others.
#[derive(Debug, Clone, Copy, PartialEq, Eq, Structural)]
pub enum Operator {
    And,
    Or,
    Eq,
    Ne,
    Lt,
    Le,
    Gt,
    Ge,
    Other,
}

/// An expression. Lines and columns say where it starts.
#[derive(Debug)]
pub enum Expression {
    Lit { lit: Literal, line: usize, col: usize },
    /// A name: a single identifier, or several with `::` between them, each with its
    /// line.
    Path { segments: Vec<String>, lines: Vec<usize>, is_ident: bool },
    Binary { op: Operator, left: Box<Expression>, right: Box<Expression> },
    Unary(Box<Expression>),
    Paren(Box<Expression>),
    Tuple(Vec<Expression>),
    Array(Vec<Expression>),
    /// A value of a struct, whose name stands on these lines.
    Struct { lines: Vec<usize>, fields: Vec<Expression> },
    If { cond: Box<Expression>, then_branch: Vec<Statement>, else_branch: Option<Box<Expression>> },
    Match { scrutinee: Box<Expression>, arms: Vec<Arm> },
    Block(Vec<Statement>),
    Unsafe(Vec<Statement>),
    Loop { body: Vec<Statement>, line: usize },
    ForLoop(Vec<Statement>),
    Return { value: Option<Box<Expression>>, line: usize },
    Reference(Box<Expression>),
    Cast(Box<Expression>),
    Field(Box<Expression>),
    Index(Box<Expression>),
    Range { start: Option<Box<Expression>>, end: Option<Box<Expression>> },
    Try(Box<Expression>),
    Repeat(Box<Expression>),
    Call { func: Box<Expression>, args: Vec<Expression> },
    MethodCall { receiver: Box<Expression>, method: String, args: Vec<Expression> },
    Assign { left: Box<Expression>, right: Box<Expression> },
    Break(Option<Box<Expression>>),
    Other,
}

/// An arm of a `match`.
#[derive(Debug)]
pub struct Arm {
    pub pat: Pattern,
    pub body: Expression,
}

/// A statement.
#[derive(Debug)]
pub enum Statement {
    /// `let`, with what follows an `else`.
    Local { pat: Pattern, init: Option<Expression>, diverge: Option<Expression>, line: usize },
    Expr { expr: Expression, semi: bool },
    Item,
    /// A macro, whose name stands on these lines.
    Macro { lines: Vec<usize> },
}

/// A pattern.
#[derive(Debug)]
pub enum Pattern {
    Ident(String),
    Tuple(Vec<Pattern>),
    TupleStruct(Vec<Pattern>),
    Struct(Vec<Pattern>),
    Reference(Box<Pattern>),
    Type(Box<Pattern>),
    Slice(Vec<Pattern>),
    Or(Vec<Pattern>),
    Other,
}

/// The names that patterns bind, one pattern after the other.
pub open spec fn all_pat_names(ps: Seq<Pattern>, n: int) -> Seq<Seq<char>>
    decreases ps, n,
{
    if n <= 0 || n > ps.len() {
        Seq::empty()
    } else {
        all_pat_names(ps, n - 1) + pat_names(ps[n - 1])
    }
}

/// The names that a pattern binds; of alternatives the first one counts.
pub open spec fn pat_names(p: Pattern) -> Seq<Seq<char>>
    decreases p,
{
    match p {
        Pattern::Ident(name) => seq![name@],
        Pattern::Tuple(ps) => all_pat_names(ps@, ps@.len() as int),
        Pattern::TupleStruct(ps) => all_pat_names(ps@, ps@.len() as int),
        Pattern::Struct(ps) => all_pat_names(ps@, ps@.len() as int),
        Pattern::Reference(q) => pat_names(*q),
        Pattern::Type(q) => pat_names(*q),
        Pattern::Slice(ps) => all_pat_names(ps@, ps@.len() as int),
        Pattern::Or(ps) => if ps@.len() > 0 {
            pat_names(ps@[0])
        } else {
            Seq::empty()
        },
        Pattern::Other => Seq::empty(),
    }
}

/// An operator that compares, or combines truth values.
pub open spec fn gives_bool(op: Operator) -> bool {
    !(op is Other)
}

/// The first of some lines; zero where there is none.
pub open spec fn first_line(lines: Seq<usize>) -> usize {
    if lines.len() > 0 {
        lines[0]
    } else {
        0
    }
}

/// The line where a list of statements starts; zero where that is not known.
pub open spec fn block_line(stmts: Seq<Statement>) -> usize
    decreases stmts,
{
    if stmts.len() > 0 {
        stmt_line(stmts[0])
    } else {
        0
    }
}

/// The line where a list of expressions starts; zero where that is not known.
pub open spec fn list_line(es: Seq<Expression>) -> usize
    decreases es,
{
    if es.len() > 0 {
        expr_line(es[0])
    } else {
        0
    }
}

pub open spec fn stmt_line(s: Statement) -> usize
    decreases s,
{
    match s {
        Statement::Local { line, .. } => line,
        Statement::Expr { expr, .. } => expr_line(expr),
        Statement::Item => 0,
        Statement::Macro { lines } => first_line(lines@),
    }
}

/// The line where an expression starts; zero where that is not known.
pub open spec fn expr_line(e: Expression) -> usize
    decreases e,
{
    match e {
        Expression::Lit { lit, line, .. } => match lit {
            Literal::CStr => 0,
            Literal::Other => 0,
            _ => line,
        },
        Expression::Path { lines, .. } => first_line(lines@),
        Expression::Return { line, .. } => line,
        Expression::Binary { left, .. } => expr_line(*left),
        Expression::Unary(x) => expr_line(*x),
        Expression::Paren(x) => expr_line(*x),
        Expression::Reference(x) => expr_line(*x),
        Expression::Block(b) => block_line(b@),
        Expression::If { cond, .. } => expr_line(*cond),
        Expression::Match { scrutinee, .. } => expr_line(*scrutinee),
        Expression::Call { func, .. } => expr_line(*func),
        Expression::MethodCall { receiver, .. } => expr_line(*receiver),
        Expression::Tuple(es) => list_line(es@),
        Expression::Array(es) => list_line(es@),
        Expression::Struct { lines, .. } => first_line(lines@),
        Expression::Field(x) => expr_line(*x),
        Expression::Index(x) => expr_line(*x),
        Expression::Cast(x) => expr_line(*x),
        Expression::Loop { line, .. } => line,
        Expression::Repeat(x) => expr_line(*x),
        Expression::Unsafe(b) => block_line(b@),
        Expression::Try(x) => expr_line(*x),
        Expression::Range { start, .. } => match start {
            Some(x) => expr_line(*x),
            None => 0,
        },
        _ => 0,
    }
}

/// The names that patterns bind.
pub fn names_of_all(ps: &Vec<Pattern>) -> (r: Vec<String>)
    ensures
        crate::text::search::views(r@) == all_pat_names(ps@, ps@.len() as int),
    decreases ps, 1int,
{
    let mut out: Vec<String> = Vec::new();
    let mut i: usize = 0;
    assert(crate::text::search::views(out@) =~= Seq::<Seq<char>>::empty());
    while i < ps.len()
        invariant
            i <= ps@.len(),
            crate::text::search::views(out@) == all_pat_names(ps@, i as int),
        decreases ps@.len() - i,
    {
        let mut more = extract_pat_names(&ps[i]);
        let ghost had = out@;
        let ghost new = more@;
        out.append(&mut more);
        assert(crate::text::search::views(out@) =~= crate::text::search::views(had)
            + crate::text::search::views(new));
        i = i + 1;
    }
    out
}

/// The names that a pattern binds.
pub fn extract_pat_names(p: &Pattern) -> (r: Vec<String>)
    ensures
        crate::text::search::views(r@) == pat_names(*p),
    decreases p, 0int,
{
    match p {
        Pattern::Ident(name) => {
            let mut out: Vec<String> = Vec::new();
            out.push(name.clone());
            assert(crate::text::search::views(out@) =~= seq![name@]);
            out
        },
        Pattern::Tuple(ps) => names_of_all(ps),
        Pattern::TupleStruct(ps) => names_of_all(ps),
        Pattern::Struct(ps) => names_of_all(ps),
        Pattern::Reference(q) => extract_pat_names(q),
        Pattern::Type(q) => extract_pat_names(q),
        Pattern::Slice(ps) => names_of_all(ps),
        Pattern::Or(ps) => if ps.len() > 0 {
            extract_pat_names(&ps[0])
        } else {
            let out: Vec<String> = Vec::new();
            assert(crate::text::search::views(out@) =~= Seq::<Seq<char>>::empty());
            out
        },
        Pattern::Other => {
            let out: Vec<String> = Vec::new();
            assert(crate::text::search::views(out@) =~= Seq::<Seq<char>>::empty());
            out
        },
    }
}

fn get_first_line(lines: &Vec<usize>) -> (r: usize)
    ensures
        r == first_line(lines@),
{
    if lines.len() > 0 {
        lines[0]
    } else {
        0
    }
}

fn get_list_line(es: &Vec<Expression>) -> (r: usize)
    ensures
        r == list_line(es@),
    decreases es,
{
    if es.len() > 0 {
        get_expr_line(&es[0])
    } else {
        0
    }
}

fn get_block_line(stmts: &Vec<Statement>) -> (r: usize)
    ensures
        r == block_line(stmts@),
    decreases stmts,
{
    if stmts.len() > 0 {
        get_stmt_line(&stmts[0])
    } else {
        0
    }
}

/// The line where a statement starts.
pub fn get_stmt_line(s: &Statement) -> (r: usize)
    ensures
        r == stmt_line(*s),
    decreases s,
{
    match s {
        Statement::Local { line, .. } => *line,
        Statement::Expr { expr, .. } => get_expr_line(expr),
        Statement::Item => 0,
        Statement::Macro { lines } => get_first_line(lines),
    }
}

/// The line where an expression starts.
pub fn get_expr_line(e: &Expression) -> (r: usize)
    ensures
        r == expr_line(*e),
    decreases e,
{
    match e {
        Expression::Lit { lit, line, .. } => match lit {
            Literal::CStr => 0,
            Literal::Other => 0,
            _ => *line,
        },
        Expression::Path { lines, .. } => get_first_line(lines),
        Expression::Return { line, .. } => *line,
        Expression::Binary { left, .. } => get_expr_line(left),
        Expression::Unary(x) => get_expr_line(x),
        Expression::Paren(x) => get_expr_line(x),
        Expression::Reference(x) => get_expr_line(x),
        Expression::Block(b) => get_block_line(b),
        Expression::If { cond, .. } => get_expr_line(cond),
        Expression::Match { scrutinee, .. } => get_expr_line(scrutinee),
        Expression::Call { func, .. } => get_expr_line(func),
        Expression::MethodCall { receiver, .. } => get_expr_line(receiver),
        Expression::Tuple(es) => get_list_line(es),
        Expression::Array(es) => get_list_line(es),
        Expression::Struct { lines, .. } => get_first_line(lines),
        Expression::Field(x) => get_expr_line(x),
        Expression::Index(x) => get_expr_line(x),
        Expression::Cast(x) => get_expr_line(x),
        Expression::Loop { line, .. } => *line,
        Expression::Repeat(x) => get_expr_line(x),
        Expression::Unsafe(b) => get_block_line(b),
        Expression::Try(x) => get_expr_line(x),
        Expression::Range { start, .. } => match start {
            Some(x) => get_expr_line(x),
            None => 0,
        },
        _ => 0,
    }
}

} // verus!

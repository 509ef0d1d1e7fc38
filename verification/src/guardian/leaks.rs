//! The literals that leave functions and public constants, and the report on them.
use vstd::prelude::*;

use crate::guardian::evaluate;
use crate::guardian::evaluate::{
    copy_env, process_expr_stmt, process_local, sym_eval, sym_eval_block, LiteralInfo, LiteralModel,
    SymValue, VarEnv,
};
use crate::guardian::syntax;
use crate::guardian::syntax::{get_expr_line, Arm, Expression, Statement};
use crate::registry::Registry;
use crate::text::number;
use crate::text::number::push_dec;
use crate::text::search;
use crate::text::space;
use crate::text::space::{lines, trim};

verus! {

/// A `return`, and what is known of the value that it gives back.
#[derive(Debug)]
pub struct ExplicitReturn {
    pub line: usize,
    pub sym_value: SymValue,
}

/// The line of a `return`, and the literals that it gives back.
pub open spec fn return_model(r: ExplicitReturn) -> (usize, Seq<LiteralModel>) {
    (r.line, r.sym_value@)
}

pub open spec fn return_models(rs: Seq<ExplicitReturn>) -> Seq<(usize, Seq<LiteralModel>)> {
    rs.map_values(|r: ExplicitReturn| return_model(r))
}

/// The `return`s in the first `n` statements of a block.
pub open spec fn block_returns(
    stmts: Seq<Statement>,
    n: int,
    env: Map<Seq<char>, Seq<LiteralModel>>,
    fns: Map<Seq<char>, Seq<LiteralModel>>,
) -> Seq<(usize, Seq<LiteralModel>)>
    decreases stmts, n,
{
    if n <= 0 || n > stmts.len() {
        Seq::empty()
    } else {
        block_returns(stmts, n - 1, env, fns) + (match stmts[n - 1] {
            Statement::Local { init: Some(_), diverge: Some(d), .. } => expr_returns(
                d,
                evaluate::block_env(stmts, n, env, fns),
                fns,
            ),
            Statement::Expr { expr, .. } => expr_returns(
                expr,
                evaluate::block_env(stmts, n - 1, env, fns),
                fns,
            ),
            _ => Seq::empty(),
        })
    }
}

pub open spec fn arm_returns(
    arms: Seq<Arm>,
    n: int,
    env: Map<Seq<char>, Seq<LiteralModel>>,
    fns: Map<Seq<char>, Seq<LiteralModel>>,
) -> Seq<(usize, Seq<LiteralModel>)>
    decreases arms, n,
{
    if n <= 0 || n > arms.len() {
        Seq::empty()
    } else {
        arm_returns(arms, n - 1, env, fns) + expr_returns(arms[n - 1].body, env, fns)
    }
}

/// The `return`s in an expression; those of closures are not its own.
pub open spec fn expr_returns(
    e: Expression,
    env: Map<Seq<char>, Seq<LiteralModel>>,
    fns: Map<Seq<char>, Seq<LiteralModel>>,
) -> Seq<(usize, Seq<LiteralModel>)>
    decreases e,
{
    match e {
        Expression::Return { value, line } => seq![
            (
                line,
                match value {
                    Some(x) => evaluate::eval(*x, env, fns),
                    None => Seq::empty(),
                },
            ),
        ],
        Expression::Block(b) => block_returns(b@, b@.len() as int, env, fns),
        Expression::If { then_branch, else_branch, .. } => block_returns(
            then_branch@,
            then_branch@.len() as int,
            env,
            fns,
        ) + (match else_branch {
            Some(x) => expr_returns(*x, env, fns),
            None => Seq::empty(),
        }),
        Expression::Match { arms, .. } => arm_returns(arms@, arms@.len() as int, env, fns),
        Expression::Loop { body, .. } => block_returns(body@, body@.len() as int, env, fns),
        Expression::ForLoop(body) => block_returns(body@, body@.len() as int, env, fns),
        Expression::Unsafe(b) => block_returns(b@, b@.len() as int, env, fns),
        _ => Seq::empty(),
    }
}

proof fn lemma_models_append(a: Seq<ExplicitReturn>, b: Seq<ExplicitReturn>)
    ensures
        return_models(a + b) == return_models(a) + return_models(b),
{
    assert(return_models(a + b) =~= return_models(a) + return_models(b));
}

/// The `return`s in a block.
pub fn find_explicit_returns(stmts: &Vec<Statement>, outer: &VarEnv, fns: &VarEnv) -> (r: Vec<
    ExplicitReturn,
>)
    requires
        outer.wf(),
        fns.wf(),
    ensures
        return_models(r@) == block_returns(
            stmts@,
            stmts@.len() as int,
            evaluate::known(outer@),
            evaluate::known(fns@),
        ),
    decreases stmts, 1int,
{
    let ghost e0 = evaluate::known(outer@);
    let ghost f0 = evaluate::known(fns@);
    let mut env = copy_env(outer);
    let mut out: Vec<ExplicitReturn> = Vec::new();
    let mut i: usize = 0;
    assert(return_models(out@) =~= Seq::<(usize, Seq<LiteralModel>)>::empty());
    while i < stmts.len()
        invariant
            i <= stmts@.len(),
            env.wf(),
            fns.wf(),
            f0 == evaluate::known(fns@),
            evaluate::known(env@) == evaluate::block_env(stmts@, i as int, e0, f0),
            return_models(out@) == block_returns(stmts@, i as int, e0, f0),
        decreases stmts@.len() - i,
    {
        let ghost had = out@;
        match &stmts[i] {
            Statement::Local { pat, init, diverge, .. } => {
                process_local(pat, init, &mut env, fns);
                if init.is_some() {
                    if let Some(d) = diverge {
                        let mut more = find_returns_in_expr(d, &env, fns);
                        proof {
                            lemma_models_append(out@, more@);
                        }
                        out.append(&mut more);
                    }
                }
            },
            Statement::Expr { expr, .. } => {
                let mut more = find_returns_in_expr(expr, &env, fns);
                proof {
                    lemma_models_append(out@, more@);
                }
                out.append(&mut more);
                process_expr_stmt(expr, &mut env, fns);
            },
            _ => {},
        }
        i = i + 1;
        assert(return_models(out@) =~= block_returns(stmts@, i as int, e0, f0));
    }
    out
}

fn find_returns_in_arms(arms: &Vec<Arm>, env: &VarEnv, fns: &VarEnv) -> (r: Vec<ExplicitReturn>)
    requires
        env.wf(),
        fns.wf(),
    ensures
        return_models(r@) == arm_returns(
            arms@,
            arms@.len() as int,
            evaluate::known(env@),
            evaluate::known(fns@),
        ),
    decreases arms, 1int,
{
    let mut out: Vec<ExplicitReturn> = Vec::new();
    let mut i: usize = 0;
    assert(return_models(out@) =~= Seq::<(usize, Seq<LiteralModel>)>::empty());
    while i < arms.len()
        invariant
            i <= arms@.len(),
            env.wf(),
            fns.wf(),
            return_models(out@) == arm_returns(
                arms@,
                i as int,
                evaluate::known(env@),
                evaluate::known(fns@),
            ),
        decreases arms@.len() - i,
    {
        let mut more = find_returns_in_expr(&arms[i].body, env, fns);
        proof {
            lemma_models_append(out@, more@);
        }
        out.append(&mut more);
        i = i + 1;
    }
    out
}

/// The `return`s in an expression.
pub fn find_returns_in_expr(e: &Expression, env: &VarEnv, fns: &VarEnv) -> (r: Vec<ExplicitReturn>)
    requires
        env.wf(),
        fns.wf(),
    ensures
        return_models(r@) == expr_returns(*e, evaluate::known(env@), evaluate::known(fns@)),
    decreases e, 0int,
{
    match e {
        Expression::Return { value, line } => {
            let v = match value {
                Some(x) => sym_eval(x, env, fns),
                None => SymValue::Opaque,
            };
            let mut out: Vec<ExplicitReturn> = Vec::new();
            out.push(ExplicitReturn { line: *line, sym_value: v });
            assert(return_models(out@) =~= expr_returns(
                *e,
                evaluate::known(env@),
                evaluate::known(fns@),
            ));
            out
        },
        Expression::Block(b) => find_explicit_returns(b, env, fns),
        Expression::If { then_branch, else_branch, .. } => {
            let mut out = find_explicit_returns(then_branch, env, fns);
            match else_branch {
                Some(x) => {
                    let mut more = find_returns_in_expr(x, env, fns);
                    proof {
                        lemma_models_append(out@, more@);
                    }
                    out.append(&mut more);
                },
                None => {
                    assert(return_models(out@) + Seq::<(usize, Seq<LiteralModel>)>::empty()
                        =~= return_models(out@));
                },
            }
            out
        },
        Expression::Match { arms, .. } => find_returns_in_arms(arms, env, fns),
        Expression::Loop { body, .. } => find_explicit_returns(body, env, fns),
        Expression::ForLoop(body) => find_explicit_returns(body, env, fns),
        Expression::Unsafe(b) => find_explicit_returns(b, env, fns),
        _ => {
            let out: Vec<ExplicitReturn> = Vec::new();
            assert(return_models(out@) =~= Seq::<(usize, Seq<LiteralModel>)>::empty());
            out
        },
    }
}

/// The literals that `return`s give back, one after the other.
pub open spec fn returned_literals(rs: Seq<(usize, Seq<LiteralModel>)>) -> Seq<LiteralModel>
    decreases rs.len(),
{
    if rs.len() == 0 {
        Seq::empty()
    } else {
        returned_literals(rs.drop_last()) + rs.last().1
    }
}

/// The literals that a function can give back, as far as its own body shows.
pub open spec fn own_literals(body: Seq<Statement>) -> Seq<LiteralModel> {
    evaluate::block_value(body, Map::empty(), Map::empty()) + returned_literals(
        block_returns(body, body.len() as int, Map::empty(), Map::empty()),
    )
}

fn empty_env() -> (r: VarEnv)
    ensures
        r.wf(),
        evaluate::known(r@) == Map::<Seq<char>, Seq<LiteralModel>>::empty(),
{
    let r: VarEnv = Registry::new();
    assert(evaluate::known(r@) =~= Map::<Seq<char>, Seq<LiteralModel>>::empty());
    r
}

proof fn lemma_all_of_returns(vals: Seq<SymValue>, n: int, rs: Seq<ExplicitReturn>)
    requires
        vals.len() == 1 + rs.len(),
        0 <= n <= rs.len(),
        forall|i: int| 0 <= i < rs.len() ==> (#[trigger] vals[i + 1])@ == rs[i].sym_value@,
    ensures
        evaluate::all_literals(vals, n + 1) == vals[0]@ + returned_literals(
            return_models(rs).take(n),
        ),
    decreases n,
{
    if n > 0 {
        lemma_all_of_returns(vals, n - 1, rs);
        let ms = return_models(rs);
        assert(ms.take(n).drop_last() =~= ms.take(n - 1));
        assert(vals[n - 1 + 1]@ == rs[n - 1].sym_value@);
        assert(evaluate::all_literals(vals, n + 1) =~= vals[0]@ + returned_literals(ms.take(n)));
    } else {
        assert(evaluate::all_literals(vals, 0) =~= Seq::<LiteralModel>::empty());
        assert(evaluate::all_literals(vals, 1) =~= vals[0]@);
        assert(return_models(rs).take(0) =~= Seq::<(usize, Seq<LiteralModel>)>::empty());
        assert(vals[0]@ + Seq::<LiteralModel>::empty() =~= vals[0]@);
    }
}

/// What a function can give back, as far as its own body shows.
pub fn collect_fn_return_value(body: &Vec<Statement>) -> (r: SymValue)
    ensures
        r@ == own_literals(body@),
{
    let nothing = empty_env();
    let no_fns = empty_env();
    let tail = sym_eval_block(body, &nothing, &no_fns);
    let explicit = find_explicit_returns(body, &nothing, &no_fns);
    let mut vals: Vec<SymValue> = Vec::new();
    vals.push(tail);
    let mut i: usize = 0;
    while i < explicit.len()
        invariant
            i <= explicit@.len(),
            vals@.len() == 1 + i,
            vals@[0] == tail,
            forall|k: int| 0 <= k < i ==> (#[trigger] vals@[k + 1])@ == explicit@[k].sym_value@,
        decreases explicit@.len() - i,
    {
        let v = explicit[i].sym_value.copy();
        let ghost had = vals@;
        vals.push(v);
        i = i + 1;
        assert forall|k: int| 0 <= k < i implies (#[trigger] vals@[k + 1])@
            == explicit@[k].sym_value@ by {
            if k < i - 1 {
                assert(vals@[k + 1] == had[k + 1]);
            }
        }
    }
    proof {
        lemma_all_of_returns(vals@, explicit@.len() as int, explicit@);
        assert(return_models(explicit@).take(explicit@.len() as int) =~= return_models(explicit@));
    }
    SymValue::compound(vals)
}

/// A declaration, in the order in which a file is gone through. Methods and
/// associated constants may know the type that they belong to.
#[derive(Debug)]
pub enum Decl {
    Fn { name: String, line: usize, body: Vec<Statement>, is_method: bool, owner: Option<String> },
    Const {
        name: String,
        line: usize,
        value: Expression,
        is_public: bool,
        in_impl: bool,
        owner: Option<String>,
    },
    Static { name: String, line: usize, value: Expression, is_public: bool },
}

/// A name within a type.
pub open spec fn qualified(owner: Seq<char>, name: Seq<char>) -> Seq<char> {
    owner + "::"@ + name
}

pub open spec fn insert_owned(
    fns: Map<Seq<char>, Seq<LiteralModel>>,
    owner: Option<String>,
    name: Seq<char>,
    v: Seq<LiteralModel>,
) -> Map<Seq<char>, Seq<LiteralModel>> {
    match owner {
        Some(t) => fns.insert(qualified(t@, name), v),
        None => fns,
    }
}

/// What functions give back and associated constants stand for, after the first `n`
/// declarations.
pub open spec fn collected(decls: Seq<Decl>, n: int) -> Map<Seq<char>, Seq<LiteralModel>>
    decreases n,
{
    if n <= 0 || n > decls.len() {
        Map::empty()
    } else {
        let before = collected(decls, n - 1);
        match decls[n - 1] {
            Decl::Fn { name, body, is_method, owner, .. } => {
                let v = own_literals(body@);
                let named = before.insert(name@, v);
                if is_method {
                    insert_owned(named, owner, name@, v)
                } else {
                    named
                }
            },
            Decl::Const { name, value, in_impl, owner, .. } => if in_impl {
                let v = evaluate::eval(value, Map::empty(), before);
                insert_owned(before.insert(qualified("Self"@, name@), v), owner, name@, v)
            } else {
                before
            },
            Decl::Static { .. } => before,
        }
    }
}

fn qualify(owner: &str, name: &str) -> (r: String)
    ensures
        r@ == qualified(owner@, name@),
{
    let mut s = owner.to_string();
    s.push_str("::");
    s.push_str(name);
    s
}

fn note(fns: &mut VarEnv, name: &str, v: &SymValue)
    requires
        old(fns).wf(),
    ensures
        final(fns).wf(),
        evaluate::known(final(fns)@) == evaluate::known(old(fns)@).insert(name@, v@),
{
    let w = v.copy();
    fns.insert(name, w);
    assert(evaluate::known(fns@) =~= evaluate::known(old(fns)@).insert(name@, v@));
}

fn note_owned(fns: &mut VarEnv, owner: &Option<String>, name: &str, v: &SymValue)
    requires
        old(fns).wf(),
    ensures
        final(fns).wf(),
        evaluate::known(final(fns)@) == insert_owned(
            evaluate::known(old(fns)@),
            *owner,
            name@,
            v@,
        ),
{
    if let Some(t) = owner {
        let q = qualify(t.as_str(), name);
        note(fns, q.as_str(), v);
    }
}

/// What the functions of a file give back and its associated constants stand for.
pub fn collect_returns(decls: &Vec<Decl>) -> (r: VarEnv)
    ensures
        r.wf(),
        evaluate::known(r@) == collected(decls@, decls@.len() as int),
{
    let mut fns = empty_env();
    let mut i: usize = 0;
    while i < decls.len()
        invariant
            i <= decls@.len(),
            fns.wf(),
            evaluate::known(fns@) == collected(decls@, i as int),
        decreases decls@.len() - i,
    {
        match &decls[i] {
            Decl::Fn { name, body, is_method, owner, .. } => {
                let v = collect_fn_return_value(body);
                note(&mut fns, name.as_str(), &v);
                if *is_method {
                    note_owned(&mut fns, owner, name.as_str(), &v);
                }
            },
            Decl::Const { name, value, in_impl, owner, .. } => {
                if *in_impl {
                    let nothing = empty_env();
                    let v = sym_eval(value, &nothing, &fns);
                    let own = qualify("Self", name.as_str());
                    note(&mut fns, own.as_str(), &v);
                    note_owned(&mut fns, owner, name.as_str(), &v);
                }
            },
            Decl::Static { .. } => {},
        }
        i = i + 1;
    }
    fns
}

/// A function that lets literals out, at the end of its body or at a `return`.
#[derive(Debug)]
pub struct Finding {
    pub fn_name: String,
    pub fn_line: usize,
    pub return_line: usize,
    pub literals: Vec<LiteralInfo>,
    pub is_implicit: bool,
}

pub struct FindingModel {
    pub fn_name: Seq<char>,
    pub fn_line: usize,
    pub return_line: usize,
    pub literals: Seq<LiteralModel>,
    pub is_implicit: bool,
}

impl View for Finding {
    type V = FindingModel;

    open spec fn view(&self) -> FindingModel {
        FindingModel {
            fn_name: self.fn_name@,
            fn_line: self.fn_line,
            return_line: self.return_line,
            literals: evaluate::infos(self.literals@),
            is_implicit: self.is_implicit,
        }
    }
}

pub open spec fn finding_models(fs: Seq<Finding>) -> Seq<FindingModel> {
    fs.map_values(|f: Finding| f@)
}

/// A public constant or static that lets literals out.
#[derive(Debug)]
pub struct ConstStaticFinding {
    pub name: String,
    pub line: usize,
    pub kind: &'static str,
    pub literals: Vec<LiteralInfo>,
}

pub struct ConstModel {
    pub name: Seq<char>,
    pub line: usize,
    pub kind: Seq<char>,
    pub literals: Seq<LiteralModel>,
}

impl View for ConstStaticFinding {
    type V = ConstModel;

    open spec fn view(&self) -> ConstModel {
        ConstModel {
            name: self.name@,
            line: self.line,
            kind: self.kind@,
            literals: evaluate::infos(self.literals@),
        }
    }
}

pub open spec fn const_models(fs: Seq<ConstStaticFinding>) -> Seq<ConstModel> {
    fs.map_values(|f: ConstStaticFinding| f@)
}

/// The line of the value of a block; zero where it has none.
pub open spec fn tail_line(body: Seq<Statement>) -> usize {
    if body.len() > 0 {
        match body[body.len() - 1] {
            Statement::Expr { expr, semi: false } => syntax::expr_line(expr),
            _ => 0,
        }
    } else {
        0
    }
}

/// The `return`s among the first `n` that let literals out.
pub open spec fn leaking_returns(
    name: Seq<char>,
    fn_line: usize,
    rs: Seq<(usize, Seq<LiteralModel>)>,
    n: int,
) -> Seq<FindingModel>
    decreases n,
{
    if n <= 0 || n > rs.len() {
        Seq::empty()
    } else {
        let before = leaking_returns(name, fn_line, rs, n - 1);
        if rs[n - 1].1.len() > 0 {
            before.push(
                FindingModel {
                    fn_name: name,
                    fn_line,
                    return_line: rs[n - 1].0,
                    literals: rs[n - 1].1,
                    is_implicit: false,
                },
            )
        } else {
            before
        }
    }
}

/// Where a function lets literals out: at the end of its body, then at its
/// `return`s.
pub open spec fn fn_findings(
    name: Seq<char>,
    fn_line: usize,
    body: Seq<Statement>,
    fns: Map<Seq<char>, Seq<LiteralModel>>,
) -> Seq<FindingModel> {
    let tail = evaluate::block_value(body, Map::empty(), fns);
    let rs = block_returns(body, body.len() as int, Map::empty(), fns);
    (if tail.len() > 0 {
        seq![
            FindingModel {
                fn_name: name,
                fn_line,
                return_line: tail_line(body),
                literals: tail,
                is_implicit: true,
            },
        ]
    } else {
        Seq::empty()
    }) + leaking_returns(name, fn_line, rs, rs.len() as int)
}

/// Where a function lets literals out.
pub fn analyze_function(name: &str, fn_line: usize, body: &Vec<Statement>, fns: &VarEnv) -> (r: Vec<
    Finding,
>)
    requires
        fns.wf(),
    ensures
        finding_models(r@) == fn_findings(name@, fn_line, body@, evaluate::known(fns@)),
{
    let nothing = empty_env();
    let mut out: Vec<Finding> = Vec::new();
    assert(finding_models(out@) =~= Seq::<FindingModel>::empty());
    let tail = sym_eval_block(body, &nothing, fns);
    let lits = tail.extract_literals();
    assert(evaluate::infos(lits@).len() == lits@.len());
    if lits.len() > 0 {
        let n: usize = body.len();
        let return_line: usize = if n > 0 {
            match &body[n - 1] {
                Statement::Expr { expr, semi } => if *semi {
                    0
                } else {
                    get_expr_line(expr)
                },
                _ => 0,
            }
        } else {
            0
        };
        out.push(
            Finding {
                fn_name: name.to_string(),
                fn_line,
                return_line,
                literals: lits,
                is_implicit: true,
            },
        );
    }
    let ghost head = finding_models(out@);
    let explicit = find_explicit_returns(body, &nothing, fns);
    let ghost rs = return_models(explicit@);
    let mut i: usize = 0;
    assert(head + leaking_returns(name@, fn_line, rs, 0) =~= head);
    while i < explicit.len()
        invariant
            i <= explicit@.len(),
            rs == return_models(explicit@),
            finding_models(out@) == head + leaking_returns(name@, fn_line, rs, i as int),
        decreases explicit@.len() - i,
    {
        let more = explicit[i].sym_value.extract_literals();
        assert(rs[i as int] == return_model(explicit@[i as int]));
        assert(evaluate::infos(more@).len() == more@.len());
        if more.len() > 0 {
            let ghost had = out@;
            let f = Finding {
                fn_name: name.to_string(),
                fn_line,
                return_line: explicit[i].line,
                literals: more,
                is_implicit: false,
            };
            let ghost fm = f@;
            out.push(f);
            assert(finding_models(out@) =~= finding_models(had).push(fm));
            assert(finding_models(out@) =~= head + leaking_returns(name@, fn_line, rs, i + 1));
        }
        i = i + 1;
    }
    proof {
        let tail_lits = evaluate::block_value(body@, Map::empty(), evaluate::known(fns@));
        if tail_lits.len() > 0 {
            assert(head =~= seq![
                FindingModel {
                    fn_name: name@,
                    fn_line,
                    return_line: tail_line(body@),
                    literals: tail_lits,
                    is_implicit: true,
                },
            ]);
        } else {
            assert(head =~= Seq::<FindingModel>::empty());
        }
    }
    out
}

/// The functions among the first `n` declarations that let literals out.
pub open spec fn all_fn_findings(
    decls: Seq<Decl>,
    n: int,
    fns: Map<Seq<char>, Seq<LiteralModel>>,
) -> Seq<FindingModel>
    decreases n,
{
    if n <= 0 || n > decls.len() {
        Seq::empty()
    } else {
        all_fn_findings(decls, n - 1, fns) + (match decls[n - 1] {
            Decl::Fn { name, line, body, .. } => fn_findings(name@, line, body@, fns),
            _ => Seq::empty(),
        })
    }
}

/// The public constants and statics among the first `n` declarations that let
/// literals out.
pub open spec fn all_const_findings(
    decls: Seq<Decl>,
    n: int,
    fns: Map<Seq<char>, Seq<LiteralModel>>,
) -> Seq<ConstModel>
    decreases n,
{
    if n <= 0 || n > decls.len() {
        Seq::empty()
    } else {
        all_const_findings(decls, n - 1, fns) + const_findings(decls[n - 1], fns)
    }
}

pub open spec fn const_findings(d: Decl, fns: Map<Seq<char>, Seq<LiteralModel>>) -> Seq<ConstModel> {
    match d {
        Decl::Const { name, line, value, is_public: true, .. } => exposed(
            name@,
            line,
            "const"@,
            evaluate::eval(value, Map::empty(), fns),
        ),
        Decl::Static { name, line, value, is_public: true } => exposed(
            name@,
            line,
            "static"@,
            evaluate::eval(value, Map::empty(), fns),
        ),
        _ => Seq::empty(),
    }
}

pub open spec fn exposed(
    name: Seq<char>,
    line: usize,
    kind: Seq<char>,
    literals: Seq<LiteralModel>,
) -> Seq<ConstModel> {
    if literals.len() > 0 {
        seq![ConstModel { name, line, kind, literals }]
    } else {
        Seq::empty()
    }
}

/// What a file lets out.
#[derive(Debug)]
pub struct FileFindings {
    pub findings: Vec<Finding>,
    pub const_findings: Vec<ConstStaticFinding>,
}

fn analyze_const(name: &str, line: usize, kind: &'static str, value: &Expression, fns: &VarEnv) -> (r: Vec<
    ConstStaticFinding,
>)
    requires
        fns.wf(),
    ensures
        const_models(r@) == exposed(
            name@,
            line,
            kind@,
            evaluate::eval(*value, Map::empty(), evaluate::known(fns@)),
        ),
{
    let nothing = empty_env();
    let v = sym_eval(value, &nothing, fns);
    let lits = v.extract_literals();
    assert(evaluate::infos(lits@).len() == lits@.len());
    let mut out: Vec<ConstStaticFinding> = Vec::new();
    if lits.len() > 0 {
        out.push(ConstStaticFinding { name: name.to_string(), line, kind, literals: lits });
    }
    assert(const_models(out@) =~= exposed(name@, line, kind@, v@));
    out
}

/// What declarations let out: first it is seen what the functions give back, then
/// each declaration is looked at with that in mind.
pub open spec fn is_found(found: FileFindings, decls: Seq<Decl>) -> bool {
    let n = decls.len() as int;
    let fns = collected(decls, n);
    &&& finding_models(found.findings@) == all_fn_findings(decls, n, fns)
    &&& const_models(found.const_findings@) == all_const_findings(decls, n, fns)
}

/// What the declarations of a file let out.
pub fn analyze_file(decls: &Vec<Decl>) -> (r: FileFindings)
    ensures
        is_found(r, decls@),
{
    let fns = collect_returns(decls);
    let ghost f0 = evaluate::known(fns@);
    let mut findings: Vec<Finding> = Vec::new();
    let mut const_findings: Vec<ConstStaticFinding> = Vec::new();
    let mut i: usize = 0;
    assert(finding_models(findings@) =~= Seq::<FindingModel>::empty());
    assert(const_models(const_findings@) =~= Seq::<ConstModel>::empty());
    while i < decls.len()
        invariant
            i <= decls@.len(),
            fns.wf(),
            f0 == evaluate::known(fns@),
            finding_models(findings@) == all_fn_findings(decls@, i as int, f0),
            const_models(const_findings@) == all_const_findings(decls@, i as int, f0),
        decreases decls@.len() - i,
    {
        let ghost had = findings@;
        let ghost had_consts = const_findings@;
        match &decls[i] {
            Decl::Fn { name, line, body, .. } => {
                let mut more = analyze_function(name.as_str(), *line, body, &fns);
                let ghost new = more@;
                findings.append(&mut more);
                assert(finding_models(findings@) =~= finding_models(had) + finding_models(new));
            },
            Decl::Const { name, line, value, is_public, .. } => {
                if *is_public {
                    let mut more = analyze_const(name.as_str(), *line, "const", value, &fns);
                    let ghost new = more@;
                    const_findings.append(&mut more);
                    assert(const_models(const_findings@) =~= const_models(had_consts)
                        + const_models(new));
                }
            },
            Decl::Static { name, line, value, is_public } => {
                if *is_public {
                    let mut more = analyze_const(name.as_str(), *line, "static", value, &fns);
                    let ghost new = more@;
                    const_findings.append(&mut more);
                    assert(const_models(const_findings@) =~= const_models(had_consts)
                        + const_models(new));
                }
            },
        }
        i = i + 1;
        assert(finding_models(findings@) =~= all_fn_findings(decls@, i as int, f0));
        assert(const_models(const_findings@) =~= all_const_findings(decls@, i as int, f0));
    }
    FileFindings { findings, const_findings }
}

/// The line of the report on a literal.
pub open spec fn literal_line(l: LiteralModel) -> Seq<char> {
    "    literal: "@ + l.value + " ("@ + l.kind + ") at line "@ + number::dec(l.line as nat) + ":"@
        + number::dec(l.col as nat)
}

pub open spec fn literal_lines(ls: Seq<LiteralModel>) -> Seq<Seq<char>> {
    ls.map_values(|l: LiteralModel| literal_line(l))
}

/// The lines of the report on a constant.
pub open spec fn const_lines(f: ConstModel) -> Seq<Seq<char>> {
    seq![
        Seq::empty(),
        "  ⚠ pub "@ + f.kind + " `"@ + f.name + "` (line "@ + number::dec(f.line as nat)
            + ") — exposes literal(s)"@,
    ] + literal_lines(f.literals)
}

/// The lines of the report on a function.
pub open spec fn finding_lines(f: FindingModel, source: Seq<Seq<char>>) -> Seq<Seq<char>> {
    seq![
        Seq::empty(),
        "  ⚠ fn `"@ + f.fn_name + "` (line "@ + number::dec(f.fn_line as nat) + ") — "@ + (
        if f.is_implicit {
            "tail expr"@
        } else {
            "return"@
        }) + " at line "@ + number::dec(f.return_line as nat),
    ] + literal_lines(f.literals) + (if 0 < f.return_line <= source.len() {
        seq!["    source: "@ + space::trimmed(source[f.return_line - 1])]
    } else {
        Seq::empty()
    })
}

pub open spec fn all_const_lines(fs: Seq<ConstModel>, n: int) -> Seq<Seq<char>>
    decreases n,
{
    if n <= 0 || n > fs.len() {
        Seq::empty()
    } else {
        all_const_lines(fs, n - 1) + const_lines(fs[n - 1])
    }
}

pub open spec fn all_finding_lines(fs: Seq<FindingModel>, n: int, source: Seq<Seq<char>>) -> Seq<
    Seq<char>,
>
    decreases n,
{
    if n <= 0 || n > fs.len() {
        Seq::empty()
    } else {
        all_finding_lines(fs, n - 1, source) + finding_lines(fs[n - 1], source)
    }
}

/// The lines of the report on a file: none where it lets nothing out; else its
/// name, its constants, its functions, and a blank line.
pub open spec fn report_lines(
    path: Seq<char>,
    consts: Seq<ConstModel>,
    findings: Seq<FindingModel>,
    source: Seq<Seq<char>>,
) -> Seq<Seq<char>> {
    if consts.len() + findings.len() == 0 {
        Seq::empty()
    } else {
        seq!["━━━ "@ + path + " ━━━"@] + all_const_lines(consts, consts.len() as int)
            + all_finding_lines(findings, findings.len() as int, source) + seq![Seq::empty()]
    }
}

/// Adds the lines on literals.
fn push_literals(out: &mut Vec<String>, ls: &Vec<LiteralInfo>)
    ensures
        search::views(final(out)@) == search::views(old(out)@) + literal_lines(
            evaluate::infos(ls@),
        ),
{
    let ghost start = search::views(out@);
    let ghost all = literal_lines(evaluate::infos(ls@));
    let mut i: usize = 0;
    assert(start + all.take(0) =~= start);
    while i < ls.len()
        invariant
            i <= ls@.len(),
            all == literal_lines(evaluate::infos(ls@)),
            search::views(out@) == start + all.take(i as int),
        decreases ls@.len() - i,
    {
        let l = &ls[i];
        let mut s = "    literal: ".to_string();
        s.push_str(l.value.as_str());
        s.push_str(" (");
        s.push_str(l.kind);
        s.push_str(") at line ");
        push_dec(&mut s, l.line as u64);
        s.push_str(":");
        push_dec(&mut s, l.col as u64);
        proof {
            assert(all[i as int] == s@);
            assert(all.take(i + 1) =~= all.take(i as int).push(s@));
            search::lemma_views_push(out@, s);
            assert(search::views(out@).push(s@) =~= start + all.take(i + 1));
        }
        out.push(s);
        i = i + 1;
    }
    assert(all.take(i as int) =~= all);
}

fn push_line(out: &mut Vec<String>, s: String)
    ensures
        search::views(final(out)@) == search::views(old(out)@).push(s@),
{
    proof {
        search::lemma_views_push(out@, s);
    }
    out.push(s);
}

fn push_const(out: &mut Vec<String>, f: &ConstStaticFinding)
    ensures
        search::views(final(out)@) == search::views(old(out)@) + const_lines(f@),
{
    let ghost start = search::views(out@);
    push_line(out, String::new());
    let mut s = "  ⚠ pub ".to_string();
    s.push_str(f.kind);
    s.push_str(" `");
    s.push_str(f.name.as_str());
    s.push_str("` (line ");
    push_dec(&mut s, f.line as u64);
    s.push_str(") — exposes literal(s)");
    push_line(out, s);
    push_literals(out, &f.literals);
    assert(search::views(out@) =~= start + const_lines(f@));
}

fn push_finding(out: &mut Vec<String>, f: &Finding, source: &Vec<String>)
    ensures
        search::views(final(out)@) == search::views(old(out)@) + finding_lines(
            f@,
            search::views(source@),
        ),
{
    let ghost start = search::views(out@);
    push_line(out, String::new());
    let mut s = "  ⚠ fn `".to_string();
    s.push_str(f.fn_name.as_str());
    s.push_str("` (line ");
    push_dec(&mut s, f.fn_line as u64);
    s.push_str(") — ");
    if f.is_implicit {
        s.push_str("tail expr");
    } else {
        s.push_str("return");
    }
    s.push_str(" at line ");
    push_dec(&mut s, f.return_line as u64);
    push_line(out, s);
    push_literals(out, &f.literals);
    if f.return_line > 0 && f.return_line <= source.len() {
        let mut t = "    source: ".to_string();
        assert(search::views(source@)[f.return_line - 1] == source@[f.return_line - 1]@);
        t.push_str(trim(source[f.return_line - 1].as_str()).as_str());
        push_line(out, t);
    }
    assert(search::views(out@) =~= start + finding_lines(f@, search::views(source@)));
}

/// The lines of the report on a file.
pub fn report(path: &str, found: &FileFindings, source: &str) -> (r: Vec<String>)
    ensures
        search::views(r@) == report_lines(
            path@,
            const_models(found.const_findings@),
            finding_models(found.findings@),
            space::lines_of(source@),
        ),
{
    let mut out: Vec<String> = Vec::new();
    assert(search::views(out@) =~= Seq::<Seq<char>>::empty());
    if found.const_findings.len() == 0 && found.findings.len() == 0 {
        return out;
    }
    let text = lines(source);
    let ghost src = search::views(text@);
    let mut s = "━━━ ".to_string();
    s.push_str(path);
    s.push_str(" ━━━");
    push_line(&mut out, s);
    let ghost head = search::views(out@);
    let ghost cs = const_models(found.const_findings@);
    let ghost fs = finding_models(found.findings@);
    let mut i: usize = 0;
    assert(head + all_const_lines(cs, 0) =~= head);
    while i < found.const_findings.len()
        invariant
            i <= found.const_findings@.len(),
            cs == const_models(found.const_findings@),
            search::views(out@) == head + all_const_lines(cs, i as int),
        decreases found.const_findings@.len() - i,
    {
        assert(cs[i as int] == found.const_findings@[i as int]@);
        push_const(&mut out, &found.const_findings[i]);
        i = i + 1;
        assert(search::views(out@) =~= head + all_const_lines(cs, i as int));
    }
    let ghost middle = search::views(out@);
    let mut j: usize = 0;
    assert(middle + all_finding_lines(fs, 0, src) =~= middle);
    while j < found.findings.len()
        invariant
            j <= found.findings@.len(),
            fs == finding_models(found.findings@),
            src == search::views(text@),
            search::views(out@) == middle + all_finding_lines(fs, j as int, src),
        decreases found.findings@.len() - j,
    {
        assert(fs[j as int] == found.findings@[j as int]@);
        push_finding(&mut out, &found.findings[j], &text);
        j = j + 1;
        assert(search::views(out@) =~= middle + all_finding_lines(fs, j as int, src));
    }
    push_line(&mut out, String::new());
    assert(search::views(out@) =~= report_lines(path@, cs, fs, src));
    out
}

pub open spec fn summary_text(total: nat) -> Seq<char> {
    if total == 0 {
        "✓ No literal constant leaks found."@
    } else {
        "Found "@ + number::dec(total) + " potential literal leak(s)."@
    }
}

/// The last line of the report.
pub fn summary(total: usize) -> (r: String)
    ensures
        r@ == summary_text(total as nat),
{
    if total == 0 {
        "✓ No literal constant leaks found.".to_string()
    } else {
        let mut s = "Found ".to_string();
        push_dec(&mut s, total as u64);
        s.push_str(" potential literal leak(s).");
        s
    }
}

} // verus!

//! What the search for leaks sees in a program and what it says of it.
use vstd::prelude::*;

use crate::guardian::evaluate;
use crate::guardian::evaluate::{eval, sym_eval, LiteralModel, SymValue, VarEnv};
use crate::guardian::leaks;
use crate::guardian::leaks::{ConstModel, Decl, FindingModel};
use crate::guardian::owners;
use crate::guardian::owners::Event;
use crate::guardian::syntax;
use crate::guardian::syntax::{Arm, Expression, Literal, Operator, Pattern, Statement};
use crate::text::number;
use crate::text::parts;
use crate::text::search;
use crate::text::space;

verus! {

/// A value keeps its literals through every method that only changes its guise,
/// whatever the method is given.
pub proof fn law_methods_keep_literals(
    receiver: Box<Expression>,
    method: String,
    args: Vec<Expression>,
    env: Map<Seq<char>, Seq<LiteralModel>>,
    fns: Map<Seq<char>, Seq<LiteralModel>>,
)
    requires
        ({
            ||| method@ == "to_string"@
            ||| method@ == "to_owned"@
            ||| method@ == "clone"@
            ||| method@ == "into"@
            ||| method@ == "unwrap"@
            ||| method@ == "expect"@
            ||| method@ == "unwrap_or_default"@
            ||| method@ == "unwrap_or_else"@
            ||| method@ == "ok"@
            ||| method@ == "err"@
        }),
    ensures
        eval(Expression::MethodCall { receiver, method, args }, env, fns) == eval(
            *receiver,
            env,
            fns,
        ),
{
}

/// A value with a fallback is made of both.
pub proof fn law_fallbacks_count(
    receiver: Box<Expression>,
    method: String,
    args: Vec<Expression>,
    env: Map<Seq<char>, Seq<LiteralModel>>,
    fns: Map<Seq<char>, Seq<LiteralModel>>,
)
    requires
        method@ == "unwrap_or"@,
        args@.len() == 1,
    ensures
        eval(Expression::MethodCall { receiver, method, args }, env, fns) == eval(
            *receiver,
            env,
            fns,
        ) + eval(args@[0], env, fns),
{
    reveal_strlit("unwrap_or");
    reveal_strlit("to_string");
    reveal_strlit("to_owned");
    reveal_strlit("clone");
    reveal_strlit("into");
    reveal_strlit("unwrap");
    reveal_strlit("expect");
    reveal_strlit("unwrap_or_default");
    reveal_strlit("unwrap_or_else");
    reveal_strlit("ok");
    reveal_strlit("err");
    assert("unwrap_or"@[0] == 'u');
    assert("unwrap_or"@.len() == 9);
    assert("to_string"@[0] == 't');
    assert("to_owned"@.len() == 8);
    assert("clone"@.len() == 5);
    assert("into"@.len() == 4);
    assert("unwrap"@.len() == 6);
    assert("expect"@.len() == 6);
    assert("unwrap_or_default"@.len() == 17);
    assert("unwrap_or_else"@.len() == 14);
    assert("ok"@.len() == 2);
    assert("err"@.len() == 3);
    assert(!evaluate::passes_through(method@));
    let call = Expression::MethodCall { receiver, method, args };
    assert(eval(call, env, fns) == eval(*receiver, env, fns) + (if args@.len() > 0 {
        eval(args@[0], env, fns)
    } else {
        Seq::empty()
    }));
}

/// Of any other method nothing is known.
pub proof fn law_other_methods_hide(
    receiver: Box<Expression>,
    method: String,
    args: Vec<Expression>,
    env: Map<Seq<char>, Seq<LiteralModel>>,
    fns: Map<Seq<char>, Seq<LiteralModel>>,
)
    requires
        method@ != "to_string"@,
        method@ != "to_owned"@,
        method@ != "clone"@,
        method@ != "into"@,
        method@ != "unwrap"@,
        method@ != "expect"@,
        method@ != "unwrap_or_default"@,
        method@ != "unwrap_or_else"@,
        method@ != "ok"@,
        method@ != "err"@,
        method@ != "unwrap_or"@,
    ensures
        eval(Expression::MethodCall { receiver, method, args }, env, fns).len() == 0,
{
}

/// A value keeps its literals in every wrapper of a single name, unless the program
/// has a function of that name.
pub proof fn law_plain_wrappers_keep_literals(
    segments: Vec<String>,
    lines: Vec<usize>,
    is_ident: bool,
    func: Box<Expression>,
    args: Vec<Expression>,
    env: Map<Seq<char>, Seq<LiteralModel>>,
    fns: Map<Seq<char>, Seq<LiteralModel>>,
)
    requires
        segments@.len() == 1,
        segments@[0]@ == "Ok"@ || segments@[0]@ == "Some"@ || segments@[0]@ == "Err"@,
        !fns.contains_key(segments@[0]@),
        *func == (Expression::Path { segments, lines, is_ident }),
        args@.len() == 1,
    ensures
        eval(Expression::Call { func, args }, env, fns) == eval(args@[0], env, fns),
{
    assert(search::views(segments@) =~= seq![segments@[0]@]);
    assert(search::join_text(seq![segments@[0]@], "::"@) =~= segments@[0]@);
}

/// A value keeps its literals in every wrapper that is a function of a type, however
/// the type is reached, unless the program has a function of that name.
pub proof fn law_typed_wrappers_keep_literals(
    segments: Vec<String>,
    lines: Vec<usize>,
    is_ident: bool,
    func: Box<Expression>,
    args: Vec<Expression>,
    env: Map<Seq<char>, Seq<LiteralModel>>,
    fns: Map<Seq<char>, Seq<LiteralModel>>,
)
    requires
        segments@.len() >= 2,
        ({
            let owner = segments@[segments@.len() - 2]@;
            let name = segments@[segments@.len() - 1]@;
            ||| name == "new"@ && (owner == "Box"@ || owner == "Arc"@ || owner == "Rc"@ || owner
                == "Cell"@ || owner == "RefCell"@ || owner == "Mutex"@ || owner == "RwLock"@ || owner
                == "CString"@)
            ||| name == "from"@ && (owner == "String"@ || owner == "Vec"@ || owner == "PathBuf"@
                || owner == "OsString"@)
        }),
        !fns.contains_key(search::join_text(search::views(segments@), "::"@)),
        *func == (Expression::Path { segments, lines, is_ident }),
        args@.len() == 1,
    ensures
        eval(Expression::Call { func, args }, env, fns) == eval(args@[0], env, fns),
{
    let owner = segments@[segments@.len() - 2]@;
    let name = segments@[segments@.len() - 1]@;
    let short = owner + "::"@ + name;
    reveal_strlit("::");
    reveal_strlit("new");
    reveal_strlit("from");
    reveal_strlit("Box");
    reveal_strlit("Arc");
    reveal_strlit("Rc");
    reveal_strlit("Cell");
    reveal_strlit("RefCell");
    reveal_strlit("Mutex");
    reveal_strlit("RwLock");
    reveal_strlit("CString");
    reveal_strlit("String");
    reveal_strlit("Vec");
    reveal_strlit("PathBuf");
    reveal_strlit("OsString");
    reveal_strlit("Box::new");
    reveal_strlit("Arc::new");
    reveal_strlit("Rc::new");
    reveal_strlit("Cell::new");
    reveal_strlit("RefCell::new");
    reveal_strlit("Mutex::new");
    reveal_strlit("RwLock::new");
    reveal_strlit("CString::new");
    reveal_strlit("String::from");
    reveal_strlit("Vec::from");
    reveal_strlit("PathBuf::from");
    reveal_strlit("OsString::from");
    if name == "new"@ {
        if owner == "Box"@ {
            assert(short =~= "Box::new"@);
        } else if owner == "Arc"@ {
            assert(short =~= "Arc::new"@);
        } else if owner == "Rc"@ {
            assert(short =~= "Rc::new"@);
        } else if owner == "Cell"@ {
            assert(short =~= "Cell::new"@);
        } else if owner == "RefCell"@ {
            assert(short =~= "RefCell::new"@);
        } else if owner == "Mutex"@ {
            assert(short =~= "Mutex::new"@);
        } else if owner == "RwLock"@ {
            assert(short =~= "RwLock::new"@);
        } else {
            assert(short =~= "CString::new"@);
        }
    } else {
        if owner == "String"@ {
            assert(short =~= "String::from"@);
        } else if owner == "Vec"@ {
            assert(short =~= "Vec::from"@);
        } else if owner == "PathBuf"@ {
            assert(short =~= "PathBuf::from"@);
        } else {
            assert(short =~= "OsString::from"@);
        }
    }
}

/// A call of a function of the program is made of what that function gives back, and
/// not of what it is given.
pub proof fn law_calls_are_made_of_what_comes_back(
    segments: Vec<String>,
    lines: Vec<usize>,
    is_ident: bool,
    func: Box<Expression>,
    args: Vec<Expression>,
    env: Map<Seq<char>, Seq<LiteralModel>>,
    fns: Map<Seq<char>, Seq<LiteralModel>>,
)
    requires
        fns.contains_key(search::join_text(search::views(segments@), "::"@)),
        *func == (Expression::Path { segments, lines, is_ident }),
    ensures
        eval(Expression::Call { func, args }, env, fns) == fns[search::join_text(
            search::views(segments@),
            "::"@,
        )],
{
}

/// What only stands around a value changes nothing of what it is made of.
pub proof fn law_guises_keep_literals(
    x: Box<Expression>,
    line: usize,
    env: Map<Seq<char>, Seq<LiteralModel>>,
    fns: Map<Seq<char>, Seq<LiteralModel>>,
)
    ensures
        ({
            let made_of = eval(*x, env, fns);
            &&& eval(Expression::Unary(x), env, fns) == made_of
            &&& eval(Expression::Paren(x), env, fns) == made_of
            &&& eval(Expression::Reference(x), env, fns) == made_of
            &&& eval(Expression::Cast(x), env, fns) == made_of
            &&& eval(Expression::Try(x), env, fns) == made_of
            &&& eval(Expression::Repeat(x), env, fns) == made_of
            &&& eval(Expression::Return { value: Some(x), line }, env, fns) == made_of
        }),
{
}

/// What is put together of two values is made of both: what is counted or joined, and
/// what lies between two ends.
pub proof fn law_both_sides_count(
    a: Box<Expression>,
    b: Box<Expression>,
    env: Map<Seq<char>, Seq<LiteralModel>>,
    fns: Map<Seq<char>, Seq<LiteralModel>>,
)
    ensures
        ({
            let both = eval(*a, env, fns) + eval(*b, env, fns);
            &&& eval(Expression::Binary { op: Operator::Other, left: a, right: b }, env, fns)
                == both
            &&& eval(Expression::Range { start: Some(a), end: Some(b) }, env, fns) == both
        }),
        eval(Expression::Range { start: Some(a), end: None }, env, fns) == eval(*a, env, fns),
        eval(Expression::Range { start: None, end: Some(b) }, env, fns) == eval(*b, env, fns),
{
    assert(eval(*a, env, fns) + Seq::<LiteralModel>::empty() =~= eval(*a, env, fns));
    assert(Seq::<LiteralModel>::empty() + eval(*b, env, fns) =~= eval(*b, env, fns));
}

/// What compares or decides is made of nothing.
pub proof fn law_comparisons_are_made_of_nothing(
    op: Operator,
    a: Box<Expression>,
    b: Box<Expression>,
    env: Map<Seq<char>, Seq<LiteralModel>>,
    fns: Map<Seq<char>, Seq<LiteralModel>>,
)
    requires
        op != Operator::Other,
    ensures
        eval(Expression::Binary { op, left: a, right: b }, env, fns).len() == 0,
{
}

proof fn lemma_list_holds(
    es: Seq<Expression>,
    n: int,
    l: LiteralModel,
    env: Map<Seq<char>, Seq<LiteralModel>>,
    fns: Map<Seq<char>, Seq<LiteralModel>>,
)
    requires
        0 <= n <= es.len(),
    ensures
        evaluate::eval_list(es, n, env, fns).contains(l) <==> exists|i: int|
            0 <= i < n && (#[trigger] eval(es[i], env, fns)).contains(l),
    decreases n,
{
    if n > 0 {
        lemma_list_holds(es, n - 1, l, env, fns);
        let before = evaluate::eval_list(es, n - 1, env, fns);
        let here = eval(es[n - 1], env, fns);
        lemma_sum_holds(before, here, l);
        if here.contains(l) {
            assert(eval(es[n - 1], env, fns).contains(l));
        }
    }
}

proof fn lemma_sum_holds<A>(a: Seq<A>, b: Seq<A>, x: A)
    ensures
        (a + b).contains(x) <==> a.contains(x) || b.contains(x),
{
    if a.contains(x) {
        let i = choose|i: int| 0 <= i < a.len() && a[i] == x;
        assert((a + b)[i] == x);
    }
    if b.contains(x) {
        let i = choose|i: int| 0 <= i < b.len() && b[i] == x;
        assert((a + b)[a.len() + i] == x);
    }
    if (a + b).contains(x) {
        let i = choose|i: int| 0 <= i < (a + b).len() && (a + b)[i] == x;
        if i < a.len() {
            assert(a[i] == x);
        } else {
            assert(b[i - a.len()] == x);
        }
    }
}

/// A tuple, an array and a value of a struct are made of all their parts and of
/// nothing else.
pub proof fn law_parts_count(
    es: Vec<Expression>,
    lines: Vec<usize>,
    l: LiteralModel,
    env: Map<Seq<char>, Seq<LiteralModel>>,
    fns: Map<Seq<char>, Seq<LiteralModel>>,
)
    ensures
        ({
            let in_a_part = exists|i: int|
                0 <= i < es@.len() && (#[trigger] eval(es@[i], env, fns)).contains(l);
            &&& eval(Expression::Tuple(es), env, fns).contains(l) <==> in_a_part
            &&& eval(Expression::Array(es), env, fns).contains(l) <==> in_a_part
            &&& eval(Expression::Struct { lines, fields: es }, env, fns).contains(l) <==> in_a_part
        }),
{
    lemma_list_holds(es@, es@.len() as int, l, env, fns);
}

proof fn lemma_arms_hold(
    arms: Seq<Arm>,
    n: int,
    l: LiteralModel,
    env: Map<Seq<char>, Seq<LiteralModel>>,
    fns: Map<Seq<char>, Seq<LiteralModel>>,
)
    requires
        0 <= n <= arms.len(),
        forall|i: int| 0 <= i < n ==> (#[trigger] arms[i]).pat is Other,
    ensures
        evaluate::eval_arms(arms, n, env, fns).contains(l) <==> exists|i: int|
            0 <= i < n && (#[trigger] eval(arms[i].body, env, fns)).contains(l),
    decreases n,
{
    if n > 0 {
        lemma_arms_hold(arms, n - 1, l, env, fns);
        let before = evaluate::eval_arms(arms, n - 1, env, fns);
        assert(arms[n - 1].pat is Other);
        assert(syntax::pat_names(arms[n - 1].pat) =~= Seq::<Seq<char>>::empty());
        let here = eval(arms[n - 1].body, env, fns);
        lemma_sum_holds(before, here, l);
        if here.contains(l) {
            assert(eval(arms[n - 1].body, env, fns).contains(l));
        }
    }
}

/// A choice is made of all its ways: an `if` of what follows it and of what follows its
/// `else`, and a `match` of all its arms.
pub proof fn law_all_ways_count(
    cond: Box<Expression>,
    then_branch: Vec<Statement>,
    other: Box<Expression>,
    arms: Vec<Arm>,
    l: LiteralModel,
    env: Map<Seq<char>, Seq<LiteralModel>>,
    fns: Map<Seq<char>, Seq<LiteralModel>>,
)
    ensures
        eval(Expression::If { cond, then_branch, else_branch: Some(other) }, env, fns) == eval(
            Expression::Block(then_branch),
            env,
            fns,
        ) + eval(*other, env, fns),
        eval(Expression::If { cond, then_branch, else_branch: None }, env, fns) == eval(
            Expression::Block(then_branch),
            env,
            fns,
        ),
        (forall|i: int| 0 <= i < arms@.len() ==> (#[trigger] arms@[i]).pat is Other) ==> (eval(
            Expression::Match { scrutinee: cond, arms },
            env,
            fns,
        ).contains(l) <==> exists|i: int|
            0 <= i < arms@.len() && (#[trigger] eval(arms@[i].body, env, fns)).contains(l)),
{
    let then_value = eval(Expression::Block(then_branch), env, fns);
    assert(then_value + Seq::<LiteralModel>::empty() =~= then_value);
    if forall|i: int| 0 <= i < arms@.len() ==> (#[trigger] arms@[i]).pat is Other {
        lemma_arms_hold(arms@, arms@.len() as int, l, env, fns);
    }
}

/// Nothing is known of what an arm binds: it hides what stood under that name before.
pub proof fn law_arms_hide_what_they_bind(
    scrutinee: Box<Expression>,
    name: String,
    body: Expression,
    arms: Vec<Arm>,
    env: Map<Seq<char>, Seq<LiteralModel>>,
    fns: Map<Seq<char>, Seq<LiteralModel>>,
)
    requires
        arms@.len() == 1,
        arms@[0].pat == Pattern::Ident(name),
        arms@[0].body == body,
        names_variable(body, name),
    ensures
        eval(Expression::Match { scrutinee, arms }, env, fns).len() == 0,
{
    let inner = env.insert(name@, Seq::empty());
    assert(seq![name@].drop_last() =~= Seq::empty());
    assert(evaluate::bound(env, seq![name@].drop_last(), Seq::empty()) == env);
    assert(evaluate::bound(env, seq![name@], Seq::empty()) == inner);
    assert(evaluate::eval_arms(arms@, 0, env, fns).len() == 0);
    assert(evaluate::eval_arms(arms@, 1, env, fns) == evaluate::eval_arms(arms@, 0, env, fns)
        + eval(arms@[0].body, inner, fns));
}

/// An expression that is nothing but a variable's name.
pub open spec fn names_variable(e: Expression, name: String) -> bool {
    e matches Expression::Path { segments, is_ident, .. } && is_ident && segments@.len() == 1
        && segments@[0]@ == name@
}

/// A block that ends in a value is made of that value, one that ends in a statement of
/// nothing; and it makes no difference that a block is unsafe.
pub proof fn law_blocks_are_made_of_their_end(
    b: Vec<Statement>,
    x: Expression,
    env: Map<Seq<char>, Seq<LiteralModel>>,
    fns: Map<Seq<char>, Seq<LiteralModel>>,
)
    ensures
        b@ == seq![Statement::Expr { expr: x, semi: false }] ==> eval(
            Expression::Block(b),
            env,
            fns,
        ) == eval(x, env, fns),
        b@.len() > 0 && b@.last() == (Statement::Expr { expr: x, semi: true }) ==> eval(
            Expression::Block(b),
            env,
            fns,
        ).len() == 0,
        b@.len() == 0 ==> eval(Expression::Block(b), env, fns).len() == 0,
        eval(Expression::Unsafe(b), env, fns) == eval(Expression::Block(b), env, fns),
{
    assert(eval(Expression::Block(b), env, fns) == evaluate::block_value(b@, env, fns));
    assert(evaluate::block_env(b@, 0, env, fns) == env);
    if b@ == seq![Statement::Expr { expr: x, semi: false }] {
        assert(b@[b@.len() - 1] == (Statement::Expr { expr: x, semi: false }));
        assert(evaluate::block_value(b@, env, fns) == eval(
            x,
            evaluate::block_env(b@, b@.len() - 1, env, fns),
            fns,
        ));
    }
    if b@.len() > 0 && b@.last() == (Statement::Expr { expr: x, semi: true }) {
        assert(b@[b@.len() - 1] == b@.last());
        assert(evaluate::block_value(b@, env, fns) == Seq::<LiteralModel>::empty());
    }
}

/// A variable is made of what it was last given, by a `let` or by an assignment.
pub proof fn law_variables_are_made_of_what_they_were_given(
    b: Vec<Statement>,
    name: String,
    init: Expression,
    set: Expression,
    target: Box<Expression>,
    value: Box<Expression>,
    semi: bool,
    read: Expression,
    line: usize,
    env: Map<Seq<char>, Seq<LiteralModel>>,
    fns: Map<Seq<char>, Seq<LiteralModel>>,
)
    requires
        name@ != "true"@,
        name@ != "false"@,
        names_variable(read, name),
        names_variable(*target, name),
        set == (Expression::Assign { left: target, right: value }),
    ensures
        b@ == seq![
            Statement::Local { pat: Pattern::Ident(name), init: Some(init), diverge: None, line },
            Statement::Expr { expr: read, semi: false },
        ] ==> eval(Expression::Block(b), env, fns) == eval(init, env, fns),
        b@ == seq![
            Statement::Expr { expr: set, semi },
            Statement::Expr { expr: read, semi: false },
        ] ==> eval(Expression::Block(b), env, fns) == eval(*value, env, fns),
        eval(read, env, fns) == (if env.contains_key(name@) {
            env[name@]
        } else {
            Seq::empty()
        }),
{
    assert(seq![name@].drop_last() =~= Seq::empty());
    let v = eval(init, env, fns);
    assert(evaluate::bound(env, seq![name@].drop_last(), v) == env);
    assert(evaluate::bound(env, seq![name@], v) == env.insert(name@, v));
    let w = eval(*value, env, fns);
    assert(evaluate::bound(env, seq![name@].drop_last(), w) == env);
    assert(evaluate::bound(env, seq![name@], w) == env.insert(name@, w));
    if b@ == seq![
        Statement::Local { pat: Pattern::Ident(name), init: Some(init), diverge: None, line },
        Statement::Expr { expr: read, semi: false },
    ] {
        assert(evaluate::block_env(b@, 0, env, fns) == env);
        assert(evaluate::init_value(Some(init), env, fns) == v);
        assert(syntax::pat_names(Pattern::Ident(name)) == seq![name@]);
        assert(evaluate::block_env(b@, 1, env, fns) == env.insert(name@, v));
        assert(evaluate::block_value(b@, env, fns) == eval(read, env.insert(name@, v), fns));
    }
    if b@ == seq![
        Statement::Expr { expr: set, semi },
        Statement::Expr { expr: read, semi: false },
    ] {
        assert(evaluate::block_env(b@, 0, env, fns) == env);
        assert(evaluate::expr_names(*target) =~= seq![name@]);
        assert(evaluate::effect_env(set, env, fns) == env.insert(name@, w));
        assert(evaluate::block_env(b@, 1, env, fns) == env.insert(name@, w));
        assert(evaluate::block_value(b@, env, fns) == eval(read, env.insert(name@, w), fns));
    }
}

/// A loop is made of what it is left with, also where it is left from within a block or
/// on one of two ways.
pub proof fn law_loops_are_made_of_what_they_are_left_with(
    body: Vec<Statement>,
    inner: Vec<Statement>,
    cond: Box<Expression>,
    x: Box<Expression>,
    semi: bool,
    line: usize,
    env: Map<Seq<char>, Seq<LiteralModel>>,
    fns: Map<Seq<char>, Seq<LiteralModel>>,
)
    requires
        inner@ == seq![Statement::Expr { expr: Expression::Break(Some(x)), semi }],
    ensures
        eval(Expression::Loop { body: inner, line }, env, fns) == eval(*x, env, fns),
        body@ == seq![Statement::Expr { expr: Expression::Block(inner), semi }] ==> eval(
            Expression::Loop { body, line },
            env,
            fns,
        ) == eval(*x, env, fns),
        body@ == seq![
            Statement::Expr {
                expr: Expression::If { cond, then_branch: inner, else_branch: None },
                semi,
            },
        ] ==> eval(Expression::Loop { body, line }, env, fns) == eval(*x, env, fns),
{
    let v = eval(*x, env, fns);
    let none = Seq::<LiteralModel>::empty();
    assert(none + v =~= v);
    assert(v + none =~= v);
    assert(evaluate::locals_env(inner@, 0, env, fns) == env);
    assert(evaluate::block_breaks(inner@, 0, env, fns) == none);
    assert(evaluate::expr_breaks(Expression::Break(Some(x)), env, fns) == v);
    assert(evaluate::block_breaks(inner@, 1, env, fns) == v);
    if body@.len() == 1 {
        assert(evaluate::locals_env(body@, 0, env, fns) == env);
        assert(evaluate::block_breaks(body@, 0, env, fns) == none);
        if body@ == seq![Statement::Expr { expr: Expression::Block(inner), semi }] {
            assert(evaluate::expr_breaks(Expression::Block(inner), env, fns) == v);
            assert(evaluate::block_breaks(body@, 1, env, fns) == v);
        }
        if body@ == seq![
            Statement::Expr {
                expr: Expression::If { cond, then_branch: inner, else_branch: None },
                semi,
            },
        ] {
            assert(evaluate::expr_breaks(
                Expression::If { cond, then_branch: inner, else_branch: None },
                env,
                fns,
            ) == v);
            assert(evaluate::block_breaks(body@, 1, env, fns) == v);
        }
    }
}

/// A literal that can leak is reported as it is written, with its kind and the place
/// where it stands.
pub proof fn law_literals_are_told_as_written(
    lit: Literal,
    line: usize,
    col: usize,
    env: Map<Seq<char>, Seq<LiteralModel>>,
    fns: Map<Seq<char>, Seq<LiteralModel>>,
)
    ensures
        ({
            let told = eval(Expression::Lit { lit, line, col }, env, fns);
            let tells = |value: Seq<char>, kind: Seq<char>|
                told == seq![LiteralModel { value, kind, line, col }];
            match lit {
                Literal::Str(s) => s@.len() > 0 ==> tells(seq!['"'] + s@ + seq!['"'], "string"@),
                Literal::Int(digits) => digits@ != seq!['0'] ==> tells(digits@, "integer"@),
                Literal::Float(digits) => tells(digits@, "float"@),
                Literal::Char(c) => tells(seq!['\'', c, '\''], "char"@),
                Literal::Byte(b) => tells(seq!['b', '\'', b as char, '\''], "byte"@),
                Literal::ByteStr => told.len() == 1 && told[0].kind == "byte_string"@,
                Literal::CStr => told.len() == 1 && told[0].kind == "c_string"@,
                Literal::Bool(_) => told.len() == 0,
                Literal::Other => told.len() == 0,
            }
        }),
{
    reveal_strlit("\"");
    reveal_strlit("'");
    reveal_strlit("b'");
    reveal_strlit("0");
    assert("\""@ =~= seq!['"']);
    assert("0"@ =~= seq!['0']);
    match lit {
        Literal::Char(c) => {
            assert("'"@.push(c) + "'"@ =~= seq!['\'', c, '\'']);
        },
        Literal::Byte(b) => {
            assert("b'"@.push(b as char) + "'"@ =~= seq!['b', '\'', b as char, '\'']);
        },
        _ => {},
    }
}

/// A `return` is found in every place where a function can be left: on each way of a
/// choice, in a block, in a loop and in unsafe code, with its line and what it gives
/// back.
pub proof fn law_returns_are_found_everywhere(
    x: Box<Expression>,
    line: usize,
    semi: bool,
    cond: Box<Expression>,
    b: Vec<Statement>,
    arms: Vec<Arm>,
    at: usize,
    env: Map<Seq<char>, Seq<LiteralModel>>,
    fns: Map<Seq<char>, Seq<LiteralModel>>,
)
    requires
        b@ == seq![Statement::Expr { expr: Expression::Return { value: Some(x), line }, semi }],
        arms@.len() == 1,
        arms@[0].body == Expression::Block(b),
    ensures
        ({
            let found = seq![(line, eval(*x, env, fns))];
            &&& leaks::block_returns(b@, 1, env, fns) == found
            &&& leaks::expr_returns(Expression::Block(b), env, fns) == found
            &&& leaks::expr_returns(Expression::Unsafe(b), env, fns) == found
            &&& leaks::expr_returns(Expression::Loop { body: b, line: at }, env, fns) == found
            &&& leaks::expr_returns(Expression::ForLoop(b), env, fns) == found
            &&& leaks::expr_returns(
                Expression::If { cond, then_branch: b, else_branch: None },
                env,
                fns,
            ) == found
            &&& leaks::expr_returns(Expression::Match { scrutinee: cond, arms }, env, fns) == found
        }),
{
    let found = seq![(line, eval(*x, env, fns))];
    let none = Seq::<(usize, Seq<LiteralModel>)>::empty();
    assert(none + found =~= found);
    assert(found + none =~= found);
    assert(evaluate::block_env(b@, 0, env, fns) == env);
    assert(leaks::block_returns(b@, 0, env, fns) == none);
    assert(leaks::expr_returns(Expression::Return { value: Some(x), line }, env, fns) =~= found);
    assert(leaks::block_returns(b@, 1, env, fns) == found);
    assert(leaks::expr_returns(Expression::Block(b), env, fns) == found);
    assert(leaks::arm_returns(arms@, 0, env, fns) == none);
    assert(leaks::arm_returns(arms@, 1, env, fns) == found);
}

/// The `return`s of a block are those of its statements: each of them is found,
/// whatever stands before and behind.
pub proof fn law_every_statement_is_searched(
    stmts: Seq<Statement>,
    i: int,
    x: Expression,
    semi: bool,
    n: int,
    r: (usize, Seq<LiteralModel>),
    env: Map<Seq<char>, Seq<LiteralModel>>,
    fns: Map<Seq<char>, Seq<LiteralModel>>,
)
    requires
        0 <= i < n <= stmts.len(),
        stmts[i] == (Statement::Expr { expr: x, semi }),
        leaks::expr_returns(x, evaluate::block_env(stmts, i, env, fns), fns).contains(r),
    ensures
        leaks::block_returns(stmts, n, env, fns).contains(r),
    decreases n,
{
    let here = match stmts[n - 1] {
        Statement::Local { init: Some(_), diverge: Some(d), .. } => leaks::expr_returns(
            d,
            evaluate::block_env(stmts, n, env, fns),
            fns,
        ),
        Statement::Expr { expr, .. } => leaks::expr_returns(
            expr,
            evaluate::block_env(stmts, n - 1, env, fns),
            fns,
        ),
        _ => Seq::empty(),
    };
    assert(leaks::block_returns(stmts, n, env, fns) == leaks::block_returns(stmts, n - 1, env, fns)
        + here);
    lemma_sum_holds(leaks::block_returns(stmts, n - 1, env, fns), here, r);
    if i < n - 1 {
        law_every_statement_is_searched(stmts, i, x, semi, n - 1, r, env, fns);
    }
}

proof fn lemma_leaking(
    name: Seq<char>,
    fn_line: usize,
    rs: Seq<(usize, Seq<LiteralModel>)>,
    n: int,
    i: int,
)
    requires
        0 <= i < n <= rs.len(),
        rs[i].1.len() > 0,
    ensures
        leaks::leaking_returns(name, fn_line, rs, n).contains(
            FindingModel {
                fn_name: name,
                fn_line,
                return_line: rs[i].0,
                literals: rs[i].1,
                is_implicit: false,
            },
        ),
    decreases n,
{
    let f = FindingModel {
        fn_name: name,
        fn_line,
        return_line: rs[i].0,
        literals: rs[i].1,
        is_implicit: false,
    };
    let all = leaks::leaking_returns(name, fn_line, rs, n);
    let before = leaks::leaking_returns(name, fn_line, rs, n - 1);
    if i == n - 1 {
        assert(all[all.len() - 1] == f);
    } else {
        lemma_leaking(name, fn_line, rs, n - 1, i);
        let k = choose|k: int| 0 <= k < before.len() && before[k] == f;
        assert(all[k] == f);
    }
}

/// Every way by which a function lets literals out is found, with the function's name
/// and line, the line where it happens and the literals themselves.
pub proof fn law_leaking_functions_are_found(
    decls: Seq<Decl>,
    n: int,
    i: int,
    k: int,
    name: String,
    line: usize,
    body: Vec<Statement>,
    is_method: bool,
    owner: Option<String>,
    fns: Map<Seq<char>, Seq<LiteralModel>>,
)
    requires
        0 <= i < n <= decls.len(),
        decls[i] == (Decl::Fn { name, line, body, is_method, owner }),
    ensures
        ({
            let found = leaks::all_fn_findings(decls, n, fns);
            let end = eval(Expression::Block(body), Map::empty(), fns);
            let rs = leaks::block_returns(body@, body@.len() as int, Map::empty(), fns);
            &&& end.len() > 0 ==> found.contains(
                FindingModel {
                    fn_name: name@,
                    fn_line: line,
                    return_line: leaks::tail_line(body@),
                    literals: end,
                    is_implicit: true,
                },
            )
            &&& 0 <= k < rs.len() && rs[k].1.len() > 0 ==> found.contains(
                FindingModel {
                    fn_name: name@,
                    fn_line: line,
                    return_line: rs[k].0,
                    literals: rs[k].1,
                    is_implicit: false,
                },
            )
        }),
    decreases n,
{
    let before = leaks::all_fn_findings(decls, n - 1, fns);
    let here = match decls[n - 1] {
        Decl::Fn { name, line, body, .. } => leaks::fn_findings(name@, line, body@, fns),
        _ => Seq::empty(),
    };
    let end = eval(Expression::Block(body), Map::empty(), fns);
    let rs = leaks::block_returns(body@, body@.len() as int, Map::empty(), fns);
    let last = FindingModel {
        fn_name: name@,
        fn_line: line,
        return_line: leaks::tail_line(body@),
        literals: end,
        is_implicit: true,
    };
    lemma_sum_holds(before, here, last);
    if 0 <= k < rs.len() {
        let f = FindingModel {
            fn_name: name@,
            fn_line: line,
            return_line: rs[k].0,
            literals: rs[k].1,
            is_implicit: false,
        };
        lemma_sum_holds(before, here, f);
    }
    if i < n - 1 {
        law_leaking_functions_are_found(
            decls,
            n - 1,
            i,
            k,
            name,
            line,
            body,
            is_method,
            owner,
            fns,
        );
    } else {
        let given = leaks::leaking_returns(name@, line, rs, rs.len() as int);
        let first = if end.len() > 0 {
            seq![last]
        } else {
            Seq::empty()
        };
        assert(here == first + given);
        if end.len() > 0 {
            assert(here[0] == last);
        }
        if 0 <= k < rs.len() && rs[k].1.len() > 0 {
            let f = FindingModel {
                fn_name: name@,
                fn_line: line,
                return_line: rs[k].0,
                literals: rs[k].1,
                is_implicit: false,
            };
            lemma_leaking(name@, line, rs, rs.len() as int, k);
            lemma_sum_holds(first, given, f);
        }
    }
}

/// Every public constant and static that lets literals out is found, with its name, its
/// line and the literals themselves.
pub proof fn law_leaking_constants_are_found(
    decls: Seq<Decl>,
    n: int,
    i: int,
    fns: Map<Seq<char>, Seq<LiteralModel>>,
)
    requires
        0 <= i < n <= decls.len(),
    ensures
        ({
            let found = leaks::all_const_findings(decls, n, fns);
            match decls[i] {
                Decl::Const { name, line, value, is_public, .. } => {
                    let literals = eval(value, Map::empty(), fns);
                    is_public && literals.len() > 0 ==> found.contains(
                        ConstModel { name: name@, line, kind: "const"@, literals },
                    )
                },
                Decl::Static { name, line, value, is_public } => {
                    let literals = eval(value, Map::empty(), fns);
                    is_public && literals.len() > 0 ==> found.contains(
                        ConstModel { name: name@, line, kind: "static"@, literals },
                    )
                },
                Decl::Fn { .. } => true,
            }
        }),
    decreases n,
{
    let before = leaks::all_const_findings(decls, n - 1, fns);
    let here = leaks::const_findings(decls[n - 1], fns);
    if i < n - 1 {
        law_leaking_constants_are_found(decls, n - 1, i, fns);
    }
    match decls[i] {
        Decl::Const { name, line, value, is_public, .. } => {
            let literals = eval(value, Map::empty(), fns);
            let f = ConstModel { name: name@, line, kind: "const"@, literals };
            lemma_sum_holds(before, here, f);
            if is_public && literals.len() > 0 && i == n - 1 {
                assert(here[0] == f);
            }
        },
        Decl::Static { name, line, value, is_public } => {
            let literals = eval(value, Map::empty(), fns);
            let f = ConstModel { name: name@, line, kind: "static"@, literals };
            lemma_sum_holds(before, here, f);
            if is_public && literals.len() > 0 && i == n - 1 {
                assert(here[0] == f);
            }
        },
        Decl::Fn { .. } => {},
    }
}

/// What is not public is not reported, and nothing is reported that lets nothing out.
pub proof fn law_only_leaks_are_found(
    decls: Seq<Decl>,
    n: int,
    fns: Map<Seq<char>, Seq<LiteralModel>>,
)
    requires
        0 <= n <= decls.len(),
    ensures
        forall|k: int|
            0 <= k < leaks::all_const_findings(decls, n, fns).len() ==> (
            #[trigger] leaks::all_const_findings(decls, n, fns)[k]).literals.len() > 0,
        (forall|k: int|
            0 <= k < n ==> match #[trigger] decls[k] {
                Decl::Const { is_public, .. } => !is_public,
                Decl::Static { is_public, .. } => !is_public,
                Decl::Fn { .. } => true,
            }) ==> leaks::all_const_findings(decls, n, fns).len() == 0,
    decreases n,
{
    if n > 0 {
        law_only_leaks_are_found(decls, n - 1, fns);
        let before = leaks::all_const_findings(decls, n - 1, fns);
        let here = leaks::const_findings(decls[n - 1], fns);
        let all = leaks::all_const_findings(decls, n, fns);
        assert forall|k: int| 0 <= k < all.len() implies (#[trigger] all[k]).literals.len() > 0 by {
            if k < before.len() {
                assert(all[k] == before[k]);
            } else {
                assert(all[k] == here[k - before.len()]);
            }
        }
    }
}

/// A function that was seen is known by its name from then on, and a method by the name
/// of its type too.
pub proof fn law_functions_are_known_by_name(
    decls: Seq<Decl>,
    n: int,
    i: int,
    name: String,
    line: usize,
    body: Vec<Statement>,
    is_method: bool,
    owner: Option<String>,
)
    requires
        0 <= i < n <= decls.len(),
        decls[i] == (Decl::Fn { name, line, body, is_method, owner }),
    ensures
        leaks::collected(decls, n).contains_key(name@),
        is_method && owner is Some ==> leaks::collected(decls, n).contains_key(
            owner->0@ + "::"@ + name@,
        ),
        !is_method && i == n - 1 ==> leaks::collected(decls, n)[name@] == eval(
            Expression::Block(body),
            Map::empty(),
            Map::empty(),
        ) + leaks::returned_literals(
            leaks::block_returns(body@, body@.len() as int, Map::empty(), Map::empty()),
        ),
        is_method && owner is Some && i == n - 1 ==> leaks::collected(decls, n)[owner->0@ + "::"@
            + name@] == eval(Expression::Block(body), Map::empty(), Map::empty())
            + leaks::returned_literals(
            leaks::block_returns(body@, body@.len() as int, Map::empty(), Map::empty()),
        ),
    decreases n,
{
    if i < n - 1 {
        law_functions_are_known_by_name(
            decls,
            n - 1,
            i,
            name,
            line,
            body,
            is_method,
            owner,
        );
    }
}

/// What is given back on any of the ways out of a function counts.
pub proof fn law_all_returned_literals_count(rs: Seq<(usize, Seq<LiteralModel>)>, l: LiteralModel)
    ensures
        leaks::returned_literals(rs).contains(l) <==> exists|i: int|
            0 <= i < rs.len() && (#[trigger] rs[i]).1.contains(l),
    decreases rs.len(),
{
    if rs.len() > 0 {
        let before = rs.drop_last();
        law_all_returned_literals_count(before, l);
        lemma_sum_holds(leaks::returned_literals(before), rs.last().1, l);
        if leaks::returned_literals(before).contains(l) {
            let i = choose|i: int| 0 <= i < before.len() && (#[trigger] before[i]).1.contains(l);
            assert(rs[i].1.contains(l));
        }
        if rs.last().1.contains(l) {
            assert(rs[rs.len() - 1].1.contains(l));
        }
        if exists|i: int| 0 <= i < rs.len() && (#[trigger] rs[i]).1.contains(l) {
            let i = choose|i: int| 0 <= i < rs.len() && (#[trigger] rs[i]).1.contains(l);
            if i < before.len() {
                assert(before[i].1.contains(l));
            }
        }
    }
}

/// The line on a literal shows it, its kind and its place.
pub proof fn law_literals_are_shown(l: LiteralModel)
    ensures
        search::has_prefix(leaks::literal_line(l), "    literal: "@ + l.value + " ("@ + l.kind + ")"@),
        search::has_suffix(
            leaks::literal_line(l),
            " at line "@ + number::dec(l.line as nat) + ":"@ + number::dec(l.col as nat),
        ),
{
    reveal_strlit(") at line ");
    reveal_strlit(")");
    reveal_strlit(" at line ");
    let head = "    literal: "@ + l.value + " ("@ + l.kind;
    let line = number::dec(l.line as nat);
    let col = number::dec(l.col as nat);
    let text = leaks::literal_line(l);
    let first = head + ")"@;
    let last = " at line "@ + line + ":"@ + col;
    assert(") at line "@ =~= ")"@ + " at line "@);
    parts::lemma_assoc(head, ")"@, " at line "@);
    parts::lemma_assoc(first, " at line "@, line);
    parts::lemma_assoc(first, " at line "@ + line, ":"@);
    parts::lemma_assoc(first, " at line "@ + line + ":"@, col);
    assert(text == first + last);
    assert(text.subrange(0, first.len() as int) =~= first);
    assert(text.subrange(text.len() - last.len(), text.len() as int) =~= last);
}

proof fn lemma_report_parts(
    consts: Seq<ConstModel>,
    findings: Seq<FindingModel>,
    source: Seq<Seq<char>>,
    n: int,
    i: int,
    line: Seq<char>,
)
    ensures
        0 <= i < n <= consts.len() && leaks::const_lines(consts[i]).contains(line)
            ==> leaks::all_const_lines(consts, n).contains(line),
        0 <= i < n <= findings.len() && leaks::finding_lines(findings[i], source).contains(line)
            ==> leaks::all_finding_lines(findings, n, source).contains(line),
    decreases n,
{
    if 0 <= i < n {
        lemma_report_parts(consts, findings, source, n - 1, i, line);
        if n <= consts.len() {
            lemma_sum_holds(
                leaks::all_const_lines(consts, n - 1),
                leaks::const_lines(consts[n - 1]),
                line,
            );
        }
        if n <= findings.len() {
            lemma_sum_holds(
                leaks::all_finding_lines(findings, n - 1, source),
                leaks::finding_lines(findings[n - 1], source),
                line,
            );
        }
    }
}

/// The report on a file is empty exactly where nothing was found. Else it starts with
/// the file's name, and holds a line on every literal of every constant and function,
/// and the line of the source where a function lets them out.
pub proof fn law_reports_show_everything(
    path: Seq<char>,
    consts: Seq<ConstModel>,
    findings: Seq<FindingModel>,
    source: Seq<Seq<char>>,
    i: int,
    k: int,
)
    ensures
        ({
            let lines = leaks::report_lines(path, consts, findings, source);
            &&& lines.len() == 0 <==> consts.len() == 0 && findings.len() == 0
            &&& lines.len() > 0 ==> search::has_text(lines[0], path)
            &&& 0 <= i < consts.len() && 0 <= k < consts[i].literals.len() ==> lines.contains(
                leaks::literal_line(consts[i].literals[k]),
            )
            &&& 0 <= i < findings.len() && 0 <= k < findings[i].literals.len() ==> lines.contains(
                leaks::literal_line(findings[i].literals[k]),
            )
            &&& 0 <= i < findings.len() && 0 < findings[i].return_line <= source.len()
                ==> lines.contains(
                "    source: "@ + space::trimmed(source[findings[i].return_line - 1]),
            )
            &&& 0 <= i < findings.len() ==> lines.contains(
                "  ⚠ fn `"@ + findings[i].fn_name + "` (line "@ + number::dec(
                    findings[i].fn_line as nat,
                ) + ") — "@ + (if findings[i].is_implicit {
                    "tail expr"@
                } else {
                    "return"@
                }) + " at line "@ + number::dec(findings[i].return_line as nat),
            )
            &&& 0 <= i < consts.len() ==> lines.contains(
                "  ⚠ pub "@ + consts[i].kind + " `"@ + consts[i].name + "` (line "@ + number::dec(
                    consts[i].line as nat,
                ) + ") — exposes literal(s)"@,
            )
        }),
{
    let lines = leaks::report_lines(path, consts, findings, source);
    if lines.len() > 0 {
        parts::lemma_part("━━━ "@, path, " ━━━"@);
    }
    if 0 <= i < consts.len() {
        let c = consts[i];
        let shown = leaks::const_lines(c);
        let said = "  ⚠ pub "@ + c.kind + " `"@ + c.name + "` (line "@ + number::dec(c.line as nat)
            + ") — exposes literal(s)"@;
        assert(shown[1] == said);
        lemma_in_report(path, consts, findings, source, i, said);
        if 0 <= k < c.literals.len() {
            assert(shown[2 + k] == leaks::literal_line(c.literals[k]));
            lemma_in_report(
                path,
                consts,
                findings,
                source,
                i,
                leaks::literal_line(c.literals[k]),
            );
        }
    }
    if 0 <= i < findings.len() {
        let f = findings[i];
        let shown = leaks::finding_lines(f, source);
        let said = "  ⚠ fn `"@ + f.fn_name + "` (line "@ + number::dec(f.fn_line as nat) + ") — "@
            + (if f.is_implicit {
            "tail expr"@
        } else {
            "return"@
        }) + " at line "@ + number::dec(f.return_line as nat);
        assert(shown[1] == said);
        lemma_in_report(path, consts, findings, source, i, said);
        if 0 <= k < f.literals.len() {
            assert(shown[2 + k] == leaks::literal_line(f.literals[k]));
            lemma_in_report(
                path,
                consts,
                findings,
                source,
                i,
                leaks::literal_line(f.literals[k]),
            );
        }
        if 0 < f.return_line <= source.len() {
            let code = "    source: "@ + space::trimmed(source[f.return_line - 1]);
            assert(shown[shown.len() - 1] == code);
            lemma_in_report(path, consts, findings, source, i, code);
        }
    }
}

proof fn lemma_in_report(
    path: Seq<char>,
    consts: Seq<ConstModel>,
    findings: Seq<FindingModel>,
    source: Seq<Seq<char>>,
    i: int,
    line: Seq<char>,
)
    requires
        (0 <= i < consts.len() && leaks::const_lines(consts[i]).contains(line)) || (0 <= i
            < findings.len() && leaks::finding_lines(findings[i], source).contains(line)),
    ensures
        leaks::report_lines(path, consts, findings, source).contains(line),
{
    let head = seq!["━━━ "@ + path + " ━━━"@];
    let a = leaks::all_const_lines(consts, consts.len() as int);
    let b = leaks::all_finding_lines(findings, findings.len() as int, source);
    lemma_report_parts(consts, findings, source, consts.len() as int, i, line);
    lemma_report_parts(consts, findings, source, findings.len() as int, i, line);
    lemma_sum_holds(head, a, line);
    lemma_sum_holds(head + a, b, line);
    lemma_sum_holds(head + a + b, seq![Seq::<char>::empty()], line);
}

/// The names that a pattern binds are those of its parts; of alternatives the first one
/// counts, and what only stands around a pattern binds nothing.
pub proof fn law_patterns_bind_what_their_parts_bind(
    ps: Vec<Pattern>,
    q: Box<Pattern>,
    name: String,
    x: Seq<char>,
)
    ensures
        syntax::pat_names(Pattern::Ident(name)) == seq![name@],
        syntax::pat_names(Pattern::Reference(q)) == syntax::pat_names(*q),
        syntax::pat_names(Pattern::Type(q)) == syntax::pat_names(*q),
        ps@.len() > 0 ==> syntax::pat_names(Pattern::Or(ps)) == syntax::pat_names(ps@[0]),
        ({
            let in_a_part = exists|i: int|
                0 <= i < ps@.len() && (#[trigger] syntax::pat_names(ps@[i])).contains(x);
            &&& syntax::pat_names(Pattern::Tuple(ps)).contains(x) <==> in_a_part
            &&& syntax::pat_names(Pattern::TupleStruct(ps)).contains(x) <==> in_a_part
            &&& syntax::pat_names(Pattern::Struct(ps)).contains(x) <==> in_a_part
            &&& syntax::pat_names(Pattern::Slice(ps)).contains(x) <==> in_a_part
        }),
{
    lemma_names_hold(ps@, ps@.len() as int, x);
}

proof fn lemma_names_hold(ps: Seq<Pattern>, n: int, x: Seq<char>)
    requires
        0 <= n <= ps.len(),
    ensures
        syntax::all_pat_names(ps, n).contains(x) <==> exists|i: int|
            0 <= i < n && (#[trigger] syntax::pat_names(ps[i])).contains(x),
    decreases n,
{
    if n > 0 {
        lemma_names_hold(ps, n - 1, x);
        let here = syntax::pat_names(ps[n - 1]);
        lemma_sum_holds(syntax::all_pat_names(ps, n - 1), here, x);
        if here.contains(x) {
            assert(syntax::pat_names(ps[n - 1]).contains(x));
        }
    }
}

/// What stands around an expression, or behind it, does not change the line where it
/// starts.
pub proof fn law_lines_are_those_of_the_first_part(
    x: Box<Expression>,
    y: Box<Expression>,
    op: Operator,
    method: String,
    args: Vec<Expression>,
    then_branch: Vec<Statement>,
    arms: Vec<Arm>,
    semi: bool,
)
    ensures
        ({
            let line = syntax::expr_line(*x);
            &&& syntax::expr_line(Expression::Binary { op, left: x, right: y }) == line
            &&& syntax::expr_line(Expression::Unary(x)) == line
            &&& syntax::expr_line(Expression::Paren(x)) == line
            &&& syntax::expr_line(Expression::Reference(x)) == line
            &&& syntax::expr_line(
                Expression::If { cond: x, then_branch, else_branch: None },
            ) == line
            &&& syntax::expr_line(Expression::Match { scrutinee: x, arms }) == line
            &&& syntax::expr_line(Expression::Call { func: x, args }) == line
            &&& syntax::expr_line(Expression::MethodCall { receiver: x, method, args }) == line
            &&& syntax::expr_line(Expression::Field(x)) == line
            &&& syntax::expr_line(Expression::Index(x)) == line
            &&& syntax::expr_line(Expression::Cast(x)) == line
            &&& syntax::expr_line(Expression::Repeat(x)) == line
            &&& syntax::expr_line(Expression::Try(x)) == line
            &&& syntax::expr_line(Expression::Range { start: Some(x), end: Some(y) }) == line
            &&& syntax::stmt_line(Statement::Expr { expr: *x, semi }) == line
        }),
{
}

/// The last line of the report says how much was found.
pub proof fn law_summaries_tell_counts_apart(m: nat, n: nat)
    requires
        0 < m,
        m < n,
    ensures
        leaks::summary_text(m) != leaks::summary_text(n),
        search::has_text(leaks::summary_text(m), number::dec(m)),
{
    parts::lemma_part("Found "@, number::dec(m), " potential literal leak(s)."@);
    parts::lemma_dec_differs(m, n);
    if leaks::summary_text(m) == leaks::summary_text(n) {
        parts::lemma_same_between(
            "Found "@,
            number::dec(m),
            number::dec(n),
            " potential literal leak(s)."@,
        );
    }
}

/// What is found of a call of a method that only changes a value's guise is what is found
/// of the value.
pub proof fn law_found_values_keep_literals(
    receiver: Box<Expression>,
    method: String,
    args: Vec<Expression>,
    call: Expression,
    env: VarEnv,
    fns: VarEnv,
    x: SymValue,
    y: SymValue,
)
    requires
        env.wf(),
        fns.wf(),
        call == (Expression::MethodCall { receiver, method, args }),
        ({
            ||| method@ == "to_string"@
            ||| method@ == "to_owned"@
            ||| method@ == "clone"@
            ||| method@ == "into"@
            ||| method@ == "unwrap"@
            ||| method@ == "expect"@
            ||| method@ == "unwrap_or_default"@
            ||| method@ == "unwrap_or_else"@
            ||| method@ == "ok"@
            ||| method@ == "err"@
        }),
        call_ensures(sym_eval, (&call, &env, &fns), x),
        call_ensures(sym_eval, (&*receiver, &env, &fns), y),
    ensures
        x@ == y@,
{
}

/// A method in an `impl` is known under the last part of the name of its type, with its
/// own name, line and body.
pub proof fn law_methods_belong_to_their_type(
    segments: Vec<String>,
    name: String,
    line: usize,
    body: Vec<Statement>,
    is_method: bool,
)
    requires
        segments@.len() > 0,
    ensures
        owners::owned(
            seq![
                Event::EnterImpl { segments: Some(segments) },
                Event::Fn { name, line, body, is_method },
                Event::LeaveImpl,
            ],
        ) == seq![
            Decl::Fn {
                name,
                line,
                body,
                is_method,
                owner: if is_method {
                    Some(segments@.last())
                } else {
                    None
                },
            },
        ],
        owners::owned(seq![Event::Fn { name, line, body, is_method }]) == seq![
            Decl::Fn { name, line, body, is_method, owner: None },
        ],
{
    let none = Seq::<Option<String>>::empty();
    let inside = seq![Some(segments@.last())];
    let f = Event::Fn { name, line, body, is_method };
    let all = seq![Event::EnterImpl { segments: Some(segments) }, f, Event::LeaveImpl];
    assert(none.push(Some(segments@.last())) =~= inside);
    assert(all.drop_first() =~= seq![f, Event::LeaveImpl]);
    assert(seq![f, Event::LeaveImpl].drop_first() =~= seq![Event::LeaveImpl]);
    assert(seq![Event::LeaveImpl].drop_first() =~= Seq::<Event>::empty());
    assert(seq![f].drop_first() =~= Seq::<Event>::empty());
    assert(owners::owned_from(none, Seq::<Event>::empty()) =~= Seq::<Decl>::empty());
    assert(inside.drop_last() =~= none);
    assert(owners::owned_from(inside, seq![Event::LeaveImpl]) =~= Seq::<Decl>::empty());
    assert(owners::owned_from(inside, seq![f, Event::LeaveImpl]) =~= owners::declared(inside, f));
    assert(owners::owned(all) =~= owners::declared(inside, f));
    assert(owners::owned(seq![f]) =~= owners::declared(none, f));
}

/// What is assigned within a block counts behind it.
pub proof fn law_assignments_in_blocks_count(
    b: Vec<Statement>,
    inner: Vec<Statement>,
    name: String,
    target: Box<Expression>,
    value: Box<Expression>,
    semi: bool,
    read: Expression,
    env: Map<Seq<char>, Seq<LiteralModel>>,
    fns: Map<Seq<char>, Seq<LiteralModel>>,
)
    requires
        name@ != "true"@,
        name@ != "false"@,
        names_variable(read, name),
        names_variable(*target, name),
        inner@ == seq![
            Statement::Expr { expr: Expression::Assign { left: target, right: value }, semi },
        ],
        b@ == seq![
            Statement::Expr { expr: Expression::Block(inner), semi },
            Statement::Expr { expr: read, semi: false },
        ],
    ensures
        eval(Expression::Block(b), env, fns) == eval(*value, env, fns),
{
    let w = eval(*value, env, fns);
    let set = Expression::Assign { left: target, right: value };
    let after = env.insert(name@, w);
    assert(seq![name@].drop_last() =~= Seq::empty());
    assert(evaluate::bound(env, seq![name@].drop_last(), w) == env);
    assert(evaluate::bound(env, seq![name@], w) == after);
    assert(evaluate::expr_names(*target) =~= seq![name@]);
    assert(evaluate::effect_env(set, env, fns) == after);
    assert(evaluate::block_env(inner@, 0, env, fns) == env);
    assert(evaluate::block_env(inner@, 1, env, fns) == after);
    assert(evaluate::effect_env(Expression::Block(inner), env, fns) == after);
    assert(evaluate::block_env(b@, 0, env, fns) == env);
    assert(evaluate::block_env(b@, 1, env, fns) == after);
    assert(evaluate::block_value(b@, env, fns) == eval(read, after, fns));
}

/// A loop can be left, and a function too, on the way behind an `else` and in an arm of a
/// `match`.
pub proof fn law_other_ways_out_count(
    b: Vec<Statement>,
    nothing: Vec<Statement>,
    cond: Box<Expression>,
    other: Box<Expression>,
    arms: Vec<Arm>,
    x: Box<Expression>,
    line: usize,
    env: Map<Seq<char>, Seq<LiteralModel>>,
    fns: Map<Seq<char>, Seq<LiteralModel>>,
)
    requires
        nothing@.len() == 0,
        arms@.len() == 1,
        arms@[0].body == *other,
    ensures
        *other == Expression::Break(Some(x)) ==> {
            &&& evaluate::expr_breaks(
                Expression::If { cond, then_branch: nothing, else_branch: Some(other) },
                env,
                fns,
            ) == eval(*x, env, fns)
            &&& evaluate::expr_breaks(Expression::Match { scrutinee: cond, arms }, env, fns)
                == eval(*x, env, fns)
        },
        *other == (Expression::Return { value: Some(x), line }) ==> leaks::expr_returns(
            Expression::If { cond, then_branch: nothing, else_branch: Some(other) },
            env,
            fns,
        ) == seq![(line, eval(*x, env, fns))],
{
    let none = Seq::<LiteralModel>::empty();
    let v = eval(*x, env, fns);
    assert(none + v =~= v);
    if *other == Expression::Break(Some(x)) {
        assert(evaluate::expr_breaks(*other, env, fns) == v);
        assert(evaluate::block_breaks(nothing@, 0, env, fns) == none);
        assert(evaluate::arm_breaks(arms@, 0, env, fns) == none);
        assert(evaluate::arm_breaks(arms@, 1, env, fns) == v);
    }
    if *other == (Expression::Return { value: Some(x), line }) {
        let found = seq![(line, v)];
        assert(leaks::expr_returns(*other, env, fns) =~= found);
        assert(leaks::block_returns(nothing@, 0, env, fns)
            =~= Seq::<(usize, Seq<LiteralModel>)>::empty());
        assert(Seq::<(usize, Seq<LiteralModel>)>::empty() + found =~= found);
    }
}

/// What a `let` gives back behind its `else` is found too.
pub proof fn law_let_else_is_searched(
    stmts: Seq<Statement>,
    pat: Pattern,
    init: Expression,
    d: Expression,
    at: usize,
    env: Map<Seq<char>, Seq<LiteralModel>>,
    fns: Map<Seq<char>, Seq<LiteralModel>>,
)
    requires
        stmts == seq![Statement::Local { pat, init: Some(init), diverge: Some(d), line: at }],
        syntax::pat_names(pat).len() == 0,
    ensures
        leaks::block_returns(stmts, 1, env, fns) == leaks::expr_returns(d, env, fns),
{
    let none = Seq::<(usize, Seq<LiteralModel>)>::empty();
    assert(leaks::block_returns(stmts, 0, env, fns) == none);
    assert(evaluate::block_env(stmts, 0, env, fns) == env);
    assert(evaluate::block_env(stmts, 1, env, fns) == evaluate::bound(
        env,
        syntax::pat_names(pat),
        evaluate::init_value(Some(init), env, fns),
    ));
    assert(evaluate::block_env(stmts, 1, env, fns) == env);
    assert(none + leaks::expr_returns(d, env, fns) =~= leaks::expr_returns(d, env, fns));
}

/// A constant of a type is known under the type's name and as one of the type itself, by
/// what its value is made of.
pub proof fn law_constants_of_types_are_known(
    decls: Seq<Decl>,
    name: String,
    line: usize,
    value: Expression,
    is_public: bool,
    owner: String,
)
    requires
        decls.len() > 0,
        decls.last() == (Decl::Const {
            name,
            line,
            value,
            is_public,
            in_impl: true,
            owner: Some(owner),
        }),
    ensures
        ({
            let before = leaks::collected(decls, decls.len() - 1);
            let after = leaks::collected(decls, decls.len() as int);
            let made_of = eval(value, Map::empty(), before);
            &&& after.contains_key(owner@ + "::"@ + name@)
            &&& after[owner@ + "::"@ + name@] == made_of
            &&& after.contains_key("Self"@ + "::"@ + name@)
            &&& after["Self"@ + "::"@ + name@] == made_of
        }),
{
    assert(decls[decls.len() - 1] == decls.last());
}

/// Where a function's value stands is the line where it starts; a literal, a name, a loop
/// and a `return` start on their own lines.
pub proof fn law_values_stand_on_their_lines(
    body: Seq<Statement>,
    x: Expression,
    s: String,
    line: usize,
    col: usize,
    segments: Vec<String>,
    lines: Vec<usize>,
    is_ident: bool,
    stmts: Vec<Statement>,
    value: Option<Box<Expression>>,
)
    requires
        lines@.len() > 0,
    ensures
        body.len() > 0 && body.last() == (Statement::Expr { expr: x, semi: false })
            ==> leaks::tail_line(body) == syntax::expr_line(x),
        syntax::expr_line(Expression::Lit { lit: Literal::Str(s), line, col }) == line,
        syntax::expr_line(Expression::Lit { lit: Literal::Int(s), line, col }) == line,
        syntax::expr_line(Expression::Path { segments, lines, is_ident }) == lines@[0],
        syntax::expr_line(Expression::Loop { body: stmts, line }) == line,
        syntax::expr_line(Expression::Return { value, line }) == line,
{
    if body.len() > 0 {
        assert(body[body.len() - 1] == body.last());
    }
}

} // verus!

//! What a program's values are made of: the literals that stand where a value is
//! made, not where a way is chosen.
use vstd::prelude::*;

use crate::guardian::syntax;
use crate::guardian::syntax::{extract_pat_names, Arm, Operator, Expression, Literal, Pattern, Statement};
use crate::registry::Registry;
use crate::text::chars::same_text;
use crate::text::search;
use crate::text::search::join;

verus! {

/// A literal with the place where it stands.
#[derive(Debug)]
pub struct LiteralInfo {
    pub value: String,
    pub kind: &'static str,
    pub line: usize,
    pub col: usize,
}

/// A literal with the place where it stands, its texts as sequences.
pub struct LiteralModel {
    pub value: Seq<char>,
    pub kind: Seq<char>,
    pub line: usize,
    pub col: usize,
}

impl View for LiteralInfo {
    type V = LiteralModel;

    open spec fn view(&self) -> LiteralModel {
        LiteralModel {
            value: self.value@,
            kind: self.kind@,
            line: self.line,
            col: self.col,
        }
    }
}

impl Clone for LiteralInfo {
    fn clone(&self) -> (r: Self)
        ensures
            r@ == self@,
    {
        LiteralInfo {
            value: self.value.clone(),
            kind: self.kind,
            line: self.line,
            col: self.col,
        }
    }
}

/// What is known of a value: a literal, nothing, or several values put together.
#[derive(Debug)]
pub enum SymValue {
    Literal(LiteralInfo),
    Opaque,
    Compound(Vec<SymValue>),
}

/// The literals in the first `n` of some values.
pub open spec fn all_literals(vs: Seq<SymValue>, n: int) -> Seq<LiteralModel>
    decreases vs, n,
{
    if n <= 0 || n > vs.len() {
        Seq::empty()
    } else {
        all_literals(vs, n - 1) + literals(vs[n - 1])
    }
}

/// The literals that a value is made of.
pub open spec fn literals(v: SymValue) -> Seq<LiteralModel>
    decreases v,
{
    match v {
        SymValue::Literal(info) => seq![info@],
        SymValue::Opaque => Seq::empty(),
        SymValue::Compound(vs) => all_literals(vs@, vs@.len() as int),
    }
}

/// A value with its literals as models, put together as it is.
pub enum SymModel {
    Literal(LiteralModel),
    Opaque,
    Compound(Seq<SymModel>),
}

/// How the first `n` of some values are put together.
pub open spec fn shapes(vs: Seq<SymValue>, n: int) -> Seq<SymModel>
    decreases vs, n,
{
    if n <= 0 || n > vs.len() {
        Seq::empty()
    } else {
        shapes(vs, n - 1).push(shape(vs[n - 1]))
    }
}

/// How a value is put together.
pub open spec fn shape(v: SymValue) -> SymModel
    decreases v,
{
    match v {
        SymValue::Literal(info) => SymModel::Literal(info@),
        SymValue::Opaque => SymModel::Opaque,
        SymValue::Compound(vs) => SymModel::Compound(shapes(vs@, vs@.len() as int)),
    }
}

/// The first `n` of some values, without those of which nothing is known, and with
/// the parts of a value in its place.
pub open spec fn flattened(ms: Seq<SymModel>, n: int) -> Seq<SymModel>
    decreases n,
{
    if n <= 0 || n > ms.len() {
        Seq::empty()
    } else {
        let before = flattened(ms, n - 1);
        match ms[n - 1] {
            SymModel::Opaque => before,
            SymModel::Compound(parts) => before + parts,
            SymModel::Literal(_) => before.push(ms[n - 1]),
        }
    }
}

/// Several values as one: nothing is known of it where nothing is known of them,
/// and a single part stands for itself.
pub open spec fn put_together(ms: Seq<SymModel>) -> SymModel {
    let flat = flattened(ms, ms.len() as int);
    if flat.len() == 0 {
        SymModel::Opaque
    } else if flat.len() == 1 {
        flat[0]
    } else {
        SymModel::Compound(flat)
    }
}

proof fn lemma_shapes(vs: Seq<SymValue>, n: int)
    requires
        0 <= n <= vs.len(),
    ensures
        shapes(vs, n).len() == n,
        forall|i: int| 0 <= i < n ==> #[trigger] shapes(vs, n)[i] == shape(vs[i]),
    decreases n,
{
    if n > 0 {
        lemma_shapes(vs, n - 1);
        assert forall|i: int| 0 <= i < n implies #[trigger] shapes(vs, n)[i] == shape(vs[i]) by {
            if i < n - 1 {
                assert(shapes(vs, n)[i] == shapes(vs, n - 1)[i]);
            }
        }
    }
}

proof fn lemma_shapes_concat(vs: Seq<SymValue>, ws: Seq<SymValue>)
    ensures
        shapes(vs + ws, (vs + ws).len() as int) == shapes(vs, vs.len() as int) + shapes(
            ws,
            ws.len() as int,
        ),
{
    lemma_shapes(vs + ws, (vs + ws).len() as int);
    lemma_shapes(vs, vs.len() as int);
    lemma_shapes(ws, ws.len() as int);
    let both = shapes(vs + ws, (vs + ws).len() as int);
    let parts = shapes(vs, vs.len() as int) + shapes(ws, ws.len() as int);
    assert forall|i: int| 0 <= i < both.len() implies both[i] == parts[i] by {
        assert(both[i] == shape((vs + ws)[i]));
        if i < vs.len() {
            assert(shapes(vs, vs.len() as int)[i] == shape(vs[i]));
        } else {
            assert(shapes(ws, ws.len() as int)[i - vs.len()] == shape(ws[i - vs.len()]));
        }
    }
    assert(both =~= parts);
}

impl View for SymValue {
    type V = Seq<LiteralModel>;

    open spec fn view(&self) -> Seq<LiteralModel> {
        literals(*self)
    }
}

pub open spec fn infos(v: Seq<LiteralInfo>) -> Seq<LiteralModel> {
    v.map_values(|l: LiteralInfo| l@)
}

proof fn lemma_all_literals_take(vs: Seq<SymValue>, ws: Seq<SymValue>, n: int)
    requires
        0 <= n <= vs.len(),
        n <= ws.len(),
        forall|i: int| 0 <= i < n ==> vs[i] == ws[i],
    ensures
        all_literals(vs, n) == all_literals(ws, n),
    decreases n,
{
    if n > 0 {
        lemma_all_literals_take(vs, ws, n - 1);
    }
}

proof fn lemma_all_literals_push(vs: Seq<SymValue>, v: SymValue)
    ensures
        all_literals(vs.push(v), (vs.len() + 1) as int) == all_literals(vs, vs.len() as int) + literals(v),
{
    lemma_all_literals_take(vs.push(v), vs, vs.len() as int);
}

proof fn lemma_all_literals_concat(vs: Seq<SymValue>, ws: Seq<SymValue>, n: int)
    requires
        0 <= n <= ws.len(),
    ensures
        all_literals(vs + ws, vs.len() + n) == all_literals(vs, vs.len() as int) + all_literals(
            ws,
            n,
        ),
    decreases n,
{
    if n > 0 {
        lemma_all_literals_concat(vs, ws, n - 1);
        assert((vs + ws)[vs.len() + n - 1] == ws[n - 1]);
        assert(all_literals(vs + ws, vs.len() + n) =~= all_literals(vs, vs.len() as int)
            + all_literals(ws, n));
    } else {
        lemma_all_literals_take(vs + ws, vs, vs.len() as int);
        assert(all_literals(vs + ws, vs.len() + n) =~= all_literals(vs, vs.len() as int)
            + all_literals(ws, n));
    }
}

fn gather(vs: &Vec<SymValue>) -> (r: Vec<LiteralInfo>)
    ensures
        infos(r@) == all_literals(vs@, vs@.len() as int),
    decreases vs, 1int,
{
    let mut out: Vec<LiteralInfo> = Vec::new();
    let mut i: usize = 0;
    assert(infos(out@) =~= Seq::<LiteralModel>::empty());
    while i < vs.len()
        invariant
            i <= vs@.len(),
            infos(out@) == all_literals(vs@, i as int),
        decreases vs@.len() - i,
    {
        let mut more = vs[i].extract_literals();
        let ghost had = out@;
        let ghost new = more@;
        out.append(&mut more);
        assert(infos(out@) =~= infos(had) + infos(new));
        i = i + 1;
    }
    out
}

fn copy_all(vs: &Vec<SymValue>) -> (r: Vec<SymValue>)
    ensures
        r@.len() == vs@.len(),
        forall|i: int| 0 <= i < r@.len() ==> literals(#[trigger] r@[i]) == literals(vs@[i]),
        shapes(r@, r@.len() as int) == shapes(vs@, vs@.len() as int),
    decreases vs, 1int,
{
    let mut out: Vec<SymValue> = Vec::new();
    let mut i: usize = 0;
    while i < vs.len()
        invariant
            i <= vs@.len(),
            out@.len() == i,
            forall|k: int| 0 <= k < i ==> literals(#[trigger] out@[k]) == literals(vs@[k]),
            forall|k: int| 0 <= k < i ==> shape(#[trigger] out@[k]) == shape(vs@[k]),
        decreases vs@.len() - i,
    {
        out.push(vs[i].copy());
        i = i + 1;
    }
    proof {
        lemma_shapes(out@, out@.len() as int);
        lemma_shapes(vs@, vs@.len() as int);
        assert forall|k: int| 0 <= k < out@.len() implies shapes(out@, out@.len() as int)[k]
            == shapes(vs@, vs@.len() as int)[k] by {
            assert(shape(out@[k]) == shape(vs@[k]));
        }
        assert(shapes(out@, out@.len() as int) =~= shapes(vs@, vs@.len() as int));
    }
    out
}

proof fn lemma_same_literals(vs: Seq<SymValue>, ws: Seq<SymValue>, n: int)
    requires
        vs.len() == ws.len(),
        0 <= n <= vs.len(),
        forall|i: int| 0 <= i < vs.len() ==> literals(#[trigger] vs[i]) == literals(ws[i]),
    ensures
        all_literals(vs, n) == all_literals(ws, n),
    decreases n,
{
    if n > 0 {
        lemma_same_literals(vs, ws, n - 1);
        assert(literals(vs[n - 1]) == literals(ws[n - 1]));
    }
}

impl SymValue {
    /// The literals that the value is made of.
    pub fn extract_literals(&self) -> (r: Vec<LiteralInfo>)
        ensures
            infos(r@) == self@,
        decreases self, 0int,
    {
        match self {
            SymValue::Literal(info) => {
                let mut out: Vec<LiteralInfo> = Vec::new();
                out.push(info.clone());
                assert(infos(out@) =~= seq![info@]);
                out
            },
            SymValue::Opaque => {
                let out: Vec<LiteralInfo> = Vec::new();
                assert(infos(out@) =~= Seq::<LiteralModel>::empty());
                out
            },
            SymValue::Compound(vs) => gather(vs),
        }
    }

    pub fn copy(&self) -> (r: SymValue)
        ensures
            r@ == self@,
            shape(r) == shape(*self),
        decreases self, 0int,
    {
        match self {
            SymValue::Literal(info) => SymValue::Literal(info.clone()),
            SymValue::Opaque => SymValue::Opaque,
            SymValue::Compound(vs) => {
                let ws = copy_all(vs);
                proof {
                    lemma_same_literals(ws@, vs@, vs@.len() as int);
                }
                SymValue::Compound(ws)
            },
        }
    }

    /// Several values put together: it is made of what they are made of.
    pub fn compound(values: Vec<SymValue>) -> (r: SymValue)
        ensures
            r@ == all_literals(values@, values@.len() as int),
            shape(r) == put_together(shapes(values@, values@.len() as int)),
    {
        let mut flat: Vec<SymValue> = Vec::new();
        let ghost ms = shapes(values@, values@.len() as int);
        proof {
            lemma_shapes(values@, values@.len() as int);
        }
        let mut i: usize = 0;
        while i < values.len()
            invariant
                i <= values@.len(),
                ms.len() == values@.len(),
                forall|k: int| 0 <= k < ms.len() ==> #[trigger] ms[k] == shape(values@[k]),
                shapes(flat@, flat@.len() as int) == flattened(ms, i as int),
                all_literals(flat@, flat@.len() as int) == all_literals(values@, i as int),
            decreases values@.len() - i,
        {
            assert(all_literals(values@, i + 1) == all_literals(values@, i as int) + literals(
                values@[i as int],
            ));
            assert(ms[i as int] == shape(values@[i as int]));
            match &values[i] {
                SymValue::Opaque => {
                    assert(literals(values@[i as int]) == Seq::<LiteralModel>::empty());
                    assert(all_literals(values@, i as int) + Seq::<LiteralModel>::empty()
                        =~= all_literals(values@, i as int));
                },
                SymValue::Compound(children) => {
                    let mut more = copy_all(children);
                    let ghost had = flat@;
                    let ghost new = more@;
                    proof {
                        lemma_same_literals(more@, children@, children@.len() as int);
                        lemma_all_literals_concat(flat@, more@, more@.len() as int);
                        lemma_shapes_concat(flat@, more@);
                        assert(literals(values@[i as int]) == all_literals(
                            children@,
                            children@.len() as int,
                        ));
                    }
                    flat.append(&mut more);
                    assert(flat@ == had + new);
                },
                SymValue::Literal(info) => {
                    let v = SymValue::Literal(info.clone());
                    proof {
                        lemma_all_literals_push(flat@, v);
                        lemma_shapes_concat(flat@, seq![v]);
                        assert(flat@ + seq![v] =~= flat@.push(v));
                        lemma_shapes(seq![v], 1);
                        assert(shapes(seq![v], 1) =~= seq![shape(v)]);
                        assert(shapes(flat@, flat@.len() as int) + seq![shape(v)] =~= shapes(
                            flat@,
                            flat@.len() as int,
                        ).push(shape(v)));
                        assert(literals(v) == literals(values@[i as int]));
                    }
                    flat.push(v);
                },
            }
            i = i + 1;
        }
        proof {
            lemma_shapes(flat@, flat@.len() as int);
        }
        if flat.len() == 0 {
            SymValue::Opaque
        } else if flat.len() == 1 {
            assert(all_literals(flat@, 0) + literals(flat@[0]) =~= literals(flat@[0]));
            assert(all_literals(flat@, 1) == all_literals(flat@, 0) + literals(flat@[0]));
            flat[0].copy()
        } else {
            SymValue::Compound(flat)
        }
    }
}

/// Truth values and zero say nothing that could leak.
pub open spec fn is_exempt(lit: Literal) -> bool {
    match lit {
        Literal::Bool(_) => true,
        Literal::Int(digits) => digits@ == "0"@,
        _ => false,
    }
}

/// What is said of a literal; nothing of those that cannot leak.
pub open spec fn lit_info(lit: Literal, line: usize, col: usize) -> Option<LiteralModel> {
    let info = |value: Seq<char>, kind: Seq<char>| Some(LiteralModel { value, kind, line, col });
    if is_exempt(lit) {
        None
    } else {
        match lit {
            Literal::Str(s) => if s@.len() == 0 {
                None
            } else {
                info("\""@ + s@ + "\""@, "string"@)
            },
            Literal::ByteStr => info("b\"...\""@, "byte_string"@),
            Literal::CStr => info("c\"...\""@, "c_string"@),
            Literal::Byte(b) => info("b'"@.push(b as char) + "'"@, "byte"@),
            Literal::Char(c) => info("'"@.push(c) + "'"@, "char"@),
            Literal::Int(digits) => info(digits@, "integer"@),
            Literal::Float(digits) => info(digits@, "float"@),
            Literal::Bool(_) => None,
            Literal::Other => None,
        }
    }
}

/// Whether a literal cannot leak.
pub fn is_binary_exempt(lit: &Literal) -> (r: bool)
    ensures
        r == is_exempt(*lit),
{
    match lit {
        Literal::Bool(_) => true,
        Literal::Int(digits) => same_text(digits.as_str(), "0"),
        _ => false,
    }
}

/// What is said of a literal; nothing of those that cannot leak.
pub fn lit_to_info(lit: &Literal, line: usize, col: usize) -> (r: Option<LiteralInfo>)
    ensures
        match r {
            Some(info) => lit_info(*lit, line, col) == Some(info@),
            None => lit_info(*lit, line, col) is None,
        },
{
    if is_binary_exempt(lit) {
        return None;
    }
    match lit {
        Literal::Str(s) => {
            if s.as_str().is_empty() {
                return None;
            }
            let mut value = "\"".to_string();
            value.push_str(s.as_str());
            value.push_str("\"");
            Some(LiteralInfo { value, kind: "string", line, col })
        },
        Literal::ByteStr => Some(
            LiteralInfo { value: "b\"...\"".to_string(), kind: "byte_string", line, col },
        ),
        Literal::CStr => Some(
            LiteralInfo { value: "c\"...\"".to_string(), kind: "c_string", line, col },
        ),
        Literal::Byte(b) => {
            let mut value = "b'".to_string();
            value.push(*b as char);
            value.push_str("'");
            Some(LiteralInfo { value, kind: "byte", line, col })
        },
        Literal::Char(c) => {
            let mut value = "'".to_string();
            value.push(*c);
            value.push_str("'");
            Some(LiteralInfo { value, kind: "char", line, col })
        },
        Literal::Int(digits) => Some(
            LiteralInfo { value: digits.clone(), kind: "integer", line, col },
        ),
        Literal::Float(digits) => Some(
            LiteralInfo { value: digits.clone(), kind: "float", line, col },
        ),
        Literal::Bool(_) => None,
        Literal::Other => None,
    }
}

/// What is known of the values under names.
pub type VarEnv = Registry<SymValue>;

/// The literals that the values under names are made of.
pub open spec fn known(m: Map<Seq<char>, SymValue>) -> Map<Seq<char>, Seq<LiteralModel>> {
    m.map_values(|v: SymValue| literals(v))
}

/// What is known of the value under a name.
pub open spec fn looked_up(env: Map<Seq<char>, Seq<LiteralModel>>, name: Seq<char>) -> Seq<
    LiteralModel,
> {
    if env.contains_key(name) {
        env[name]
    } else {
        Seq::empty()
    }
}

/// The same value under each of some names.
pub open spec fn bound(
    env: Map<Seq<char>, Seq<LiteralModel>>,
    names: Seq<Seq<char>>,
    v: Seq<LiteralModel>,
) -> Map<Seq<char>, Seq<LiteralModel>>
    decreases names.len(),
{
    if names.len() == 0 {
        env
    } else {
        bound(env, names.drop_last(), v).insert(names.last(), v)
    }
}

/// Puts the same value under each of some names.
pub fn bind(env: &mut VarEnv, names: &Vec<String>, v: &SymValue)
    requires
        old(env).wf(),
    ensures
        final(env).wf(),
        known(final(env)@) == bound(known(old(env)@), search::views(names@), v@),
{
    let ghost all = search::views(names@);
    let ghost start = known(env@);
    let mut i: usize = 0;
    assert(all.take(0) =~= Seq::<Seq<char>>::empty());
    while i < names.len()
        invariant
            i <= names@.len(),
            all == search::views(names@),
            env.wf(),
            known(env@) == bound(start, all.take(i as int), v@),
        decreases names@.len() - i,
    {
        assert(all.take(i + 1).drop_last() =~= all.take(i as int));
        assert(all[i as int] == names@[i as int]@);
        let ghost before = env@;
        let w = v.copy();
        env.insert(names[i].as_str(), w);
        assert(known(env@) =~= known(before).insert(names@[i as int]@, v@));
        i = i + 1;
    }
    assert(all.take(i as int) =~= all);
}

/// What is known of the value under a name.
pub fn look_up(env: &VarEnv, name: &str) -> (r: SymValue)
    requires
        env.wf(),
    ensures
        r@ == looked_up(known(env@), name@),
{
    match env.get(name) {
        Some(v) => v.copy(),
        None => SymValue::Opaque,
    }
}

pub fn copy_env(env: &VarEnv) -> (r: VarEnv)
    requires
        env.wf(),
    ensures
        r.wf(),
        known(r@) == known(env@),
{
    let mut keys: Vec<String> = Vec::new();
    let mut i: usize = 0;
    while i < env.keys.len()
        invariant
            i <= env.keys@.len(),
            keys@.len() == i,
            forall|k: int| 0 <= k < i ==> (#[trigger] keys@[k])@ == env.keys@[k]@,
        decreases env.keys@.len() - i,
    {
        keys.push(env.keys[i].clone());
        i = i + 1;
    }
    let values = copy_all(&env.values);
    assert(search::views(keys@) =~= search::views(env.keys@));
    let r = Registry { keys, values };
    proof {
        assert forall|k: Seq<char>| #[trigger] known(r@).contains_key(k) implies known(r@)[k]
            == known(env@)[k] by {
            crate::registry::lemma_position_from(search::views(env.keys@), k, 0);
        }
        assert(known(r@) =~= known(env@));
    }
    r
}

/// The path of a name, with `::` between its parts.
pub open spec fn path_text(segments: Seq<String>) -> Seq<char> {
    search::join_text(search::views(segments), "::"@)
}

/// The last two parts of a name.
pub open spec fn short_name(segments: Seq<String>) -> Seq<char> {
    let n = segments.len();
    if n >= 2 {
        segments[n - 2]@ + "::"@ + segments[n - 1]@
    } else {
        path_text(segments)
    }
}

/// Functions that give back what they are given, in another guise.
pub open spec fn is_wrapper(name: Seq<char>) -> bool {
    ||| name == "Ok"@
    ||| name == "Some"@
    ||| name == "Err"@
    ||| name == "Box::new"@
    ||| name == "Arc::new"@
    ||| name == "Rc::new"@
    ||| name == "Cell::new"@
    ||| name == "RefCell::new"@
    ||| name == "Mutex::new"@
    ||| name == "RwLock::new"@
    ||| name == "String::from"@
    ||| name == "Vec::from"@
    ||| name == "PathBuf::from"@
    ||| name == "OsString::from"@
    ||| name == "CString::new"@
}

fn wraps(name: &str) -> (r: bool)
    ensures
        r == is_wrapper(name@),
{
    same_text(name, "Ok") || same_text(name, "Some") || same_text(name, "Err") || same_text(
        name,
        "Box::new",
    ) || same_text(name, "Arc::new") || same_text(name, "Rc::new") || same_text(name, "Cell::new")
        || same_text(name, "RefCell::new") || same_text(name, "Mutex::new") || same_text(
        name,
        "RwLock::new",
    ) || same_text(name, "String::from") || same_text(name, "Vec::from") || same_text(
        name,
        "PathBuf::from",
    ) || same_text(name, "OsString::from") || same_text(name, "CString::new")
}

/// Methods that give back what they are called on, in another guise.
pub open spec fn passes_through(method: Seq<char>) -> bool {
    ||| method == "to_string"@
    ||| method == "to_owned"@
    ||| method == "clone"@
    ||| method == "into"@
    ||| method == "unwrap"@
    ||| method == "expect"@
    ||| method == "unwrap_or_default"@
    ||| method == "unwrap_or_else"@
    ||| method == "ok"@
    ||| method == "err"@
}

fn passes(method: &str) -> (r: bool)
    ensures
        r == passes_through(method@),
{
    same_text(method, "to_string") || same_text(method, "to_owned") || same_text(method, "clone")
        || same_text(method, "into") || same_text(method, "unwrap") || same_text(method, "expect")
        || same_text(method, "unwrap_or_default") || same_text(method, "unwrap_or_else")
        || same_text(method, "ok") || same_text(method, "err")
}

/// The names that an expression on the left of an assignment stands for.
pub open spec fn expr_names(e: Expression) -> Seq<Seq<char>>
    decreases e,
{
    match e {
        Expression::Path { segments, is_ident, .. } => if is_ident && segments@.len() == 1 {
            seq![segments@[0]@]
        } else {
            Seq::empty()
        },
        Expression::Tuple(es) => all_expr_names(es@, es@.len() as int),
        _ => Seq::empty(),
    }
}

pub open spec fn all_expr_names(es: Seq<Expression>, n: int) -> Seq<Seq<char>>
    decreases es, n,
{
    if n <= 0 || n > es.len() {
        Seq::empty()
    } else {
        all_expr_names(es, n - 1) + expr_names(es[n - 1])
    }
}

fn names_of_exprs(es: &Vec<Expression>) -> (r: Vec<String>)
    ensures
        search::views(r@) == all_expr_names(es@, es@.len() as int),
    decreases es, 1int,
{
    let mut out: Vec<String> = Vec::new();
    let mut i: usize = 0;
    assert(search::views(out@) =~= Seq::<Seq<char>>::empty());
    while i < es.len()
        invariant
            i <= es@.len(),
            search::views(out@) == all_expr_names(es@, i as int),
        decreases es@.len() - i,
    {
        let mut more = extract_expr_names(&es[i]);
        let ghost had = out@;
        let ghost new = more@;
        out.append(&mut more);
        assert(search::views(out@) =~= search::views(had) + search::views(new));
        i = i + 1;
    }
    out
}

/// The names that an expression on the left of an assignment stands for.
pub fn extract_expr_names(e: &Expression) -> (r: Vec<String>)
    ensures
        search::views(r@) == expr_names(*e),
    decreases e, 0int,
{
    let mut out: Vec<String> = Vec::new();
    assert(search::views(out@) =~= Seq::<Seq<char>>::empty());
    match e {
        Expression::Path { segments, is_ident, .. } => {
            if *is_ident && segments.len() == 1 {
                out.push(segments[0].clone());
                assert(search::views(out@) =~= seq![segments@[0]@]);
            }
            out
        },
        Expression::Tuple(es) => names_of_exprs(es),
        _ => out,
    }
}

/// The literals that the first `n` of some expressions are made of.
pub open spec fn eval_list(
    es: Seq<Expression>,
    n: int,
    env: Map<Seq<char>, Seq<LiteralModel>>,
    fns: Map<Seq<char>, Seq<LiteralModel>>,
) -> Seq<LiteralModel>
    decreases es, n,
{
    if n <= 0 || n > es.len() {
        Seq::empty()
    } else {
        eval_list(es, n - 1, env, fns) + eval(es[n - 1], env, fns)
    }
}

/// The literals that the first `n` arms of a `match` are made of. Nothing is known
/// of what their patterns bind.
pub open spec fn eval_arms(
    arms: Seq<Arm>,
    n: int,
    env: Map<Seq<char>, Seq<LiteralModel>>,
    fns: Map<Seq<char>, Seq<LiteralModel>>,
) -> Seq<LiteralModel>
    decreases arms, n,
{
    if n <= 0 || n > arms.len() {
        Seq::empty()
    } else {
        eval_arms(arms, n - 1, env, fns) + eval(
            arms[n - 1].body,
            bound(env, syntax::pat_names(arms[n - 1].pat), Seq::empty()),
            fns,
        )
    }
}

/// What is known of the names that a `let` binds.
pub open spec fn init_value(
    init: Option<Expression>,
    env: Map<Seq<char>, Seq<LiteralModel>>,
    fns: Map<Seq<char>, Seq<LiteralModel>>,
) -> Seq<LiteralModel>
    decreases init,
{
    match init {
        Some(e) => eval(e, env, fns),
        None => Seq::empty(),
    }
}

/// What is known after the first `n` statements of a block.
pub open spec fn block_env(
    stmts: Seq<Statement>,
    n: int,
    env: Map<Seq<char>, Seq<LiteralModel>>,
    fns: Map<Seq<char>, Seq<LiteralModel>>,
) -> Map<Seq<char>, Seq<LiteralModel>>
    decreases stmts, n,
{
    if n <= 0 || n > stmts.len() {
        env
    } else {
        let before = block_env(stmts, n - 1, env, fns);
        match stmts[n - 1] {
            Statement::Local { pat, init, .. } => bound(
                before,
                syntax::pat_names(pat),
                init_value(init, before, fns),
            ),
            Statement::Expr { expr, .. } => effect_env(expr, before, fns),
            _ => before,
        }
    }
}

/// What is known after an expression was run for its effects: assignments count,
/// also within blocks; what happens on one way only does not.
pub open spec fn effect_env(
    e: Expression,
    env: Map<Seq<char>, Seq<LiteralModel>>,
    fns: Map<Seq<char>, Seq<LiteralModel>>,
) -> Map<Seq<char>, Seq<LiteralModel>>
    decreases e,
{
    match e {
        Expression::Assign { left, right } => bound(env, expr_names(*left), eval(*right, env, fns)),
        Expression::Block(b) => block_env(b@, b@.len() as int, env, fns),
        _ => env,
    }
}

/// The literals that a block is made of: those of its last expression, where that
/// is its value.
pub open spec fn block_value(
    stmts: Seq<Statement>,
    env: Map<Seq<char>, Seq<LiteralModel>>,
    fns: Map<Seq<char>, Seq<LiteralModel>>,
) -> Seq<LiteralModel>
    decreases stmts, stmts.len() + 1,
{
    let n = stmts.len() as int;
    if n > 0 {
        match stmts[n - 1] {
            Statement::Expr { expr, semi } => if !semi {
                eval(expr, block_env(stmts, n - 1, env, fns), fns)
            } else {
                Seq::empty()
            },
            _ => Seq::empty(),
        }
    } else {
        Seq::empty()
    }
}

/// What is known after the `let`s among the first `n` statements of a block.
pub open spec fn locals_env(
    stmts: Seq<Statement>,
    n: int,
    env: Map<Seq<char>, Seq<LiteralModel>>,
    fns: Map<Seq<char>, Seq<LiteralModel>>,
) -> Map<Seq<char>, Seq<LiteralModel>>
    decreases stmts, n,
{
    if n <= 0 || n > stmts.len() {
        env
    } else {
        let before = locals_env(stmts, n - 1, env, fns);
        match stmts[n - 1] {
            Statement::Local { pat, init, .. } => bound(
                before,
                syntax::pat_names(pat),
                init_value(init, before, fns),
            ),
            _ => before,
        }
    }
}

/// The literals that a loop can be left with in the first `n` statements of a
/// block.
pub open spec fn block_breaks(
    stmts: Seq<Statement>,
    n: int,
    env: Map<Seq<char>, Seq<LiteralModel>>,
    fns: Map<Seq<char>, Seq<LiteralModel>>,
) -> Seq<LiteralModel>
    decreases stmts, n,
{
    if n <= 0 || n > stmts.len() {
        Seq::empty()
    } else {
        block_breaks(stmts, n - 1, env, fns) + (match stmts[n - 1] {
            Statement::Expr { expr, .. } => expr_breaks(
                expr,
                locals_env(stmts, n - 1, env, fns),
                fns,
            ),
            _ => Seq::empty(),
        })
    }
}

pub open spec fn arm_breaks(
    arms: Seq<Arm>,
    n: int,
    env: Map<Seq<char>, Seq<LiteralModel>>,
    fns: Map<Seq<char>, Seq<LiteralModel>>,
) -> Seq<LiteralModel>
    decreases arms, n,
{
    if n <= 0 || n > arms.len() {
        Seq::empty()
    } else {
        arm_breaks(arms, n - 1, env, fns) + expr_breaks(arms[n - 1].body, env, fns)
    }
}

/// The literals that a loop can be left with in an expression, not counting the
/// loops within it.
pub open spec fn expr_breaks(
    e: Expression,
    env: Map<Seq<char>, Seq<LiteralModel>>,
    fns: Map<Seq<char>, Seq<LiteralModel>>,
) -> Seq<LiteralModel>
    decreases e,
{
    match e {
        Expression::Break(value) => match value {
            Some(v) => eval(*v, env, fns),
            None => Seq::empty(),
        },
        Expression::Block(b) => block_breaks(b@, b@.len() as int, env, fns),
        Expression::If { then_branch, else_branch, .. } => block_breaks(
            then_branch@,
            then_branch@.len() as int,
            env,
            fns,
        ) + (match else_branch {
            Some(x) => expr_breaks(*x, env, fns),
            None => Seq::empty(),
        }),
        Expression::Match { arms, .. } => arm_breaks(arms@, arms@.len() as int, env, fns),
        _ => Seq::empty(),
    }
}

/// The literals that an expression is made of. `env` says what variables are made
/// of, `fns` what functions give back and constants stand for. Conditions, what is
/// matched on and indices only choose a way and do not count.
pub open spec fn eval(
    e: Expression,
    env: Map<Seq<char>, Seq<LiteralModel>>,
    fns: Map<Seq<char>, Seq<LiteralModel>>,
) -> Seq<LiteralModel>
    decreases e,
{
    match e {
        Expression::Lit { lit, line, col } => match lit_info(lit, line, col) {
            Some(info) => seq![info],
            None => Seq::empty(),
        },
        Expression::Path { segments, is_ident, .. } => if is_ident && segments@.len() == 1 {
            let name = segments@[0]@;
            if name == "true"@ || name == "false"@ {
                Seq::empty()
            } else {
                looked_up(env, name)
            }
        } else {
            looked_up(fns, path_text(segments@))
        },
        Expression::Binary { op, left, right } => if syntax::gives_bool(op) {
            Seq::empty()
        } else {
            eval(*left, env, fns) + eval(*right, env, fns)
        },
        Expression::Unary(x) => eval(*x, env, fns),
        Expression::Paren(x) => eval(*x, env, fns),
        Expression::Tuple(es) => eval_list(es@, es@.len() as int, env, fns),
        Expression::Array(es) => eval_list(es@, es@.len() as int, env, fns),
        Expression::Struct { fields, .. } => eval_list(fields@, fields@.len() as int, env, fns),
        Expression::If { then_branch, else_branch, .. } => block_value(then_branch@, env, fns) + (
        match else_branch {
            Some(x) => eval(*x, env, fns),
            None => Seq::empty(),
        }),
        Expression::Match { arms, .. } => eval_arms(arms@, arms@.len() as int, env, fns),
        Expression::Block(b) => block_value(b@, env, fns),
        Expression::Unsafe(b) => block_value(b@, env, fns),
        Expression::Loop { body, .. } => block_breaks(body@, body@.len() as int, env, fns),
        Expression::Return { value, .. } => match value {
            Some(x) => eval(*x, env, fns),
            None => Seq::empty(),
        },
        Expression::Reference(x) => eval(*x, env, fns),
        Expression::Cast(x) => eval(*x, env, fns),
        Expression::Range { start, end } => (match start {
            Some(x) => eval(*x, env, fns),
            None => Seq::empty(),
        }) + (match end {
            Some(x) => eval(*x, env, fns),
            None => Seq::empty(),
        }),
        Expression::Try(x) => eval(*x, env, fns),
        Expression::Repeat(x) => eval(*x, env, fns),
        Expression::Call { func, args } => match *func {
            Expression::Path { segments, .. } => if fns.contains_key(path_text(segments@)) {
                fns[path_text(segments@)]
            } else if (is_wrapper(path_text(segments@)) || is_wrapper(short_name(segments@)))
                && args@.len() > 0 {
                eval(args@[0], env, fns)
            } else {
                Seq::empty()
            },
            _ => Seq::empty(),
        },
        Expression::MethodCall { receiver, method, args } => if passes_through(method@) {
            eval(*receiver, env, fns)
        } else if method@ == "unwrap_or"@ {
            eval(*receiver, env, fns) + (if args@.len() > 0 {
                eval(args@[0], env, fns)
            } else {
                Seq::empty()
            })
        } else {
            Seq::empty()
        },
        _ => Seq::empty(),
    }
}

fn pair(a: SymValue, b: SymValue) -> (r: SymValue)
    ensures
        r@ == a@ + b@,
{
    let ghost (x, y) = (a@, b@);
    let mut v: Vec<SymValue> = Vec::new();
    v.push(a);
    v.push(b);
    proof {
        assert(all_literals(v@, 0) =~= Seq::<LiteralModel>::empty());
        assert(all_literals(v@, 1) =~= x);
        assert(all_literals(v@, 2) =~= x + y);
    }
    SymValue::compound(v)
}

fn sym_eval_list(es: &Vec<Expression>, env: &VarEnv, fns: &VarEnv) -> (r: SymValue)
    requires
        env.wf(),
        fns.wf(),
    ensures
        r@ == eval_list(es@, es@.len() as int, known(env@), known(fns@)),
    decreases es, 1int,
{
    let mut vals: Vec<SymValue> = Vec::new();
    let mut i: usize = 0;
    while i < es.len()
        invariant
            i <= es@.len(),
            env.wf(),
            fns.wf(),
            vals@.len() == i,
            all_literals(vals@, i as int) == eval_list(es@, i as int, known(env@), known(fns@)),
        decreases es@.len() - i,
    {
        let v = sym_eval(&es[i], env, fns);
        proof {
            lemma_all_literals_push(vals@, v);
        }
        vals.push(v);
        i = i + 1;
    }
    SymValue::compound(vals)
}

fn sym_eval_arms(arms: &Vec<Arm>, env: &VarEnv, fns: &VarEnv) -> (r: SymValue)
    requires
        env.wf(),
        fns.wf(),
    ensures
        r@ == eval_arms(arms@, arms@.len() as int, known(env@), known(fns@)),
    decreases arms, 1int,
{
    let mut vals: Vec<SymValue> = Vec::new();
    let mut i: usize = 0;
    while i < arms.len()
        invariant
            i <= arms@.len(),
            env.wf(),
            fns.wf(),
            vals@.len() == i,
            all_literals(vals@, i as int) == eval_arms(
                arms@,
                i as int,
                known(env@),
                known(fns@),
            ),
        decreases arms@.len() - i,
    {
        let mut inner = copy_env(env);
        let names = extract_pat_names(&arms[i].pat);
        bind(&mut inner, &names, &SymValue::Opaque);
        let v = sym_eval(&arms[i].body, &inner, fns);
        proof {
            lemma_all_literals_push(vals@, v);
        }
        vals.push(v);
        i = i + 1;
    }
    SymValue::compound(vals)
}

/// Takes in what a `let` binds.
pub fn process_local(pat: &Pattern, init: &Option<Expression>, env: &mut VarEnv, fns: &VarEnv)
    requires
        old(env).wf(),
        fns.wf(),
    ensures
        final(env).wf(),
        known(final(env)@) == bound(
            known(old(env)@),
            syntax::pat_names(*pat),
            init_value(*init, known(old(env)@), known(fns@)),
        ),
    decreases init, 1int,
{
    let val = match init {
        Some(e) => sym_eval(e, env, fns),
        None => SymValue::Opaque,
    };
    let names = extract_pat_names(pat);
    bind(env, &names, &val);
}

/// Takes in what an expression does besides having a value.
pub fn process_expr_stmt(e: &Expression, env: &mut VarEnv, fns: &VarEnv)
    requires
        old(env).wf(),
        fns.wf(),
    ensures
        final(env).wf(),
        known(final(env)@) == effect_env(*e, known(old(env)@), known(fns@)),
    decreases e, 1int,
{
    match e {
        Expression::Assign { left, right } => {
            let val = sym_eval(right, env, fns);
            let names = extract_expr_names(left);
            bind(env, &names, &val);
        },
        Expression::Block(b) => {
            let n: usize = b.len();
            process_stmts(b, n, env, fns);
        },
        _ => {},
    }
}

/// Takes in what the first `n` statements of a block do.
pub fn process_stmts(stmts: &Vec<Statement>, n: usize, env: &mut VarEnv, fns: &VarEnv)
    requires
        old(env).wf(),
        fns.wf(),
        n <= stmts@.len(),
    ensures
        final(env).wf(),
        known(final(env)@) == block_env(stmts@, n as int, known(old(env)@), known(fns@)),
    decreases stmts, 1int,
{
    let ghost start = known(env@);
    let mut i: usize = 0;
    while i < n
        invariant
            i <= n <= stmts@.len(),
            env.wf(),
            fns.wf(),
            known(env@) == block_env(stmts@, i as int, start, known(fns@)),
        decreases n - i,
    {
        process_stmt(&stmts[i], env, fns);
        i = i + 1;
    }
}

fn process_stmt(s: &Statement, env: &mut VarEnv, fns: &VarEnv)
    requires
        old(env).wf(),
        fns.wf(),
    ensures
        final(env).wf(),
        known(final(env)@) == (match *s {
            Statement::Local { pat, init, .. } => bound(
                known(old(env)@),
                syntax::pat_names(pat),
                init_value(init, known(old(env)@), known(fns@)),
            ),
            Statement::Expr { expr, .. } => effect_env(expr, known(old(env)@), known(fns@)),
            _ => known(old(env)@),
        }),
    decreases s, 1int,
{
    match s {
        Statement::Local { pat, init, .. } => process_local(pat, init, env, fns),
        Statement::Expr { expr, .. } => process_expr_stmt(expr, env, fns),
        _ => {},
    }
}

/// The literals that a block is made of.
pub fn sym_eval_block(stmts: &Vec<Statement>, parent: &VarEnv, fns: &VarEnv) -> (r: SymValue)
    requires
        parent.wf(),
        fns.wf(),
    ensures
        r@ == block_value(stmts@, known(parent@), known(fns@)),
    decreases stmts, 2int,
{
    let n: usize = stmts.len();
    if n == 0 {
        return SymValue::Opaque;
    }
    match &stmts[n - 1] {
        Statement::Expr { expr, semi } => {
            if *semi {
                return SymValue::Opaque;
            }
            let mut env = copy_env(parent);
            process_stmts(stmts, n - 1, &mut env, fns);
            sym_eval(expr, &env, fns)
        },
        _ => SymValue::Opaque,
    }
}

/// The literals that a loop can be left with in a block.
pub fn collect_breaks_in_block(stmts: &Vec<Statement>, outer: &VarEnv, fns: &VarEnv) -> (r: SymValue)
    requires
        outer.wf(),
        fns.wf(),
    ensures
        r@ == block_breaks(stmts@, stmts@.len() as int, known(outer@), known(fns@)),
    decreases stmts, 1int,
{
    let mut env = copy_env(outer);
    let mut vals: Vec<SymValue> = Vec::new();
    let mut i: usize = 0;
    while i < stmts.len()
        invariant
            i <= stmts@.len(),
            env.wf(),
            fns.wf(),
            known(env@) == locals_env(stmts@, i as int, known(outer@), known(fns@)),
            vals@.len() == i,
            all_literals(vals@, i as int) == block_breaks(
                stmts@,
                i as int,
                known(outer@),
                known(fns@),
            ),
        decreases stmts@.len() - i,
    {
        let v = match &stmts[i] {
            Statement::Local { pat, init, .. } => {
                process_local(pat, init, &mut env, fns);
                SymValue::Opaque
            },
            Statement::Expr { expr, .. } => collect_breaks_in_expr(expr, &env, fns),
            _ => SymValue::Opaque,
        };
        proof {
            lemma_all_literals_push(vals@, v);
        }
        vals.push(v);
        i = i + 1;
    }
    SymValue::compound(vals)
}

fn collect_breaks_in_arms(arms: &Vec<Arm>, env: &VarEnv, fns: &VarEnv) -> (r: SymValue)
    requires
        env.wf(),
        fns.wf(),
    ensures
        r@ == arm_breaks(arms@, arms@.len() as int, known(env@), known(fns@)),
    decreases arms, 1int,
{
    let mut vals: Vec<SymValue> = Vec::new();
    let mut i: usize = 0;
    while i < arms.len()
        invariant
            i <= arms@.len(),
            env.wf(),
            fns.wf(),
            vals@.len() == i,
            all_literals(vals@, i as int) == arm_breaks(
                arms@,
                i as int,
                known(env@),
                known(fns@),
            ),
        decreases arms@.len() - i,
    {
        let v = collect_breaks_in_expr(&arms[i].body, env, fns);
        proof {
            lemma_all_literals_push(vals@, v);
        }
        vals.push(v);
        i = i + 1;
    }
    SymValue::compound(vals)
}

/// The literals that a loop can be left with in an expression.
pub fn collect_breaks_in_expr(e: &Expression, env: &VarEnv, fns: &VarEnv) -> (r: SymValue)
    requires
        env.wf(),
        fns.wf(),
    ensures
        r@ == expr_breaks(*e, known(env@), known(fns@)),
    decreases e, 1int,
{
    match e {
        Expression::Break(value) => match value {
            Some(v) => sym_eval(v, env, fns),
            None => SymValue::Opaque,
        },
        Expression::Block(b) => collect_breaks_in_block(b, env, fns),
        Expression::If { then_branch, else_branch, .. } => {
            let a = collect_breaks_in_block(then_branch, env, fns);
            let b = match else_branch {
                Some(x) => collect_breaks_in_expr(x, env, fns),
                None => SymValue::Opaque,
            };
            pair(a, b)
        },
        Expression::Match { arms, .. } => collect_breaks_in_arms(arms, env, fns),
        _ => SymValue::Opaque,
    }
}

fn sym_eval_opt(e: &Option<Box<Expression>>, env: &VarEnv, fns: &VarEnv) -> (r: SymValue)
    requires
        env.wf(),
        fns.wf(),
    ensures
        r@ == (match *e {
            Some(x) => eval(*x, known(env@), known(fns@)),
            None => Seq::empty(),
        }),
    decreases e, 1int,
{
    match e {
        Some(x) => sym_eval(x, env, fns),
        None => SymValue::Opaque,
    }
}

/// The literals that an expression is made of.
pub fn sym_eval(e: &Expression, env: &VarEnv, fns: &VarEnv) -> (r: SymValue)
    requires
        env.wf(),
        fns.wf(),
    ensures
        r@ == eval(*e, known(env@), known(fns@)),
    decreases e, 0int,
{
    match e {
        Expression::Lit { lit, line, col } => match lit_to_info(lit, *line, *col) {
            Some(info) => SymValue::Literal(info),
            None => SymValue::Opaque,
        },
        Expression::Path { segments, is_ident, .. } => {
            if *is_ident && segments.len() == 1 {
                let name = segments[0].as_str();
                if same_text(name, "true") || same_text(name, "false") {
                    SymValue::Opaque
                } else {
                    look_up(env, name)
                }
            } else {
                let full = join(segments, "::");
                look_up(fns, full.as_str())
            }
        },
        Expression::Binary { op, left, right } => {
            if *op != Operator::Other {
                SymValue::Opaque
            } else {
                let a = sym_eval(left, env, fns);
                let b = sym_eval(right, env, fns);
                pair(a, b)
            }
        },
        Expression::Unary(x) => sym_eval(x, env, fns),
        Expression::Paren(x) => sym_eval(x, env, fns),
        Expression::Tuple(es) => sym_eval_list(es, env, fns),
        Expression::Array(es) => sym_eval_list(es, env, fns),
        Expression::Struct { fields, .. } => sym_eval_list(fields, env, fns),
        Expression::If { then_branch, else_branch, .. } => {
            let a = sym_eval_block(then_branch, env, fns);
            let b = sym_eval_opt(else_branch, env, fns);
            pair(a, b)
        },
        Expression::Match { arms, .. } => sym_eval_arms(arms, env, fns),
        Expression::Block(b) => sym_eval_block(b, env, fns),
        Expression::Unsafe(b) => sym_eval_block(b, env, fns),
        Expression::Loop { body, .. } => collect_breaks_in_block(body, env, fns),
        Expression::Return { value, .. } => sym_eval_opt(value, env, fns),
        Expression::Reference(x) => sym_eval(x, env, fns),
        Expression::Cast(x) => sym_eval(x, env, fns),
        Expression::Range { start, end } => {
            let a = sym_eval_opt(start, env, fns);
            let b = sym_eval_opt(end, env, fns);
            pair(a, b)
        },
        Expression::Try(x) => sym_eval(x, env, fns),
        Expression::Repeat(x) => sym_eval(x, env, fns),
        Expression::Call { func, args } => match &**func {
            Expression::Path { segments, .. } => {
                let full = join(segments, "::");
                if let Some(v) = fns.get(full.as_str()) {
                    return v.copy();
                }
                let n: usize = segments.len();
                let short = if n >= 2 {
                    let mut s = segments[n - 2].clone();
                    s.push_str("::");
                    s.push_str(segments[n - 1].as_str());
                    s
                } else {
                    full.clone()
                };
                if (wraps(full.as_str()) || wraps(short.as_str())) && args.len() > 0 {
                    sym_eval(&args[0], env, fns)
                } else {
                    SymValue::Opaque
                }
            },
            _ => SymValue::Opaque,
        },
        Expression::MethodCall { receiver, method, args } => {
            if passes(method.as_str()) {
                sym_eval(receiver, env, fns)
            } else if same_text(method.as_str(), "unwrap_or") {
                let a = sym_eval(receiver, env, fns);
                let b = if args.len() > 0 {
                    sym_eval(&args[0], env, fns)
                } else {
                    SymValue::Opaque
                };
                pair(a, b)
            } else {
                SymValue::Opaque
            }
        },
        _ => SymValue::Opaque,
    }
}

/// What a condition, what is matched on or an index says makes no difference to
/// the literals that an expression is made of, and a comparison has none.
pub proof fn law_choices_are_not_values(
    a: Box<Expression>,
    b: Box<Expression>,
    then_branch: Vec<Statement>,
    else_branch: Option<Box<Expression>>,
    arms: Vec<Arm>,
    op: Operator,
    env: Map<Seq<char>, Seq<LiteralModel>>,
    fns: Map<Seq<char>, Seq<LiteralModel>>,
)
    ensures
        eval(Expression::If { cond: a, then_branch, else_branch }, env, fns) == eval(
            Expression::If { cond: b, then_branch, else_branch },
            env,
            fns,
        ),
        eval(Expression::Match { scrutinee: a, arms }, env, fns) == eval(
            Expression::Match { scrutinee: b, arms },
            env,
            fns,
        ),
        eval(Expression::Index(a), env, fns) == Seq::<LiteralModel>::empty(),
        syntax::gives_bool(op) ==> eval(Expression::Binary { op, left: a, right: b }, env, fns) == Seq::<
            LiteralModel,
        >::empty(),
{
}

/// Truth values, zero and the empty text never count.
pub proof fn law_exempt_literals_never_count(
    lit: Literal,
    line: usize,
    col: usize,
    env: Map<Seq<char>, Seq<LiteralModel>>,
    fns: Map<Seq<char>, Seq<LiteralModel>>,
)
    requires
        is_exempt(lit) || (lit matches Literal::Str(s) && s@.len() == 0),
    ensures
        eval(Expression::Lit { lit, line, col }, env, fns) == Seq::<LiteralModel>::empty(),
{
}

} // verus!

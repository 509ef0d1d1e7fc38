//! Writing answers. Every list of actions can be written as an answer, and
//! reading that answer gives the actions back.
use vstd::prelude::*;

use crate::inference::action;
use crate::inference::action::ActionModel;
use crate::inference::markdown;
use crate::inference::parser;
use crate::text::number;
use crate::text::search;
use crate::text::space;

verus! {

/// A token: at least one character and no white space.
pub open spec fn is_token(token: Seq<char>) -> bool {
    token.len() > 0 && forall|i: int| 0 <= i < token.len() ==> !space::is_space(#[trigger] token[i])
}

/// A text that a field before the last one can hold: it is not blank, does not
/// end in a newline and does not hold the token.
pub open spec fn fits_inside(s: Seq<char>, token: Seq<char>) -> bool {
    !space::is_blank(s) && s.last() != '\n' && !search::has_text(s, token)
}

/// A text that the last field can hold: it is not blank, does not end in white
/// space and does not hold the token.
pub open spec fn fits_last(s: Seq<char>, token: Seq<char>) -> bool {
    !space::is_blank(s) && !space::is_space(s.last()) && !search::has_text(s, token)
}

/// The fields one after the other, each behind its marker.
pub open spec fn fields_text(
    names: Seq<Seq<char>>,
    values: Seq<Seq<char>>,
    token: Seq<char>,
) -> Seq<char>
    decreases names.len(),
{
    if names.len() == 0 || values.len() == 0 {
        Seq::empty()
    } else if names.len() == 1 {
        markdown::element_mark(names[0], token) + "\n"@ + values[0]
    } else {
        markdown::element_mark(names[0], token) + "\n"@ + values[0] + "\n"@ + fields_text(
            names.skip(1),
            values.skip(1),
            token,
        )
    }
}

/// The names of an action's fields, where it has more than one text.
pub open spec fn field_names(a: ActionModel) -> Seq<Seq<char>> {
    match a {
        ActionModel::SendMsg { .. } => seq!["recipient"@, "content"@],
        ActionModel::WriteFile { .. } => seq!["path"@, "content"@],
        ActionModel::ReplaceInFile { .. } => seq!["path"@, "search"@, "replace"@],
        ActionModel::CreateInstance { .. } => seq!["name"@, "knowledge"@],
        ActionModel::Distill { .. } => seq!["target_action_id"@, "summary"@],
        _ => Seq::empty(),
    }
}

/// The texts of an action, in the order in which they are written.
pub open spec fn field_values(a: ActionModel) -> Seq<Seq<char>> {
    match a {
        ActionModel::SendMsg { recipient, content } => seq![recipient, content],
        ActionModel::WriteFile { path, content } => seq![path, content],
        ActionModel::ReplaceInFile { path, search, replace } => seq![path, search, replace],
        ActionModel::CreateInstance { name, knowledge } => seq![name, knowledge],
        ActionModel::Distill { target_action_id, summary } => seq![target_action_id, summary],
        ActionModel::Thinking { content } => seq![content],
        ActionModel::Script { content } => seq![content],
        ActionModel::Summary { content } => seq![content],
        ActionModel::SetProfile { content } => seq![content],
        _ => Seq::empty(),
    }
}

/// An action whose texts can be written under the token.
pub open spec fn is_writable(a: ActionModel, token: Seq<char>) -> bool {
    let values = field_values(a);
    &&& forall|i: int| 0 <= i < values.len() - 1 ==> fits_inside(#[trigger] values[i], token)
    &&& values.len() > 0 ==> fits_last(values.last(), token)
}

/// An action as an element of an answer: the name of its kind, then its texts.
pub open spec fn spelled(a: ActionModel, token: Seq<char>) -> Seq<char> {
    let head = action::kind_name_text(a);
    match a {
        ActionModel::Idle { timeout_secs: Some(n) } => head + "\n"@ + number::dec(n as nat),
        ActionModel::Idle { timeout_secs: None } => head,
        ActionModel::ReadMsg => head,
        ActionModel::Thinking { content } => head + "\n"@ + content,
        ActionModel::Script { content } => head + "\n"@ + content,
        ActionModel::Summary { content } => head + "\n"@ + content,
        ActionModel::SetProfile { content } => head + "\n"@ + content,
        _ => head + "\n"@ + fields_text(field_names(a), field_values(a), token),
    }
}

/// The elements one after the other, each behind its marker.
pub open spec fn laid_out(chunks: Seq<Seq<char>>, mark: Seq<char>) -> Seq<char>
    decreases chunks.len(),
{
    if chunks.len() == 0 {
        Seq::empty()
    } else if chunks.len() == 1 {
        mark + "\n"@ + chunks[0]
    } else {
        mark + "\n"@ + chunks[0] + "\n"@ + laid_out(chunks.skip(1), mark)
    }
}

/// A list of actions as an answer.
pub open spec fn answer_text(actions: Seq<ActionModel>, token: Seq<char>) -> Seq<char> {
    let chunks = actions.map_values(|a: ActionModel| spelled(a, token));
    let end = markdown::end_mark("Action"@, token);
    if actions.len() == 0 {
        end
    } else {
        laid_out(chunks, markdown::element_mark("Action"@, token)) + "\n"@ + end
    }
}

pub(crate) open spec fn one_line(s: Seq<char>) -> bool {
    forall|i: int| 0 <= i < s.len() ==> #[trigger] s[i] != '\n'
}

pub(crate) proof fn lemma_newline()
    ensures
        "\n"@ == seq!['\n'],
        space::is_space('\n'),
{
    reveal_strlit("\n");
    assert("\n"@ =~= seq!['\n']);
}

/// A text that neither starts nor ends in white space is trimmed already, with
/// or without a newline behind it.
pub(crate) proof fn lemma_trim_core(s: Seq<char>)
    requires
        s.len() > 0,
        !space::is_space(s[0]),
        !space::is_space(s.last()),
    ensures
        space::trimmed(s) == s,
        space::trimmed(s + "\n"@) == s,
        !space::is_blank(s),
        !space::is_blank(s + "\n"@),
        space::trimmed_end(s) == s,
{
    lemma_newline();
    assert(space::skip_space(s, 0) == 0);
    assert(s.skip(0) =~= s);
    assert(space::back_space(s, s.len() as int) == s.len());
    assert(s.take(s.len() as int) =~= s);
    let t = s + "\n"@;
    assert(space::skip_space(t, 0) == 0);
    assert(t.skip(0) =~= t);
    assert(t[t.len() - 1] == '\n');
    assert(t[s.len() - 1] == s.last());
    assert(space::back_space(t, s.len() as int) == s.len());
    assert(space::back_space(t, t.len() as int) == s.len());
    assert(t.take(s.len() as int) =~= s);
}

pub(crate) proof fn lemma_trim_end_core(s: Seq<char>)
    requires
        s.len() > 0,
        !space::is_space(s.last()),
    ensures
        space::trimmed_end(s) == s,
{
    assert(space::back_space(s, s.len() as int) == s.len());
    assert(s.take(s.len() as int) =~= s);
}

proof fn lemma_filled_has_length(s: Seq<char>)
    requires
        !space::is_blank(s),
    ensures
        s.len() > 0,
{
    if s.len() == 0 {
        assert(space::trimmed(s) =~= s);
    }
}

/// A part of a text that holds no newline stands before or behind each newline.
pub(crate) proof fn lemma_not_across(a: Seq<char>, b: Seq<char>, p: Seq<char>)
    requires
        one_line(p),
        p.len() > 0,
        !search::has_text(a, p),
        !search::has_text(b, p),
    ensures
        !search::has_text(a + "\n"@ + b, p),
{
    lemma_newline();
    let s = a + "\n"@ + b;
    assert forall|q: int| !search::occurs_at(s, p, q) by {
        if search::occurs_at(s, p, q) {
            if q + p.len() <= a.len() {
                assert(a.subrange(q, q + p.len()) =~= p);
                assert(search::occurs_at(a, p, q));
            } else if q <= a.len() {
                assert(s[a.len() as int] == '\n');
                assert(s.subrange(q, q + p.len())[a.len() - q] == '\n');
                assert(p[a.len() - q] == '\n');
            } else {
                let r = q - a.len() - 1;
                assert(b.subrange(r, r + p.len()) =~= s.subrange(q, q + p.len()));
                assert(search::occurs_at(b, p, r));
            }
        }
    }
}

/// What stands nowhere in a text stands nowhere with more behind it.
pub(crate) proof fn lemma_longer_is_absent(s: Seq<char>, p: Seq<char>, more: Seq<char>)
    requires
        !search::has_text(s, p),
    ensures
        !search::has_text(s, p + more),
{
    assert forall|q: int| !search::occurs_at(s, p + more, q) by {
        if search::occurs_at(s, p + more, q) {
            let whole = s.subrange(q, q + p.len() + more.len());
            assert(s.subrange(q, q + p.len()) =~= whole.take(p.len() as int));
            assert((p + more).take(p.len() as int) =~= p);
            assert(search::occurs_at(s, p, q));
        }
    }
}

/// A marker holds its token.
pub(crate) proof fn lemma_mark_holds_token(s: Seq<char>, name: Seq<char>, token: Seq<char>)
    requires
        !search::has_text(s, token),
    ensures
        !search::has_text(s, markdown::element_mark(name, token)),
{
    let mark = markdown::element_mark(name, token);
    let k = (name + "-"@).len();
    assert forall|q: int| !search::occurs_at(s, mark, q) by {
        if search::occurs_at(s, mark, q) {
            assert(s.subrange(q + k, q + k + token.len()) =~= s.subrange(
                q,
                q + mark.len(),
            ).skip(k as int));
            assert(mark.skip(k as int) =~= token);
            assert(search::occurs_at(s, token, q + k));
        }
    }
}

/// A marker stands in another one only where its name ends the other's name.
pub(crate) proof fn lemma_mark_in_mark(n: Seq<char>, m: Seq<char>, token: Seq<char>)
    requires
        !search::has_text(n + "-"@, m + "-"@),
    ensures
        !search::has_text(markdown::element_mark(n, token), markdown::element_mark(m, token)),
{
    let outer = markdown::element_mark(n, token);
    let inner = markdown::element_mark(m, token);
    let k = (m + "-"@).len();
    assert forall|q: int| !search::occurs_at(outer, inner, q) by {
        if search::occurs_at(outer, inner, q) {
            assert((n + "-"@).subrange(q, q + k) =~= outer.subrange(q, q + inner.len()).take(
                k as int,
            ));
            assert(inner.take(k as int) =~= m + "-"@);
            assert(search::occurs_at(n + "-"@, m + "-"@, q));
        }
    }
}

pub(crate) proof fn lemma_mark_is_one_line(name: Seq<char>, token: Seq<char>)
    requires
        one_line(name),
        is_token(token),
    ensures
        one_line(markdown::element_mark(name, token)),
        markdown::element_mark(name, token).len() > 0,
        !space::is_space(markdown::element_mark(name, token).last()),
{
    lemma_newline();
    reveal_strlit("-");
    let mark = markdown::element_mark(name, token);
    assert forall|i: int| 0 <= i < mark.len() implies #[trigger] mark[i] != '\n' by {
        if i < name.len() {
            assert(mark[i] == name[i]);
        } else if i == name.len() {
            assert(mark[i] == '-');
        } else {
            assert(mark[i] == token[i - name.len() - 1]);
        }
    }
    assert(mark.last() == token[token.len() - 1]);
}

/// Names under which fields can be told apart.
spec fn are_names(names: Seq<Seq<char>>) -> bool {
    &&& forall|i: int| 0 <= i < names.len() ==> one_line(#[trigger] names[i])
    &&& forall|i: int, j: int|
        0 <= i < names.len() && 0 <= j < names.len() && i != j ==> !search::has_text(
            #[trigger] names[i] + "-"@,
            #[trigger] names[j] + "-"@,
        )
}

/// Values that are read back from their fields.
spec fn are_values(values: Seq<Seq<char>>, token: Seq<char>) -> bool {
    &&& values.len() > 0
    &&& forall|i: int| 0 <= i < values.len() - 1 ==> fits_inside(#[trigger] values[i], token)
    &&& fits_last(values.last(), token)
}

/// Where a field starts.
spec fn field_start(
    names: Seq<Seq<char>>,
    values: Seq<Seq<char>>,
    token: Seq<char>,
    i: int,
) -> int
    decreases i,
{
    if i <= 0 {
        0
    } else {
        field_start(names, values, token, i - 1) + markdown::element_mark(
            names[i - 1],
            token,
        ).len() + 1 + values[i - 1].len() + 1
    }
}

proof fn lemma_field_start(
    names: Seq<Seq<char>>,
    values: Seq<Seq<char>>,
    token: Seq<char>,
    i: int,
)
    requires
        0 <= i < names.len(),
        names.len() == values.len(),
    ensures
        0 <= field_start(names, values, token, i) <= fields_text(names, values, token).len(),
        fields_text(names, values, token).skip(field_start(names, values, token, i))
            == fields_text(names.skip(i), values.skip(i), token),
    decreases i,
{
    lemma_newline();
    let body = fields_text(names, values, token);
    if i == 0 {
        assert(names.skip(0) =~= names);
        assert(values.skip(0) =~= values);
        assert(body.skip(0) =~= body);
    } else {
        lemma_field_start(names, values, token, i - 1);
        let a = field_start(names, values, token, i - 1);
        let rest = fields_text(names.skip(i - 1), values.skip(i - 1), token);
        assert(names.skip(i - 1).skip(1) =~= names.skip(i));
        assert(values.skip(i - 1).skip(1) =~= values.skip(i));
        let mark = markdown::element_mark(names[i - 1], token);
        let front = mark + "\n"@ + values[i - 1] + "\n"@;
        assert(rest == front + fields_text(names.skip(i), values.skip(i), token));
        assert(rest.skip(front.len() as int) =~= fields_text(
            names.skip(i),
            values.skip(i),
            token,
        ));
        assert(body.skip(a).skip(front.len() as int) =~= body.skip(a + front.len()));
    }
}

/// The marker of a field does not stand before the field.
proof fn lemma_no_earlier_mark(
    names: Seq<Seq<char>>,
    values: Seq<Seq<char>>,
    token: Seq<char>,
    i: int,
    k: int,
    q: int,
)
    requires
        0 <= k <= i < names.len(),
        names.len() == values.len(),
        are_names(names),
        are_values(values, token),
        is_token(token),
        q < field_start(names, values, token, k),
    ensures
        !search::occurs_at(
            fields_text(names, values, token),
            markdown::element_mark(names[i], token),
            q,
        ),
    decreases k,
{
    let body = fields_text(names, values, token);
    let p = markdown::element_mark(names[i], token);
    if k > 0 && q < field_start(names, values, token, k - 1) {
        lemma_no_earlier_mark(names, values, token, i, k - 1, q);
    } else if k > 0 && search::occurs_at(body, p, q) {
        lemma_newline();
        lemma_field_start(names, values, token, k - 1);
        lemma_mark_is_one_line(names[i], token);
        let a = field_start(names, values, token, k - 1);
        let mark = markdown::element_mark(names[k - 1], token);
        let v = values[k - 1];
        let rest = fields_text(names.skip(k - 1), values.skip(k - 1), token);
        let tail = fields_text(names.skip(k - 1).skip(1), values.skip(k - 1).skip(1), token);
        assert(rest == mark + "\n"@ + v + "\n"@ + tail);
        let r = q - a;
        let w = body.subrange(q, q + p.len());
        assert(rest.subrange(r, r + p.len()) =~= w);
        assert(rest[mark.len() as int] == '\n');
        assert(rest[mark.len() as int + 1 + v.len()] == '\n');
        if r + p.len() <= mark.len() {
            assert(mark.subrange(r, r + p.len()) =~= w);
            assert(search::occurs_at(mark, p, r));
            assert(!search::has_text(names[k - 1] + "-"@, names[i] + "-"@));
            lemma_mark_in_mark(names[k - 1], names[i], token);
        } else if r <= mark.len() {
            assert(w[mark.len() - r] == '\n');
        } else if r + p.len() <= mark.len() + 1 + v.len() {
            let t = r - mark.len() - 1;
            assert(v.subrange(t, t + p.len()) =~= w);
            assert(search::occurs_at(v, p, t));
            assert(fits_inside(values[k - 1], token));
            lemma_mark_holds_token(v, names[i], token);
        } else {
            assert(w[mark.len() + 1 + v.len() - r] == '\n');
        }
    }
}

/// A field is found where it starts.
proof fn lemma_field_at(
    names: Seq<Seq<char>>,
    values: Seq<Seq<char>>,
    token: Seq<char>,
    i: int,
)
    requires
        0 <= i < names.len(),
        names.len() == values.len(),
        are_names(names),
        are_values(values, token),
        is_token(token),
    ensures
        ({
            let mark = markdown::element_mark(names[i], token);
            let a = field_start(names, values, token, i);
            markdown::field_at(fields_text(names, values, token), mark) == Some(
                (a, a + mark.len() + 1),
            )
        }),
{
    lemma_newline();
    let body = fields_text(names, values, token);
    let mark = markdown::element_mark(names[i], token);
    let line = mark + "\n"@;
    let a = field_start(names, values, token, i);
    lemma_field_start(names, values, token, i);
    let rest = fields_text(names.skip(i), values.skip(i), token);
    assert(names.skip(i)[0] == names[i]);
    assert(rest.take(line.len() as int) =~= line);
    assert(body.subrange(a, a + line.len()) =~= rest.take(line.len() as int));
    assert(search::occurs_at(body, line, a));
    assert forall|j: int| 0 <= j < a implies !search::occurs_at(body, line, j) by {
        if search::occurs_at(body, line, j) {
            assert(body.subrange(j, j + mark.len()) =~= body.subrange(j, j + line.len()).take(
                mark.len() as int,
            ));
            assert(line.take(mark.len() as int) =~= mark);
            assert(search::occurs_at(body, mark, j));
            lemma_no_earlier_mark(names, values, token, i, i, j);
        }
    }
    search::lemma_find_is_first(body, line, a);
}

proof fn lemma_drop_one_newline(s: Seq<char>)
    requires
        s.len() > 0,
        s.last() != '\n',
    ensures
        markdown::without_newlines(s + "\n"@) == s,
{
    lemma_newline();
    let t = s + "\n"@;
    assert(t.last() == '\n');
    assert(t.drop_last() =~= s);
    assert(markdown::without_newlines(s) == s);
}

/// The value of a field is read back.
proof fn lemma_field_value(
    names: Seq<Seq<char>>,
    values: Seq<Seq<char>>,
    token: Seq<char>,
    i: int,
)
    requires
        0 <= i < names.len(),
        names.len() == values.len(),
        are_names(names),
        are_values(values, token),
        is_token(token),
    ensures
        markdown::field_value(fields_text(names, values, token), names, token, i) == values[i],
        !space::is_blank(values[i]),
{
    lemma_newline();
    let body = fields_text(names, values, token);
    let mark = markdown::element_mark(names[i], token);
    let a = field_start(names, values, token, i);
    lemma_field_at(names, values, token, i);
    lemma_field_start(names, values, token, i);
    let rest = fields_text(names.skip(i), values.skip(i), token);
    let v = values[i];
    let n = mark.len() as int;
    let start = a + n + 1;
    if i + 1 < names.len() {
        assert(fits_inside(values[i], token));
        lemma_filled_has_length(v);
        lemma_field_at(names, values, token, i + 1);
        let tail = fields_text(names.skip(i).skip(1), values.skip(i).skip(1), token);
        assert(rest == mark + "\n"@ + v + "\n"@ + tail);
        assert(rest.subrange(n + 1, n + 1 + v.len() + 1) =~= v + "\n"@);
        assert(body.subrange(start, field_start(names, values, token, i + 1)) =~= v + "\n"@) by {
            assert(body.subrange(start, field_start(names, values, token, i + 1))
                =~= rest.subrange(n + 1, n + 1 + v.len() + 1));
        }
        lemma_drop_one_newline(v);
    } else {
        assert(values.last() == v);
        lemma_filled_has_length(v);
        assert(rest == mark + "\n"@ + v);
        assert(rest.skip(n + 1) =~= v);
        assert(body.skip(start) =~= body.skip(a).skip(n + 1));
        lemma_trim_end_core(v);
    }
}

/// The fields are read back.
proof fn lemma_fields_from(
    owner: Seq<char>,
    names: Seq<Seq<char>>,
    values: Seq<Seq<char>>,
    token: Seq<char>,
    i: int,
    least: int,
)
    requires
        0 <= i <= names.len(),
        names.len() == values.len(),
        are_names(names),
        are_values(values, token),
        is_token(token),
        i < names.len() ==> least <= field_start(names, values, token, i),
    ensures
        markdown::fields_from(owner, fields_text(names, values, token), names, token, i, least)
            == Ok::<Seq<Seq<char>>, Seq<char>>(values.skip(i)),
    decreases names.len() - i,
{
    let body = fields_text(names, values, token);
    if i == names.len() {
        assert(values.skip(i) =~= Seq::<Seq<char>>::empty());
    } else {
        lemma_field_at(names, values, token, i);
        lemma_field_value(names, values, token, i);
        let start = field_start(names, values, token, i) + markdown::element_mark(
            names[i],
            token,
        ).len() + 1;
        lemma_fields_from(owner, names, values, token, i + 1, start);
        assert(seq![values[i]] + values.skip(i + 1) =~= values.skip(i));
    }
}

/// A text that stands in no marker and in no value stands nowhere in the fields.
proof fn lemma_absent_from_fields(
    names: Seq<Seq<char>>,
    values: Seq<Seq<char>>,
    token: Seq<char>,
    p: Seq<char>,
)
    requires
        names.len() == values.len(),
        one_line(p),
        p.len() > 0,
        forall|i: int|
            0 <= i < names.len() ==> !search::has_text(
                markdown::element_mark(#[trigger] names[i], token),
                p,
            ),
        forall|i: int| 0 <= i < values.len() ==> !search::has_text(#[trigger] values[i], p),
    ensures
        !search::has_text(fields_text(names, values, token), p),
    decreases names.len(),
{
    let body = fields_text(names, values, token);
    if names.len() == 0 {
        assert forall|q: int| !search::occurs_at(body, p, q) by {}
    } else {
        let mark = markdown::element_mark(names[0], token);
        lemma_not_across(mark, values[0], p);
        if names.len() > 1 {
            let rest = fields_text(names.skip(1), values.skip(1), token);
            assert forall|i: int| 0 <= i < names.skip(1).len() implies !search::has_text(
                markdown::element_mark(#[trigger] names.skip(1)[i], token),
                p,
            ) by {
                assert(names.skip(1)[i] == names[i + 1]);
            }
            assert forall|i: int| 0 <= i < values.skip(1).len() implies !search::has_text(
                #[trigger] values.skip(1)[i],
                p,
            ) by {
                assert(values.skip(1)[i] == values[i + 1]);
            }
            lemma_absent_from_fields(names.skip(1), values.skip(1), token, p);
            lemma_not_across(mark + "\n"@ + values[0], rest, p);
        }
    }
}

/// What a text that is no element's marker splits into.
spec fn pieces_of(chunks: Seq<Seq<char>>) -> Seq<Seq<char>> {
    Seq::new(
        chunks.len(),
        |i: int|
            if i + 1 < chunks.len() {
                chunks[i] + "\n"@
            } else {
                chunks[i]
            },
    )
}

/// Elements that are told apart and come back from trimming.
spec fn are_chunks(chunks: Seq<Seq<char>>, mark: Seq<char>) -> bool {
    forall|i: int|
        0 <= i < chunks.len() ==> {
            &&& (#[trigger] chunks[i]).len() > 0
            &&& !space::is_space(chunks[i][0])
            &&& !space::is_space(chunks[i].last())
            &&& !search::has_text(chunks[i], mark)
        }
}

proof fn lemma_chunks_skip(chunks: Seq<Seq<char>>, mark: Seq<char>)
    requires
        chunks.len() > 0,
        are_chunks(chunks, mark),
    ensures
        are_chunks(chunks.skip(1), mark),
{
    assert forall|i: int| 0 <= i < chunks.skip(1).len() implies {
        &&& (#[trigger] chunks.skip(1)[i]).len() > 0
        &&& !space::is_space(chunks.skip(1)[i][0])
        &&& !space::is_space(chunks.skip(1)[i].last())
        &&& !search::has_text(chunks.skip(1)[i], mark)
    } by {
        assert(chunks.skip(1)[i] == chunks[i + 1]);
    }
}

proof fn lemma_split_chunks(chunks: Seq<Seq<char>>, mark: Seq<char>)
    requires
        chunks.len() > 0,
        one_line(mark),
        mark.len() > 0,
        are_chunks(chunks, mark),
    ensures
        laid_out(chunks, mark).len() > mark.len(),
        laid_out(chunks, mark).take(mark.len() as int + 1) == mark + "\n"@,
        search::split_text(laid_out(chunks, mark).skip(mark.len() as int + 1), mark + "\n"@) == pieces_of(
            chunks,
        ),
        laid_out(chunks, mark).last() == chunks.last().last(),
    decreases chunks.len(),
{
    lemma_newline();
    let sep = mark + "\n"@;
    let n = mark.len() as int;
    let whole = laid_out(chunks, mark);
    let c = chunks[0];
    assert(whole.take(n + 1) =~= sep);
    lemma_longer_is_absent(c, mark, "\n"@);
    if chunks.len() == 1 {
        assert(whole.skip(n + 1) =~= c);
        search::lemma_find_iff_has(c, sep);
        assert(search::split_text(c, sep) =~= pieces_of(chunks));
    } else {
        lemma_chunks_skip(chunks, mark);
        lemma_split_chunks(chunks.skip(1), mark);
        let rest = laid_out(chunks.skip(1), mark);
        let t = c + "\n"@ + rest;
        assert(whole.skip(n + 1) =~= t);
        let at = c.len() as int + 1;
        assert(t.subrange(at, at + sep.len()) =~= rest.take(n + 1));
        assert(search::occurs_at(t, sep, at));
        assert forall|j: int| 0 <= j < at implies !search::occurs_at(t, sep, j) by {
            if search::occurs_at(t, sep, j) {
                let w = t.subrange(j, j + sep.len());
                if j + n <= c.len() {
                    assert(c.subrange(j, j + n) =~= w.take(n));
                    assert(sep.take(n) =~= mark);
                    assert(search::occurs_at(c, mark, j));
                } else {
                    assert(t[c.len() as int] == '\n');
                    assert(w[c.len() - j] == '\n');
                    assert(sep[c.len() - j] == mark[c.len() - j]);
                }
            }
        }
        search::lemma_find_is_first(t, sep, at);
        assert(t.take(at) =~= c + "\n"@);
        assert(t.skip(at + sep.len()) =~= rest.skip(n + 1));
        assert(search::split_text(t, sep) == seq![t.take(at)] + pieces_of(chunks.skip(1)));
        assert(search::split_text(t, sep) =~= pieces_of(chunks)) by {
            let got = seq![t.take(at)] + pieces_of(chunks.skip(1));
            assert forall|i: int| 0 <= i < got.len() implies #[trigger] got[i] == pieces_of(
                chunks,
            )[i] by {
                if i > 0 {
                    assert(chunks.skip(1)[i - 1] == chunks[i]);
                }
            }
        }
        assert(chunks.skip(1).last() == chunks.last());
    }
}

/// Trimming the pieces gives the elements.
proof fn lemma_filled_pieces(chunks: Seq<Seq<char>>, mark: Seq<char>, k: int)
    requires
        are_chunks(chunks, mark),
        1 <= k <= chunks.len() + 1,
    ensures
        markdown::filled(seq![Seq::<char>::empty()] + pieces_of(chunks), k) == chunks.skip(k - 1),
    decreases chunks.len() + 1 - k,
{
    let pieces = seq![Seq::<char>::empty()] + pieces_of(chunks);
    if k == chunks.len() + 1 {
        assert(chunks.skip(k - 1) =~= Seq::<Seq<char>>::empty());
    } else {
        lemma_filled_pieces(chunks, mark, k + 1);
        let c = chunks[k - 1];
        lemma_trim_core(c);
        assert(pieces[k] == pieces_of(chunks)[k - 1]);
        assert(seq![c] + chunks.skip(k) =~= chunks.skip(k - 1));
    }
}

/// The elements of an answer are read back.
proof fn lemma_elements(chunks: Seq<Seq<char>>, token: Seq<char>)
    requires
        is_token(token),
        are_chunks(chunks, markdown::element_mark("Action"@, token)),
    ensures
        ({
            let mark = markdown::element_mark("Action"@, token);
            let end = markdown::end_mark("Action"@, token);
            let text = if chunks.len() == 0 {
                end
            } else {
                laid_out(chunks, mark) + "\n"@ + end
            };
            &&& search::has_suffix(space::trimmed(text), end)
            &&& markdown::elements("Action"@, text, token) == Ok::<Seq<Seq<char>>, Seq<char>>(
                chunks,
            )
        }),
{
    lemma_newline();
    reveal_strlit("Action");
    reveal_strlit("-end-");
    let mark = markdown::element_mark("Action"@, token);
    let end = markdown::end_mark("Action"@, token);
    let sep = mark + "\n"@;
    lemma_mark_is_one_line("Action"@, token);
    assert(end[0] == 'A');
    assert(mark[0] == 'A');
    assert(end.last() == token[token.len() - 1]);
    let none = Seq::<char>::empty();
    if chunks.len() == 0 {
        lemma_trim_core(end);
        assert(end.subrange(0, end.len() as int) =~= end);
        assert(end.take(0) =~= none);
        assert(space::trimmed(none) =~= none);
        assert(!search::occurs_at(none, sep, 0));
        assert(search::find_text(none, sep) is None);
        let pieces = search::split_text(none, sep);
        assert(pieces =~= seq![none]);
        assert(markdown::filled(pieces, 1) =~= chunks);
    } else {
        lemma_split_chunks(chunks, mark);
        let body = laid_out(chunks, mark);
        let text = body + "\n"@ + end;
        assert(body[0] == body.take(mark.len() as int + 1)[0]);
        assert(text[0] == body[0]);
        assert(text.last() == end.last());
        lemma_trim_core(text);
        assert(text.subrange(text.len() - end.len(), text.len() as int) =~= end);
        assert(text.take(text.len() - end.len()) =~= body + "\n"@);
        assert(!space::is_space(chunks.last().last())) by {
            assert(chunks[chunks.len() - 1].len() > 0);
        }
        lemma_trim_core(body);
        assert(body.subrange(0, sep.len() as int) =~= body.take(mark.len() as int + 1));
        assert(search::occurs_at(body, sep, 0));
        assert(search::find_text(body, sep) == Some(0int));
        assert(body.take(0) =~= none);
        let pieces = search::split_text(body, sep);
        assert(pieces == seq![none] + pieces_of(chunks));
        assert(space::trimmed(none) =~= none);
        lemma_filled_pieces(chunks, mark, 1);
        assert(chunks.skip(0) =~= chunks);
    }
}

/// The name of a kind: one line, without white space, and without the letter
/// that starts an element's marker.
spec fn is_head(head: Seq<char>) -> bool {
    &&& head.len() > 0
    &&& forall|i: int| 0 <= i < head.len() ==> !space::is_space(#[trigger] head[i]) && head[i]
        != 'A'
}

proof fn lemma_heads()
    ensures
        is_head("idle"@),
        is_head("read_msg"@),
        is_head("send_msg"@),
        is_head("thinking"@),
        is_head("script"@),
        is_head("write_file"@),
        is_head("replace_in_file"@),
        is_head("summary"@),
        is_head("set_profile"@),
        is_head("create_instance"@),
        is_head("distill"@),
        "idle"@.len() == 4,
        "read_msg"@.len() == 8 && "read_msg"@[0] == 'r',
        "send_msg"@.len() == 8 && "send_msg"@[0] == 's',
        "thinking"@.len() == 8 && "thinking"@[0] == 't',
        "script"@.len() == 6,
        "write_file"@.len() == 10,
        "replace_in_file"@.len() == 15 && "replace_in_file"@[0] == 'r',
        "summary"@.len() == 7 && "summary"@[0] == 's',
        "set_profile"@.len() == 11,
        "create_instance"@.len() == 15 && "create_instance"@[0] == 'c',
        "distill"@.len() == 7 && "distill"@[0] == 'd',
{
    reveal_strlit("idle");
    reveal_strlit("read_msg");
    reveal_strlit("send_msg");
    reveal_strlit("thinking");
    reveal_strlit("script");
    reveal_strlit("write_file");
    reveal_strlit("replace_in_file");
    reveal_strlit("summary");
    reveal_strlit("set_profile");
    reveal_strlit("create_instance");
    reveal_strlit("distill");
}

/// The first line of an element is the name of its kind.
proof fn lemma_head_and_body(head: Seq<char>, body: Seq<char>)
    requires
        is_head(head),
    ensures
        markdown::head_and_body(head + "\n"@ + body) == (head, body),
        markdown::head_and_body(head) == (head, Seq::<char>::empty()),
{
    lemma_newline();
    let chunk = head + "\n"@ + body;
    let n = head.len() as int;
    space::lemma_newline_from(chunk, 0);
    assert(chunk[n] == '\n');
    let p = space::newline_from(chunk, 0);
    assert(p is Some);
    assert forall|k: int| 0 <= k < n implies chunk[k] != '\n' by {
        assert(chunk[k] == head[k]);
    }
    assert(p == Some(n));
    assert(chunk.take(n) =~= head);
    assert(chunk.skip(n + 1) =~= body);
    lemma_trim_core(head);
    space::lemma_newline_from(head, 0);
}

/// The marker of an element does not stand in the name of a kind.
proof fn lemma_head_is_no_mark(head: Seq<char>, token: Seq<char>)
    requires
        forall|i: int| 0 <= i < head.len() ==> #[trigger] head[i] != 'A',
    ensures
        !search::has_text(head, markdown::element_mark("Action"@, token)),
{
    reveal_strlit("Action");
    let mark = markdown::element_mark("Action"@, token);
    assert(mark[0] == 'A');
    assert forall|q: int| !search::occurs_at(head, mark, q) by {
        if search::occurs_at(head, mark, q) {
            assert(head.subrange(q, q + mark.len())[0] == head[q]);
        }
    }
}

/// What starts with another letter stands in a text at most behind its start.
proof fn lemma_absent_name(n: Seq<char>, m: Seq<char>)
    requires
        m.len() > 0,
        forall|i: int| 0 <= i <= n.len() - m.len() ==> (#[trigger] n[i]) != m[0] || n.subrange(
            i,
            i + m.len(),
        ) != m,
    ensures
        !search::has_text(n + "-"@, m + "-"@),
{
    reveal_strlit("-");
    assert forall|q: int| !search::occurs_at(n + "-"@, m + "-"@, q) by {
        if search::occurs_at(n + "-"@, m + "-"@, q) {
            let w = (n + "-"@).subrange(q, q + m.len() + 1);
            assert(w.take(m.len() as int) =~= n.subrange(q, q + m.len()));
            assert((m + "-"@).take(m.len() as int) =~= m);
            assert(w[0] == n[q]);
        }
    }
}

proof fn lemma_names_apart(n: Seq<char>, m: Seq<char>)
    requires
        m.len() > 0,
        forall|i: int| 0 <= i <= n.len() - m.len() ==> #[trigger] n[i] != m[0],
    ensures
        !search::has_text(n + "-"@, m + "-"@),
{
    assert forall|i: int| 0 <= i <= n.len() - m.len() implies (#[trigger] n[i]) != m[0]
        || n.subrange(i, i + m.len()) != m by {}
    lemma_absent_name(n, m);
}

proof fn lemma_field_names(a: ActionModel)
    requires
        field_names(a).len() > 0,
    ensures
        are_names(field_names(a)),
        field_names(a).len() == field_values(a).len(),
        forall|i: int|
            0 <= i < field_names(a).len() ==> !search::has_text(
                #[trigger] field_names(a)[i] + "-"@,
                "Action"@ + "-"@,
            ),
{
    reveal_strlit("Action");
    reveal_strlit("recipient");
    reveal_strlit("content");
    reveal_strlit("path");
    reveal_strlit("search");
    reveal_strlit("replace");
    reveal_strlit("name");
    reveal_strlit("knowledge");
    reveal_strlit("target_action_id");
    reveal_strlit("summary");
    match a {
        ActionModel::SendMsg { .. } => {
            assert("recipient"@.subrange(2, 9)[1] == 'i');
            lemma_absent_name("recipient"@, "content"@);
            lemma_names_apart("content"@, "recipient"@);
            lemma_names_apart("recipient"@, "Action"@);
            lemma_names_apart("content"@, "Action"@);
        },
        ActionModel::WriteFile { .. } => {
            lemma_names_apart("path"@, "content"@);
            lemma_names_apart("content"@, "path"@);
            lemma_names_apart("path"@, "Action"@);
            lemma_names_apart("content"@, "Action"@);
        },
        ActionModel::ReplaceInFile { .. } => {
            lemma_names_apart("path"@, "search"@);
            lemma_names_apart("path"@, "replace"@);
            lemma_names_apart("search"@, "path"@);
            lemma_names_apart("search"@, "replace"@);
            assert("replace"@.subrange(2, 6)[1] == 'l');
            lemma_absent_name("replace"@, "path"@);
            lemma_names_apart("replace"@, "search"@);
            lemma_names_apart("path"@, "Action"@);
            lemma_names_apart("search"@, "Action"@);
            lemma_names_apart("replace"@, "Action"@);
        },
        ActionModel::CreateInstance { .. } => {
            lemma_names_apart("name"@, "knowledge"@);
            assert("knowledge"@.subrange(1, 5)[1] == 'o');
            lemma_absent_name("knowledge"@, "name"@);
            lemma_names_apart("name"@, "Action"@);
            lemma_names_apart("knowledge"@, "Action"@);
        },
        ActionModel::Distill { .. } => {
            lemma_names_apart("target_action_id"@, "summary"@);
            lemma_names_apart("summary"@, "target_action_id"@);
            lemma_names_apart("target_action_id"@, "Action"@);
            lemma_names_apart("summary"@, "Action"@);
        },
        _ => {},
    }
}

/// The fields of an action are read back, and no element's marker stands in
/// them.
proof fn lemma_fields(owner: Seq<char>, a: ActionModel, token: Seq<char>)
    requires
        field_names(a).len() > 0,
        is_writable(a, token),
        is_token(token),
    ensures
        ({
            let body = fields_text(field_names(a), field_values(a), token);
            &&& markdown::fields(owner, body, field_names(a), token) == Ok::<
                Seq<Seq<char>>,
                Seq<char>,
            >(field_values(a))
            &&& !search::has_text(body, markdown::element_mark("Action"@, token))
            &&& body.len() > 0
            &&& !space::is_space(body.last())
        }),
{
    let names = field_names(a);
    let values = field_values(a);
    let body = fields_text(names, values, token);
    let mark = markdown::element_mark("Action"@, token);
    lemma_field_names(a);
    lemma_fields_from(owner, names, values, token, 0, 0);
    assert(values.skip(0) =~= values);
    reveal_strlit("Action");
    lemma_mark_is_one_line("Action"@, token);
    assert forall|i: int| 0 <= i < names.len() implies !search::has_text(
        markdown::element_mark(#[trigger] names[i], token),
        mark,
    ) by {
        assert(!search::has_text(names[i] + "-"@, "Action"@ + "-"@));
        lemma_mark_in_mark(names[i], "Action"@, token);
    }
    assert forall|i: int| 0 <= i < values.len() implies !search::has_text(
        #[trigger] values[i],
        mark,
    ) by {
        if i < values.len() - 1 {
            assert(fits_inside(values[i], token));
        } else {
            assert(values[i] == values.last());
        }
        lemma_mark_holds_token(values[i], "Action"@, token);
    }
    lemma_absent_from_fields(names, values, token, mark);
    let last = values.len() - 1;
    lemma_field_start(names, values, token, last);
    lemma_newline();
    let at = field_start(names, values, token, last);
    let rest = fields_text(names.skip(last), values.skip(last), token);
    assert(rest == markdown::element_mark(names[last], token) + "\n"@ + values[last]);
    lemma_filled_has_length(values.last());
    assert(rest.last() == values.last().last());
    assert(body.skip(at).last() == body.last());
}

/// A digit is neither white space nor a letter.
proof fn lemma_digits_are_plain(n: nat)
    ensures
        number::dec(n).len() > 0,
        forall|i: int|
            0 <= i < number::dec(n).len() ==> !space::is_space(#[trigger] number::dec(n)[i])
                && number::dec(n)[i] != 'A' && number::dec(n)[i] != '/',
{
    number::lemma_dec_digits(n);
    assert forall|i: int| 0 <= i < number::dec(n).len() implies !space::is_space(
        #[trigger] number::dec(n)[i],
    ) && number::dec(n)[i] != 'A' && number::dec(n)[i] != '/' by {
        assert(number::is_digit(number::dec(n)[i]));
    }
}

/// An element that spells an action, and that is told apart from its neighbours.
pub(crate) open spec fn spells(chunk: Seq<char>, a: ActionModel, token: Seq<char>) -> bool {
    markdown::action_of(chunk, token) == Ok::<ActionModel, Seq<char>>(a) && stands_alone(
        chunk,
        token,
    )
}

pub(crate) open spec fn stands_alone(chunk: Seq<char>, token: Seq<char>) -> bool {
    &&& chunk.len() > 0
    &&& !space::is_space(chunk[0])
    &&& !space::is_space(chunk.last())
    &&& !search::has_text(chunk, markdown::element_mark("Action"@, token))
}

/// A name with a body behind it stands alone where the body does not hold a marker.
proof fn lemma_with_body(head: Seq<char>, body: Seq<char>, token: Seq<char>)
    requires
        is_token(token),
        is_head(head),
        body.len() > 0,
        !space::is_space(body.last()),
        !search::has_text(body, markdown::element_mark("Action"@, token)),
    ensures
        stands_alone(head + "\n"@ + body, token),
        markdown::head_and_body(head + "\n"@ + body) == (head, body),
{
    lemma_newline();
    let chunk = head + "\n"@ + body;
    assert(chunk[0] == head[0]);
    assert(chunk.last() == body.last());
    lemma_head_is_no_mark(head, token);
    reveal_strlit("Action");
    lemma_mark_is_one_line("Action"@, token);
    lemma_not_across(head, body, markdown::element_mark("Action"@, token));
    lemma_head_and_body(head, body);
}

/// Actions with several texts are spelled by their fields.
proof fn lemma_spelled_by_fields(a: ActionModel, token: Seq<char>)
    requires
        is_token(token),
        is_writable(a, token),
        field_names(a).len() > 0,
    ensures
        spells(spelled(a, token), a, token),
{
    lemma_heads();
    let head = action::kind_name_text(a);
    let body = fields_text(field_names(a), field_values(a), token);
    match a {
        ActionModel::SendMsg { .. } => {
            lemma_fields("Action::send_msg"@, a, token);
            lemma_with_body("send_msg"@, body, token);
        },
        ActionModel::WriteFile { .. } => {
            lemma_fields("Action::write_file"@, a, token);
            lemma_with_body("write_file"@, body, token);
        },
        ActionModel::ReplaceInFile { .. } => {
            lemma_fields("Action::replace_in_file"@, a, token);
            lemma_with_body("replace_in_file"@, body, token);
        },
        ActionModel::CreateInstance { .. } => {
            lemma_fields("Action::create_instance"@, a, token);
            lemma_with_body("create_instance"@, body, token);
        },
        ActionModel::Distill { .. } => {
            lemma_fields("Action::distill"@, a, token);
            lemma_with_body("distill"@, body, token);
        },
        _ => {},
    }
}

/// Actions with one text are spelled by that text.
proof fn lemma_spelled_by_text(a: ActionModel, token: Seq<char>)
    requires
        is_token(token),
        is_writable(a, token),
        field_names(a).len() == 0,
        field_values(a).len() > 0,
    ensures
        spells(spelled(a, token), a, token),
{
    lemma_heads();
    let body = field_values(a)[0];
    assert(field_values(a).last() == body);
    lemma_filled_has_length(body);
    lemma_trim_end_core(body);
    lemma_mark_holds_token(body, "Action"@, token);
    lemma_with_body(action::kind_name_text(a), body, token);
}

/// Actions without a text are spelled by their name, and by a number if they have
/// one.
proof fn lemma_spelled_by_name(a: ActionModel, token: Seq<char>)
    requires
        is_token(token),
        field_values(a).len() == 0,
    ensures
        spells(spelled(a, token), a, token),
{
    lemma_heads();
    let head = action::kind_name_text(a);
    match a {
        ActionModel::Idle { timeout_secs: Some(n) } => {
            let body = number::dec(n as nat);
            lemma_digits_are_plain(n as nat);
            lemma_trim_core(body);
            number::law_parse_of_decimal(n);
            reveal_strlit("//");
            if search::has_prefix(body, "//"@) {
                assert(body.subrange(0, 2)[0] == body[0]);
            }
            lemma_head_is_no_mark(body, token);
            lemma_with_body(head, body, token);
        },
        _ => {
            let none = Seq::<char>::empty();
            assert(space::trimmed(none) =~= none);
            lemma_head_and_body(head, none);
            lemma_head_is_no_mark(head, token);
        },
    }
}

/// An element spells its action.
pub(crate) proof fn lemma_spelled(a: ActionModel, token: Seq<char>)
    requires
        is_token(token),
        is_writable(a, token),
    ensures
        spells(spelled(a, token), a, token),
{
    if field_names(a).len() > 0 {
        lemma_spelled_by_fields(a, token);
    } else if field_values(a).len() > 0 {
        lemma_spelled_by_text(a, token);
    } else {
        lemma_spelled_by_name(a, token);
    }
}

proof fn lemma_actions_from(actions: Seq<ActionModel>, token: Seq<char>, k: int)
    requires
        is_token(token),
        forall|i: int| 0 <= i < actions.len() ==> is_writable(#[trigger] actions[i], token),
        0 <= k <= actions.len(),
    ensures
        markdown::actions_from(
            actions.map_values(|a: ActionModel| spelled(a, token)),
            token,
            k,
        ) == Ok::<Seq<ActionModel>, Seq<char>>(actions.skip(k)),
    decreases actions.len() - k,
{
    if k == actions.len() {
        assert(actions.skip(k) =~= Seq::<ActionModel>::empty());
    } else {
        lemma_actions_from(actions, token, k + 1);
        lemma_spelled(actions[k], token);
        assert(seq![actions[k]] + actions.skip(k + 1) =~= actions.skip(k));
    }
}

/// What is written is read back: an answer that spells a list of actions, under
/// a token that stands in none of their texts, is read as just these actions.
pub proof fn law_answers_are_read_back(actions: Seq<ActionModel>, token: Seq<char>)
    requires
        is_token(token),
        forall|i: int| 0 <= i < actions.len() ==> is_writable(#[trigger] actions[i], token),
    ensures
        markdown::answer_of(answer_text(actions, token), token) == Ok::<
            Seq<ActionModel>,
            Seq<char>,
        >(actions),
        parser::actions_of(answer_text(actions, token), token) == actions.map_values(
            |a: ActionModel| parser::processed(a),
        ),
{
    let chunks = actions.map_values(|a: ActionModel| spelled(a, token));
    let mark = markdown::element_mark("Action"@, token);
    let text = answer_text(actions, token);
    assert forall|i: int| 0 <= i < chunks.len() implies {
        &&& (#[trigger] chunks[i]).len() > 0
        &&& !space::is_space(chunks[i][0])
        &&& !space::is_space(chunks[i].last())
        &&& !search::has_text(chunks[i], mark)
    } by {
        lemma_spelled(actions[i], token);
    }
    lemma_elements(chunks, token);
    lemma_actions_from(actions, token, 0);
    assert(actions.skip(0) =~= actions);
    if actions.len() > 0 {
        reveal_strlit("Action");
        lemma_mark_is_one_line("Action"@, token);
        lemma_split_chunks(chunks, mark);
        lemma_newline();
        let body = laid_out(chunks, mark);
        let line = body.take(mark.len() as int + 1);
        assert(text.subrange(0, mark.len() as int) =~= line.take(mark.len() as int));
        assert(line.take(mark.len() as int) =~= mark);
        assert(search::occurs_at(text, mark, 0));
    } else {
        assert(actions.map_values(|a: ActionModel| parser::processed(a)) =~= Seq::<
            ActionModel,
        >::empty());
        if search::has_text(text, mark) {
            assert(parser::actions_of(text, token) =~= actions.map_values(
                |a: ActionModel| parser::processed(a),
            ));
        }
    }
}

} // verus!

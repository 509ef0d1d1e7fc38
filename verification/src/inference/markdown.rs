//! The marked-up text that the model answers in.
//!
//! An answer is a list of elements of one kind. Each starts with a line
//! `Kind-token`; the whole ends with `Kind-end-token`. Inside an element, a line
//! `field-token` starts the value of a field. The token is fresh for every
//! answer, so that nothing quoted in a value can be taken for a marker.
use vstd::prelude::*;

use crate::inference::action;
use crate::inference::action::{Action, ActionModel};
use crate::text::chars::{same_text, slice_text, to_chars};
use crate::text::number;
use crate::text::number::parse_u64;
use crate::text::search;
use crate::text::search::{find_chars, split, starts_with};
use crate::text::space;
use crate::text::space::{blank, find_newline, trim, trim_end};

verus! {

/// What starts an element.
pub open spec fn element_mark(kind: Seq<char>, token: Seq<char>) -> Seq<char> {
    kind + "-"@ + token
}

/// What ends an answer.
pub open spec fn end_mark(kind: Seq<char>, token: Seq<char>) -> Seq<char> {
    kind + "-end-"@ + token
}

pub fn element_marker(kind: &str, token: &str) -> (r: String)
    ensures
        r@ == element_mark(kind@, token@),
{
    let mut s = kind.to_string();
    s.push_str("-");
    s.push_str(token);
    s
}

pub fn end_marker(kind: &str, token: &str) -> (r: String)
    ensures
        r@ == end_mark(kind@, token@),
{
    let mut s = kind.to_string();
    s.push_str("-end-");
    s.push_str(token);
    s
}

/// The end of a text, at most 200 characters of it.
pub open spec fn tail_text(s: Seq<char>) -> Seq<char> {
    if s.len() > 200 {
        "..."@ + s.skip(s.len() - 200)
    } else {
        s
    }
}

fn tail(s: &str) -> (r: String)
    ensures
        r@ == tail_text(s@),
{
    let v = to_chars(s);
    if v.len() > 200 {
        let mut out = "...".to_string();
        let end = slice_text(&v, v.len() - 200, v.len());
        assert(end@ =~= s@.skip(s@.len() - 200));
        out.push_str(end.as_str());
        out
    } else {
        s.to_string()
    }
}

pub open spec fn missing_end_text(kind: Seq<char>, token: Seq<char>, t: Seq<char>) -> Seq<char> {
    "["@ + kind + "] Missing end marker '"@ + end_mark(kind, token)
        + "'. Content tail (up to 200 chars): "@ + tail_text(t)
}

pub open spec fn preamble_text(kind: Seq<char>, token: Seq<char>, first: Seq<char>) -> Seq<char> {
    "["@ + kind + "] Unexpected content before first separator '"@ + element_mark(kind, token)
        + "': "@ + first
}

/// What is said of an answer whose end is missing.
pub(crate) fn missing_end(kind: &str, token: &str, t: &str) -> (r: String)
    ensures
        r@ == missing_end_text(kind@, token@, t@),
{
    let end = end_marker(kind, token);
    let mut e = "[".to_string();
    e.push_str(kind);
    e.push_str("] Missing end marker '");
    e.push_str(end.as_str());
    e.push_str("'. Content tail (up to 200 chars): ");
    let rest = tail(t);
    e.push_str(rest.as_str());
    e
}

/// The pieces from position `k` on that are not blank, trimmed.
pub open spec fn filled(pieces: Seq<Seq<char>>, k: int) -> Seq<Seq<char>>
    decreases pieces.len() - k,
{
    if k < 0 || k >= pieces.len() {
        Seq::empty()
    } else if space::is_blank(pieces[k]) {
        filled(pieces, k + 1)
    } else {
        seq![space::trimmed(pieces[k])] + filled(pieces, k + 1)
    }
}

/// The elements of an answer, trimmed, or what is wrong with its frame.
pub open spec fn elements(
    kind: Seq<char>,
    text: Seq<char>,
    token: Seq<char>,
) -> Result<Seq<Seq<char>>, Seq<char>> {
    let t = space::trimmed(text);
    let end = end_mark(kind, token);
    if !search::has_suffix(t, end) {
        Err(missing_end_text(kind, token, t))
    } else {
        let body = space::trimmed(t.take(t.len() - end.len()));
        let pieces = search::split_text(body, element_mark(kind, token) + "\n"@);
        let first = space::trimmed(pieces[0]);
        if first.len() > 0 {
            Err(preamble_text(kind, token, first))
        } else {
            Ok(filled(pieces, 1))
        }
    }
}

/// Takes an answer apart into its elements.
pub fn split_elements(kind: &str, text: &str, token: &str) -> (r: Result<Vec<String>, String>)
    ensures
        match r {
            Ok(v) => elements(kind@, text@, token@) == Ok::<Seq<Seq<char>>, Seq<char>>(
                search::views(v@),
            ),
            Err(e) => elements(kind@, text@, token@) == Err::<Seq<Seq<char>>, Seq<char>>(e@),
        },
{
    let t = trim(text);
    let end = end_marker(kind, token);
    let tv = to_chars(t.as_str());
    let ev = to_chars(end.as_str());
    if ev.len() > tv.len() || !search::matches_at(&tv, &ev, tv.len() - ev.len()) {
        return Err(missing_end(kind, token, t.as_str()));
    }
    let inner = slice_text(&tv, 0, tv.len() - ev.len());
    assert(inner@ =~= t@.take(t@.len() - end@.len()));
    let body = trim(inner.as_str());
    let mark = element_marker(kind, token);
    let mut sep = mark.clone();
    sep.push_str("\n");
    proof {
        reveal_strlit("\n");
        search::lemma_join_split(body@, sep@);
    }
    let pieces = split(body.as_str(), sep.as_str());
    assert(search::views(pieces@).len() == pieces@.len());
    let first = trim(pieces[0].as_str());
    assert(pieces@[0]@ == search::views(pieces@)[0]);
    if !first.as_str().is_empty() {
        let mut e = "[".to_string();
        e.push_str(kind);
        e.push_str("] Unexpected content before first separator '");
        e.push_str(mark.as_str());
        e.push_str("': ");
        e.push_str(first.as_str());
        return Err(e);
    }
    let ghost all = search::views(pieces@);
    let mut out: Vec<String> = Vec::new();
    let mut k: usize = 1;
    assert(search::views(out@) + filled(all, 1) =~= filled(all, 1));
    while k < pieces.len()
        invariant
            1 <= k <= pieces@.len(),
            all == search::views(pieces@),
            search::views(out@) + filled(all, k as int) == filled(all, 1),
        decreases pieces@.len() - k,
    {
        assert(all[k as int] == pieces@[k as int]@);
        if !blank(pieces[k].as_str()) {
            let c = trim(pieces[k].as_str());
            proof {
                search::lemma_views_push(out@, c);
                let before = search::views(out@);
                assert(before + (seq![c@] + filled(all, k + 1)) =~= before.push(c@) + filled(
                    all,
                    k + 1,
                ));
            }
            out.push(c);
        }
        k = k + 1;
    }
    assert(search::views(out@) + Seq::<Seq<char>>::empty() =~= search::views(out@));
    Ok(out)
}

/// Where the marker of a field stands in an element's body, and where the
/// field's value starts.
pub open spec fn field_at(body: Seq<char>, mark: Seq<char>) -> Option<(int, int)> {
    match search::find_text(body, mark + "\n"@) {
        Some(p) => Some((p, p + mark.len() + 1)),
        None => {
            let t = space::trimmed_end(body);
            if search::has_suffix(t, mark) {
                Some((t.len() - mark.len(), body.len() as int))
            } else {
                None
            }
        },
    }
}

/// `s` without the newlines at its end.
pub open spec fn without_newlines(s: Seq<char>) -> Seq<char>
    decreases s.len(),
{
    if s.len() > 0 && s.last() == '\n' {
        without_newlines(s.drop_last())
    } else {
        s
    }
}

pub open spec fn missing_field_text(owner: Seq<char>, name: Seq<char>) -> Seq<char> {
    "["@ + owner + "] Required field '"@ + name + "' is missing"@
}

pub open spec fn misplaced_field_text(owner: Seq<char>, name: Seq<char>) -> Seq<char> {
    "["@ + owner + "] Field order violation: '"@ + name + "' comes too early"@
}

pub open spec fn empty_field_text(owner: Seq<char>, name: Seq<char>) -> Seq<char> {
    "["@ + owner + "] Required field '"@ + name + "' is empty"@
}

/// The value between a field's marker and the next one.
pub open spec fn field_value(
    body: Seq<char>,
    names: Seq<Seq<char>>,
    token: Seq<char>,
    i: int,
) -> Seq<char> {
    let start = (field_at(body, element_mark(names[i], token))->0).1;
    if i + 1 < names.len() {
        let end = (field_at(body, element_mark(names[i + 1], token))->0).0;
        without_newlines(body.subrange(start, end))
    } else {
        space::trimmed_end(body.skip(start))
    }
}

/// The values of the fields from `i` on, each behind the one before (which ends
/// not before `least`), or what is wrong with them.
pub open spec fn fields_from(
    owner: Seq<char>,
    body: Seq<char>,
    names: Seq<Seq<char>>,
    token: Seq<char>,
    i: int,
    least: int,
) -> Result<Seq<Seq<char>>, Seq<char>>
    decreases names.len() - i,
{
    if i < 0 || i >= names.len() {
        Ok(Seq::empty())
    } else {
        match field_at(body, element_mark(names[i], token)) {
            None => Err(missing_field_text(owner, names[i])),
            Some((at, start)) => if at < least {
                Err(misplaced_field_text(owner, names[i]))
            } else {
                match fields_from(owner, body, names, token, i + 1, start) {
                    Err(e) => Err(e),
                    Ok(rest) => {
                        let value = field_value(body, names, token, i);
                        if space::is_blank(value) {
                            Err(empty_field_text(owner, names[i]))
                        } else {
                            Ok(seq![value] + rest)
                        }
                    },
                }
            },
        }
    }
}

/// The values of all the fields of an element, which must all be there, in
/// order and not blank.
pub open spec fn fields(
    owner: Seq<char>,
    body: Seq<char>,
    names: Seq<Seq<char>>,
    token: Seq<char>,
) -> Result<Seq<Seq<char>>, Seq<char>> {
    fields_from(owner, body, names, token, 0, 0)
}

fn find_field(body: &Vec<char>, name: &str, token: &str) -> (r: Option<(usize, usize)>)
    ensures
        match r {
            Some((a, b)) => field_at(body@, element_mark(name@, token@)) == Some(
                (a as int, b as int),
            ) && a <= b <= body@.len(),
            None => field_at(body@, element_mark(name@, token@)) is None,
        },
{
    let mark = element_marker(name, token);
    let mut line = mark.clone();
    line.push_str("\n");
    let lv = to_chars(line.as_str());
    let mv = to_chars(mark.as_str());
    proof {
        reveal_strlit("\n");
        assert(lv@.len() == mv@.len() + 1);
    }
    match find_chars(body, &lv, 0) {
        Some(p) => {
            let n: usize = body.len();
            assert(p + lv@.len() <= n);
            Some((p, p + lv.len()))
        },
        None => {
            let mut j: usize = body.len();
            while j > 0 && space::space(body[j - 1])
                invariant
                    j <= body@.len(),
                    space::back_space(body@, body@.len() as int) == space::back_space(
                        body@,
                        j as int,
                    ),
                decreases j,
            {
                j = j - 1;
            }
            let ghost t = space::trimmed_end(body@);
            assert(t =~= body@.take(j as int));
            if mv.len() <= j {
                let m = search::matches_at(body, &mv, j - mv.len());
                assert(body@.subrange(j - mv@.len(), j as int) =~= t.subrange(
                    t.len() - mv@.len(),
                    t.len() as int,
                ));
                if m {
                    return Some((j - mv.len(), body.len()));
                }
            }
            None
        },
    }
}

fn drop_newlines(v: &Vec<char>, from: usize, to: usize) -> (r: String)
    requires
        from <= to <= v@.len(),
    ensures
        r@ == without_newlines(v@.subrange(from as int, to as int)),
{
    let mut j: usize = to;
    while j > from && v[j - 1] == '\n'
        invariant
            from <= j <= to <= v@.len(),
            without_newlines(v@.subrange(from as int, to as int)) == without_newlines(
                v@.subrange(from as int, j as int),
            ),
        decreases j,
    {
        assert(v@.subrange(from as int, j as int).drop_last() =~= v@.subrange(
            from as int,
            j - 1,
        ));
        j = j - 1;
    }
    slice_text(v, from, j)
}

fn parse_fields_from(
    owner: &str,
    body: &Vec<char>,
    names: &Vec<String>,
    token: &str,
    i: usize,
    least: usize,
) -> (r: Result<Vec<String>, String>)
    requires
        i <= names@.len(),
    ensures
        ({
            let want = fields_from(
                owner@,
                body@,
                search::views(names@),
                token@,
                i as int,
                least as int,
            );
            match r {
                Ok(v) => want == Ok::<Seq<Seq<char>>, Seq<char>>(search::views(v@)) && v@.len()
                    == names@.len() - i,
                Err(e) => want == Err::<Seq<Seq<char>>, Seq<char>>(e@),
            }
        }),
    decreases names@.len() - i,
{
    let ghost all = search::views(names@);
    if i == names.len() {
        let v: Vec<String> = Vec::new();
        assert(search::views(v@) =~= Seq::<Seq<char>>::empty());
        return Ok(v);
    }
    assert(all[i as int] == names@[i as int]@);
    let (at, start) = match find_field(body, names[i].as_str(), token) {
        None => {
            let mut e = "[".to_string();
            e.push_str(owner);
            e.push_str("] Required field '");
            e.push_str(names[i].as_str());
            e.push_str("' is missing");
            return Err(e);
        },
        Some(p) => p,
    };
    if at < least {
        let mut e = "[".to_string();
        e.push_str(owner);
        e.push_str("] Field order violation: '");
        e.push_str(names[i].as_str());
        e.push_str("' comes too early");
        return Err(e);
    }
    let mut rest = match parse_fields_from(owner, body, names, token, i + 1, start) {
        Err(e) => {
            return Err(e);
        },
        Ok(v) => v,
    };
    let value = if i + 1 < names.len() {
        assert(all[i + 1] == names@[i + 1]@);
        match find_field(body, names[i + 1].as_str(), token) {
            Some((end, _)) => drop_newlines(body, start, end),
            None => String::new(),
        }
    } else {
        let text = slice_text(body, start, body.len());
        assert(text@ =~= body@.skip(start as int));
        trim_end(text.as_str())
    };
    assert(value@ == field_value(body@, all, token@, i as int));
    if blank(value.as_str()) {
        let mut e = "[".to_string();
        e.push_str(owner);
        e.push_str("] Required field '");
        e.push_str(names[i].as_str());
        e.push_str("' is empty");
        return Err(e);
    }
    let ghost tail = rest@;
    let ghost first = value;
    rest.insert(0, value);
    assert(search::views(rest@) =~= seq![first@] + search::views(tail));
    Ok(rest)
}

/// Reads the fields of an element.
pub fn parse_fields(owner: &str, body: &str, names: &Vec<String>, token: &str) -> (r: Result<
    Vec<String>,
    String,
>)
    ensures
        match r {
            Ok(v) => fields(owner@, body@, search::views(names@), token@) == Ok::<
                Seq<Seq<char>>,
                Seq<char>,
            >(search::views(v@)) && v@.len() == names@.len(),
            Err(e) => fields(owner@, body@, search::views(names@), token@) == Err::<
                Seq<Seq<char>>,
                Seq<char>,
            >(e@),
        },
{
    let v = to_chars(body);
    parse_fields_from(owner, &v, names, token, 0, 0)
}


/// The first line of an element, trimmed, and what stands behind it.
pub open spec fn head_and_body(chunk: Seq<char>) -> (Seq<char>, Seq<char>) {
    match space::newline_from(chunk, 0) {
        Some(p) => (space::trimmed(chunk.take(p)), chunk.skip(p + 1)),
        None => (space::trimmed(chunk), Seq::empty()),
    }
}

/// The value of an element with a single text.
pub open spec fn single_text(owner: Seq<char>, body: Seq<char>) -> Result<Seq<char>, Seq<char>> {
    let value = space::trimmed_end(body);
    if space::is_blank(value) {
        Err(empty_field_text(owner, "content"@))
    } else {
        Ok(value)
    }
}

/// The seconds that an `idle` names, if any; a comment names none.
pub open spec fn idle_seconds(body: Seq<char>) -> Result<Option<u64>, Seq<char>> {
    let raw = space::trimmed(body);
    if raw.len() == 0 || search::has_prefix(raw, "//"@) {
        Ok(None)
    } else {
        match number::u64_of(raw) {
            Some(n) => Ok(Some(n)),
            None => Err(
                "[Action] Failed to parse field 'timeout_secs' of variant 'idle': "@ + raw,
            ),
        }
    }
}

pub open spec fn unknown_variant_text(found: Seq<char>) -> Seq<char> {
    "[Action] Unknown variant.\n  Found: '"@ + found
        + "'\n  Expected one of: idle, read_msg, send_msg, thinking, script, write_file, replace_in_file, summary, set_profile, create_instance, distill"@
}

/// The action that an element spells, or what is wrong with it.
pub open spec fn action_of(chunk: Seq<char>, token: Seq<char>) -> Result<ActionModel, Seq<char>> {
    let (head, body) = head_and_body(chunk);
    if head == "idle"@ {
        match idle_seconds(body) {
            Ok(timeout_secs) => Ok(ActionModel::Idle { timeout_secs }),
            Err(e) => Err(e),
        }
    } else if head == "read_msg"@ {
        Ok(ActionModel::ReadMsg)
    } else if head == "send_msg"@ {
        match fields("Action::send_msg"@, body, seq!["recipient"@, "content"@], token) {
            Ok(v) => Ok(ActionModel::SendMsg { recipient: v[0], content: v[1] }),
            Err(e) => Err(e),
        }
    } else if head == "thinking"@ {
        match single_text("Action::thinking"@, body) {
            Ok(content) => Ok(ActionModel::Thinking { content }),
            Err(e) => Err(e),
        }
    } else if head == "script"@ {
        match single_text("Action::script"@, body) {
            Ok(content) => Ok(ActionModel::Script { content }),
            Err(e) => Err(e),
        }
    } else if head == "write_file"@ {
        match fields("Action::write_file"@, body, seq!["path"@, "content"@], token) {
            Ok(v) => Ok(ActionModel::WriteFile { path: v[0], content: v[1] }),
            Err(e) => Err(e),
        }
    } else if head == "replace_in_file"@ {
        match fields(
            "Action::replace_in_file"@,
            body,
            seq!["path"@, "search"@, "replace"@],
            token,
        ) {
            Ok(v) => Ok(ActionModel::ReplaceInFile { path: v[0], search: v[1], replace: v[2] }),
            Err(e) => Err(e),
        }
    } else if head == "summary"@ {
        match single_text("Action::summary"@, body) {
            Ok(content) => Ok(ActionModel::Summary { content }),
            Err(e) => Err(e),
        }
    } else if head == "set_profile"@ {
        match single_text("Action::set_profile"@, body) {
            Ok(content) => Ok(ActionModel::SetProfile { content }),
            Err(e) => Err(e),
        }
    } else if head == "create_instance"@ {
        match fields("Action::create_instance"@, body, seq!["name"@, "knowledge"@], token) {
            Ok(v) => Ok(ActionModel::CreateInstance { name: v[0], knowledge: v[1] }),
            Err(e) => Err(e),
        }
    } else if head == "distill"@ {
        match fields("Action::distill"@, body, seq!["target_action_id"@, "summary"@], token) {
            Ok(v) => Ok(ActionModel::Distill { target_action_id: v[0], summary: v[1] }),
            Err(e) => Err(e),
        }
    } else {
        Err(unknown_variant_text(head))
    }
}

/// The actions that the elements from `k` on spell, or the first thing that is
/// wrong with one.
pub open spec fn actions_from(
    chunks: Seq<Seq<char>>,
    token: Seq<char>,
    k: int,
) -> Result<Seq<ActionModel>, Seq<char>>
    decreases chunks.len() - k,
{
    if k < 0 || k >= chunks.len() {
        Ok(Seq::empty())
    } else {
        match action_of(chunks[k], token) {
            Err(e) => Err(e),
            Ok(a) => match actions_from(chunks, token, k + 1) {
                Err(e) => Err(e),
                Ok(rest) => Ok(seq![a] + rest),
            },
        }
    }
}

/// The actions that an answer spells, or what is wrong with it.
pub open spec fn answer_of(text: Seq<char>, token: Seq<char>) -> Result<
    Seq<ActionModel>,
    Seq<char>,
> {
    match elements("Action"@, text, token) {
        Err(e) => Err(e),
        Ok(chunks) => actions_from(chunks, token, 0),
    }
}

fn read_single(owner: &str, body: &str) -> (r: Result<String, String>)
    ensures
        match r {
            Ok(v) => single_text(owner@, body@) == Ok::<Seq<char>, Seq<char>>(v@),
            Err(e) => single_text(owner@, body@) == Err::<Seq<char>, Seq<char>>(e@),
        },
{
    let value = trim_end(body);
    if blank(value.as_str()) {
        let mut e = "[".to_string();
        e.push_str(owner);
        e.push_str("] Required field '");
        e.push_str("content");
        e.push_str("' is empty");
        Err(e)
    } else {
        Ok(value)
    }
}

fn read_pair(owner: &str, body: &str, a: &str, b: &str, token: &str) -> (r: Result<
    (String, String),
    String,
>)
    ensures
        match r {
            Ok((x, y)) => match fields(owner@, body@, seq![a@, b@], token@) {
                Ok(v) => v.len() == 2 && v[0] == x@ && v[1] == y@,
                Err(_) => false,
            },
            Err(e) => fields(owner@, body@, seq![a@, b@], token@) == Err::<
                Seq<Seq<char>>,
                Seq<char>,
            >(e@),
        },
{
    let mut names: Vec<String> = Vec::new();
    names.push(a.to_string());
    names.push(b.to_string());
    assert(search::views(names@) =~= seq![a@, b@]);
    match parse_fields(owner, body, &names, token) {
        Err(e) => Err(e),
        Ok(v) => {
            let ghost all = search::views(v@);
            assert(all[0] == v@[0]@ && all[1] == v@[1]@);
            let mut v = v;
            let y = v.remove(1);
            let x = v.remove(0);
            Ok((x, y))
        },
    }
}

fn read_triple(owner: &str, body: &str, a: &str, b: &str, c: &str, token: &str) -> (r: Result<
    (String, String, String),
    String,
>)
    ensures
        match r {
            Ok((x, y, z)) => match fields(owner@, body@, seq![a@, b@, c@], token@) {
                Ok(v) => v.len() == 3 && v[0] == x@ && v[1] == y@ && v[2] == z@,
                Err(_) => false,
            },
            Err(e) => fields(owner@, body@, seq![a@, b@, c@], token@) == Err::<
                Seq<Seq<char>>,
                Seq<char>,
            >(e@),
        },
{
    let mut names: Vec<String> = Vec::new();
    names.push(a.to_string());
    names.push(b.to_string());
    names.push(c.to_string());
    assert(search::views(names@) =~= seq![a@, b@, c@]);
    match parse_fields(owner, body, &names, token) {
        Err(e) => Err(e),
        Ok(v) => {
            let ghost all = search::views(v@);
            assert(all[0] == v@[0]@ && all[1] == v@[1]@ && all[2] == v@[2]@);
            let mut v = v;
            let z = v.remove(2);
            let y = v.remove(1);
            let x = v.remove(0);
            Ok((x, y, z))
        },
    }
}

fn read_idle(body: &str) -> (r: Result<Option<u64>, String>)
    ensures
        match r {
            Ok(v) => idle_seconds(body@) == Ok::<Option<u64>, Seq<char>>(v),
            Err(e) => idle_seconds(body@) == Err::<Option<u64>, Seq<char>>(e@),
        },
{
    let raw = trim(body);
    if raw.as_str().is_empty() || starts_with(raw.as_str(), "//") {
        return Ok(None);
    }
    match parse_u64(raw.as_str()) {
        Some(n) => Ok(Some(n)),
        None => {
            let mut e =
                "[Action] Failed to parse field 'timeout_secs' of variant 'idle': ".to_string();
            e.push_str(raw.as_str());
            Err(e)
        },
    }
}

/// Reads the action that an element spells.
pub(crate) fn read_action(chunk: &str, token: &str) -> (r: Result<Action, String>)
    ensures
        match r {
            Ok(a) => action_of(chunk@, token@) == Ok::<ActionModel, Seq<char>>(a@),
            Err(e) => action_of(chunk@, token@) == Err::<ActionModel, Seq<char>>(e@),
        },
{
    let v = to_chars(chunk);
    let n: usize = v.len();
    let (head, body) = match find_newline(&v, 0) {
        Some(p) => {
            let line = slice_text(&v, 0, p);
            assert(line@ =~= chunk@.take(p as int));
            let rest = slice_text(&v, p + 1, n);
            assert(rest@ =~= chunk@.skip(p + 1));
            (trim(line.as_str()), rest)
        },
        None => (trim(chunk), String::new()),
    };
    let head = head.as_str();
    let body = body.as_str();
    assert((head@, body@) == head_and_body(chunk@));
    if same_text(head, "idle") {
        match read_idle(body) {
            Ok(timeout_secs) => Ok(Action::Idle { timeout_secs }),
            Err(e) => Err(e),
        }
    } else if same_text(head, "read_msg") {
        Ok(Action::ReadMsg)
    } else if same_text(head, "send_msg") {
        match read_pair("Action::send_msg", body, "recipient", "content", token) {
            Ok((recipient, content)) => Ok(Action::SendMsg { recipient, content }),
            Err(e) => Err(e),
        }
    } else if same_text(head, "thinking") {
        match read_single("Action::thinking", body) {
            Ok(content) => Ok(Action::Thinking { content }),
            Err(e) => Err(e),
        }
    } else if same_text(head, "script") {
        match read_single("Action::script", body) {
            Ok(content) => Ok(Action::Script { content }),
            Err(e) => Err(e),
        }
    } else if same_text(head, "write_file") {
        match read_pair("Action::write_file", body, "path", "content", token) {
            Ok((path, content)) => Ok(Action::WriteFile { path, content }),
            Err(e) => Err(e),
        }
    } else if same_text(head, "replace_in_file") {
        match read_triple("Action::replace_in_file", body, "path", "search", "replace", token) {
            Ok((path, search, replace)) => Ok(Action::ReplaceInFile { path, search, replace }),
            Err(e) => Err(e),
        }
    } else if same_text(head, "summary") {
        match read_single("Action::summary", body) {
            Ok(content) => Ok(Action::Summary { content }),
            Err(e) => Err(e),
        }
    } else if same_text(head, "set_profile") {
        match read_single("Action::set_profile", body) {
            Ok(content) => Ok(Action::SetProfile { content }),
            Err(e) => Err(e),
        }
    } else if same_text(head, "create_instance") {
        match read_pair("Action::create_instance", body, "name", "knowledge", token) {
            Ok((name, knowledge)) => Ok(Action::CreateInstance { name, knowledge }),
            Err(e) => Err(e),
        }
    } else if same_text(head, "distill") {
        match read_pair("Action::distill", body, "target_action_id", "summary", token) {
            Ok((target_action_id, summary)) => Ok(Action::Distill { target_action_id, summary }),
            Err(e) => Err(e),
        }
    } else {
        let mut e = "[Action] Unknown variant.\n  Found: '".to_string();
        e.push_str(head);
        e.push_str("'\n  Expected one of: idle, read_msg, send_msg, thinking, script, write_file, replace_in_file, summary, set_profile, create_instance, distill");
        Err(e)
    }
}

impl Action {
    /// Reads the actions that an answer spells.
    pub fn from_markdown(text: &str, token: &str) -> (r: Result<Vec<Action>, String>)
        ensures
            match r {
                Ok(v) => answer_of(text@, token@) == Ok::<Seq<ActionModel>, Seq<char>>(
                    action::models(v@),
                ),
                Err(e) => answer_of(text@, token@) == Err::<Seq<ActionModel>, Seq<char>>(e@),
            },
    {
        let chunks = match split_elements("Action", text, token) {
            Err(e) => {
                return Err(e);
            },
            Ok(v) => v,
        };
        let ghost all = search::views(chunks@);
        let mut out: Vec<Action> = Vec::new();
        let mut k: usize = 0;
        assert(action::models(out@) =~= Seq::<ActionModel>::empty());
        while k < chunks.len()
            invariant
                k <= chunks@.len(),
                all == search::views(chunks@),
                answer_of(text@, token@) == actions_from(all, token@, 0),
                match actions_from(all, token@, k as int) {
                    Ok(rest) => actions_from(all, token@, 0) == Ok::<Seq<ActionModel>, Seq<char>>(
                        action::models(out@) + rest,
                    ),
                    Err(e) => actions_from(all, token@, 0) == Err::<Seq<ActionModel>, Seq<char>>(e),
                },
            decreases chunks@.len() - k,
        {
            assert(all[k as int] == chunks@[k as int]@);
            match read_action(chunks[k].as_str(), token) {
                Err(e) => {
                    return Err(e);
                },
                Ok(a) => {
                    proof {
                        let before = action::models(out@);
                        action::lemma_models_push(out@, a);
                        match actions_from(all, token@, k + 1) {
                            Ok(rest) => {
                                assert(before + (seq![a@] + rest) =~= before.push(a@) + rest);
                            },
                            Err(e) => {},
                        }
                    }
                    out.push(a);
                },
            }
            k = k + 1;
        }
        assert(action::models(out@) + Seq::<ActionModel>::empty() =~= action::models(out@));
        Ok(out)
    }
}

} // verus!

//! What a model condensed or worked up is read as it was written.
use vstd::prelude::*;

use crate::inference::answer;
use crate::inference::capture;
use crate::inference::capture::CaptureOutput;
use crate::inference::compress::CompressOutput;
use crate::inference::markdown;
use crate::text::search;
use crate::text::space;

verus! {

/// An answer of a single element with a single part.
pub open spec fn lone_field(
    kind: Seq<char>,
    name: Seq<char>,
    value: Seq<char>,
    token: Seq<char>,
) -> Seq<char> {
    kind + "-"@ + token + "\n"@ + (name + "-"@ + token + "\n"@ + value) + "\n"@ + (kind + "-end-"@
        + token)
}

proof fn lemma_lone_field(kind: Seq<char>, name: Seq<char>, value: Seq<char>, token: Seq<char>)
    requires
        answer::is_token(token),
        answer::one_line(kind),
        answer::one_line(name),
        kind.len() > 0,
        name.len() > 0,
        !space::is_space(kind[0]),
        !space::is_space(name[0]),
        !search::has_text(name + "-"@, kind + "-"@),
        value.len() > 0,
        !space::is_space(value.last()),
        !search::has_text(value, token),
    ensures
        capture::single_field_answer(kind, name, lone_field(kind, name, value, token), token)
            == Ok::<Seq<Seq<char>>, Seq<char>>(seq![value]),
{
    answer::lemma_newline();
    let text = lone_field(kind, name, value, token);
    let mark = markdown::element_mark(kind, token);
    let fmark = markdown::element_mark(name, token);
    let end = markdown::end_mark(kind, token);
    let rest = fmark + "\n"@ + value;
    let body = mark + "\n"@ + rest;
    assert(rest =~= name + "-"@ + token + "\n"@ + value);
    assert(text == body + "\n"@ + end);
    answer::lemma_mark_is_one_line(kind, token);
    answer::lemma_mark_is_one_line(name, token);
    assert(end.last() == token.last());
    assert(mark.last() == token.last());
    assert(text[0] == kind[0]);
    assert(text.last() == end.last());
    answer::lemma_trim_core(text);
    assert(text.subrange(text.len() - end.len(), text.len() as int) =~= end);
    assert(body[0] == kind[0]);
    assert(body.last() == value.last());
    answer::lemma_trim_core(body);
    assert(text.take(text.len() - end.len()) =~= body + "\n"@);
    let sep = mark + "\n"@;
    answer::lemma_mark_in_mark(name, kind, token);
    answer::lemma_mark_holds_token(value, kind, token);
    answer::lemma_not_across(fmark, value, mark);
    answer::lemma_longer_is_absent(rest, mark, "\n"@);
    assert(body.subrange(0, sep.len() as int) =~= sep);
    assert(search::occurs_at(body, sep, 0));
    assert(search::find_text(body, sep) == Some(0int));
    assert(body.skip(sep.len() as int) =~= rest);
    search::lemma_find_iff_has(rest, sep);
    let pieces = search::split_text(body, sep);
    assert(search::split_text(rest, sep) =~= seq![rest]);
    assert(pieces =~= seq![body.take(0), rest]);
    assert(body.take(0) =~= Seq::<char>::empty());
    assert(space::trimmed(Seq::<char>::empty()) =~= Seq::<char>::empty());
    assert(rest[0] == name[0]);
    assert(rest.last() == value.last());
    answer::lemma_trim_core(rest);
    assert(markdown::filled(pieces, 2) =~= Seq::<Seq<char>>::empty());
    assert(markdown::filled(pieces, 1) =~= seq![rest]);
    let chunks = seq![rest];
    assert(markdown::elements(kind, text, token) == Ok::<Seq<Seq<char>>, Seq<char>>(chunks));
    let names = seq![name];
    let fsep = fmark + "\n"@;
    assert(rest.subrange(0, fsep.len() as int) =~= fsep);
    assert(search::occurs_at(rest, fsep, 0));
    assert(search::find_text(rest, fsep) == Some(0int));
    assert(rest.skip((fmark.len() + 1) as int) =~= value);
    answer::lemma_trim_end_core(value);
    assert(markdown::field_value(rest, names, token, 0) == value);
    lemma_not_blank(value);
    assert(markdown::fields_from(kind, rest, names, token, 1, (fmark.len() + 1) as int) == Ok::<
        Seq<Seq<char>>,
        Seq<char>,
    >(Seq::empty()));
    assert(seq![value] + Seq::<Seq<char>>::empty() =~= seq![value]);
    assert(markdown::fields(kind, rest, names, token) == Ok::<Seq<Seq<char>>, Seq<char>>(
        seq![value],
    ));
    assert(capture::single_field_answers(kind, name, chunks, token, 1) == Ok::<
        Seq<Seq<char>>,
        Seq<char>,
    >(Seq::empty()));
    assert(capture::single_field_answers(kind, name, chunks, token, 0) == Ok::<
        Seq<Seq<char>>,
        Seq<char>,
    >(seq![value]));
}

proof fn lemma_not_blank(value: Seq<char>)
    requires
        value.len() > 0,
        !space::is_space(value.last()),
    ensures
        !space::is_blank(value),
{
    crate::text::laws::law_blank_texts_are_space(value);
    assert(value[value.len() - 1] == value.last());
}

proof fn lemma_too_long(s: Seq<char>, p: Seq<char>)
    requires
        s.len() < p.len(),
    ensures
        !search::has_text(s, p),
{
}

proof fn lemma_capture_names()
    ensures
        answer::one_line("CaptureOutput"@),
        answer::one_line("knowledge"@),
        "CaptureOutput"@.len() > 0,
        "knowledge"@.len() > 0,
        !space::is_space("CaptureOutput"@[0]),
        !space::is_space("knowledge"@[0]),
        !search::has_text("knowledge"@ + "-"@, "CaptureOutput"@ + "-"@),
{
    reveal_strlit("CaptureOutput");
    reveal_strlit("knowledge");
    lemma_too_long("knowledge"@ + "-"@, "CaptureOutput"@ + "-"@);
}

proof fn lemma_compress_names()
    ensures
        answer::one_line("CompressOutput"@),
        answer::one_line("summary"@),
        "CompressOutput"@.len() > 0,
        "summary"@.len() > 0,
        !space::is_space("CompressOutput"@[0]),
        !space::is_space("summary"@[0]),
        !search::has_text("summary"@ + "-"@, "CompressOutput"@ + "-"@),
{
    reveal_strlit("CompressOutput");
    reveal_strlit("summary");
    lemma_too_long("summary"@ + "-"@, "CompressOutput"@ + "-"@);
}

/// Knowledge that a model wrote in the right form is read as it was written.
pub proof fn law_written_knowledge_is_read(
    text: &str,
    token: &str,
    knowledge: Seq<char>,
    r: Result<Vec<CaptureOutput>, String>,
)
    requires
        call_ensures(CaptureOutput::from_markdown, (text, token), r),
        answer::is_token(token@),
        knowledge.len() > 0,
        !space::is_space(knowledge.last()),
        !search::has_text(knowledge, token@),
        text@ == lone_field("CaptureOutput"@, "knowledge"@, knowledge, token@),
    ensures
        r is Ok,
        r->Ok_0@.len() == 1,
        r->Ok_0@[0].knowledge@ == knowledge,
{
    lemma_capture_names();
    lemma_lone_field("CaptureOutput"@, "knowledge"@, knowledge, token@);
    let v = r->Ok_0@.map_values(|o: CaptureOutput| o.knowledge@);
    assert(v == seq![knowledge]);
    assert(v[0] == r->Ok_0@[0].knowledge@);
}

/// A history that a model condensed in the right form is read as it was written.
pub proof fn law_written_histories_are_read(
    text: &str,
    token: &str,
    summary: Seq<char>,
    r: Result<Vec<CompressOutput>, String>,
)
    requires
        call_ensures(CompressOutput::from_markdown, (text, token), r),
        answer::is_token(token@),
        summary.len() > 0,
        !space::is_space(summary.last()),
        !search::has_text(summary, token@),
        text@ == lone_field("CompressOutput"@, "summary"@, summary, token@),
    ensures
        r is Ok,
        r->Ok_0@.len() == 1,
        r->Ok_0@[0].summary@ == summary,
{
    lemma_compress_names();
    lemma_lone_field("CompressOutput"@, "summary"@, summary, token@);
    let v = r->Ok_0@.map_values(|o: CompressOutput| o.summary@);
    assert(v == seq![summary]);
    assert(v[0] == r->Ok_0@[0].summary@);
}

} // verus!

//! What is asked of models and shells, and what is made of their answers.
use vstd::prelude::*;

use crate::action::action_output;
use crate::external::llm;
use crate::external::llm::{
    prepare_request, InferenceRequest, LlmConfig, SseChoice, SseUsage,
};
use crate::external::shell;
use crate::external::shell::{CommandPlan, SandboxStep};
use crate::external::skeleton;
use crate::external::skeleton::LanguageRule;
use crate::external::vision;
use crate::float_bits::Real;
use crate::text::case;
use crate::text::number;
use crate::text::parts;
use crate::text::path;
use crate::text::search;
use crate::text::space;

verus! {

proof fn lemma_parted_at(front: Seq<char>, mark: Seq<char>, back: Seq<char>)
    requires
        mark.len() == 1,
        !search::has_text(front, mark),
    ensures
        search::find_text(front + mark + back, mark) == Some(front.len() as int),
{
    let s = front + mark + back;
    let k = front.len() as int;
    assert(s.subrange(k, k + 1) =~= mark);
    assert(search::occurs_at(s, mark, k));
    search::lemma_find_iff_has(s, mark);
    search::lemma_find_from(s, mark, 0);
    let i = search::find_text(s, mark)->0;
    if i < k {
        assert(front.subrange(i, i + 1) =~= s.subrange(i, i + 1));
        assert(search::occurs_at(front, mark, i));
    }
}

/// A model is asked for where its provider says, under the name that stands behind the
/// provider; a provider that is not known is taken for an address itself, and a model
/// without one is asked for at OpenRouter.
pub proof fn law_models_are_asked_where_they_are(provider: Seq<char>, id: Seq<char>)
    requires
        !search::has_text(provider, "@"@),
    ensures
        ({
            let (url, model) = llm::resolved_model(provider + "@"@ + id);
            &&& model == id
            &&& provider == "openrouter"@ ==> url
                == "https://openrouter.ai/api/v1/chat/completions"@
            &&& provider == "openai"@ ==> url == "https://api.openai.com/v1/chat/completions"@
            &&& provider == "zenmux"@ ==> url == "https://zenmux.ai/api/v1/chat/completions"@
            &&& provider != "openrouter"@ && provider != "openai"@ && provider != "zenmux"@ ==> url
                == provider
        }),
        llm::resolved_model(provider) == (
            "https://openrouter.ai/api/v1/chat/completions"@,
            provider,
        ),
{
    reveal_strlit("@");
    reveal_strlit("openrouter");
    reveal_strlit("openai");
    reveal_strlit("zenmux");
    assert("openrouter"@.len() == 10);
    assert("openai"@[0] == 'o');
    assert("zenmux"@[0] == 'z');
    assert("openai"@.len() == 6);
    lemma_parted_at(provider, "@"@, id);
    let s = provider + "@"@ + id;
    assert(s.take(provider.len() as int) =~= provider);
    assert(s.skip((provider.len() + 1) as int) =~= id);
    search::lemma_find_iff_has(provider, "@"@);
}

/// A request carries the key of its configuration, and what the configuration says; the
/// defaults count only where it says nothing.
pub proof fn law_requests_follow_their_configuration(
    config: LlmConfig,
    max_tokens: u32,
    temperature: Real,
    stream: bool,
    r: InferenceRequest,
)
    requires
        call_ensures(prepare_request, (&config, max_tokens, temperature, stream), r),
    ensures
        search::has_suffix(r.authorization@, config.api_key@),
        r.authorization@.len() == 7 + config.api_key@.len(),
        config.max_tokens is Some ==> Some(r.max_tokens) == config.max_tokens,
        config.max_tokens is None ==> r.max_tokens == max_tokens,
        config.temperature is Some ==> Some(r.temperature) == config.temperature,
        config.temperature is None ==> r.temperature == temperature,
        r.stream == stream,
{
    reveal_strlit("Bearer ");
    let (a, k) = (r.authorization@, config.api_key@);
    assert(a.subrange(a.len() - k.len(), a.len() as int) =~= k);
}

/// The text of an answer is that of its choices, one behind the other, with nothing
/// lost and nothing added.
pub proof fn law_choices_add_up(a: Seq<SseChoice>, b: Seq<SseChoice>, c: SseChoice)
    ensures
        llm::choices_text(a + b) == llm::choices_text(a) + llm::choices_text(b),
        c.content is Some ==> llm::choices_text(seq![c]) == c.content->0@,
        c.content is None ==> llm::choices_text(seq![c]).len() == 0,
        c.content is Some ==> llm::first_text(seq![c] + b) == c.content->0@,
    decreases b.len(),
{
    assert(seq![c].drop_last() =~= Seq::empty());
    assert(llm::choices_text(Seq::<SseChoice>::empty()).len() == 0);
    if c.content is Some {
        assert(Seq::<char>::empty() + c.content->0@ =~= c.content->0@);
        assert(llm::choices_text(seq![c]) =~= c.content->0@);
    }
    assert((seq![c] + b)[0] == c);
    if b.len() == 0 {
        assert(a + b =~= a);
        assert(llm::choices_text(a) + llm::choices_text(b) =~= llm::choices_text(a));
    } else {
        law_choices_add_up(a, b.drop_last(), c);
        assert((a + b).drop_last() =~= a + b.drop_last());
        let last = match b.last().content {
            Some(t) => t@,
            None => Seq::empty(),
        };
        parts::lemma_assoc(llm::choices_text(a), llm::choices_text(b.drop_last()), last);
    }
}

/// The tokens that an answer cost are those that it tells, what went in and what came
/// out each for itself; what is not told counts for nothing.
pub proof fn law_tokens_are_counted(input: u64, output: u64)
    ensures
        ({
            let told = llm::usage_of(
                Some(SseUsage { prompt_tokens: Some(input), completion_tokens: Some(output) }),
            );
            &&& told is Some
            &&& told->0.input_tokens == input
            &&& told->0.output_tokens == output
        }),
        llm::usage_of(
            Some(SseUsage { prompt_tokens: None, completion_tokens: Some(output) }),
        )->0.input_tokens == 0,
        llm::usage_of(
            Some(SseUsage { prompt_tokens: Some(input), completion_tokens: None }),
        )->0.output_tokens == 0,
        llm::usage_of(None) is None,
{
}

/// A line of an answer carries what stands behind its mark, also where there is no
/// blank behind the mark; the line that ends the answer carries nothing.
pub proof fn law_data_lines_carry_their_text(line: Seq<char>, text: Seq<char>)
    requires
        text != "[DONE]"@,
    ensures
        space::trimmed(line) == "data: "@ + text ==> llm::payload_of(line) == Some(text),
        space::trimmed(line) == "data:"@ + text && !search::has_prefix(text, " "@)
            ==> llm::payload_of(line) == Some(text),
        space::trimmed(line) == "data: [DONE]"@ ==> llm::payload_of(line) is None,
        space::trimmed(line) == "data:[DONE]"@ ==> llm::payload_of(line) is None,
        !search::has_prefix(space::trimmed(line), "data:"@) ==> llm::payload_of(line) is None,
{
    reveal_strlit("data: ");
    reveal_strlit("data:");
    reveal_strlit("data: [DONE]");
    reveal_strlit("data:[DONE]");
    reveal_strlit("[DONE]");
    reveal_strlit(" ");
    let t = space::trimmed(line);
    if t == "data: "@ + text {
        assert(t.subrange(0, 6) =~= "data: "@);
        assert(t.skip(6) =~= text);
        if t == "data: [DONE]"@ {
            assert(t.skip(6) =~= "[DONE]"@);
        }
        if t == "data:[DONE]"@ {
            assert(t[5] == ' ');
            assert("data:[DONE]"@[5] == '[');
        }
    } else if t == "data:"@ + text && !search::has_prefix(text, " "@) {
        assert(t.subrange(0, 5) =~= "data:"@);
        assert(t.skip(5) =~= text);
        if t == "data:[DONE]"@ {
            assert(t.skip(5) =~= "[DONE]"@);
        }
        if t.len() >= 6 && t[5] == ' ' {
            assert(text[0] == ' ');
            assert(text.subrange(0, 1) =~= " "@);
        }
        if t == "data: [DONE]"@ {
            assert("data: [DONE]"@[5] == ' ');
        }
        if search::has_prefix(t, "data: "@) {
            assert(t.subrange(0, 6)[5] == "data: "@[5]);
        }
    }
    if search::has_prefix(t, "data: "@) {
        assert(t.subrange(0, 5) =~= t.subrange(0, 6).subrange(0, 5));
        assert(t.subrange(0, 5) =~= "data:"@);
    }
}

/// What a script does is what it was given: the whole script is what the shell reads,
/// in the directory that was asked for, and as the user where there is one.
pub proof fn law_shells_run_the_script(
    p: CommandPlan,
    q: CommandPlan,
    user: Option<String>,
    script: Seq<char>,
    other: Seq<char>,
    dir: Seq<char>,
)
    requires
        shell::plans(p, user, script, dir),
        shell::plans(q, user, other, dir),
    ensures
        search::has_suffix(p.stdin@, script),
        script != other ==> p.stdin@ != q.stdin@,
        user is None ==> p.stdin@ == script && p.dir is Some && p.dir->0@ == dir,
        user is Some ==> search::has_text(p.stdin@, dir) && p.args@.len() == 4 && p.args@[1]@
            == user->0@ && p.program@ == "su"@,
{
    let s = p.stdin@;
    assert(s.subrange(s.len() - script.len(), s.len() as int) =~= script);
    match user {
        Some(u) => {
            assert(search::views(p.args@).len() == p.args@.len());
            assert(search::views(p.args@)[1] == p.args@[1]@);
            parts::lemma_whole(dir);
            parts::lemma_in_four("cd "@, dir, " && "@, script, dir);
            if p.stdin@ == q.stdin@ {
                parts::lemma_cancel_left("cd "@ + dir + " && "@, script, other);
            }
        },
        None => {},
    }
}

/// What is written by a shell is the whole text, between two lines that hold the mark,
/// into the file that was asked for.
pub proof fn law_shells_write_the_text(path: Seq<char>, content: Seq<char>, mark: Seq<char>)
    ensures
        search::has_suffix(
            shell::write_script(path, content, mark),
            "<< '"@ + mark + "'\n"@ + content + "\n"@ + mark,
        ),
        search::has_text(
            shell::write_script(path, content, mark),
            "cat > '"@ + shell::escaped(path) + "'"@,
        ),
{
    let e = shell::escaped(path);
    reveal_strlit("')\" && cat > '");
    reveal_strlit("' << '");
    reveal_strlit("<< '");
    reveal_strlit("cat > '");
    reveal_strlit("'");
    let front = "mkdir -p \"$(dirname '"@ + e;
    let a = front + "')\" && cat > '"@ + e;
    let whole = shell::write_script(path, content, mark);
    let end = "<< '"@ + mark + "'\n"@ + content + "\n"@ + mark;
    let space_quote = seq!['\'', ' '];
    assert("' << '"@ =~= space_quote + "<< '"@);
    parts::lemma_assoc(a, space_quote, "<< '"@);
    let b = a + space_quote;
    parts::lemma_assoc(b, "<< '"@, mark);
    parts::lemma_assoc(b, "<< '"@ + mark, "'\n"@);
    parts::lemma_assoc(b, "<< '"@ + mark + "'\n"@, content);
    parts::lemma_assoc(b, "<< '"@ + mark + "'\n"@ + content, "\n"@);
    parts::lemma_assoc(b, "<< '"@ + mark + "'\n"@ + content + "\n"@, mark);
    assert(whole == b + end);
    assert(whole.subrange(whole.len() - end.len(), whole.len() as int) =~= end);
    let shown = "cat > '"@ + e + "'"@;
    let k = front.len() + 7;
    assert(("')\" && cat > '"@).subrange(7, 14) =~= "cat > '"@);
    assert(b.subrange(k as int, (k + shown.len()) as int) =~= shown) by {
        let piece = b.subrange(k as int, (k + shown.len()) as int);
        assert forall|i: int| 0 <= i < shown.len() implies piece[i] == shown[i] by {
            if i < 7 {
                assert(piece[i] == ("')\" && cat > '"@)[7 + i]);
                assert(shown[i] == "cat > '"@[i]);
                assert(("')\" && cat > '"@).subrange(7, 14)[i] == "cat > '"@[i]);
            } else if i < 7 + e.len() {
                assert(piece[i] == e[i - 7]);
            } else {
                assert(piece[i] == '\'');
            }
        }
    }
    assert(search::occurs_at(b, shown, k as int));
    parts::lemma_part_of_sum(b, end, shown);
}

/// A path from the root is taken as it is; another one is taken within the workspace,
/// unless it steps up.
pub proof fn law_paths_are_taken_in_the_workspace(workspace: Seq<char>, p: Seq<char>)
    ensures
        p.len() > 0 && p[0] == '/' ==> shell::action_path(workspace, p) == Some(p),
        (p.len() == 0 || p[0] != '/') && !search::split_text(p, "/"@).contains(".."@)
            ==> shell::action_path(workspace, p) == Some(path::joined_path(workspace, p)),
        (p.len() == 0 || p[0] != '/') && search::split_text(p, "/"@).contains(".."@)
            ==> shell::action_path(workspace, p) is None,
{
    reveal_strlit("/");
    if p.len() > 0 {
        assert(p.subrange(0, 1)[0] == p[0]);
        if p[0] == '/' {
            assert(p.subrange(0, 1) =~= "/"@);
        }
    }
}

/// A user of its own is made only where there is none yet, then owns its workspace; where
/// it cannot be made, it is told whose and why.
pub proof fn law_sandboxes_are_set_up(
    args: Vec<String>,
    success: bool,
    stderr: Seq<char>,
    user: Seq<char>,
    workspace: Seq<char>,
    next: SandboxStep,
)
    ensures
        shell::step_follows(
            SandboxStep::Check { args },
            true,
            stderr,
            user,
            workspace,
            next,
        ) ==> (next matches SandboxStep::Own { args: a } && search::views(a@).contains(workspace)
            && search::views(a@).contains(user + ":"@ + user)),
        shell::step_follows(
            SandboxStep::Check { args },
            false,
            stderr,
            user,
            workspace,
            next,
        ) ==> (next matches SandboxStep::Create { args: a } && search::views(a@).last() == user
            && search::views(a@).contains(workspace)),
        shell::step_follows(
            SandboxStep::Create { args },
            true,
            stderr,
            user,
            workspace,
            next,
        ) ==> next is Own,
        shell::step_follows(
            SandboxStep::Create { args },
            false,
            stderr,
            user,
            workspace,
            next,
        ) ==> (next matches SandboxStep::Failed(e) && search::has_suffix(
            e@,
            space::trimmed(stderr),
        ) && search::has_text(e@, user)),
        shell::step_follows(
            SandboxStep::Own { args },
            success,
            stderr,
            user,
            workspace,
            next,
        ) ==> next is Done,
{
    let own = seq!["-R"@, user + ":"@ + user, workspace];
    assert(own[1] == user + ":"@ + user);
    assert(own[2] == workspace);
    let create = seq!["-r"@, "-s"@, "/bin/bash"@, "--home-dir"@, workspace, user];
    assert(create[4] == workspace);
    assert(create.last() == user);
    let why = space::trimmed(stderr);
    let e = "Failed to create sandbox user '"@ + user + "': "@ + why;
    assert(e.subrange(e.len() - why.len(), e.len() as int) =~= why);
    parts::lemma_whole(user);
    parts::lemma_in_four("Failed to create sandbox user '"@, user, "': "@, why, user);
}

proof fn lemma_marked(all: Seq<Seq<char>>, markers: Seq<Seq<char>>, from: int, i: int)
    requires
        0 <= from <= i < all.len(),
        skeleton::is_marked(all[i], markers),
    ensures
        skeleton::marked_lines(all, markers, from).contains(
            action_output::preview_line_text((i + 1) as nat, all[i]),
        ),
    decreases all.len() - from,
{
    let line = action_output::preview_line_text((i + 1) as nat, all[i]);
    let lines = skeleton::marked_lines(all, markers, from);
    let rest = skeleton::marked_lines(all, markers, from + 1);
    if i == from {
        assert(lines[0] == line);
    } else {
        lemma_marked(all, markers, from + 1, i);
        let k = choose|k: int| 0 <= k < rest.len() && rest[k] == line;
        if skeleton::is_marked(all[from], markers) {
            assert(lines[k + 1] == line);
        } else {
            assert(lines[k] == line);
        }
    }
}

/// A skeleton holds every line that starts with one of the marks of its language,
/// however far it is set in, behind its own number.
pub proof fn law_skeletons_hold_marked_lines(
    all: Seq<Seq<char>>,
    markers: Seq<Seq<char>>,
    i: int,
    k: int,
    rest: Seq<char>,
)
    requires
        0 <= i < all.len(),
        0 <= k < markers.len(),
        space::trimmed_start(all[i]) == markers[k] + rest,
    ensures
        skeleton::marked_lines(all, markers, 0).contains(
            number::flush_right(number::dec((i + 1) as nat), 4) + ": "@ + all[i],
        ),
{
    let t = space::trimmed_start(all[i]);
    assert(t.subrange(0, markers[k].len() as int) =~= markers[k]);
    assert(search::has_prefix(t, markers[k]));
    lemma_marked(all, markers, 0, i);
}

/// An image is taken for what its name says, and only where the name says nothing for
/// what the server says.
pub proof fn law_images_are_what_their_names_say(name: Seq<char>)
    ensures
        vision::type_by_name(name + ".jpg"@) == Some("image/jpeg"@),
        vision::type_by_name(name + ".jpeg"@) == Some("image/jpeg"@),
        vision::type_by_name(name + ".png"@) == Some("image/png"@),
        vision::type_by_name(name + ".gif"@) == Some("image/gif"@),
        vision::type_by_name(name + ".webp"@) == Some("image/webp"@),
{
    reveal_strlit(".jpg");
    reveal_strlit(".jpeg");
    reveal_strlit(".png");
    reveal_strlit(".gif");
    reveal_strlit(".webp");
    assert(".jpg"@.len() == 4);
    assert(".jpg"@[3] == 'g');
    assert(".jpg"@[2] == 'p');
    assert(".jpeg"@.len() == 5);
    assert(".jpeg"@[4] == 'g');
    assert(".jpeg"@[3] == 'e');
    assert(".png"@.len() == 4);
    assert(".png"@[3] == 'g');
    assert(".png"@[2] == 'n');
    assert(".gif"@.len() == 4);
    assert(".gif"@[3] == 'f');
    assert(".gif"@[2] == 'i');
    assert(".webp"@.len() == 5);
    assert(".webp"@[4] == 'p');
    assert(".webp"@[3] == 'b');
    lemma_ends(name, ".jpg"@);
    lemma_ends(name, ".jpeg"@);
    lemma_ends(name, ".png"@);
    lemma_ends(name, ".gif"@);
    lemma_ends(name, ".webp"@);
    lemma_ends_otherwise(name, ".png"@, ".jpg"@);
    lemma_ends_otherwise(name, ".png"@, ".jpeg"@);
    lemma_ends_otherwise(name, ".gif"@, ".jpg"@);
    lemma_ends_otherwise(name, ".gif"@, ".jpeg"@);
    lemma_ends_otherwise(name, ".gif"@, ".png"@);
    lemma_ends_otherwise(name, ".webp"@, ".jpg"@);
    lemma_ends_otherwise(name, ".webp"@, ".jpeg"@);
    lemma_ends_otherwise(name, ".webp"@, ".png"@);
    lemma_ends_otherwise(name, ".webp"@, ".gif"@);
}

proof fn lemma_ends(name: Seq<char>, end: Seq<char>)
    ensures
        search::has_suffix(name + end, end),
{
    let s = name + end;
    assert(s.subrange(s.len() - end.len(), s.len() as int) =~= end);
}

proof fn lemma_ends_otherwise(name: Seq<char>, end: Seq<char>, other: Seq<char>)
    requires
        end.len() > 1,
        other.len() > 1,
        end.last() != other.last() || end[end.len() - 2] != other[other.len() - 2],
    ensures
        !search::has_suffix(name + end, other),
{
    let s = name + end;
    if search::has_suffix(s, other) {
        let t = s.subrange(s.len() - other.len(), s.len() as int);
        assert(t[other.len() - 1] == s[s.len() - 1]);
        assert(t[other.len() - 2] == s[s.len() - 2]);
        assert(s[s.len() - 1] == end[end.len() - 1]);
        assert(s[s.len() - 2] == end[end.len() - 2]);
    }
}

/// What went wrong at a model's service is told with its status and its answer.
pub proof fn law_service_errors_are_told(kind: Seq<char>, status: Seq<char>, body: Seq<char>)
    ensures
        search::has_prefix(llm::api_error_text(kind, status, body), kind),
        search::has_suffix(llm::api_error_text(kind, status, body), status + ": "@ + body),
{
    let text = llm::api_error_text(kind, status, body);
    let front = kind + " API error "@;
    parts::lemma_assoc(front, status, ": "@);
    parts::lemma_assoc(front, status + ": "@, body);
    let end = status + ": "@ + body;
    assert(text == front + end);
    assert(text.subrange(0, kind.len() as int) =~= kind);
    assert(text.subrange(text.len() - end.len(), text.len() as int) =~= end);
}

proof fn lemma_rule(rules: Seq<LanguageRule>, ext: Seq<char>, i: int)
    requires
        0 <= i,
    ensures
        match skeleton::rule_from(rules, ext, i) {
            Some(k) => i <= k < rules.len() && search::views(rules[k].extensions@).contains(ext)
                && forall|j: int|
                i <= j < k ==> !search::views((#[trigger] rules[j]).extensions@).contains(ext),
            None => forall|j: int|
                i <= j < rules.len() ==> !search::views(
                    (#[trigger] rules[j]).extensions@,
                ).contains(ext),
        },
    decreases rules.len() - i,
{
    if i < rules.len() {
        lemma_rule(rules, ext, i + 1);
    }
}

/// The skeleton of a file is drawn by the first rule for its extension, and there is none
/// where there is no rule.
pub proof fn law_skeletons_follow_the_first_rule(
    rules: Seq<LanguageRule>,
    ext: Seq<char>,
    content: Seq<char>,
    k: int,
)
    ensures
        0 <= k < rules.len() && search::views(rules[k].extensions@).contains(ext) && (forall|j: int|
            0 <= j < k ==> !search::views((#[trigger] rules[j]).extensions@).contains(ext))
            ==> skeleton::skeleton_of(rules, ext, content) == Some(
            skeleton::marked_lines(
                space::lines_of(content),
                search::views(rules[k].markers@),
                0,
            ),
        ),
        (forall|j: int|
            0 <= j < rules.len() ==> !search::views((#[trigger] rules[j]).extensions@).contains(ext))
            ==> skeleton::skeleton_of(rules, ext, content) is None,
{
    lemma_rule(rules, ext, 0);
}

/// The extension of a file is what stands behind its last dot, in lower case.
pub proof fn law_extensions_stand_behind_the_last_dot(name: Seq<char>, ext: Seq<char>)
    requires
        !search::has_text(ext, "."@),
    ensures
        skeleton::extension_of(name + "."@ + ext) == case::lowercase_text(ext),
{
    reveal_strlit(".");
    let s = name + "."@ + ext;
    let k = name.len() as int;
    assert(s.subrange(k, k + 1) =~= "."@);
    assert(search::occurs_at(s, "."@, k));
    assert(s.skip(k + 1) =~= ext);
    lemma_last_dot(s, k, ext, s.len() - 1);
}

pub(crate) proof fn lemma_last_dot(s: Seq<char>, k: int, ext: Seq<char>, upto: int)
    requires
        0 <= k <= upto < s.len(),
        search::occurs_at(s, "."@, k),
        "."@.len() == 1,
        ext == s.skip(k + 1),
        !search::has_text(ext, "."@),
    ensures
        search::rfind_from(s, "."@, upto) == Some(k),
    decreases upto,
{
    if upto > k {
        if search::occurs_at(s, "."@, upto) {
            let j = upto - k - 1;
            assert(ext.subrange(j, j + 1) =~= s.subrange(upto, upto + 1));
            assert(search::occurs_at(ext, "."@, j));
        }
        lemma_last_dot(s, k, ext, upto - 1);
    }
}

/// A picture whose name says nothing is taken for what the server says, up to its first
/// semicolon, and for a PNG where the server says nothing that is known.
pub proof fn law_servers_say_what_pictures_are(url: Seq<char>, header: Seq<char>)
    requires
        vision::type_by_name(case::lowercase_text(search::before_text(url, "?"@))) is None,
    ensures
        ({
            let told = space::trimmed(search::before_text(header, ";"@));
            let taken = vision::media_type(url, header);
            &&& told == "image/jpeg"@ ==> taken == "image/jpeg"@
            &&& told == "image/gif"@ ==> taken == "image/gif"@
            &&& told == "image/webp"@ ==> taken == "image/webp"@
            &&& taken == told || taken == "image/png"@
        }),
{
}

/// The free space is the number on the second line of the report, without its unit.
pub proof fn law_free_space_is_read(report: Seq<char>, n: u64)
    requires
        space::lines_of(report).len() >= 2,
        space::trimmed(space::lines_of(report)[1]) == number::dec(n as nat) + "M"@,
    ensures
        shell::reported_mb(report) == Some(n),
{
    reveal_strlit("M");
    let d = number::dec(n as nat);
    let s = d + "M"@;
    assert(s.drop_last() =~= d);
    number::lemma_dec_digits(n as nat);
    assert(number::is_digit(d[d.len() - 1]));
    assert(shell::without_unit(d) == d);
    assert(shell::without_unit(s) == shell::without_unit(s.drop_last()));
    number::law_parse_of_decimal(n);
}

/// Every complete line of an answer is read for itself, in order, and what is behind the
/// last line end waits for more.
pub proof fn law_lines_are_read_in_order(line: Seq<char>, rest: Seq<char>)
    requires
        forall|i: int| 0 <= i < line.len() ==> #[trigger] line[i] != '\n',
    ensures
        ({
            let s = line + seq!['\n'] + rest;
            &&& llm::payload_of(line) is Some ==> llm::payloads_from(s, 0) == seq![
                llm::payload_of(line)->0,
            ] + llm::payloads_from(s, (line.len() + 1) as int)
            &&& llm::payload_of(line) is None ==> llm::payloads_from(s, 0) == llm::payloads_from(
                s,
                (line.len() + 1) as int,
            )
            &&& llm::unfinished_from(s, 0) == llm::unfinished_from(s, (line.len() + 1) as int)
        }),
        llm::payloads_from(line, 0).len() == 0,
        llm::unfinished_from(line, 0) == line,
{
    let s = line + seq!['\n'] + rest;
    let n = line.len() as int;
    space::lemma_newline_from(s, 0);
    space::lemma_newline_from(line, 0);
    assert(s[n] == '\n');
    assert(space::newline_from(s, 0) == Some(n)) by {
        let f = space::newline_from(s, 0);
        if f is Some && f->0 < n {
            assert(s[f->0] == line[f->0]);
        }
    }
    assert(space::newline_from(line, 0) is None);
    assert(s.subrange(0, n) =~= line);
    assert(line.skip(0) =~= line);
}

} // verus!

//! What the records of actions show, stated on the texts themselves.
use vstd::prelude::*;

use crate::inference::action::ActionModel;
use crate::inference::output;
use crate::inference::output::{ActionLogRow, ActionOutput, ActionView, ReadMsgEntry, ViewModel};
use crate::inference::render;
use crate::inference::showing;
use crate::inference::showing::{stands_behind, stands_under};
use crate::text::bytes;
use crate::text::number;
use crate::text::parts;
use crate::text::search;

verus! {

/// The record of an action, as it is written.
pub open spec fn record_of(m: ViewModel) -> Seq<char> {
    search::join_text(output::view_sections(m), ""@)
}

/// A section stands in its record.
proof fn lemma_section(m: ViewModel, k: int)
    requires
        0 <= k < 30,
    ensures
        search::has_text(record_of(m), output::view_sections(m)[k]),
{
    parts::lemma_part_of_join(output::view_sections(m), ""@, k);
}

proof fn lemma_note_at(m: ViewModel, k: int, title: Seq<char>, value: Seq<char>)
    requires
        0 <= k < 30,
        output::view_sections(m)[k] == render::weak_text(title, value),
        value.len() > 0,
    ensures
        stands_behind(record_of(m), title, value),
{
    lemma_section(m, k);
    showing::law_fields_show_their_value(Seq::empty(), title, value);
    showing::lemma_behind(record_of(m), render::weak_text(title, value), title, value);
}

proof fn lemma_field_at(m: ViewModel, k: int, title: Seq<char>, value: Seq<char>)
    requires
        0 <= k < 30,
        output::view_sections(m)[k] == render::field_text("###"@, title, value),
        value.len() > 0,
    ensures
        stands_under(record_of(m), "###"@, title, value),
{
    lemma_section(m, k);
    showing::law_fields_show_their_value("###"@, title, value);
    showing::lemma_under(
        record_of(m),
        render::field_text("###"@, title, value),
        "###"@,
        title,
        value,
    );
}

proof fn lemma_line_at(m: ViewModel, k: int, line: Seq<char>)
    requires
        0 <= k < 30,
        output::view_sections(m)[k] == line,
    ensures
        search::has_text(record_of(m), line),
{
    lemma_section(m, k);
}

/// Every record names its action and the kind of it.
pub proof fn law_records_name_their_action(m: ViewModel)
    ensures
        m.action_id.len() > 0 ==> stands_under(record_of(m), "###"@, "action_id"@, m.action_id),
        m.action_type.len() > 0 ==> stands_under(
            record_of(m),
            "###"@,
            "action_type"@,
            m.action_type,
        ),
        m.started_at is Some && m.started_at->0.len() > 0 ==> stands_under(
            record_of(m),
            "###"@,
            "started_at"@,
            m.started_at->0,
        ),
{
    if m.action_id.len() > 0 {
        lemma_field_at(m, 0, "action_id"@, m.action_id);
    }
    if m.action_type.len() > 0 {
        lemma_field_at(m, 1, "action_type"@, m.action_type);
    }
    if m.started_at is Some && m.started_at->0.len() > 0 {
        lemma_field_at(m, 2, "started_at"@, m.started_at->0);
    }
}

/// The record of a script shows how it ended, how long it took and what it wrote, as
/// long as that is not too much to be shown.
pub proof fn law_records_show_how_scripts_ended(
    m: ViewModel,
    stdout: String,
    exit_code: i32,
    elapsed_secs: String,
    truncated: bool,
)
    ensures
        ({
            let o = ActionOutput::Script { stdout, exit_code, elapsed_secs, truncated };
            let text = record_of(output::with_output(m, o));
            &&& search::has_text(text, "exit_code: "@ + number::dec_int(exit_code as int) + "\n"@)
            &&& elapsed_secs@.len() > 0 ==> stands_under(
                text,
                "###"@,
                "elapsed_secs"@,
                elapsed_secs@,
            )
            &&& 0 < bytes::text_bytes(stdout@) <= 102400 ==> stands_behind(
                text,
                "stdout"@,
                stdout@,
            )
        }),
{
    reveal_strlit("exit_code");
    reveal_strlit("exit_code: ");
    reveal_strlit(": ");
    let o = ActionOutput::Script { stdout, exit_code, elapsed_secs, truncated };
    let v = output::with_output(m, o);
    let line = "exit_code: "@ + number::dec_int(exit_code as int) + "\n"@;
    assert("exit_code"@ + ": "@ =~= "exit_code: "@);
    lemma_line_at(v, 17, line);
    if elapsed_secs@.len() > 0 {
        lemma_field_at(v, 18, "elapsed_secs"@, elapsed_secs@);
    }
    if 0 < bytes::text_bytes(stdout@) <= 102400 {
        bytes::lemma_text_bytes_bounds(stdout@);
        lemma_note_at(v, 16, "stdout"@, stdout@);
    }
}

/// Scripts that ended differently leave different records.
pub proof fn law_records_tell_endings_apart(
    m: ViewModel,
    stdout: String,
    a: i32,
    b: i32,
    elapsed_secs: String,
    truncated: bool,
)
    requires
        a != b,
    ensures
        record_of(
            output::with_output(
                m,
                ActionOutput::Script { stdout, exit_code: a, elapsed_secs, truncated },
            ),
        ) != record_of(
            output::with_output(
                m,
                ActionOutput::Script { stdout, exit_code: b, elapsed_secs, truncated },
            ),
        ),
{
    let v = output::with_output(
        m,
        ActionOutput::Script { stdout, exit_code: a, elapsed_secs, truncated },
    );
    let w = output::with_output(
        m,
        ActionOutput::Script { stdout, exit_code: b, elapsed_secs, truncated },
    );
    let (x, y) = (output::view_sections(v), output::view_sections(w));
    parts::lemma_dec_int_differs(a as int, b as int);
    if x[17] == y[17] {
        parts::lemma_same_between(
            "exit_code"@ + ": "@,
            number::dec_int(a as int),
            number::dec_int(b as int),
            "\n"@,
        );
    }
    reveal_strlit("");
    assert(""@ =~= Seq::<char>::empty());
    parts::lemma_join_differs(x, y, 17);
}

/// The record of what was sent names the message, and that of what could not be sent
/// says why.
pub proof fn law_records_show_what_was_sent(m: ViewModel, text: String)
    requires
        text@.len() > 0,
    ensures
        stands_under(
            record_of(output::with_output(m, ActionOutput::SendMsg { msg_id: text })),
            "###"@,
            "msg_id"@,
            text@,
        ),
        stands_behind(
            record_of(output::with_output(m, ActionOutput::SendMsgFailed { error: text })),
            "error"@,
            text@,
        ),
        stands_behind(
            record_of(output::with_output(m, ActionOutput::Note { text })),
            "note"@,
            text@,
        ),
        stands_behind(
            record_of(output::with_output(m, ActionOutput::SetProfile { updated: text })),
            "note"@,
            text@,
        ),
{
    lemma_field_at(
        output::with_output(m, ActionOutput::SendMsg { msg_id: text }),
        20,
        "msg_id"@,
        text@,
    );
    lemma_note_at(
        output::with_output(m, ActionOutput::SendMsgFailed { error: text }),
        27,
        "error"@,
        text@,
    );
    lemma_note_at(output::with_output(m, ActionOutput::Note { text }), 28, "note"@, text@);
    lemma_note_at(
        output::with_output(m, ActionOutput::SetProfile { updated: text }),
        28,
        "note"@,
        text@,
    );
}

/// A message that was read is shown with its marker and its whole text, and with the
/// sender's name unless it is the user.
pub proof fn law_read_messages_are_shown(e: ReadMsgEntry)
    ensures
        search::has_suffix(
            output::msg_entry_text(e),
            " [MSG:"@ + e.timestamp@ + "]发来一条消息：\n\n"@ + e.content@,
        ),
        e.role@ == "user"@ ==> search::has_prefix(output::msg_entry_text(e), "user"@),
        e.role@ != "user"@ ==> search::has_text(output::msg_entry_text(e), e.sender@),
        e.role@ == "agent"@ && !e.is_known ==> search::has_prefix(
            output::msg_entry_text(e),
            "⚠️ 此消息来自未知发送者："@ + e.sender@ + "\n"@,
        ),
        (e.role@ != "agent"@ || e.is_known) && e.role@ != "user"@ ==> search::has_prefix(
            output::msg_entry_text(e),
            e.sender@,
        ),
{
    reveal_strlit("user");
    reveal_strlit("agent");
    let warning = "⚠️ 此消息来自未知发送者："@ + e.sender@ + "\n"@;
    let who = if e.role@ == "agent"@ && !e.is_known {
        warning + e.sender@
    } else if e.role@ == "user"@ {
        "user"@
    } else {
        e.sender@
    };
    let tail = " [MSG:"@ + e.timestamp@ + "]发来一条消息：\n\n"@ + e.content@;
    let text = output::msg_entry_text(e);
    parts::lemma_assoc(who, " [MSG:"@, e.timestamp@);
    parts::lemma_assoc(who, " [MSG:"@ + e.timestamp@, "]发来一条消息：\n\n"@);
    parts::lemma_assoc(who, " [MSG:"@ + e.timestamp@ + "]发来一条消息：\n\n"@, e.content@);
    assert(text == who + tail);
    assert(text.subrange(text.len() - tail.len(), text.len() as int) =~= tail);
    if e.role@ == "agent"@ && !e.is_known {
        assert("agent"@[0] != "user"@[0]);
        assert(text.subrange(0, warning.len() as int) =~= warning);
        parts::lemma_whole(e.sender@);
        parts::lemma_part_of_sum(warning, e.sender@, e.sender@);
        parts::lemma_part_of_sum(who, tail, e.sender@);
    } else if e.role@ == "user"@ {
        assert(text.subrange(0, 4) =~= "user"@);
    } else {
        assert(text.subrange(0, e.sender@.len() as int) =~= e.sender@);
        parts::lemma_whole(e.sender@);
        parts::lemma_part_of_sum(who, tail, e.sender@);
    }
}

/// The record of what was read shows every message, in the order in which they came.
pub proof fn law_records_show_what_was_read(m: ViewModel, entries: Vec<ReadMsgEntry>, i: int)
    requires
        0 <= i < entries@.len(),
    ensures
        search::has_text(
            record_of(output::with_output(m, ActionOutput::ReadMsg { entries })),
            " [MSG:"@ + entries@[i].timestamp@ + "]发来一条消息：\n\n"@ + entries@[i].content@,
        ),
{
    let v = output::with_output(m, ActionOutput::ReadMsg { entries });
    let shown = entries@.map_values(|e: ReadMsgEntry| output::msg_entry_text(e));
    let all = output::entries_text(entries@);
    let tail = " [MSG:"@ + entries@[i].timestamp@ + "]发来一条消息：\n\n"@ + entries@[i].content@;
    law_read_messages_are_shown(entries@[i]);
    assert(shown[i] == output::msg_entry_text(entries@[i]));
    assert(search::has_text(shown[i], tail));
    parts::lemma_part_of_join(shown, "\n"@, i);
    parts::lemma_part_of_part(all, shown[i], tail);
    reveal_strlit(" [MSG:");
    lemma_text_has_length(all, tail);
    lemma_note_at(v, 21, "messages"@, all);
    let line = "messages"@ + ": "@ + all + "\n"@;
    let noted = "// "@ + "messages"@ + "\n"@ + all + "\n"@;
    parts::lemma_part("messages"@ + ": "@, all, "\n"@);
    parts::lemma_part("// "@ + "messages"@ + "\n"@, all, "\n"@);
    if search::has_text(all, "\n"@) {
        parts::lemma_part_of_part(record_of(v), noted, all);
    } else {
        parts::lemma_part_of_part(record_of(v), line, all);
    }
    parts::lemma_part_of_part(record_of(v), all, tail);
}

proof fn lemma_text_has_length(s: Seq<char>, p: Seq<char>)
    requires
        search::has_text(s, p),
        p.len() > 0,
    ensures
        s.len() > 0,
{
    let i = choose|i: int| search::occurs_at(s, p, i);
}

/// The record of a replacement shows how often the text was found, and what it was
/// before and after; that of one that failed shows what was looked for.
pub proof fn law_records_show_replacements(
    m: ViewModel,
    match_count: usize,
    before: String,
    after: String,
)
    ensures
        ({
            let o = ActionOutput::ReplaceInFile { match_count, before, after };
            let text = record_of(output::with_output(m, o));
            &&& search::has_text(
                text,
                "match_count"@ + ": "@ + number::dec(match_count as nat) + "\n"@,
            )
            &&& before@.len() > 0 ==> stands_behind(text, "before_context"@, before@)
            &&& after@.len() > 0 ==> stands_behind(text, "after_context"@, after@)
        }),
        ({
            let o = ActionOutput::ReplaceInFileFailed { match_count, search_preview: before };
            let text = record_of(output::with_output(m, o));
            &&& search::has_text(
                text,
                "match_count"@ + ": "@ + number::dec(match_count as nat) + "\n"@,
            )
            &&& stands_behind(
                text,
                "error"@,
                "match_count="@ + number::dec(match_count as nat) + ", search: "@ + before@,
            )
        }),
{
    let v = output::with_output(
        m,
        ActionOutput::ReplaceInFile { match_count, before, after },
    );
    let line = "match_count"@ + ": "@ + number::dec(match_count as nat) + "\n"@;
    lemma_line_at(v, 22, line);
    if before@.len() > 0 {
        lemma_note_at(v, 23, "before_context"@, before@);
    }
    if after@.len() > 0 {
        lemma_note_at(v, 24, "after_context"@, after@);
    }
    let w = output::with_output(
        m,
        ActionOutput::ReplaceInFileFailed { match_count, search_preview: before },
    );
    lemma_line_at(w, 22, line);
    reveal_strlit("match_count=");
    let error = "match_count="@ + number::dec(match_count as nat) + ", search: "@ + before@;
    lemma_note_at(w, 27, "error"@, error);
}

/// The record of a file that was written shows what is in it, that of a summary where
/// it went, that of an unknown setting its name, and that of a new instance its
/// identifier and its name.
pub proof fn law_records_show_what_was_made(
    m: ViewModel,
    text: String,
    name: String,
    bytes: usize,
    lines: usize,
    msg_count: i64,
    msg_range: String,
)
    requires
        text@.len() > 0,
    ensures
        stands_behind(
            record_of(
                output::with_output(m, ActionOutput::WriteFile { skeleton: text, bytes, lines }),
            ),
            "skeleton"@,
            text@,
        ),
        stands_under(
            record_of(
                output::with_output(
                    m,
                    ActionOutput::Summary {
                        block_name: text,
                        knowledge_chars: bytes,
                        msg_count,
                        msg_range,
                    },
                ),
            ),
            "###"@,
            "block_name"@,
            text@,
        ),
        stands_behind(
            record_of(
                output::with_output(m, ActionOutput::SetProfileFailed { unknown_key: text }),
            ),
            "error"@,
            "unknown key: "@ + text@,
        ),
        ({
            let made = record_of(
                output::with_output(
                    m,
                    ActionOutput::CreateInstance { instance_id: text, name, knowledge_bytes: bytes },
                ),
            );
            &&& stands_under(made, "###"@, "created_instance_id"@, text@)
            &&& stands_behind(made, "note"@, "created: "@ + name@ + " ("@ + text@ + ")"@)
        }),
{
    lemma_note_at(
        output::with_output(m, ActionOutput::WriteFile { skeleton: text, bytes, lines }),
        19,
        "skeleton"@,
        text@,
    );
    lemma_field_at(
        output::with_output(
            m,
            ActionOutput::Summary { block_name: text, knowledge_chars: bytes, msg_count, msg_range },
        ),
        25,
        "block_name"@,
        text@,
    );
    reveal_strlit("unknown key: ");
    reveal_strlit("created: ");
    lemma_note_at(
        output::with_output(m, ActionOutput::SetProfileFailed { unknown_key: text }),
        27,
        "error"@,
        "unknown key: "@ + text@,
    );
    let made = output::with_output(
        m,
        ActionOutput::CreateInstance { instance_id: text, name, knowledge_bytes: bytes },
    );
    lemma_field_at(made, 26, "created_instance_id"@, text@);
    lemma_note_at(made, 28, "note"@, "created: "@ + name@ + " ("@ + text@ + ")"@);
}

/// The record of an action shows what went into it: the texts of the action, each
/// under its own title.
pub proof fn law_records_show_what_went_in(m: ViewModel, a: ActionModel)
    ensures
        ({
            let text = record_of(output::with_input(m, a));
            match a {
                ActionModel::Idle { timeout_secs: Some(n) } => search::has_text(
                    text,
                    "timeout_secs"@ + ": "@ + number::dec(n as nat) + "\n"@,
                ),
                ActionModel::SendMsg { recipient, content } => {
                    &&& recipient.len() > 0 ==> stands_under(text, "###"@, "recipient"@, recipient)
                    &&& content.len() > 0 ==> stands_behind(text, "message"@, content)
                },
                ActionModel::Thinking { content } => content.len() > 0 ==> stands_behind(
                    text,
                    "content"@,
                    content,
                ),
                ActionModel::Script { content } => content.len() > 0 ==> stands_behind(
                    text,
                    "content"@,
                    content,
                ),
                ActionModel::Summary { content } => content.len() > 0 ==> stands_behind(
                    text,
                    "content"@,
                    content,
                ),
                ActionModel::WriteFile { path, content } => {
                    &&& path.len() > 0 ==> stands_under(text, "###"@, "file_path"@, path)
                    &&& content.len() > 0 ==> stands_behind(text, "file_content"@, content)
                },
                ActionModel::ReplaceInFile { path, search, replace } => {
                    &&& path.len() > 0 ==> stands_under(text, "###"@, "file_path"@, path)
                    &&& search.len() > 0 ==> stands_behind(text, "search_text"@, search)
                    &&& replace.len() > 0 ==> stands_behind(text, "replace_text"@, replace)
                },
                ActionModel::SetProfile { content } => content.len() > 0 ==> stands_under(
                    text,
                    "###"@,
                    "profile_settings"@,
                    content,
                ),
                ActionModel::CreateInstance { name, knowledge } => {
                    &&& name.len() > 0 ==> stands_under(text, "###"@, "instance_name"@, name)
                    &&& knowledge.len() > 0 ==> stands_behind(text, "knowledge"@, knowledge)
                },
                ActionModel::Distill { target_action_id, summary } => {
                    &&& target_action_id.len() > 0 ==> stands_under(
                        text,
                        "###"@,
                        "target_action_id"@,
                        target_action_id,
                    )
                    &&& summary.len() > 0 ==> stands_behind(text, "distill_summary"@, summary)
                },
                _ => true,
            }
        }),
{
    let v = output::with_input(m, a);
    match a {
        ActionModel::Idle { timeout_secs: Some(n) } => {
            lemma_line_at(v, 10, "timeout_secs"@ + ": "@ + number::dec(n as nat) + "\n"@);
        },
        ActionModel::SendMsg { recipient, content } => {
            if recipient.len() > 0 {
                lemma_field_at(v, 4, "recipient"@, recipient);
            }
            if content.len() > 0 {
                lemma_note_at(v, 5, "message"@, content);
            }
        },
        ActionModel::Thinking { content } => {
            if content.len() > 0 {
                lemma_note_at(v, 3, "content"@, content);
            }
        },
        ActionModel::Script { content } => {
            if content.len() > 0 {
                lemma_note_at(v, 3, "content"@, content);
            }
        },
        ActionModel::Summary { content } => {
            if content.len() > 0 {
                lemma_note_at(v, 3, "content"@, content);
            }
        },
        ActionModel::WriteFile { path, content } => {
            if path.len() > 0 {
                lemma_field_at(v, 6, "file_path"@, path);
            }
            if content.len() > 0 {
                lemma_note_at(v, 7, "file_content"@, content);
            }
        },
        ActionModel::ReplaceInFile { path, search, replace } => {
            if path.len() > 0 {
                lemma_field_at(v, 6, "file_path"@, path);
            }
            if search.len() > 0 {
                lemma_note_at(v, 8, "search_text"@, search);
            }
            if replace.len() > 0 {
                lemma_note_at(v, 9, "replace_text"@, replace);
            }
        },
        ActionModel::SetProfile { content } => {
            if content.len() > 0 {
                lemma_field_at(v, 15, "profile_settings"@, content);
            }
        },
        ActionModel::CreateInstance { name, knowledge } => {
            if name.len() > 0 {
                lemma_field_at(v, 13, "instance_name"@, name);
            }
            if knowledge.len() > 0 {
                lemma_note_at(v, 14, "knowledge"@, knowledge);
            }
        },
        ActionModel::Distill { target_action_id, summary } => {
            if target_action_id.len() > 0 {
                lemma_field_at(v, 11, "target_action_id"@, target_action_id);
            }
            if summary.len() > 0 {
                lemma_note_at(v, 12, "distill_summary"@, summary);
            }
        },
        _ => {},
    }
}

/// What comes out of an action is added to what went into it, and changes nothing of
/// it; and what goes in changes nothing of what came out.
pub proof fn law_what_comes_out_keeps_what_went_in(m: ViewModel, a: ActionModel, o: ActionOutput)
    ensures
        output::with_input(output::with_output(m, o), a) == output::with_output(
            output::with_input(m, a),
            o,
        ),
        output::with_output(m, o).action_id == m.action_id,
        output::with_output(m, o).action_type == m.action_type,
        output::with_output(m, o).started_at == m.started_at,
        output::with_input(m, a).action_id == m.action_id,
        output::with_input(m, a).action_type == m.action_type,
        output::with_input(m, a).started_at == m.started_at,
{
}

/// A record that was distilled shows what it was distilled to and nothing of what the
/// action did; one that still runs says so and shows no result.
pub proof fn law_rows_show_how_far_they_are(
    row: ActionLogRow,
    a: Option<ActionModel>,
    o: Option<ActionOutput>,
)
    ensures
        ({
            let v = output::row_view(row, a, o);
            &&& v.action_id == row.action_id@
            &&& v.action_type == row.action_type@
            &&& v.started_at == Some(row.created_at@)
            &&& row.status@ == "distilled"@ ==> {
                &&& v.content is None
                &&& v.stdout is None
                &&& v.note is None
                &&& row.distill_text is Some && row.distill_text->0@.len() > 0 ==> stands_behind(
                    record_of(v),
                    "distill_text"@,
                    row.distill_text->0@,
                )
            }
            &&& row.status@ != "distilled"@ && row.status@ != "done"@ ==> {
                &&& v.stdout is None
                &&& v.exit_code is None
                &&& v.error is None
                &&& v.note == Some("---action executing, result pending---"@)
            }
        }),
{
    reveal_strlit("distilled");
    reveal_strlit("done");
    assert("distilled"@.len() != "done"@.len());
    let v = output::row_view(row, a, o);
    if row.status@ == "distilled"@ && row.distill_text is Some && row.distill_text->0@.len() > 0 {
        lemma_note_at(v, 29, "distill_text"@, row.distill_text->0@);
    }
}

/// A row whose action is done shows what went in and what came out, where both can be
/// read.
pub proof fn law_done_rows_show_everything(row: ActionLogRow, a: ActionModel, o: ActionOutput)
    requires
        row.status@ == "done"@,
        row.action_input@.len() > 0,
        row.action_output is Some,
        row.action_output->0@.len() > 0,
    ensures
        ({
            let v = output::row_view(row, Some(a), Some(o));
            let base = ViewModel {
                started_at: Some(row.created_at@),
                ..output::empty_view(row.action_id@, row.action_type@)
            };
            v == output::with_output(output::with_input(base, a), o)
        }),
{
}

/// A short output is shown whole; of a long one its start and its end are shown, and
/// how much there was.
pub proof fn law_outputs_are_shown(text: Seq<char>)
    ensures
        bytes::text_bytes(text) <= 102400 ==> output::shown_stdout(text) == text,
        bytes::text_bytes(text) > 102400 ==> {
            let shown = output::shown_stdout(text);
            &&& bytes::byte_prefix(text, 51200).is_prefix_of(shown)
            &&& search::has_suffix(shown, bytes::byte_suffix(text, 51200))
            &&& search::has_text(
                shown,
                "[truncated: "@ + number::dec(bytes::text_bytes(text)) + " bytes total"@,
            )
        },
{
    let head = bytes::byte_prefix(text, 51200);
    let tail = bytes::byte_suffix(text, 51200);
    let n = number::dec(bytes::text_bytes(text));
    if bytes::text_bytes(text) > 102400 {
        let shown = output::shown_stdout(text);
        let rest = "...\n\n[truncated: "@ + n + " bytes total, showing first and last ~"@
            + number::dec(51200) + " bytes]\n\n..."@;
        let lead = "...\n\n[truncated: "@ + n + " bytes total, showing first and last ~"@;
        parts::lemma_assoc(head, "...\n\n[truncated: "@, n);
        parts::lemma_assoc(
            head,
            "...\n\n[truncated: "@ + n,
            " bytes total, showing first and last ~"@,
        );
        parts::lemma_assoc(head, lead, number::dec(51200));
        parts::lemma_assoc(head, lead + number::dec(51200), " bytes]\n\n..."@);
        assert(shown == head + rest + tail);
        assert(shown.subrange(shown.len() - tail.len(), shown.len() as int) =~= tail);
        assert(head =~= shown.take(head.len() as int));
        reveal_strlit("...\n\n[truncated: ");
        reveal_strlit("[truncated: ");
        reveal_strlit(" bytes total, showing first and last ~");
        reveal_strlit(" bytes total");
        let said = "[truncated: "@ + n + " bytes total"@;
        assert(lead.subrange(5, (5 + said.len()) as int) =~= said);
        assert(search::occurs_at(lead, said, 5));
        parts::lemma_part_of_sum(lead, number::dec(51200), said);
        parts::lemma_part_of_sum(lead + number::dec(51200), " bytes]\n\n..."@, said);
        parts::lemma_part_of_sum(head, rest, said);
        parts::lemma_part_of_sum(head + rest, tail, said);
    }
}

/// The record that is rendered of a script's end holds the line with its exit code, and
/// records of scripts that differ in their exit codes alone are rendered differently.
pub proof fn law_rendered_records_show_the_exit_code(
    before: ViewModel,
    stdout: String,
    a: i32,
    b: i32,
    elapsed_secs: String,
    truncated: bool,
    v: ActionView,
    w: ActionView,
    x: String,
    y: String,
)
    requires
        v@ == output::with_output(
            before,
            ActionOutput::Script { stdout, exit_code: a, elapsed_secs, truncated },
        ),
        w@ == output::with_output(
            before,
            ActionOutput::Script { stdout, exit_code: b, elapsed_secs, truncated },
        ),
        call_ensures(ActionView::to_markdown, (&v,), x),
        call_ensures(ActionView::to_markdown, (&w,), y),
    ensures
        search::has_text(x@, "exit_code: "@ + number::dec_int(a as int) + "\n"@),
        a != b ==> x@ != y@,
{
    law_records_show_how_scripts_ended(before, stdout, a, elapsed_secs, truncated);
    if a != b {
        law_records_tell_endings_apart(before, stdout, a, b, elapsed_secs, truncated);
    }
}

} // verus!

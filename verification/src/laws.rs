//! What the chat, the files and the clock keep, stated on their contents.
use vstd::prelude::*;

use crate::agent::memory;
use crate::chat;
use crate::chat::ChatHistory;
use crate::clock;
use crate::codec;
use crate::legacy;
use crate::legacy::{migrate_current, migrate_text, CurrentMigration, TextMigration};
use crate::logging::{is_expired, log_cutoff, should_rotate, LogFile};
use crate::model;
use crate::model::{InboxMessage, Message, RangeMessage};
use crate::persist::files;
use crate::persist::files::EffectModel;
use crate::startup::resolve_dir;
use crate::text::bytes;
use crate::text::number;
use crate::text::order;
use crate::text::path;
use crate::text::search;
use crate::text::space;

verus! {

/// What is picked from the messages is every message that is meant, in the order of
/// the chat, and no other.
pub proof fn law_picking_keeps_the_order(ms: Seq<Message>, f: spec_fn(Message) -> bool)
    ensures
        chat::all_picked(ms, f) == ms.filter(f),
    decreases ms.len(),
{
    reveal(Seq::filter);
    if ms.len() > 0 {
        let first = ms.drop_last();
        law_picking_keeps_the_order(first, f);
        lemma_picked_from(ms, first, first.len() as int, f);
    }
}

proof fn lemma_picked_from(ms: Seq<Message>, ns: Seq<Message>, n: int, f: spec_fn(Message) -> bool)
    requires
        0 <= n <= ns.len() <= ms.len(),
        forall|i: int| 0 <= i < n ==> ms[i] == ns[i],
    ensures
        chat::picked(ms, n, f) == chat::picked(ns, n, f),
    decreases n,
{
    if n > 0 {
        lemma_picked_from(ms, ns, n - 1, f);
    }
}

pub(crate) proof fn lemma_picked_has(ms: Seq<Message>, n: int, f: spec_fn(Message) -> bool, i: int)
    requires
        0 <= i < n <= ms.len(),
        f(ms[i]),
    ensures
        chat::picked(ms, n, f).contains(ms[i]),
    decreases n,
{
    let all = chat::picked(ms, n, f);
    let before = chat::picked(ms, n - 1, f);
    if i == n - 1 {
        assert(all[all.len() - 1] == ms[i]);
    } else {
        lemma_picked_has(ms, n - 1, f, i);
        let k = choose|k: int| 0 <= k < before.len() && before[k] == ms[i];
        assert(all[k] == ms[i]);
    }
}

/// Every unread message of the user is handed out when the inbox is read, with its
/// sender, its time and its whole text, and is no longer unread afterwards; all that
/// was said stays in the chat.
pub proof fn law_reading_hands_out_everything(
    before: Seq<Message>,
    after: Seq<Message>,
    r: Seq<InboxMessage>,
    i: int,
)
    requires
        chat::read_all(before, "user"@, after),
        chat::are_inbox(r, chat::all_picked(before, chat::unread_from("user"@))),
        0 <= i < before.len(),
    ensures
        before[i].role@ == "user"@ && before[i].read_status@ == "unread"@ ==> {
            &&& exists|k: int|
                0 <= k < r.len() && (#[trigger] r[k]).id == before[i].id && r[k].sender@
                    == before[i].sender@ && r[k].content@ == before[i].content@ && r[k].timestamp@
                    == before[i].timestamp@
            &&& after[i].read_status@ != "unread"@
        },
        before[i].role@ != "user"@ ==> after[i] == before[i],
        after[i].content@ == before[i].content@,
        after[i].sender@ == before[i].sender@,
        after[i].role@ == before[i].role@,
        after[i].timestamp@ == before[i].timestamp@,
        after[i].id == before[i].id,
{
    let f = chat::unread_from("user"@);
    let said = chat::all_picked(before, f);
    reveal_strlit("read");
    reveal_strlit("unread");
    assert("read"@.len() == 4);
    assert("unread"@.len() == 6);
    assert(f(before[i]) == (before[i].role@ == "user"@ && before[i].read_status@ == "unread"@));
    if f(before[i]) {
        lemma_picked_has(before, before.len() as int, f, i);
        let k = choose|k: int| 0 <= k < said.len() && said[k] == before[i];
        assert(chat::is_inbox(r[k], said[k]));
    }
}

/// A new message is the last one of the chat, under a number that none had before, and
/// what was there before it stays as it is.
pub proof fn law_new_messages_come_last(
    before: ChatHistory,
    after: ChatHistory,
    sender: Seq<char>,
    role: Seq<char>,
    content: Seq<char>,
    timestamp: Seq<char>,
    read_status: Seq<char>,
    msg_type: Seq<char>,
    i: int,
)
    requires
        before.wf(),
        after.added(before, sender, role, content, timestamp, read_status, msg_type),
        0 <= i < before.messages@.len(),
    ensures
        after.messages@[i] == before.messages@[i],
        after.messages@.last().content@ == content,
        after.messages@.last().sender@ == sender,
        after.messages@.last().role@ == role,
        after.messages@.last().timestamp@ == timestamp,
        after.messages@.last().read_status@ == read_status,
        after.messages@.last().msg_type@ == msg_type,
        after.messages@.last().id > before.messages@[i].id,
{
    assert(after.messages@.drop_last()[i] == before.messages@[i]);
}

/// The last messages are the end of the chat: as many as are asked for, or all where
/// there are no more.
pub proof fn law_the_last_messages_are_the_end(ms: Seq<Message>, limit: int)
    requires
        0 <= limit,
    ensures
        chat::last_of(ms, limit).len() == (if limit < ms.len() {
            limit
        } else {
            ms.len() as int
        }),
        forall|k: int|
            0 <= k < chat::last_of(ms, limit).len() ==> #[trigger] chat::last_of(ms, limit)[k]
                == ms[ms.len() - chat::last_of(ms, limit).len() + k],
{
}

/// A stretch of the chat reaches from its first to its last moment, both of them within
/// it; what is earlier or later is not.
pub proof fn law_stretches_hold_both_ends(start: Seq<char>, end: Seq<char>, m: Message)
    requires
        !order::comes_before(end, start),
    ensures
        m.timestamp@ == start ==> chat::between(start, end)(m),
        m.timestamp@ == end ==> chat::between(start, end)(m),
        order::comes_before(m.timestamp@, start) ==> !chat::between(start, end)(m),
        order::comes_before(end, m.timestamp@) ==> !chat::between(start, end)(m),
{
    law_texts_are_ordered(start, end, start);
    law_texts_are_ordered(end, start, end);
}

proof fn lemma_first_difference(a: Seq<char>, b: Seq<char>, i: int)
    requires
        0 <= i <= a.len(),
        i <= b.len(),
        forall|k: int| 0 <= k < i ==> a[k] == b[k],
    ensures
        order::before_from(a, b, i) <==> (exists|k: int|
            #![trigger a[k]]
            i <= k < a.len() && k < b.len() && a[k] < b[k] && (forall|j: int|
                0 <= j < k ==> a[j] == b[j])) || (a.len() < b.len() && (forall|j: int|
            0 <= j < a.len() ==> a[j] == b[j])),
    decreases a.len() - i,
{
    if i < a.len() && i < b.len() {
        if a[i] == b[i] {
            lemma_first_difference(a, b, i + 1);
        }
    }
}

/// A text comes before another where its character is the lesser one at the first place
/// where they differ, or where it is a true beginning of the other.
pub proof fn law_texts_are_ordered_by_their_first_difference(a: Seq<char>, b: Seq<char>)
    ensures
        order::comes_before(a, b) <==> (exists|k: int|
            #![trigger a[k]]
            0 <= k < a.len() && k < b.len() && a[k] < b[k] && (forall|j: int|
                0 <= j < k ==> a[j] == b[j])) || (a.len() < b.len() && (forall|j: int|
            0 <= j < a.len() ==> a[j] == b[j])),
{
    lemma_first_difference(a, b, 0);
}

proof fn lemma_order_from(a: Seq<char>, b: Seq<char>, i: int)
    requires
        0 <= i <= a.len(),
        i <= b.len(),
        forall|k: int| 0 <= k < i ==> a[k] == b[k],
    ensures
        !order::before_from(a, a, i),
        order::before_from(a, b, i) ==> !order::before_from(b, a, i),
        !order::before_from(a, b, i) && !order::before_from(b, a, i) ==> a == b,
    decreases a.len() - i,
{
    if i < a.len() && i < b.len() {
        if a[i] == b[i] {
            lemma_order_from(a, b, i + 1);
        } else {
            lemma_irreflexive(a, i);
        }
    } else {
        lemma_irreflexive(a, i);
        if !order::before_from(a, b, i) && !order::before_from(b, a, i) {
            assert(a =~= b);
        }
    }
}

proof fn lemma_irreflexive(a: Seq<char>, i: int)
    requires
        0 <= i,
    ensures
        !order::before_from(a, a, i),
    decreases a.len() - i,
{
    if i < a.len() {
        lemma_irreflexive(a, i + 1);
    }
}

proof fn lemma_transitive(a: Seq<char>, b: Seq<char>, c: Seq<char>, i: int)
    requires
        0 <= i,
        order::before_from(a, b, i),
        order::before_from(b, c, i),
    ensures
        order::before_from(a, c, i),
    decreases a.len() - i,
{
    if i < a.len() && i < b.len() && i < c.len() && a[i] == b[i] && b[i] == c[i] {
        lemma_transitive(a, b, c, i + 1);
    }
}

/// Of two different texts exactly one comes before the other, and what comes before
/// what comes before a text comes before it too.
pub proof fn law_texts_are_ordered(a: Seq<char>, b: Seq<char>, c: Seq<char>)
    ensures
        !order::comes_before(a, a),
        order::comes_before(a, b) ==> !order::comes_before(b, a),
        a != b ==> order::comes_before(a, b) || order::comes_before(b, a),
        order::comes_before(a, b) && order::comes_before(b, c) ==> order::comes_before(a, c),
{
    lemma_order_from(a, b, 0);
    if order::comes_before(a, b) && order::comes_before(b, c) {
        lemma_transitive(a, b, c, 0);
    }
}

/// A file holds what was last written to it, and what was added to it behind that; one
/// that was removed holds nothing; and no other file is touched.
pub proof fn law_files_hold_what_was_written(
    disk: Map<Seq<char>, Seq<char>>,
    path: Seq<char>,
    other: Seq<char>,
    content: Seq<char>,
    more: Seq<char>,
)
    ensures
        ({
            let written = files::applied(disk, EffectModel::Write { path, content });
            let added = files::applied(written, EffectModel::Append { path, content: more });
            let removed = files::applied(added, EffectModel::Remove { path });
            &&& files::content_at(written, path) == content
            &&& files::content_at(added, path) == content + more
            &&& files::content_at(removed, path).len() == 0
            &&& !removed.contains_key(path)
            &&& other != path ==> {
                &&& files::content_at(written, other) == files::content_at(disk, other)
                &&& files::content_at(added, other) == files::content_at(disk, other)
                &&& files::content_at(removed, other) == files::content_at(disk, other)
                &&& removed.contains_key(other) == disk.contains_key(other)
            }
        }),
        !disk.contains_key(path) ==> files::content_at(
            files::applied(disk, EffectModel::Append { path, content }),
            path,
        ) == content,
{
    assert(Seq::<char>::empty() + content =~= content);
}

/// What is added to the current record stands at its end, on a line of its own, and all
/// that was there stays in front of it.
pub proof fn law_records_only_grow(existing: Seq<char>, text: Seq<char>)
    ensures
        search::has_prefix(memory::appended(existing, text), existing),
        search::has_suffix(memory::appended(existing, text), text),
        existing.len() == 0 ==> memory::appended(existing, text) == text,
        existing.len() > 0 ==> {
            &&& memory::appended(existing, text).len() == existing.len() + 1 + text.len()
            &&& memory::appended(existing, text)[existing.len() as int] == '\n'
        },
{
    reveal_strlit("\n");
    let r = memory::appended(existing, text);
    assert(r.subrange(0, existing.len() as int) =~= existing);
    assert(r.subrange(r.len() - text.len(), r.len() as int) =~= text);
}

/// A path within a directory starts with the directory and ends with the path, with one
/// slash between them; two paths of one directory are the same only where the same was
/// asked for.
pub proof fn law_paths_stay_apart(dir: Seq<char>, a: Seq<char>, b: Seq<char>)
    ensures
        search::has_prefix(path::joined_path(dir, a), dir),
        search::has_suffix(path::joined_path(dir, a), a),
        a != b ==> path::joined_path(dir, a) != path::joined_path(dir, b),
        dir.len() > 0 && dir.last() == '/' ==> path::joined_path(dir, a) == dir + a,
        dir.len() > 0 && dir.last() != '/' ==> path::joined_path(dir, a) == dir.push('/') + a,
        dir.len() == 0 ==> path::joined_path(dir, a) == a,
{
    reveal_strlit("/");
    assert("/"@.len() == 1);
    let r = path::joined_path(dir, a);
    let q = path::joined_path(dir, b);
    assert(r.subrange(0, dir.len() as int) =~= dir);
    assert(r.subrange(r.len() - a.len(), r.len() as int) =~= a);
    if dir.len() > 0 {
        let end = dir.subrange(dir.len() - 1, dir.len() as int);
        assert(end[0] == dir.last());
        if dir.last() == '/' {
            assert(end =~= "/"@);
        } else {
            assert(end[0] != "/"@[0]);
            assert(dir.push('/') =~= dir + "/"@);
        }
    } else {
        assert(r =~= a);
    }
    if r == q {
        let front = r.len() - a.len();
        assert(a.len() == b.len());
        assert(r.skip(front) =~= a);
        assert(q.skip(front) =~= b);
    }
}

/// The block that stands under a name is found under that name.
pub proof fn law_blocks_are_found_by_name(sessions_dir: Seq<char>, name: Seq<char>)
    requires
        name.len() > 0,
        !search::has_text(name + ".jsonl"@, "/"@),
    ensures
        memory::block_name(sessions_dir, memory::block_path(sessions_dir, name)) == Some(name),
{
    reveal_strlit(".jsonl");
    let file = name + ".jsonl"@;
    let prefix = path::joined_path(sessions_dir, Seq::empty());
    let p = memory::block_path(sessions_dir, name);
    assert(p =~= prefix + file);
    assert(p.subrange(0, prefix.len() as int) =~= prefix);
    assert(p.skip(prefix.len() as int) =~= file);
    assert(file.subrange(file.len() - 6, file.len() as int) =~= ".jsonl"@);
    assert(file.take(file.len() - 6) =~= name);
}

proof fn lemma_month_end(year: int, month: int)
    requires
        1 <= month,
    ensures
        clock::days_before_month(year, month + 1) == clock::days_before_month(year, month)
            + clock::month_days(year, month),
{
}

/// The clock goes on by a second, a minute, an hour and a day, also from the end of a
/// month to the next one and from the end of a year to the next one; it starts with
/// 1970.
pub proof fn law_the_clock_goes_on(
    year: int,
    month: int,
    day: int,
    hour: int,
    minute: int,
    second: int,
)
    requires
        1 <= month,
    ensures
        clock::epoch_millis(1970, 1, 1, 0, 0, 0) == 0,
        clock::epoch_millis(year, month, day, hour, minute, second + 1) == clock::epoch_millis(
            year,
            month,
            day,
            hour,
            minute,
            second,
        ) + 1000,
        clock::epoch_millis(year, month, day, hour, minute + 1, 0) == clock::epoch_millis(
            year,
            month,
            day,
            hour,
            minute,
            59,
        ) + 1000,
        clock::epoch_millis(year, month, day, hour + 1, 0, 0) == clock::epoch_millis(
            year,
            month,
            day,
            hour,
            59,
            59,
        ) + 1000,
        clock::epoch_millis(year, month, day + 1, 0, 0, 0) == clock::epoch_millis(
            year,
            month,
            day,
            23,
            59,
            59,
        ) + 1000,
        clock::epoch_millis(year, month + 1, 1, 0, 0, 0) == clock::epoch_millis(
            year,
            month,
            clock::month_days(year, month),
            23,
            59,
            59,
        ) + 1000,
        clock::epoch_millis(year + 1, 1, 1, 0, 0, 0) == clock::epoch_millis(
            year,
            12,
            31,
            23,
            59,
            59,
        ) + 1000,
{
    lemma_month_end(year, month);
    lemma_year_end(year);
}

proof fn lemma_fourths(y: int)
    ensures
        y / 4 - (y - 1) / 4 == (if y % 4 == 0 {
            1int
        } else {
            0int
        }),
{
}

proof fn lemma_hundredths(y: int)
    ensures
        y / 100 - (y - 1) / 100 == (if y % 100 == 0 {
            1int
        } else {
            0int
        }),
{
}

proof fn lemma_four_hundredths(y: int)
    ensures
        y / 400 - (y - 1) / 400 == (if y % 400 == 0 {
            1int
        } else {
            0int
        }),
{
}

proof fn lemma_leap_multiples(y: int)
    ensures
        y % 100 == 0 ==> y % 4 == 0,
        y % 400 == 0 ==> y % 100 == 0,
{
}

proof fn lemma_length_of_year(year: int)
    ensures
        clock::days_before_month(year, 12) + 31 == 337 + clock::month_days(year, 2),
{
    law_months_have_their_days(year);
    assert(clock::days_before_month(year, 1) == 0);
    lemma_month_end(year, 1);
    lemma_month_end(year, 2);
    lemma_month_end(year, 3);
    lemma_month_end(year, 4);
    lemma_month_end(year, 5);
    lemma_month_end(year, 6);
    lemma_month_end(year, 7);
    lemma_month_end(year, 8);
    lemma_month_end(year, 9);
    lemma_month_end(year, 10);
    lemma_month_end(year, 11);
}

proof fn lemma_february(year: int)
    ensures
        clock::month_days(year, 2) == 28 + (year / 4 - (year - 1) / 4) - (year / 100 - (year - 1)
            / 100) + (year / 400 - (year - 1) / 400),
{
    lemma_fourths(year);
    lemma_hundredths(year);
    lemma_four_hundredths(year);
    lemma_leap_multiples(year);
    law_leap_years(year);
}

proof fn lemma_year_end(year: int)
    ensures
        clock::days_before_month(year, 12) + 31 == clock::days_before_year(year + 1)
            - clock::days_before_year(year),
{
    lemma_length_of_year(year);
    lemma_february(year);
}

/// The months have the days that the calendar gives them; only February depends on the
/// year.
pub proof fn law_months_have_their_days(year: int)
    ensures
        clock::month_days(year, 1) == 31,
        clock::month_days(year, 2) == 28 || clock::month_days(year, 2) == 29,
        clock::month_days(year, 3) == 31,
        clock::month_days(year, 4) == 30,
        clock::month_days(year, 5) == 31,
        clock::month_days(year, 6) == 30,
        clock::month_days(year, 7) == 31,
        clock::month_days(year, 8) == 31,
        clock::month_days(year, 9) == 30,
        clock::month_days(year, 10) == 31,
        clock::month_days(year, 11) == 30,
        clock::month_days(year, 12) == 31,
{
}

/// A year is a leap year where it can be divided by four, but of the full centuries only
/// where it can be divided by four hundred.
pub proof fn law_leap_years(year: int)
    ensures
        year % 4 != 0 ==> clock::month_days(year, 2) == 28,
        year % 4 == 0 && year % 100 != 0 ==> clock::month_days(year, 2) == 29,
        year % 4 == 0 && year % 100 == 0 && year % 400 != 0 ==> clock::month_days(year, 2) == 28,
        year % 4 == 0 && year % 400 == 0 ==> clock::month_days(year, 2) == 29,
{
}

/// A log is removed exactly where it was last touched longer ago than logs are kept; one
/// whose time is not known stays.
pub proof fn law_old_logs_are_removed(
    f: LogFile,
    now_secs: u64,
    retention_days: u64,
    cutoff: u64,
    r: bool,
)
    requires
        call_ensures(log_cutoff, (now_secs, retention_days), cutoff),
        call_ensures(is_expired, (&f, cutoff), r),
    ensures
        r <==> f.modified_secs is Some && f.modified_secs->0 + retention_days * 86_400 < now_secs,
{
}

/// A log is begun anew exactly where it has outgrown its limit, in megabytes.
pub proof fn law_large_logs_are_rotated(size: u64, max_size_mb: u64, r: bool)
    requires
        call_ensures(should_rotate, (size, max_size_mb), r),
    ensures
        r <==> size > max_size_mb * 1024 * 1024,
{
}

proof fn lemma_block_files(names: Seq<Seq<char>>, n: int, i: int)
    requires
        0 <= i < n <= names.len(),
        names[i].len() > 6,
        search::has_suffix(names[i], ".jsonl"@),
    ensures
        legacy::block_files(names, n).contains(names[i]),
    decreases n,
{
    let all = legacy::block_files(names, n);
    let before = legacy::block_files(names, n - 1);
    if i == n - 1 {
        assert(all[all.len() - 1] == names[i]);
    } else {
        lemma_block_files(names, n - 1, i);
        let k = choose|k: int| 0 <= k < before.len() && before[k] == names[i];
        assert(all[k] == names[i]);
    }
}

/// Every file of a session is taken over.
pub proof fn law_every_session_file_is_taken_over(names: Seq<Seq<char>>, i: int, name: Seq<char>)
    requires
        0 <= i < names.len(),
        names[i] == name + ".jsonl"@,
        name.len() > 0,
    ensures
        legacy::block_files(names, names.len() as int).contains(names[i]),
{
    reveal_strlit(".jsonl");
    let f = names[i];
    assert(f.subrange(f.len() - 6, f.len() as int) =~= ".jsonl"@);
    lemma_block_files(names, names.len() as int, i);
}

/// Every line of a session with something on it is taken over, without the space around
/// it.
pub proof fn law_every_filled_line_is_taken_over(all: Seq<Seq<char>>, n: int, i: int)
    requires
        0 <= i < n <= all.len(),
        space::trimmed(all[i]).len() > 0,
    ensures
        legacy::filled_lines(all, n).contains(space::trimmed(all[i])),
    decreases n,
{
    let lines = legacy::filled_lines(all, n);
    let before = legacy::filled_lines(all, n - 1);
    let line = space::trimmed(all[i]);
    if i == n - 1 {
        assert(lines[lines.len() - 1] == line);
    } else {
        law_every_filled_line_is_taken_over(all, n - 1, i);
        let k = choose|k: int| 0 <= k < before.len() && before[k] == line;
        assert(lines[k] == line);
    }
}

/// An old text is taken over exactly where there is none yet and it has something in it.
pub proof fn law_old_texts_never_overwrite(db_content: Seq<char>, file: Seq<char>)
    ensures
        legacy::takes_over(db_content, Some(file)) <==> db_content.len() == 0 && space::trimmed(
            file,
        ).len() > 0,
        !legacy::takes_over(db_content, None),
{
}

/// A moment is read from the places where it is written: four characters for the year and
/// two each for the month, the day, the hour, the minute and the second.
pub proof fn law_moments_are_read(
    ts: Seq<char>,
    year: i32,
    month: u32,
    day: u32,
    hour: u32,
    minute: u32,
    second: u32,
)
    requires
        vstd::utf8::is_ascii_chars(ts),
        ts.len() >= 14,
        number::i32_of(ts.subrange(0, 4)) == Some(year),
        number::u32_of(ts.subrange(4, 6)) == Some(month),
        number::u32_of(ts.subrange(6, 8)) == Some(day),
        number::u32_of(ts.subrange(8, 10)) == Some(hour),
        number::u32_of(ts.subrange(10, 12)) == Some(minute),
        number::u32_of(ts.subrange(12, 14)) == Some(second),
        clock::is_moment(
            year as int,
            month as int,
            day as int,
            hour as int,
            minute as int,
            second as int,
        ),
    ensures
        chat::timestamp_millis(ts) == Some(
            clock::epoch_millis(
                year as int,
                month as int,
                day as int,
                hour as int,
                minute as int,
                second as int,
            ) as i64,
        ),
        chat::can_be_cut(ts),
{
    bytes::lemma_ascii_bytes(ts);
    bytes::lemma_ascii_at_byte(ts, 0, 0);
    bytes::lemma_ascii_at_byte(ts, 4, 0);
    bytes::lemma_ascii_at_byte(ts, 6, 0);
    bytes::lemma_ascii_at_byte(ts, 8, 0);
    bytes::lemma_ascii_at_byte(ts, 10, 0);
    bytes::lemma_ascii_at_byte(ts, 12, 0);
    bytes::lemma_ascii_at_byte(ts, 14, 0);
}

/// What is set counts before the environment, and the environment before the default.
pub proof fn law_the_environment_comes_before_the_default(
    field: Seq<char>,
    env: Seq<char>,
    default: Seq<char>,
)
    ensures
        field.len() > 0 ==> model::filled_in(field, Some(env), default) == field,
        field.len() == 0 ==> model::filled_in(field, Some(env), default) == env,
        field.len() == 0 ==> model::filled_in(field, None, default) == default,
{
}

/// A directory is taken from the environment, else from the arguments, else within the
/// base directory.
pub proof fn law_directories_are_taken_in_order(
    env: Option<&str>,
    arg: Option<&String>,
    base: &str,
    default: &str,
    r: String,
)
    requires
        call_ensures(resolve_dir, (env, arg, base, default), r),
    ensures
        env is Some ==> r@ == env->0@,
        env is None && arg is Some ==> r@ == arg->0@,
        env is None && arg is None ==> search::has_prefix(r@, base@) && search::has_suffix(
            r@,
            default@,
        ),
{
    law_paths_stay_apart(base@, default@, default@);
}

/// An old text is taken over word for word, and never over one that is there already.
pub proof fn law_old_texts_are_taken_over_whole(
    db_content: &str,
    file: &str,
    rendered: &str,
    timestamp: &str,
    r: TextMigration,
    c: CurrentMigration,
)
    requires
        call_ensures(migrate_text, (db_content, Some(file)), r),
        call_ensures(migrate_current, (Some(file), rendered, timestamp), c),
    ensures
        r is Import <==> db_content@.len() == 0 && space::trimmed(file@).len() > 0,
        r matches TextMigration::Import { content } ==> content@ == file@,
        c is Import <==> rendered@.len() == 0 && space::trimmed(file@).len() > 0,
        c is SetAside <==> space::trimmed(file@).len() == 0,
        c matches CurrentMigration::Import { action_id, content } ==> content@ == file@
            && search::has_prefix(action_id@, timestamp@),
{
    if let CurrentMigration::Import { action_id, content } = c {
        assert(action_id@.subrange(0, timestamp@.len() as int) =~= timestamp@);
    }
}

/// Every byte is written as two digits, the higher one first, and bytes one behind the
/// other as their digits one behind the other.
pub proof fn law_bytes_are_written_as_two_digits(a: Seq<u8>, b: Seq<u8>, x: u8)
    ensures
        codec::hex_text(a + b) == codec::hex_text(a) + codec::hex_text(b),
        codec::hex_text(a).len() == 2 * a.len(),
        codec::hex_text(seq![x]).len() == 2,
        x < 10 ==> codec::hex_text(seq![x]) == seq!['0'] + number::dec(x as nat),
        x == 10 ==> codec::hex_text(seq![x]) == seq!['0', 'a'],
        x == 15 ==> codec::hex_text(seq![x]) == seq!['0', 'f'],
        x == 16 ==> codec::hex_text(seq![x]) == seq!['1', '0'],
        x == 255 ==> codec::hex_text(seq![x]) == seq!['f', 'f'],
    decreases a.len() + b.len(),
{
    assert(seq![x].drop_last() =~= Seq::<u8>::empty());
    assert(codec::hex_text(Seq::<u8>::empty()) =~= Seq::<char>::empty());
    let (h, l) = (codec::hex_digit(x as int / 16), codec::hex_digit(x as int % 16));
    assert(codec::hex_text(seq![x]) =~= seq![h, l]);
    if x < 10 {
        assert(number::dec(x as nat) =~= seq![l]);
        assert(seq!['0'] + number::dec(x as nat) =~= seq![h, l]);
    }
    if b.len() > 0 {
        law_bytes_are_written_as_two_digits(a, b.drop_last(), x);
        assert((a + b).drop_last() =~= a + b.drop_last());
        let p = codec::hex_digit(b.last() as int / 16);
        let q = codec::hex_digit(b.last() as int % 16);
        assert(codec::hex_text(a + b) =~= codec::hex_text(a) + codec::hex_text(b));
    } else {
        assert(a + b =~= a);
        assert(codec::hex_text(a) + codec::hex_text(b) =~= codec::hex_text(a));
        if a.len() > 0 {
            law_bytes_are_written_as_two_digits(a.drop_last(), b, x);
        }
    }
}

/// Every reply of the agent behind a message is handed out with its whole text, and
/// nothing else is.
pub proof fn law_replies_are_handed_out(
    history: ChatHistory,
    after_id: i64,
    r: Vec<(i64, String, String)>,
    i: int,
)
    requires
        call_ensures(ChatHistory::get_agent_replies_after, (&history, after_id), r),
        0 <= i < history.messages@.len(),
        history.messages@[i].role@ == "agent"@,
        history.messages@[i].id > after_id,
    ensures
        exists|k: int|
            0 <= k < r@.len() && (#[trigger] r@[k]).0 == history.messages@[i].id && r@[k].1@
                == history.messages@[i].content@ && r@[k].2@ == history.messages@[i].timestamp@,
{
    let f = |m: Message| m.role@ == "agent"@ && m.id > after_id;
    let said = chat::all_picked(history.messages@, f);
    lemma_picked_has(history.messages@, history.messages@.len() as int, f, i);
    let k = choose|k: int| 0 <= k < said.len() && said[k] == history.messages@[i];
    assert(chat::is_reply(r@[k], said[k]));
}

/// Every message of a stretch is handed out with its sender and its whole text.
pub proof fn law_stretches_are_handed_out(
    history: ChatHistory,
    start: &str,
    end: &str,
    r: Vec<RangeMessage>,
    i: int,
)
    requires
        call_ensures(ChatHistory::read_messages_in_range, (&history, start, end), r),
        0 <= i < history.messages@.len(),
        !order::comes_before(history.messages@[i].timestamp@, start@),
        !order::comes_before(end@, history.messages@[i].timestamp@),
    ensures
        exists|k: int|
            0 <= k < r@.len() && (#[trigger] r@[k]).content@ == history.messages@[i].content@
                && r@[k].sender@ == history.messages@[i].sender@ && r@[k].role@
                == history.messages@[i].role@ && r@[k].timestamp@ == history.messages@[i].timestamp@,
{
    let f = chat::between(start@, end@);
    let said = chat::all_picked(history.messages@, f);
    assert(f(history.messages@[i]));
    lemma_picked_has(history.messages@, history.messages@.len() as int, f, i);
    let k = choose|k: int| 0 <= k < said.len() && said[k] == history.messages@[i];
    assert(chat::is_range(r@[k], said[k]));
}

} // verus!

//! Taking over what an instance kept in files into the database.
use vstd::prelude::*;

use crate::agent::roll::SessionEntry;
use crate::text::chars::{slice_text, to_chars};
use crate::text::order;
use crate::text::order::sort_texts;
use crate::text::search;
use crate::text::search::ends_with;
use crate::text::space;
use crate::text::space::{blank, lines, trim};

verus! {

/// What is done about a file with one text.
#[derive(Debug)]
pub enum TextMigration {
    /// Nothing.
    Skip,
    /// It goes into the database, and the file is set aside.
    Import { content: String },
}

/// A text is taken over where the database has none yet and the file is not blank.
pub open spec fn takes_over(db_content: Seq<char>, file: Option<Seq<char>>) -> bool {
    db_content.len() == 0 && file is Some && !space::is_blank(file->0)
}

pub open spec fn opt_view(s: Option<&str>) -> Option<Seq<char>> {
    match s {
        Some(t) => Some(t@),
        None => None,
    }
}

/// Decides what is done about a file with one text, as knowledge or history is.
pub fn migrate_text(db_content: &str, file: Option<&str>) -> (r: TextMigration)
    ensures
        if takes_over(db_content@, opt_view(file)) {
            r matches TextMigration::Import { content } && content@ == opt_view(file)->0
        } else {
            r is Skip
        },
{
    if !db_content.is_empty() {
        return TextMigration::Skip;
    }
    match file {
        Some(content) => if blank(content) {
            TextMigration::Skip
        } else {
            TextMigration::Import { content: content.to_string() }
        },
        None => TextMigration::Skip,
    }
}

/// What was taken over is not taken over again, even if the file is still there.
pub proof fn law_texts_are_taken_over_once(db_content: Seq<char>, file: Seq<char>)
    requires
        takes_over(db_content, Some(file)),
    ensures
        !takes_over(file, Some(file)),
{
    if file.len() == 0 {
        assert(space::trimmed_start(file) =~= file);
        assert(space::trimmed(file) =~= file);
    }
}

/// What is done about the file with the current record.
#[derive(Debug)]
pub enum CurrentMigration {
    /// Nothing.
    Skip,
    /// The file is set aside.
    SetAside,
    /// It goes into the database as a note of this name, and the file is set aside.
    Import { action_id: String, content: String },
}

/// Decides what is done about the file with the current record, at a time.
pub fn migrate_current(file: Option<&str>, rendered: &str, timestamp: &str) -> (r: CurrentMigration)
    ensures
        match file {
            None => r is Skip,
            Some(content) => if space::is_blank(content@) {
                r is SetAside
            } else if rendered@.len() > 0 {
                r is Skip
            } else {
                r matches CurrentMigration::Import { action_id, content: c } && action_id@
                    == timestamp@ + "_legacy"@ && c@ == content@
            },
        },
{
    match file {
        None => CurrentMigration::Skip,
        Some(content) => {
            if blank(content) {
                CurrentMigration::SetAside
            } else if !rendered.is_empty() {
                CurrentMigration::Skip
            } else {
                let mut action_id = timestamp.to_string();
                action_id.push_str("_legacy");
                CurrentMigration::Import { action_id, content: content.to_string() }
            }
        },
    }
}

/// The name of the file that a file is set aside as.
pub fn migrated_name(path: &str) -> (r: String)
    ensures
        r@ == path@ + ".migrated"@,
{
    let mut s = path.to_string();
    s.push_str(".migrated");
    s
}

/// A file that holds a block of a session.
pub open spec fn is_block_file(name: Seq<char>) -> bool {
    name.len() > 6 && search::has_suffix(name, ".jsonl"@)
}

/// The files among the first `n` that hold blocks.
pub open spec fn block_files(names: Seq<Seq<char>>, n: int) -> Seq<Seq<char>>
    decreases n,
{
    if n <= 0 || n > names.len() {
        Seq::empty()
    } else if is_block_file(names[n - 1]) {
        block_files(names, n - 1).push(names[n - 1])
    } else {
        block_files(names, n - 1)
    }
}

/// The files of a directory that hold blocks, in order; none where the database has
/// blocks already.
pub fn session_files(existing_blocks: usize, names: &Vec<String>) -> (r: Vec<String>)
    ensures
        existing_blocks > 0 ==> r@.len() == 0,
        existing_blocks == 0 ==> {
            let all = search::views(names@);
            &&& order::in_order(search::views(r@))
            &&& search::views(r@).to_multiset() == block_files(
                all,
                all.len() as int,
            ).to_multiset()
        },
{
    let mut out: Vec<String> = Vec::new();
    if existing_blocks > 0 {
        return out;
    }
    let ghost all = search::views(names@);
    let mut i: usize = 0;
    assert(search::views(out@) =~= Seq::<Seq<char>>::empty());
    while i < names.len()
        invariant
            i <= names@.len(),
            all == search::views(names@),
            search::views(out@) == block_files(all, i as int),
        decreases names@.len() - i,
    {
        assert(all[i as int] == names@[i as int]@);
        let v = to_chars(names[i].as_str());
        if v.len() > 6 && ends_with(names[i].as_str(), ".jsonl") {
            let name = names[i].clone();
            proof {
                search::lemma_views_push(out@, name);
            }
            out.push(name);
        }
        i = i + 1;
    }
    sort_texts(&mut out);
    out
}

/// The name of the block that a file holds.
pub fn block_name_of(file_name: &str) -> (r: String)
    requires
        is_block_file(file_name@),
    ensures
        r@ == file_name@.take(file_name@.len() - 6),
{
    let v = to_chars(file_name);
    let n: usize = v.len();
    let s = slice_text(&v, 0, n - 6);
    assert(s@ =~= file_name@.take(file_name@.len() - 6));
    s
}

/// The lines among the first `n` that are not blank, trimmed.
pub open spec fn filled_lines(all: Seq<Seq<char>>, n: int) -> Seq<Seq<char>>
    decreases n,
{
    if n <= 0 || n > all.len() {
        Seq::empty()
    } else if space::is_blank(all[n - 1]) {
        filled_lines(all, n - 1)
    } else {
        filled_lines(all, n - 1).push(space::trimmed(all[n - 1]))
    }
}

/// The lines of a block that each hold an entry.
pub fn entry_lines(content: &str) -> (r: Vec<String>)
    ensures
        search::views(r@) == filled_lines(
            space::lines_of(content@),
            space::lines_of(content@).len() as int,
        ),
{
    let all = lines(content);
    let ghost whole = search::views(all@);
    let mut out: Vec<String> = Vec::new();
    let mut i: usize = 0;
    assert(search::views(out@) =~= Seq::<Seq<char>>::empty());
    while i < all.len()
        invariant
            i <= all@.len(),
            whole == search::views(all@),
            search::views(out@) == filled_lines(whole, i as int),
        decreases all@.len() - i,
    {
        assert(whole[i as int] == all@[i as int]@);
        let line = trim(all[i].as_str());
        if !line.as_str().is_empty() {
            proof {
                search::lemma_views_push(out@, line);
            }
            out.push(line);
        }
        i = i + 1;
    }
    out
}

/// A block as it was read from a file: lines that could not be read are left out.
#[derive(Debug)]
pub struct SessionImport {
    pub block_name: String,
    pub entries: Vec<SessionEntry>,
}

/// The blocks among the first `n` that hold something.
pub open spec fn filled_blocks(bs: Seq<SessionImport>, n: int) -> Seq<int>
    decreases n,
{
    if n <= 0 || n > bs.len() {
        Seq::empty()
    } else if bs[n - 1].entries@.len() > 0 {
        filled_blocks(bs, n - 1).push(n - 1)
    } else {
        filled_blocks(bs, n - 1)
    }
}

/// Which blocks go into the database: those that hold something.
pub fn blocks_to_import(bs: &Vec<SessionImport>) -> (r: Vec<usize>)
    ensures
        r@.map_values(|i: usize| i as int) == filled_blocks(bs@, bs@.len() as int),
{
    let mut out: Vec<usize> = Vec::new();
    let mut i: usize = 0;
    assert(out@.map_values(|i: usize| i as int) =~= Seq::<int>::empty());
    while i < bs.len()
        invariant
            i <= bs@.len(),
            out@.map_values(|i: usize| i as int) == filled_blocks(bs@, i as int),
        decreases bs@.len() - i,
    {
        if bs[i].entries.len() > 0 {
            let ghost had = out@;
            out.push(i);
            assert(out@.map_values(|i: usize| i as int) =~= had.map_values(
                |i: usize| i as int,
            ).push(i as int));
        }
        i = i + 1;
    }
    out
}

} // verus!

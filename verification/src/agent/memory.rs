//! What an instance remembers: its knowledge, its history, the current record and
//! blocks of earlier sessions, each in a file of its own.
use vstd::prelude::*;

use crate::persist::files;
use crate::persist::files::{apply_all, EffectModel, FileEffect};
use crate::registry;
use crate::registry::Registry;
use crate::text::bytes;
use crate::text::bytes::byte_len;
use crate::text::chars::{slice_text, to_chars};
use crate::text::order;
use crate::text::order::sort_texts;
use crate::text::path;
use crate::text::path::join_path;
use crate::text::search;
use crate::text::search::{contains, ends_with, strip_prefix};

verus! {

/// The memory of an instance, as its files hold it.
#[derive(Debug)]
pub struct Memory {
    pub memory_dir: String,
    pub sessions_dir: String,
    /// The files, each under its path.
    pub files: Registry<String>,
}

/// Where a block of a session is kept.
pub open spec fn block_path(sessions_dir: Seq<char>, name: Seq<char>) -> Seq<char> {
    path::joined_path(sessions_dir, name + ".jsonl"@)
}

/// The name of the block that a file of a directory holds, where it holds one.
pub open spec fn block_name(sessions_dir: Seq<char>, p: Seq<char>) -> Option<Seq<char>> {
    let prefix = path::joined_path(sessions_dir, Seq::empty());
    if search::has_prefix(p, prefix) {
        let file = p.skip(prefix.len() as int);
        if file.len() > 6 && search::has_suffix(file, ".jsonl"@) && !search::has_text(file, "/"@) {
            Some(file.take(file.len() - 6))
        } else {
            None
        }
    } else {
        None
    }
}

/// The names of the blocks among some files, in the order of the files.
pub open spec fn block_names(sessions_dir: Seq<char>, paths: Seq<Seq<char>>) -> Seq<Seq<char>>
    decreases paths.len(),
{
    if paths.len() == 0 {
        Seq::empty()
    } else {
        match block_name(sessions_dir, paths.last()) {
            Some(name) => block_names(sessions_dir, paths.drop_last()).push(name),
            None => block_names(sessions_dir, paths.drop_last()),
        }
    }
}

/// The current record with a text added to it, on a line of its own.
pub open spec fn appended(existing: Seq<char>, text: Seq<char>) -> Seq<char> {
    if existing.len() == 0 {
        text
    } else {
        existing + "\n"@ + text
    }
}

/// What is done to the files when a session is summed up: the block goes on, the
/// knowledge is rewritten, and only then the current record is cleared.
pub open spec fn summary_effects(
    block: Seq<char>,
    lines: Seq<char>,
    knowledge: Seq<char>,
    knowledge_text: Seq<char>,
    current: Seq<char>,
) -> Seq<EffectModel> {
    seq![
        EffectModel::Append { path: block, content: lines },
        EffectModel::Write { path: knowledge, content: knowledge_text },
        EffectModel::Write { path: current, content: Seq::empty() },
    ]
}

/// What is done to the files when the history is rolled: it is rewritten, then the
/// block that went into it is removed, where it is there, and marked.
pub open spec fn history_effects(
    history: Seq<char>,
    new_history: Seq<char>,
    block: Seq<char>,
    there: bool,
    marker: Seq<char>,
    name: Seq<char>,
) -> Seq<EffectModel> {
    if there {
        seq![
            EffectModel::Write { path: history, content: new_history },
            EffectModel::Remove { path: block },
            EffectModel::Write { path: marker, content: name },
        ]
    } else {
        seq![
            EffectModel::Write { path: history, content: new_history },
            EffectModel::Write { path: marker, content: name },
        ]
    }
}

impl Memory {
    pub open spec fn wf(self) -> bool {
        self.files.wf() && self.sessions_dir@ == path::joined_path(self.memory_dir@, "sessions"@)
    }

    /// The files with their contents.
    pub open spec fn disk(self) -> Map<Seq<char>, Seq<char>> {
        files::texts(self.files@)
    }

    pub open spec fn knowledge_path(self) -> Seq<char> {
        path::joined_path(self.memory_dir@, "knowledge.md"@)
    }

    pub open spec fn history_path(self) -> Seq<char> {
        path::joined_path(self.sessions_dir@, "history.txt"@)
    }

    pub open spec fn current_path(self) -> Seq<char> {
        path::joined_path(self.sessions_dir@, "current.txt"@)
    }

    pub open spec fn marker_path(self) -> Seq<char> {
        path::joined_path(self.sessions_dir@, ".last_rolled"@)
    }

    /// The same memory with other files.
    pub open spec fn changed_by(self, before: Memory, es: Seq<FileEffect>) -> bool {
        &&& self.wf()
        &&& self.memory_dir == before.memory_dir
        &&& self.sessions_dir == before.sessions_dir
        &&& self.disk() == files::applied_all(before.disk(), files::effects(es))
    }

    /// The memory below a directory, with the files that are there.
    pub fn open(memory_dir: &str, found: Registry<String>) -> (r: Self)
        requires
            found.wf(),
        ensures
            r.wf(),
            r.memory_dir@ == memory_dir@,
            r.files == found,
    {
        Memory {
            memory_dir: memory_dir.to_string(),
            sessions_dir: join_path(memory_dir, "sessions"),
            files: found,
        }
    }

    pub fn memory_dir(&self) -> (r: &str)
        ensures
            r@ == self.memory_dir@,
    {
        self.memory_dir.as_str()
    }

    pub fn sessions_dir(&self) -> (r: &str)
        ensures
            r@ == self.sessions_dir@,
    {
        self.sessions_dir.as_str()
    }

    /// Where it is noted which block was rolled last.
    pub fn last_rolled_path(&self) -> (r: String)
        ensures
            r@ == self.marker_path(),
    {
        join_path(self.sessions_dir.as_str(), ".last_rolled")
    }

    fn read(&self, path: &str) -> (r: String)
        requires
            self.wf(),
        ensures
            r@ == files::content_at(self.disk(), path@),
    {
        match self.files.get(path) {
            Some(t) => t.clone(),
            None => String::new(),
        }
    }

    fn perform(&mut self, es: &Vec<FileEffect>)
        requires
            old(self).wf(),
        ensures
            final(self).changed_by(*old(self), es@),
    {
        apply_all(&mut self.files, es);
    }

    pub fn read_knowledge(&self) -> (r: String)
        requires
            self.wf(),
        ensures
            r@ == files::content_at(self.disk(), self.knowledge_path()),
    {
        let p = join_path(self.memory_dir.as_str(), "knowledge.md");
        self.read(p.as_str())
    }

    pub fn read_history(&self) -> (r: String)
        requires
            self.wf(),
        ensures
            r@ == files::content_at(self.disk(), self.history_path()),
    {
        let p = join_path(self.sessions_dir.as_str(), "history.txt");
        self.read(p.as_str())
    }

    pub fn read_current(&self) -> (r: String)
        requires
            self.wf(),
        ensures
            r@ == files::content_at(self.disk(), self.current_path()),
    {
        let p = join_path(self.sessions_dir.as_str(), "current.txt");
        self.read(p.as_str())
    }

    /// Which block was rolled last.
    pub fn read_last_rolled(&self) -> (r: String)
        requires
            self.wf(),
        ensures
            r@ == files::content_at(self.disk(), self.marker_path()),
    {
        let p = self.last_rolled_path();
        self.read(p.as_str())
    }

    /// Rewrites the history.
    pub fn write_history(&mut self, content: &str) -> (r: Vec<FileEffect>)
        requires
            old(self).wf(),
        ensures
            final(self).changed_by(*old(self), r@),
            files::effects(r@) == seq![
                EffectModel::Write { path: old(self).history_path(), content: content@ },
            ],
    {
        let mut es: Vec<FileEffect> = Vec::new();
        es.push(
            FileEffect::Write {
                path: join_path(self.sessions_dir.as_str(), "history.txt"),
                content: content.to_string(),
            },
        );
        assert(files::effects(es@) =~= seq![
            EffectModel::Write { path: old(self).history_path(), content: content@ },
        ]);
        self.perform(&es);
        es
    }

    /// Gives a new instance its first history; one that has a history keeps it.
    pub fn write_initial_history(&mut self, content: &str) -> (r: Vec<FileEffect>)
        requires
            old(self).wf(),
        ensures
            final(self).changed_by(*old(self), r@),
            files::effects(r@) == (if files::content_at(
                old(self).disk(),
                old(self).history_path(),
            ).len() == 0 {
                seq![EffectModel::Write { path: old(self).history_path(), content: content@ }]
            } else {
                Seq::empty()
            }),
    {
        if self.read_history().as_str().is_empty() {
            return self.write_history(content);
        }
        let es: Vec<FileEffect> = Vec::new();
        assert(files::effects(es@) =~= Seq::<EffectModel>::empty());
        es
    }

    /// Rewrites the current record.
    pub fn write_current(&mut self, content: &str) -> (r: Vec<FileEffect>)
        requires
            old(self).wf(),
        ensures
            final(self).changed_by(*old(self), r@),
            files::effects(r@) == seq![
                EffectModel::Write { path: old(self).current_path(), content: content@ },
            ],
    {
        let mut es: Vec<FileEffect> = Vec::new();
        es.push(
            FileEffect::Write {
                path: join_path(self.sessions_dir.as_str(), "current.txt"),
                content: content.to_string(),
            },
        );
        assert(files::effects(es@) =~= seq![
            EffectModel::Write { path: old(self).current_path(), content: content@ },
        ]);
        self.perform(&es);
        es
    }

    /// Adds a text to the current record.
    pub fn append_current(&mut self, text: &str) -> (r: Vec<FileEffect>)
        requires
            old(self).wf(),
        ensures
            final(self).changed_by(*old(self), r@),
            files::effects(r@) == seq![
                EffectModel::Write {
                    path: old(self).current_path(),
                    content: appended(
                        files::content_at(old(self).disk(), old(self).current_path()),
                        text@,
                    ),
                },
            ],
    {
        let existing = self.read_current();
        let mut s = existing;
        if !s.as_str().is_empty() {
            s.push_str("\n");
        }
        s.push_str(text);
        assert(s@ =~= appended(files::content_at(self.disk(), self.current_path()), text@));
        self.write_current(s.as_str())
    }

    /// Adds what a beat left behind to the current record.
    pub fn commit_beat(&mut self, text: &str) -> (r: Vec<FileEffect>)
        requires
            old(self).wf(),
        ensures
            final(self).changed_by(*old(self), r@),
            files::effects(r@) == seq![
                EffectModel::Write {
                    path: old(self).current_path(),
                    content: appended(
                        files::content_at(old(self).disk(), old(self).current_path()),
                        text@,
                    ),
                },
            ],
    {
        self.append_current(text)
    }

    fn session_block_path(&self, name: &str) -> (r: String)
        ensures
            r@ == block_path(self.sessions_dir@, name@),
    {
        let mut file = name.to_string();
        file.push_str(".jsonl");
        join_path(self.sessions_dir.as_str(), file.as_str())
    }

    /// What a block holds; nothing where there is none.
    pub fn read_session_block(&self, name: &str) -> (r: String)
        requires
            self.wf(),
        ensures
            r@ == files::content_at(self.disk(), block_path(self.sessions_dir@, name@)),
    {
        let p = self.session_block_path(name);
        self.read(p.as_str())
    }

    /// Adds lines to a block.
    pub fn append_session_block(&mut self, name: &str, lines: &str) -> (r: Vec<FileEffect>)
        requires
            old(self).wf(),
        ensures
            final(self).changed_by(*old(self), r@),
            files::effects(r@) == seq![
                EffectModel::Append {
                    path: block_path(old(self).sessions_dir@, name@),
                    content: lines@,
                },
            ],
    {
        let mut es: Vec<FileEffect> = Vec::new();
        es.push(
            FileEffect::Append { path: self.session_block_path(name), content: lines.to_string() },
        );
        assert(files::effects(es@) =~= seq![
            EffectModel::Append {
                path: block_path(old(self).sessions_dir@, name@),
                content: lines@,
            },
        ]);
        self.perform(&es);
        es
    }

    /// Rewrites a block.
    pub fn write_session_block(&mut self, name: &str, content: &str) -> (r: Vec<FileEffect>)
        requires
            old(self).wf(),
        ensures
            final(self).changed_by(*old(self), r@),
            files::effects(r@) == seq![
                EffectModel::Write {
                    path: block_path(old(self).sessions_dir@, name@),
                    content: content@,
                },
            ],
    {
        let mut es: Vec<FileEffect> = Vec::new();
        es.push(
            FileEffect::Write { path: self.session_block_path(name), content: content.to_string() },
        );
        assert(files::effects(es@) =~= seq![
            EffectModel::Write {
                path: block_path(old(self).sessions_dir@, name@),
                content: content@,
            },
        ]);
        self.perform(&es);
        es
    }

    /// Removes a block, where it is there.
    pub fn delete_session_block(&mut self, name: &str) -> (r: Vec<FileEffect>)
        requires
            old(self).wf(),
        ensures
            final(self).changed_by(*old(self), r@),
            files::effects(r@) == (if old(self).disk().contains_key(
                block_path(old(self).sessions_dir@, name@),
            ) {
                seq![EffectModel::Remove { path: block_path(old(self).sessions_dir@, name@) }]
            } else {
                Seq::empty()
            }),
    {
        let p = self.session_block_path(name);
        let mut es: Vec<FileEffect> = Vec::new();
        if self.files.contains_key(p.as_str()) {
            es.push(FileEffect::Remove { path: p });
            assert(files::effects(es@) =~= seq![
                EffectModel::Remove { path: block_path(old(self).sessions_dir@, name@) },
            ]);
        } else {
            assert(files::effects(es@) =~= Seq::<EffectModel>::empty());
        }
        self.perform(&es);
        es
    }

    /// How many bytes a block has.
    pub fn session_block_size(&self, name: &str) -> (r: u64)
        requires
            self.wf(),
        ensures
            r == bytes::text_bytes(
                files::content_at(self.disk(), block_path(self.sessions_dir@, name@)),
            ),
    {
        let s = self.read_session_block(name);
        byte_len(s.as_str()) as u64
    }

    /// The names of all blocks, in order.
    pub fn list_session_blocks(&self) -> (r: Vec<String>)
        requires
            self.wf(),
        ensures
            order::in_order(search::views(r@)),
            search::views(r@).to_multiset() == block_names(
                self.sessions_dir@,
                search::views(self.files.keys@),
            ).to_multiset(),
    {
        let prefix = join_path(self.sessions_dir.as_str(), "");
        proof {
            reveal_strlit("");
            reveal_strlit(".jsonl");
            assert(""@ =~= Seq::<char>::empty());
        }
        let ghost all = search::views(self.files.keys@);
        let mut out: Vec<String> = Vec::new();
        let mut i: usize = 0;
        assert(search::views(out@) =~= Seq::<Seq<char>>::empty());
        assert(all.take(0) =~= Seq::<Seq<char>>::empty());
        while i < self.files.keys.len()
            invariant
                i <= self.files.keys@.len(),
                all == search::views(self.files.keys@),
                prefix@ == path::joined_path(self.sessions_dir@, Seq::empty()),
                ".jsonl"@.len() == 6,
                search::views(out@) == block_names(self.sessions_dir@, all.take(i as int)),
            decreases self.files.keys@.len() - i,
        {
            assert(all.take(i + 1).drop_last() =~= all.take(i as int));
            assert(all[i as int] == self.files.keys@[i as int]@);
            if let Some(file) = strip_prefix(self.files.keys[i].as_str(), prefix.as_str()) {
                let v = to_chars(file.as_str());
                let n: usize = v.len();
                if n > 6 && ends_with(file.as_str(), ".jsonl") && !contains(file.as_str(), "/") {
                    let name = slice_text(&v, 0, n - 6);
                    proof {
                        assert(name@ =~= file@.take(file@.len() - 6));
                        search::lemma_views_push(out@, name);
                    }
                    out.push(name);
                }
            }
            i = i + 1;
        }
        assert(all.take(i as int) =~= all);
        sort_texts(&mut out);
        out
    }

    /// Sums up a session.
    pub fn commit_summary(
        &mut self,
        session_block_name: &str,
        session_lines: &str,
        knowledge_text: &str,
    ) -> (r: Vec<FileEffect>)
        requires
            old(self).wf(),
        ensures
            final(self).changed_by(*old(self), r@),
            files::effects(r@) == summary_effects(
                block_path(old(self).sessions_dir@, session_block_name@),
                session_lines@,
                old(self).knowledge_path(),
                knowledge_text@,
                old(self).current_path(),
            ),
    {
        let mut es: Vec<FileEffect> = Vec::new();
        es.push(
            FileEffect::Append {
                path: self.session_block_path(session_block_name),
                content: session_lines.to_string(),
            },
        );
        es.push(
            FileEffect::Write {
                path: join_path(self.memory_dir.as_str(), "knowledge.md"),
                content: knowledge_text.to_string(),
            },
        );
        es.push(
            FileEffect::Write {
                path: join_path(self.sessions_dir.as_str(), "current.txt"),
                content: String::new(),
            },
        );
        assert(files::effects(es@) =~= summary_effects(
            block_path(old(self).sessions_dir@, session_block_name@),
            session_lines@,
            old(self).knowledge_path(),
            knowledge_text@,
            old(self).current_path(),
        ));
        self.perform(&es);
        es
    }

    /// Rolls the history: a block went into it.
    pub fn commit_history(&mut self, new_history: &str, oldest_block_name: &str) -> (r: Vec<
        FileEffect,
    >)
        requires
            old(self).wf(),
        ensures
            final(self).changed_by(*old(self), r@),
            files::effects(r@) == history_effects(
                old(self).history_path(),
                new_history@,
                block_path(old(self).sessions_dir@, oldest_block_name@),
                old(self).disk().contains_key(
                    block_path(old(self).sessions_dir@, oldest_block_name@),
                ),
                old(self).marker_path(),
                oldest_block_name@,
            ),
    {
        let block = self.session_block_path(oldest_block_name);
        let there = self.files.contains_key(block.as_str());
        let mut es: Vec<FileEffect> = Vec::new();
        es.push(
            FileEffect::Write {
                path: join_path(self.sessions_dir.as_str(), "history.txt"),
                content: new_history.to_string(),
            },
        );
        if there {
            es.push(FileEffect::Remove { path: block });
        }
        es.push(
            FileEffect::Write {
                path: self.last_rolled_path(),
                content: oldest_block_name.to_string(),
            },
        );
        assert(files::effects(es@) =~= history_effects(
            old(self).history_path(),
            new_history@,
            block_path(old(self).sessions_dir@, oldest_block_name@),
            there,
            old(self).marker_path(),
            oldest_block_name@,
        ));
        self.perform(&es);
        es
    }
}

proof fn lemma_last_of_joined(dir: Seq<char>, p: Seq<char>)
    requires
        p.len() > 0,
    ensures
        path::joined_path(dir, p).last() == p.last(),
{
}

/// Wherever summing up a session breaks off, nothing is lost: the current record is
/// as it was until the block and the knowledge have been written.
pub proof fn law_summary_loses_nothing(
    m: Memory,
    name: Seq<char>,
    lines: Seq<char>,
    knowledge_text: Seq<char>,
    k: int,
)
    requires
        m.wf(),
        0 <= k <= 3,
    ensures
        ({
            let block = block_path(m.sessions_dir@, name);
            let es = summary_effects(
                block,
                lines,
                m.knowledge_path(),
                knowledge_text,
                m.current_path(),
            );
            let d = files::applied_all(m.disk(), es.take(k));
            &&& k < 3 ==> files::content_at(d, m.current_path()) == files::content_at(
                m.disk(),
                m.current_path(),
            )
            &&& k >= 1 ==> files::content_at(d, block) == files::content_at(m.disk(), block) + lines
            &&& k >= 2 ==> files::content_at(d, m.knowledge_path()) == knowledge_text
            &&& k == 3 ==> files::content_at(d, m.current_path()) == Seq::<char>::empty()
        }),
{
    reveal_strlit("current.txt");
    reveal_strlit("knowledge.md");
    reveal_strlit(".jsonl");
    let block = block_path(m.sessions_dir@, name);
    let (kn, cur) = (m.knowledge_path(), m.current_path());
    let es = summary_effects(block, lines, kn, knowledge_text, cur);
    lemma_last_of_joined(m.sessions_dir@, "current.txt"@);
    lemma_last_of_joined(m.memory_dir@, "knowledge.md"@);
    lemma_last_of_joined(m.sessions_dir@, name + ".jsonl"@);
    assert(cur.last() == 't' && kn.last() == 'd' && block.last() == 'l');
    let d0 = m.disk();
    assert(es.take(0) =~= Seq::<EffectModel>::empty());
    assert(es.take(1).drop_last() =~= es.take(0));
    assert(es.take(2).drop_last() =~= es.take(1));
    assert(es.take(3).drop_last() =~= es.take(2));
    assert(files::applied_all(d0, es.take(0)) == d0);
    let d1 = files::applied_all(d0, es.take(1));
    assert(d1 == files::applied(d0, es[0]));
    let d2 = files::applied_all(d0, es.take(2));
    assert(d2 == files::applied(d1, es[1]));
    let d3 = files::applied_all(d0, es.take(3));
    assert(d3 == files::applied(d2, es[2]));
}

/// Wherever rolling the history breaks off, nothing is lost: a block is there as
/// it was until the history that holds it has been written.
pub proof fn law_rolling_loses_nothing(
    m: Memory,
    new_history: Seq<char>,
    name: Seq<char>,
    k: int,
)
    requires
        m.wf(),
        m.disk().contains_key(block_path(m.sessions_dir@, name)),
        0 <= k <= 3,
    ensures
        ({
            let block = block_path(m.sessions_dir@, name);
            let es = history_effects(
                m.history_path(),
                new_history,
                block,
                true,
                m.marker_path(),
                name,
            );
            let d = files::applied_all(m.disk(), es.take(k));
            &&& k < 2 ==> d.contains_key(block) && d[block] == m.disk()[block]
            &&& k >= 1 ==> files::content_at(d, m.history_path()) == new_history
            &&& k >= 2 ==> !d.contains_key(block)
            &&& k == 3 ==> files::content_at(d, m.marker_path()) == name
        }),
{
    reveal_strlit("history.txt");
    reveal_strlit(".last_rolled");
    reveal_strlit(".jsonl");
    let block = block_path(m.sessions_dir@, name);
    let (hist, mark) = (m.history_path(), m.marker_path());
    let es = history_effects(hist, new_history, block, true, mark, name);
    lemma_last_of_joined(m.sessions_dir@, "history.txt"@);
    lemma_last_of_joined(m.sessions_dir@, ".last_rolled"@);
    lemma_last_of_joined(m.sessions_dir@, name + ".jsonl"@);
    assert(hist.last() == 't' && mark.last() == 'd' && block.last() == 'l');
    let d0 = m.disk();
    assert(es.take(0) =~= Seq::<EffectModel>::empty());
    assert(es.take(1).drop_last() =~= es.take(0));
    assert(es.take(2).drop_last() =~= es.take(1));
    assert(es.take(3).drop_last() =~= es.take(2));
    assert(files::applied_all(d0, es.take(0)) == d0);
    let d1 = files::applied_all(d0, es.take(1));
    assert(d1 == files::applied(d0, es[0]));
    let d2 = files::applied_all(d0, es.take(2));
    assert(d2 == files::applied(d1, es[1]));
    let d3 = files::applied_all(d0, es.take(3));
    assert(d3 == files::applied(d2, es[2]));
}

} // verus!

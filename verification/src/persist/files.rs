//! What is done to files, and what that makes of them.
use vstd::prelude::*;

use crate::registry::Registry;

verus! {

/// Something that is done to a file.
#[derive(Debug)]
pub enum FileEffect {
    /// Its content is replaced, all at once.
    Write { path: String, content: String },
    /// Its content goes on.
    Append { path: String, content: String },
    /// It is removed.
    Remove { path: String },
}

/// Something that is done to a file, with its texts as sequences.
pub enum EffectModel {
    Write { path: Seq<char>, content: Seq<char> },
    Append { path: Seq<char>, content: Seq<char> },
    Remove { path: Seq<char> },
}

impl View for FileEffect {
    type V = EffectModel;

    open spec fn view(&self) -> EffectModel {
        match *self {
            FileEffect::Write { path, content } => EffectModel::Write {
                path: path@,
                content: content@,
            },
            FileEffect::Append { path, content } => EffectModel::Append {
                path: path@,
                content: content@,
            },
            FileEffect::Remove { path } => EffectModel::Remove { path: path@ },
        }
    }
}

pub open spec fn effects(v: Seq<FileEffect>) -> Seq<EffectModel> {
    v.map_values(|e: FileEffect| e@)
}


/// What a file holds; nothing where there is none.
pub open spec fn content_at(disk: Map<Seq<char>, Seq<char>>, path: Seq<char>) -> Seq<char> {
    if disk.contains_key(path) {
        disk[path]
    } else {
        Seq::empty()
    }
}

/// The files after something was done to one of them.
pub open spec fn applied(disk: Map<Seq<char>, Seq<char>>, e: EffectModel) -> Map<
    Seq<char>,
    Seq<char>,
> {
    match e {
        EffectModel::Write { path, content } => disk.insert(path, content),
        EffectModel::Append { path, content } => disk.insert(
            path,
            content_at(disk, path) + content,
        ),
        EffectModel::Remove { path } => disk.remove(path),
    }
}

/// The files after one thing after the other was done.
pub open spec fn applied_all(disk: Map<Seq<char>, Seq<char>>, es: Seq<EffectModel>) -> Map<
    Seq<char>,
    Seq<char>,
>
    decreases es.len(),
{
    if es.len() == 0 {
        disk
    } else {
        applied(applied_all(disk, es.drop_last()), es.last())
    }
}

/// The contents of files in memory.
pub open spec fn texts(m: Map<Seq<char>, String>) -> Map<Seq<char>, Seq<char>> {
    m.map_values(|s: String| s@)
}

/// Does in memory what is done to a file.
pub fn apply(files: &mut Registry<String>, e: &FileEffect)
    requires
        old(files).wf(),
    ensures
        final(files).wf(),
        texts(final(files)@) == applied(texts(old(files)@), e@),
{
    match e {
        FileEffect::Write { path, content } => {
            files.insert(path.as_str(), content.clone());
            assert(texts(files@) =~= applied(texts(old(files)@), e@));
        },
        FileEffect::Append { path, content } => {
            let mut s = match files.get(path.as_str()) {
                Some(t) => t.clone(),
                None => String::new(),
            };
            s.push_str(content.as_str());
            proof {
                assert(s@ =~= content_at(texts(files@), path@) + content@);
            }
            files.insert(path.as_str(), s);
            assert(texts(files@) =~= applied(texts(old(files)@), e@));
        },
        FileEffect::Remove { path } => {
            files.remove(path.as_str());
            assert(texts(files@) =~= applied(texts(old(files)@), e@));
        },
    }
}

/// Does in memory one thing after the other.
pub fn apply_all(files: &mut Registry<String>, es: &Vec<FileEffect>)
    requires
        old(files).wf(),
    ensures
        final(files).wf(),
        texts(final(files)@) == applied_all(texts(old(files)@), effects(es@)),
{
    let ghost all = effects(es@);
    let ghost start = texts(files@);
    let mut i: usize = 0;
    assert(all.take(0) =~= Seq::<EffectModel>::empty());
    while i < es.len()
        invariant
            i <= es@.len(),
            all == effects(es@),
            files.wf(),
            texts(files@) == applied_all(start, all.take(i as int)),
        decreases es@.len() - i,
    {
        assert(all.take(i + 1).drop_last() =~= all.take(i as int));
        assert(all[i as int] == es@[i as int]@);
        apply(files, &es[i]);
        i = i + 1;
    }
    assert(all.take(i as int) =~= all);
}

} // verus!

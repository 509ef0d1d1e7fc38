//! What is shown of a file that was written: its declarations and comments.
use vstd::prelude::*;

use crate::action::action_output;
use crate::action::action_output::preview_line;
use crate::text::case;
use crate::text::case::to_lower;
use crate::text::chars::{slice_text, to_chars};
use crate::text::search;
use crate::text::search::{lists, rfind_chars, starts_with};
use crate::text::space;
use crate::text::space::{lines, trim_start};

verus! {

/// The line starts that are worth showing in files with one of the extensions.
#[derive(Debug)]
pub struct LanguageRule {
    pub extensions: Vec<String>,
    pub markers: Vec<String>,
}

/// Which lines are shown of which files.
#[derive(Debug)]
pub struct SkeletonConfig {
    pub rules: Vec<LanguageRule>,
    /// Files with these extensions are shown whole.
    pub full_extensions: Vec<String>,
}

/// What is shown of a file.
#[derive(Debug)]
pub enum ExtractionResult {
    /// All of it.
    Full,
    /// These lines.
    Skeleton(Vec<String>),
    /// There is no rule for it, or the rule finds nothing.
    NoRule,
}

/// The first rule from `i` on that names an extension.
pub open spec fn rule_from(rules: Seq<LanguageRule>, ext: Seq<char>, i: int) -> Option<int>
    decreases rules.len() - i,
{
    if i < 0 || i >= rules.len() {
        None
    } else if search::views(rules[i].extensions@).contains(ext) {
        Some(i)
    } else {
        rule_from(rules, ext, i + 1)
    }
}

/// A line that, behind its indentation, starts with one of the markers.
pub open spec fn is_marked(line: Seq<char>, markers: Seq<Seq<char>>) -> bool {
    exists|k: int|
        0 <= k < markers.len() && search::has_prefix(
            space::trimmed_start(line),
            #[trigger] markers[k],
        )
}

/// The marked lines from `i` on, each behind its number.
pub open spec fn marked_lines(all: Seq<Seq<char>>, markers: Seq<Seq<char>>, i: int) -> Seq<
    Seq<char>,
>
    decreases all.len() - i,
{
    if i < 0 || i >= all.len() {
        Seq::empty()
    } else if is_marked(all[i], markers) {
        seq![action_output::preview_line_text((i + 1) as nat, all[i])] + marked_lines(
            all,
            markers,
            i + 1,
        )
    } else {
        marked_lines(all, markers, i + 1)
    }
}

/// The skeleton of a text by the rule for an extension, where there is one.
pub open spec fn skeleton_of(rules: Seq<LanguageRule>, ext: Seq<char>, content: Seq<char>) -> Option<
    Seq<Seq<char>>,
> {
    match rule_from(rules, ext, 0) {
        Some(i) => Some(
            marked_lines(space::lines_of(content), search::views(rules[i].markers@), 0),
        ),
        None => None,
    }
}

/// What follows the last dot of a path, in lower case; the whole path where it
/// has no dot.
pub open spec fn extension_of(path: Seq<char>) -> Seq<char> {
    case::lowercase_text(
        match search::rfind_text(path, "."@) {
            Some(i) => path.skip(i + 1),
            None => path,
        },
    )
}

fn marked(line: &str, markers: &Vec<String>) -> (r: bool)
    ensures
        r == is_marked(line@, search::views(markers@)),
{
    let t = trim_start(line);
    let ghost all = search::views(markers@);
    let mut i: usize = 0;
    while i < markers.len()
        invariant
            i <= markers@.len(),
            all == search::views(markers@),
            t@ == space::trimmed_start(line@),
            forall|k: int| 0 <= k < i ==> !search::has_prefix(t@, #[trigger] all[k]),
        decreases markers@.len() - i,
    {
        assert(all[i as int] == markers@[i as int]@);
        if starts_with(t.as_str(), markers[i].as_str()) {
            return true;
        }
        i = i + 1;
    }
    false
}

fn words(list: &[&str]) -> (r: Vec<String>)
    ensures
        r@.len() == list@.len(),
        forall|i: int| 0 <= i < list@.len() ==> (#[trigger] r@[i])@ == list@[i]@,
{
    let mut out: Vec<String> = Vec::new();
    let mut i: usize = 0;
    while i < list.len()
        invariant
            i <= list@.len(),
            out@.len() == i,
            forall|k: int| 0 <= k < i ==> (#[trigger] out@[k])@ == list@[k]@,
        decreases list@.len() - i,
    {
        out.push(list[i].to_string());
        i = i + 1;
    }
    out
}

fn rule(extensions: &[&str], markers: &[&str]) -> (r: LanguageRule)
    ensures
        search::views(r.extensions@) == extensions@.map_values(|s: &str| s@),
        search::views(r.markers@) == markers@.map_values(|s: &str| s@),
{
    let e = words(extensions);
    let m = words(markers);
    assert(search::views(e@) =~= extensions@.map_values(|s: &str| s@));
    assert(search::views(m@) =~= markers@.map_values(|s: &str| s@));
    LanguageRule { extensions: e, markers: m }
}

/// A rule that names these extensions and these markers.
pub open spec fn is_rule(r: LanguageRule, extensions: Seq<Seq<char>>, markers: Seq<Seq<char>>) -> bool {
    search::views(r.extensions@) == extensions && search::views(r.markers@) == markers
}

impl SkeletonConfig {
    /// The rules that come with the engine.
    pub fn get() -> (r: Self)
        ensures
            search::views(r.full_extensions@) == seq!["md"@],
            r.rules@.len() == 10,
            is_rule(r.rules@[0], seq!["rs"@], seq!["fn "@, "pub "@, "struct "@, "enum "@, "impl "@, "trait "@, "mod "@, "///"@, "//!"@, "type "@, "const "@, "static "@]),
            is_rule(r.rules@[1], seq!["py"@], seq!["def "@, "class "@, "@"@, "# "@]),
            is_rule(r.rules@[2], seq!["js"@, "ts"@, "jsx"@, "tsx"@], seq!["function "@, "class "@, "export "@, "const "@, "//"@, "/**"@]),
            is_rule(r.rules@[3], seq!["go"@], seq!["func "@, "type "@, "//"@]),
            is_rule(r.rules@[4], seq!["java"@, "kt"@], seq!["public "@, "private "@, "protected "@, "class "@, "interface "@, "//"@, "/**"@]),
            is_rule(r.rules@[5], seq!["html"@, "htm"@], seq!["<h1"@, "<h2"@, "<h3"@, "<h4"@, "<h5"@, "<h6"@, "<!--"@]),
            is_rule(r.rules@[6], seq!["sh"@, "bash"@], seq!["# "@, "function "@]),
            is_rule(r.rules@[7], seq!["toml"@], seq!["["@, "# "@]),
            is_rule(r.rules@[8], seq!["yaml"@, "yml"@], seq!["# "@]),
            is_rule(r.rules@[9], seq!["css"@, "scss"@], seq!["/*"@, "//"@, "."@]),
    {
        SkeletonConfig::load()
    }

    /// The rules that come with the engine.
    pub fn load() -> (r: Self)
        ensures
            search::views(r.full_extensions@) == seq!["md"@],
            r.rules@.len() == 10,
            is_rule(r.rules@[0], seq!["rs"@], seq!["fn "@, "pub "@, "struct "@, "enum "@, "impl "@, "trait "@, "mod "@, "///"@, "//!"@, "type "@, "const "@, "static "@]),
            is_rule(r.rules@[1], seq!["py"@], seq!["def "@, "class "@, "@"@, "# "@]),
            is_rule(r.rules@[2], seq!["js"@, "ts"@, "jsx"@, "tsx"@], seq!["function "@, "class "@, "export "@, "const "@, "//"@, "/**"@]),
            is_rule(r.rules@[3], seq!["go"@], seq!["func "@, "type "@, "//"@]),
            is_rule(r.rules@[4], seq!["java"@, "kt"@], seq!["public "@, "private "@, "protected "@, "class "@, "interface "@, "//"@, "/**"@]),
            is_rule(r.rules@[5], seq!["html"@, "htm"@], seq!["<h1"@, "<h2"@, "<h3"@, "<h4"@, "<h5"@, "<h6"@, "<!--"@]),
            is_rule(r.rules@[6], seq!["sh"@, "bash"@], seq!["# "@, "function "@]),
            is_rule(r.rules@[7], seq!["toml"@], seq!["["@, "# "@]),
            is_rule(r.rules@[8], seq!["yaml"@, "yml"@], seq!["# "@]),
            is_rule(r.rules@[9], seq!["css"@, "scss"@], seq!["/*"@, "//"@, "."@]),
    {
        let mut rules: Vec<LanguageRule> = Vec::new();
        rules.push(rule(&["rs"], &["fn ", "pub ", "struct ", "enum ", "impl ", "trait ", "mod ", "///", "//!", "type ", "const ", "static "]));
        rules.push(rule(&["py"], &["def ", "class ", "@", "# "]));
        rules.push(rule(&["js", "ts", "jsx", "tsx"], &["function ", "class ", "export ", "const ", "//", "/**"]));
        rules.push(rule(&["go"], &["func ", "type ", "//"]));
        rules.push(rule(&["java", "kt"], &["public ", "private ", "protected ", "class ", "interface ", "//", "/**"]));
        rules.push(rule(&["html", "htm"], &["<h1", "<h2", "<h3", "<h4", "<h5", "<h6", "<!--"]));
        rules.push(rule(&["sh", "bash"], &["# ", "function "]));
        rules.push(rule(&["toml"], &["[", "# "]));
        rules.push(rule(&["yaml", "yml"], &["# "]));
        rules.push(rule(&["css", "scss"], &["/*", "//", "."]));
        let full_extensions = words(&["md"]);
        let r = SkeletonConfig { rules, full_extensions };
        proof {
            assert(search::views(r.full_extensions@) =~= seq!["md"@]);
            assert(search::views(r.rules@[0].extensions@) =~= seq!["rs"@]);
            assert(search::views(r.rules@[0].markers@) =~= seq!["fn "@, "pub "@, "struct "@, "enum "@, "impl "@, "trait "@, "mod "@, "///"@, "//!"@, "type "@, "const "@, "static "@]);
            assert(search::views(r.rules@[1].extensions@) =~= seq!["py"@]);
            assert(search::views(r.rules@[1].markers@) =~= seq!["def "@, "class "@, "@"@, "# "@]);
            assert(search::views(r.rules@[2].extensions@) =~= seq!["js"@, "ts"@, "jsx"@, "tsx"@]);
            assert(search::views(r.rules@[2].markers@) =~= seq!["function "@, "class "@, "export "@, "const "@, "//"@, "/**"@]);
            assert(search::views(r.rules@[3].extensions@) =~= seq!["go"@]);
            assert(search::views(r.rules@[3].markers@) =~= seq!["func "@, "type "@, "//"@]);
            assert(search::views(r.rules@[4].extensions@) =~= seq!["java"@, "kt"@]);
            assert(search::views(r.rules@[4].markers@) =~= seq!["public "@, "private "@, "protected "@, "class "@, "interface "@, "//"@, "/**"@]);
            assert(search::views(r.rules@[5].extensions@) =~= seq!["html"@, "htm"@]);
            assert(search::views(r.rules@[5].markers@) =~= seq!["<h1"@, "<h2"@, "<h3"@, "<h4"@, "<h5"@, "<h6"@, "<!--"@]);
            assert(search::views(r.rules@[6].extensions@) =~= seq!["sh"@, "bash"@]);
            assert(search::views(r.rules@[6].markers@) =~= seq!["# "@, "function "@]);
            assert(search::views(r.rules@[7].extensions@) =~= seq!["toml"@]);
            assert(search::views(r.rules@[7].markers@) =~= seq!["["@, "# "@]);
            assert(search::views(r.rules@[8].extensions@) =~= seq!["yaml"@, "yml"@]);
            assert(search::views(r.rules@[8].markers@) =~= seq!["# "@]);
            assert(search::views(r.rules@[9].extensions@) =~= seq!["css"@, "scss"@]);
            assert(search::views(r.rules@[9].markers@) =~= seq!["/*"@, "//"@, "."@]);
        }
        r
    }

    /// The skeleton of a text by the rule for an extension; nothing where there
    /// is no rule.
    pub fn extract(&self, ext: &str, content: &str) -> (r: Option<Vec<String>>)
        ensures
            match r {
                Some(v) => skeleton_of(self.rules@, ext@, content@) == Some(search::views(v@)),
                None => skeleton_of(self.rules@, ext@, content@) is None,
            },
    {
        let mut k: usize = 0;
        while k < self.rules.len()
            invariant
                k <= self.rules@.len(),
                rule_from(self.rules@, ext@, 0) == rule_from(self.rules@, ext@, k as int),
            decreases self.rules@.len() - k,
        {
            if lists(&self.rules[k].extensions, ext) {
                let all = lines(content);
                let ghost whole = search::views(all@);
                let ghost marks = search::views(self.rules@[k as int].markers@);
                let mut out: Vec<String> = Vec::new();
                let mut i: usize = 0;
                assert(search::views(out@) + marked_lines(whole, marks, 0) =~= marked_lines(
                    whole,
                    marks,
                    0,
                ));
                while i < all.len()
                    invariant
                        k < self.rules@.len(),
                        i <= all@.len(),
                        whole == search::views(all@),
                        marks == search::views(self.rules@[k as int].markers@),
                        search::views(out@) + marked_lines(whole, marks, i as int) == marked_lines(
                            whole,
                            marks,
                            0,
                        ),
                    decreases all@.len() - i,
                {
                    assert(whole[i as int] == all@[i as int]@);
                    let n: usize = all.len();
                    if marked(all[i].as_str(), &self.rules[k].markers) {
                        let line = preview_line(i + 1, all[i].as_str());
                        proof {
                            let before = search::views(out@);
                            search::lemma_views_push(out@, line);
                            assert(before + (seq![line@] + marked_lines(whole, marks, i + 1))
                                =~= before.push(line@) + marked_lines(whole, marks, i + 1));
                        }
                        out.push(line);
                    }
                    i = i + 1;
                }
                assert(search::views(out@) + Seq::<Seq<char>>::empty() =~= search::views(out@));
                return Some(out);
            }
            k = k + 1;
        }
        None
    }

    /// What is shown of a file.
    pub fn extract_from_path(&self, path: &str, content: &str) -> (r: ExtractionResult)
        ensures
            ({
                let ext = extension_of(path@);
                let skeleton = skeleton_of(self.rules@, ext, content@);
                if search::views(self.full_extensions@).contains(ext) {
                    r is Full
                } else if skeleton is Some && skeleton->0.len() > 0 {
                    r matches ExtractionResult::Skeleton(v) && search::views(v@) == skeleton->0
                } else {
                    r is NoRule
                }
            }),
    {
        let v = to_chars(path);
        let dot = to_chars(".");
        proof {
            reveal_strlit(".");
        }
        let n: usize = v.len();
        let raw = match rfind_chars(&v, &dot) {
            Some(i) => {
                let s = slice_text(&v, i + 1, n);
                assert(s@ =~= path@.skip(i + 1));
                s
            },
            None => path.to_string(),
        };
        let ext = to_lower(raw.as_str());
        if lists(&self.full_extensions, ext.as_str()) {
            return ExtractionResult::Full;
        }
        match self.extract(ext.as_str(), content) {
            Some(skeleton) => {
                assert(search::views(skeleton@).len() == skeleton@.len());
                if skeleton.len() > 0 {
                    ExtractionResult::Skeleton(skeleton)
                } else {
                    ExtractionResult::NoRule
                }
            },
            None => ExtractionResult::NoRule,
        }
    }
}

} // verus!

//! Asking the model to condense an agent's history.
use vstd::prelude::*;

use crate::inference::capture;
use crate::inference::capture::{read_single_field, single_field_schema};
use crate::text::search;

verus! {

/// What the model is told to do.
pub const COMPRESS_INSTRUCTIONS: &'static str =
    "你是一位小说作家。请将下列内容浓缩为一篇短篇随笔，纪念一个agent和它的用户之间的故事，供agent回忆与用户之间的经历。用第二人称（你）叙述。重要的准则和术语用 > 引用标记。";

/// What is to be condensed, and how far.
#[derive(Debug)]
pub struct CompressRequest {
    pub requirement: String,
    pub content: String,
}

/// The prompt for condensing a history.
pub open spec fn compress_text(q: CompressRequest) -> Seq<char> {
    COMPRESS_INSTRUCTIONS@ + "\n"@ + "\n### 压缩要求 ###\n"@ + q.requirement@
        + "\n\n### 待压缩内容 ###\n"@ + q.content@ + "\n"@
}

impl CompressRequest {
    /// Renders the prompt.
    pub fn to_markdown(&self) -> (r: String)
        ensures
            r@ == compress_text(*self),
    {
        let mut s = COMPRESS_INSTRUCTIONS.to_string();
        s.push_str("\n");
        s.push_str("\n### 压缩要求 ###\n");
        s.push_str(self.requirement.as_str());
        s.push_str("\n\n### 待压缩内容 ###\n");
        s.push_str(self.content.as_str());
        s.push_str("\n");
        s
    }
}

/// The condensed history.
#[derive(Debug)]
pub struct CompressOutput {
    pub summary: String,
}

impl CompressOutput {
    /// Says how the condensed history is to be written.
    pub fn schema_markdown(token: &str) -> (r: String)
        ensures
            r@ == capture::single_field_schema_text(
                "CompressOutput"@,
                "summary"@,
                "随笔"@,
                token@,
            ),
    {
        single_field_schema("CompressOutput", "summary", "随笔", token)
    }

    /// Reads the condensed history from an answer.
    pub fn from_markdown(text: &str, token: &str) -> (r: Result<Vec<CompressOutput>, String>)
        ensures
            match r {
                Ok(v) => capture::single_field_answer(
                    "CompressOutput"@,
                    "summary"@,
                    text@,
                    token@,
                ) == Ok::<Seq<Seq<char>>, Seq<char>>(
                    v@.map_values(|o: CompressOutput| o.summary@),
                ),
                Err(e) => capture::single_field_answer(
                    "CompressOutput"@,
                    "summary"@,
                    text@,
                    token@,
                ) == Err::<Seq<Seq<char>>, Seq<char>>(e@),
            },
    {
        match read_single_field("CompressOutput", "summary", text, token) {
            Err(e) => Err(e),
            Ok(v) => {
                let mut out: Vec<CompressOutput> = Vec::new();
                let mut i: usize = 0;
                while i < v.len()
                    invariant
                        i <= v@.len(),
                        out@.len() == i,
                        forall|k: int|
                            0 <= k < i ==> (#[trigger] out@[k]).summary@ == v@[k]@,
                    decreases v@.len() - i,
                {
                    out.push(CompressOutput { summary: v[i].clone() });
                    i = i + 1;
                }
                assert(out@.map_values(|o: CompressOutput| o.summary@) =~= search::views(v@));
                Ok(out)
            },
        }
    }
}

} // verus!

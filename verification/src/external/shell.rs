//! Running commands: which command is run, what it reads, and what is kept of
//! what it writes.
use vstd::prelude::*;

use std::time::Duration;

use crate::clock;
use crate::clock::random_hex;
use crate::codec;
use crate::codec::text_lossy;
use crate::text::chars::{slice_text, to_chars};
use crate::text::number;
use crate::text::number::{parse_u64, push_dec_int};
use crate::text::path;
use crate::text::path::{has_parent_step, join_path};
use crate::text::search;
use crate::text::search::starts_with;
use crate::text::space;
use crate::text::space::{lines, trim};

verus! {

/// Where a path that an action names points: an absolute path stands for itself,
/// any other one lies below the workspace. One that steps up is refused.
pub open spec fn action_path(workspace: Seq<char>, path: Seq<char>) -> Option<Seq<char>> {
    if search::has_prefix(path, "/"@) {
        Some(path)
    } else if path::steps_up(path) {
        None
    } else {
        Some(path::joined_path(workspace, path))
    }
}

/// Resolves a path that an action names.
pub fn resolve_action_path(workspace: &str, path: &str) -> (r: Result<String, String>)
    ensures
        match r {
            Ok(p) => action_path(workspace@, path@) == Some(p@),
            Err(e) => action_path(workspace@, path@) is None && e@ == "Path traversal rejected: "@
                + path@,
        },
{
    if starts_with(path, "/") {
        Ok(path.to_string())
    } else if has_parent_step(path) {
        let mut e = "Path traversal rejected: ".to_string();
        e.push_str(path);
        Err(e)
    } else {
        Ok(join_path(workspace, path))
    }
}

/// A relative path that is accepted points below the workspace, and never steps
/// up from there.
pub proof fn law_relative_paths_stay_inside(workspace: Seq<char>, path: Seq<char>)
    requires
        !search::has_prefix(path, "/"@),
        action_path(workspace, path) is Some,
    ensures
        search::has_prefix(action_path(workspace, path)->0, workspace),
        search::has_suffix(action_path(workspace, path)->0, path),
        !search::split_text(path, "/"@).contains(".."@),
{
    let p = action_path(workspace, path)->0;
    assert(p.subrange(0, workspace.len() as int) =~= workspace);
    assert(p.subrange(p.len() - path.len(), p.len() as int) =~= path);
}

/// Most bytes of output that are kept.
pub const MAX_OUTPUT_BYTES: usize = 1_048_576;

/// How long a command may run, in milliseconds.
pub const DEFAULT_TIMEOUT_MS: u64 = 300_000;

/// Most bytes that are asked for at once.
pub const READ_CHUNK_BYTES: usize = 8192;

/// Why a command gave no output.
#[derive(Debug)]
pub enum ShellError {
    /// It ran longer than it may, in milliseconds.
    Timeout(u64),
    /// It could not be run.
    Io(String),
    /// Its output was no text.
    Utf8(String),
}

/// What a command gave.
#[derive(Debug)]
pub struct ShellOutput {
    /// What it wrote to both of its outputs, as far as it was kept.
    pub output: String,
    /// How it ended, unless it was killed.
    pub exit_code: Option<i32>,
    /// Whether more was written than is kept.
    pub truncated: bool,
    /// How long it ran.
    pub duration: Duration,
}

/// How an exit code is shown.
pub open spec fn exit_code_text(code: Option<i32>) -> Seq<char> {
    match code {
        Some(c) => number::dec_int(c as int),
        None => "unknown"@,
    }
}

impl ShellOutput {
    /// Whether the command ended well.
    pub fn success(&self) -> (r: bool)
        ensures
            r == (self.exit_code == Some(0i32)),
    {
        match self.exit_code {
            Some(c) => c == 0,
            None => false,
        }
    }

    /// The exit code as it is shown.
    pub fn exit_code_display(&self) -> (r: String)
        ensures
            r@ == exit_code_text(self.exit_code),
    {
        match self.exit_code {
            Some(c) => {
                let mut s = String::new();
                push_dec_int(&mut s, c as i64);
                assert(s@ =~= number::dec_int(c as int));
                s
            },
            None => "unknown".to_string(),
        }
    }
}

/// The first `n` bytes, or all where there are fewer.
pub open spec fn first_bytes(s: Seq<u8>, n: nat) -> Seq<u8> {
    if s.len() <= n {
        s
    } else {
        s.take(n as int)
    }
}

/// Gathers what a command writes, up to a limit.
#[derive(Debug)]
pub struct OutputCollector {
    pub bytes: Vec<u8>,
    pub max_output: usize,
    /// Whether more was written than is kept.
    pub over: bool,
}

/// What is kept of output that comes in pieces.
pub open spec fn gathered(pieces: Seq<Seq<u8>>, max: nat) -> Seq<u8>
    decreases pieces.len(),
{
    if pieces.len() == 0 {
        Seq::empty()
    } else {
        first_bytes(gathered(pieces.drop_last(), max) + pieces.last(), max)
    }
}

/// The pieces one after the other.
pub open spec fn all_bytes(pieces: Seq<Seq<u8>>) -> Seq<u8>
    decreases pieces.len(),
{
    if pieces.len() == 0 {
        Seq::empty()
    } else {
        all_bytes(pieces.drop_last()) + pieces.last()
    }
}

/// Whether something is left out of output that comes in pieces.
pub open spec fn overflowed(pieces: Seq<Seq<u8>>, max: nat) -> bool
    decreases pieces.len(),
{
    if pieces.len() == 0 {
        false
    } else {
        overflowed(pieces.drop_last(), max) || gathered(pieces.drop_last(), max).len()
            + pieces.last().len() > max
    }
}

/// What is kept of a command's output is the start of everything that was written,
/// however it was cut into pieces; and something is left out exactly where more was
/// written than the limit allows.
pub proof fn law_output_is_a_prefix(pieces: Seq<Seq<u8>>, max: nat)
    ensures
        gathered(pieces, max) == first_bytes(all_bytes(pieces), max),
        overflowed(pieces, max) == (all_bytes(pieces).len() > max),
    decreases pieces.len(),
{
    if pieces.len() > 0 {
        let before = all_bytes(pieces.drop_last());
        law_output_is_a_prefix(pieces.drop_last(), max);
        assert(gathered(pieces, max) =~= first_bytes(before + pieces.last(), max));
    }
}

impl OutputCollector {
    /// No more is kept than the limit allows.
    pub open spec fn wf(self) -> bool {
        self.bytes@.len() <= self.max_output
    }

    pub fn new(max_output: usize) -> (r: Self)
        ensures
            r.wf(),
            r.bytes@ == Seq::<u8>::empty(),
            r.max_output == max_output,
            !r.over,
    {
        OutputCollector { bytes: Vec::new(), max_output, over: false }
    }

    /// How many bytes to ask for next: one more than can be kept, at most a chunk;
    /// none once it is known that something is left out.
    pub fn wanted(&self) -> (r: usize)
        requires
            self.wf(),
        ensures
            r == (if self.over {
                0
            } else if self.max_output - self.bytes@.len() < READ_CHUNK_BYTES {
                self.max_output - self.bytes@.len() + 1
            } else {
                READ_CHUNK_BYTES as int
            }),
    {
        if self.over {
            0
        } else if self.max_output - self.bytes.len() < READ_CHUNK_BYTES {
            self.max_output - self.bytes.len() + 1
        } else {
            READ_CHUNK_BYTES
        }
    }

    /// Takes in a piece, as far as the limit allows.
    pub fn take(&mut self, piece: &[u8])
        requires
            old(self).wf(),
        ensures
            final(self).wf(),
            final(self).max_output == old(self).max_output,
            final(self).bytes@ == first_bytes(
                old(self).bytes@ + piece@,
                old(self).max_output as nat,
            ),
            final(self).over == (old(self).over || old(self).bytes@.len() + piece@.len()
                > old(self).max_output),
    {
        let ghost start = self.bytes@;
        let mut i: usize = 0;
        while i < piece.len() && self.bytes.len() < self.max_output
            invariant
                i <= piece@.len(),
                self.max_output == old(self).max_output,
                self.over == old(self).over,
                self.bytes@ == start + piece@.take(i as int),
                self.bytes@.len() <= self.max_output,
            decreases piece@.len() - i,
        {
            self.bytes.push(piece[i]);
            i = i + 1;
            assert(piece@.take(i as int) =~= piece@.take(i - 1).push(piece@[i - 1]));
        }
        if i < piece.len() {
            self.over = true;
        }
        assert(self.bytes@ =~= first_bytes(start + piece@, self.max_output as nat));
    }

    /// What the command gave, once it has ended.
    pub fn finish(self, exit_code: Option<i32>, duration: Duration) -> (r: ShellOutput)
        ensures
            r.output@ == codec::lossy_text(self.bytes@),
            vstd::utf8::valid_utf8(self.bytes@) ==> r.output@ == vstd::utf8::decode_utf8(
                self.bytes@,
            ),
            r.exit_code == exit_code,
            r.truncated == self.over,
            r.duration == duration,
    {
        let output = text_lossy(self.bytes.as_slice());
        ShellOutput { output, exit_code, truncated: self.over, duration }
    }
}

/// A command to run.
#[derive(Debug)]
pub struct CommandPlan {
    pub program: String,
    pub args: Vec<String>,
    /// The directory to run it in, where that matters.
    pub dir: Option<String>,
    /// What it is given to read.
    pub stdin: String,
}

/// A path with every quote written so that it can stand between single quotes.
pub open spec fn escaped(path: Seq<char>) -> Seq<char>
    decreases path.len(),
{
    if path.len() == 0 {
        Seq::empty()
    } else if path.last() == '\'' {
        escaped(path.drop_last()) + seq!['\'', '\\', '\'', '\'']
    } else {
        escaped(path.drop_last()).push(path.last())
    }
}

/// What a shell takes a word for, and whether a quotation is left open at its
/// end: between single quotes every character stands for itself, outside of them
/// a backslash makes the next character do so.
pub open spec fn read_word(word: Seq<char>) -> (Seq<char>, bool, bool)
    decreases word.len(),
{
    if word.len() == 0 {
        (Seq::empty(), false, false)
    } else {
        let (text, quoted, backslash) = read_word(word.drop_last());
        let c = word.last();
        if backslash {
            (text.push(c), quoted, false)
        } else if c == '\'' {
            (text, !quoted, false)
        } else if c == '\\' && !quoted {
            (text, quoted, true)
        } else {
            (text.push(c), quoted, false)
        }
    }
}

proof fn lemma_read_word_push(word: Seq<char>, c: char)
    ensures
        ({
            let (text, quoted, backslash) = read_word(word);
            read_word(word.push(c)) == if backslash {
                (text.push(c), quoted, false)
            } else if c == '\'' {
                (text, !quoted, false)
            } else if c == '\\' && !quoted {
                (text, quoted, true)
            } else {
                (text.push(c), quoted, false)
            }
        }),
{
    assert(word.push(c).drop_last() =~= word);
}

proof fn lemma_read_escaped(path: Seq<char>)
    ensures
        read_word(seq!['\''] + escaped(path)) == (path, true, false),
    decreases path.len(),
{
    let open = seq!['\''];
    if path.len() == 0 {
        lemma_read_word_push(Seq::empty(), '\'');
        assert(open + escaped(path) =~= Seq::<char>::empty().push('\''));
        assert(path =~= Seq::<char>::empty());
    } else {
        let rest = path.drop_last();
        lemma_read_escaped(rest);
        let w = open + escaped(rest);
        assert(rest.push(path.last()) =~= path);
        if path.last() == '\'' {
            lemma_read_word_push(w, '\'');
            lemma_read_word_push(w.push('\''), '\\');
            lemma_read_word_push(w.push('\'').push('\\'), '\'');
            lemma_read_word_push(w.push('\'').push('\\').push('\''), '\'');
            assert(open + escaped(path) =~= w.push('\'').push('\\').push('\'').push('\''));
        } else {
            lemma_read_word_push(w, path.last());
            assert(open + escaped(path) =~= w.push(path.last()));
        }
    }
}

/// Whatever a path holds, a shell reads the quoted path as that path.
pub proof fn law_quoted_paths_read_back(path: Seq<char>)
    ensures
        read_word("'"@ + escaped(path) + "'"@) == (path, false, false),
{
    reveal_strlit("'");
    lemma_read_escaped(path);
    let w = seq!['\''] + escaped(path);
    lemma_read_word_push(w, '\'');
    assert("'"@ =~= seq!['\'']);
    assert("'"@ + escaped(path) + "'"@ =~= w.push('\''));
}

/// A path as it can stand between single quotes.
pub fn escape_quotes(path: &str) -> (r: String)
    ensures
        r@ == escaped(path@),
{
    let v = to_chars(path);
    let mut s = String::new();
    let mut i: usize = 0;
    assert(v@.take(0) =~= Seq::<char>::empty());
    while i < v.len()
        invariant
            i <= v@.len(),
            s@ == escaped(v@.take(i as int)),
        decreases v@.len() - i,
    {
        let ghost next = v@.take(i + 1);
        assert(next.drop_last() =~= v@.take(i as int));
        if v[i] == '\'' {
            s.push('\'');
            s.push('\\');
            s.push('\'');
            s.push('\'');
            assert(s@ =~= escaped(next));
        } else {
            s.push(v[i]);
        }
        i = i + 1;
    }
    assert(v@.take(i as int) =~= path@);
    s
}

/// The script that writes a file: its directory is made first, and the content
/// is given between two marks.
pub open spec fn write_script(path: Seq<char>, content: Seq<char>, mark: Seq<char>) -> Seq<char> {
    "mkdir -p \"$(dirname '"@ + escaped(path) + "')\" && cat > '"@ + escaped(path) + "' << '"@
        + mark + "'\n"@ + content + "\n"@ + mark
}

/// The script that writes a file, with a given mark.
pub fn marked_write_script(path: &str, content: &str, mark: &str) -> (r: String)
    ensures
        r@ == write_script(path@, content@, mark@),
{
    let p = escape_quotes(path);
    let mut s = "mkdir -p \"$(dirname '".to_string();
    s.push_str(p.as_str());
    s.push_str("')\" && cat > '");
    s.push_str(p.as_str());
    s.push_str("' << '");
    s.push_str(mark);
    s.push_str("'\n");
    s.push_str(content);
    s.push_str("\n");
    s.push_str(mark);
    s
}

/// Runs commands in a working directory, as a user of its own or not.
#[derive(Debug)]
pub struct Shell {
    pub working_dir: String,
    /// How long a command may run, in milliseconds.
    pub timeout_ms: u64,
    /// Most bytes of output that are kept.
    pub max_output: usize,
    /// The system user that commands run as.
    pub sandbox_user: Option<String>,
}

/// A command line as it is planned.
pub open spec fn plans(
    p: CommandPlan,
    user: Option<String>,
    script: Seq<char>,
    dir: Seq<char>,
) -> bool {
    match user {
        Some(u) => {
            &&& p.program@ == "su"@
            &&& search::views(p.args@) == seq!["-"@, u@, "-c"@, "bash -s"@]
            &&& p.dir is None
            &&& p.stdin@ == "cd "@ + dir + " && "@ + script
        },
        None => {
            &&& p.program@ == "/bin/bash"@
            &&& p.args@.len() == 0
            &&& p.dir is Some
            &&& p.dir->0@ == dir
            &&& p.stdin@ == script
        },
    }
}

impl Shell {
    pub fn new(working_dir: String, sandbox_user: Option<String>) -> (r: Self)
        ensures
            r.working_dir@ == working_dir@,
            r.timeout_ms == DEFAULT_TIMEOUT_MS,
            r.max_output == MAX_OUTPUT_BYTES,
            r.sandbox_user == sandbox_user,
    {
        Shell {
            working_dir,
            timeout_ms: DEFAULT_TIMEOUT_MS,
            max_output: MAX_OUTPUT_BYTES,
            sandbox_user,
        }
    }

    pub fn with_timeout(self, timeout_ms: u64) -> (r: Self)
        ensures
            r == (Shell { timeout_ms, ..self }),
    {
        Shell { timeout_ms, ..self }
    }

    pub fn with_max_output(self, max: usize) -> (r: Self)
        ensures
            r == (Shell { max_output: max, ..self }),
    {
        Shell { max_output: max, ..self }
    }

    /// The user that commands of an instance run as, where the system has it.
    pub fn detect_sandbox_user(instance_id: &str, exists: bool) -> (r: Option<String>)
        ensures
            match r {
                Some(u) => exists && u@ == "agent-"@ + instance_id@,
                None => !exists,
            },
    {
        if exists {
            Some(sandbox_user_name("agent-", instance_id))
        } else {
            None
        }
    }

    /// How a script is run in a directory: as the sandbox user, who changes into
    /// the directory first, or by a plain shell that is started there.
    pub fn exec_in_dir(&self, script: &str, dir: &str) -> (r: CommandPlan)
        ensures
            plans(r, self.sandbox_user, script@, dir@),
    {
        match &self.sandbox_user {
            Some(u) => {
                let mut args: Vec<String> = Vec::new();
                args.push("-".to_string());
                args.push(u.clone());
                args.push("-c".to_string());
                args.push("bash -s".to_string());
                assert(search::views(args@) =~= seq!["-"@, u@, "-c"@, "bash -s"@]);
                let mut stdin = "cd ".to_string();
                stdin.push_str(dir);
                stdin.push_str(" && ");
                stdin.push_str(script);
                CommandPlan { program: "su".to_string(), args, dir: None, stdin }
            },
            None => CommandPlan {
                program: "/bin/bash".to_string(),
                args: Vec::new(),
                dir: Some(dir.to_string()),
                stdin: script.to_string(),
            },
        }
    }

    /// How a script is run in the working directory.
    pub fn exec(&self, script: &str) -> (r: CommandPlan)
        ensures
            plans(r, self.sandbox_user, script@, self.working_dir@),
    {
        self.exec_in_dir(script, self.working_dir.as_str())
    }

    /// How a file is read.
    pub fn read_file(&self, path: &str) -> (r: CommandPlan)
        ensures
            plans(
                r,
                self.sandbox_user,
                "cat '"@ + escaped(path@) + "'"@,
                self.working_dir@,
            ),
    {
        let p = escape_quotes(path);
        let mut s = "cat '".to_string();
        s.push_str(p.as_str());
        s.push_str("'");
        self.exec(s.as_str())
    }

    /// How a file is written. The mark around the content is drawn anew each
    /// time.
    pub fn write_file(&self, path: &str, content: &str) -> (r: CommandPlan)
        ensures
            exists|hex: Seq<char>| #[trigger]
                clock::hex_text(hex, 32) && plans(
                    r,
                    self.sandbox_user,
                    write_script(path@, content@, "HEREDOC_"@ + hex),
                    self.working_dir@,
                ),
    {
        let hex = random_hex();
        let mut mark = "HEREDOC_".to_string();
        mark.push_str(hex.as_str());
        let s = marked_write_script(path, content, mark.as_str());
        let r = self.exec(s.as_str());
        assert(clock::hex_text(hex@, 32));
        r
    }
}

/// Drops the letters `M` at the end of a text.
pub open spec fn without_unit(s: Seq<char>) -> Seq<char>
    decreases s.len(),
{
    if s.len() > 0 && s.last() == 'M' {
        without_unit(s.drop_last())
    } else {
        s
    }
}

/// The free megabytes that a report of `df -BM --output=avail` tells: its second
/// line is the number.
pub open spec fn reported_mb(report: Seq<char>) -> Option<u64> {
    let all = space::lines_of(report);
    if all.len() < 2 {
        None
    } else {
        number::u64_of(without_unit(space::trimmed(all[1])))
    }
}

/// Reads how many megabytes are free.
pub fn available_mb(report: &str) -> (r: Option<u64>)
    ensures
        r == reported_mb(report@),
{
    let all = lines(report);
    if all.len() < 2 {
        assert(search::views(all@).len() == all@.len());
        return None;
    }
    assert(search::views(all@)[1] == all@[1]@);
    let t = trim(all[1].as_str());
    let v = to_chars(t.as_str());
    let mut n: usize = v.len();
    assert(v@.take(n as int) =~= v@);
    while n > 0 && v[n - 1] == 'M'
        invariant
            n <= v@.len(),
            without_unit(v@) == without_unit(v@.take(n as int)),
        decreases n,
    {
        assert(v@.take(n as int).drop_last() =~= v@.take(n - 1));
        n = n - 1;
    }
    let s = slice_text(&v, 0, n);
    assert(s@ =~= v@.take(n as int));
    parse_u64(s.as_str())
}

/// The name of the system user of an instance.
pub fn sandbox_user_name(prefix: &str, name: &str) -> (r: String)
    ensures
        r@ == prefix@ + name@,
{
    let mut s = prefix.to_string();
    s.push_str(name);
    s
}

/// What is done to give an instance a system user.
#[derive(Debug)]
pub enum SandboxStep {
    /// Ask whether the user is there.
    Check { args: Vec<String> },
    /// Make the user.
    Create { args: Vec<String> },
    /// Hand the workspace over.
    Own { args: Vec<String> },
    Done,
    Failed(String),
}

/// The first step: whether the user is there.
pub fn first_sandbox_step(user: &str) -> (r: SandboxStep)
    ensures
        r matches SandboxStep::Check { args } && search::views(args@) == seq![user@],
{
    let mut args: Vec<String> = Vec::new();
    args.push(user.to_string());
    assert(search::views(args@) =~= seq![user@]);
    SandboxStep::Check { args }
}

/// What follows a step: a user that is not there is made, the workspace is handed
/// over in any case, and only a user that cannot be made is an error.
pub open spec fn step_follows(
    step: SandboxStep,
    success: bool,
    stderr: Seq<char>,
    user: Seq<char>,
    workspace: Seq<char>,
    next: SandboxStep,
) -> bool {
    match step {
        SandboxStep::Check { .. } => if success {
            next matches SandboxStep::Own { args } && search::views(args@) == seq![
                "-R"@,
                user + ":"@ + user,
                workspace,
            ]
        } else {
            next matches SandboxStep::Create { args } && search::views(args@) == seq![
                "-r"@,
                "-s"@,
                "/bin/bash"@,
                "--home-dir"@,
                workspace,
                user,
            ]
        },
        SandboxStep::Create { .. } => if success {
            next matches SandboxStep::Own { args } && search::views(args@) == seq![
                "-R"@,
                user + ":"@ + user,
                workspace,
            ]
        } else {
            next matches SandboxStep::Failed(e) && e@ == "Failed to create sandbox user '"@ + user
                + "': "@ + space::trimmed(stderr)
        },
        SandboxStep::Own { .. } => next is Done,
        SandboxStep::Done => next is Done,
        SandboxStep::Failed(e) => next == SandboxStep::Failed(e),
    }
}

fn own_step(user: &str, workspace: &str) -> (r: SandboxStep)
    ensures
        r matches SandboxStep::Own { args } && search::views(args@) == seq![
            "-R"@,
            user@ + ":"@ + user@,
            workspace@,
        ],
{
    let mut owner = user.to_string();
    owner.push_str(":");
    owner.push_str(user);
    let mut args: Vec<String> = Vec::new();
    args.push("-R".to_string());
    args.push(owner);
    args.push(workspace.to_string());
    assert(search::views(args@) =~= seq!["-R"@, user@ + ":"@ + user@, workspace@]);
    SandboxStep::Own { args }
}

/// Goes on from a step by how it ended.
pub fn next_sandbox_step(
    step: SandboxStep,
    success: bool,
    stderr: &str,
    user: &str,
    workspace: &str,
) -> (r: SandboxStep)
    ensures
        step_follows(step, success, stderr@, user@, workspace@, r),
{
    match step {
        SandboxStep::Check { .. } => if success {
            own_step(user, workspace)
        } else {
            let mut args: Vec<String> = Vec::new();
            args.push("-r".to_string());
            args.push("-s".to_string());
            args.push("/bin/bash".to_string());
            args.push("--home-dir".to_string());
            args.push(workspace.to_string());
            args.push(user.to_string());
            assert(search::views(args@) =~= seq![
                "-r"@,
                "-s"@,
                "/bin/bash"@,
                "--home-dir"@,
                workspace@,
                user@,
            ]);
            SandboxStep::Create { args }
        },
        SandboxStep::Create { .. } => if success {
            own_step(user, workspace)
        } else {
            let mut e = "Failed to create sandbox user '".to_string();
            e.push_str(user);
            e.push_str("': ");
            let t = trim(stderr);
            e.push_str(t.as_str());
            SandboxStep::Failed(e)
        },
        SandboxStep::Own { .. } => SandboxStep::Done,
        SandboxStep::Done => SandboxStep::Done,
        SandboxStep::Failed(e) => SandboxStep::Failed(e),
    }
}

} // verus!

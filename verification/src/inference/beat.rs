//! What the model is shown in one beat.
use vstd::prelude::*;
use vstd::string::StrSliceExecFns;

use crate::action::action_output;
use crate::bindings::i18n;
use crate::clock::now_timestamp;
use crate::inference::render;
use crate::text::chars::{same_text, slice_text, to_chars};
use crate::text::number;
use crate::text::number::{decimal, push_dec};
use crate::text::search;
use crate::text::search::{find_chars, join, matches_at, replace};
use crate::text::space;
use crate::text::space::{blank, lines, trim, trim_start};

verus! {

/// The heading of the guide.
pub const RESERVED_SKILL_HEADING: &'static str = "### knowledge: app-development ###\n";

/// The guide that every agent is given; the names in braces are filled in.
pub const RESERVED_SKILL_TEMPLATE: &'static str = r#"# App 开发指南

当用户要求你开发app时，你拥有以下能力：
- **静态文件托管**：将文件放在工作空间中，通过 http://{host}/serve/{instance}/{路径} 访问
- **公开访问**：将文件放在 workspace/apps/ 目录下，任何人无需登录即可通过 http://{host}/public/{instance}/apps/{路径} 访问
- **本地服务**：启动 Python/Node 等服务监听端口，通过下面两种方式之一让用户访问
- **数据持久化**：系统已预装sqlite3，推荐每个app使用独立的SQLite数据库文件（如 app目录/data.db）

## 网络访问方式

启动本地服务后，用户如何访问取决于网络环境。**请先和用户确认**：

### 情况一：用户可以直达你的机器

如果满足以下任一条件：
- 你运行在用户的本地电脑上（localhost）
- 你在云服务器上，有公网IP，且用户已在安全组/防火墙放行了对应端口

那么用户可以直接访问 `http://{IP或localhost}:{端口}/`。这种情况下代码没有路径限制，正常开发即可。

### 情况二：用户无法直达，需要反向代理

如果用户无法直接访问你的端口（比如没有公网IP、端口未放行、或通过网关中转），可以使用内置的反向代理：`http://{host}/proxy/{端口}/{路径}`（端口范围1024-65535）。

**⚠️ 反向代理下必须使用相对路径**

浏览器地址栏的URL前缀是 `/proxy/{端口}/`。如果代码中使用绝对路径（以 `/` 开头），浏览器会直接访问 `/xxx` 而丢失前缀，导致404。

**原则：所有路径都不带前导 `/`，使用相对路径。**

常见错误和正确写法：

| 场景 | ❌ 错误 | ✅ 正确 |
|------|---------|---------|
| HTML链接 | `<a href="/login">` | `<a href="login">` |
| 表单提交 | `<form action="/api/submit">` | `<form action="api/submit">` |
| JS fetch | `fetch('/api/data')` | `fetch('api/data')` |
| JS跳转 | `location.href = '/dashboard'` | `location.href = 'dashboard'` |
| CSS资源 | `url('/static/bg.png')` | `url('static/bg.png')` |
| 重定向 | `redirect("/login")` | `redirect("login")` |
| 静态文件引用 | `<script src="/js/app.js">` | `<script src="js/app.js">` |

**后端重定向也要注意**：Python Flask 的 `redirect("/login")` 会生成绝对路径的 Location header。用 `redirect("login")` 或返回相对路径。

**自查清单**：写完代码后，全局搜索 `href="/`、`src="/`、`action="/`、`fetch('/`、`url('/`、`redirect("/`，把所有绝对路径改成相对路径。

### 不确定？

如果你不清楚用户的网络环境，主动问一句："你能直接访问我这台机器的端口吗？比如在浏览器打开 http://{IP}:8080 试试。如果不行，我用反向代理给你。"

## 规范日志

开发app时，养成写规范日志的习惯：

**带速查标记前缀：**
```
[AUTH] User login: user_id=123
[ORDER-a1b2] Payment callback: status=success
[DB] Migration applied: v2_add_index
```

每个模块/功能用固定前缀标记，关键业务加上实体ID（如 `[ORDER-{id}]`）。

**为什么这很重要：**
- **运行时定位**：`grep '[ORDER-a1b2]' app.log` 一条命令追踪完整链路
- **代码定位**：日志标记本身就是代码搜索关键词——从日志反查到代码只需一次grep
- **持久中间层**：你的记忆会滚动，但日志不会过期，是你理解系统运行状态最可靠的依据

回信中附上完整URL，用户点击即可打开。

## 图片理解

当你需要理解图片内容时，可以在脚本中调用本机的多模态API：

```bash
curl -s -X POST http://localhost:{port}/api/instances/{instance}/vision \
  -H "Content-Type: application/json" \
  -d '{"prompt":"描述这张图片的内容","image_url":"图片的URL"}'
```

返回格式：`{"text":"图片描述内容"}`

- 此API使用你自己的LLM channel，需要模型支持vision（如Claude、GPT-4o等）
- image_url 支持公网URL或base64格式（`data:image/png;base64,...`）
- 适用场景：用户让你看图片、理解截图、分析上传的图像等

## 用户上传文件

用户可能会上传文件到云端。上传的文件在你的工作目录中可通过 `uploads/` 访问：

- 文件按日期分目录：`uploads/YYYYMMDD/filename`
- 文本文件直接用 `cat uploads/YYYYMMDD/filename` 读取
- 图片文件用上面的多模态API理解内容（先用 `ls uploads/` 查看有哪些文件）"#;

/// How large a prompt may get before the agent is asked to sum up.
pub const SOFT_LIMIT: usize = 180_000;

/// A message of a session.
#[derive(Debug)]
pub struct SessionMessage {
    pub sender_role: String,
    pub sender_id: Option<String>,
    pub timestamp: String,
    pub content: String,
}

/// A stretch of a session with its summary.
#[derive(Debug)]
pub struct SessionBlock {
    pub start_time: String,
    pub end_time: String,
    pub messages: Vec<SessionMessage>,
    pub summary: String,
}

/// Where an agent finds itself.
#[derive(Debug)]
pub struct EnvironmentInfo {
    pub identity: String,
    pub contacts: Option<String>,
    pub shell_env: String,
    pub host: Option<String>,
}

/// How an agent stands right now.
#[derive(Debug)]
pub struct StatusInfo {
    pub current_time: String,
    pub start_time: String,
    pub unread: String,
    pub instance_name: String,
    pub memory_usage: String,
}

/// Everything that the model is shown in one beat.
#[derive(Debug)]
pub struct BeatRequest {
    pub skill: String,
    pub knowledge: String,
    pub history: String,
    pub sessions: Vec<SessionBlock>,
    pub environment: EnvironmentInfo,
    pub current: String,
    pub status: StatusInfo,
}

/// The characters of a message, with twenty for what is put round it.
pub open spec fn message_size(m: SessionMessage) -> nat {
    m.sender_role@.len() + (match m.sender_id {
        Some(s) => s@.len(),
        None => 0,
    }) + m.timestamp@.len() + m.content@.len() + 20
}

pub open spec fn messages_size(ms: Seq<SessionMessage>) -> nat
    decreases ms.len(),
{
    if ms.len() == 0 {
        0
    } else {
        messages_size(ms.drop_last()) + message_size(ms.last())
    }
}

/// The characters of a block, with forty for what is put round it.
pub open spec fn block_size(b: SessionBlock) -> nat {
    b.start_time@.len() + b.end_time@.len() + b.summary@.len() + messages_size(b.messages@) + 40
}

pub open spec fn sessions_size(bs: Seq<SessionBlock>) -> nat
    decreases bs.len(),
{
    if bs.len() == 0 {
        0
    } else {
        sessions_size(bs.drop_last()) + block_size(bs.last())
    }
}

proof fn lemma_messages_size_grows(ms: Seq<SessionMessage>, k: int)
    requires
        0 <= k <= ms.len(),
    ensures
        messages_size(ms.take(k)) <= messages_size(ms),
    decreases ms.len() - k,
{
    if k == ms.len() {
        assert(ms.take(k) =~= ms);
    } else {
        lemma_messages_size_grows(ms, k + 1);
        assert(ms.take(k + 1).drop_last() =~= ms.take(k));
    }
}

proof fn lemma_sessions_size_grows(bs: Seq<SessionBlock>, k: int)
    requires
        0 <= k <= bs.len(),
    ensures
        sessions_size(bs.take(k)) <= sessions_size(bs),
    decreases bs.len() - k,
{
    if k == bs.len() {
        assert(bs.take(k) =~= bs);
    } else {
        lemma_sessions_size_grows(bs, k + 1);
        assert(bs.take(k + 1).drop_last() =~= bs.take(k));
    }
}

fn size_of_messages(ms: &Vec<SessionMessage>, limit: usize) -> (r: usize)
    requires
        messages_size(ms@) <= limit,
    ensures
        r == messages_size(ms@),
{
    let mut size: usize = 0;
    let mut i: usize = 0;
    assert(ms@.take(0) =~= Seq::<SessionMessage>::empty());
    while i < ms.len()
        invariant
            i <= ms@.len(),
            messages_size(ms@) <= limit,
            size == messages_size(ms@.take(i as int)),
        decreases ms@.len() - i,
    {
        proof {
            assert(ms@.take(i + 1).drop_last() =~= ms@.take(i as int));
            lemma_messages_size_grows(ms@, i + 1);
        }
        let id_len: usize = match &ms[i].sender_id {
            Some(s) => s.as_str().unicode_len(),
            None => 0,
        };
        size = size + ms[i].sender_role.as_str().unicode_len() + id_len
            + ms[i].timestamp.as_str().unicode_len() + ms[i].content.as_str().unicode_len() + 20;
        i = i + 1;
    }
    assert(ms@.take(ms@.len() as int) =~= ms@);
    size
}

/// How many characters the sessions take in the prompt, without rendering them.
pub fn estimate_sessions_size(blocks: &[SessionBlock]) -> (r: usize)
    requires
        sessions_size(blocks@) <= usize::MAX,
    ensures
        r == sessions_size(blocks@),
{
    let mut size: usize = 0;
    let mut i: usize = 0;
    assert(blocks@.take(0) =~= Seq::<SessionBlock>::empty());
    while i < blocks.len()
        invariant
            i <= blocks@.len(),
            sessions_size(blocks@) <= usize::MAX,
            size == sessions_size(blocks@.take(i as int)),
        decreases blocks@.len() - i,
    {
        proof {
            assert(blocks@.take(i + 1).drop_last() =~= blocks@.take(i as int));
            lemma_sessions_size_grows(blocks@, i + 1);
        }
        let inner = size_of_messages(&blocks[i].messages, usize::MAX);
        size = size + blocks[i].start_time.as_str().unicode_len()
            + blocks[i].end_time.as_str().unicode_len() + blocks[i].summary.as_str().unicode_len()
            + inner + 40;
        i = i + 1;
    }
    assert(blocks@.take(blocks@.len() as int) =~= blocks@);
    size
}

/// The first line from `i` on that, trimmed, is the marker.
pub open spec fn marker_line(all: Seq<Seq<char>>, marker: Seq<char>, i: int) -> Option<int>
    decreases all.len() - i,
{
    if i < 0 || i >= all.len() {
        None
    } else if space::trimmed(all[i]) == marker {
        Some(i)
    } else {
        marker_line(all, marker, i + 1)
    }
}

/// `s` without the newlines at its start.
pub open spec fn after_newlines(s: Seq<char>) -> Seq<char>
    decreases s.len(),
{
    if s.len() > 0 && s[0] == '\n' {
        after_newlines(s.skip(1))
    } else {
        s
    }
}

/// A summary without the marker at its start.
pub open spec fn unmarked_summary(s: Seq<char>, marker: Seq<char>) -> Seq<char> {
    let t = space::trimmed_start(s);
    if search::has_prefix(t, marker) {
        after_newlines(t.skip(marker.len() as int))
    } else {
        s
    }
}

/// A summary and the knowledge behind it: what stands before and after the
/// first line that is the knowledge marker.
pub open spec fn dual_output(
    raw: Seq<char>,
    summary_marker: Seq<char>,
    knowledge_marker: Seq<char>,
) -> (Seq<char>, Seq<char>) {
    let all = space::lines_of(raw);
    match marker_line(all, knowledge_marker, 0) {
        Some(k) => (
            unmarked_summary(search::join_text(all.take(k), "\n"@), summary_marker),
            search::join_text(all.skip(k + 1), "\n"@),
        ),
        None => (unmarked_summary(raw, summary_marker), Seq::empty()),
    }
}

fn join_range(all: &Vec<String>, from: usize, to: usize) -> (r: String)
    requires
        from <= to <= all@.len(),
    ensures
        r@ == search::join_text(search::views(all@).subrange(from as int, to as int), "\n"@),
{
    let mut part: Vec<String> = Vec::new();
    let mut i: usize = from;
    let ghost whole = search::views(all@);
    assert(search::views(part@) =~= whole.subrange(from as int, from as int));
    while i < to
        invariant
            from <= i <= to <= all@.len(),
            whole == search::views(all@),
            search::views(part@) == whole.subrange(from as int, i as int),
        decreases to - i,
    {
        let line = all[i].clone();
        proof {
            search::lemma_views_push(part@, line);
            assert(whole.subrange(from as int, i + 1) =~= whole.subrange(
                from as int,
                i as int,
            ).push(line@));
        }
        part.push(line);
        i = i + 1;
    }
    join(&part, "\n")
}

fn strip_summary_marker(s: &str, marker: &str) -> (r: String)
    ensures
        r@ == unmarked_summary(s@, marker@),
{
    let t = trim_start(s);
    match search::strip_prefix(t.as_str(), marker) {
        None => s.to_string(),
        Some(rest) => {
            let v = to_chars(rest.as_str());
            let mut i: usize = 0;
            assert(rest@.skip(0) =~= rest@);
            while i < v.len() && v[i] == '\n'
                invariant
                    v@ == rest@,
                    i <= v@.len(),
                    after_newlines(rest@) == after_newlines(rest@.skip(i as int)),
                decreases v@.len() - i,
            {
                assert(rest@.skip(i as int).skip(1) =~= rest@.skip(i + 1));
                i = i + 1;
            }
            let r = slice_text(&v, i, v.len());
            assert(r@ =~= rest@.skip(i as int));
            r
        },
    }
}

/// Takes a summary and the knowledge behind it apart.
pub fn parse_summary_dual_output(raw: &str, summary_marker: &str, knowledge_marker: &str) -> (r: (
    String,
    String,
))
    ensures
        (r.0@, r.1@) == dual_output(raw@, summary_marker@, knowledge_marker@),
{
    let all = lines(raw);
    let ghost whole = search::views(all@);
    let mut i: usize = 0;
    while i < all.len()
        invariant
            i <= all@.len(),
            whole == search::views(all@),
            whole == space::lines_of(raw@),
            marker_line(whole, knowledge_marker@, 0) == marker_line(
                whole,
                knowledge_marker@,
                i as int,
            ),
        decreases all@.len() - i,
    {
        assert(whole[i as int] == all@[i as int]@);
        let line = trim(all[i].as_str());
        if same_text(line.as_str(), knowledge_marker) {
            let before = join_range(&all, 0, i);
            let n: usize = all.len();
            let after = join_range(&all, i + 1, n);
            assert(whole.subrange(0, i as int) =~= whole.take(i as int));
            assert(whole.subrange(i + 1, n as int) =~= whole.skip(i + 1));
            return (strip_summary_marker(before.as_str(), summary_marker), after);
        }
        i = i + 1;
    }
    (strip_summary_marker(raw, summary_marker), String::new())
}

/// A message name: fourteen digits.
pub open spec fn is_msg_id(s: Seq<char>) -> bool {
    s.len() == 14 && number::all_digits(s)
}

/// A marker that was written by sending (the context stands before it) or by
/// reading (the context stands behind it).
pub open spec fn trusted_mark(text: Seq<char>, open: int, close: int) -> bool {
    let sent = action_output::MSG_SEND_CONTEXT@;
    search::occurs_at(text, sent, open - sent.len()) || search::occurs_at(
        text,
        action_output::MSG_READ_CONTEXT@,
        close + 1,
    )
}

/// The message names marked in `text` from `i` on, behind those already found,
/// each once, in order of appearance.
pub open spec fn ids_from(text: Seq<char>, i: int, found: Seq<Seq<char>>) -> Seq<Seq<char>>
    decreases text.len() - i,
{
    match search::find_from(text, "[MSG:"@, i) {
        None => found,
        Some(open) => match search::find_from(text, "]"@, open + 5) {
            None => found,
            Some(close) => if i <= open < close < text.len() {
                let id = text.subrange(open + 5, close);
                let more = if is_msg_id(id) && trusted_mark(text, open, close) && !found.contains(
                    id,
                ) {
                    found.push(id)
                } else {
                    found
                };
                ids_from(text, close + 1, more)
            } else {
                found
            },
        },
    }
}

/// The names of the messages that a record of sent and read messages marks.
pub open spec fn marked_ids(text: Seq<char>) -> Seq<Seq<char>> {
    ids_from(text, 0, Seq::empty())
}

fn is_fourteen_digits(v: &Vec<char>, from: usize, to: usize) -> (r: bool)
    requires
        from <= to <= v@.len(),
    ensures
        r == is_msg_id(v@.subrange(from as int, to as int)),
{
    let ghost s = v@.subrange(from as int, to as int);
    if to - from != 14 {
        return false;
    }
    let mut i: usize = from;
    while i < to
        invariant
            from <= i <= to <= v@.len(),
            s == v@.subrange(from as int, to as int),
            forall|k: int| 0 <= k < i - from ==> number::is_digit(#[trigger] s[k]),
        decreases to - i,
    {
        let c = v[i];
        assert(s[i - from] == c);
        if !('0' <= c && c <= '9') {
            assert(!number::is_digit(s[i - from]));
            return false;
        }
        i = i + 1;
    }
    true
}

fn holds(list: &Vec<String>, id: &str) -> (r: bool)
    ensures
        r == search::views(list@).contains(id@),
{
    let mut i: usize = 0;
    let ghost all = search::views(list@);
    while i < list.len()
        invariant
            i <= list@.len(),
            all == search::views(list@),
            forall|k: int| 0 <= k < i ==> all[k] != id@,
        decreases list@.len() - i,
    {
        assert(all[i as int] == list@[i as int]@);
        if same_text(list[i].as_str(), id) {
            assert(all.contains(all[i as int]));
            return true;
        }
        i = i + 1;
    }
    false
}

/// Finds the message names that a record marks. Only markers written by sending
/// or reading count, so that a name quoted elsewhere does not.
pub fn extract_msg_ids(text: &str) -> (r: Vec<String>)
    ensures
        search::views(r@) == marked_ids(text@),
{
    let t = to_chars(text);
    let n: usize = t.len();
    let open_mark = to_chars("[MSG:");
    let close_mark = to_chars("]");
    let sent = to_chars(action_output::MSG_SEND_CONTEXT);
    let read = to_chars(action_output::MSG_READ_CONTEXT);
    proof {
        reveal_strlit("[MSG:");
        reveal_strlit("]");
    }
    let mut ids: Vec<String> = Vec::new();
    let mut i: usize = 0;
    assert(search::views(ids@) =~= Seq::<Seq<char>>::empty());
    loop
        invariant
            t@ == text@,
            n == t@.len(),
            i <= n,
            open_mark@ == "[MSG:"@,
            open_mark@.len() == 5,
            close_mark@ == "]"@,
            close_mark@.len() == 1,
            sent@ == action_output::MSG_SEND_CONTEXT@,
            read@ == action_output::MSG_READ_CONTEXT@,
            ids_from(text@, i as int, search::views(ids@)) == marked_ids(text@),
        decreases n - i,
    {
        let open = match find_chars(&t, &open_mark, i) {
            None => {
                return ids;
            },
            Some(p) => p,
        };
        let close = match find_chars(&t, &close_mark, open + 5) {
            None => {
                return ids;
            },
            Some(p) => p,
        };
        if is_fourteen_digits(&t, open + 5, close) {
            let by_send = open >= sent.len() && matches_at(&t, &sent, open - sent.len());
            let by_read = matches_at(&t, &read, close + 1);
            assert((by_send || by_read) == trusted_mark(text@, open as int, close as int));
            let id = slice_text(&t, open + 5, close);
            if (by_send || by_read) && !holds(&ids, id.as_str()) {
                proof {
                    search::lemma_views_push(ids@, id);
                }
                ids.push(id);
            }
        }
        i = close + 1;
    }
}

/// Who an agent is: its name and its identifier, or the identifier alone.
pub open spec fn identity_text(id: Seq<char>, name: Option<Seq<char>>) -> Seq<char> {
    match name {
        Some(n) => if n.len() > 0 {
            n + "（"@ + id + "）"@
        } else {
            id
        },
        None => id,
    }
}

/// What an optional string slice holds.
pub open spec fn str_view(o: Option<&str>) -> Option<Seq<char>> {
    match o {
        Some(s) => Some(s@),
        None => None,
    }
}

fn identity(instance_id: &str, instance_name: Option<&str>) -> (r: String)
    ensures
        r@ == identity_text(instance_id@, str_view(instance_name)),
{
    match instance_name {
        Some(name) => {
            if !name.is_empty() {
                let mut s = name.to_string();
                s.push_str("（");
                s.push_str(instance_id);
                s.push_str("）");
                s
            } else {
                instance_id.to_string()
            }
        },
        None => instance_id.to_string(),
    }
}

/// A text that says something, or nothing.
pub open spec fn said(s: Option<Seq<char>>) -> Option<Seq<char>> {
    match s {
        Some(t) => if t.len() > 0 {
            Some(t)
        } else {
            None
        },
        None => None,
    }
}

/// Describes where an agent finds itself.
pub fn build_environment(
    instance_id: &str,
    instance_name: Option<&str>,
    contacts_info: &str,
    shell_env: &str,
    host: Option<&str>,
) -> (r: EnvironmentInfo)
    ensures
        r.identity@ == identity_text(instance_id@, str_view(instance_name)),
        render::opt_view(r.contacts) == said(Some(contacts_info@)),
        r.shell_env@ == shell_env@,
        render::opt_view(r.host) == said(str_view(host)),
{
    let contacts = if contacts_info.is_empty() {
        None
    } else {
        Some(contacts_info.to_string())
    };
    let host_val = match host {
        Some(h) => if h.is_empty() {
            None
        } else {
            Some(h.to_string())
        },
        None => None,
    };
    EnvironmentInfo {
        identity: identity(instance_id, instance_name),
        contacts,
        shell_env: shell_env.to_string(),
        host: host_val,
    }
}

/// How full the knowledge is.
pub open spec fn knowledge_indicator(size: nat) -> Seq<char> {
    if size < 51200 {
        i18n::knowledge_capacity_ok_text(size)
    } else if size < 61440 {
        i18n::knowledge_capacity_warning_text(size)
    } else {
        i18n::knowledge_capacity_critical_text(size)
    }
}

/// How much of the prompt each part takes, with a warning above the limit.
pub open spec fn memory_usage_text(
    history: nat,
    daily: nat,
    current: nat,
    knowledge: nat,
) -> Seq<char> {
    let total = history + daily + current + knowledge;
    let usage = "current: "@ + number::dec(current) + "字符 | 经历: "@ + number::dec(history)
        + "字符 | 近况: "@ + number::dec(daily) + "字符 | "@ + knowledge_indicator(knowledge)
        + " | 合计: "@ + number::dec(total) + "字符"@;
    if total > SOFT_LIMIT {
        usage + " "@ + i18n::memory_over_limit_text(total / 1000)
    } else {
        usage
    }
}

/// Says how much of the prompt each part takes.
pub fn make_memory_usage(
    history_size: usize,
    daily_size: usize,
    current_size: usize,
    knowledge_size: usize,
) -> (r: String)
    requires
        history_size + daily_size + current_size + knowledge_size <= usize::MAX,
    ensures
        r@ == memory_usage_text(
            history_size as nat,
            daily_size as nat,
            current_size as nat,
            knowledge_size as nat,
        ),
{
    let total: usize = history_size + daily_size + current_size + knowledge_size;
    let indicator = if knowledge_size < 51200 {
        i18n::knowledge_capacity_ok(knowledge_size)
    } else if knowledge_size < 61440 {
        i18n::knowledge_capacity_warning(knowledge_size)
    } else {
        i18n::knowledge_capacity_critical(knowledge_size)
    };
    let mut s = "current: ".to_string();
    push_dec(&mut s, current_size as u64);
    s.push_str("字符 | 经历: ");
    push_dec(&mut s, history_size as u64);
    s.push_str("字符 | 近况: ");
    push_dec(&mut s, daily_size as u64);
    s.push_str("字符 | ");
    s.push_str(indicator.as_str());
    s.push_str(" | 合计: ");
    push_dec(&mut s, total as u64);
    s.push_str("字符");
    if total > SOFT_LIMIT {
        s.push_str(" ");
        let warning = i18n::memory_over_limit(total / 1000);
        s.push_str(warning.as_str());
    }
    s
}

/// Describes how an agent stands at the given moments.
pub fn status_at(
    current_time: &str,
    start_time: &str,
    instance_id: &str,
    instance_name: Option<&str>,
    unread_count: usize,
    memory_usage: String,
) -> (r: StatusInfo)
    ensures
        r.current_time@ == "["@ + current_time@ + "]"@,
        r.start_time@ == "["@ + start_time@ + "]"@,
        r.unread@ == "["@ + number::dec(unread_count as nat) + "] 条"@,
        r.instance_name@ == identity_text(instance_id@, str_view(instance_name)),
        r.memory_usage@ == memory_usage@,
{
    let mut now = "[".to_string();
    now.push_str(current_time);
    now.push_str("]");
    let mut start = "[".to_string();
    start.push_str(start_time);
    start.push_str("]");
    let mut unread = "[".to_string();
    push_dec(&mut unread, unread_count as u64);
    unread.push_str("] 条");
    StatusInfo {
        current_time: now,
        start_time: start,
        unread,
        instance_name: identity(instance_id, instance_name),
        memory_usage,
    }
}

/// Describes how an agent that was started at `start_time` stands now.
pub fn build_status(
    instance_id: &str,
    instance_name: Option<&str>,
    start_time: &str,
    unread_count: usize,
    history_size: usize,
    sessions_size: usize,
    current_size: usize,
    knowledge_size: usize,
    skill_size: usize,
) -> (r: StatusInfo)
    requires
        history_size + sessions_size + current_size + knowledge_size + skill_size <= usize::MAX,
    ensures
        r.start_time@ == "["@ + start_time@ + "]"@,
        r.unread@ == "["@ + number::dec(unread_count as nat) + "] 条"@,
        r.instance_name@ == identity_text(instance_id@, str_view(instance_name)),
        r.memory_usage@ == memory_usage_text(
            history_size as nat,
            sessions_size as nat,
            current_size as nat,
            (knowledge_size + skill_size) as nat,
        ),
{
    let usage = make_memory_usage(
        history_size,
        sessions_size,
        current_size,
        knowledge_size + skill_size,
    );
    let now = now_timestamp();
    status_at(now.as_str(), start_time, instance_id, instance_name, unread_count, usage)
}

/// The address that the guide names: the public one, or the local port.
pub open spec fn guide_host(host: Option<Seq<char>>, port: nat) -> Seq<char> {
    match said(host) {
        Some(h) => h,
        None => "localhost:"@ + number::dec(port),
    }
}

/// The guide with its names filled in.
pub open spec fn reserved_skill_text(host: Option<Seq<char>>, id: Seq<char>, port: nat) -> Seq<
    char,
> {
    search::replace_all(
        search::replace_all(
            search::replace_all(
                RESERVED_SKILL_HEADING@ + RESERVED_SKILL_TEMPLATE@,
                "{host}"@,
                guide_host(host, port),
            ),
            "{instance}"@,
            id,
        ),
        "{port}"@,
        number::dec(port),
    )
}

/// Fills the guide in.
pub fn make_reserved_skill(host: Option<&str>, instance_id: &str, port: u16) -> (r: String)
    ensures
        r@ == reserved_skill_text(str_view(host), instance_id@, port as nat),
{
    let local = {
        let mut s = "localhost:".to_string();
        push_dec(&mut s, port as u64);
        s
    };
    let h = match host {
        Some(h) => if h.is_empty() {
            local
        } else {
            h.to_string()
        },
        None => local,
    };
    proof {
        reveal_strlit("{host}");
        reveal_strlit("{instance}");
        reveal_strlit("{port}");
    }
    let mut guide = RESERVED_SKILL_HEADING.to_string();
    guide.push_str(RESERVED_SKILL_TEMPLATE);
    let a = replace(guide.as_str(), "{host}", h.as_str());
    let b = replace(a.as_str(), "{instance}", instance_id);
    let p = decimal(port as u64);
    replace(b.as_str(), "{port}", p.as_str())
}

/// The texts that say something, in order.
pub open spec fn said_parts(parts: Seq<Seq<char>>) -> Seq<Seq<char>>
    decreases parts.len(),
{
    if parts.len() == 0 {
        Seq::empty()
    } else if space::is_blank(parts.last()) {
        said_parts(parts.drop_last())
    } else {
        said_parts(parts.drop_last()).push(parts.last())
    }
}

/// All the skills one below the other: the guide, the agent's own and any extra
/// ones, those that are blank left out.
pub open spec fn skill_text(guide: Seq<char>, own: Seq<char>, extra: Seq<char>) -> Seq<char> {
    let first = if guide.len() > 0 {
        seq![guide]
    } else {
        Seq::empty()
    };
    search::join_text(first + said_parts(seq![own, extra]), "\n\n"@)
}

/// Puts the skills of an agent together.
pub fn build_skill_content(
    host: Option<&str>,
    instance_id: &str,
    http_port: u16,
    skill_content: &str,
    extra_skills: &str,
) -> (r: String)
    ensures
        r@ == skill_text(
            reserved_skill_text(str_view(host), instance_id@, http_port as nat),
            skill_content@,
            extra_skills@,
        ),
{
    let guide = make_reserved_skill(host, instance_id, http_port);
    let ghost g = guide@;
    let mut parts: Vec<String> = Vec::new();
    if !guide.as_str().is_empty() {
        parts.push(guide);
    }
    let ghost first = search::views(parts@);
    if !blank(skill_content) {
        parts.push(skill_content.to_string());
    }
    if !blank(extra_skills) {
        parts.push(extra_skills.to_string());
    }
    proof {
        let both = seq![skill_content@, extra_skills@];
        assert(both.drop_last() =~= seq![skill_content@]);
        assert(seq![skill_content@].drop_last() =~= Seq::<Seq<char>>::empty());
        assert(said_parts(Seq::<Seq<char>>::empty()) =~= Seq::<Seq<char>>::empty());
        assert(said_parts(seq![skill_content@]) =~= if space::is_blank(skill_content@) {
            Seq::<Seq<char>>::empty()
        } else {
            seq![skill_content@]
        });
        let lead = if g.len() > 0 {
            seq![g]
        } else {
            Seq::empty()
        };
        assert(first =~= lead);
        assert(search::views(parts@) =~= lead + said_parts(both));
    }
    join(&parts, "\n\n")
}

proof fn lemma_replacing_keeps_start(s: Seq<char>, p: Seq<char>, q: Seq<char>)
    requires
        s.len() > 0,
        p.len() > 0,
        s[0] != p[0],
    ensures
        search::replace_all(s, p, q).len() > 0,
        search::replace_all(s, p, q)[0] == s[0],
{
    search::lemma_find_from(s, p, 0);
    match search::find_text(s, p) {
        Some(i) => {
            if i == 0 {
                assert(s.subrange(0, p.len() as int)[0] == s[0]);
            }
            let rest = s.skip(i + p.len());
            search::lemma_join_split(rest, p);
            search::lemma_join_prepend(s.take(i), search::split_text(rest, p), q);
        },
        None => {},
    }
}

/// A further skill below those that come before it; nothing where it is blank.
pub open spec fn skill_below(skill: Seq<char>) -> Seq<char> {
    if space::is_blank(skill) {
        Seq::empty()
    } else {
        "\n\n"@ + skill
    }
}

/// The guide is never empty, and further skills are only written below it, word
/// for word.
pub proof fn law_skills_follow_the_guide(
    host: Option<Seq<char>>,
    id: Seq<char>,
    port: nat,
    own: Seq<char>,
    extra: Seq<char>,
)
    ensures
        ({
            let guide = reserved_skill_text(host, id, port);
            let base = skill_text(guide, Seq::empty(), Seq::empty());
            &&& base == guide
            &&& base.len() > 0
            &&& skill_text(guide, own, extra) == base + skill_below(own) + skill_below(extra)
        }),
{
    reveal_strlit("### knowledge: app-development ###\n");
    reveal_strlit("{host}");
    reveal_strlit("{instance}");
    reveal_strlit("{port}");
    let template = RESERVED_SKILL_HEADING@ + RESERVED_SKILL_TEMPLATE@;
    assert(template[0] == '#');
    let a = search::replace_all(template, "{host}"@, guide_host(host, port));
    lemma_replacing_keeps_start(template, "{host}"@, guide_host(host, port));
    lemma_replacing_keeps_start(a, "{instance}"@, id);
    let b = search::replace_all(a, "{instance}"@, id);
    lemma_replacing_keeps_start(b, "{port}"@, number::dec(port));
    let guide = reserved_skill_text(host, id, port);
    lemma_skill_text(guide, Seq::empty(), Seq::empty());
    lemma_skill_text(guide, own, extra);
    assert(space::is_blank(Seq::<char>::empty()));
    assert(guide + skill_below(Seq::empty()) + skill_below(Seq::empty()) =~= guide);
}

proof fn lemma_skill_text(guide: Seq<char>, own: Seq<char>, extra: Seq<char>)
    requires
        guide.len() > 0,
    ensures
        skill_text(guide, own, extra) == guide + skill_below(own) + skill_below(extra),
{
    let both = seq![own, extra];
    assert(both.drop_last() =~= seq![own]);
    assert(seq![own].drop_last() =~= Seq::<Seq<char>>::empty());
    assert(said_parts(Seq::<Seq<char>>::empty()) =~= Seq::<Seq<char>>::empty());
    let first = if space::is_blank(own) {
        Seq::<Seq<char>>::empty()
    } else {
        seq![own]
    };
    assert(said_parts(seq![own]) =~= first);
    let lead = seq![guide] + first;
    assert(search::join_text(seq![guide], "\n\n"@) == guide);
    if !space::is_blank(own) {
        search::lemma_join_push(seq![guide], "\n\n"@, own);
        assert(lead =~= seq![guide].push(own));
    } else {
        assert(lead =~= seq![guide]);
    }
    assert(search::join_text(lead, "\n\n"@) =~= guide + skill_below(own));
    if !space::is_blank(extra) {
        search::lemma_join_push(lead, "\n\n"@, extra);
        assert(seq![guide] + said_parts(both) =~= lead.push(extra));
    } else {
        assert(seq![guide] + said_parts(both) =~= lead);
    }
    assert(skill_text(guide, own, extra) =~= guide + skill_below(own) + skill_below(extra));
}

/// Knowledge under its heading; nothing where it is blank.
pub open spec fn knowledge_text(content: Seq<char>) -> Seq<char> {
    if space::is_blank(content) {
        Seq::empty()
    } else {
        "### 要点与知识 ###\n"@ + content + "\n"@
    }
}

/// Puts knowledge under its heading.
pub fn build_knowledge_content(knowledge_content: &str) -> (r: String)
    ensures
        r@ == knowledge_text(knowledge_content@),
{
    if blank(knowledge_content) {
        String::new()
    } else {
        let mut s = "### 要点与知识 ###\n".to_string();
        s.push_str(knowledge_content);
        s.push_str("\n");
        s
    }
}


/// How a message of a session is shown.
pub open spec fn session_message_text(m: SessionMessage, marks: Seq<char>) -> Seq<char> {
    render::field_text(marks, "sender_role"@, m.sender_role@) + render::opt_field_text(
        marks,
        "sender_id"@,
        render::opt_view(m.sender_id),
    ) + render::field_text(marks, "timestamp"@, m.timestamp@) + render::field_text(
        marks,
        "content"@,
        m.content@,
    )
}

pub open spec fn session_messages_text(ms: Seq<SessionMessage>, marks: Seq<char>) -> Seq<
    Seq<char>,
> {
    ms.map_values(|m: SessionMessage| session_message_text(m, marks))
}

/// A titled list of parts; nothing where there are none.
pub open spec fn list_text(marks: Seq<char>, title: Seq<char>, items: Seq<Seq<char>>) -> Seq<char> {
    if items.len() == 0 {
        Seq::empty()
    } else {
        "\n"@ + marks + " "@ + title + " "@ + marks + "\n\n"@ + search::join_text(items, "\n"@)
    }
}

/// How a stretch of a session is shown, its sections between `marks`.
pub open spec fn session_block_text(
    b: SessionBlock,
    marks: Seq<char>,
    inner_marks: Seq<char>,
) -> Seq<char> {
    render::field_text(marks, "start_time"@, b.start_time@) + render::field_text(
        marks,
        "end_time"@,
        b.end_time@,
    ) + list_text(marks, "messages"@, session_messages_text(b.messages@, inner_marks))
        + render::field_text(marks, "summary"@, b.summary@)
}

pub open spec fn session_blocks_text(
    bs: Seq<SessionBlock>,
    marks: Seq<char>,
    inner_marks: Seq<char>,
) -> Seq<Seq<char>> {
    bs.map_values(|b: SessionBlock| session_block_text(b, marks, inner_marks))
}

impl SessionMessage {
    /// Shows the message, its sections between `marks`.
    pub fn render(&self, marks: &str) -> (r: String)
        ensures
            r@ == session_message_text(*self, marks@),
    {
        let mut s = render::field(marks, "sender_role", self.sender_role.as_str());
        let id = render::opt_field(marks, "sender_id", &self.sender_id);
        s.push_str(id.as_str());
        let at = render::field(marks, "timestamp", self.timestamp.as_str());
        s.push_str(at.as_str());
        let text = render::field(marks, "content", self.content.as_str());
        s.push_str(text.as_str());
        s
    }
}

fn render_list(marks: &str, title: &str, items: &Vec<String>) -> (r: String)
    ensures
        r@ == list_text(marks@, title@, search::views(items@)),
{
    assert(search::views(items@).len() == items@.len());
    if items.len() == 0 {
        return String::new();
    }
    let mut s = "\n".to_string();
    s.push_str(marks);
    s.push_str(" ");
    s.push_str(title);
    s.push_str(" ");
    s.push_str(marks);
    s.push_str("\n\n");
    let all = join(items, "\n");
    s.push_str(all.as_str());
    s
}

impl SessionBlock {
    /// Shows the block, its sections between `marks` and those of its messages
    /// between `inner_marks`.
    pub fn render(&self, marks: &str, inner_marks: &str) -> (r: String)
        ensures
            r@ == session_block_text(*self, marks@, inner_marks@),
    {
        let mut s = render::field(marks, "start_time", self.start_time.as_str());
        let end = render::field(marks, "end_time", self.end_time.as_str());
        s.push_str(end.as_str());
        let ghost wanted = session_messages_text(self.messages@, inner_marks@);
        let mut items: Vec<String> = Vec::new();
        let mut i: usize = 0;
        assert(search::views(items@) =~= wanted.take(0));
        while i < self.messages.len()
            invariant
                i <= self.messages@.len(),
                wanted == session_messages_text(self.messages@, inner_marks@),
                search::views(items@) == wanted.take(i as int),
            decreases self.messages@.len() - i,
        {
            let one = self.messages[i].render(inner_marks);
            proof {
                search::lemma_views_push(items@, one);
                assert(wanted.take(i + 1) =~= wanted.take(i as int).push(one@));
            }
            items.push(one);
            i = i + 1;
        }
        assert(wanted.take(self.messages@.len() as int) =~= wanted);
        let list = render_list(marks, "messages", &items);
        s.push_str(list.as_str());
        let sum = render::field(marks, "summary", self.summary.as_str());
        s.push_str(sum.as_str());
        s
    }

    /// Shows the block by itself.
    pub fn to_markdown(&self) -> (r: String)
        ensures
            r@ == session_block_text(*self, "###"@, "####"@),
    {
        self.render("###", "####")
    }
}

/// How an environment is shown.
pub open spec fn environment_text(e: EnvironmentInfo, marks: Seq<char>) -> Seq<char> {
    render::field_text(marks, "你是"@, e.identity@) + render::opt_field_text(
        marks,
        "可联系的其他实例"@,
        render::opt_view(e.contacts),
    ) + render::field_text(marks, "脚本环境"@, e.shell_env@) + render::opt_field_text(
        marks,
        "公网地址"@,
        render::opt_view(e.host),
    )
}

/// How a status is shown.
pub open spec fn status_text(s: StatusInfo, marks: Seq<char>) -> Seq<char> {
    render::field_text(marks, "现在时刻"@, s.current_time@) + render::field_text(
        marks,
        "系统启动时刻"@,
        s.start_time@,
    ) + render::field_text(marks, "收件箱未读来信"@, s.unread@) + render::field_text(
        marks,
        "实例名"@,
        s.instance_name@,
    ) + render::field_text(marks, "记忆用量"@, s.memory_usage@)
}

impl EnvironmentInfo {
    pub fn render(&self, marks: &str) -> (r: String)
        ensures
            r@ == environment_text(*self, marks@),
    {
        let mut s = render::field(marks, "你是", self.identity.as_str());
        let contacts = render::opt_field(marks, "可联系的其他实例", &self.contacts);
        s.push_str(contacts.as_str());
        let env = render::field(marks, "脚本环境", self.shell_env.as_str());
        s.push_str(env.as_str());
        let host = render::opt_field(marks, "公网地址", &self.host);
        s.push_str(host.as_str());
        s
    }
}

impl StatusInfo {
    pub fn render(&self, marks: &str) -> (r: String)
        ensures
            r@ == status_text(*self, marks@),
    {
        let mut s = render::field(marks, "现在时刻", self.current_time.as_str());
        let start = render::field(marks, "系统启动时刻", self.start_time.as_str());
        s.push_str(start.as_str());
        let unread = render::field(marks, "收件箱未读来信", self.unread.as_str());
        s.push_str(unread.as_str());
        let name = render::field(marks, "实例名", self.instance_name.as_str());
        s.push_str(name.as_str());
        let usage = render::field(marks, "记忆用量", self.memory_usage.as_str());
        s.push_str(usage.as_str());
        s
    }
}

/// How the scene is set.
pub const SCENE: &'static str =
    "你醒了，你发现自己身处一个密闭房间，桌子上摆放着几样东西。\n收件箱：你可以在此收到来信\n寄件箱：你可以在此寄出信件\n工作目录：你可以在此读写文件、执行脚本以完成任务\n";

/// The whole prompt of a beat.
pub open spec fn beat_text(q: BeatRequest) -> Seq<char> {
    SCENE@ + render::field_text("###"@, "skill"@, q.skill@) + render::field_text(
        "###"@,
        "知识"@,
        q.knowledge@,
    ) + render::field_text("###"@, "经历"@, q.history@) + list_text(
        "###"@,
        "近况"@,
        session_blocks_text(q.sessions@, "####"@, "#####"@),
    ) + render::nested_text("###"@, "环境信息"@, environment_text(q.environment, "####"@))
        + render::field_text("###"@, "current"@, q.current@) + render::nested_text(
        "###"@,
        "当前状态"@,
        status_text(q.status, "####"@),
    )
}

impl BeatRequest {
    /// Renders the prompt.
    pub fn to_markdown(&self) -> (r: String)
        ensures
            r@ == beat_text(*self),
    {
        let mut s = SCENE.to_string();
        let skill = render::field("###", "skill", self.skill.as_str());
        s.push_str(skill.as_str());
        let knowledge = render::field("###", "知识", self.knowledge.as_str());
        s.push_str(knowledge.as_str());
        let history = render::field("###", "经历", self.history.as_str());
        s.push_str(history.as_str());
        let ghost wanted = session_blocks_text(self.sessions@, "####"@, "#####"@);
        let mut items: Vec<String> = Vec::new();
        let mut i: usize = 0;
        assert(search::views(items@) =~= wanted.take(0));
        while i < self.sessions.len()
            invariant
                i <= self.sessions@.len(),
                wanted == session_blocks_text(self.sessions@, "####"@, "#####"@),
                search::views(items@) == wanted.take(i as int),
            decreases self.sessions@.len() - i,
        {
            let one = self.sessions[i].render("####", "#####");
            proof {
                search::lemma_views_push(items@, one);
                assert(wanted.take(i + 1) =~= wanted.take(i as int).push(one@));
            }
            items.push(one);
            i = i + 1;
        }
        assert(wanted.take(self.sessions@.len() as int) =~= wanted);
        let list = render_list("###", "近况", &items);
        s.push_str(list.as_str());
        let env = self.environment.render("####");
        let env = render::nested("###", "环境信息", env.as_str());
        s.push_str(env.as_str());
        let current = render::field("###", "current", self.current.as_str());
        s.push_str(current.as_str());
        let status = self.status.render("####");
        let status = render::nested("###", "当前状态", status.as_str());
        s.push_str(status.as_str());
        s
    }
}

/// Every name that is found is fourteen digits long, and none is found twice.
pub proof fn lemma_ids_from(text: Seq<char>, i: int, found: Seq<Seq<char>>)
    requires
        forall|k: int| 0 <= k < found.len() ==> is_msg_id(#[trigger] found[k]),
        found.no_duplicates(),
        0 <= i,
    ensures
        found.is_prefix_of(ids_from(text, i, found)),
        forall|k: int|
            0 <= k < ids_from(text, i, found).len() ==> is_msg_id(
                #[trigger] ids_from(text, i, found)[k],
            ),
        ids_from(text, i, found).no_duplicates(),
    decreases text.len() - i,
{
    match search::find_from(text, "[MSG:"@, i) {
        None => {},
        Some(open) => match search::find_from(text, "]"@, open + 5) {
            None => {},
            Some(close) => {
                if i <= open < close < text.len() {
                    let id = text.subrange(open + 5, close);
                    let more = if is_msg_id(id) && trusted_mark(text, open, close)
                        && !found.contains(id) {
                        found.push(id)
                    } else {
                        found
                    };
                    lemma_ids_from(text, close + 1, more);
                }
            },
        },
    }
}

/// The names found in a record are message names, each found once.
pub proof fn law_marked_ids_are_names(text: Seq<char>)
    ensures
        forall|k: int| 0 <= k < marked_ids(text).len() ==> is_msg_id(#[trigger] marked_ids(text)[k]),
        marked_ids(text).no_duplicates(),
{
    lemma_ids_from(text, 0, Seq::empty());
}

/// The names found after one more.
pub open spec fn with_id(found: Seq<Seq<char>>, id: Seq<char>) -> Seq<Seq<char>> {
    if found.contains(id) {
        found
    } else {
        found.push(id)
    }
}

/// The next marker stands at `open`, names `id` and is trusted: the search goes on
/// behind it.
proof fn lemma_next_mark(text: Seq<char>, i: int, open: int, id: Seq<char>, found: Seq<Seq<char>>)
    requires
        is_msg_id(id),
        0 <= i <= open,
        open + 20 <= text.len(),
        text.subrange(open, open + 5) == "[MSG:"@,
        text.subrange(open + 5, open + 19) == id,
        text[open + 19] == ']',
        forall|j: int| i <= j < open ==> !search::occurs_at(text, "[MSG:"@, j),
        trusted_mark(text, open, open + 19),
    ensures
        ids_from(text, i, found) == ids_from(text, open + 20, with_id(found, id)),
{
    reveal_strlit("[MSG:");
    reveal_strlit("]");
    assert(search::occurs_at(text, "[MSG:"@, open));
    search::lemma_find_from(text, "[MSG:"@, i);
    assert(search::find_from(text, "[MSG:"@, i) == Some(open)) by {
        let f = search::find_from(text, "[MSG:"@, i);
        if f is Some && f->0 < open {
            assert(!search::occurs_at(text, "[MSG:"@, f->0));
        }
    }
    let close = open + 19;
    assert(text.subrange(close, close + 1) =~= "]"@);
    assert(search::occurs_at(text, "]"@, close));
    assert forall|j: int| open + 5 <= j < close implies !search::occurs_at(text, "]"@, j) by {
        assert(text.subrange(open + 5, open + 19)[j - (open + 5)] == text[j]);
        assert(number::is_digit(id[j - (open + 5)]));
        if search::occurs_at(text, "]"@, j) {
            assert(text.subrange(j, j + 1)[0] == text[j]);
        }
    }
    search::lemma_find_from(text, "]"@, open + 5);
    assert(search::find_from(text, "]"@, open + 5) == Some(close)) by {
        let f = search::find_from(text, "]"@, open + 5);
        if f is Some && f->0 < close {
            assert(!search::occurs_at(text, "]"@, f->0));
        }
    }
}

/// Where no marker stands any more, nothing is found any more.
proof fn lemma_no_mark(text: Seq<char>, i: int, found: Seq<Seq<char>>)
    requires
        0 <= i,
        forall|j: int| i <= j ==> !search::occurs_at(text, "[MSG:"@, j),
    ensures
        ids_from(text, i, found) == found,
{
    search::lemma_find_from(text, "[MSG:"@, i);
}

/// The record of a sent message at the start of a text.
proof fn lemma_sent(text: Seq<char>, id: Seq<char>, rest: Seq<char>)
    requires
        is_msg_id(id),
        text == action_output::send_success_text(id) + rest,
    ensures
        action_output::send_success_text(id).len() == 34,
        text[33] == '\n',
        marked_ids(text) == ids_from(text, 33, seq![id]),
{
    reveal_strlit("send success ");
    reveal_strlit("[MSG:");
    reveal_strlit("]\n");
    let sent = action_output::MSG_SEND_CONTEXT@;
    assert(sent == "send success "@);
    assert(text.subrange(13, 18) =~= "[MSG:"@);
    assert(text.subrange(18, 32) =~= id);
    assert forall|j: int| 0 <= j < 13 implies !search::occurs_at(text, "[MSG:"@, j) by {
        assert(text[j] == sent[j]);
        assert(text[j] != '[');
        if search::occurs_at(text, "[MSG:"@, j) {
            assert(text.subrange(j, j + 5)[0] == text[j]);
        }
    }
    assert(text.subrange(0, 13) =~= sent);
    assert(search::occurs_at(text, sent, 0));
    assert(trusted_mark(text, 13, 32));
    lemma_next_mark(text, 0, 13, id, Seq::empty());
    assert(with_id(Seq::empty(), id) =~= seq![id]);
}

/// The record of a read message at the end of a text, behind a stretch from `i` on
/// without a marker.
proof fn lemma_read(
    text: Seq<char>,
    i: int,
    at: int,
    sender: Seq<char>,
    id: Seq<char>,
    content: Seq<char>,
    found: Seq<Seq<char>>,
)
    requires
        is_msg_id(id),
        0 <= i <= at <= text.len(),
        text.skip(at) == action_output::read_msg_entry_text(sender, id, content),
        forall|j: int| i <= j < at ==> !search::occurs_at(text, "[MSG:"@, j),
        !search::has_text(sender, "[MSG:"@),
    ensures
        ids_from(text, i, found) == ids_from(
            text,
            at + sender.len() + 21,
            with_id(found, id),
        ),
        !search::has_text(content, "[MSG:"@) ==> ids_from(text, i, found) == with_id(found, id),
{
    let ctx = action_output::MSG_READ_CONTEXT@;
    let entry = action_output::read_msg_entry_text(sender, id, content);
    reveal_strlit(" [MSG:");
    reveal_strlit("[MSG:");
    reveal_strlit("]");
    reveal_strlit("\n\n");
    reveal_strlit("\n");
    reveal_strlit("发来一条消息：");
    let n = sender.len() as int;
    let open = at + n + 1;
    let c = ctx.len() as int;
    assert(text.len() == at + entry.len());
    assert(entry.len() == n + 21 + c + 2 + content.len() + 1);
    assert(forall|k: int| 0 <= k < entry.len() ==> text.skip(at)[k] == #[trigger] text[at + k]);
    assert forall|j: int| at <= j < open implies !search::occurs_at(text, "[MSG:"@, j) by {
        if search::occurs_at(text, "[MSG:"@, j) {
            let mark = text.subrange(j, j + 5);
            if j + 5 <= at + n {
                let k = j - at;
                assert(sender.subrange(k, k + 5) =~= mark) by {
                    assert forall|x: int| 0 <= x < 5 implies sender[k + x] == mark[x] by {
                        assert(text[at + (k + x)] == entry[k + x]);
                    }
                }
                assert(search::occurs_at(sender, "[MSG:"@, k));
            } else {
                assert(text[at + n] == entry[n]);
                assert(mark[at + n - j] == ' ');
            }
        }
    }
    assert(text.subrange(open, open + 5) =~= "[MSG:"@) by {
        assert forall|x: int| 0 <= x < 5 implies text[open + x] == "[MSG:"@[x] by {
            assert(text[at + (n + 1 + x)] == entry[n + 1 + x]);
        }
    }
    assert(text.subrange(open + 5, open + 19) =~= id) by {
        assert forall|x: int| 0 <= x < 14 implies text[open + 5 + x] == id[x] by {
            assert(text[at + (n + 6 + x)] == entry[n + 6 + x]);
        }
    }
    assert(text[at + (n + 20)] == entry[n + 20]);
    assert(text.subrange(open + 20, open + 20 + c) =~= ctx) by {
        assert forall|x: int| 0 <= x < c implies text[open + 20 + x] == ctx[x] by {
            assert(text[at + (n + 21 + x)] == entry[n + 21 + x]);
        }
    }
    assert(search::occurs_at(text, ctx, open + 20));
    assert(trusted_mark(text, open, open + 19));
    lemma_next_mark(text, i, open, id, found);
    if !search::has_text(content, "[MSG:"@) {
        let from = n + 21 + c + 2;
        let m = content.len() as int;
        assert(entry.len() == from + m + 1);
        assert forall|j: int| open + 20 <= j implies !search::occurs_at(text, "[MSG:"@, j) by {
            if search::occurs_at(text, "[MSG:"@, j) {
                let mark = text.subrange(j, j + 5);
                let k = j - at;
                assert(text[at + k] == entry[k]);
                assert(mark[0] == text[j]);
                if k < n + 21 + c {
                    assert(entry[k] == ctx[k - (n + 21)]);
                } else if k < from {
                    assert(entry[k] == '\n');
                } else if k + 5 <= from + m {
                    assert(content.subrange(k - from, k - from + 5) =~= mark) by {
                        assert forall|x: int| 0 <= x < 5 implies content[k - from + x]
                            == mark[x] by {
                            assert(text[at + (k + x)] == entry[k + x]);
                        }
                    }
                    assert(search::occurs_at(content, "[MSG:"@, k - from));
                } else {
                    assert(text[at + (from + m)] == entry[from + m]);
                    assert(mark[from + m - k] == '\n');
                }
            }
        }
        lemma_no_mark(text, open + 20, with_id(found, id));
    }
}

/// What sending writes down is recognised: the record of a sent message marks
/// its name, and nothing else.
pub proof fn law_sent_messages_are_recognised(id: Seq<char>)
    requires
        is_msg_id(id),
    ensures
        marked_ids(action_output::send_success_text(id)) == seq![id],
{
    let text = action_output::send_success_text(id);
    assert(text + Seq::<char>::empty() =~= text);
    lemma_sent(text, id, Seq::empty());
    reveal_strlit("[MSG:");
    lemma_no_mark(text, 33, seq![id]);
}

/// What reading writes down is recognised: the first name that the record of a
/// read message marks is the message's own, and the only one unless its content
/// holds a marker. The sender's name must not hold one.
pub proof fn law_read_messages_are_recognised(
    sender: Seq<char>,
    id: Seq<char>,
    content: Seq<char>,
)
    requires
        is_msg_id(id),
        !search::has_text(sender, "[MSG:"@),
    ensures
        marked_ids(action_output::read_msg_entry_text(sender, id, content)).len() > 0,
        marked_ids(action_output::read_msg_entry_text(sender, id, content))[0] == id,
        !search::has_text(content, "[MSG:"@) ==> marked_ids(
            action_output::read_msg_entry_text(sender, id, content),
        ) == seq![id],
{
    let text = action_output::read_msg_entry_text(sender, id, content);
    assert(text.skip(0) =~= text);
    lemma_read(text, 0, 0, sender, id, content, Seq::empty());
    assert(with_id(Seq::empty(), id) =~= seq![id]);
    lemma_ids_from(text, (sender.len() + 21) as int, seq![id]);
    assert(seq![id][0] == id);
}

/// A sent and a read message in one record are both recognised, in this order: what
/// the record says of them are the markers that are trusted.
pub proof fn law_records_are_recognised(
    sent: Seq<char>,
    sender: Seq<char>,
    read: Seq<char>,
    content: Seq<char>,
)
    requires
        is_msg_id(sent),
        is_msg_id(read),
        !search::has_text(sender, "[MSG:"@),
        !search::has_text(content, "[MSG:"@),
    ensures
        marked_ids(
            action_output::send_success_text(sent) + action_output::read_msg_entry_text(
                sender,
                read,
                content,
            ),
        ) == (if sent == read {
            seq![sent]
        } else {
            seq![sent, read]
        }),
{
    let entry = action_output::read_msg_entry_text(sender, read, content);
    let text = action_output::send_success_text(sent) + entry;
    lemma_sent(text, sent, entry);
    assert(text.skip(34) =~= entry);
    reveal_strlit("[MSG:");
    assert(!search::occurs_at(text, "[MSG:"@, 33)) by {
        if search::occurs_at(text, "[MSG:"@, 33) {
            assert(text.subrange(33, 38)[0] == text[33]);
        }
    }
    lemma_read(text, 33, 34, sender, read, content, seq![sent]);
    assert(seq![sent][0] == sent);
    if sent != read {
        assert(!seq![sent].contains(read));
        assert(seq![sent].push(read) =~= seq![sent, read]);
    } else {
        assert(seq![sent].contains(read));
    }
}

} // verus!

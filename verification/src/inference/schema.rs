//! How a model is told which actions there are.
use vstd::prelude::*;

use crate::inference::action::Action;
use crate::inference::markdown;

verus! {

pub const IDLE_DOC: &'static str = "Action：什么都不做（继续等待）\n// idle是终结动作，输出idle后本轮推理结束，不能再输出任何action\n// 礼貌规则: 用户只能看到信件，看不到你的其它行为，因此，进入idle之前需检查已读信件，如有未回复消息，优先回复（寄出信件）\n// ⚠️ sleep vs idle：shell脚本里的sleep是同步阻塞——等待期间你无法响应任何消息；idle是异步等待——来信会立刻唤醒你。需要等待时永远用idle，不要用sleep\n// ⚠️ 默认不加参数：等用户消息时直接idle不带秒数，来信自动唤醒。只有\"启动了后台任务、需要过一会儿检查结果\"这种场景才加秒数\n// 💡 idle可以紧跟在其他action后面连续输出。比如你send_msg回复了用户后需要等待确认，直接跟一个idle，不用浪费一次推理\n// 💡 idle 120：等待120秒后自动醒来检查状态（期间有来信也会提前醒）。适合异步运维场景";

pub const READ_MSG_DOC: &'static str = "Action：阅读收件箱（未读来信=0时无效）\n// 来信中sender为\"user\"代表已鉴权的你的专属用户";

pub const SEND_MSG_DOC: &'static str = "Action：寄出信件\n// 收件人填\"user\"代表发给你的专属用户\n// 信件中引用文件路径时使用 [[file:相对路径]] 格式，前端会渲染为可点击的文件链接\n// 信件中的URL会自动识别为可点击链接，无需特殊格式\n// 信件内容支持markdown格式（标题、列表、代码块、表格等），前端会自动渲染";

pub const THINKING_DOC: &'static str = "Action：记录思考\n// 可以在实施action之前先记录planning-thinking（思考计划）\n// 也可以在关键action之后记录reflection-thinking（观察结果）";

pub const SCRIPT_DOC: &'static str = "Action：执行本地脚本\n// 脚本执行时cwd已经是工作目录(workspace)，脚本中的相对路径基于workspace\n// 使用绝对路径可以访问工作目录之外的文件（需要开启privilege权限，可以跟用户商量）";

pub const WRITE_FILE_DOC: &'static str = "Action：写入文件\n// 路径是工作目录中的相对路径。如果需要操作工作目录之外的文件，可以使用绝对路径（需要开启privileged权限，可以跟用户商量）\n// 写入后系统自动提取文件骨架（接口+注释）记入 `current`，不记全文\n// 如果需要记住写入的关键细节，在thinking中提前记录";

pub const REPLACE_IN_FILE_DOC: &'static str = "Action：搜索替换文件内容（增量修改）\n// 搜索文本必须在文件中唯一匹配，匹配0次或多次都会报错\n// 比write_file省token：只需输出变更区域，不用全量输出文件\n// 比script中的sed更可靠：引擎内置实现，不依赖系统命令\n// 路径是工作目录中的相对路径。如果需要操作工作目录之外的文件，可以使用绝对路径（需要开启privileged权限，可以跟用户商量）";

pub const SUMMARY_DOC: &'static str = "Action：小结（回顾对话）\n// 当current变得很长时，用这个action释放空间\n// 执行后current清空、小结合入近况\n// 对话小结按过程顺序记录：关键思考、决策和结论；重要操作及其结果；进行中尚未完成的工作的上下文和指引；新出现的知识术语；读到用户信件时的感受和温度";

pub const SET_PROFILE_DOC: &'static str = "Action：设置个人资料\n// 已知key: name（显示名称）, color（主题色，如#FF6B6B）, avatar（头像emoji）";

pub const CREATE_INSTANCE_DOC: &'static str = "Action：创建新实例（裂变）\n// 创建一个新的agent实例，引擎会自动发现并启动\n// 用于裂变场景：将部分职责和知识委托给新实例\n// 新实例会继承当前用户，获得随机ID和颜色\n// ⚠️ 未经用户授权不得执行裂变\n// knowledge内容与自己当前的知识保持结构基本一致，按用户要求提炼局部内容";

pub const DISTILL_DOC: &'static str = "Action：提炼（压缩action块）\n// 将current中指定action的内容替换为你的提炼总结，释放空间\n// 总结直接写入原action位置，前面会自动加[已提炼]标记\n// 💡 时机：脚本执行结果确认后立刻提炼——编译输出、文件列表、curl响应等一次性验证内容，确认结论后就不需要保留原文\n// 💡 效果：信息不丢失，只是从原文压缩为结论。比如100行find输出提炼为\"日志在xxx目录，最新文件是xxx\"\n// 适用场景：大段脚本输出、重复代码阅读、冗长的中间过程\n// 不能提炼自身action，不能提炼不存在的编号\n// ⚠️ 提炼不可逆，确保总结保留了关键信息再执行";

/// How an action is introduced: what it is for, and how it starts.
pub open spec fn variant_schema(doc: Seq<char>, name: Seq<char>, token: Seq<char>) -> Seq<char> {
    "// "@ + doc + "\n"@ + markdown::element_mark("Action"@, token) + "\n"@ + name + "\n"@
}

/// How a part of an action is introduced.
pub open spec fn field_schema(name: Seq<char>, doc: Seq<char>, token: Seq<char>) -> Seq<char> {
    markdown::element_mark(name, token) + "\n// "@ + doc + "\n"@
}

fn push_variant(s: &mut String, doc: &str, name: &str, token: &str)
    ensures
        final(s)@ == old(s)@ + variant_schema(doc@, name@, token@),
{
    let ghost start = s@;
    s.push_str("// ");
    s.push_str(doc);
    s.push_str("\n");
    s.push_str(markdown::element_marker("Action", token).as_str());
    s.push_str("\n");
    s.push_str(name);
    s.push_str("\n");
    assert(s@ =~= start + variant_schema(doc@, name@, token@));
}

fn push_field(s: &mut String, name: &str, doc: &str, token: &str)
    ensures
        final(s)@ == old(s)@ + field_schema(name@, doc@, token@),
{
    let ghost start = s@;
    s.push_str(markdown::element_marker(name, token).as_str());
    s.push_str("\n// ");
    s.push_str(doc);
    s.push_str("\n");
    assert(s@ =~= start + field_schema(name@, doc@, token@));
}

pub open spec fn idle_schema(token: Seq<char>) -> Seq<char> {
    variant_schema(IDLE_DOC@, "idle"@, token)
        + field_schema("timeout_secs"@, "秒数（如120，表示等待120秒后自动醒来）（可选）"@, token) + "\n"@
}

fn push_idle(s: &mut String, token: &str)
    ensures
        final(s)@ == old(s)@ + idle_schema(token@),
{
    let ghost start = s@;
    push_variant(s, IDLE_DOC, "idle", token);
    push_field(s, "timeout_secs", "秒数（如120，表示等待120秒后自动醒来）（可选）", token);
    s.push_str("\n");
    assert(s@ =~= start + idle_schema(token@));
}

pub open spec fn read_msg_schema(token: Seq<char>) -> Seq<char> {
    variant_schema(READ_MSG_DOC@, "read_msg"@, token) + "\n"@
}

fn push_read_msg(s: &mut String, token: &str)
    ensures
        final(s)@ == old(s)@ + read_msg_schema(token@),
{
    let ghost start = s@;
    push_variant(s, READ_MSG_DOC, "read_msg", token);
    s.push_str("\n");
    assert(s@ =~= start + read_msg_schema(token@));
}

pub open spec fn send_msg_schema(token: Seq<char>) -> Seq<char> {
    variant_schema(SEND_MSG_DOC@, "send_msg"@, token)
        + field_schema("recipient"@, "收件人"@, token)
        + field_schema("content"@, "信件内容"@, token) + "\n"@
}

fn push_send_msg(s: &mut String, token: &str)
    ensures
        final(s)@ == old(s)@ + send_msg_schema(token@),
{
    let ghost start = s@;
    push_variant(s, SEND_MSG_DOC, "send_msg", token);
    push_field(s, "recipient", "收件人", token);
    push_field(s, "content", "信件内容", token);
    s.push_str("\n");
    assert(s@ =~= start + send_msg_schema(token@));
}

pub open spec fn thinking_schema(token: Seq<char>) -> Seq<char> {
    variant_schema(THINKING_DOC@, "thinking"@, token)
        + field_schema("content"@, "thinking内容"@, token) + "\n"@
}

fn push_thinking(s: &mut String, token: &str)
    ensures
        final(s)@ == old(s)@ + thinking_schema(token@),
{
    let ghost start = s@;
    push_variant(s, THINKING_DOC, "thinking", token);
    push_field(s, "content", "thinking内容", token);
    s.push_str("\n");
    assert(s@ =~= start + thinking_schema(token@));
}

pub open spec fn script_schema(token: Seq<char>) -> Seq<char> {
    variant_schema(SCRIPT_DOC@, "script"@, token)
        + field_schema("content"@, "脚本内容"@, token) + "\n"@
}

fn push_script(s: &mut String, token: &str)
    ensures
        final(s)@ == old(s)@ + script_schema(token@),
{
    let ghost start = s@;
    push_variant(s, SCRIPT_DOC, "script", token);
    push_field(s, "content", "脚本内容", token);
    s.push_str("\n");
    assert(s@ =~= start + script_schema(token@));
}

pub open spec fn write_file_schema(token: Seq<char>) -> Seq<char> {
    variant_schema(WRITE_FILE_DOC@, "write_file"@, token)
        + field_schema("path"@, "file_path"@, token)
        + field_schema("content"@, "文件完整内容"@, token) + "\n"@
}

fn push_write_file(s: &mut String, token: &str)
    ensures
        final(s)@ == old(s)@ + write_file_schema(token@),
{
    let ghost start = s@;
    push_variant(s, WRITE_FILE_DOC, "write_file", token);
    push_field(s, "path", "file_path", token);
    push_field(s, "content", "文件完整内容", token);
    s.push_str("\n");
    assert(s@ =~= start + write_file_schema(token@));
}

pub open spec fn replace_in_file_schema(token: Seq<char>) -> Seq<char> {
    variant_schema(REPLACE_IN_FILE_DOC@, "replace_in_file"@, token)
        + field_schema("path"@, "file_path"@, token)
        + field_schema("search"@, "要搜索的精确文本（多行）"@, token)
        + field_schema("replace"@, "要替换成的文本（多行）"@, token) + "\n"@
}

fn push_replace_in_file(s: &mut String, token: &str)
    ensures
        final(s)@ == old(s)@ + replace_in_file_schema(token@),
{
    let ghost start = s@;
    push_variant(s, REPLACE_IN_FILE_DOC, "replace_in_file", token);
    push_field(s, "path", "file_path", token);
    push_field(s, "search", "要搜索的精确文本（多行）", token);
    push_field(s, "replace", "要替换成的文本（多行）", token);
    s.push_str("\n");
    assert(s@ =~= start + replace_in_file_schema(token@));
}

pub open spec fn summary_schema(token: Seq<char>) -> Seq<char> {
    variant_schema(SUMMARY_DOC@, "summary"@, token)
        + field_schema("content"@, "对话小结"@, token) + "\n"@
}

fn push_summary(s: &mut String, token: &str)
    ensures
        final(s)@ == old(s)@ + summary_schema(token@),
{
    let ghost start = s@;
    push_variant(s, SUMMARY_DOC, "summary", token);
    push_field(s, "content", "对话小结", token);
    s.push_str("\n");
    assert(s@ =~= start + summary_schema(token@));
}

pub open spec fn set_profile_schema(token: Seq<char>) -> Seq<char> {
    variant_schema(SET_PROFILE_DOC@, "set_profile"@, token)
        + field_schema("content"@, "设置项（每行一个 key:value）"@, token) + "\n"@
}

fn push_set_profile(s: &mut String, token: &str)
    ensures
        final(s)@ == old(s)@ + set_profile_schema(token@),
{
    let ghost start = s@;
    push_variant(s, SET_PROFILE_DOC, "set_profile", token);
    push_field(s, "content", "设置项（每行一个 key:value）", token);
    s.push_str("\n");
    assert(s@ =~= start + set_profile_schema(token@));
}

pub open spec fn create_instance_schema(token: Seq<char>) -> Seq<char> {
    variant_schema(CREATE_INSTANCE_DOC@, "create_instance"@, token)
        + field_schema("name"@, "实例显示名称"@, token)
        + field_schema("knowledge"@, "knowledge内容（新实例的初始知识）"@, token) + "\n"@
}

fn push_create_instance(s: &mut String, token: &str)
    ensures
        final(s)@ == old(s)@ + create_instance_schema(token@),
{
    let ghost start = s@;
    push_variant(s, CREATE_INSTANCE_DOC, "create_instance", token);
    push_field(s, "name", "实例显示名称", token);
    push_field(s, "knowledge", "knowledge内容（新实例的初始知识）", token);
    s.push_str("\n");
    assert(s@ =~= start + create_instance_schema(token@));
}

pub open spec fn distill_schema(token: Seq<char>) -> Seq<char> {
    variant_schema(DISTILL_DOC@, "distill"@, token)
        + field_schema("target_action_id"@, "要提炼的action编号（从行为编号标记中获取）"@, token)
        + field_schema("summary"@, "提炼总结（替换原action的完整内容）"@, token) + "\n"@
}

fn push_distill(s: &mut String, token: &str)
    ensures
        final(s)@ == old(s)@ + distill_schema(token@),
{
    let ghost start = s@;
    push_variant(s, DISTILL_DOC, "distill", token);
    push_field(s, "target_action_id", "要提炼的action编号（从行为编号标记中获取）", token);
    push_field(s, "summary", "提炼总结（替换原action的完整内容）", token);
    s.push_str("\n");
    assert(s@ =~= start + distill_schema(token@));
}

/// How a model is told which actions there are.
pub open spec fn schema_text(token: Seq<char>) -> Seq<char> {
    idle_schema(token) + read_msg_schema(token) + send_msg_schema(token) + thinking_schema(token) + script_schema(token) + write_file_schema(token) + replace_in_file_schema(token) + summary_schema(token) + set_profile_schema(token) + create_instance_schema(token) + distill_schema(token)
        + "最后输出: "@ + markdown::end_mark("Action"@, token) + "\n"@
}

/// A prompt with the format of the answer below it.
pub open spec fn prompt_text(prompt: Seq<char>, schema: Seq<char>) -> Seq<char> {
    prompt
        + "\n\n### 输出规范 ###\n你必须严格按照以下格式输出。直接输出内容，不要输出任何思考过程、前言或解释。\n\n"@
        + schema
}

/// Puts the format of the answer below a prompt.
pub fn with_schema(prompt: &str, schema: &str) -> (r: String)
    ensures
        r@ == prompt_text(prompt@, schema@),
{
    let mut s = prompt.to_string();
    s.push_str(
        "\n\n### 输出规范 ###\n你必须严格按照以下格式输出。直接输出内容，不要输出任何思考过程、前言或解释。\n\n",
    );
    s.push_str(schema);
    s
}

impl Action {
    /// How a model is told which actions there are.
    pub fn schema_markdown(token: &str) -> (r: String)
        ensures
            r@ == schema_text(token@),
    {
        let mut s = String::new();
        push_idle(&mut s, token);
        push_read_msg(&mut s, token);
        push_send_msg(&mut s, token);
        push_thinking(&mut s, token);
        push_script(&mut s, token);
        push_write_file(&mut s, token);
        push_replace_in_file(&mut s, token);
        push_summary(&mut s, token);
        push_set_profile(&mut s, token);
        push_create_instance(&mut s, token);
        push_distill(&mut s, token);
        s.push_str("最后输出: ");
        s.push_str(markdown::end_marker("Action", token).as_str());
        s.push_str("\n");
        assert(s@ =~= schema_text(token@));
        s
    }
}

} // verus!

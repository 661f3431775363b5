//! `delegate_research`: run a focused research subagent whose role,
//! thinking frame and output shape the main agent defines per call.
use vstd::prelude::*;

use crate::ask_user_question::{has_text, missing, required_str};
use crate::json::{arg_str, get_str, json_i64, json_str, Json};
use crate::text::{owned, push_str, trim, trim_str};

verus! {

/// The name the tool is offered under.
pub const TOOL_NAME: &'static str = "delegate_research";

/// The model the subagent runs on.
pub const SUBAGENT_MODEL: &'static str = "gpt-5.5";

/// The subagent tool, holding the model provider it runs the subagent on.
pub struct DelegateResearchTool<P> {
    pub provider: P,
}

impl<P> DelegateResearchTool<P> {
    /// The tool over a provider.
    pub fn new(provider: P) -> (r: Self)
        ensures
            r.provider == provider,
    {
        DelegateResearchTool { provider }
    }

    /// The name the tool is offered under.
    pub fn name(&self) -> (r: &'static str)
        ensures
            r@ == TOOL_NAME@,
    {
        TOOL_NAME
    }
}

/// The arguments of a subagent call.
pub struct DelegateArgs {
    pub role: String,
    pub question: String,
    pub context: String,
    pub thinking_frame: String,
    pub output_shape: String,
}

/// An optional argument: trimmed, or empty when absent or blank.
pub open spec fn optional_text(args: Json, key: Seq<char>) -> Seq<char> {
    match arg_str(args, key) {
        Some(s) => trim(s),
        None => Seq::empty(),
    }
}

/// A required argument: trimmed.
pub open spec fn required_text(args: Json, key: Seq<char>) -> Seq<char> {
    match arg_str(args, key) {
        Some(s) => trim(s),
        None => Seq::empty(),
    }
}

/// Reads a subagent call: role, question and context are required and
/// must not be blank, checked in that order.
pub fn parse_delegate_args(args: &Json) -> (r: Result<DelegateArgs, String>)
    ensures
        if !has_text(*args, "role"@) {
            r matches Err(e) && e@ == missing("role"@)
        } else if !has_text(*args, "question"@) {
            r matches Err(e) && e@ == missing("question"@)
        } else if !has_text(*args, "context"@) {
            r matches Err(e) && e@ == missing("context"@)
        } else {
            r matches Ok(a) && a.role@ == required_text(*args, "role"@) && a.question@
                == required_text(*args, "question"@) && a.context@ == required_text(
                *args,
                "context"@,
            ) && a.thinking_frame@ == optional_text(*args, "thinking_frame"@) && a.output_shape@
                == optional_text(*args, "output_shape"@)
        },
{
    let role = match required_str(args, "role") {
        Ok(s) => s,
        Err(e) => return Err(e),
    };
    let question = match required_str(args, "question") {
        Ok(s) => s,
        Err(e) => return Err(e),
    };
    let context = match required_str(args, "context") {
        Ok(s) => s,
        Err(e) => return Err(e),
    };
    let thinking_frame = match get_str(args, "thinking_frame") {
        Some(s) => trim_str(s),
        None => String::new(),
    };
    let output_shape = match get_str(args, "output_shape") {
        Some(s) => trim_str(s),
        None => String::new(),
    };
    Ok(DelegateArgs { role, question, context, thinking_frame, output_shape })
}

/// The role instruction of the subagent: the role, then the thinking
/// frame and the output shape when they are given.
pub open spec fn instruction_text(role: Seq<char>, thinking_frame: Seq<char>, output_shape: Seq<char>) -> Seq<char> {
    "你的角色由主 agent 为本次任务定义为："@ + role + "。"@ + (if thinking_frame.len() == 0 {
        Seq::empty()
    } else {
        " 使用这个思维框架："@ + thinking_frame + "。"@
    }) + if output_shape.len() == 0 {
        Seq::empty()
    } else {
        " 输出形态按这个要求组织："@ + output_shape + "。"@
    }
}

/// `instruction_text` of a call's role, frame and shape.
pub fn format_subagent_instruction(role: &str, thinking_frame: &str, output_shape: &str) -> (r: String)
    ensures
        r@ == instruction_text(role@, thinking_frame@, output_shape@),
{
    let mut instruction = owned("你的角色由主 agent 为本次任务定义为：");
    push_str(&mut instruction, role);
    push_str(&mut instruction, "。");
    if !thinking_frame.is_empty() {
        push_str(&mut instruction, " 使用这个思维框架：");
        push_str(&mut instruction, thinking_frame);
        push_str(&mut instruction, "。");
    }
    if !output_shape.is_empty() {
        push_str(&mut instruction, " 输出形态按这个要求组织：");
        push_str(&mut instruction, output_shape);
        push_str(&mut instruction, "。");
    }
    instruction
}

/// The user message of the subagent: task and context, then the frame
/// and output requirements when they are given.
pub open spec fn user_message_text(a: DelegateArgs) -> Seq<char> {
    "# 子任务\n"@ + a.question@ + "\n\n# 上下文\n"@ + a.context@ + (if a.thinking_frame@.len() == 0 {
        Seq::empty()
    } else {
        "\n\n# 思维框架\n"@ + a.thinking_frame@
    }) + if a.output_shape@.len() == 0 {
        Seq::empty()
    } else {
        "\n\n# 输出要求\n"@ + a.output_shape@
    }
}

/// The user message of the subagent.
pub fn subagent_user_message(a: &DelegateArgs) -> (r: String)
    ensures
        r@ == user_message_text(*a),
{
    let mut user = owned("# 子任务\n");
    push_str(&mut user, a.question.as_str());
    push_str(&mut user, "\n\n# 上下文\n");
    push_str(&mut user, a.context.as_str());
    if !a.thinking_frame.as_str().is_empty() {
        push_str(&mut user, "\n\n# 思维框架\n");
        push_str(&mut user, a.thinking_frame.as_str());
    }
    if !a.output_shape.as_str().is_empty() {
        push_str(&mut user, "\n\n# 输出要求\n");
        push_str(&mut user, a.output_shape.as_str());
    }
    user
}

/// Members that are the given string members, in order.
pub open spec fn string_members_are(ms: Seq<(String, Json)>, members: Seq<(Seq<char>, Seq<char>)>) -> bool {
    &&& ms.len() == members.len()
    &&& forall|i: int| 0 <= i < members.len() ==> ms[i].0@ == #[trigger] members[i].0 && (
    ms[i].1 matches Json::String(v) && v@ == members[i].1)
}

/// An object of string members, in the given key order.
pub open spec fn string_object(j: Json, members: Seq<(Seq<char>, Seq<char>)>) -> bool {
    match j {
        Json::Object(ms) => string_members_are(ms@, members),
        _ => false,
    }
}

/// An object of the given string members.
fn string_members(pairs: &Vec<(&str, &str)>) -> (j: Json)
    ensures
        string_object(j, pairs@.map_values(|p: (&str, &str)| (p.0@, p.1@))),
{
    let mut ms: Vec<(String, Json)> = Vec::new();
    let mut i: usize = 0;
    while i < pairs.len()
        invariant
            i <= pairs.len(),
            ms@.len() == i,
            forall|k: int| 0 <= k < i ==> ms@[k].0@ == #[trigger] pairs@[k].0@ && (ms@[k].1 matches Json::String(
                v,
            ) && v@ == pairs@[k].1@),
        decreases pairs.len() - i,
    {
        let (k, v) = pairs[i];
        ms.push((owned(k), json_str(v)));
        i = i + 1;
    }
    Json::Object(ms)
}

/// The scope record of a run: `{"output_shape", "role", "thinking_frame"}`.
pub fn scope_json(a: &DelegateArgs) -> (j: Json)
    ensures
        string_object(
            j,
            seq![("output_shape"@, a.output_shape@), ("role"@, a.role@), ("thinking_frame"@, a.thinking_frame@)],
        ),
{
    let mut pairs: Vec<(&str, &str)> = Vec::new();
    pairs.push(("output_shape", a.output_shape.as_str()));
    pairs.push(("role", a.role.as_str()));
    pairs.push(("thinking_frame", a.thinking_frame.as_str()));
    let j = string_members(&pairs);
    assert(pairs@.map_values(|p: (&str, &str)| (p.0@, p.1@)) =~= seq![
        ("output_shape"@, a.output_shape@),
        ("role"@, a.role@),
        ("thinking_frame"@, a.thinking_frame@),
    ]);
    j
}

/// The input record of a run: `{"context", "question"}`.
pub fn input_json(a: &DelegateArgs) -> (j: Json)
    ensures
        string_object(j, seq![("context"@, a.context@), ("question"@, a.question@)]),
{
    let mut pairs: Vec<(&str, &str)> = Vec::new();
    pairs.push(("context", a.context.as_str()));
    pairs.push(("question", a.question.as_str()));
    let j = string_members(&pairs);
    assert(pairs@.map_values(|p: (&str, &str)| (p.0@, p.1@)) =~= seq![
        ("context"@, a.context@),
        ("question"@, a.question@),
    ]);
    j
}

/// The output record of a finished run: `{"output", "question", "role"}`.
pub fn output_json(a: &DelegateArgs, output: &str) -> (j: Json)
    ensures
        string_object(j, seq![("output"@, output@), ("question"@, a.question@), ("role"@, a.role@)]),
{
    let mut pairs: Vec<(&str, &str)> = Vec::new();
    pairs.push(("output", output));
    pairs.push(("question", a.question.as_str()));
    pairs.push(("role", a.role.as_str()));
    let j = string_members(&pairs);
    assert(pairs@.map_values(|p: (&str, &str)| (p.0@, p.1@)) =~= seq![
        ("output"@, output@),
        ("question"@, a.question@),
        ("role"@, a.role@),
    ]);
    j
}

/// The event payload of a run: `{"extra", "question", "role", "run_id",
/// "status"}`.
pub fn subagent_event_payload(run_id: &str, status: &str, role: &str, question: &str, extra: Json) -> (j: Json)
    ensures
        j matches Json::Object(ms) && ms@.len() == 5 && ms@[0].0@ == "extra"@ && ms@[0].1 == extra
            && string_members_are(
            ms@.subrange(1, 5),
            seq![("question"@, question@), ("role"@, role@), ("run_id"@, run_id@), ("status"@, status@)],
        ),
{
    let mut ms: Vec<(String, Json)> = Vec::new();
    ms.push((owned("extra"), extra));
    ms.push((owned("question"), json_str(question)));
    ms.push((owned("role"), json_str(role)));
    ms.push((owned("run_id"), json_str(run_id)));
    ms.push((owned("status"), json_str(status)));
    let ghost tail = ms@.subrange(1, 5);
    assert(tail[0] == ms@[1]);
    assert(tail[1] == ms@[2]);
    assert(tail[2] == ms@[3]);
    assert(tail[3] == ms@[4]);
    Json::Object(ms)
}

/// The extra detail of a failed run: `{"duration_ms", "error"}`.
pub fn failed_extra(error: &str, duration_ms: i64) -> (j: Json)
    ensures
        j matches Json::Object(ms) && ms@.len() == 2 && ms@[0].0@ == "duration_ms"@ && (ms@[0].1 matches Json::Number(
            n,
        ) && n.as_i64 == Some(duration_ms) && n.text@ == crate::text::signed_decimal(
            duration_ms as int,
        )) && ms@[1].0@ == "error"@ && (ms@[1].1 matches Json::String(e) && e@ == error@),
{
    let mut ms: Vec<(String, Json)> = Vec::new();
    ms.push((owned("duration_ms"), json_i64(duration_ms)));
    ms.push((owned("error"), json_str(error)));
    Json::Object(ms)
}

/// The reply of a finished run.
pub fn subagent_result(role: &str, run_id: &str, output: &str) -> (r: String)
    ensures
        r@ == "## Subagent `"@ + role@ + "` result\n\nrun_id: `"@ + run_id@ + "`\n\n"@ + output@,
{
    let mut out = owned("## Subagent `");
    push_str(&mut out, role);
    push_str(&mut out, "` result\n\nrun_id: `");
    push_str(&mut out, run_id);
    push_str(&mut out, "`\n\n");
    push_str(&mut out, output);
    out
}

// ---------------------------------------------------------------------
// The reply stream
// ---------------------------------------------------------------------
/// What the model stream delivers to a running subagent.
pub enum SubagentEvent {
    /// A piece of answer text.
    TextDelta(String),
    /// Token usage of a request.
    Usage { input_tokens: u32, output_tokens: u32 },
    /// A web search, a function call, reasoning or the message end.
    Other,
    /// The stream failed with a message.
    Failed(String),
    /// The call was cancelled.
    Cancelled,
}

/// What the run does after an event: keep reading, or fail with a message.
pub enum StreamStep {
    Continue,
    Fail(String),
}

/// The answer gathered so far and the tokens used.
pub struct SubagentStream {
    pub output: String,
    pub tokens_used: i64,
}

impl SubagentStream {
    /// A stream before its first event.
    pub fn new() -> (r: Self)
        ensures
            r.output@.len() == 0,
            r.tokens_used == 0,
    {
        SubagentStream { output: String::new(), tokens_used: 0 }
    }

    /// Takes one event: text is appended, usage is added to the tokens,
    /// a failure or a cancellation ends the run.
    pub fn on_event(&mut self, event: SubagentEvent) -> (r: StreamStep)
        requires
            event matches SubagentEvent::Usage { input_tokens, output_tokens } ==> old(self).tokens_used
                + input_tokens + output_tokens <= i64::MAX,
        ensures
            match event {
                SubagentEvent::TextDelta(t) => {
                    &&& r is Continue
                    &&& final(self).output@ == old(self).output@ + t@
                    &&& final(self).tokens_used == old(self).tokens_used
                },
                SubagentEvent::Usage { input_tokens, output_tokens } => {
                    &&& r is Continue
                    &&& final(self).output@ == old(self).output@
                    &&& final(self).tokens_used == old(self).tokens_used + input_tokens + output_tokens
                },
                SubagentEvent::Other => {
                    &&& r is Continue
                    &&& final(self).output@ == old(self).output@
                    &&& final(self).tokens_used == old(self).tokens_used
                },
                SubagentEvent::Failed(m) => {
                    &&& r matches StreamStep::Fail(e) && e@ == m@
                    &&& final(self).output@ == old(self).output@
                    &&& final(self).tokens_used == old(self).tokens_used
                },
                SubagentEvent::Cancelled => {
                    &&& r matches StreamStep::Fail(e) && e@ == "subagent cancelled"@
                    &&& final(self).output@ == old(self).output@
                    &&& final(self).tokens_used == old(self).tokens_used
                },
            },
    {
        match event {
            SubagentEvent::TextDelta(t) => {
                push_str(&mut self.output, t.as_str());
                StreamStep::Continue
            },
            SubagentEvent::Usage { input_tokens, output_tokens } => {
                self.tokens_used = self.tokens_used + input_tokens as i64 + output_tokens as i64;
                StreamStep::Continue
            },
            SubagentEvent::Other => StreamStep::Continue,
            SubagentEvent::Failed(m) => StreamStep::Fail(m),
            SubagentEvent::Cancelled => StreamStep::Fail(owned("subagent cancelled")),
        }
    }
}

} // verus!

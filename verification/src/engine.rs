//! The reasoning backends (Gemini, Ollama): what is sent to them and how
//! their replies are read.

use vstd::prelude::*;
use crate::limits::strs_view;
use crate::prompt::{
    AgentContext, ReasoningOutput, goal_prompt, parse_tool_call, spec_goal_prompt,
    spec_parse_tool_call,
};
use crate::text::{debug_string, debug_text};

verus! {

/// What a reasoning engine made of a turn, as text.
pub enum OutputView {
    Message(Seq<char>),
    ToolCall(Seq<char>, Seq<char>),
}

/// The view of a reasoning output.
pub open spec fn output_view(o: ReasoningOutput) -> OutputView {
    match o {
        ReasoningOutput::Message(m) => OutputView::Message(m@),
        ReasoningOutput::ToolCall(c) => OutputView::ToolCall(c.tool_name@, c.arguments@),
    }
}

/// How a reply's text is read: a tool call where it holds one, else a message.
pub open spec fn reply_reading(text: Seq<char>) -> OutputView {
    match spec_parse_tool_call(text) {
        Some((name, args)) => OutputView::ToolCall(name, args),
        None => OutputView::Message(text),
    }
}

/// Reads a model's reply text.
pub fn read_reply(text: String) -> (r: ReasoningOutput)
    ensures
        output_view(r) == reply_reading(text@),
{
    match parse_tool_call(text.as_str()) {
        Some(call) => ReasoningOutput::ToolCall(call),
        None => ReasoningOutput::Message(text),
    }
}

/// One message of a conversation: who speaks, and the text.
pub struct ChatTurn {
    pub role: String,
    pub text: String,
}

/// The view of a conversation.
pub open spec fn turns_view(v: Seq<ChatTurn>) -> Seq<(Seq<char>, Seq<char>)> {
    v.map_values(|t: ChatTurn| (t.role@, t.text@))
}

/// The observations of a context as user messages.
pub open spec fn user_turns(obs: Seq<Seq<char>>) -> Seq<(Seq<char>, Seq<char>)> {
    obs.map_values(|o: Seq<char>| ("user"@, o))
}

fn user_messages(obs: &Vec<String>) -> (r: Vec<ChatTurn>)
    ensures
        turns_view(r@) == user_turns(strs_view(obs@)),
{
    let mut r: Vec<ChatTurn> = Vec::new();
    let mut i: usize = 0;
    while i < obs.len()
        invariant
            i <= obs@.len(),
            turns_view(r@) == user_turns(strs_view(obs@)).take(i as int),
        decreases obs.len() - i,
    {
        r.push(ChatTurn { role: String::from_str("user"), text: obs[i].clone() });
        assert(user_turns(strs_view(obs@)).take(i + 1) =~= user_turns(strs_view(obs@)).take(
            i as int,
        ).push(("user"@, obs@[i as int]@)));
        assert(turns_view(r@) =~= turns_view(r@).drop_last().push(("user"@, obs@[i as int]@)));
        i = i + 1;
    }
    assert(user_turns(strs_view(obs@)).take(obs@.len() as int) =~= user_turns(strs_view(obs@)));
    r
}

/// A request to Gemini.
pub struct GeminiRequest {
    pub contents: Vec<ChatTurn>,
    pub system_instruction: ChatTurn,
}

/// The request for a context: the observations as user messages, and the
/// master instruction with the context's prompt as the system instruction.
pub fn gemini_request(ctx: &AgentContext) -> (r: GeminiRequest)
    ensures
        turns_view(r.contents@) == user_turns(strs_view(ctx.recent_observations@)),
        r.system_instruction.role@ == "system"@,
        r.system_instruction.text@ == spec_goal_prompt(ctx.system_prompt@),
{
    GeminiRequest {
        contents: user_messages(&ctx.recent_observations),
        system_instruction: ChatTurn {
            role: String::from_str("system"),
            text: goal_prompt(ctx.system_prompt.as_str()),
        },
    }
}

/// The endpoint of Gemini's content generation for `model`, keyed by `key`.
pub open spec fn gemini_endpoint(model: Seq<char>, key: Seq<char>) -> Seq<char> {
    "https://generativelanguage.googleapis.com/v1beta/models/"@ + model + ":generateContent?key="@
        + key
}

/// The endpoint of Gemini's content generation.
pub fn gemini_url(model: &str, key: &str) -> (r: String)
    ensures
        r@ == gemini_endpoint(model@, key@),
{
    let mut r = String::from_str("https://generativelanguage.googleapis.com/v1beta/models/");
    r.append(model);
    r.append(":generateContent?key=");
    r.append(key);
    r
}

/// The API key to use: the one configured, else a placeholder.
pub fn gemini_api_key(configured: Option<String>) -> (r: String)
    ensures
        r@ == match configured {
            Some(k) => k@,
            None => "mock-key"@,
        },
{
    match configured {
        Some(k) => k,
        None => String::from_str("mock-key"),
    }
}

/// One candidate of a Gemini reply: the texts of its parts.
pub struct GeminiCandidate {
    pub parts: Vec<String>,
}

/// An error reported by the Gemini API.
pub struct GeminiApiError {
    pub message: String,
    pub code: Option<i32>,
    pub status: Option<String>,
}

/// A decoded Gemini reply.
pub struct GeminiReply {
    pub candidates: Option<Vec<GeminiCandidate>>,
    pub error: Option<GeminiApiError>,
}

/// The decimal digits of `n`.
pub open spec fn digits_of(n: nat) -> Seq<char>
    decreases n,
{
    if n < 10 {
        seq![((n + 48) as u32) as char]
    } else {
        digits_of(n / 10).push((((n % 10) + 48) as u32) as char)
    }
}

/// The decimal text of `n`, with a minus sign where it is negative.
pub open spec fn decimal_text(n: int) -> Seq<char> {
    if n < 0 {
        "-"@ + digits_of((-n) as nat)
    } else {
        digits_of(n as nat)
    }
}

fn digit_str(d: u64) -> (r: &'static str)
    requires
        d < 10,
    ensures
        r@ == seq![((d + 48) as u32) as char],
{
    proof {
        reveal_strlit("0");
        reveal_strlit("1");
        reveal_strlit("2");
        reveal_strlit("3");
        reveal_strlit("4");
        reveal_strlit("5");
        reveal_strlit("6");
        reveal_strlit("7");
        reveal_strlit("8");
        reveal_strlit("9");
    }
    let r = if d == 0 {
        "0"
    } else if d == 1 {
        "1"
    } else if d == 2 {
        "2"
    } else if d == 3 {
        "3"
    } else if d == 4 {
        "4"
    } else if d == 5 {
        "5"
    } else if d == 6 {
        "6"
    } else if d == 7 {
        "7"
    } else if d == 8 {
        "8"
    } else {
        "9"
    };
    assert(r@ =~= seq![((d + 48) as u32) as char]);
    r
}

fn append_digits(out: &mut String, n: u64)
    ensures
        final(out)@ == old(out)@ + digits_of(n as nat),
    decreases n,
{
    if n < 10 {
        out.append(digit_str(n));
    } else {
        append_digits(out, n / 10);
        out.append(digit_str(n % 10));
        assert(digits_of(n as nat) == digits_of((n / 10) as nat).push((((n % 10) + 48) as u32) as char));
        assert(old(out)@ + digits_of(n as nat) =~= old(out)@ + digits_of((n / 10) as nat) + seq![
            (((n % 10) + 48) as u32) as char,
        ]);
    }
}

/// The decimal text of an integer, as `{}` and `{:?}` print it.
pub fn decimal_string(n: i32) -> (r: String)
    ensures
        r@ == decimal_text(n as int),
{
    let mut r = String::new();
    if n < 0 {
        r.append("-");
        let m: i64 = -(n as i64);
        append_digits(&mut r, m as u64);
    } else {
        append_digits(&mut r, n as u64);
    }
    r
}

/// The `{:?}` text of an optional integer.
pub open spec fn opt_int_debug(o: Option<i32>) -> Seq<char> {
    match o {
        Some(n) => "Some("@ + decimal_text(n as int) + ")"@,
        None => "None"@,
    }
}

/// The `{:?}` text of an optional string.
pub open spec fn opt_text_debug(o: Option<Seq<char>>) -> Seq<char> {
    match o {
        Some(s) => "Some("@ + debug_text(s) + ")"@,
        None => "None"@,
    }
}

/// The text of an error reported by the Gemini API.
pub open spec fn gemini_error_text(message: Seq<char>, status: Option<Seq<char>>, code: Option<i32>) -> Seq<char> {
    "Gemini API Error: "@ + message + " (Status: "@ + opt_text_debug(status) + ", Code: "@
        + opt_int_debug(code) + ")"@
}

/// What a Gemini reply gives: its error where it reports one; else the
/// reading of the first part of the first candidate; else an error quoting
/// the raw body.
pub open spec fn gemini_outcome(reply: GeminiReply, raw: Seq<char>) -> Result<OutputView, Seq<char>> {
    match reply.error {
        Some(e) => Err(gemini_error_text(e.message@, e.status.deep_view(), e.code)),
        None => match reply.candidates {
            Some(cs) => if cs@.len() > 0 && cs@[0].parts@.len() > 0 {
                Ok(reply_reading(cs@[0].parts@[0]@))
            } else {
                Err("Gemini returned no candidates. Raw body: "@ + raw)
            },
            None => Err("Gemini returned no candidates. Raw body: "@ + raw),
        },
    }
}

/// The view of an engine result.
pub open spec fn engine_result_view(r: Result<ReasoningOutput, String>) -> Result<OutputView, Seq<char>> {
    match r {
        Ok(o) => Ok(output_view(o)),
        Err(e) => Err(e@),
    }
}

/// Reads a decoded Gemini reply; `raw` is the body it was decoded from.
pub fn interpret_gemini(reply: &GeminiReply, raw: &str) -> (r: Result<ReasoningOutput, String>)
    ensures
        engine_result_view(r) == gemini_outcome(*reply, raw@),
{
    match &reply.error {
        Some(e) => {
            let mut m = String::from_str("Gemini API Error: ");
            m.append(e.message.as_str());
            m.append(" (Status: ");
            match &e.status {
                Some(s) => {
                    m.append("Some(");
                    let d = debug_string(s.as_str());
                    m.append(d.as_str());
                    m.append(")");
                },
                None => m.append("None"),
            }
            m.append(", Code: ");
            match e.code {
                Some(c) => {
                    m.append("Some(");
                    let d = decimal_string(c);
                    m.append(d.as_str());
                    m.append(")");
                },
                None => m.append("None"),
            }
            m.append(")");
            assert(m@ =~= gemini_error_text(e.message@, e.status.deep_view(), e.code));
            return Err(m);
        },
        None => {},
    }
    match &reply.candidates {
        Some(cs) => {
            if cs.len() > 0 && cs[0].parts.len() > 0 {
                return Ok(read_reply(cs[0].parts[0].clone()));
            }
        },
        None => {},
    }
    let mut m = String::from_str("Gemini returned no candidates. Raw body: ");
    m.append(raw);
    Err(m)
}

/// The Ollama server to use: the one configured, else the local default.
pub fn ollama_host(configured: Option<String>) -> (r: String)
    ensures
        r@ == match configured {
            Some(h) => h@,
            None => "http://localhost:11434"@,
        },
{
    match configured {
        Some(h) => h,
        None => String::from_str("http://localhost:11434"),
    }
}

/// The chat endpoint of an Ollama server.
pub fn ollama_url(host: &str) -> (r: String)
    ensures
        r@ == host@ + "/api/chat"@,
{
    let mut r = String::from_str(host);
    r.append("/api/chat");
    r
}

/// A chat request to Ollama.
pub struct OllamaRequest {
    pub model: String,
    pub messages: Vec<ChatTurn>,
    pub stream: bool,
}

/// The request for a context: the system prompt first, then the observations
/// as user messages, for the context's model, not streamed.
pub fn ollama_request(ctx: &AgentContext) -> (r: OllamaRequest)
    ensures
        r.model@ == ctx.model@,
        !r.stream,
        turns_view(r.messages@) == seq![("system"@, spec_goal_prompt(ctx.system_prompt@))] + user_turns(
            strs_view(ctx.recent_observations@),
        ),
{
    let mut messages: Vec<ChatTurn> = Vec::new();
    messages.push(ChatTurn { role: String::from_str("system"), text: goal_prompt(ctx.system_prompt.as_str()) });
    let mut users = user_messages(&ctx.recent_observations);
    let ghost first = turns_view(messages@);
    let ghost rest = turns_view(users@);
    messages.append(&mut users);
    assert(turns_view(messages@) =~= first + rest);
    OllamaRequest { model: ctx.model.clone(), messages, stream: false }
}

} // verus!

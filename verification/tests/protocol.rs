use enversal::engine::{
    decimal_string, gemini_api_key, gemini_request, gemini_url, interpret_gemini, ollama_host,
    ollama_request, ollama_url, read_reply, GeminiApiError, GeminiCandidate, GeminiReply,
};
use enversal::prompt::{
    goal_prompt, parse_evaluation, parse_finish, parse_plan, parse_tool_call, tool_call_from,
    tool_call_text, AgentContext,
    ReasoningOutput, MASTER_SYSTEM_INSTRUCTION,
};

#[test]
fn plan_between_first_tags() {
    assert_eq!(parse_plan("x <plan>step 1\nstep 2</plan> y</plan>"), Some("step 1\nstep 2".to_string()));
    assert_eq!(parse_plan("<plan> keep spaces </plan>"), Some(" keep spaces ".to_string()));
    assert_eq!(parse_plan("no plan here"), None);
    assert_eq!(parse_plan("<plan>unclosed"), None);
    assert_eq!(parse_plan("</plan><plan>"), None);
}

#[test]
fn finish_report_is_trimmed() {
    assert_eq!(parse_finish("done <finish>\n  Wrote /tmp/x.txt \n</finish>"), Some("Wrote /tmp/x.txt".to_string()));
    assert_eq!(parse_finish("<finish>   </finish>"), Some(String::new()));
    assert_eq!(parse_finish("<finish>no end"), None);
}

#[test]
fn evaluation_approval_wins() {
    assert_eq!(parse_evaluation("<rejected>bad</rejected> <approved>"), Some(Ok("Task Approved".to_string())));
    assert_eq!(parse_evaluation("<rejected>missing file</rejected>"), Some(Err("missing file".to_string())));
    assert_eq!(parse_evaluation("still checking"), None);
}

#[test]
fn tool_call_read_and_normalized() {
    let call = parse_tool_call("<thought>x</thought>\n<tool_call name=\"sandbox_exec\">\n  {\"cmd\": \"ls -la\"}\n</tool_call>")
        .expect("a call");
    assert_eq!(call.tool_name, "sandbox_exec");
    assert_eq!(call.arguments, "{\"cmd\":\"ls -la\"}");
}

#[test]
fn tool_call_first_complete_one() {
    // the first opening has an empty name, so the second one is taken
    let call = parse_tool_call("<tool_call name=\"\">{}</tool_call><tool_call name=\"git_clone\">{\"url\":\"u\"}</tool_call>")
        .expect("a call");
    assert_eq!(call.tool_name, "git_clone");
    assert_eq!(call.arguments, "{\"url\":\"u\"}");
}

#[test]
fn tool_call_refused_forms() {
    assert!(parse_tool_call("<tool_call name=\"x\">{}</tool>").is_none());
    assert!(parse_tool_call("<tool_call name=\"x\">not json</tool_call>").is_none());
    assert!(parse_tool_call("<tool_call name='x'>{}</tool_call>").is_none());
}

#[test]
fn goal_prompt_appends_goal() {
    let p = goal_prompt("count files");
    assert!(p.starts_with(MASTER_SYSTEM_INSTRUCTION));
    assert!(p.ends_with("\n\n### YOUR SPECIFIC GOAL\ncount files"));
}

#[test]
fn reply_reading() {
    match read_reply("hello".to_string()) {
        ReasoningOutput::Message(m) => assert_eq!(m, "hello"),
        _ => panic!("expected a message"),
    }
    match read_reply("<tool_call name=\"npm_install\">{}</tool_call>".to_string()) {
        ReasoningOutput::ToolCall(c) => {
            assert_eq!(c.tool_name, "npm_install");
            assert_eq!(c.arguments, "{}");
        }
        _ => panic!("expected a tool call"),
    }
}

fn ctx() -> AgentContext {
    AgentContext {
        agent_id: 7,
        model: "gemini-x".to_string(),
        system_prompt: "goal".to_string(),
        recent_observations: vec!["a".to_string(), "b".to_string()],
    }
}

#[test]
fn gemini_request_and_url() {
    let r = gemini_request(&ctx());
    assert_eq!(r.contents.len(), 2);
    assert_eq!(r.contents[1].role, "user");
    assert_eq!(r.contents[1].text, "b");
    assert_eq!(r.system_instruction.role, "system");
    assert_eq!(r.system_instruction.text, goal_prompt("goal"));
    assert_eq!(
        gemini_url("gemini-x", "k"),
        "https://generativelanguage.googleapis.com/v1beta/models/gemini-x:generateContent?key=k"
    );
    assert_eq!(gemini_api_key(None), "mock-key");
    assert_eq!(gemini_api_key(Some("s".to_string())), "s");
}

#[test]
fn gemini_reply_outcomes() {
    let err = GeminiReply {
        candidates: None,
        error: Some(GeminiApiError { message: "quota".to_string(), code: Some(-429), status: Some("RESOURCE \"X\"".to_string()) }),
    };
    assert_eq!(
        interpret_gemini(&err, "raw").err().unwrap(),
        "Gemini API Error: quota (Status: Some(\"RESOURCE \\\"X\\\"\"), Code: Some(-429))"
    );
    let none = GeminiReply { candidates: Some(vec![]), error: None };
    assert_eq!(interpret_gemini(&none, "{}").err().unwrap(), "Gemini returned no candidates. Raw body: {}");
    let ok = GeminiReply { candidates: Some(vec![GeminiCandidate { parts: vec!["hi".to_string()] }]), error: None };
    match interpret_gemini(&ok, "").unwrap() {
        ReasoningOutput::Message(m) => assert_eq!(m, "hi"),
        _ => panic!("expected a message"),
    }
    let no_code = GeminiReply {
        candidates: None,
        error: Some(GeminiApiError { message: "m".to_string(), code: None, status: None }),
    };
    assert_eq!(interpret_gemini(&no_code, "").err().unwrap(), "Gemini API Error: m (Status: None, Code: None)");
}

#[test]
fn decimal_text() {
    assert_eq!(decimal_string(0), "0");
    assert_eq!(decimal_string(1234), "1234");
    assert_eq!(decimal_string(i32::MIN), "-2147483648");
}

#[test]
fn ollama_request_and_host() {
    let r = ollama_request(&ctx());
    assert_eq!(r.model, "gemini-x");
    assert!(!r.stream);
    assert_eq!(r.messages.len(), 3);
    assert_eq!(r.messages[0].role, "system");
    assert_eq!(r.messages[0].text, goal_prompt("goal"));
    assert_eq!(r.messages[2].text, "b");
    assert_eq!(ollama_host(None), "http://localhost:11434");
    assert_eq!(ollama_url("http://h:1"), "http://h:1/api/chat");
}

#[test]
fn tool_call_text_then_request() {
    let (name, body) = tool_call_text("a <tool_call name=\"git_clone\">  {\"url\": 1} \n</tool_call>").unwrap();
    assert_eq!(name, "git_clone");
    assert_eq!(body, "{\"url\": 1}");
    assert!(tool_call_text("<tool_call name=\"\">{}</tool_call>").is_none());
    let call = tool_call_from("x".to_string(), Some("{}".to_string())).unwrap();
    assert_eq!(call.tool_name, "x");
    assert_eq!(call.arguments, "{}");
    assert!(tool_call_from("x".to_string(), None).is_none());
}

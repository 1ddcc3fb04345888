use serde_json::Value;
use zeroclaw::dispatcher::{NativeToolDispatcher, ToolDispatcher, XmlToolDispatcher};
use zeroclaw::gitee_tts::GiteeTtsTool;
use zeroclaw::model::{
    ChatResponse, ConversationMessage, Tool, ToolCall, ToolExecutionResult, ToolResultMessage,
};

fn json(text: &str) -> Value {
    serde_json::from_str(text).unwrap()
}

fn empty_object() -> Value {
    Value::Object(serde_json::Map::new())
}

fn reply(text: &str) -> ChatResponse {
    ChatResponse {
        text: Some(text.to_string()),
        tool_calls: vec![],
    }
}

fn results() -> Vec<ToolExecutionResult> {
    vec![
        ToolExecutionResult {
            name: "shell".to_string(),
            output: "ls output".to_string(),
            success: true,
            tool_call_id: Some("c1".to_string()),
        },
        ToolExecutionResult {
            name: "web".to_string(),
            output: "boom".to_string(),
            success: false,
            tool_call_id: None,
        },
    ]
}

#[test]
fn plain_text_is_trimmed_narrative() {
    let (text, calls) = XmlToolDispatcher.parse_response(&reply("  just some text\n "));
    assert_eq!(text, "just some text");
    assert!(calls.is_empty());
}

#[test]
fn empty_and_missing_text_give_nothing() {
    let (text, calls) = XmlToolDispatcher.parse_response(&reply(""));
    assert_eq!(text, "");
    assert!(calls.is_empty());
    let none = ChatResponse {
        text: None,
        tool_calls: vec![],
    };
    let (text, calls) = XmlToolDispatcher.parse_response(&none);
    assert_eq!(text, "");
    assert!(calls.is_empty());
}

#[test]
fn json_tool_call_is_recovered() {
    let input = "<tool_call>{\"name\":\"search\",\"arguments\":{\"q\":\"rust\"}}</tool_call>";
    let (text, calls) = XmlToolDispatcher::parse_xml_tool_calls(input);
    assert_eq!(text, "");
    assert_eq!(calls.len(), 1);
    assert_eq!(calls[0].name, "search");
    assert_eq!(calls[0].arguments, json("{\"q\":\"rust\"}"));
    assert!(calls[0].tool_call_id.is_none());
}

#[test]
fn surrounding_text_is_kept_in_order() {
    let input = "Hello <invoke>{\"name\":\"ping\"}</invoke> world";
    let (text, calls) = XmlToolDispatcher::parse_xml_tool_calls(input);
    assert_eq!(text, "Hello\nworld");
    assert_eq!(calls.len(), 1);
    assert_eq!(calls[0].name, "ping");
    assert_eq!(calls[0].arguments, empty_object());
}

#[test]
fn speech_aliases_make_the_same_call() {
    for alias in ["speak", "say", "tts", "voice_say", "text_to_speech"] {
        let input = format!("<{alias}> Hello there </{alias}>");
        let (text, calls) = XmlToolDispatcher::parse_xml_tool_calls(&input);
        assert_eq!(text, "", "{alias}");
        assert_eq!(calls.len(), 1, "{alias}");
        assert_eq!(calls[0].name, "tts", "{alias}");
        assert_eq!(calls[0].arguments, json("{\"text\":\"Hello there\"}"), "{alias}");
    }
}

#[test]
fn empty_speech_tag_has_no_text_argument() {
    let (text, calls) = XmlToolDispatcher::parse_xml_tool_calls("<speak>  </speak>");
    assert_eq!(text, "");
    assert_eq!(calls.len(), 1);
    assert_eq!(calls[0].name, "tts");
    assert_eq!(calls[0].arguments, empty_object());
}

#[test]
fn nameless_json_stays_as_text() {
    let (text, calls) = XmlToolDispatcher::parse_xml_tool_calls("<tool_call> {\"foo\":1} </tool_call>");
    assert_eq!(text, "{\"foo\":1}");
    assert!(calls.is_empty());
}

#[test]
fn single_line_content_is_kept_as_text() {
    let (text, calls) = XmlToolDispatcher::parse_xml_tool_calls("<tool_call>not json</tool_call>");
    assert_eq!(text, "not json");
    assert!(calls.is_empty());
}

#[test]
fn opening_tag_text_names_the_tool() {
    let (text, calls) = XmlToolDispatcher::parse_xml_tool_calls("<tool_call tool_search q=\"rust\"> after");
    assert_eq!(text, "after");
    assert_eq!(calls.len(), 1);
    assert_eq!(calls[0].name, "tool_search");
    assert_eq!(calls[0].arguments, json("{\"q\":\"rust\"}"));
    let (text, calls) = XmlToolDispatcher::parse_xml_tool_calls("<tool_call hello there>");
    assert_eq!(text, "hello there");
    assert!(calls.is_empty());
}

#[test]
fn literal_markers_come_before_open_ended_ones() {
    let (text, calls) = XmlToolDispatcher::parse_xml_tool_calls("<poetry_call>x</poetry_call>");
    assert_eq!(text, "x");
    assert!(calls.is_empty());
    let (text, _) = XmlToolDispatcher::parse_xml_tool_calls("<poem_write>verse</poem_write>");
    assert_eq!(text, "verse");
    let (text, _) = XmlToolDispatcher::parse_xml_tool_calls("<poetry_tool_call>y</poetry_tool_call>");
    assert_eq!(text, "y");
    let (text, _) = XmlToolDispatcher::parse_xml_tool_calls("<poetry_writer>z</poetry_writer>");
    assert_eq!(text, "z");
    let (text, _) = XmlToolDispatcher::parse_xml_tool_calls("<poem_writer>w</poem_writer>");
    assert_eq!(text, "w");
    let (text, _) = XmlToolDispatcher::parse_xml_tool_calls("<poetry_write style=\"free\">");
    assert_eq!(text, "style=\"free\"");
}

#[test]
fn speech_tag_attributes_become_arguments() {
    let input = "<speak voice=\"female\">hi</speak>";
    let (text, calls) = XmlToolDispatcher::parse_xml_tool_calls(input);
    assert_eq!(text, "");
    assert_eq!(calls.len(), 1);
    assert_eq!(calls[0].name, "tts");
    assert_eq!(calls[0].arguments, json("{\"voice\":\"female\",\"text\":\"hi\"}"));
    let input = "<tts text=\"hello\"/> after";
    let (text, calls) = XmlToolDispatcher::parse_xml_tool_calls(input);
    assert_eq!(text, "after");
    assert_eq!(calls.len(), 1);
    assert_eq!(calls[0].arguments, json("{\"text\":\"hello\"}"));
    let input = "<say text=\"set\">ignored</say>";
    let (_, calls) = XmlToolDispatcher::parse_xml_tool_calls(input);
    assert_eq!(calls[0].arguments, json("{\"text\":\"set\"}"));
}

#[test]
fn arguments_are_always_objects() {
    let input = "<tool_call>{\"name\":\"a\",\"arguments\":null}</tool_call>";
    let (_, calls) = XmlToolDispatcher::parse_xml_tool_calls(input);
    assert_eq!(calls.len(), 1);
    assert_eq!(calls[0].arguments, empty_object());
    let input = "<tool_call>a\n[1, 2]</tool_call>";
    let (_, calls) = XmlToolDispatcher::parse_xml_tool_calls(input);
    assert_eq!(calls.len(), 1);
    assert_eq!(calls[0].name, "a");
    assert_eq!(calls[0].arguments, empty_object());
    for payload in ["null", "5", "[1]", "\"text\""] {
        let response = ChatResponse {
            text: None,
            tool_calls: vec![ToolCall {
                id: "x".to_string(),
                name: "f".to_string(),
                arguments: payload.to_string(),
            }],
        };
        let (_, calls) = NativeToolDispatcher.parse_response(&response);
        assert_eq!(calls.len(), 1);
        assert_eq!(calls[0].arguments, empty_object(), "{payload}");
    }
}

#[test]
fn name_line_with_key_value_lines() {
    let input = "<tool_call>\nsearch\nq=\"rust\"\nlimit = '5'\nnoise\n</tool_call>";
    let (text, calls) = XmlToolDispatcher::parse_xml_tool_calls(input);
    assert_eq!(text, "");
    assert_eq!(calls.len(), 1);
    assert_eq!(calls[0].name, "search");
    assert_eq!(calls[0].arguments, json("{\"q\":\"rust\",\"limit\":\"5\"}"));
}

#[test]
fn name_line_with_json_arguments() {
    let input = "<toolcall>search\n{\"q\":\"rust\"}</toolcall>";
    let (_, calls) = XmlToolDispatcher::parse_xml_tool_calls(input);
    assert_eq!(calls.len(), 1);
    assert_eq!(calls[0].name, "search");
    assert_eq!(calls[0].arguments, json("{\"q\":\"rust\"}"));
}

#[test]
fn brace_first_line_stays_as_text() {
    let (text, calls) = XmlToolDispatcher::parse_xml_tool_calls("<tool_call>{bad\nmore</tool_call>");
    assert_eq!(text, "{bad\nmore");
    assert!(calls.is_empty());
}

#[test]
fn narrative_tags_are_kept_verbatim() {
    let input = "Intro <poetry> roses are red </poetry> outro <trash></trash>";
    let (text, calls) = XmlToolDispatcher::parse_xml_tool_calls(input);
    assert_eq!(text, "Intro\nroses are red\noutro\n");
    assert!(calls.is_empty());
}

#[test]
fn unclosed_tag_ends_the_scan() {
    let input = "before <tool_call>{\"name\":\"x\"";
    let (text, calls) = XmlToolDispatcher::parse_xml_tool_calls(input);
    assert_eq!(text, "before\n{\"name\":\"x\"");
    assert!(calls.is_empty());
    let (text, calls) = XmlToolDispatcher::parse_xml_tool_calls("<speak>unclosed text");
    assert_eq!(text, "");
    assert_eq!(calls.len(), 1);
    assert_eq!(calls[0].arguments, json("{\"text\":\"unclosed text\"}"));
}

#[test]
fn long_unclosed_input_terminates() {
    let input = format!("<tool_call>{}", "x ".repeat(5000));
    let (text, calls) = XmlToolDispatcher::parse_xml_tool_calls(&input);
    assert_eq!(text.len(), 9999);
    assert!(calls.is_empty());
}

#[test]
fn several_calls_come_in_order() {
    let input = "a <tool_call>{\"name\":\"one\"}</tool_call> b <invoke>{\"name\":\"two\",\"arguments\":{\"k\":1}}</invoke>";
    let (text, calls) = XmlToolDispatcher::parse_xml_tool_calls(input);
    assert_eq!(text, "a\nb");
    assert_eq!(calls.len(), 2);
    assert_eq!(calls[0].name, "one");
    assert_eq!(calls[1].name, "two");
    assert_eq!(calls[1].arguments, json("{\"k\":1}"));
}

#[test]
fn native_keeps_every_call() {
    let response = ChatResponse {
        text: Some("thinking".to_string()),
        tool_calls: vec![
            ToolCall {
                id: "a".to_string(),
                name: "first".to_string(),
                arguments: "{\"x\":1}".to_string(),
            },
            ToolCall {
                id: "b".to_string(),
                name: "second".to_string(),
                arguments: "{not json".to_string(),
            },
            ToolCall {
                id: "c".to_string(),
                name: "third".to_string(),
                arguments: "{}".to_string(),
            },
        ],
    };
    let (text, calls) = NativeToolDispatcher.parse_response(&response);
    assert_eq!(text, "thinking");
    assert_eq!(calls.len(), 3);
    assert_eq!(calls[0].arguments, json("{\"x\":1}"));
    assert_eq!(calls[1].name, "second");
    assert_eq!(calls[1].arguments, empty_object());
    assert_eq!(calls[1].tool_call_id.as_deref(), Some("b"));
    assert_eq!(calls[2].arguments, empty_object());
}

#[test]
fn xml_results_round_trip() {
    let d = XmlToolDispatcher;
    let message = d.format_results(&results());
    let turns = d.to_provider_messages(&[message]);
    assert_eq!(turns.len(), 1);
    assert_eq!(turns[0].role, "user");
    assert_eq!(
        turns[0].content,
        "[Tool results]\n<tool_result name=\"shell\" status=\"ok\">\nls output\n</tool_result>\n<tool_result name=\"web\" status=\"error\">\nboom\n</tool_result>\n"
    );
}

#[test]
fn native_results_round_trip() {
    let d = NativeToolDispatcher;
    let message = d.format_results(&results());
    match &message {
        ConversationMessage::ToolResults(ms) => {
            assert_eq!(ms.len(), 2);
            assert_eq!(ms[0].tool_call_id, "c1");
            assert_eq!(ms[1].tool_call_id, "unknown");
            assert_eq!(ms[1].content, "boom");
        }
        _ => panic!("expected a batch of results"),
    }
    let turns = d.to_provider_messages(&[message]);
    assert_eq!(turns.len(), 1);
    assert_eq!(turns[0].role, "user");
    assert_eq!(
        turns[0].content,
        "Tool result for c1: ls output\nTool result for unknown: boom\n"
    );
}

#[test]
fn histories_render_per_protocol() {
    let history = vec![
        ConversationMessage::AssistantToolCalls {
            text: Some("let me look".to_string()),
            tool_calls: vec![ToolCall {
                id: "1".to_string(),
                name: "search".to_string(),
                arguments: "{}".to_string(),
            }],
        },
        ConversationMessage::AssistantToolCalls {
            text: None,
            tool_calls: vec![],
        },
        ConversationMessage::ToolResults(vec![ToolResultMessage {
            tool_call_id: "1".to_string(),
            content: "found".to_string(),
        }]),
    ];
    let xml = XmlToolDispatcher.to_provider_messages(&history);
    assert_eq!(xml.len(), 3);
    assert_eq!(xml[0].role, "assistant");
    assert_eq!(xml[0].content, "let me look");
    assert_eq!(xml[1].content, "");
    assert_eq!(
        xml[2].content,
        "[Tool results]\n<tool_result id=\"1\">\nfound\n</tool_result>\n"
    );
    let native = NativeToolDispatcher.to_provider_messages(&history);
    assert_eq!(native.len(), 3);
    assert_eq!(native[0].content, "let me look");
    assert_eq!(native[1].content, "tool call issued: search");
    assert_eq!(native[2].role, "user");
    assert_eq!(native[2].content, "Tool result for 1: found\n");
}

#[test]
fn prompt_instructions_list_the_tools() {
    let tools: Vec<Box<dyn Tool>> = vec![Box::new(GiteeTtsTool::new("k".to_string()))];
    let text = XmlToolDispatcher.prompt_instructions(&tools);
    assert!(text.starts_with("## Tool Use Protocol\n\n"));
    assert!(text.contains("### Available Tools\n\n- **tts**: Text-to-Speech (TTS)"));
    assert!(text.contains("\n  Parameters: `{"));
    assert!(text.ends_with("}`\n"));
    assert_eq!(NativeToolDispatcher.prompt_instructions(&tools), "");
    let specs = XmlToolDispatcher::tool_specs(&tools);
    assert_eq!(specs.len(), 1);
    assert_eq!(specs[0].name, "tts");
}

#[test]
fn only_native_sends_tool_specs() {
    assert!(!XmlToolDispatcher.should_send_tool_specs());
    assert!(NativeToolDispatcher.should_send_tool_specs());
    let dispatchers: Vec<Box<dyn ToolDispatcher>> =
        vec![Box::new(XmlToolDispatcher), Box::new(NativeToolDispatcher)];
    assert!(!dispatchers[0].should_send_tool_specs());
    assert!(dispatchers[1].should_send_tool_specs());
}

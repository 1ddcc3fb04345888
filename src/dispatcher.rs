//! The two dispatchers: one carries tool calls inside the text of the
//! conversation, the other beside it, through a provider's native channel.
use crate::json::{
    decode_json, empty_object, encode_json, is_object, json_decode, json_is_object, json_text,
    object_of_strings, pair_views,
};
use crate::model::{
    call_views, text_or_empty, turn, turn_views, CallView, ChatMessage, ChatResponse,
    ConversationMessage, ParsedToolCall, Tool, ToolCall, ToolExecutionResult, ToolResultMessage,
    ToolSpec,
};
use crate::tags::{dialect_table, join_lines, object_or, parse_tags, scan, scan_steps};
use vstd::prelude::*;
use vstd::string::StringExecFns;

verus! {

/// Texts one after another.
pub open spec fn concat(ps: Seq<Seq<char>>) -> Seq<char>
    decreases ps.len(),
{
    if ps.len() == 0 {
        Seq::empty()
    } else {
        concat(ps.drop_last()) + ps.last()
    }
}

/// The marker that opens every batch of results sent as text.
pub open spec fn results_header() -> Seq<char> {
    "[Tool results]\n"@
}

pub open spec fn status_text(success: bool) -> Seq<char> {
    if success {
        "ok"@
    } else {
        "error"@
    }
}

/// One execution result as a tagged block carrying name and status.
pub open spec fn named_block(r: ToolExecutionResult) -> Seq<char> {
    "<tool_result name=\""@ + r.name@ + "\" status=\""@ + status_text(r.success) + "\">\n"@
        + r.output@ + "\n</tool_result>\n"@
}

/// One result of a batch as a tagged block carrying the call's id.
pub open spec fn id_block(r: ToolResultMessage) -> Seq<char> {
    "<tool_result id=\""@ + r.tool_call_id@ + "\">\n"@ + r.content@ + "\n</tool_result>\n"@
}

/// One result of a batch as a line naming the call's id.
pub open spec fn id_line(r: ToolResultMessage) -> Seq<char> {
    "Tool result for "@ + r.tool_call_id@ + ": "@ + r.content@ + "\n"@
}

pub open spec fn named_blocks(rs: Seq<ToolExecutionResult>) -> Seq<char> {
    concat(rs.map_values(|r: ToolExecutionResult| named_block(r)))
}

/// The user turn in which the text protocol reports a batch of results.
pub open spec fn xml_results_text(rs: Seq<ToolExecutionResult>) -> Seq<char> {
    results_header() + named_blocks(rs)
}

/// The turns that the text protocol makes of one history entry.
pub open spec fn xml_turns_of(m: ConversationMessage) -> Seq<crate::model::TurnView> {
    match m {
        ConversationMessage::Chat(c) => seq![c@],
        ConversationMessage::AssistantToolCalls { text, .. } => seq![
            turn("assistant"@, text_or_empty(text)),
        ],
        ConversationMessage::ToolResults(rs) => seq![
            turn(
                "user"@,
                results_header() + concat(rs@.map_values(|r: ToolResultMessage| id_block(r))),
            ),
        ],
    }
}

/// The turns that the text protocol makes of a history, entry by entry.
pub open spec fn xml_turns(h: Seq<ConversationMessage>) -> Seq<crate::model::TurnView>
    decreases h.len(),
{
    if h.len() == 0 {
        Seq::empty()
    } else {
        xml_turns(h.drop_last()) + xml_turns_of(h.last())
    }
}

/// The call id of a result, or the sentinel `unknown`.
pub open spec fn id_or_unknown(r: ToolExecutionResult) -> Seq<char> {
    match r.tool_call_id {
        Some(id) => id@,
        None => "unknown"@,
    }
}

pub open spec fn result_views(ms: Seq<ToolResultMessage>) -> Seq<(Seq<char>, Seq<char>)> {
    ms.map_values(|m: ToolResultMessage| (m.tool_call_id@, m.content@))
}

/// The batch entry that the native protocol makes of one result.
pub open spec fn native_result(r: ToolExecutionResult) -> (Seq<char>, Seq<char>) {
    (id_or_unknown(r), r.output@)
}

/// The call that the native protocol makes of one call record: its
/// arguments decoded, or the empty object where they do not decode to an
/// object.
pub open spec fn native_call(tc: ToolCall) -> CallView {
    CallView {
        name: tc.name@,
        arguments: object_or(json_decode(tc.arguments@), empty_object()),
        tool_call_id: Some(tc.id@),
    }
}

pub open spec fn call_line(tc: ToolCall) -> crate::model::TurnView {
    turn("assistant"@, "tool call issued: "@ + tc.name@)
}

/// The turns that the native protocol makes of one history entry.
pub open spec fn native_turns_of(m: ConversationMessage) -> Seq<crate::model::TurnView> {
    match m {
        ConversationMessage::Chat(c) => seq![c@],
        ConversationMessage::AssistantToolCalls { text, tool_calls } => (match text {
            Some(t) => seq![turn("assistant"@, t@)],
            None => Seq::empty(),
        }) + tool_calls@.map_values(|tc: ToolCall| call_line(tc)),
        ConversationMessage::ToolResults(rs) => seq![
            turn("user"@, concat(rs@.map_values(|r: ToolResultMessage| id_line(r)))),
        ],
    }
}

/// The turns that the native protocol makes of a history, entry by entry.
pub open spec fn native_turns(h: Seq<ConversationMessage>) -> Seq<crate::model::TurnView>
    decreases h.len(),
{
    if h.len() == 0 {
        Seq::empty()
    } else {
        native_turns(h.drop_last()) + native_turns_of(h.last())
    }
}

/// The protocol preamble of the text protocol: how to wrap a call.
pub open spec fn protocol_preamble() -> Seq<char> {
    "## Tool Use Protocol\n\n"@
        + "To use a tool, wrap a JSON object in <tool_call></tool_call> tags:\n\n"@
        + "```\n<tool_call>\n{\"name\": \"tool_name\", \"arguments\": {\"param\": \"value\"}}\n</tool_call>\n```\n\n"@
        + "### Available Tools\n\n"@
}

/// The line that presents one tool: name, description, argument schema.
pub open spec fn tool_line(name: Seq<char>, description: Seq<char>, parameters: serde_json::Value) -> Seq<char> {
    "- **"@ + name + "**: "@ + description + "\n  Parameters: `"@ + json_text(parameters) + "`\n"@
}

/// The instructions of the text protocol for the tools `ts`.
pub open spec fn xml_instructions(ts: Seq<Box<dyn Tool>>) -> Seq<char> {
    protocol_preamble() + concat(
        ts.map_values(
            |t: Box<dyn Tool>| tool_line(t.tool_name(), t.tool_description(), t.tool_parameters()),
        ),
    )
}

/// A user turn of the results of `rs`, as the text protocol writes them.
fn named_blocks_text(rs: &[ToolExecutionResult]) -> (r: String)
    ensures
        r@ == xml_results_text(rs@),
{
    let ghost bs = rs@.map_values(|r: ToolExecutionResult| named_block(r));
    let mut content = String::from_str("[Tool results]\n");
    let mut i: usize = 0;
    assert(bs.take(0) =~= Seq::<Seq<char>>::empty());
    while i < rs.len()
        invariant
            i <= rs@.len(),
            bs == rs@.map_values(|r: ToolExecutionResult| named_block(r)),
            content@ == results_header() + concat(bs.take(i as int)),
        decreases rs.len() - i,
    {
        let r = &rs[i];
        content.append("<tool_result name=\"");
        content.append(r.name.as_str());
        content.append("\" status=\"");
        content.append(if r.success {
            "ok"
        } else {
            "error"
        });
        content.append("\">\n");
        content.append(r.output.as_str());
        content.append("\n</tool_result>\n");
        assert(bs.take(i + 1).drop_last() =~= bs.take(i as int));
        assert(content@ =~= results_header() + concat(bs.take(i + 1)));
        i = i + 1;
    }
    assert(bs.take(rs@.len() as int) =~= bs);
    content
}

/// The text of a batch of results keyed by call id, each `block`ed.
fn id_blocks_text(rs: &Vec<ToolResultMessage>) -> (r: String)
    ensures
        r@ == results_header() + concat(rs@.map_values(|r: ToolResultMessage| id_block(r))),
{
    let ghost bs = rs@.map_values(|r: ToolResultMessage| id_block(r));
    let mut content = String::from_str("[Tool results]\n");
    let mut i: usize = 0;
    assert(bs.take(0) =~= Seq::<Seq<char>>::empty());
    while i < rs.len()
        invariant
            i <= rs@.len(),
            bs == rs@.map_values(|r: ToolResultMessage| id_block(r)),
            content@ == results_header() + concat(bs.take(i as int)),
        decreases rs.len() - i,
    {
        let r = &rs[i];
        content.append("<tool_result id=\"");
        content.append(r.tool_call_id.as_str());
        content.append("\">\n");
        content.append(r.content.as_str());
        content.append("\n</tool_result>\n");
        assert(bs.take(i + 1).drop_last() =~= bs.take(i as int));
        assert(content@ =~= results_header() + concat(bs.take(i + 1)));
        i = i + 1;
    }
    assert(bs.take(rs@.len() as int) =~= bs);
    content
}

/// The text of a batch of results keyed by call id, one line each.
fn id_lines_text(rs: &Vec<ToolResultMessage>) -> (r: String)
    ensures
        r@ == concat(rs@.map_values(|r: ToolResultMessage| id_line(r))),
{
    let ghost bs = rs@.map_values(|r: ToolResultMessage| id_line(r));
    let mut content = String::new();
    let mut i: usize = 0;
    assert(bs.take(0) =~= Seq::<Seq<char>>::empty());
    while i < rs.len()
        invariant
            i <= rs@.len(),
            bs == rs@.map_values(|r: ToolResultMessage| id_line(r)),
            content@ == concat(bs.take(i as int)),
        decreases rs.len() - i,
    {
        let r = &rs[i];
        content.append("Tool result for ");
        content.append(r.tool_call_id.as_str());
        content.append(": ");
        content.append(r.content.as_str());
        content.append("\n");
        assert(bs.take(i + 1).drop_last() =~= bs.take(i as int));
        assert(content@ =~= concat(bs.take(i + 1)));
        i = i + 1;
    }
    assert(bs.take(rs@.len() as int) =~= bs);
    content
}

/// The dispatcher for models without native tool calling: calls travel as
/// tags in the reply's text, results as tagged blocks in a user turn.
#[derive(Debug, Clone, Copy, Default)]
pub struct XmlToolDispatcher;

impl XmlToolDispatcher {
    /// Narrative text and tool calls recovered from a reply's text.
    pub fn parse_xml_tool_calls(response: &str) -> (r: (String, Vec<ParsedToolCall>))
        ensures
            r.0@ == join_lines(scan(response@).texts),
            call_views(r.1@) == scan(response@).calls,
            forall|k: int| 0 <= k < r.1@.len() ==> json_is_object(#[trigger] r.1@[k].arguments),
            4 * scan_steps(response@, dialect_table()) <= response@.len(),
    {
        parse_tags(response)
    }

    /// The descriptors of `tools`, in order.
    pub fn tool_specs(tools: &[Box<dyn Tool>]) -> (r: Vec<ToolSpec>)
        ensures
            r@.len() == tools@.len(),
            forall|i: int|
                0 <= i < tools@.len() ==> {
                    &&& (#[trigger] r@[i]).name@ == tools@[i].tool_name()
                    &&& r@[i].description@ == tools@[i].tool_description()
                    &&& r@[i].parameters == tools@[i].tool_parameters()
                },
    {
        let mut out: Vec<ToolSpec> = Vec::new();
        let mut i: usize = 0;
        while i < tools.len()
            invariant
                i <= tools@.len(),
                out@.len() == i,
                forall|j: int|
                    0 <= j < i ==> {
                        &&& (#[trigger] out@[j]).name@ == tools@[j].tool_name()
                        &&& out@[j].description@ == tools@[j].tool_description()
                        &&& out@[j].parameters == tools@[j].tool_parameters()
                    },
            decreases tools.len() - i,
        {
            out.push(tools[i].spec());
            i = i + 1;
        }
        out
    }

    /// The protocol preamble, then one line per tool with its name, its
    /// description and its argument schema.
    pub fn prompt_instructions(&self, tools: &[Box<dyn Tool>]) -> (r: String)
        ensures
            r@ == xml_instructions(tools@),
    {
        let ghost ls = tools@.map_values(
            |t: Box<dyn Tool>| tool_line(t.tool_name(), t.tool_description(), t.tool_parameters()),
        );
        let mut out = String::new();
        out.append("## Tool Use Protocol\n\n");
        out.append("To use a tool, wrap a JSON object in <tool_call></tool_call> tags:\n\n");
        out.append(
            "```\n<tool_call>\n{\"name\": \"tool_name\", \"arguments\": {\"param\": \"value\"}}\n</tool_call>\n```\n\n",
        );
        out.append("### Available Tools\n\n");
        let mut i: usize = 0;
        assert(ls.take(0) =~= Seq::<Seq<char>>::empty());
        while i < tools.len()
            invariant
                i <= tools@.len(),
                ls == tools@.map_values(
                    |t: Box<dyn Tool>| tool_line(t.tool_name(), t.tool_description(), t.tool_parameters()),
                ),
                out@ == protocol_preamble() + concat(ls.take(i as int)),
            decreases tools.len() - i,
        {
            let t = &tools[i];
            let name = t.name();
            let description = t.description();
            let schema = encode_json(&t.parameters_schema());
            let ghost before = out@;
            out.append("- **");
            out.append(name.as_str());
            out.append("**: ");
            out.append(description.as_str());
            out.append("\n  Parameters: `");
            out.append(schema.as_str());
            out.append("`\n");
            assert(out@ =~= before + ls[i as int]);
            assert(ls.take(i + 1).drop_last() =~= ls.take(i as int));
            assert(concat(ls.take(i + 1)) == concat(ls.take(i as int)) + ls[i as int]);
            assert(out@ =~= protocol_preamble() + concat(ls.take(i + 1)));
            i = i + 1;
        }
        assert(ls.take(tools@.len() as int) =~= ls);
        out
    }

    /// Narrative text and tool calls recovered from the reply's text (the
    /// empty text where it has none).
    pub fn parse_response(&self, response: &ChatResponse) -> (r: (String, Vec<ParsedToolCall>))
        ensures
            r.0@ == join_lines(scan(text_or_empty(response.text)).texts),
            call_views(r.1@) == scan(text_or_empty(response.text)).calls,
            forall|k: int| 0 <= k < r.1@.len() ==> json_is_object(#[trigger] r.1@[k].arguments),
    {
        let text = response.text_or_empty();
        parse_tags(text.as_str())
    }

    /// The results as one user turn: the header, then one tagged block per
    /// result with its name, its status and its output.
    pub fn format_results(&self, results: &[ToolExecutionResult]) -> (r: ConversationMessage)
        ensures
            r matches ConversationMessage::Chat(m) && m@ == turn("user"@, xml_results_text(results@)),
    {
        ConversationMessage::Chat(ChatMessage::user(named_blocks_text(results)))
    }

    /// Whether tool descriptors go to the provider beside the prompt: never,
    /// since this protocol lives in the text.
    pub fn should_send_tool_specs(&self) -> (r: bool)
        ensures
            !r,
    {
        false
    }

    /// The history as plain chat turns, entry by entry.
    pub fn to_provider_messages(&self, history: &[ConversationMessage]) -> (r: Vec<ChatMessage>)
        ensures
            turn_views(r@) == xml_turns(history@),
    {
        let mut out: Vec<ChatMessage> = Vec::new();
        let mut i: usize = 0;
        assert(history@.take(0) =~= Seq::<ConversationMessage>::empty());
        assert(turn_views(out@) =~= Seq::empty());
        while i < history.len()
            invariant
                i <= history@.len(),
                turn_views(out@) == xml_turns(history@.take(i as int)),
            decreases history.len() - i,
        {
            let ghost before = turn_views(out@);
            match &history[i] {
                ConversationMessage::Chat(c) => {
                    out.push(c.duplicate());
                },
                ConversationMessage::AssistantToolCalls { text, .. } => {
                    let t = match text {
                        Some(t) => t.clone(),
                        None => String::new(),
                    };
                    out.push(ChatMessage::assistant(t));
                },
                ConversationMessage::ToolResults(rs) => {
                    out.push(ChatMessage::user(id_blocks_text(rs)));
                },
            }
            assert(history@.take(i + 1).drop_last() =~= history@.take(i as int));
            assert(turn_views(out@) =~= before + xml_turns_of(history@[i as int]));
            i = i + 1;
        }
        assert(history@.take(history@.len() as int) =~= history@);
        out
    }
}

/// The dispatcher for providers with native tool calling: calls and results
/// travel as structured records beside the text.
#[derive(Debug, Clone, Copy, Default)]
pub struct NativeToolDispatcher;

impl NativeToolDispatcher {
    /// The reply's text, and one call per call record, in order. Arguments
    /// that do not decode to an object become the empty object; the call
    /// stays.
    pub fn parse_response(&self, response: &ChatResponse) -> (r: (String, Vec<ParsedToolCall>))
        ensures
            r.0@ == text_or_empty(response.text),
            r.1@.len() == response.tool_calls@.len(),
            call_views(r.1@) == response.tool_calls@.map_values(|tc: ToolCall| native_call(tc)),
            forall|k: int| 0 <= k < r.1@.len() ==> json_is_object(#[trigger] r.1@[k].arguments),
    {
        let text = response.text_or_empty();
        let records = &response.tool_calls;
        let mut calls: Vec<ParsedToolCall> = Vec::new();
        let mut i: usize = 0;
        while i < records.len()
            invariant
                i <= records@.len(),
                records == &response.tool_calls,
                call_views(calls@) == records@.take(i as int).map_values(
                    |tc: ToolCall| native_call(tc),
                ),
                calls@.len() == i,
                forall|k: int| 0 <= k < i ==> json_is_object(#[trigger] calls@[k].arguments),
            decreases records.len() - i,
        {
            let tc = &records[i];
            let arguments = match decode_json(tc.arguments.as_str()) {
                Some(v) => if is_object(&v) {
                    v
                } else {
                    object_of_strings(Vec::new())
                },
                None => object_of_strings(Vec::new()),
            };
            assert(pair_views(Seq::<(String, String)>::empty()) =~= Seq::empty());
            let ghost before = call_views(calls@);
            let ghost old_calls = calls@;
            calls.push(
                ParsedToolCall {
                    name: tc.name.clone(),
                    arguments,
                    tool_call_id: Some(tc.id.clone()),
                },
            );
            assert(call_views(calls@) =~= before.push(native_call(records@[i as int])));
            assert(records@.take(i + 1).map_values(|tc: ToolCall| native_call(tc))
                =~= records@.take(i as int).map_values(|tc: ToolCall| native_call(tc)).push(
                native_call(records@[i as int]),
            ));
            assert forall|k: int| 0 <= k < i + 1 implies json_is_object(
                #[trigger] calls@[k].arguments,
            ) by {
                if k < i {
                    assert(calls@[k] == old_calls[k]);
                }
            }
            i = i + 1;
        }
        assert(records@.take(records@.len() as int) =~= records@);
        (text, calls)
    }

    /// One batch entry per result, in order, keyed by the call's id (or
    /// `unknown`) and carrying the output.
    pub fn format_results(&self, results: &[ToolExecutionResult]) -> (r: ConversationMessage)
        ensures
            r matches ConversationMessage::ToolResults(ms) && result_views(ms@)
                == results@.map_values(|r: ToolExecutionResult| native_result(r)),
    {
        let mut ms: Vec<ToolResultMessage> = Vec::new();
        let mut i: usize = 0;
        while i < results.len()
            invariant
                i <= results@.len(),
                result_views(ms@) == results@.take(i as int).map_values(
                    |r: ToolExecutionResult| native_result(r),
                ),
            decreases results.len() - i,
        {
            let r = &results[i];
            let id = match &r.tool_call_id {
                Some(id) => id.clone(),
                None => String::from_str("unknown"),
            };
            let ghost before = result_views(ms@);
            ms.push(ToolResultMessage { tool_call_id: id, content: r.output.clone() });
            assert(result_views(ms@) =~= before.push(native_result(results@[i as int])));
            assert(results@.take(i + 1).map_values(|r: ToolExecutionResult| native_result(r))
                =~= results@.take(i as int).map_values(
                |r: ToolExecutionResult| native_result(r),
            ).push(native_result(results@[i as int])));
            i = i + 1;
        }
        assert(results@.take(results@.len() as int) =~= results@);
        ConversationMessage::ToolResults(ms)
    }

    /// No protocol text: the provider carries tool descriptors itself.
    pub fn prompt_instructions(&self, tools: &[Box<dyn Tool>]) -> (r: String)
        ensures
            r@ == Seq::<char>::empty(),
    {
        String::new()
    }

    /// Whether tool descriptors go to the provider beside the prompt:
    /// always.
    pub fn should_send_tool_specs(&self) -> (r: bool)
        ensures
            r,
    {
        true
    }

    /// The history as plain chat turns, entry by entry.
    pub fn to_provider_messages(&self, history: &[ConversationMessage]) -> (r: Vec<ChatMessage>)
        ensures
            turn_views(r@) == native_turns(history@),
    {
        let mut out: Vec<ChatMessage> = Vec::new();
        let mut i: usize = 0;
        assert(history@.take(0) =~= Seq::<ConversationMessage>::empty());
        assert(turn_views(out@) =~= Seq::empty());
        while i < history.len()
            invariant
                i <= history@.len(),
                turn_views(out@) == native_turns(history@.take(i as int)),
            decreases history.len() - i,
        {
            let ghost before = turn_views(out@);
            match &history[i] {
                ConversationMessage::Chat(c) => {
                    out.push(c.duplicate());
                },
                ConversationMessage::AssistantToolCalls { text, tool_calls } => {
                    match text {
                        Some(t) => {
                            out.push(ChatMessage::assistant(t.clone()));
                        },
                        None => {},
                    }
                    let ghost mid = turn_views(out@);
                    let mut j: usize = 0;
                    while j < tool_calls.len()
                        invariant
                            j <= tool_calls@.len(),
                            turn_views(out@) == mid + tool_calls@.take(j as int).map_values(
                                |tc: ToolCall| call_line(tc),
                            ),
                        decreases tool_calls.len() - j,
                    {
                        let mut line = String::from_str("tool call issued: ");
                        line.append(tool_calls[j].name.as_str());
                        let ghost b2 = turn_views(out@);
                        out.push(ChatMessage::assistant(line));
                        assert(turn_views(out@) =~= b2.push(call_line(tool_calls@[j as int])));
                        assert(tool_calls@.take(j + 1).map_values(|tc: ToolCall| call_line(tc))
                            =~= tool_calls@.take(j as int).map_values(
                            |tc: ToolCall| call_line(tc),
                        ).push(call_line(tool_calls@[j as int])));
                        j = j + 1;
                    }
                    assert(tool_calls@.take(tool_calls@.len() as int) =~= tool_calls@);
                },
                ConversationMessage::ToolResults(rs) => {
                    out.push(ChatMessage::user(id_lines_text(rs)));
                },
            }
            assert(history@.take(i + 1).drop_last() =~= history@.take(i as int));
            assert(turn_views(out@) =~= before + native_turns_of(history@[i as int]));
            i = i + 1;
        }
        assert(history@.take(history@.len() as int) =~= history@);
        out
    }
}


/// The opening line of the tagged block of one result.
pub open spec fn named_open(r: ToolExecutionResult) -> Seq<char> {
    "<tool_result name=\""@ + r.name@ + "\" status=\""@ + status_text(r.success) + "\">\n"@
}

/// Formatting results for the text protocol and then rendering them yields
/// one user turn in which the outputs stand once each, in order, each
/// between its opening line and the closing tag.
pub proof fn lemma_xml_results_round_trip(rs: Seq<ToolExecutionResult>, m: ConversationMessage)
    requires
        m matches ConversationMessage::Chat(c) && c@ == turn("user"@, xml_results_text(rs)),
    ensures
        xml_turns(seq![m]) == seq![
            turn(
                "user"@,
                results_header() + concat(
                    rs.map_values(
                        |r: ToolExecutionResult| named_open(r) + r.output@ + "\n</tool_result>\n"@,
                    ),
                ),
            ),
        ],
{
    assert(seq![m].drop_last() =~= Seq::<ConversationMessage>::empty());
    assert(rs.map_values(|r: ToolExecutionResult| named_block(r)) =~= rs.map_values(
        |r: ToolExecutionResult| named_open(r) + r.output@ + "\n</tool_result>\n"@,
    ));
    assert(seq![m].last() == m);
    assert(xml_turns(seq![m].drop_last()) == Seq::<crate::model::TurnView>::empty());
    assert(xml_turns(seq![m]) == xml_turns(seq![m].drop_last()) + xml_turns_of(m));
    assert(xml_turns(seq![m]) =~= xml_turns_of(m));
}

/// The line in which the native protocol reports one result.
pub open spec fn native_result_line(r: ToolExecutionResult) -> Seq<char> {
    "Tool result for "@ + id_or_unknown(r) + ": "@ + r.output@ + "\n"@
}

/// Formatting results for the native protocol and then rendering them yields
/// one user turn with one line per result, in order, each with the output.
pub proof fn lemma_native_results_round_trip(rs: Seq<ToolExecutionResult>, m: ConversationMessage)
    requires
        m matches ConversationMessage::ToolResults(ms) && result_views(ms@) == rs.map_values(
            |r: ToolExecutionResult| native_result(r),
        ),
    ensures
        native_turns(seq![m]) == seq![
            turn(
                "user"@,
                concat(rs.map_values(|r: ToolExecutionResult| native_result_line(r))),
            ),
        ],
{
    assert(seq![m].drop_last() =~= Seq::<ConversationMessage>::empty());
    if let ConversationMessage::ToolResults(ms) = m {
        let a = ms@.map_values(|x: ToolResultMessage| id_line(x));
        let b = rs.map_values(|r: ToolExecutionResult| native_result_line(r));
        assert(ms@.len() == result_views(ms@).len());
        assert forall|i: int| 0 <= i < rs.len() implies #[trigger] a[i] == b[i] by {
            assert(result_views(ms@)[i] == native_result(rs[i]));
        }
        assert(a =~= b);
    }
    assert(seq![m].last() == m);
    assert(native_turns(seq![m].drop_last()) == Seq::<crate::model::TurnView>::empty());
    assert(native_turns(seq![m]) == native_turns(seq![m].drop_last()) + native_turns_of(m));
    assert(native_turns(seq![m]) =~= native_turns_of(m));
}

/// The text protocol renders a history with one turn per entry, in order:
/// no entry is dropped or merged.
pub proof fn lemma_xml_turn_per_entry(h: Seq<ConversationMessage>)
    ensures
        xml_turns(h).len() == h.len(),
        forall|i: int| 0 <= i < h.len() ==> #[trigger] xml_turns(h)[i] == xml_turns_of(h[i])[0],
    decreases h.len(),
{
    if h.len() > 0 {
        lemma_xml_turn_per_entry(h.drop_last());
        assert forall|i: int| 0 <= i < h.len() implies #[trigger] xml_turns(h)[i] == xml_turns_of(
            h[i],
        )[0] by {
            if i < h.len() - 1 {
                assert(h.drop_last()[i] == h[i]);
            }
        }
    }
}

/// What both dispatchers offer to the agent loop.
pub trait ToolDispatcher {
    /// Narrative text and tool calls from a model's reply.
    fn parse_response(&self, response: &ChatResponse) -> (String, Vec<ParsedToolCall>);

    /// The message that reports `results` to the model.
    fn format_results(&self, results: &[ToolExecutionResult]) -> ConversationMessage;

    /// The text that teaches the model how to call tools.
    fn prompt_instructions(&self, tools: &[Box<dyn Tool>]) -> String;

    /// The history as the provider's chat turns.
    fn to_provider_messages(&self, history: &[ConversationMessage]) -> Vec<ChatMessage>;

    /// Whether tool descriptors go to the provider beside the prompt.
    fn should_send_tool_specs(&self) -> bool;
}

impl ToolDispatcher for XmlToolDispatcher {
    fn parse_response(&self, response: &ChatResponse) -> (String, Vec<ParsedToolCall>) {
        XmlToolDispatcher::parse_response(self, response)
    }

    fn format_results(&self, results: &[ToolExecutionResult]) -> ConversationMessage {
        XmlToolDispatcher::format_results(self, results)
    }

    fn prompt_instructions(&self, tools: &[Box<dyn Tool>]) -> String {
        XmlToolDispatcher::prompt_instructions(self, tools)
    }

    fn to_provider_messages(&self, history: &[ConversationMessage]) -> Vec<ChatMessage> {
        XmlToolDispatcher::to_provider_messages(self, history)
    }

    fn should_send_tool_specs(&self) -> bool {
        XmlToolDispatcher::should_send_tool_specs(self)
    }
}

impl ToolDispatcher for NativeToolDispatcher {
    fn parse_response(&self, response: &ChatResponse) -> (String, Vec<ParsedToolCall>) {
        NativeToolDispatcher::parse_response(self, response)
    }

    fn format_results(&self, results: &[ToolExecutionResult]) -> ConversationMessage {
        NativeToolDispatcher::format_results(self, results)
    }

    fn prompt_instructions(&self, tools: &[Box<dyn Tool>]) -> String {
        NativeToolDispatcher::prompt_instructions(self, tools)
    }

    fn to_provider_messages(&self, history: &[ConversationMessage]) -> Vec<ChatMessage> {
        NativeToolDispatcher::to_provider_messages(self, history)
    }

    fn should_send_tool_specs(&self) -> bool {
        NativeToolDispatcher::should_send_tool_specs(self)
    }
}

} // verus!

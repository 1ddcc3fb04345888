//! The speech tool: text to spoken audio through a remote task service.
//! Here stand its descriptor and every decision on its arguments and on the
//! service's replies; the requests themselves are sent by the caller.
use crate::json::{
    decode_json, empty_object, encode_json, int_of, json_decode, json_i64, json_member, json_str,
    json_text, member, object_of_strings, pair_views, string_object, text_of,
};
use crate::model::Tool;
use crate::text::{chars_of, find, find_in};
use vstd::prelude::*;
use vstd::string::StringExecFns;

verus! {

/// What `str::to_lowercase` makes of a text.
pub uninterp spec fn lower_of(s: Seq<char>) -> Seq<char>;

/// Relies on `str::to_lowercase`, whose result depends on the characters
/// alone.
#[verifier::external_body]
fn lowercase(s: &str) -> (r: String)
    ensures
        r@ == lower_of(s@),
{
    s.to_lowercase()
}

/// What the speech tool does, in words.
pub const TTS_DESCRIPTION: &'static str = "Text-to-Speech (TTS) - convert text to spoken audio. Input text content and get back a URL to download the generated audio file. Supports male/female voices and adjustable pitch/speed.";

/// The JSON schema of the speech tool's arguments.
pub const TTS_SCHEMA: &'static str = "{\"type\":\"object\",\"properties\":{\"text\":{\"type\":\"string\",\"description\":\"The text to convert to speech\"},\"gender\":{\"type\":\"string\",\"enum\":[\"male\",\"female\"],\"description\":\"Voice gender (default: male)\"},\"pitch\":{\"type\":\"integer\",\"minimum\":1,\"maximum\":5,\"description\":\"Voice pitch level 1-5 (default: 3)\"},\"speed\":{\"type\":\"integer\",\"minimum\":1,\"maximum\":5,\"description\":\"Speech speed level 1-5 (default: 3)\"}},\"required\":[\"text\"]}";

/// The longest text the service takes, in bytes.
pub const MAX_TEXT_BYTES: usize = 5000;

/// How often the task's status is asked for before giving up.
pub const MAX_POLL_ATTEMPTS: u32 = 180;

/// The result of running a tool.
#[derive(Debug, Clone)]
pub struct ToolResult {
    pub success: bool,
    pub output: String,
    pub error: Option<String>,
}

/// The speech tool of the Gitee AI service.
#[derive(Debug, Clone)]
pub struct GiteeTtsTool {
    api_token: String,
    timeout_secs: u64,
}

impl GiteeTtsTool {
    /// The token sent with each request.
    pub closed spec fn token(&self) -> Seq<char> {
        self.api_token@
    }

    /// How long a whole run may take, in seconds.
    pub closed spec fn timeout(&self) -> u64 {
        self.timeout_secs
    }

    /// A tool that authenticates with `api_token`, with a timeout of five
    /// minutes.
    pub fn new(api_token: String) -> (r: Self)
        ensures
            r.token() == api_token@,
            r.timeout() == 300,
    {
        GiteeTtsTool { api_token, timeout_secs: 300 }
    }

    /// The token sent with each request.
    pub fn api_token(&self) -> (r: &str)
        ensures
            r@ == self.token(),
    {
        self.api_token.as_str()
    }

    /// How long a whole run may take, in seconds.
    pub fn timeout_secs(&self) -> (r: u64)
        ensures
            r == self.timeout(),
    {
        self.timeout_secs
    }
}

impl Tool for GiteeTtsTool {
    open spec fn tool_name(&self) -> Seq<char> {
        "tts"@
    }

    open spec fn tool_description(&self) -> Seq<char> {
        TTS_DESCRIPTION@
    }

    open spec fn tool_parameters(&self) -> serde_json::Value {
        match json_decode(TTS_SCHEMA@) {
            Some(v) => v,
            None => empty_object(),
        }
    }

    fn name(&self) -> (r: String) {
        String::from_str("tts")
    }

    fn description(&self) -> (r: String) {
        String::from_str(TTS_DESCRIPTION)
    }

    fn parameters_schema(&self) -> (r: serde_json::Value) {
        match decode_json(TTS_SCHEMA) {
            Some(v) => v,
            None => {
                assert(pair_views(Seq::<(String, String)>::empty()) =~= Seq::empty());
                object_of_strings(Vec::new())
            },
        }
    }
}

/// The voice the service speaks with.
#[derive(Debug, Clone, Copy, PartialEq, Eq, Structural)]
pub enum VoiceGender {
    Male,
    Female,
}

impl VoiceGender {
    /// The name the service knows the voice by.
    pub fn as_str(&self) -> (r: &'static str)
        ensures
            r@ == (match self {
                VoiceGender::Male => "male"@,
                VoiceGender::Female => "female"@,
            }),
    {
        match self {
            VoiceGender::Male => "male",
            VoiceGender::Female => "female",
        }
    }
}

pub open spec fn contains(s: Seq<char>, p: Seq<char>) -> bool {
    find(s, p) is Some
}

/// A lowercased voice name that asks for a female voice.
pub open spec fn asks_female(lower: Seq<char>) -> bool {
    contains(lower, "female"@) || contains(lower, "women"@) || contains(lower, "girl"@)
        || contains(lower, "女"@)
}

/// The voice that `args` ask for: by `gender`, else by `voice`, as text
/// that mentions a woman; male otherwise.
pub open spec fn voice_gender(args: serde_json::Value) -> VoiceGender {
    let chosen = match json_member(args, "gender"@) {
        Some(g) => Some(g),
        None => json_member(args, "voice"@),
    };
    match chosen {
        Some(v) => match json_str(v) {
            Some(s) => if asks_female(lower_of(s)) {
                VoiceGender::Female
            } else {
                VoiceGender::Male
            },
            None => VoiceGender::Male,
        },
        None => VoiceGender::Male,
    }
}

/// The level `key` of `args` (an integer), 3 where it is not given, cut to
/// 32 bits.
pub open spec fn level(args: serde_json::Value, key: Seq<char>) -> i32 {
    (match json_member(args, key) {
        Some(v) => match json_i64(v) {
            Some(n) => n,
            None => 3,
        },
        None => 3,
    }) as i32
}

/// The `text` argument, where it is a string.
pub open spec fn text_arg(args: serde_json::Value) -> Option<Seq<char>> {
    match json_member(args, "text"@) {
        Some(v) => json_str(v),
        None => None,
    }
}

fn contains_text(s: &Vec<char>, p: &str) -> (r: bool)
    ensures
        r == contains(s@, p@),
{
    let pc = chars_of(p);
    assert(s@.subrange(0, s@.len() as int) =~= s@);
    find_in(s, 0, s.len(), &pc).is_some()
}

/// The voice that `args` ask for.
pub fn gender_of(args: &serde_json::Value) -> (r: VoiceGender)
    ensures
        r == voice_gender(*args),
{
    let chosen = match member(args, "gender") {
        Some(g) => Some(g),
        None => member(args, "voice"),
    };
    match chosen {
        Some(v) => match text_of(&v) {
            Some(s) => {
                let lower = lowercase(s.as_str());
                let cs = chars_of(lower.as_str());
                if contains_text(&cs, "female") || contains_text(&cs, "women") || contains_text(
                    &cs,
                    "girl",
                ) || contains_text(&cs, "女") {
                    VoiceGender::Female
                } else {
                    VoiceGender::Male
                }
            },
            None => VoiceGender::Male,
        },
        None => VoiceGender::Male,
    }
}

/// The level `key` of `args`, 3 where it is not given.
pub fn level_of(args: &serde_json::Value, key: &str) -> (r: i32)
    ensures
        r == level(*args, key@),
{
    let n: i64 = match member(args, key) {
        Some(v) => match int_of(&v) {
            Some(n) => n,
            None => 3,
        },
        None => 3,
    };
    n as i32
}

/// How many bytes UTF-8 takes for `c`.
pub open spec fn utf8_width(c: char) -> nat {
    if (c as u32) < 0x80 {
        1
    } else if (c as u32) < 0x800 {
        2
    } else if (c as u32) < 0x10000 {
        3
    } else {
        4
    }
}

/// The length of `s` in UTF-8, in bytes: what `str::len` counts.
pub open spec fn utf8_len(s: Seq<char>) -> nat
    decreases s.len(),
{
    if s.len() == 0 {
        0
    } else {
        utf8_len(s.drop_last()) + utf8_width(s.last())
    }
}

proof fn lemma_utf8_len_prefix(s: Seq<char>, i: int)
    requires
        0 <= i <= s.len(),
    ensures
        utf8_len(s.take(i)) <= utf8_len(s),
    decreases s.len() - i,
{
    if i < s.len() {
        lemma_utf8_len_prefix(s, i + 1);
        assert(s.take(i + 1).drop_last() =~= s.take(i));
    } else {
        assert(s.take(i) =~= s);
    }
}

/// Whether `s` takes more than `limit` bytes in UTF-8.
fn longer_than_bytes(s: &str, limit: usize) -> (r: bool)
    requires
        limit <= 1_000_000,
    ensures
        r == (utf8_len(s@) > limit),
{
    let cs = chars_of(s);
    let mut n: usize = 0;
    let mut i: usize = 0;
    assert(cs@.take(0) =~= Seq::<char>::empty());
    while i < cs.len()
        invariant
            i <= cs@.len(),
            cs@ == s@,
            limit <= 1_000_000,
            n == utf8_len(cs@.take(i as int)),
            n <= limit,
        decreases cs.len() - i,
    {
        let c = cs[i];
        let w: usize = if (c as u32) < 0x80 {
            1
        } else if (c as u32) < 0x800 {
            2
        } else if (c as u32) < 0x10000 {
            3
        } else {
            4
        };
        assert(w == utf8_width(c));
        assert(cs@.take(i + 1).drop_last() =~= cs@.take(i as int));
        assert(cs@.take(i + 1).last() == c);
        assert(utf8_len(cs@.take(i + 1)) == utf8_len(cs@.take(i as int)) + utf8_width(c));
        n = n + w;
        i = i + 1;
        if n > limit {
            proof {
                lemma_utf8_len_prefix(cs@, i as int);
            }
            return true;
        }
    }
    assert(cs@.take(cs@.len() as int) =~= cs@);
    false
}

/// A request for the service.
#[derive(Debug, Clone)]
pub struct TtsRequest {
    pub text: String,
    pub gender: VoiceGender,
    pub pitch: i32,
    pub speed: i32,
}

/// What becomes of a call's arguments: a refusal to report, or a request.
#[derive(Debug, Clone)]
pub enum TtsPlan {
    Reject(ToolResult),
    Submit(TtsRequest),
}

/// A failed run with the message `m`.
pub open spec fn failed_with(r: ToolResult, m: Seq<char>) -> bool {
    !r.success && r.output@.len() == 0 && (r.error matches Some(e) && e@ == m)
}

/// A failed run with the message `message`.
pub fn failure(message: String) -> (r: ToolResult)
    ensures
        failed_with(r, message@),
{
    ToolResult { success: false, output: String::new(), error: Some(message) }
}

/// What becomes of the arguments `args`: an error where `text` is missing;
/// a refusal where it is empty or longer than the service takes; else a
/// request with the voice and levels they ask for.
pub fn plan_request(args: &serde_json::Value) -> (r: Result<TtsPlan, String>)
    ensures
        match text_arg(*args) {
            None => r matches Err(m) && m@ == "Missing required parameter: text"@,
            Some(t) => if t.len() == 0 {
                r matches Ok(TtsPlan::Reject(x)) && failed_with(x, "Text cannot be empty"@)
            } else if utf8_len(t) > MAX_TEXT_BYTES {
                r matches Ok(TtsPlan::Reject(x)) && failed_with(
                    x,
                    "Text too long (max 5000 characters)"@,
                )
            } else {
                r matches Ok(TtsPlan::Submit(q)) && q.text@ == t && q.gender == voice_gender(*args)
                    && q.pitch == level(*args, "pitch"@) && q.speed == level(*args, "speed"@)
            },
        },
{
    let text = match member(args, "text") {
        Some(v) => text_of(&v),
        None => None,
    };
    let text = match text {
        Some(t) => t,
        None => {
            return Err(String::from_str("Missing required parameter: text"));
        },
    };
    let gender = gender_of(args);
    let pitch = level_of(args, "pitch");
    let speed = level_of(args, "speed");
    if text.as_str().is_empty() {
        return Ok(TtsPlan::Reject(failure(String::from_str("Text cannot be empty"))));
    }
    if longer_than_bytes(text.as_str(), MAX_TEXT_BYTES) {
        return Ok(
            TtsPlan::Reject(failure(String::from_str("Text too long (max 5000 characters)"))),
        );
    }
    Ok(TtsPlan::Submit(TtsRequest { text, gender, pitch, speed }))
}

/// The `task_id` that the service's reply to a new task carries, or why
/// there is none: an `error` member, or no `task_id` string.
pub fn task_id_from(reply: &serde_json::Value) -> (r: Result<String, String>)
    ensures
        match json_member(*reply, "error"@) {
            Some(e) => r matches Err(m) && m@ == "API error: "@ + json_text(e),
            None => match json_member(*reply, "task_id"@) {
                Some(v) => match json_str(v) {
                    Some(id) => r matches Ok(x) && x@ == id,
                    None => r matches Err(m) && m@ == "Task ID not found in response"@,
                },
                None => r matches Err(m) && m@ == "Task ID not found in response"@,
            },
        },
{
    match member(reply, "error") {
        Some(e) => {
            let mut m = String::from_str("API error: ");
            m.append(encode_json(&e).as_str());
            Err(m)
        },
        None => match member(reply, "task_id") {
            Some(v) => match text_of(&v) {
                Some(id) => Ok(id),
                None => Err(String::from_str("Task ID not found in response")),
            },
            None => Err(String::from_str("Task ID not found in response")),
        },
    }
}

/// What one status reply says of a task.
#[derive(Debug, Clone)]
pub enum PollStep {
    /// Finished: the address of the audio file.
    Done(String),
    /// Failed, or the reply cannot be used: why.
    Failed(String),
    /// Still running: ask again.
    Pending,
}

/// The `status` of a reply, `unknown` where there is none.
pub open spec fn status_of(reply: serde_json::Value) -> Seq<char> {
    match json_member(reply, "status"@) {
        Some(v) => match json_str(v) {
            Some(s) => s,
            None => "unknown"@,
        },
        None => "unknown"@,
    }
}

pub open spec fn file_url_of(reply: serde_json::Value) -> Option<Seq<char>> {
    match json_member(reply, "output"@) {
        Some(o) => match json_member(o, "file_url"@) {
            Some(u) => json_str(u),
            None => None,
        },
        None => None,
    }
}

pub open spec fn message_of(reply: serde_json::Value) -> Seq<char> {
    match json_member(reply, "message"@) {
        Some(v) => match json_str(v) {
            Some(s) => s,
            None => "Unknown error"@,
        },
        None => "Unknown error"@,
    }
}

/// What the status reply `reply` says: an `error` member fails the task; a
/// `success` status finishes it with the file's address; `failed` and
/// `cancelled` fail it with the reply's message; any other status waits.
pub open spec fn poll_outcome(reply: serde_json::Value) -> (Option<Result<Seq<char>, Seq<char>>>) {
    match json_member(reply, "error"@) {
        Some(e) => Some(Err("Task error: "@ + json_text(e))),
        None => {
            let status = status_of(reply);
            if status == "success"@ {
                match file_url_of(reply) {
                    Some(u) => Some(Ok(u)),
                    None => Some(Err("File URL not found in successful response"@)),
                }
            } else if status == "failed"@ || status == "cancelled"@ {
                Some(Err("Task "@ + status + ": "@ + message_of(reply)))
            } else {
                None
            }
        },
    }
}

pub open spec fn step_view(s: PollStep) -> Option<Result<Seq<char>, Seq<char>>> {
    match s {
        PollStep::Done(u) => Some(Ok(u@)),
        PollStep::Failed(m) => Some(Err(m@)),
        PollStep::Pending => None,
    }
}

fn str_member(v: &serde_json::Value, key: &str) -> (r: Option<String>)
    ensures
        match r {
            Some(s) => json_member(*v, key@) matches Some(m) && json_str(m) == Some(s@),
            None => match json_member(*v, key@) {
                Some(m) => json_str(m) is None,
                None => true,
            },
        },
{
    match member(v, key) {
        Some(m) => text_of(&m),
        None => None,
    }
}

/// What the status reply `reply` says of the task.
pub fn poll_step(reply: &serde_json::Value) -> (r: PollStep)
    ensures
        step_view(r) == poll_outcome(*reply),
{
    if let Some(e) = member(reply, "error") {
        let mut m = String::from_str("Task error: ");
        m.append(encode_json(&e).as_str());
        return PollStep::Failed(m);
    }
    let status = match str_member(reply, "status") {
        Some(s) => s,
        None => String::from_str("unknown"),
    };
    if status == String::from_str("success") {
        let url = match member(reply, "output") {
            Some(o) => str_member(&o, "file_url"),
            None => None,
        };
        match url {
            Some(u) => PollStep::Done(u),
            None => PollStep::Failed(String::from_str("File URL not found in successful response")),
        }
    } else if status == String::from_str("failed") || status == String::from_str("cancelled") {
        let message = match str_member(reply, "message") {
            Some(s) => s,
            None => String::from_str("Unknown error"),
        };
        let mut m = String::from_str("Task ");
        m.append(status.as_str());
        m.append(": ");
        m.append(message.as_str());
        PollStep::Failed(m)
    } else {
        PollStep::Pending
    }
}

/// Why polling stopped without an answer.
pub fn polling_timeout() -> (r: String)
    ensures
        r@ == "Task polling timeout after 180 attempts"@,
{
    String::from_str("Task polling timeout after 180 attempts")
}

/// The members of the output of a successful run.
pub open spec fn audio_members(url: Seq<char>, text: Seq<char>) -> Seq<(Seq<char>, Seq<char>)> {
    seq![("type"@, "audio"@), ("url"@, url), ("text"@, text), ("message"@, "语音生成成功"@)]
}

/// A successful run: the audio's address and the text spoken, as JSON for
/// the player.
pub fn audio_result(url: &str, text: &str) -> (r: ToolResult)
    ensures
        r.success,
        r.error is None,
        r.output@ == json_text(string_object(audio_members(url@, text@))),
{
    let pairs = vec![
        (String::from_str("type"), String::from_str("audio")),
        (String::from_str("url"), String::from_str(url)),
        (String::from_str("text"), String::from_str(text)),
        (String::from_str("message"), String::from_str("语音生成成功")),
    ];
    assert(pair_views(pairs@) =~= audio_members(url@, text@));
    let doc = object_of_strings(pairs);
    ToolResult { success: true, output: encode_json(&doc), error: None }
}

/// A run whose task could not be created, for the reason `e`.
pub fn create_failed(e: &str) -> (r: ToolResult)
    ensures
        failed_with(r, "Failed to create TTS task: "@ + e@),
{
    let mut m = String::from_str("Failed to create TTS task: ");
    m.append(e);
    failure(m)
}

/// A run whose task failed, for the reason `e`.
pub fn task_failed(e: &str) -> (r: ToolResult)
    ensures
        failed_with(r, "TTS task failed: "@ + e@),
{
    let mut m = String::from_str("TTS task failed: ");
    m.append(e);
    failure(m)
}

} // verus!

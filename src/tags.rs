//! The tag scanner: recovers narrative text and tool calls from a reply in
//! which calls are written as pseudo-tags of several dialects.
use crate::json::{
    decode_json, is_object, json_is_object, empty_object, json_decode, json_member, member, member_text, member_text_of,
    object_of_strings, pair_views, string_object,
};
use crate::model::{call_views, CallView, ParsedToolCall};
use crate::text::{
    chars_of, find, find_from, find_in, matches_at, occurs_at, pieces, ranges_within, split_on,
    split_ranges, strip, strip_end, strip_end_at, strip_range, text_between, trim, trim_range,
    word_ranges, words,
};
use vstd::prelude::*;
use vstd::string::StrSliceExecFns;
use vstd::string::StringExecFns;

verus! {

/// How the content of a tag is read.
#[derive(Debug, Clone, Copy, PartialEq, Eq, Structural)]
pub enum TagFamily {
    /// A tool call, as JSON, as a name line with arguments, or as the tag's
    /// own name.
    Tool,
    /// Commentary, kept verbatim as narrative text.
    Narrative,
    /// Text to speak aloud: a call of the speech tool.
    Speech,
}

/// One dialect: an opening marker, the marker that closes it, and its
/// family. A marker closed by the next `>` leaves the opening tag's own text
/// (its attributes) to the reply; where `body_close` is not empty, the tag
/// then holds content up to that literal, unless it closes itself with `/`.
#[derive(Debug, Clone, Copy)]
pub struct TagDialect {
    pub open: &'static str,
    pub close: &'static str,
    pub family: TagFamily,
    pub body_close: &'static str,
}

pub struct DialectView {
    pub open: Seq<char>,
    pub close: Seq<char>,
    pub family: TagFamily,
    pub body_close: Seq<char>,
}

impl View for TagDialect {
    type V = DialectView;

    open spec fn view(&self) -> DialectView {
        DialectView {
            open: self.open@,
            close: self.close@,
            family: self.family,
            body_close: self.body_close@,
        }
    }
}

pub open spec fn dialect(open: &str, close: &str, family: TagFamily, body_close: &str) -> DialectView {
    DialectView { open: open@, close: close@, family, body_close: body_close@ }
}

/// The dialects in the order in which they are tried: a marker closed by its
/// own literal comes before a marker of the same prefix closed by the next
/// `>`, so that the looser one never takes a tag meant for the other.
pub open spec fn dialect_table() -> Seq<DialectView> {
    seq![
        dialect("<tool_call>", "</tool_call>", TagFamily::Tool, ""),
        dialect("<toolcall>", "</toolcall>", TagFamily::Tool, ""),
        dialect("<tool-call>", "</tool-call>", TagFamily::Tool, ""),
        dialect("<invoke>", "</invoke>", TagFamily::Tool, ""),
        dialect("<poetry>", "</poetry>", TagFamily::Narrative, ""),
        dialect("<poetry_call>", "</poetry_call>", TagFamily::Narrative, ""),
        dialect("<poetry_tool_call>", "</poetry_tool_call>", TagFamily::Narrative, ""),
        dialect("<poem_write>", "</poem_write>", TagFamily::Narrative, ""),
        dialect("<output>", "</output>", TagFamily::Narrative, ""),
        dialect("<trash>", "</trash>", TagFamily::Narrative, ""),
        dialect("<poem>", "</poem>", TagFamily::Narrative, ""),
        dialect("<poem_call>", "</poem_call>", TagFamily::Narrative, ""),
        dialect("<poem_tool_call>", "</poem_tool_call>", TagFamily::Narrative, ""),
        dialect("<poem_generator>", "</poem_generator>", TagFamily::Narrative, ""),
        dialect("<poem_writer>", "</poem_writer>", TagFamily::Narrative, ""),
        dialect("<poetry_writer>", "</poetry_writer>", TagFamily::Narrative, ""),
        dialect("<poem_create>", "</poem_create>", TagFamily::Narrative, ""),
        dialect("<poetry_create>", "</poetry_create>", TagFamily::Narrative, ""),
        dialect("<poem_generate>", "</poem_generate>", TagFamily::Narrative, ""),
        dialect("<poetry_generate>", "</poetry_generate>", TagFamily::Narrative, ""),
        dialect("<poem_output>", "</poem_output>", TagFamily::Narrative, ""),
        dialect("<poetry_output>", "</poetry_output>", TagFamily::Narrative, ""),
        dialect("<poem_result>", "</poem_result>", TagFamily::Narrative, ""),
        dialect("<poetry_result>", "</poetry_result>", TagFamily::Narrative, ""),
        dialect("<poem_response>", "</poem_response>", TagFamily::Narrative, ""),
        dialect("<poetry_response>", "</poetry_response>", TagFamily::Narrative, ""),
        dialect("<poem_text>", "</poem_text>", TagFamily::Narrative, ""),
        dialect("<poetry_text>", "</poetry_text>", TagFamily::Narrative, ""),
        dialect("<poem_content>", "</poem_content>", TagFamily::Narrative, ""),
        dialect("<poetry_content>", "</poetry_content>", TagFamily::Narrative, ""),
        dialect("<poetry_write", ">", TagFamily::Narrative, ""),
        dialect("<poem_write", ">", TagFamily::Narrative, ""),
        dialect("<poetry_call", ">", TagFamily::Narrative, ""),
        dialect("<poetry_tool_call", ">", TagFamily::Narrative, ""),
        dialect("<tool_call", ">", TagFamily::Tool, ""),
        dialect("<text_to_speech>", "</text_to_speech>", TagFamily::Speech, ""),
        dialect("<text_to_speech", ">", TagFamily::Speech, "</text_to_speech>"),
        dialect("<voice_say>", "</voice_say>", TagFamily::Speech, ""),
        dialect("<voice_say", ">", TagFamily::Speech, "</voice_say>"),
        dialect("<speak>", "</speak>", TagFamily::Speech, ""),
        dialect("<speak", ">", TagFamily::Speech, "</speak>"),
        dialect("<say>", "</say>", TagFamily::Speech, ""),
        dialect("<say", ">", TagFamily::Speech, "</say>"),
        dialect("<tts>", "</tts>", TagFamily::Speech, ""),
        dialect("<tts", ">", TagFamily::Speech, "</tts>"),
    ]
}

/// The canonical name of the speech tool, for every alias.
pub open spec fn speech_tool() -> Seq<char> {
    "tts"@
}

/// What one tag yields.
pub enum Piece {
    Text(Seq<char>),
    Call(CallView),
}

pub open spec fn starts_with(s: Seq<char>, p: Seq<char>) -> bool {
    p.len() <= s.len() && s.take(p.len() as int) == p
}

/// A word that names a tool call: it begins with `tool` or is `invoke`.
pub open spec fn names_tool(w: Seq<char>) -> bool {
    starts_with(w, "tool"@) || w == "invoke"@
}

/// A `key=value` word as a pair, the value without surrounding `"`.
pub open spec fn attribute(w: Seq<char>) -> Seq<(Seq<char>, Seq<char>)> {
    match find(w, seq!['=']) {
        Some(k) => seq![(w.take(k), strip(w.skip(k + 1), Some('"')))],
        None => Seq::empty(),
    }
}

pub open spec fn attributes(ws: Seq<Seq<char>>) -> Seq<(Seq<char>, Seq<char>)>
    decreases ws.len(),
{
    if ws.len() == 0 {
        Seq::empty()
    } else {
        attributes(ws.drop_last()) + attribute(ws.last())
    }
}

/// A value without surrounding blanks, then `"`, then `'`.
pub open spec fn unquote(v: Seq<char>) -> Seq<char> {
    strip(strip(trim(v), Some('"')), Some('\''))
}

/// A `key=value` line as a pair.
pub open spec fn kv_line(l: Seq<char>) -> Seq<(Seq<char>, Seq<char>)> {
    let u = trim(l);
    match find(u, seq!['=']) {
        Some(k) => seq![(trim(u.take(k)), unquote(u.skip(k + 1)))],
        None => Seq::empty(),
    }
}

pub open spec fn kv_lines(ls: Seq<Seq<char>>) -> Seq<(Seq<char>, Seq<char>)>
    decreases ls.len(),
{
    if ls.len() == 0 {
        Seq::empty()
    } else {
        kv_lines(ls.drop_last()) + kv_line(ls.last())
    }
}

/// The pairs of the `key=value` lines of `s`; other lines are skipped.
pub open spec fn kv_pairs(s: Seq<char>) -> Seq<(Seq<char>, Seq<char>)> {
    kv_lines(split_on(s, '\n'))
}

pub open spec fn call_of(name: Seq<char>, arguments: serde_json::Value) -> CallView {
    CallView { name, arguments, tool_call_id: None }
}

/// The document `a` where it is an object, else `other`.
pub open spec fn object_or(a: Option<serde_json::Value>, other: serde_json::Value) -> serde_json::Value {
    match a {
        Some(v) => if json_is_object(v) {
            v
        } else {
            other
        },
        None => other,
    }
}

/// What a tag of the tool family yields. In turn: a JSON document with a
/// non-empty `name` (and its `arguments` where they are an object, else the
/// empty object); a first line that names the tool, followed by a JSON
/// object or by `key=value` lines; for one line of content, the opening
/// tag's own text `own` where its first word names a tool, with its
/// `key=value` words as arguments. Else the content stays as text.
pub open spec fn tool_piece(own: Seq<char>, inner: Seq<char>) -> Piece {
    let t = trim(inner);
    match json_decode(t) {
        Some(doc) => {
            let name = member_text(doc, "name"@);
            if name.len() > 0 {
                Piece::Call(
                    call_of(
                        name,
                        object_or(json_member(doc, "arguments"@), empty_object()),
                    ),
                )
            } else {
                Piece::Text(t)
            }
        },
        None => match find(t, seq!['\n']) {
            Some(k) => {
                let first = trim(t.take(k));
                let rest = trim(t.skip(k));
                if first.len() > 0 && first[0] != '{' {
                    Piece::Call(
                        call_of(
                            first,
                            object_or(json_decode(rest), string_object(kv_pairs(rest))),
                        ),
                    )
                } else {
                    Piece::Text(t)
                }
            },
            None => {
                let ws = words(own);
                if ws.len() > 0 && names_tool(ws[0]) {
                    Piece::Call(call_of(ws[0], string_object(attributes(ws.drop_first()))))
                } else {
                    Piece::Text(t)
                }
            },
        },
    }
}

pub open spec fn has_key(ps: Seq<(Seq<char>, Seq<char>)>, k: Seq<char>) -> bool {
    exists|i: int| 0 <= i < ps.len() && #[trigger] ps[i].0 == k
}

/// The `key=value` attributes of an opening tag's own text, without the
/// `/` of a tag that closes itself.
pub open spec fn own_attributes(own: Seq<char>) -> Seq<(Seq<char>, Seq<char>)> {
    attributes(words(strip_end(own, Some('/'))))
}

/// The arguments of a speech tag: the opening tag's attributes, and the
/// content as `text` where it is not blank and no attribute set `text`.
pub open spec fn speech_arguments(own: Seq<char>, inner: Seq<char>) -> Seq<(Seq<char>, Seq<char>)> {
    let attrs = own_attributes(own);
    let t = trim(inner);
    if t.len() > 0 && !has_key(attrs, "text"@) {
        attrs.push(("text"@, t))
    } else {
        attrs
    }
}

/// A tag of the speech family is always one call of the speech tool.
pub open spec fn speech_piece(own: Seq<char>, inner: Seq<char>) -> Piece {
    Piece::Call(call_of(speech_tool(), string_object(speech_arguments(own, inner))))
}

/// What the tag `d` with own text `own` and content `inner` yields.
pub open spec fn piece(d: DialectView, own: Seq<char>, inner: Seq<char>) -> Piece {
    match d.family {
        TagFamily::Tool => tool_piece(own, inner),
        TagFamily::Narrative => Piece::Text(trim(inner)),
        TagFamily::Speech => speech_piece(own, inner),
    }
}

/// The first dialect from index `i` on whose opening marker stands in `s`,
/// with the marker's first position.
pub open spec fn first_dialect(s: Seq<char>, t: Seq<DialectView>, i: int) -> Option<(int, int)>
    decreases t.len() - i,
{
    if i < 0 || i >= t.len() {
        None
    } else {
        match find(s, t[i].open) {
            Some(p) => Some((i, p)),
            None => first_dialect(s, t, i + 1),
        }
    }
}

/// A tag as found: the text of its opening tag after the marker (empty where
/// the marker ends the opening tag), its content, and where it ends.
pub struct Extent {
    pub own: Seq<char>,
    pub inner: Seq<char>,
    pub end: int,
}

/// An opening tag's own text that ends with `/`: the tag closes itself.
pub open spec fn self_closing(own: Seq<char>) -> bool {
    own.len() > 0 && own.last() == '/'
}

/// The tag `d` whose marker stands at `p`. With a literal closing marker,
/// the content runs to it (or to the end of `s`). With a marker closed by
/// the next `>`, the text up to that `>` is the opening tag's own text; it
/// is the content too, unless the dialect has a body: then the content runs
/// from the `>` to the body's closing literal, and is empty where the tag
/// closes itself or that literal never comes.
pub open spec fn tag_extent(s: Seq<char>, d: DialectView, p: int) -> Extent {
    let body = p + d.open.len();
    let at_gt = d.close == seq!['>'];
    let has_body = d.body_close.len() > 0;
    match find(s.skip(body), d.close) {
        None => if has_body {
            Extent { own: s.skip(body), inner: Seq::empty(), end: s.len() as int }
        } else if at_gt {
            Extent { own: s.skip(body), inner: s.skip(body), end: s.len() as int }
        } else {
            Extent { own: Seq::empty(), inner: s.skip(body), end: s.len() as int }
        },
        Some(e) => {
            let head = s.subrange(body, body + e);
            let after = body + e + d.close.len();
            if has_body {
                if self_closing(head) {
                    Extent { own: head, inner: Seq::empty(), end: after }
                } else {
                    match find(s.skip(after), d.body_close) {
                        Some(f) => Extent {
                            own: head,
                            inner: s.subrange(after, after + f),
                            end: after + f + d.body_close.len(),
                        },
                        None => Extent { own: head, inner: Seq::empty(), end: after },
                    }
                }
            } else if at_gt {
                Extent { own: head, inner: head, end: after }
            } else {
                Extent { own: Seq::empty(), inner: head, end: after }
            }
        },
    }
}

/// Narrative fragments and calls, in the order met.
pub struct Scan {
    pub texts: Seq<Seq<char>>,
    pub calls: Seq<CallView>,
}

pub open spec fn nonblank(t: Seq<char>) -> Seq<Seq<char>> {
    if t.len() > 0 {
        seq![t]
    } else {
        Seq::empty()
    }
}

/// The scan of `s` against the dialects `t`: the text before the first tag
/// found, what the tag yields, then the scan of what follows the tag; with
/// no tag, the trimmed text.
pub open spec fn scan_with(s: Seq<char>, t: Seq<DialectView>) -> Scan
    decreases s.len(),
{
    match first_dialect(s, t, 0) {
        None => Scan { texts: nonblank(trim(s)), calls: Seq::empty() },
        Some((i, p)) => {
            let x = tag_extent(s, t[i], p);
            if 0 < x.end <= s.len() {
                let rest = scan_with(s.skip(x.end), t);
                let pre = nonblank(trim(s.take(p)));
                match piece(t[i], x.own, x.inner) {
                    Piece::Text(x) => Scan { texts: pre + seq![x] + rest.texts, calls: rest.calls },
                    Piece::Call(c) => Scan { texts: pre + rest.texts, calls: seq![c] + rest.calls },
                }
            } else {
                Scan { texts: Seq::empty(), calls: Seq::empty() }
            }
        },
    }
}

pub open spec fn scan(s: Seq<char>) -> Scan {
    scan_with(s, dialect_table())
}

/// Fragments joined by newlines.
pub open spec fn join_lines(ts: Seq<Seq<char>>) -> Seq<char>
    decreases ts.len(),
{
    if ts.len() == 0 {
        Seq::empty()
    } else if ts.len() == 1 {
        ts[0]
    } else {
        join_lines(ts.drop_last()) + seq!['\n'] + ts.last()
    }
}

/// No opening marker of `t` stands in `s`.
pub open spec fn no_marker(s: Seq<char>, t: Seq<DialectView>) -> bool {
    forall|i: int| 0 <= i < t.len() ==> find(s, #[trigger] t[i].open) is None
}

/// Every opening marker holds at least four characters (`<say`).
pub open spec fn table_wf(t: Seq<DialectView>) -> bool {
    forall|i: int| 0 <= i < t.len() ==> #[trigger] t[i].open.len() >= 4
}

/// The dialects, in the order in which they are tried.
pub fn dialects() -> (r: Vec<TagDialect>)
    ensures
        r@.map_values(|d: TagDialect| d@) == dialect_table(),
        table_wf(dialect_table()),
{
    let r = vec![
        TagDialect { open: "<tool_call>", close: "</tool_call>", family: TagFamily::Tool, body_close: "" },
        TagDialect { open: "<toolcall>", close: "</toolcall>", family: TagFamily::Tool, body_close: "" },
        TagDialect { open: "<tool-call>", close: "</tool-call>", family: TagFamily::Tool, body_close: "" },
        TagDialect { open: "<invoke>", close: "</invoke>", family: TagFamily::Tool, body_close: "" },
        TagDialect { open: "<poetry>", close: "</poetry>", family: TagFamily::Narrative, body_close: "" },
        TagDialect { open: "<poetry_call>", close: "</poetry_call>", family: TagFamily::Narrative, body_close: "" },
        TagDialect { open: "<poetry_tool_call>", close: "</poetry_tool_call>", family: TagFamily::Narrative, body_close: "" },
        TagDialect { open: "<poem_write>", close: "</poem_write>", family: TagFamily::Narrative, body_close: "" },
        TagDialect { open: "<output>", close: "</output>", family: TagFamily::Narrative, body_close: "" },
        TagDialect { open: "<trash>", close: "</trash>", family: TagFamily::Narrative, body_close: "" },
        TagDialect { open: "<poem>", close: "</poem>", family: TagFamily::Narrative, body_close: "" },
        TagDialect { open: "<poem_call>", close: "</poem_call>", family: TagFamily::Narrative, body_close: "" },
        TagDialect { open: "<poem_tool_call>", close: "</poem_tool_call>", family: TagFamily::Narrative, body_close: "" },
        TagDialect { open: "<poem_generator>", close: "</poem_generator>", family: TagFamily::Narrative, body_close: "" },
        TagDialect { open: "<poem_writer>", close: "</poem_writer>", family: TagFamily::Narrative, body_close: "" },
        TagDialect { open: "<poetry_writer>", close: "</poetry_writer>", family: TagFamily::Narrative, body_close: "" },
        TagDialect { open: "<poem_create>", close: "</poem_create>", family: TagFamily::Narrative, body_close: "" },
        TagDialect { open: "<poetry_create>", close: "</poetry_create>", family: TagFamily::Narrative, body_close: "" },
        TagDialect { open: "<poem_generate>", close: "</poem_generate>", family: TagFamily::Narrative, body_close: "" },
        TagDialect { open: "<poetry_generate>", close: "</poetry_generate>", family: TagFamily::Narrative, body_close: "" },
        TagDialect { open: "<poem_output>", close: "</poem_output>", family: TagFamily::Narrative, body_close: "" },
        TagDialect { open: "<poetry_output>", close: "</poetry_output>", family: TagFamily::Narrative, body_close: "" },
        TagDialect { open: "<poem_result>", close: "</poem_result>", family: TagFamily::Narrative, body_close: "" },
        TagDialect { open: "<poetry_result>", close: "</poetry_result>", family: TagFamily::Narrative, body_close: "" },
        TagDialect { open: "<poem_response>", close: "</poem_response>", family: TagFamily::Narrative, body_close: "" },
        TagDialect { open: "<poetry_response>", close: "</poetry_response>", family: TagFamily::Narrative, body_close: "" },
        TagDialect { open: "<poem_text>", close: "</poem_text>", family: TagFamily::Narrative, body_close: "" },
        TagDialect { open: "<poetry_text>", close: "</poetry_text>", family: TagFamily::Narrative, body_close: "" },
        TagDialect { open: "<poem_content>", close: "</poem_content>", family: TagFamily::Narrative, body_close: "" },
        TagDialect { open: "<poetry_content>", close: "</poetry_content>", family: TagFamily::Narrative, body_close: "" },
        TagDialect { open: "<poetry_write", close: ">", family: TagFamily::Narrative, body_close: "" },
        TagDialect { open: "<poem_write", close: ">", family: TagFamily::Narrative, body_close: "" },
        TagDialect { open: "<poetry_call", close: ">", family: TagFamily::Narrative, body_close: "" },
        TagDialect { open: "<poetry_tool_call", close: ">", family: TagFamily::Narrative, body_close: "" },
        TagDialect { open: "<tool_call", close: ">", family: TagFamily::Tool, body_close: "" },
        TagDialect { open: "<text_to_speech>", close: "</text_to_speech>", family: TagFamily::Speech, body_close: "" },
        TagDialect { open: "<text_to_speech", close: ">", family: TagFamily::Speech, body_close: "</text_to_speech>" },
        TagDialect { open: "<voice_say>", close: "</voice_say>", family: TagFamily::Speech, body_close: "" },
        TagDialect { open: "<voice_say", close: ">", family: TagFamily::Speech, body_close: "</voice_say>" },
        TagDialect { open: "<speak>", close: "</speak>", family: TagFamily::Speech, body_close: "" },
        TagDialect { open: "<speak", close: ">", family: TagFamily::Speech, body_close: "</speak>" },
        TagDialect { open: "<say>", close: "</say>", family: TagFamily::Speech, body_close: "" },
        TagDialect { open: "<say", close: ">", family: TagFamily::Speech, body_close: "</say>" },
        TagDialect { open: "<tts>", close: "</tts>", family: TagFamily::Speech, body_close: "" },
        TagDialect { open: "<tts", close: ">", family: TagFamily::Speech, body_close: "</tts>" },
    ];
    assert(r@.map_values(|d: TagDialect| d@) =~= dialect_table());
    proof {
        reveal_strlit("<invoke>");
        reveal_strlit("<output>");
        reveal_strlit("<poem>");
        reveal_strlit("<poem_call>");
        reveal_strlit("<poem_content>");
        reveal_strlit("<poem_create>");
        reveal_strlit("<poem_generate>");
        reveal_strlit("<poem_generator>");
        reveal_strlit("<poem_output>");
        reveal_strlit("<poem_response>");
        reveal_strlit("<poem_result>");
        reveal_strlit("<poem_text>");
        reveal_strlit("<poem_tool_call>");
        reveal_strlit("<poem_write");
        reveal_strlit("<poem_write>");
        reveal_strlit("<poem_writer>");
        reveal_strlit("<poetry>");
        reveal_strlit("<poetry_call");
        reveal_strlit("<poetry_call>");
        reveal_strlit("<poetry_content>");
        reveal_strlit("<poetry_create>");
        reveal_strlit("<poetry_generate>");
        reveal_strlit("<poetry_output>");
        reveal_strlit("<poetry_response>");
        reveal_strlit("<poetry_result>");
        reveal_strlit("<poetry_text>");
        reveal_strlit("<poetry_tool_call");
        reveal_strlit("<poetry_tool_call>");
        reveal_strlit("<poetry_write");
        reveal_strlit("<poetry_writer>");
        reveal_strlit("<say");
        reveal_strlit("<say>");
        reveal_strlit("<speak");
        reveal_strlit("<speak>");
        reveal_strlit("<text_to_speech");
        reveal_strlit("<text_to_speech>");
        reveal_strlit("<tool-call>");
        reveal_strlit("<tool_call");
        reveal_strlit("<tool_call>");
        reveal_strlit("<toolcall>");
        reveal_strlit("<trash>");
        reveal_strlit("<tts");
        reveal_strlit("<tts>");
        reveal_strlit("<voice_say");
        reveal_strlit("<voice_say>");
    }
    r
}


/// What one tag yields, as values.
pub enum TagPiece {
    Text(String),
    Call(ParsedToolCall),
}

pub open spec fn piece_view(p: TagPiece) -> Piece {
    match p {
        TagPiece::Text(t) => Piece::Text(t@),
        TagPiece::Call(c) => Piece::Call(c@),
    }
}

/// Whether the word `ocs[x..y]` names a tool call.
fn word_names_tool(ocs: &Vec<char>, x: usize, y: usize) -> (r: bool)
    requires
        x <= y <= ocs@.len(),
    ensures
        r == names_tool(ocs@.subrange(x as int, y as int)),
{
    let ghost w = ocs@.subrange(x as int, y as int);
    let tool = chars_of("tool");
    let invoke = chars_of("invoke");
    let starts = tool.len() <= y - x && matches_at(ocs, x, &tool);
    if tool.len() <= y - x {
        assert(w.take(tool@.len() as int) =~= ocs@.subrange(x as int, x + tool@.len()));
    }
    let equal = invoke.len() == y - x && matches_at(ocs, x, &invoke);
    if invoke.len() == y - x {
        assert(w =~= ocs@.subrange(x as int, x + invoke@.len()));
    } else {
        assert(w.len() != invoke@.len());
    }
    starts || equal
}

/// The pairs of the `key=value` words `ws[from..]` of `s`.
fn attributes_of(s: &str, cs: &Vec<char>, ws: &Vec<(usize, usize)>, from: usize) -> (r: Vec<
    (String, String),
>)
    requires
        cs@ == s@,
        from <= ws@.len(),
        ranges_within(ws@, 0, cs@.len() as int),
    ensures
        pair_views(r@) == attributes(pieces(cs@, ws@).skip(from as int)),
{
    let ghost ps = pieces(cs@, ws@);
    let eq = vec!['='];
    let mut out: Vec<(String, String)> = Vec::new();
    let mut j: usize = from;
    assert(ps.subrange(from as int, from as int) =~= Seq::<Seq<char>>::empty());
    assert(pair_views(out@) =~= Seq::empty());
    while j < ws.len()
        invariant
            from <= j <= ws@.len(),
            cs@ == s@,
            ps == pieces(cs@, ws@),
            ranges_within(ws@, 0, cs@.len() as int),
            eq@ == seq!['='],
            pair_views(out@) == attributes(ps.subrange(from as int, j as int)),
        decreases ws.len() - j,
    {
        let (x, y) = ws[j];
        assert(ws@[j as int].0 <= ws@[j as int].1);
        let ghost w = cs@.subrange(x as int, y as int);
        assert(ps[j as int] == w);
        assert(ps.subrange(from as int, j + 1).drop_last() =~= ps.subrange(from as int, j as int));
        let ghost before = pair_views(out@);
        match find_in(cs, x, y, &eq) {
            Some(k) => {
                assert(w.take(k - x) =~= cs@.subrange(x as int, k as int));
                assert(w.skip(k - x + 1) =~= cs@.subrange(k + 1, y as int));
                let (va, vb) = strip_range(cs, k + 1, y, Some('"'));
                let key = text_between(s, x, k);
                let value = text_between(s, va, vb);
                out.push((key, value));
                assert(pair_views(out@) =~= before + attribute(w));
            },
            None => {
                assert(attribute(w) =~= Seq::empty());
                assert(before + attribute(w) =~= before);
            },
        }
        j = j + 1;
    }
    assert(ps.subrange(from as int, ws@.len() as int) =~= ps.skip(from as int));
    out
}

/// The pairs of the `key=value` lines of `cs[lo..hi]`.
fn kv_pairs_of(input: &str, cs: &Vec<char>, lo: usize, hi: usize) -> (r: Vec<(String, String)>)
    requires
        cs@ == input@,
        lo <= hi <= cs@.len(),
    ensures
        pair_views(r@) == kv_pairs(cs@.subrange(lo as int, hi as int)),
{
    let lines = split_ranges(cs, lo, hi, '\n');
    let ghost ls = pieces(cs@, lines@);
    let eq = vec!['='];
    let mut out: Vec<(String, String)> = Vec::new();
    let mut j: usize = 0;
    assert(ls.take(0) =~= Seq::<Seq<char>>::empty());
    assert(pair_views(out@) =~= Seq::empty());
    while j < lines.len()
        invariant
            j <= lines@.len(),
            cs@ == input@,
            ls == pieces(cs@, lines@),
            ranges_within(lines@, lo as int, hi as int),
            hi <= cs@.len(),
            eq@ == seq!['='],
            pair_views(out@) == kv_lines(ls.take(j as int)),
        decreases lines.len() - j,
    {
        let (x, y) = lines[j];
        assert(lines@[j as int].0 <= lines@[j as int].1);
        let ghost l = cs@.subrange(x as int, y as int);
        assert(ls[j as int] == l);
        assert(ls.take(j + 1).drop_last() =~= ls.take(j as int));
        let ghost before = pair_views(out@);
        let (ua, ub) = trim_range(cs, x, y);
        let ghost u = cs@.subrange(ua as int, ub as int);
        match find_in(cs, ua, ub, &eq) {
            Some(k) => {
                assert(u.take(k - ua) =~= cs@.subrange(ua as int, k as int));
                assert(u.skip(k - ua + 1) =~= cs@.subrange(k + 1, ub as int));
                let (ka, kb) = trim_range(cs, ua, k);
                let (v1a, v1b) = trim_range(cs, k + 1, ub);
                let (v2a, v2b) = strip_range(cs, v1a, v1b, Some('"'));
                let (v3a, v3b) = strip_range(cs, v2a, v2b, Some('\''));
                let key = text_between(input, ka, kb);
                let value = text_between(input, v3a, v3b);
                out.push((key, value));
                assert(pair_views(out@) =~= before + kv_line(l));
            },
            None => {
                assert(kv_line(l) =~= Seq::empty());
                assert(before + kv_line(l) =~= before);
            },
        }
        j = j + 1;
    }
    assert(ls.take(lines@.len() as int) =~= ls);
    out
}

fn call_of_exec(name: String, arguments: serde_json::Value) -> (r: ParsedToolCall)
    ensures
        r@ == call_of(name@, arguments),
{
    ParsedToolCall { name, arguments, tool_call_id: None }
}


/// The document `v` where it is an object, else the object of `pairs`.
fn object_or_pairs(v: Option<serde_json::Value>, pairs: Vec<(String, String)>) -> (r: serde_json::Value)
    ensures
        r == object_or(v, string_object(pair_views(pairs@))),
        json_is_object(r),
{
    match v {
        Some(d) => if is_object(&d) {
            d
        } else {
            object_of_strings(pairs)
        },
        None => object_of_strings(pairs),
    }
}

pub open spec fn call_is_object(p: TagPiece) -> bool {
    p matches TagPiece::Call(c) ==> json_is_object(c.arguments)
}

/// What a tag of the tool family with own text `cs[oa..ob]` and content
/// `cs[lo..hi]` yields.
fn tool_piece_of(input: &str, cs: &Vec<char>, oa: usize, ob: usize, lo: usize, hi: usize) -> (r:
    TagPiece)
    requires
        cs@ == input@,
        oa <= ob <= cs@.len(),
        lo <= hi <= cs@.len(),
    ensures
        piece_view(r) == tool_piece(
            cs@.subrange(oa as int, ob as int),
            cs@.subrange(lo as int, hi as int),
        ),
        call_is_object(r),
{
    let (a, b) = trim_range(cs, lo, hi);
    let ghost t = cs@.subrange(a as int, b as int);
    let content = input.substring_char(a, b);
    assert(pair_views(Seq::<(String, String)>::empty()) =~= Seq::empty());
    match decode_json(content) {
        Some(doc) => {
            let name = member_text_of(&doc, "name");
            if !name.as_str().is_empty() {
                let arguments = object_or_pairs(member(&doc, "arguments"), Vec::new());
                TagPiece::Call(call_of_exec(name, arguments))
            } else {
                TagPiece::Text(String::from_str(content))
            }
        },
        None => {
            let nl = vec!['\n'];
            assert(nl@ =~= seq!['\n']);
            match find_in(cs, a, b, &nl) {
                Some(k) => {
                    assert(t.take(k - a) =~= cs@.subrange(a as int, k as int));
                    assert(t.skip(k - a) =~= cs@.subrange(k as int, b as int));
                    let (fa, fb) = trim_range(cs, a, k);
                    let (ra, rb) = trim_range(cs, k, b);
                    if fa < fb && cs[fa] != '{' {
                        assert(cs@.subrange(fa as int, fb as int)[0] == cs@[fa as int]);
                        let name = text_between(input, fa, fb);
                        let arguments = object_or_pairs(
                            decode_json(input.substring_char(ra, rb)),
                            kv_pairs_of(input, cs, ra, rb),
                        );
                        TagPiece::Call(call_of_exec(name, arguments))
                    } else {
                        if fa < fb {
                            assert(cs@.subrange(fa as int, fb as int)[0] == cs@[fa as int]);
                        }
                        TagPiece::Text(String::from_str(content))
                    }
                },
                None => {
                    let ws = word_ranges(cs, oa, ob);
                    if ws.len() > 0 {
                        let (x, y) = ws[0];
                        assert(ws@[0].0 <= ws@[0].1);
                        assert(pieces(cs@, ws@)[0] == cs@.subrange(x as int, y as int));
                        if word_names_tool(cs, x, y) {
                            let name = text_between(input, x, y);
                            let pairs = attributes_of(input, cs, &ws, 1);
                            assert(pieces(cs@, ws@).skip(1) =~= pieces(cs@, ws@).drop_first());
                            return TagPiece::Call(call_of_exec(name, object_of_strings(pairs)));
                        }
                    }
                    TagPiece::Text(String::from_str(content))
                },
            }
        },
    }
}

/// Whether one of `pairs` has the key `text`.
fn has_text_key(pairs: &Vec<(String, String)>) -> (r: bool)
    ensures
        r == has_key(pair_views(pairs@), "text"@),
{
    let key = String::from_str("text");
    let mut i: usize = 0;
    while i < pairs.len()
        invariant
            i <= pairs@.len(),
            key@ == "text"@,
            forall|j: int| 0 <= j < i ==> pairs@[j].0@ != "text"@,
        decreases pairs.len() - i,
    {
        if pairs[i].0 == key {
            assert(pair_views(pairs@)[i as int].0 == "text"@);
            return true;
        }
        i = i + 1;
    }
    assert forall|j: int| 0 <= j < pair_views(pairs@).len() implies #[trigger] pair_views(
        pairs@,
    )[j].0 != "text"@ by {
        assert(pair_views(pairs@)[j].0 == pairs@[j].0@);
    }
    false
}

/// What a tag of the speech family with own text `cs[oa..ob]` and content
/// `cs[lo..hi]` yields.
fn speech_piece_of(input: &str, cs: &Vec<char>, oa: usize, ob: usize, lo: usize, hi: usize) -> (r:
    TagPiece)
    requires
        cs@ == input@,
        oa <= ob <= cs@.len(),
        lo <= hi <= cs@.len(),
    ensures
        piece_view(r) == speech_piece(
            cs@.subrange(oa as int, ob as int),
            cs@.subrange(lo as int, hi as int),
        ),
        call_is_object(r),
{
    let b2 = strip_end_at(cs, oa, ob, Some('/'));
    let ws = word_ranges(cs, oa, b2);
    let mut pairs = attributes_of(input, cs, &ws, 0);
    assert(pieces(cs@, ws@).skip(0) =~= pieces(cs@, ws@));
    let (a, b) = trim_range(cs, lo, hi);
    if a < b && !has_text_key(&pairs) {
        let ghost before = pair_views(pairs@);
        pairs.push((String::from_str("text"), text_between(input, a, b)));
        assert(pair_views(pairs@) =~= before.push(("text"@, cs@.subrange(a as int, b as int))));
    }
    TagPiece::Call(call_of_exec(String::from_str("tts"), object_of_strings(pairs)))
}

/// What the tag of family `f` with own text `cs[oa..ob]` and content
/// `cs[lo..hi]` yields.
fn piece_of(input: &str, cs: &Vec<char>, d: &TagDialect, oa: usize, ob: usize, lo: usize, hi: usize) -> (r:
    TagPiece)
    requires
        cs@ == input@,
        oa <= ob <= cs@.len(),
        lo <= hi <= cs@.len(),
    ensures
        piece_view(r) == piece(
            d@,
            cs@.subrange(oa as int, ob as int),
            cs@.subrange(lo as int, hi as int),
        ),
        call_is_object(r),
{
    match d.family {
        TagFamily::Tool => tool_piece_of(input, cs, oa, ob, lo, hi),
        TagFamily::Narrative => {
            let (a, b) = trim_range(cs, lo, hi);
            TagPiece::Text(text_between(input, a, b))
        },
        TagFamily::Speech => speech_piece_of(input, cs, oa, ob, lo, hi),
    }
}

/// A dialect with its markers as characters.
pub struct Marker {
    pub dialect: TagDialect,
    pub open: Vec<char>,
    pub close: Vec<char>,
    pub body_close: Vec<char>,
}

pub open spec fn marker_ok(m: Marker) -> bool {
    m.open@ == m.dialect.open@ && m.close@ == m.dialect.close@ && m.body_close@
        == m.dialect.body_close@
}

pub open spec fn marker_table(ms: Seq<Marker>) -> Seq<DialectView> {
    ms.map_values(|m: Marker| m.dialect@)
}

pub open spec fn markers_ok(ms: Seq<Marker>) -> bool {
    &&& forall|i: int| 0 <= i < ms.len() ==> marker_ok(#[trigger] ms[i])
    &&& table_wf(marker_table(ms))
}

/// The dialects with their markers as characters.
pub fn markers() -> (r: Vec<Marker>)
    ensures
        markers_ok(r@),
        marker_table(r@) == dialect_table(),
{
    let ds = dialects();
    let mut out: Vec<Marker> = Vec::new();
    let mut i: usize = 0;
    while i < ds.len()
        invariant
            i <= ds@.len(),
            ds@.map_values(|d: TagDialect| d@) == dialect_table(),
            table_wf(dialect_table()),
            out@.len() == i,
            forall|j: int| 0 <= j < i ==> marker_ok(#[trigger] out@[j]) && out@[j].dialect
                == ds@[j],
        decreases ds.len() - i,
    {
        let d = ds[i];
        out.push(
            Marker {
                dialect: d,
                open: chars_of(d.open),
                close: chars_of(d.close),
                body_close: chars_of(d.body_close),
            },
        );
        i = i + 1;
    }
    assert(marker_table(out@) =~= dialect_table()) by {
        assert forall|j: int| 0 <= j < out@.len() implies marker_table(out@)[j]
            == dialect_table()[j] by {
            assert(ds@.map_values(|d: TagDialect| d@)[j] == ds@[j]@);
        }
    }
    out
}

/// The first dialect whose opening marker stands in `cs[pos..]`, and where.
fn first_marker(cs: &Vec<char>, pos: usize, ms: &Vec<Marker>) -> (r: Option<(usize, usize)>)
    requires
        pos <= cs@.len(),
        markers_ok(ms@),
    ensures
        match r {
            Some((i, st)) => first_dialect(cs@.skip(pos as int), marker_table(ms@), 0) == Some(
                (i as int, st - pos),
            ) && i < ms@.len() && pos <= st && st + ms@[i as int].open@.len() <= cs@.len(),
            None => first_dialect(cs@.skip(pos as int), marker_table(ms@), 0) is None,
        },
{
    let ghost s = cs@.skip(pos as int);
    let ghost t = marker_table(ms@);
    assert(cs@.subrange(pos as int, cs@.len() as int) =~= s);
    let mut i: usize = 0;
    while i < ms.len()
        invariant
            i <= ms@.len(),
            pos <= cs@.len(),
            s == cs@.skip(pos as int),
            t == marker_table(ms@),
            cs@.subrange(pos as int, cs@.len() as int) == s,
            markers_ok(ms@),
            first_dialect(s, t, 0) == first_dialect(s, t, i as int),
        decreases ms.len() - i,
    {
        assert(marker_ok(ms@[i as int]));
        assert(t[i as int].open == ms@[i as int].open@);
        match find_in(cs, pos, cs.len(), &ms[i].open) {
            Some(k) => {
                return Some((i, k));
            },
            None => {},
        }
        i = i + 1;
    }
    None
}

/// Where the tag of marker `m` found at `start` stands within `cs`: its own
/// text, its content, and its end, as `tag_extent` gives them.
fn extent_of(cs: &Vec<char>, pos: usize, start: usize, m: &Marker) -> (r: (
    usize,
    usize,
    usize,
    usize,
    usize,
))
    requires
        marker_ok(*m),
        m.open@.len() > 0,
        pos <= start,
        start + m.open@.len() <= cs@.len(),
    ensures
        ({
            let x = tag_extent(cs@.skip(pos as int), m.dialect@, start - pos);
            &&& r.0 <= r.1 <= cs@.len()
            &&& r.2 <= r.3 <= cs@.len()
            &&& start < r.4 <= cs@.len()
            &&& cs@.subrange(r.0 as int, r.1 as int) == x.own
            &&& cs@.subrange(r.2 as int, r.3 as int) == x.inner
            &&& r.4 - pos == x.end
        }),
{
    let ghost s = cs@.skip(pos as int);
    let ghost d = m.dialect@;
    let n = cs.len();
    let body = start + m.open.len();
    let at_gt = m.close.len() == 1 && m.close[0] == '>';
    assert(at_gt == (d.close == seq!['>'])) by {
        if m.close@.len() == 1 {
            assert(m.close@ =~= seq![m.close@[0]]);
        }
    }
    let has_body = m.body_close.len() > 0;
    assert(s.skip(body - pos) =~= cs@.subrange(body as int, n as int));
    assert(s.len() == n - pos);
    assert(cs@.subrange(body as int, body as int) =~= Seq::<char>::empty());
    match find_in(cs, body, n, &m.close) {
        None => {
            if has_body {
                (body, n, body, body, n)
            } else if at_gt {
                (body, n, body, n, n)
            } else {
                (body, body, body, n, n)
            }
        },
        Some(e) => {
            let after = e + m.close.len();
            assert(s.subrange(body - pos, e - pos) =~= cs@.subrange(body as int, e as int));
            assert(cs@.subrange(after as int, after as int) =~= Seq::<char>::empty());
            if has_body {
                let closes_itself = e > body && cs[e - 1] == '/';
                assert(closes_itself == self_closing(cs@.subrange(body as int, e as int)));
                if closes_itself {
                    (body, e, after, after, after)
                } else {
                    assert(s.skip(after - pos) =~= cs@.subrange(after as int, n as int));
                    match find_in(cs, after, n, &m.body_close) {
                        Some(f) => {
                            assert(s.subrange(after - pos, f - pos) =~= cs@.subrange(
                                after as int,
                                f as int,
                            ));
                            (body, e, after, f, f + m.body_close.len())
                        },
                        None => (body, e, after, after, after),
                    }
                }
            } else if at_gt {
                (body, e, body, e, after)
            } else {
                (body, body, body, e, after)
            }
        },
    }
}

/// Appends one fragment to narrative text joined by newlines.
fn push_fragment(text: &mut String, any: bool, frag: &str, Ghost(texts): Ghost<Seq<Seq<char>>>)
    requires
        old(text)@ == join_lines(texts),
        any == (texts.len() > 0),
    ensures
        final(text)@ == join_lines(texts.push(frag@)),
{
    proof {
        reveal_strlit("\n");
    }
    assert(texts.push(frag@).drop_last() =~= texts);
    if any {
        text.append("\n");
    }
    text.append(frag);
}


/// Scans `input` against the dialects `ms`. The loop takes one iteration per
/// step of `scan_steps`, at most a quarter of the input's length, and one
/// more to stop.
pub fn scan_markers(input: &str, ms: &Vec<Marker>) -> (r: (String, Vec<ParsedToolCall>))
    requires
        markers_ok(ms@),
    ensures
        r.0@ == join_lines(scan_with(input@, marker_table(ms@)).texts),
        call_views(r.1@) == scan_with(input@, marker_table(ms@)).calls,
        forall|k: int| 0 <= k < r.1@.len() ==> json_is_object(#[trigger] r.1@[k].arguments),
        4 * scan_steps(input@, marker_table(ms@)) <= input@.len(),
{
    let ghost t = marker_table(ms@);
    let ghost mut steps: nat = 0;
    let cs = chars_of(input);
    let n = cs.len();
    let mut pos: usize = 0;
    let mut text = String::new();
    let mut any: bool = false;
    let ghost mut texts: Seq<Seq<char>> = Seq::empty();
    let mut calls: Vec<ParsedToolCall> = Vec::new();
    assert(cs@.skip(0) =~= cs@);
    assert(call_views(calls@) =~= Seq::empty());
    while pos < n
        invariant
            pos <= n == cs@.len(),
            cs@ == input@,
            markers_ok(ms@),
            t == marker_table(ms@),
            text@ == join_lines(texts),
            any == (texts.len() > 0),
            scan_with(input@, t).texts == texts + scan_with(cs@.skip(pos as int), t).texts,
            scan_with(input@, t).calls == call_views(calls@) + scan_with(
                cs@.skip(pos as int),
                t,
            ).calls,
            forall|k: int| 0 <= k < calls@.len() ==> json_is_object(#[trigger] calls@[k].arguments),
            steps + scan_steps(cs@.skip(pos as int), t) == scan_steps(input@, t),
        decreases n - pos,
    {
        let ghost s = cs@.skip(pos as int);
        let ghost texts0 = texts;
        let ghost calls0 = call_views(calls@);
        match first_marker(&cs, pos, ms) {
            None => {
                let (a, b) = trim_range(&cs, pos, n);
                assert(cs@.subrange(pos as int, n as int) =~= s);
                if a < b {
                    push_fragment(&mut text, any, input.substring_char(a, b), Ghost(texts));
                    proof {
                        texts = texts.push(cs@.subrange(a as int, b as int));
                    }
                    any = true;
                }
                assert(cs@.skip(n as int) =~= Seq::<char>::empty());
                assert(texts =~= texts0 + scan_with(s, t).texts);
                assert(call_views(calls@) =~= calls0 + scan_with(s, t).calls);
                proof {
                    lemma_nothing_in_empty(t, 0);
                }
                pos = n;
            },
            Some((i, start)) => {
                let ghost p = start - pos;
                let m = &ms[i];
                assert(marker_ok(ms@[i as int]));
                assert(t[i as int] == ms@[i as int].dialect@);
                assert(t[i as int].open.len() > 0);
                assert(m.open@.len() == t[i as int].open.len());
                assert(s.len() == n - pos);
                let (a, b) = trim_range(&cs, pos, start);
                assert(s.take(p) =~= cs@.subrange(pos as int, start as int));
                if a < b {
                    push_fragment(&mut text, any, input.substring_char(a, b), Ghost(texts));
                    proof {
                        texts = texts.push(cs@.subrange(a as int, b as int));
                    }
                    any = true;
                }
                let ghost pre = nonblank(trim(s.take(p)));
                assert(texts =~= texts0 + pre);
                let (oa, ob, ia, ib, end) = extent_of(&cs, pos, start, m);
                let ghost x = tag_extent(s, t[i as int], p);
                assert(s.skip(end - pos) =~= cs@.skip(end as int));
                let piece = piece_of(input, &cs, &m.dialect, oa, ob, ia, ib);
                let ghost rest = scan_with(cs@.skip(end as int), t);
                match piece {
                    TagPiece::Text(x) => {
                        push_fragment(&mut text, any, x.as_str(), Ghost(texts));
                        proof {
                            texts = texts.push(x@);
                        }
                        any = true;
                        assert(texts + rest.texts =~= texts0 + (pre + seq![x@] + rest.texts));
                        assert(call_views(calls@) + rest.calls =~= calls0 + rest.calls);
                    },
                    TagPiece::Call(c) => {
                        let ghost old_calls = calls@;
                        calls.push(c);
                        assert forall|k: int| 0 <= k < calls@.len() implies json_is_object(
                            #[trigger] calls@[k].arguments,
                        ) by {
                            if k < old_calls.len() {
                                assert(calls@[k] == old_calls[k]);
                            }
                        }
                        assert(call_views(calls@) =~= calls0.push(c@));
                        assert(texts + rest.texts =~= texts0 + (pre + rest.texts));
                        assert(call_views(calls@) + rest.calls =~= calls0 + (seq![c@]
                            + rest.calls));
                    },
                }
                proof {
                    steps = steps + 1;
                }
                pos = end;
            },
        }
    }
    assert(cs@.skip(n as int) =~= Seq::<char>::empty());
    assert(first_dialect(Seq::<char>::empty(), t, 0) is None) by {
        lemma_nothing_in_empty(t, 0);
    }
    assert(trim(Seq::<char>::empty()) =~= Seq::<char>::empty());
    assert(texts + Seq::<Seq<char>>::empty() =~= texts);
    assert(call_views(calls@) + Seq::<CallView>::empty() =~= call_views(calls@));
    proof {
        lemma_scan_bounded(input@, t);
    }
    (text, calls)
}

/// No dialect with a non-empty opening marker is found in the empty text.
proof fn lemma_nothing_in_empty(t: Seq<DialectView>, i: int)
    requires
        table_wf(t),
        0 <= i,
    ensures
        first_dialect(Seq::<char>::empty(), t, i) is None,
    decreases t.len() - i,
{
    if i < t.len() {
        assert(t[i].open.len() > 0);
        assert(find(Seq::<char>::empty(), t[i].open) is None);
        lemma_nothing_in_empty(t, i + 1);
    }
}

/// Recovers narrative text and tool calls from `input`: the narrative
/// fragments joined by newlines, and the calls in the order met.
pub fn parse_tags(input: &str) -> (r: (String, Vec<ParsedToolCall>))
    ensures
        r.0@ == join_lines(scan(input@).texts),
        call_views(r.1@) == scan(input@).calls,
        forall|k: int| 0 <= k < r.1@.len() ==> json_is_object(#[trigger] r.1@[k].arguments),
        4 * scan_steps(input@, dialect_table()) <= input@.len(),
{
    let ms = markers();
    scan_markers(input, &ms)
}


proof fn lemma_first_dialect_none(s: Seq<char>, t: Seq<DialectView>, i: int)
    requires
        no_marker(s, t),
        0 <= i,
    ensures
        first_dialect(s, t, i) is None,
    decreases t.len() - i,
{
    if i < t.len() {
        assert(find(s, t[i].open) is None);
        lemma_first_dialect_none(s, t, i + 1);
    }
}

/// A reply in which no opening marker stands is narrative text only: the
/// reply trimmed, and no call.
pub proof fn lemma_plain_text_passes_through(s: Seq<char>)
    requires
        no_marker(s, dialect_table()),
    ensures
        scan(s).calls.len() == 0,
        join_lines(scan(s).texts) == trim(s),
{
    lemma_first_dialect_none(s, dialect_table(), 0);
    if trim(s).len() == 0 {
        assert(join_lines(Seq::<Seq<char>>::empty()) =~= trim(s));
    }
}

/// The arguments of a speech call whose opening tag has no own text.
pub open spec fn speech_text_arguments(inner: Seq<char>) -> Seq<(Seq<char>, Seq<char>)> {
    if trim(inner).len() > 0 {
        seq![("text"@, trim(inner))]
    } else {
        Seq::empty()
    }
}

/// Every speech alias yields the same call for the same opening-tag text and
/// content. Where the opening tag has no text of its own (`<speak>`), that
/// call is the speech tool with the trimmed content as `text`, where it is
/// not blank.
pub proof fn lemma_speech_aliases_agree(i: int, j: int, own: Seq<char>, inner: Seq<char>)
    requires
        0 <= i < dialect_table().len(),
        0 <= j < dialect_table().len(),
        dialect_table()[i].family == TagFamily::Speech,
        dialect_table()[j].family == TagFamily::Speech,
    ensures
        piece(dialect_table()[i], own, inner) == piece(dialect_table()[j], own, inner),
        piece(dialect_table()[i], Seq::empty(), inner) == Piece::Call(
            call_of(speech_tool(), string_object(speech_text_arguments(inner))),
        ),
{
    let e = Seq::<char>::empty();
    assert(strip_end(e, Some('/')) == e);
    assert(words(e) =~= Seq::<Seq<char>>::empty());
    assert(own_attributes(e) =~= Seq::<(Seq<char>, Seq<char>)>::empty());
    assert(!has_key(own_attributes(e), "text"@));
    assert(speech_arguments(e, inner) =~= speech_text_arguments(inner));
}

/// A marker that ends its opening tag (closed by a literal, without a body)
/// leaves no own text: such a tag is read from its content alone.
pub proof fn lemma_literal_marker_has_no_own_text(s: Seq<char>, d: DialectView, p: int)
    requires
        d.close != seq!['>'],
        d.body_close.len() == 0,
    ensures
        tag_extent(s, d, p).own.len() == 0,
{
}

/// A tag that yields no call yields its content, trimmed: what every
/// strategy of the tool family fails on is kept as narrative text, and a
/// narrative tag always keeps its content.
pub proof fn lemma_text_piece_keeps_content(d: DialectView, own: Seq<char>, inner: Seq<char>)
    ensures
        piece(d, own, inner) is Text ==> piece(d, own, inner) == Piece::Text(trim(inner)),
        d.family == TagFamily::Narrative ==> piece(d, own, inner) == Piece::Text(trim(inner)),
{
}

/// In the tool family, content that is neither a JSON call nor a name line
/// is kept as narrative text where the opening tag has no own text.
pub proof fn lemma_tool_content_kept(inner: Seq<char>)
    requires
        json_decode(trim(inner)) is None,
        find(trim(inner), seq!['\n']) is None,
    ensures
        tool_piece(Seq::empty(), inner) == Piece::Text(trim(inner)),
{
    assert(words(Seq::<char>::empty()) =~= Seq::<Seq<char>>::empty());
}

/// How many tags the scan of `s` consumes, one step each.
pub open spec fn scan_steps(s: Seq<char>, t: Seq<DialectView>) -> nat
    decreases s.len(),
{
    match first_dialect(s, t, 0) {
        None => 0,
        Some((i, p)) => {
            let x = tag_extent(s, t[i], p);
            if 0 < x.end <= s.len() {
                1 + scan_steps(s.skip(x.end), t)
            } else {
                0
            }
        },
    }
}

proof fn lemma_find_from_bounds(s: Seq<char>, q: Seq<char>, i: int)
    requires
        0 <= i,
    ensures
        find_from(s, q, i) matches Some(k) ==> i <= k && k + q.len() <= s.len(),
    decreases s.len() + 1 - i,
{
    if !(i + q.len() > s.len()) && !occurs_at(s, q, i) {
        lemma_find_from_bounds(s, q, i + 1);
    }
}

/// The scan works in bounded steps: each step consumes a whole opening
/// marker of at least four characters, so a reply of `n` characters takes
/// at most `n / 4` steps and yields no more calls than steps, also where a
/// tag is never closed.
pub proof fn lemma_scan_bounded(s: Seq<char>, t: Seq<DialectView>)
    requires
        table_wf(t),
    ensures
        scan_with(s, t).calls.len() <= scan_steps(s, t),
        4 * scan_steps(s, t) <= s.len(),
    decreases s.len(),
{
    match first_dialect(s, t, 0) {
        None => {},
        Some((i, p)) => {
            lemma_first_dialect_found(s, t, 0);
            lemma_find_from_bounds(s, t[i].open, 0);
            let body = p + t[i].open.len();
            lemma_find_from_bounds(s.skip(body), t[i].close, 0);
            if let Some(e) = find(s.skip(body), t[i].close) {
                let after = body + e + t[i].close.len();
                lemma_find_from_bounds(s.skip(after), t[i].body_close, 0);
            }
            let x = tag_extent(s, t[i], p);
            assert(t[i].open.len() >= 4);
            assert(x.end >= body);
            if 0 < x.end <= s.len() {
                lemma_scan_bounded(s.skip(x.end), t);
            }
        },
    }
}

proof fn lemma_first_dialect_found(s: Seq<char>, t: Seq<DialectView>, i: int)
    requires
        0 <= i,
    ensures
        first_dialect(s, t, i) matches Some((j, p)) ==> 0 <= j < t.len() && p == find(s, t[j].open)->0 && find(s, t[j].open) is Some,
    decreases t.len() - i,
{
    if i < t.len() {
        lemma_first_dialect_found(s, t, i + 1);
    }
}

} // verus!

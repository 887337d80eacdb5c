//! The wire protocol between the peer and the server. Text frames carry an
//! ASCII tag and `;` before their payload: from the peer, `0;` base64 of raw
//! input, `1;` input text, `2;<rows>;<cols>` a resize; to the peer, `0;`
//! base64 of terminal output and `1;` the exit summary. Binary frames carry
//! raw bytes both ways.

use vstd::prelude::*;
use vstd::string::StrSliceExecFns;
use base64::Engine;
use crate::command::{CommandInputItem, InputCommand, TermSize};
use crate::decimal::{parse_u16, parsed_u16};

verus! {

/// What the standard base64 engine (with padding) decodes a text to, or
/// `None` where the text is no valid base64.
pub uninterp spec fn b64_decoded(text: Seq<char>) -> Option<Seq<u8>>;

/// The standard base64 text (with padding) of some bytes.
pub uninterp spec fn b64_encoded(bytes: Seq<u8>) -> Seq<char>;

/// Relies on base64's `STANDARD.decode`: the bytes that a base64 text
/// stands for, or an error where it is none. Only whether it failed is kept.
#[verifier::external_body]
fn b64_decode(text: &str) -> (r: Option<Vec<u8>>)
    ensures
        match r {
            Some(v) => b64_decoded(text@) == Some(v@),
            None => b64_decoded(text@) is None,
        },
{
    base64::engine::general_purpose::STANDARD.decode(text).ok()
}

/// Relies on base64's `STANDARD.encode`: the base64 text of some bytes. It
/// panics only where the text's length would not fit in a `usize`.
#[verifier::external_body]
fn b64_encode(bytes: &[u8]) -> (r: String)
    requires
        bytes@.len() <= usize::MAX / 2,
    ensures
        r@ == b64_encoded(bytes@),
{
    base64::engine::general_purpose::STANDARD.encode(bytes)
}

/// A text frame from the peer, read but not yet decoded.
#[derive(Debug)]
pub enum TextFrame {
    /// `0;` and base64 text.
    Base64(String),
    /// `1;` and input text.
    Text(String),
    /// `2;<rows>;<cols>`.
    Resize(TermSize),
    /// Any other text, or a resize whose numbers do not read.
    Unknown,
}

/// The value of a `TextFrame`.
pub enum FrameKind {
    Base64(Seq<char>),
    Text(Seq<char>),
    Resize(u16, u16),
    Unknown,
}

impl View for TextFrame {
    type V = FrameKind;

    open spec fn view(&self) -> FrameKind {
        match self {
            TextFrame::Base64(s) => FrameKind::Base64(s@),
            TextFrame::Text(s) => FrameKind::Text(s@),
            TextFrame::Resize(sz) => FrameKind::Resize(sz.rows, sz.cols),
            TextFrame::Unknown => FrameKind::Unknown,
        }
    }
}

/// The index of the first `;` in `s`, or its length where it has none.
pub open spec fn semi_index(s: Seq<char>) -> nat
    decreases s.len(),
{
    if s.len() == 0 {
        0
    } else if s[0] == ';' {
        0
    } else {
        1 + semi_index(s.drop_first())
    }
}

/// The frame `2;` + `body`: the rows stand before the first `;` of the
/// body, the columns after it, up to the next `;` or the end.
pub open spec fn resize_frame(body: Seq<char>) -> FrameKind {
    let k = semi_index(body) as int;
    if k >= body.len() {
        FrameKind::Unknown
    } else {
        let rest = body.subrange(k + 1, body.len() as int);
        let rows = parsed_u16(body.subrange(0, k));
        let cols = parsed_u16(rest.subrange(0, semi_index(rest) as int));
        if rows is Some && cols is Some {
            FrameKind::Resize(rows->Some_0, cols->Some_0)
        } else {
            FrameKind::Unknown
        }
    }
}

pub open spec fn has_tag(t: Seq<char>, c: char) -> bool {
    t.len() >= 2 && t[0] == c && t[1] == ';'
}

/// What a text frame from the peer says.
pub open spec fn frame_of(t: Seq<char>) -> FrameKind {
    let body = t.subrange(2, t.len() as int);
    if has_tag(t, '0') {
        FrameKind::Base64(body)
    } else if has_tag(t, '1') {
        FrameKind::Text(body)
    } else if has_tag(t, '2') {
        resize_frame(body)
    } else {
        FrameKind::Unknown
    }
}

/// The input command of a text frame from the peer, if it holds one.
pub open spec fn command_of_text(t: Seq<char>) -> Option<InputCommand> {
    match frame_of(t) {
        FrameKind::Base64(p) => match b64_decoded(p) {
            Some(b) => Some(InputCommand::Raw(b)),
            None => None,
        },
        FrameKind::Text(s) => Some(InputCommand::Text(s)),
        FrameKind::Resize(r, c) => Some(InputCommand::Resize(r, c)),
        FrameKind::Unknown => None,
    }
}

pub open spec fn opt_command(o: Option<CommandInputItem>) -> Option<InputCommand> {
    match o {
        Some(c) => Some(c@),
        None => None,
    }
}

proof fn lemma_semi_index(s: Seq<char>, i: int)
    requires
        0 <= i <= s.len(),
        forall|j: int| 0 <= j < i ==> s[j] != ';',
        i == s.len() || s[i] == ';',
    ensures
        semi_index(s) == i,
    decreases i,
{
    if i > 0 {
        let t = s.drop_first();
        assert forall|j: int| 0 <= j < i - 1 implies t[j] != ';' by {
            assert(t[j] == s[j + 1]);
        }
        lemma_semi_index(t, i - 1);
    }
}

/// The index of the first `;` in `s` at or after `from`, or the length of
/// `s` where there is none.
fn find_semi(s: &str, from: usize) -> (r: usize)
    requires
        from <= s@.len(),
    ensures
        r == from + semi_index(s@.subrange(from as int, s@.len() as int)),
        r <= s@.len(),
{
    let n = s.unicode_len();
    let mut i = from;
    while i < n && s.get_char(i) != ';'
        invariant
            n == s@.len(),
            from <= i <= n,
            forall|j: int| from <= j < i ==> s@[j] != ';',
        decreases n - i,
    {
        i = i + 1;
    }
    proof {
        let t = s@.subrange(from as int, n as int);
        assert forall|j: int| 0 <= j < i - from implies t[j] != ';' by {
            assert(t[j] == s@[from + j]);
        }
        lemma_semi_index(t, i - from);
    }
    i
}

fn tagged(t: &str, n: usize, c: char) -> (r: bool)
    requires
        n == t@.len(),
    ensures
        r == has_tag(t@, c),
{
    n >= 2 && t.get_char(0) == c && t.get_char(1) == ';'
}

/// Reads a text frame from the peer.
pub fn parse_text_frame(text: &str) -> (r: TextFrame)
    ensures
        r@ == frame_of(text@),
{
    let n = text.unicode_len();
    if tagged(text, n, '0') {
        TextFrame::Base64(text.substring_char(2, n).to_owned())
    } else if tagged(text, n, '1') {
        TextFrame::Text(text.substring_char(2, n).to_owned())
    } else if tagged(text, n, '2') {
        let ghost body = text@.subrange(2, n as int);
        let k = find_semi(text, 2);
        assert(text@.subrange(2, n as int) =~= body);
        if k >= n {
            return TextFrame::Unknown;
        }
        let m = find_semi(text, k + 1);
        proof {
            let kk = k - 2;
            let rest = body.subrange(kk + 1, body.len() as int);
            assert(rest =~= text@.subrange(k + 1, n as int));
            assert(body.subrange(0, kk) =~= text@.subrange(2, k as int));
            assert(rest.subrange(0, semi_index(rest) as int) =~= text@.subrange(k + 1, m as int));
        }
        let rows = parse_u16(text.substring_char(2, k));
        let cols = parse_u16(text.substring_char(k + 1, m));
        match (rows, cols) {
            (Some(r), Some(c)) => TextFrame::Resize(TermSize::new(r, c)),
            _ => TextFrame::Unknown,
        }
    } else {
        TextFrame::Unknown
    }
}

/// Decodes a text frame from the peer into an input command; `None` for a
/// frame that holds none (an unknown tag, numbers that do not read, text
/// that is no base64), which the caller reports and drops.
pub fn decode_text_message(text: &str) -> (r: Option<CommandInputItem>)
    ensures
        opt_command(r) == command_of_text(text@),
{
    match parse_text_frame(text) {
        TextFrame::Base64(p) => match b64_decode(p.as_str()) {
            Some(b) => Some(CommandInputItem::Input(b)),
            None => None,
        },
        TextFrame::Text(s) => Some(CommandInputItem::InputString(s)),
        TextFrame::Resize(sz) => Some(CommandInputItem::Resize(sz)),
        TextFrame::Unknown => None,
    }
}

/// Decodes a binary frame from the peer: its bytes are raw input.
pub fn decode_binary_message(data: Vec<u8>) -> (r: CommandInputItem)
    ensures
        r@ == InputCommand::Raw(data@),
{
    CommandInputItem::Input(data)
}

/// The text frame `0;` + base64 that carries terminal output.
pub fn encode_output_text(data: &[u8]) -> (r: String)
    requires
        data@.len() <= usize::MAX / 2,
    ensures
        r@ == "0;"@ + b64_encoded(data@),
{
    let mut s = String::from_str("0;");
    let e = b64_encode(data);
    s.append(e.as_str());
    s
}

/// The text frame `1;` + summary that tells the peer how the session ended.
pub fn encode_exit(summary: &str) -> (r: String)
    ensures
        r@ == "1;"@ + summary@,
{
    let mut s = String::from_str("1;");
    s.append(summary);
    s
}

} // verus!

//! How the server turns a browser command's output into tool-call content: text as is,
//! screenshots inline as base64 PNG up to a size cap, and larger screenshots as a file.
use vstd::prelude::*;

use crate::actor::error::{error_text, owned, BrowserError, BrowserOutput};
use crate::text::{
    decimal, lemma_parse_decimal, parse_unsigned, parse_unsigned_str, push_decimal, push_str,
};

verus! {

/// Inline screenshot cap when the environment names none: 5 MiB.
pub const DEFAULT_SCREENSHOT_MAX_BYTES: usize = 5_242_880;

/// Largest inline screenshot cap: 64 MiB.
pub const MAX_SCREENSHOT_MAX_BYTES: usize = 67_108_864;

/// The inline screenshot cap for a setting `value`: the number it holds, or the default
/// when it is absent or not a number, clamped to `1..=64 MiB`.
pub open spec fn screenshot_cap(value: Option<Seq<char>>) -> nat {
    let v = match value {
        Some(text) => match parse_unsigned(text, usize::MAX as nat) {
            Some(n) => n,
            None => DEFAULT_SCREENSHOT_MAX_BYTES as nat,
        },
        None => DEFAULT_SCREENSHOT_MAX_BYTES as nat,
    };
    if v < 1 {
        1
    } else if v > MAX_SCREENSHOT_MAX_BYTES {
        MAX_SCREENSHOT_MAX_BYTES as nat
    } else {
        v
    }
}

/// The inline screenshot cap for the setting `value` (see [`screenshot_cap`]).
pub fn screenshot_max_bytes_from_value(value: Option<&str>) -> (cap: usize)
    ensures
        cap == screenshot_cap(
            match value {
                Some(t) => Some(t@),
                None => None,
            },
        ),
        1 <= cap <= MAX_SCREENSHOT_MAX_BYTES,
{
    let v: usize = match value {
        Some(text) => match parse_unsigned_str(text, usize::MAX as u64) {
            Some(n) => n as usize,
            None => DEFAULT_SCREENSHOT_MAX_BYTES,
        },
        None => DEFAULT_SCREENSHOT_MAX_BYTES,
    };
    if v < 1 {
        1
    } else if v > MAX_SCREENSHOT_MAX_BYTES {
        MAX_SCREENSHOT_MAX_BYTES
    } else {
        v
    }
}

/// A setting that spells a cap of the allowed range in decimal gives that cap; no
/// setting gives one outside the range.
pub proof fn law_screenshot_cap_round_trip(n: nat, value: Option<Seq<char>>)
    requires
        1 <= n <= MAX_SCREENSHOT_MAX_BYTES,
    ensures
        screenshot_cap(Some(decimal(n))) == n,
        1 <= screenshot_cap(value) <= MAX_SCREENSHOT_MAX_BYTES,
{
    lemma_parse_decimal(n, usize::MAX as nat);
}

/// The length of the base64 encoding of `n` bytes, as `base64::encoded_len` computes it:
/// four characters per whole three-byte group, and for a partial last group four more
/// with padding (two or three without); `None` when that does not fit in a `usize`.
pub open spec fn base64_len(n: nat, padding: bool) -> Option<nat> {
    let whole = (n / 3) * 4;
    if whole > usize::MAX {
        None
    } else if n % 3 == 0 {
        Some(whole)
    } else {
        let extra: nat = if padding {
            4
        } else if n % 3 == 1 {
            2
        } else {
            3
        };
        if whole + extra > usize::MAX {
            None
        } else {
            Some(whole + extra)
        }
    }
}

/// Calls `base64::encoded_len`.
#[verifier::external_body]
fn encoded_len(bytes_len: usize, padding: bool) -> (r: Option<usize>)
    ensures
        match base64_len(bytes_len as nat, padding) {
            Some(n) => r == Some(n as usize),
            None => r is None,
        },
{
    base64::encoded_len(bytes_len, padding)
}

/// The standard padded base64 encoding of `bytes`, as `base64`'s `STANDARD` engine writes it.
pub uninterp spec fn base64_standard(bytes: Seq<u8>) -> Seq<char>;

/// Calls `STANDARD.encode` of the `base64` crate, which panics when the encoded length
/// does not fit in a `usize`.
#[verifier::external_body]
fn encode_base64(bytes: &[u8]) -> (s: String)
    requires
        base64_len(bytes@.len(), true) is Some,
    ensures
        s@ == base64_standard(bytes@),
{
    base64::Engine::encode(&base64::engine::general_purpose::STANDARD, bytes)
}

/// One block of tool-call content.
pub enum ToolContent {
    Text(String),
    Image { data: String, mime_type: String },
}

/// What becomes of a command's output.
pub enum OutputPlan {
    /// The content to return.
    Ready(ToolContent),
    /// A screenshot too large to return inline: save it to a file, then return
    /// [`fallback_notice`] for it. `payload_bytes` is its encoded size.
    Spill { bytes: Vec<u8>, payload_bytes: usize },
}

/// The encoded size of a screenshot of `n` bytes, saturating at `usize::MAX`.
pub open spec fn payload_size(n: nat) -> nat {
    match base64_len(n, true) {
        Some(m) => m,
        None => usize::MAX as nat,
    }
}

/// Decides how to return `output` under the inline cap `cap`: text as is; a screenshot
/// whose base64 encoding fits the cap as an inline PNG image; a larger one as a file.
pub fn plan_output(output: BrowserOutput, cap: usize) -> (plan: OutputPlan)
    requires
        cap <= MAX_SCREENSHOT_MAX_BYTES,
    ensures
        match output {
            BrowserOutput::Text(t) => plan matches OutputPlan::Ready(ToolContent::Text(x)) && x@
                == t@,
            BrowserOutput::Png(b) => if payload_size(b@.len()) <= cap {
                plan matches OutputPlan::Ready(ToolContent::Image { data, mime_type }) && data@
                    == base64_standard(b@) && mime_type@ == "image/png"@
            } else {
                plan matches OutputPlan::Spill { bytes, payload_bytes } && bytes@ == b@
                    && payload_bytes == payload_size(b@.len())
            },
        },
{
    match output {
        BrowserOutput::Text(t) => OutputPlan::Ready(ToolContent::Text(t)),
        BrowserOutput::Png(bytes) => {
            let payload_bytes = match encoded_len(bytes.len(), true) {
                Some(n) => n,
                None => usize::MAX,
            };
            if payload_bytes <= cap {
                let data = encode_base64(bytes.as_slice());
                OutputPlan::Ready(ToolContent::Image { data, mime_type: owned("image/png") })
            } else {
                OutputPlan::Spill { bytes, payload_bytes }
            }
        },
    }
}

/// The text returned in place of a screenshot that was saved to `path`.
pub open spec fn fallback_text(payload_bytes: nat, cap: nat, path: Seq<char>) -> Seq<char> {
    "Screenshot exceeded the inline size cap ("@ + decimal(payload_bytes) + " > "@ + decimal(cap)
        + " bytes); PNG saved to `"@ + path + "`."@
}

/// The text returned in place of a screenshot that was saved to `path`.
pub fn fallback_notice(payload_bytes: usize, cap: usize, path: &str) -> (s: String)
    ensures
        s@ == fallback_text(payload_bytes as nat, cap as nat, path@),
{
    let mut s = owned("Screenshot exceeded the inline size cap (");
    push_decimal(&mut s, payload_bytes as u64);
    push_str(&mut s, " > ");
    push_decimal(&mut s, cap as u64);
    push_str(&mut s, " bytes); PNG saved to `");
    push_str(&mut s, path);
    push_str(&mut s, "`.");
    s
}

/// The reply to a tool call: its content, and whether it reports an error.
pub struct ToolReply {
    pub is_error: bool,
    pub content: ToolContent,
}

/// The reply to a tool call that produced `result`: the content on success, the error's
/// text, flagged as an error, on failure.
pub fn tool_reply(result: Result<ToolContent, BrowserError>) -> (reply: ToolReply)
    ensures
        match result {
            Ok(c) => !reply.is_error && reply.content == c,
            Err(e) => reply.is_error && (reply.content matches ToolContent::Text(t) && t@
                == error_text(e@)),
        },
{
    match result {
        Ok(content) => ToolReply { is_error: false, content },
        Err(e) => ToolReply { is_error: true, content: ToolContent::Text(e.message()) },
    }
}

/// The error text of a call to a tool that does not exist.
pub fn unknown_tool_message(name: &str) -> (s: String)
    ensures
        s@ == "unknown tool: "@ + name@,
{
    let mut s = owned("unknown tool: ");
    push_str(&mut s, name);
    s
}

/// The error text of a call whose arguments could not be decoded, from the decoder's text.
pub fn invalid_arguments_message(detail: &str) -> (s: String)
    ensures
        s@ == "invalid tool arguments: "@ + detail@,
{
    let mut s = owned("invalid tool arguments: ");
    push_str(&mut s, detail);
    s
}

} // verus!

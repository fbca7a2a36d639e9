//! Logic of the agent CLI's browser session: actions, element targets, snapshot text,
//! and the responses each action produces.
use vstd::prelude::*;

use crate::evaluation::{decode_runtime, decode_runtime_value};
use crate::actor::refs::member_of;
use crate::json::{
    json_document, lemma_member_index_distinct, member_index, parse_json_document, JsonNumber,
    JsonValue, JsonView,
};
use crate::text::{decimal, push_decimal, push_str};

verus! {

/// The DOM attribute that snapshots attach to interactive elements.
pub open spec fn ref_attribute() -> Seq<char> {
    "data-rustwright-agent-ref"@
}

/// Snapshot size used when a command names none.
pub const DEFAULT_SNAPSHOT_ITEMS: usize = 200;

/// Largest snapshot size a command may ask for.
pub const MAX_SNAPSHOT_ITEMS: usize = 1000;

/// How the browser is launched for a new session.
pub struct LaunchConfig {
    pub headed: bool,
    pub executable_path: Option<String>,
}

impl LaunchConfig {
    /// A headless launch with the default Chromium.
    pub fn new() -> (c: LaunchConfig)
        ensures
            !c.headed,
            c.executable_path is None,
    {
        LaunchConfig { headed: false, executable_path: None }
    }
}

/// The engine timeout of CLI commands, 30 000 ms, as its binary64 bit pattern.
pub const SESSION_TIMEOUT_MS_BITS: u64 = 0x40DD_4C00_0000_0000;

/// The launch options document for a session: whether to run headless, the engine
/// timeout, and the browser executable when one is named; members in key order.
pub open spec fn launch_options_view(headed: bool, executable_path: Option<Seq<char>>) -> JsonView {
    let rest = seq![
        ("headless"@, JsonView::Bool(!headed)),
        ("timeout"@, JsonView::Number(JsonNumber::FloatBits(SESSION_TIMEOUT_MS_BITS))),
    ];
    match executable_path {
        Some(p) => JsonView::Object(seq![("executable_path"@, JsonView::Str(p))] + rest),
        None => JsonView::Object(rest),
    }
}

impl LaunchConfig {
    /// The launch options document for this configuration (see [`launch_options_view`]).
    pub fn launch_options(&self) -> (v: JsonValue)
        ensures
            v@ == launch_options_view(
                self.headed,
                match self.executable_path {
                    Some(p) => Some(p@),
                    None => None,
                },
            ),
    {
        let mut members: Vec<(String, JsonValue)> = Vec::new();
        match &self.executable_path {
            Some(p) => members.push((owned("executable_path"), JsonValue::Str(p.clone()))),
            None => {},
        }
        members.push((owned("headless"), JsonValue::Bool(!self.headed)));
        members.push(
            (owned("timeout"), JsonValue::Number(JsonNumber::FloatBits(SESSION_TIMEOUT_MS_BITS))),
        );
        proof {
            crate::json::lemma_members_view(members@);
        }
        let v = JsonValue::Object(members);
        proof {
            match v@ {
                JsonView::Object(m) => {
                    assert(m =~= launch_options_view(
                        self.headed,
                        match self.executable_path {
                            Some(p) => Some(p@),
                            None => None,
                        },
                    )->Object_0);
                },
                _ => {},
            }
        }
        v
    }
}

/// One command of the agent CLI.
#[allow(inconsistent_fields)]
pub enum BrowserAction {
    Ping,
    Open { url: Option<String> },
    Snapshot { max_items: Option<usize> },
    Click { target: String },
    Fill { target: String, text: String },
    Text { target: Option<String> },
    Title,
    Url,
    Evaluate { expression: String },
    Screenshot { path: String, full_page: bool },
    Wait { milliseconds: u64 },
    Status,
    Close,
}

impl BrowserAction {
    /// Whether this command ends the daemon that serves the session.
    pub fn shuts_down_daemon(&self) -> (r: bool)
        ensures
            r == (self is Close),
    {
        match self {
            BrowserAction::Close => true,
            _ => false,
        }
    }
}

/// Whether `action` may run on a session that has been closed.
pub open spec fn allowed_when_closed(action: BrowserAction) -> bool {
    action is Ping || action is Open || action is Status || action is Close
}

/// Whether `c` has the Unicode `White_Space` property, which `char::is_whitespace` tests.
pub open spec fn is_whitespace(c: char) -> bool {
    ||| '\u{9}' <= c <= '\u{d}'
    ||| c == ' '
    ||| c == '\u{85}'
    ||| c == '\u{a0}'
    ||| c == '\u{1680}'
    ||| '\u{2000}' <= c <= '\u{200a}'
    ||| c == '\u{2028}'
    ||| c == '\u{2029}'
    ||| c == '\u{202f}'
    ||| c == '\u{205f}'
    ||| c == '\u{3000}'
}

/// Whether `s` is empty once surrounding whitespace is trimmed.
pub open spec fn blank(s: Seq<char>) -> bool {
    forall|i: int| 0 <= i < s.len() ==> #[trigger] is_whitespace(s[i])
}

/// Whether `r` (the text after `@`) is a snapshot reference: `e` and one or more digits.
pub open spec fn snapshot_reference(r: Seq<char>) -> bool {
    &&& r.len() >= 2
    &&& r[0] == 'e'
    &&& forall|i: int| 1 <= i < r.len() ==> #[trigger] crate::text::is_digit(r[i])
}

/// The scoped CSS selector of a snapshot reference.
pub open spec fn reference_selector(r: Seq<char>) -> Seq<char> {
    "["@ + ref_attribute() + "=\""@ + r + "\"]"@
}

/// What `selector_for_target` gives for `target`.
pub open spec fn target_selector(target: Seq<char>) -> Result<Seq<char>, Seq<char>> {
    if target.len() > 0 && target[0] == '@' {
        let r = target.skip(1);
        if snapshot_reference(r) {
            Ok(reference_selector(r))
        } else {
            Err("invalid snapshot reference "@ + debug_quoted(target)
                + "; expected @e followed by digits"@)
        }
    } else if blank(target) {
        Err("target must not be empty"@)
    } else {
        Ok(target)
    }
}

/// The text of `s` as `{:?}` prints a string: quoted and escaped.
pub uninterp spec fn debug_quoted(s: Seq<char>) -> Seq<char>;

/// Formats `s` with `{:?}`.
#[verifier::external_body]
fn debug_string(s: &str) -> (r: String)
    ensures
        r@ == debug_quoted(s@),
{
    format!("{s:?}")
}

fn owned(s: &str) -> (r: String)
    ensures
        r@ == s@,
{
    s.to_owned()
}

fn is_whitespace_char(c: char) -> (r: bool)
    ensures
        r == is_whitespace(c),
{
    ('\u{9}' <= c && c <= '\u{d}') || c == ' ' || c == '\u{85}' || c == '\u{a0}' || c == '\u{1680}'
        || ('\u{2000}' <= c && c <= '\u{200a}') || c == '\u{2028}' || c == '\u{2029}' || c
        == '\u{202f}' || c == '\u{205f}' || c == '\u{3000}'
}

/// Whether `s` is empty once surrounding whitespace is trimmed (`s.trim().is_empty()`).
pub(crate) fn is_blank(s: &str) -> (r: bool)
    ensures
        r == blank(s@),
{
    let n = s.unicode_len();
    let mut i: usize = 0;
    while i < n
        invariant
            n == s@.len(),
            i <= n,
            forall|j: int| 0 <= j < i ==> #[trigger] is_whitespace(s@[j]),
        decreases n - i,
    {
        if !is_whitespace_char(s.get_char(i)) {
            assert(!is_whitespace(s@[i as int]));
            return false;
        }
        i = i + 1;
    }
    true
}

/// Turns a command target into a selector: `@eN` snapshot references become the scoped
/// attribute selector of that element; any other non-blank text (CSS, `text=`) passes
/// through unchanged.
pub fn selector_for_target(target: &str) -> (r: Result<String, String>)
    ensures
        r matches Ok(s) ==> target_selector(target@) == Ok::<Seq<char>, Seq<char>>(s@),
        r matches Err(e) ==> target_selector(target@) == Err::<Seq<char>, Seq<char>>(e@),
{
    let n = target.unicode_len();
    if n > 0 && target.get_char(0) == '@' {
        let ghost r = target@.skip(1);
        let head_ok = n >= 3 && target.get_char(1) == 'e';
        let mut ok = head_ok;
        let ghost mut bad: int = 0;
        let mut i: usize = 2;
        while ok && i < n
            invariant
                n == target@.len(),
                2 <= i,
                ok ==> i <= n,
                r == target@.skip(1),
                ok ==> head_ok,
                head_ok == (n >= 3 && target@[1] == 'e'),
                ok ==> forall|j: int| 1 <= j < i - 1 ==> #[trigger] crate::text::is_digit(r[j]),
                !ok && head_ok ==> 1 <= bad < r.len() && !crate::text::is_digit(r[bad]),
            decreases n - i,
        {
            let c = target.get_char(i);
            if !('0' <= c && c <= '9') {
                ok = false;
                proof {
                    bad = i - 1;
                }
                assert(r[i - 1] == c);
            }
            i = i + 1;
        }
        if ok {
            assert(snapshot_reference(r)) by {
                assert(r[0] == target@[1]);
            }
            let reference = target.substring_char(1, n);
            assert(reference@ == r);
            let mut s = owned("[data-rustwright-agent-ref=\"");
            push_str(&mut s, reference);
            push_str(&mut s, "\"]");
            assert(s@ =~= reference_selector(r)) by {
                assert("[data-rustwright-agent-ref=\""@ == "["@ + ref_attribute() + "=\""@) by {
                    reveal_strlit("[data-rustwright-agent-ref=\"");
                    reveal_strlit("[");
                    reveal_strlit("data-rustwright-agent-ref");
                    reveal_strlit("=\"");
                    assert("[data-rustwright-agent-ref=\""@ =~= "["@ + ref_attribute() + "=\""@);
                }
            }
            Ok(s)
        } else {
            proof {
                if snapshot_reference(r) {
                    assert(r[0] == target@[1]);
                    assert(crate::text::is_digit(r[bad]));
                }
            }
            let mut e = owned("invalid snapshot reference ");
            let quoted = debug_string(target);
            push_str(&mut e, quoted.as_str());
            push_str(&mut e, "; expected @e followed by digits");
            assert(e@ =~= "invalid snapshot reference "@ + debug_quoted(target@)
                + "; expected @e followed by digits"@);
            Err(e)
        }
    } else if is_blank(target) {
        Err(owned("target must not be empty"))
    } else {
        Ok(owned(target))
    }
}

/// The selector that the `text` command reads: the target's selector, or the whole body.
pub fn text_selector(target: Option<&str>) -> (r: Result<String, String>)
    ensures
        target is None ==> (r matches Ok(s) && s@ == "body"@),
        target matches Some(t) ==> (r matches Ok(s) ==> target_selector(t@) == Ok::<
            Seq<char>,
            Seq<char>,
        >(s@)) && (r matches Err(e) ==> target_selector(t@) == Err::<Seq<char>, Seq<char>>(e@)),
{
    match target {
        Some(t) => selector_for_target(t),
        None => Ok(owned("body")),
    }
}

/// The error of a `text` command whose selector matched nothing.
pub fn text_not_found(selector: &str) -> (e: String)
    ensures
        e@ == "target "@ + debug_quoted(selector@) + " was not found"@,
{
    let mut e = owned("target ");
    let q = debug_string(selector);
    push_str(&mut e, q.as_str());
    push_str(&mut e, " was not found");
    e
}

/// The number of snapshot lines to collect for a request of `max_items`.
pub open spec fn snapshot_limit_spec(max_items: nat) -> Option<nat> {
    if max_items == 0 {
        None
    } else if max_items > MAX_SNAPSHOT_ITEMS {
        Some(MAX_SNAPSHOT_ITEMS as nat)
    } else {
        Some(max_items)
    }
}

/// Checks a snapshot size and caps it at [`MAX_SNAPSHOT_ITEMS`].
pub fn snapshot_limit(max_items: usize) -> (r: Result<usize, String>)
    ensures
        r matches Ok(n) ==> snapshot_limit_spec(max_items as nat) == Some(n as nat),
        r is Err <==> snapshot_limit_spec(max_items as nat) is None,
        r matches Err(e) ==> e@ == "max_items must be greater than zero"@,
{
    if max_items == 0 {
        Err(owned("max_items must be greater than zero"))
    } else if max_items > MAX_SNAPSHOT_ITEMS {
        Ok(MAX_SNAPSHOT_ITEMS)
    } else {
        Ok(max_items)
    }
}

/// The page script that collects a snapshot of at most `max_items` lines and tags each
/// interactive element with its reference attribute.
pub open spec fn snapshot_script_spec(max_items: nat) -> Seq<char> {
    r#"() => {
  const refAttr = "#@ + json_quoted(ref_attribute()) + r#";
  const maxItems = "#@ + decimal(max_items) + r#";
  document.querySelectorAll(`[${refAttr}]`).forEach(el => el.removeAttribute(refAttr));
  const normalize = value => String(value || '').replace(/\s+/g, ' ').trim();
  const visible = el => {
    const style = getComputedStyle(el);
    const rect = el.getBoundingClientRect();
    return style.display !== 'none' && style.visibility !== 'hidden' &&
      Number(style.opacity || 1) !== 0 && rect.width > 0 && rect.height > 0;
  };
  const explicitRole = el => el.getAttribute('role');
  const implicitRole = el => {
    const tag = el.tagName.toLowerCase();
    if (tag === 'a' && el.hasAttribute('href')) return 'link';
    if (tag === 'button') return 'button';
    if (tag === 'textarea') return 'textbox';
    if (tag === 'select') return 'combobox';
    if (tag === 'summary') return 'button';
    if (tag === 'img') return 'img';
    if (/^h[1-6]$/.test(tag)) return 'heading';
    if (tag === 'input') {
      const type = (el.getAttribute('type') || 'text').toLowerCase();
      if (type === 'checkbox') return 'checkbox';
      if (type === 'radio') return 'radio';
      if (['button', 'submit', 'reset'].includes(type)) return 'button';
      return 'textbox';
    }
    return '';
  };
  const interactive = el => {
    const tag = el.tagName.toLowerCase();
    return ['a', 'button', 'input', 'textarea', 'select', 'summary'].includes(tag) ||
      el.hasAttribute('role') || el.hasAttribute('onclick') ||
      el.hasAttribute('contenteditable') || el.tabIndex >= 0;
  };
  const name = el => normalize(
    (el.getAttribute('aria-labelledby') || '').split(/\s+/).filter(Boolean)
      .map(id => document.getElementById(id)).filter(Boolean)
      .map(node => node.innerText || node.textContent).join(' ') ||
    el.getAttribute('aria-label') ||
    (el.labels ? Array.from(el.labels).map(label => label.innerText || label.textContent).join(' ') : '') ||
    el.getAttribute('alt') ||
    el.getAttribute('placeholder') || el.getAttribute('title') ||
    (['INPUT', 'TEXTAREA', 'SELECT'].includes(el.tagName) ? el.value : '') ||
    el.innerText || el.textContent
  ).slice(0, 160);
  const lines = [];
  let refIndex = 0;
  let truncated = false;
  const nodes = Array.from(document.querySelectorAll('h1,h2,h3,h4,h5,h6,p,li,a,button,input,textarea,select,summary,[role],[contenteditable],[onclick],[tabindex]'));
  for (const el of nodes) {
    if (!visible(el)) continue;
    const isInteractive = interactive(el);
    const role = explicitRole(el) || implicitRole(el) || el.tagName.toLowerCase();
    const label = name(el);
    if (!isInteractive && !label) continue;
    if (lines.length >= maxItems) {
      truncated = true;
      break;
    }
    let ref = '';
    if (isInteractive) {
      ref = `e${++refIndex}`;
      el.setAttribute(refAttr, ref);
    }
    const checked = 'checked' in el && el.checked ? ' [checked]' : '';
    const disabled = el.disabled || el.getAttribute('aria-disabled') === 'true' ? ' [disabled]' : '';
    const refText = ref ? ` [ref=@${ref}]` : '';
    lines.push(`- ${role}${label ? ` "${label.replace(/"/g, '\\"')}"` : ''}${refText}${checked}${disabled}`);
  }
  return JSON.stringify({
    url: document.location.href,
    title: document.title,
    lines,
    truncated,
  });
}"#@
}

/// The JSON text of the string `s`, as `serde_json::to_string` writes it: in double
/// quotes, with quotes, backslashes and control characters escaped.
pub uninterp spec fn json_quoted(s: Seq<char>) -> Seq<char>;

/// Calls `serde_json::to_string` on a string slice. Serializing a string into the
/// in-memory buffer that `to_string` uses cannot fail, so the error arm is never taken.
#[verifier::external_body]
fn json_quote(s: &str) -> (r: String)
    ensures
        r@ == json_quoted(s@),
{
    serde_json::to_string(s).unwrap_or_default()
}

/// Builds the snapshot page script for `max_items` lines.
pub fn snapshot_script(max_items: usize) -> (s: String)
    ensures
        s@ == snapshot_script_spec(max_items as nat),
{
    let mut s = owned(r#"() => {
  const refAttr = "#);
    let attribute = json_quote("data-rustwright-agent-ref");
    push_str(&mut s, attribute.as_str());
    push_str(&mut s, r#";
  const maxItems = "#);
    push_decimal(&mut s, max_items as u64);
    push_str(&mut s, r#";
  document.querySelectorAll(`[${refAttr}]`).forEach(el => el.removeAttribute(refAttr));
  const normalize = value => String(value || '').replace(/\s+/g, ' ').trim();
  const visible = el => {
    const style = getComputedStyle(el);
    const rect = el.getBoundingClientRect();
    return style.display !== 'none' && style.visibility !== 'hidden' &&
      Number(style.opacity || 1) !== 0 && rect.width > 0 && rect.height > 0;
  };
  const explicitRole = el => el.getAttribute('role');
  const implicitRole = el => {
    const tag = el.tagName.toLowerCase();
    if (tag === 'a' && el.hasAttribute('href')) return 'link';
    if (tag === 'button') return 'button';
    if (tag === 'textarea') return 'textbox';
    if (tag === 'select') return 'combobox';
    if (tag === 'summary') return 'button';
    if (tag === 'img') return 'img';
    if (/^h[1-6]$/.test(tag)) return 'heading';
    if (tag === 'input') {
      const type = (el.getAttribute('type') || 'text').toLowerCase();
      if (type === 'checkbox') return 'checkbox';
      if (type === 'radio') return 'radio';
      if (['button', 'submit', 'reset'].includes(type)) return 'button';
      return 'textbox';
    }
    return '';
  };
  const interactive = el => {
    const tag = el.tagName.toLowerCase();
    return ['a', 'button', 'input', 'textarea', 'select', 'summary'].includes(tag) ||
      el.hasAttribute('role') || el.hasAttribute('onclick') ||
      el.hasAttribute('contenteditable') || el.tabIndex >= 0;
  };
  const name = el => normalize(
    (el.getAttribute('aria-labelledby') || '').split(/\s+/).filter(Boolean)
      .map(id => document.getElementById(id)).filter(Boolean)
      .map(node => node.innerText || node.textContent).join(' ') ||
    el.getAttribute('aria-label') ||
    (el.labels ? Array.from(el.labels).map(label => label.innerText || label.textContent).join(' ') : '') ||
    el.getAttribute('alt') ||
    el.getAttribute('placeholder') || el.getAttribute('title') ||
    (['INPUT', 'TEXTAREA', 'SELECT'].includes(el.tagName) ? el.value : '') ||
    el.innerText || el.textContent
  ).slice(0, 160);
  const lines = [];
  let refIndex = 0;
  let truncated = false;
  const nodes = Array.from(document.querySelectorAll('h1,h2,h3,h4,h5,h6,p,li,a,button,input,textarea,select,summary,[role],[contenteditable],[onclick],[tabindex]'));
  for (const el of nodes) {
    if (!visible(el)) continue;
    const isInteractive = interactive(el);
    const role = explicitRole(el) || implicitRole(el) || el.tagName.toLowerCase();
    const label = name(el);
    if (!isInteractive && !label) continue;
    if (lines.length >= maxItems) {
      truncated = true;
      break;
    }
    let ref = '';
    if (isInteractive) {
      ref = `e${++refIndex}`;
      el.setAttribute(refAttr, ref);
    }
    const checked = 'checked' in el && el.checked ? ' [checked]' : '';
    const disabled = el.disabled || el.getAttribute('aria-disabled') === 'true' ? ' [disabled]' : '';
    const refText = ref ? ` [ref=@${ref}]` : '';
    lines.push(`- ${role}${label ? ` "${label.replace(/"/g, '\\"')}"` : ''}${refText}${checked}${disabled}`);
  }
  return JSON.stringify({
    url: document.location.href,
    title: document.title,
    lines,
    truncated,
  });
}"#);
    s
}

/// What a page reports for a snapshot: its address, its title, one line per element and
/// whether lines were left out.
pub struct SnapshotPayload {
    pub url: String,
    pub title: String,
    pub lines: Vec<String>,
    pub truncated: bool,
}

/// The element lines of a snapshot, each on its own indented line.
pub open spec fn lines_text(lines: Seq<Seq<char>>) -> Seq<char>
    decreases lines.len(),
{
    if lines.len() == 0 {
        Seq::empty()
    } else {
        lines_text(lines.drop_last()) + "\n  "@ + lines.last()
    }
}

/// The text of a snapshot.
pub open spec fn snapshot_text(
    title: Seq<char>,
    url: Seq<char>,
    lines: Seq<Seq<char>>,
    truncated: bool,
) -> Seq<char> {
    "- page "@ + debug_quoted(title) + "\n  - url: "@ + url + lines_text(lines) + if truncated {
        "\n  - note: snapshot truncated"@
    } else {
        Seq::empty()
    }
}

/// The views of a list of strings.
pub open spec fn strings_view(lines: Seq<String>) -> Seq<Seq<char>> {
    lines.map_values(|l: String| l@)
}

/// Renders a snapshot payload as the outline that commands print.
pub fn render_snapshot(payload: &SnapshotPayload) -> (s: String)
    ensures
        s@ == snapshot_text(
            payload.title@,
            payload.url@,
            strings_view(payload.lines@),
            payload.truncated,
        ),
{
    let mut out = owned("- page ");
    let title = debug_string(payload.title.as_str());
    push_str(&mut out, title.as_str());
    push_str(&mut out, "\n  - url: ");
    push_str(&mut out, payload.url.as_str());
    let ghost head = out@;
    let ghost lines = strings_view(payload.lines@);
    let mut i: usize = 0;
    while i < payload.lines.len()
        invariant
            i <= payload.lines.len(),
            lines == strings_view(payload.lines@),
            out@ == head + lines_text(lines.subrange(0, i as int)),
        decreases payload.lines.len() - i,
    {
        push_str(&mut out, "\n  ");
        push_str(&mut out, payload.lines[i].as_str());
        proof {
            let next = lines.subrange(0, i + 1);
            assert(next.drop_last() =~= lines.subrange(0, i as int));
            assert(next.last() == payload.lines@[i as int]@);
        }
        i = i + 1;
    }
    assert(lines.subrange(0, payload.lines.len() as int) =~= lines);
    if payload.truncated {
        push_str(&mut out, "\n  - note: snapshot truncated");
    }
    assert(out@ =~= snapshot_text(payload.title@, payload.url@, lines, payload.truncated));
    out
}

/// The string that a JSON document `text` denotes when it is a single JSON string.
pub uninterp spec fn json_string_value(text: Seq<char>) -> Option<Seq<char>>;

/// Reads `text` as a JSON string with `serde_json::from_str::<String>`.
#[verifier::external_body]
fn parse_json_string(text: &str) -> (r: Option<String>)
    ensures
        r matches Some(s) ==> json_string_value(text@) == Some(s@),
        r is None ==> json_string_value(text@) is None,
{
    serde_json::from_str::<String>(text).ok()
}

/// The page address from the raw result of evaluating `document.location.href`: the
/// JSON string it encodes, or the raw text when it is not one.
pub fn url_from_evaluation(raw: String) -> (url: String)
    ensures
        url@ == (match json_string_value(raw@) {
            Some(s) => s,
            None => raw@,
        }),
{
    match parse_json_string(raw.as_str()) {
        Some(s) => s,
        None => raw,
    }
}

/// The JSON text that the snapshot script returned, as the string it encodes.
pub fn snapshot_payload_text(raw: &str) -> (r: Result<String, String>)
    ensures
        r matches Ok(s) ==> json_string_value(raw@) == Some(s@),
        r is Err <==> json_string_value(raw@) is None,
        r matches Err(e) ==> e@ == "snapshot script did not return a JSON string"@,
{
    match parse_json_string(raw) {
        Some(s) => Ok(s),
        None => Err(owned("snapshot script did not return a JSON string")),
    }
}

/// The value of an evaluation: the decoded JSON document when `raw` parsed as one
/// (`parsed`), else the raw text as a string.
pub fn decode_evaluation_document(parsed: Option<JsonValue>, raw: &str) -> (v: JsonValue)
    ensures
        v@ == decode_runtime(
            match parsed {
                Some(p) => p@,
                None => JsonView::Str(raw@),
            },
        ),
{
    match parsed {
        Some(p) => decode_runtime_value(p),
        None => decode_runtime_value(JsonValue::Str(owned(raw))),
    }
}

/// The value of an evaluation whose raw result is `raw`: the JSON document it holds with
/// the engine's envelopes unwrapped, or the raw text as a string when it is not JSON.
pub fn decode_evaluation(raw: &str) -> (v: JsonValue)
    ensures
        v@ == decode_runtime(
            match json_document(raw@) {
                Some(d) => d,
                None => JsonView::Str(raw@),
            },
        ),
{
    let parsed = parse_json_document(raw);
    decode_evaluation_document(parsed, raw)
}

/// The session's lifecycle flags.
pub struct SessionState {
    /// The session was closed and has not been opened again.
    pub closed: bool,
    /// The last attempt to start the browser failed.
    pub launch_failed: bool,
    /// A browser and its page are running.
    pub running: bool,
}

/// The closed flag of a session, closed or not (`closed`), after it accepts `action`:
/// `open` reopens it.
pub open spec fn closed_after(closed: bool, action: BrowserAction) -> bool {
    closed && !(action is Open)
}

/// Whether `action` is refused on a session in state `closed`.
pub open spec fn refused(closed: bool, action: BrowserAction) -> bool {
    closed && !allowed_when_closed(action)
}

impl SessionState {
    /// A fresh session: open, nothing launched.
    pub fn new() -> (s: SessionState)
        ensures
            !s.closed && !s.launch_failed && !s.running,
    {
        SessionState { closed: false, launch_failed: false, running: false }
    }

    /// Accepts `action`: a closed session refuses every command but `ping`, `open`,
    /// `status` and `close`; `open` reopens it.
    pub fn accept(&mut self, action: &BrowserAction) -> (r: Result<(), String>)
        ensures
            r is Err <==> refused(old(self).closed, *action),
            r matches Err(e) ==> e@
                == "browser session is closed; call open before another browser command"@,
            r is Err ==> *final(self) == *old(self),
            r is Ok ==> final(self).closed == closed_after(old(self).closed, *action),
            final(self).running == old(self).running,
            final(self).launch_failed == old(self).launch_failed,
    {
        let allowed = match action {
            BrowserAction::Ping | BrowserAction::Open { .. } | BrowserAction::Status
            | BrowserAction::Close => true,
            _ => false,
        };
        if self.closed && !allowed {
            return Err(owned("browser session is closed; call open before another browser command"));
        }
        if let BrowserAction::Open { .. } = action {
            self.closed = false;
        }
        Ok(())
    }

    /// Accepts a direct screenshot capture, which a closed session refuses.
    pub fn accept_screenshot(&self) -> (r: Result<(), String>)
        ensures
            r is Err <==> self.closed,
            r matches Err(e) ==> e@
                == "browser session is closed; call browser_open before another browser command"@,
    {
        if self.closed {
            Err(owned("browser session is closed; call browser_open before another browser command"))
        } else {
            Ok(())
        }
    }

    /// Whether a command must start the browser before it can use the page.
    pub fn needs_launch(&self) -> (r: bool)
        ensures
            r == !self.running,
    {
        !self.running
    }

    /// Records the outcome of starting the browser and its page.
    pub fn record_launch(&mut self, started: bool)
        ensures
            final(self).running == started,
            final(self).launch_failed == !started,
            final(self).closed == old(self).closed,
            *final(self) == session_after(*old(self), SessionEvent::Launch(started)),
    {
        if started {
            self.running = true;
            self.launch_failed = false;
        } else {
            self.running = false;
            self.launch_failed = true;
        }
    }

    /// Records that the session was closed: the browser is gone and a later launch
    /// starts afresh.
    pub fn record_close(&mut self)
        ensures
            final(self).closed,
            !final(self).running,
            !final(self).launch_failed,
            *final(self) == session_after(*old(self), SessionEvent::Close),
    {
        self.running = false;
        self.closed = true;
        self.launch_failed = false;
    }

    /// Records that the browser was taken down by a close that then failed: the session
    /// stays as it was, with no browser running.
    pub fn record_release(&mut self)
        ensures
            *final(self) == session_after(*old(self), SessionEvent::Released),
    {
        self.running = false;
    }

    /// The status of the session, with the address of its page if one is open.
    pub fn status(&self, url: Option<String>) -> (o: ActionOutcome)
        ensures
            o == (ActionOutcome::Status {
                running: self.running,
                launch_failed: self.launch_failed,
                url,
            }),
    {
        ActionOutcome::Status { running: self.running, launch_failed: self.launch_failed, url }
    }
}

/// An event that changes what a session reports about its browser.
pub enum SessionEvent {
    /// An attempt to start the browser and its page, and whether it succeeded.
    Launch(bool),
    /// The session was closed.
    Close,
    /// A close took the browser down and then failed.
    Released,
}

/// The session `s` after `event`.
pub open spec fn session_after(s: SessionState, event: SessionEvent) -> SessionState {
    match event {
        SessionEvent::Launch(ok) => SessionState { running: ok, launch_failed: !ok, ..s },
        SessionEvent::Close => SessionState { closed: true, running: false, launch_failed: false },
        SessionEvent::Released => SessionState { running: false, ..s },
    }
}

/// A fresh session after `events`, oldest first.
pub open spec fn session_history(events: Seq<SessionEvent>) -> SessionState
    decreases events.len(),
{
    if events.len() == 0 {
        SessionState { closed: false, launch_failed: false, running: false }
    } else {
        session_after(session_history(events.drop_last()), events.last())
    }
}

/// The latest event of `events` that was a launch or a close, if any.
pub open spec fn latest_launch_or_close(events: Seq<SessionEvent>) -> Option<SessionEvent>
    decreases events.len(),
{
    if events.len() == 0 {
        None
    } else if events.last() is Released {
        latest_launch_or_close(events.drop_last())
    } else {
        Some(events.last())
    }
}

/// What a command produced, from which its response is built.
#[allow(inconsistent_fields)]
pub enum ActionOutcome {
    Ready,
    Opened { url: String, title: String, snapshot: String },
    Snapshot { snapshot: String },
    Clicked { target: String, snapshot: String },
    Filled { target: String, snapshot: String },
    Text { target: Option<String>, text: String },
    Title { title: String },
    Url { url: String },
    Evaluated { value: JsonValue },
    Screenshot { path: String, bytes: usize },
    Waited { milliseconds: u64 },
    Status { running: bool, launch_failed: bool, url: Option<String> },
    Closed,
}

pub open spec fn str_view(s: String) -> JsonView {
    JsonView::Str(s@)
}

pub open spec fn opt_str_view(s: Option<String>) -> JsonView {
    match s {
        Some(t) => JsonView::Str(t@),
        None => JsonView::Null,
    }
}

/// The JSON response of a command, members in key order.
pub open spec fn response_view(outcome: ActionOutcome) -> JsonView {
    match outcome {
        ActionOutcome::Ready => JsonView::Object(seq![("status"@, JsonView::Str("ready"@))]),
        ActionOutcome::Opened { url, title, snapshot } => JsonView::Object(
            seq![("snapshot"@, str_view(snapshot)), ("title"@, str_view(title)), ("url"@, str_view(url))],
        ),
        ActionOutcome::Snapshot { snapshot } => JsonView::Object(
            seq![("snapshot"@, str_view(snapshot))],
        ),
        ActionOutcome::Clicked { target, snapshot } => JsonView::Object(
            seq![("clicked"@, str_view(target)), ("snapshot"@, str_view(snapshot))],
        ),
        ActionOutcome::Filled { target, snapshot } => JsonView::Object(
            seq![("filled"@, str_view(target)), ("snapshot"@, str_view(snapshot))],
        ),
        ActionOutcome::Text { target, text } => JsonView::Object(
            seq![("target"@, opt_str_view(target)), ("text"@, str_view(text))],
        ),
        ActionOutcome::Title { title } => JsonView::Object(seq![("title"@, str_view(title))]),
        ActionOutcome::Url { url } => JsonView::Object(seq![("url"@, str_view(url))]),
        ActionOutcome::Evaluated { value } => JsonView::Object(seq![("value"@, value@)]),
        ActionOutcome::Screenshot { path, bytes } => JsonView::Object(
            seq![
                ("bytes"@, JsonView::Number(JsonNumber::PosInt(bytes as u64))),
                ("path"@, str_view(path)),
            ],
        ),
        ActionOutcome::Waited { milliseconds } => JsonView::Object(
            seq![("waited_ms"@, JsonView::Number(JsonNumber::PosInt(milliseconds)))],
        ),
        ActionOutcome::Status { running, launch_failed, url } => JsonView::Object(
            seq![
                ("launch_failed"@, JsonView::Bool(launch_failed)),
                ("running"@, JsonView::Bool(running)),
                ("url"@, opt_str_view(url)),
            ],
        ),
        ActionOutcome::Closed => JsonView::Object(seq![("closed"@, JsonView::Bool(true))]),
    }
}

fn member(key: &str, value: JsonValue) -> (m: (String, JsonValue))
    ensures
        m.0@ == key@,
        m.1 == value,
{
    (owned(key), value)
}

fn opt_str_value(s: Option<String>) -> (v: JsonValue)
    ensures
        v@ == opt_str_view(s),
{
    match s {
        Some(t) => JsonValue::Str(t),
        None => JsonValue::Null,
    }
}

fn object_of(members: Vec<(String, JsonValue)>) -> (v: JsonValue)
    ensures
        v@ == JsonView::Object(crate::json::members_view(members@)),
        crate::json::members_view(members@).len() == members@.len(),
        forall|i: int|
            0 <= i < members@.len() ==> #[trigger] crate::json::members_view(members@)[i] == (
                members@[i].0@,
                members@[i].1@,
            ),
{
    proof {
        crate::json::lemma_members_view(members@);
    }
    JsonValue::Object(members)
}

/// Builds the JSON response of a command from what it produced.
pub fn action_response(outcome: ActionOutcome) -> (v: JsonValue)
    ensures
        v@ == response_view(outcome),
{
    let ghost o = outcome;
    let v = match outcome {
        ActionOutcome::Ready => object_of(vec![member("status", JsonValue::Str(owned("ready")))]),
        ActionOutcome::Opened { url, title, snapshot } => object_of(vec![
            member("snapshot", JsonValue::Str(snapshot)),
            member("title", JsonValue::Str(title)),
            member("url", JsonValue::Str(url)),
        ]),
        ActionOutcome::Snapshot { snapshot } => object_of(vec![member("snapshot", JsonValue::Str(snapshot))]),
        ActionOutcome::Clicked { target, snapshot } => object_of(vec![
            member("clicked", JsonValue::Str(target)),
            member("snapshot", JsonValue::Str(snapshot)),
        ]),
        ActionOutcome::Filled { target, snapshot } => object_of(vec![
            member("filled", JsonValue::Str(target)),
            member("snapshot", JsonValue::Str(snapshot)),
        ]),
        ActionOutcome::Text { target, text } => object_of(vec![
            member("target", opt_str_value(target)),
            member("text", JsonValue::Str(text)),
        ]),
        ActionOutcome::Title { title } => object_of(vec![member("title", JsonValue::Str(title))]),
        ActionOutcome::Url { url } => object_of(vec![member("url", JsonValue::Str(url))]),
        ActionOutcome::Evaluated { value } => object_of(vec![member("value", value)]),
        ActionOutcome::Screenshot { path, bytes } => object_of(vec![
            member("bytes", JsonValue::Number(JsonNumber::PosInt(bytes as u64))),
            member("path", JsonValue::Str(path)),
        ]),
        ActionOutcome::Waited { milliseconds } => object_of(vec![
            member("waited_ms", JsonValue::Number(JsonNumber::PosInt(milliseconds))),
        ]),
        ActionOutcome::Status { running, launch_failed, url } => object_of(vec![
            member("launch_failed", JsonValue::Bool(launch_failed)),
            member("running", JsonValue::Bool(running)),
            member("url", opt_str_value(url)),
        ]),
        ActionOutcome::Closed => object_of(vec![member("closed", JsonValue::Bool(true))]),
    };
    proof {
        match v@ {
            JsonView::Object(m) => {
                assert(m =~= response_view(o)->Object_0);
            },
            _ => {},
        }
    }
    v
}


/// The status of any session follows its history: a browser is running exactly when the
/// latest event was a successful launch, and the launch has failed exactly when the
/// latest launch or close was a failed launch.
pub proof fn law_status_follows_history(events: Seq<SessionEvent>)
    ensures
        session_history(events).running <==> (events.len() > 0 && events.last()
            == SessionEvent::Launch(true)),
        session_history(events).launch_failed <==> latest_launch_or_close(events) == Some(
            SessionEvent::Launch(false),
        ),
    decreases events.len(),
{
    if events.len() > 0 {
        law_status_follows_history(events.drop_last());
    }
}

/// Every ref that a snapshot prints, `[ref=@eN]`, is a target that selects the element
/// tagged `eN`.
pub proof fn law_printed_refs_are_targets(n: nat)
    ensures
        target_selector(seq!['@', 'e'] + decimal(n)) == Ok::<Seq<char>, Seq<char>>(
            reference_selector(seq!['e'] + decimal(n)),
        ),
{
    crate::text::lemma_decimal_shape(n);
    let t = seq!['@', 'e'] + decimal(n);
    let r = seq!['e'] + decimal(n);
    assert(t.skip(1) =~= r);
    assert forall|i: int| 1 <= i < r.len() implies #[trigger] crate::text::is_digit(r[i]) by {
        assert(r[i] == decimal(n)[i - 1]);
    }
}

/// Each member of a command's response carries the part of the outcome that its key
/// names: the `url` of an opened page is its address and its `title` its title, a click
/// names the ref it `clicked`, a screenshot its `path` and `bytes`, and so on; and the
/// response holds no other member.
pub proof fn law_response_members_carry_their_fields(o: ActionOutcome)
    ensures
        response_view(o) is Object,
        match o {
            ActionOutcome::Ready => response_view(o)->Object_0.len() == 1 && member_of(
                response_view(o),
                "status"@,
            ) == Some(JsonView::Str("ready"@)),
            ActionOutcome::Opened { url, title, snapshot } => response_view(o)->Object_0.len() == 3
                && member_of(response_view(o), "url"@) == Some(JsonView::Str(url@)) && member_of(
                response_view(o),
                "title"@,
            ) == Some(JsonView::Str(title@)) && member_of(response_view(o), "snapshot"@) == Some(
                JsonView::Str(snapshot@),
            ),
            ActionOutcome::Snapshot { snapshot } => response_view(o)->Object_0.len() == 1
                && member_of(response_view(o), "snapshot"@) == Some(JsonView::Str(snapshot@)),
            ActionOutcome::Clicked { target, snapshot } => response_view(o)->Object_0.len() == 2
                && member_of(response_view(o), "clicked"@) == Some(JsonView::Str(target@))
                && member_of(response_view(o), "snapshot"@) == Some(JsonView::Str(snapshot@)),
            ActionOutcome::Filled { target, snapshot } => response_view(o)->Object_0.len() == 2
                && member_of(response_view(o), "filled"@) == Some(JsonView::Str(target@))
                && member_of(response_view(o), "snapshot"@) == Some(JsonView::Str(snapshot@)),
            ActionOutcome::Text { target, text } => response_view(o)->Object_0.len() == 2
                && member_of(response_view(o), "target"@) == Some(
                match target {
                    Some(t) => JsonView::Str(t@),
                    None => JsonView::Null,
                },
            ) && member_of(response_view(o), "text"@) == Some(JsonView::Str(text@)),
            ActionOutcome::Title { title } => response_view(o)->Object_0.len() == 1 && member_of(
                response_view(o),
                "title"@,
            ) == Some(JsonView::Str(title@)),
            ActionOutcome::Url { url } => response_view(o)->Object_0.len() == 1 && member_of(
                response_view(o),
                "url"@,
            ) == Some(JsonView::Str(url@)),
            ActionOutcome::Evaluated { value } => response_view(o)->Object_0.len() == 1
                && member_of(response_view(o), "value"@) == Some(value@),
            ActionOutcome::Screenshot { path, bytes } => response_view(o)->Object_0.len() == 2
                && member_of(response_view(o), "path"@) == Some(JsonView::Str(path@)) && member_of(
                response_view(o),
                "bytes"@,
            ) == Some(JsonView::Number(JsonNumber::PosInt(bytes as u64))),
            ActionOutcome::Waited { milliseconds } => response_view(o)->Object_0.len() == 1
                && member_of(response_view(o), "waited_ms"@) == Some(
                JsonView::Number(JsonNumber::PosInt(milliseconds)),
            ),
            ActionOutcome::Status { running, launch_failed, url } => response_view(o)->Object_0.len()
                == 3 && member_of(response_view(o), "running"@) == Some(JsonView::Bool(running))
                && member_of(response_view(o), "launch_failed"@) == Some(
                JsonView::Bool(launch_failed),
            ) && member_of(response_view(o), "url"@) == Some(
                match url {
                    Some(u) => JsonView::Str(u@),
                    None => JsonView::Null,
                },
            ),
            ActionOutcome::Closed => response_view(o)->Object_0.len() == 1 && member_of(
                response_view(o),
                "closed"@,
            ) == Some(JsonView::Bool(true)),
        },
{
    reveal_strlit("status");
    reveal_strlit("snapshot");
    reveal_strlit("title");
    reveal_strlit("url");
    reveal_strlit("clicked");
    reveal_strlit("filled");
    reveal_strlit("target");
    reveal_strlit("text");
    reveal_strlit("bytes");
    reveal_strlit("path");
    reveal_strlit("launch_failed");
    reveal_strlit("running");
    let m = response_view(o)->Object_0;
    assert forall|a: int, b: int| 0 <= a < b < m.len() implies m[a].0 != m[b].0 by {
        assert(m[a].0.len() != m[b].0.len());
    }
    assert forall|i: int| 0 <= i < m.len() implies member_index(m, m[i].0) == Some(i) by {
        lemma_member_index_distinct(m, i);
    }
    if m.len() > 0 {
        assert(member_index(m, m[0].0) == Some(0int));
    }
    if m.len() > 1 {
        assert(member_index(m, m[1].0) == Some(1int));
    }
    if m.len() > 2 {
        assert(member_index(m, m[2].0) == Some(2int));
    }
}

/// A closed session refuses each browser command (snapshot, click, fill, text, title,
/// url, evaluate, screenshot and wait), whatever its arguments, until it is reopened; it
/// still answers ping, open, status and close.
pub proof fn law_closed_session_refuses_browser_commands(
    max_items: Option<usize>,
    target: String,
    text: String,
    text_target: Option<String>,
    expression: String,
    path: String,
    full_page: bool,
    milliseconds: u64,
    url: Option<String>,
)
    ensures
        refused(true, BrowserAction::Snapshot { max_items }),
        refused(true, BrowserAction::Click { target }),
        refused(true, BrowserAction::Fill { target, text }),
        refused(true, BrowserAction::Text { target: text_target }),
        refused(true, BrowserAction::Title),
        refused(true, BrowserAction::Url),
        refused(true, BrowserAction::Evaluate { expression }),
        refused(true, BrowserAction::Screenshot { path, full_page }),
        refused(true, BrowserAction::Wait { milliseconds }),
        !refused(true, BrowserAction::Ping),
        !refused(true, BrowserAction::Open { url }),
        !refused(true, BrowserAction::Status),
        !refused(true, BrowserAction::Close),
        closed_after(true, BrowserAction::Open { url }) == false,
        closed_after(true, BrowserAction::Ping) && closed_after(true, BrowserAction::Status)
            && closed_after(true, BrowserAction::Close),
{
}

/// A closed session refuses every command but `ping`, `open`, `status` and `close`;
/// `open` is accepted and reopens it, after which no command is refused.
pub proof fn law_closed_session_reopens(action: BrowserAction, next: BrowserAction)
    ensures
        refused(true, action) <==> !allowed_when_closed(action),
        action is Open ==> !refused(true, action) && !closed_after(true, action)
            && !refused(closed_after(true, action), next),
        !refused(false, action),
{
}

} // verus!

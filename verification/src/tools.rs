//! The MCP server's tool table, the checks on tool arguments, and the input schemas
//! that the server publishes for them.
use vstd::prelude::*;

use crate::json::{lemma_items_view, lemma_members_view, items_view, members_view, JsonNumber, JsonValue, JsonView};
use crate::text::{is_digit, str_equal};

verus! {

/// The tools that the server offers.
#[derive(Clone, Copy, Debug, PartialEq, Eq)]
pub enum ToolKind {
    Navigate,
    NavigateBack,
    NavigateForward,
    Snapshot,
    Click,
    Scroll,
    TakeScreenshot,
}

/// A row of the tool table: a tool, its published name and its description.
#[derive(Clone, Copy, Debug)]
pub struct ToolSpec {
    pub kind: ToolKind,
    pub name: &'static str,
    pub description: &'static str,
}

/// The tools in the order the server lists them.
pub open spec fn tool_order() -> Seq<ToolKind> {
    seq![
        ToolKind::Navigate,
        ToolKind::NavigateBack,
        ToolKind::NavigateForward,
        ToolKind::Snapshot,
        ToolKind::Click,
        ToolKind::Scroll,
        ToolKind::TakeScreenshot,
    ]
}

/// The published name of a tool.
pub open spec fn tool_name(kind: ToolKind) -> Seq<char> {
    match kind {
        ToolKind::Navigate => "browser_navigate"@,
        ToolKind::NavigateBack => "browser_navigate_back"@,
        ToolKind::NavigateForward => "browser_navigate_forward"@,
        ToolKind::Snapshot => "browser_snapshot"@,
        ToolKind::Click => "browser_click"@,
        ToolKind::Scroll => "browser_scroll"@,
        ToolKind::TakeScreenshot => "browser_take_screenshot"@,
    }
}

/// The published description of a tool.
pub open spec fn tool_description(kind: ToolKind) -> Seq<char> {
    match kind {
        ToolKind::Navigate => "Navigate the browser and return a compact page snapshot."@,
        ToolKind::NavigateBack => "Navigate back in browser history and return a compact page snapshot."@,
        ToolKind::NavigateForward => "Navigate forward in browser history and return a compact page snapshot."@,
        ToolKind::Snapshot => "Return a fresh compact snapshot of the current page."@,
        ToolKind::Click => "Click a ref from the latest snapshot and return a fresh snapshot."@,
        ToolKind::Scroll => "Scroll a snapshot ref into view or move the viewport, then return a fresh snapshot."@,
        ToolKind::TakeScreenshot => "Capture the current browser viewport as a PNG image. Oversized fallback files remain available until this server process shuts down."@,
    }
}

/// Whether `spec` is the table row of its tool.
pub open spec fn is_table_row(spec: ToolSpec) -> bool {
    spec.name@ == tool_name(spec.kind) && spec.description@ == tool_description(spec.kind)
}

/// The table row of `kind`.
pub fn tool_spec(kind: ToolKind) -> (spec: ToolSpec)
    ensures
        spec.kind == kind,
        is_table_row(spec),
{
    match kind {
        ToolKind::Navigate => ToolSpec {
            kind,
            name: "browser_navigate",
            description: "Navigate the browser and return a compact page snapshot.",
        },
        ToolKind::NavigateBack => ToolSpec {
            kind,
            name: "browser_navigate_back",
            description: "Navigate back in browser history and return a compact page snapshot.",
        },
        ToolKind::NavigateForward => ToolSpec {
            kind,
            name: "browser_navigate_forward",
            description: "Navigate forward in browser history and return a compact page snapshot.",
        },
        ToolKind::Snapshot => ToolSpec {
            kind,
            name: "browser_snapshot",
            description: "Return a fresh compact snapshot of the current page.",
        },
        ToolKind::Click => ToolSpec {
            kind,
            name: "browser_click",
            description: "Click a ref from the latest snapshot and return a fresh snapshot.",
        },
        ToolKind::Scroll => ToolSpec {
            kind,
            name: "browser_scroll",
            description: "Scroll a snapshot ref into view or move the viewport, then return a fresh snapshot.",
        },
        ToolKind::TakeScreenshot => ToolSpec {
            kind,
            name: "browser_take_screenshot",
            description: "Capture the current browser viewport as a PNG image. Oversized fallback files remain available until this server process shuts down.",
        },
    }
}

/// The whole tool table, in listing order.
pub fn tool_specs() -> (specs: Vec<ToolSpec>)
    ensures
        specs@.len() == tool_order().len(),
        forall|i: int| 0 <= i < specs@.len() ==> #[trigger] specs@[i].kind == tool_order()[i]
            && is_table_row(specs@[i]),
{
    let specs = vec![
        tool_spec(ToolKind::Navigate),
        tool_spec(ToolKind::NavigateBack),
        tool_spec(ToolKind::NavigateForward),
        tool_spec(ToolKind::Snapshot),
        tool_spec(ToolKind::Click),
        tool_spec(ToolKind::Scroll),
        tool_spec(ToolKind::TakeScreenshot),
    ];
    specs
}

/// Looks a tool up by its published name.
pub fn find_tool(name: &str) -> (r: Option<ToolSpec>)
    ensures
        r matches Some(spec) ==> is_table_row(spec) && spec.name@ == name@,
        r is None ==> forall|i: int| 0 <= i < tool_order().len() ==> tool_name(#[trigger] tool_order()[i]) != name@,
{
    let specs = tool_specs();
    let mut i: usize = 0;
    while i < specs.len()
        invariant
            i <= specs.len(),
            specs@.len() == tool_order().len(),
            forall|j: int| 0 <= j < specs@.len() ==> #[trigger] specs@[j].kind == tool_order()[j]
                && is_table_row(specs@[j]),
            forall|j: int| 0 <= j < i ==> tool_name(#[trigger] tool_order()[j]) != name@,
        decreases specs.len() - i,
    {
        if str_equal(specs[i].name, name) {
            return Some(specs[i]);
        }
        assert(specs@[i as int].kind == tool_order()[i as int] && is_table_row(specs@[i as int]));
        i = i + 1;
    }
    None
}

/// Every tool is listed, and no two tools share a published name, so looking a tool up
/// by the name of `a` finds `a` itself.
pub proof fn law_tool_names_identify_tools(a: ToolKind, b: ToolKind)
    ensures
        tool_order().contains(a),
        tool_name(a) == tool_name(b) ==> a == b,
{
    assert(tool_order()[0] == ToolKind::Navigate);
    assert(tool_order()[1] == ToolKind::NavigateBack);
    assert(tool_order()[2] == ToolKind::NavigateForward);
    assert(tool_order()[3] == ToolKind::Snapshot);
    assert(tool_order()[4] == ToolKind::Click);
    assert(tool_order()[5] == ToolKind::Scroll);
    assert(tool_order()[6] == ToolKind::TakeScreenshot);
    if tool_name(a) == tool_name(b) && a != b {
        reveal_strlit("browser_navigate");
        reveal_strlit("browser_navigate_back");
        reveal_strlit("browser_navigate_forward");
        reveal_strlit("browser_snapshot");
        reveal_strlit("browser_click");
        reveal_strlit("browser_scroll");
        reveal_strlit("browser_take_screenshot");
        assert(tool_name(a).len() == tool_name(b).len());
        assert(tool_name(a)[8] == tool_name(b)[8]);
    }
}

/// Whether `target` is a snapshot ref: `e` followed by a decimal number without a
/// leading zero (the pattern `^e[1-9][0-9]*$`).
pub open spec fn valid_ref(target: Seq<char>) -> bool {
    &&& target.len() >= 2
    &&& target[0] == 'e'
    &&& target[1] != '0'
    &&& forall|i: int| 1 <= i < target.len() ==> #[trigger] is_digit(target[i])
}

/// Checks that `target` is a snapshot ref.
pub fn is_valid_ref(target: &str) -> (r: bool)
    ensures
        r == valid_ref(target@),
{
    let n = target.unicode_len();
    if n < 2 || target.get_char(0) != 'e' || target.get_char(1) == '0' {
        return false;
    }
    let mut i: usize = 1;
    while i < n
        invariant
            n == target@.len(),
            1 <= i <= n,
            forall|j: int| 1 <= j < i ==> #[trigger] is_digit(target@[j]),
        decreases n - i,
    {
        let c = target.get_char(i);
        if !('0' <= c && c <= '9') {
            assert(!is_digit(target@[i as int]));
            return false;
        }
        i = i + 1;
    }
    true
}

/// A viewport scroll direction.
#[derive(Clone, Copy, Debug, PartialEq, Eq)]
pub enum ScrollDirection {
    Up,
    Down,
}

/// The arguments of one tool call, as decoded from the request.
///
/// Scroll distances are IEEE-754 binary64 values, held as their bit patterns.
#[allow(inconsistent_fields)]
pub enum ToolCall {
    Navigate { url: String },
    NavigateBack,
    NavigateForward,
    Snapshot,
    Click { target: String },
    Scroll { target: Option<String>, direction: Option<ScrollDirection>, pixels_bits: Option<u64> },
    TakeScreenshot,
}

/// An operation for the browser actor.
pub enum BrowserOp {
    Navigate(String),
    NavigateBack,
    NavigateForward,
    Snapshot,
    Click(String),
    ScrollTarget(String),
    /// Scroll the viewport vertically by a binary64 distance, held as its bit pattern.
    ScrollViewport(u64),
    TakeScreenshot,
}

/// The sign bit of a binary64 bit pattern.
pub const SIGN_BIT: u64 = 0x8000_0000_0000_0000;

/// The binary64 bit pattern of `500.0`, the default viewport scroll distance.
pub const DEFAULT_SCROLL_PIXELS_BITS: u64 = 0x407F_4000_0000_0000;

/// Whether the binary64 value with bit pattern `bits` is finite and greater than zero:
/// the sign is clear, the exponent is not all ones, and the value is not `+0.0`.
pub open spec fn positive_finite(bits: u64) -> bool {
    &&& bits < SIGN_BIT
    &&& bits / 0x10_0000_0000_0000 != 0x7ff
    &&& bits != 0
}

/// What a tool call asks the browser to do, or why it is refused.
pub open spec fn op_for(call: ToolCall) -> Result<BrowserOp, Seq<char>> {
    match call {
        ToolCall::Navigate { url } => if url@.len() == 0 {
            Err("url must be a non-empty string"@)
        } else {
            Ok(BrowserOp::Navigate(url))
        },
        ToolCall::NavigateBack => Ok(BrowserOp::NavigateBack),
        ToolCall::NavigateForward => Ok(BrowserOp::NavigateForward),
        ToolCall::Snapshot => Ok(BrowserOp::Snapshot),
        ToolCall::Click { target } => if valid_ref(target@) {
            Ok(BrowserOp::Click(target))
        } else {
            Err("target must match ^e[1-9][0-9]*$"@)
        },
        ToolCall::Scroll { target, direction, pixels_bits } => match (target, direction) {
            (Some(_), Some(_)) => Err("target and direction are mutually exclusive"@),
            (None, None) => Err("exactly one of target or direction is required"@),
            (Some(t), None) => if pixels_bits is Some {
                Err("pixels can only be used with direction"@)
            } else if !valid_ref(t@) {
                Err("target must match ^e[1-9][0-9]*$"@)
            } else {
                Ok(BrowserOp::ScrollTarget(t))
            },
            (None, Some(d)) => {
                let bits = match pixels_bits {
                    Some(b) => b,
                    None => DEFAULT_SCROLL_PIXELS_BITS,
                };
                if !positive_finite(bits) {
                    Err("pixels must be a finite number greater than 0"@)
                } else if d is Up {
                    Ok(BrowserOp::ScrollViewport((bits + SIGN_BIT) as u64))
                } else {
                    Ok(BrowserOp::ScrollViewport(bits))
                }
            },
        },
        ToolCall::TakeScreenshot => Ok(BrowserOp::TakeScreenshot),
    }
}

fn owned(s: &str) -> (r: String)
    ensures
        r@ == s@,
{
    s.to_owned()
}

/// A viewport scroll moves by the distance asked for: a finite positive distance `p`
/// scrolls down by exactly `p` and up by exactly `p` with the sign bit set (so the two
/// differ only in sign); without a distance it scrolls 500 px. A scroll to a valid ref
/// scrolls to that ref, a click on a valid ref clicks that ref, and a navigation to a
/// non-empty address goes to that address.
pub proof fn law_operations_carry_their_arguments(p: u64, target: String, url: String)
    ensures
        positive_finite(p) ==> op_for(
            ToolCall::Scroll { target: None, direction: Some(ScrollDirection::Down), pixels_bits: Some(p) },
        ) == Ok::<BrowserOp, Seq<char>>(BrowserOp::ScrollViewport(p)),
        positive_finite(p) ==> p < SIGN_BIT && op_for(
            ToolCall::Scroll { target: None, direction: Some(ScrollDirection::Up), pixels_bits: Some(p) },
        ) == Ok::<BrowserOp, Seq<char>>(BrowserOp::ScrollViewport((p + SIGN_BIT) as u64)),
        op_for(
            ToolCall::Scroll { target: None, direction: Some(ScrollDirection::Down), pixels_bits: None },
        ) == Ok::<BrowserOp, Seq<char>>(BrowserOp::ScrollViewport(DEFAULT_SCROLL_PIXELS_BITS)),
        valid_ref(target@) ==> op_for(
            ToolCall::Scroll { target: Some(target), direction: None, pixels_bits: None },
        ) == Ok::<BrowserOp, Seq<char>>(BrowserOp::ScrollTarget(target)),
        valid_ref(target@) ==> op_for(ToolCall::Click { target }) == Ok::<BrowserOp, Seq<char>>(
            BrowserOp::Click(target),
        ),
        url@.len() > 0 ==> op_for(ToolCall::Navigate { url }) == Ok::<BrowserOp, Seq<char>>(
            BrowserOp::Navigate(url),
        ),
{
}

/// A tool call is refused exactly when its arguments break the published contract: a
/// scroll with both a target and a direction, with neither, with a distance but no
/// direction, to a string that is not a ref, or by a distance that is not a finite
/// number above zero (zero, negative, infinite or not a number); a click on a string
/// that is not a ref; a navigation to an empty address. Calls without arguments are
/// always accepted.
pub proof fn law_invalid_arguments_are_refused(
    target: String,
    direction: ScrollDirection,
    p: Option<u64>,
    url: String,
)
    ensures
        op_for(ToolCall::Scroll { target: Some(target), direction: Some(direction), pixels_bits: p }) is Err,
        op_for(ToolCall::Scroll { target: None, direction: None, pixels_bits: p }) is Err,
        p is Some ==> op_for(ToolCall::Scroll { target: Some(target), direction: None, pixels_bits: p }) is Err,
        !valid_ref(target@) ==> op_for(ToolCall::Scroll { target: Some(target), direction: None, pixels_bits: p }) is Err,
        !valid_ref(target@) ==> op_for(ToolCall::Click { target }) is Err,
        url@.len() == 0 ==> op_for(ToolCall::Navigate { url }) is Err,
        p matches Some(b) && (b == 0 || b >= SIGN_BIT || b / 0x10_0000_0000_0000 == 0x7ff) ==> op_for(
            ToolCall::Scroll { target: None, direction: Some(direction), pixels_bits: p },
        ) is Err,
        p matches Some(b) && 0 < b < SIGN_BIT && b / 0x10_0000_0000_0000 != 0x7ff ==> op_for(
            ToolCall::Scroll { target: None, direction: Some(direction), pixels_bits: p },
        ) is Ok,
        op_for(ToolCall::NavigateBack) == Ok::<BrowserOp, Seq<char>>(BrowserOp::NavigateBack),
        op_for(ToolCall::NavigateForward) == Ok::<BrowserOp, Seq<char>>(BrowserOp::NavigateForward),
        op_for(ToolCall::Snapshot) == Ok::<BrowserOp, Seq<char>>(BrowserOp::Snapshot),
        op_for(ToolCall::TakeScreenshot) == Ok::<BrowserOp, Seq<char>>(BrowserOp::TakeScreenshot),
{
}

/// Checks the decoded arguments of a tool call and turns them into a browser operation.
pub fn parse_op(call: ToolCall) -> (r: Result<BrowserOp, String>)
    ensures
        r matches Ok(op) ==> op_for(call) == Ok::<BrowserOp, Seq<char>>(op),
        r matches Err(e) ==> op_for(call) == Err::<BrowserOp, Seq<char>>(e@),
{
    match call {
        ToolCall::Navigate { url } => {
            if url.unicode_len() == 0 {
                Err(owned("url must be a non-empty string"))
            } else {
                Ok(BrowserOp::Navigate(url))
            }
        },
        ToolCall::NavigateBack => Ok(BrowserOp::NavigateBack),
        ToolCall::NavigateForward => Ok(BrowserOp::NavigateForward),
        ToolCall::Snapshot => Ok(BrowserOp::Snapshot),
        ToolCall::Click { target } => {
            if !is_valid_ref(target.as_str()) {
                Err(owned("target must match ^e[1-9][0-9]*$"))
            } else {
                Ok(BrowserOp::Click(target))
            }
        },
        ToolCall::Scroll { target, direction, pixels_bits } => match (target, direction) {
            (Some(_), Some(_)) => Err(owned("target and direction are mutually exclusive")),
            (None, None) => Err(owned("exactly one of target or direction is required")),
            (Some(t), None) => {
                if pixels_bits.is_some() {
                    Err(owned("pixels can only be used with direction"))
                } else if !is_valid_ref(t.as_str()) {
                    Err(owned("target must match ^e[1-9][0-9]*$"))
                } else {
                    Ok(BrowserOp::ScrollTarget(t))
                }
            },
            (None, Some(d)) => {
                let bits = match pixels_bits {
                    Some(b) => b,
                    None => DEFAULT_SCROLL_PIXELS_BITS,
                };
                if !(bits < SIGN_BIT && bits / 0x10_0000_0000_0000 != 0x7ff && bits != 0) {
                    Err(owned("pixels must be a finite number greater than 0"))
                } else {
                    match d {
                        ScrollDirection::Up => Ok(BrowserOp::ScrollViewport(bits + SIGN_BIT)),
                        ScrollDirection::Down => Ok(BrowserOp::ScrollViewport(bits)),
                    }
                }
            },
        },
        ToolCall::TakeScreenshot => Ok(BrowserOp::TakeScreenshot),
    }
}

pub open spec fn jstr(s: Seq<char>) -> JsonView {
    JsonView::Str(s)
}

pub open spec fn jobj(m: Seq<(Seq<char>, JsonView)>) -> JsonView {
    JsonView::Object(m)
}

/// The schema of a tool that takes no arguments.
pub open spec fn empty_schema() -> JsonView {
    jobj(
        seq![
            ("additionalProperties"@, JsonView::Bool(false)),
            ("properties"@, jobj(Seq::empty())),
            ("type"@, jstr("object"@)),
        ],
    )
}

/// The schema of a string argument with a description.
pub open spec fn described_string(description: Seq<char>) -> JsonView {
    jobj(seq![("description"@, jstr(description)), ("type"@, jstr("string"@))])
}

/// The schema of a snapshot-ref argument with a description.
pub open spec fn ref_property(description: Seq<char>) -> JsonView {
    jobj(
        seq![
            ("description"@, jstr(description)),
            ("pattern"@, jstr("^e[1-9][0-9]*$"@)),
            ("type"@, jstr("string"@)),
        ],
    )
}

/// `{"required": [name]}`.
pub open spec fn requires_one(name: Seq<char>) -> JsonView {
    jobj(seq![("required"@, JsonView::Array(seq![jstr(name)]))])
}

/// The input schema that the server publishes for a tool, members in key order.
pub open spec fn schema_view(kind: ToolKind) -> JsonView {
    match kind {
        ToolKind::Navigate => jobj(
            seq![
                ("additionalProperties"@, JsonView::Bool(false)),
                ("properties"@, jobj(seq![("url"@, described_string("URL to navigate to"@))])),
                ("required"@, JsonView::Array(seq![jstr("url"@)])),
                ("type"@, jstr("object"@)),
            ],
        ),
        ToolKind::Click => jobj(
            seq![
                ("additionalProperties"@, JsonView::Bool(false)),
                (
                    "properties"@,
                    jobj(
                        seq![
                            (
                                "target"@,
                                ref_property("Ref from the latest snapshot, such as e3"@),
                            ),
                        ],
                    ),
                ),
                ("required"@, JsonView::Array(seq![jstr("target"@)])),
                ("type"@, jstr("object"@)),
            ],
        ),
        ToolKind::Scroll => jobj(
            seq![
                ("additionalProperties"@, JsonView::Bool(false)),
                (
                    "oneOf"@,
                    JsonView::Array(
                        seq![
                            jobj(
                                seq![
                                    (
                                        "not"@,
                                        jobj(
                                            seq![
                                                (
                                                    "anyOf"@,
                                                    JsonView::Array(
                                                        seq![
                                                            requires_one("direction"@),
                                                            requires_one("pixels"@),
                                                        ],
                                                    ),
                                                ),
                                            ],
                                        ),
                                    ),
                                    ("required"@, JsonView::Array(seq![jstr("target"@)])),
                                ],
                            ),
                            jobj(
                                seq![
                                    ("not"@, requires_one("target"@)),
                                    ("required"@, JsonView::Array(seq![jstr("direction"@)])),
                                ],
                            ),
                        ],
                    ),
                ),
                (
                    "properties"@,
                    jobj(
                        seq![
                            (
                                "direction"@,
                                jobj(
                                    seq![
                                        ("description"@, jstr("Viewport scroll direction"@)),
                                        (
                                            "enum"@,
                                            JsonView::Array(seq![jstr("up"@), jstr("down"@)]),
                                        ),
                                        ("type"@, jstr("string"@)),
                                    ],
                                ),
                            ),
                            (
                                "pixels"@,
                                jobj(
                                    seq![
                                        (
                                            "description"@,
                                            jstr("Viewport scroll distance; defaults to 500"@),
                                        ),
                                        (
                                            "exclusiveMinimum"@,
                                            JsonView::Number(JsonNumber::PosInt(0)),
                                        ),
                                        ("type"@, jstr("number"@)),
                                    ],
                                ),
                            ),
                            (
                                "target"@,
                                ref_property("Ref from the latest snapshot to scroll into view"@),
                            ),
                        ],
                    ),
                ),
                ("type"@, jstr("object"@)),
            ],
        ),
        _ => empty_schema(),
    }
}

fn text_value(s: &str) -> (v: JsonValue)
    ensures
        v@ == jstr(s@),
{
    JsonValue::Str(owned(s))
}

fn object_value(members: Vec<(String, JsonValue)>) -> (v: JsonValue)
    ensures
        v@ == jobj(members_view(members@)),
        members_view(members@).len() == members@.len(),
        forall|i: int|
            0 <= i < members@.len() ==> #[trigger] members_view(members@)[i] == (
                members@[i].0@,
                members@[i].1@,
            ),
{
    proof {
        lemma_members_view(members@);
    }
    JsonValue::Object(members)
}

fn array_value(items: Vec<JsonValue>) -> (v: JsonValue)
    ensures
        v@ == JsonView::Array(items_view(items@)),
        items_view(items@).len() == items@.len(),
        forall|i: int| 0 <= i < items@.len() ==> #[trigger] items_view(items@)[i] == items@[i]@,
{
    proof {
        lemma_items_view(items@);
    }
    JsonValue::Array(items)
}

fn entry(key: &str, value: JsonValue) -> (m: (String, JsonValue))
    ensures
        m.0@ == key@,
        m.1 == value,
{
    (owned(key), value)
}

fn empty_schema_value() -> (v: JsonValue)
    ensures
        v@ == empty_schema(),
{
    let props = object_value(Vec::new());
    let v = object_value(
        vec![
            entry("additionalProperties", JsonValue::Bool(false)),
            entry("properties", props),
            entry("type", text_value("object")),
        ],
    );
    assert(v@->Object_0 =~= empty_schema()->Object_0);
    assert(props@->Object_0 =~= Seq::<(Seq<char>, JsonView)>::empty());
    v
}

fn ref_property_value(description: &str) -> (v: JsonValue)
    ensures
        v@ == ref_property(description@),
{
    let v = object_value(
        vec![
            entry("description", text_value(description)),
            entry("pattern", text_value("^e[1-9][0-9]*$")),
            entry("type", text_value("string")),
        ],
    );
    assert(v@->Object_0 =~= ref_property(description@)->Object_0);
    v
}

fn requires_one_value(name: &str) -> (v: JsonValue)
    ensures
        v@ == requires_one(name@),
{
    let names = array_value(vec![text_value(name)]);
    assert(names@->Array_0 =~= seq![jstr(name@)]);
    let v = object_value(vec![entry("required", names)]);
    assert(v@->Object_0 =~= requires_one(name@)->Object_0);
    v
}

fn object_schema(properties: JsonValue, required: Option<&str>) -> (v: JsonValue)
    ensures
        v@ == jobj(
            match required {
                Some(r) => seq![
                    ("additionalProperties"@, JsonView::Bool(false)),
                    ("properties"@, properties@),
                    ("required"@, JsonView::Array(seq![jstr(r@)])),
                    ("type"@, jstr("object"@)),
                ],
                None => seq![
                    ("additionalProperties"@, JsonView::Bool(false)),
                    ("properties"@, properties@),
                    ("type"@, jstr("object"@)),
                ],
            },
        ),
{
    match required {
        Some(r) => {
            let names = array_value(vec![text_value(r)]);
            assert(names@->Array_0 =~= seq![jstr(r@)]);
            let v = object_value(
                vec![
                    entry("additionalProperties", JsonValue::Bool(false)),
                    entry("properties", properties),
                    entry("required", names),
                    entry("type", text_value("object")),
                ],
            );
            assert(v@->Object_0 =~= seq![
                ("additionalProperties"@, JsonView::Bool(false)),
                ("properties"@, properties@),
                ("required"@, JsonView::Array(seq![jstr(r@)])),
                ("type"@, jstr("object"@)),
            ]);
            v
        },
        None => {
            let v = object_value(
                vec![
                    entry("additionalProperties", JsonValue::Bool(false)),
                    entry("properties", properties),
                    entry("type", text_value("object")),
                ],
            );
            assert(v@->Object_0 =~= seq![
                ("additionalProperties"@, JsonView::Bool(false)),
                ("properties"@, properties@),
                ("type"@, jstr("object"@)),
            ]);
            v
        },
    }
}

fn scroll_schema() -> (v: JsonValue)
    ensures
        v@ == schema_view(ToolKind::Scroll),
{
    let any_of = array_value(vec![requires_one_value("direction"), requires_one_value("pixels")]);
    let not_other = object_value(vec![entry("anyOf", any_of)]);
    let target_names = array_value(vec![text_value("target")]);
    let by_target = object_value(vec![entry("not", not_other), entry("required", target_names)]);
    let direction_names = array_value(vec![text_value("direction")]);
    let by_direction = object_value(
        vec![entry("not", requires_one_value("target")), entry("required", direction_names)],
    );
    let one_of = array_value(vec![by_target, by_direction]);
    let directions = array_value(vec![text_value("up"), text_value("down")]);
    let direction = object_value(
        vec![
            entry("description", text_value("Viewport scroll direction")),
            entry("enum", directions),
            entry("type", text_value("string")),
        ],
    );
    let pixels = object_value(
        vec![
            entry("description", text_value("Viewport scroll distance; defaults to 500")),
            entry("exclusiveMinimum", JsonValue::Number(JsonNumber::PosInt(0))),
            entry("type", text_value("number")),
        ],
    );
    let properties = object_value(
        vec![
            entry("direction", direction),
            entry("pixels", pixels),
            entry("target", ref_property_value("Ref from the latest snapshot to scroll into view")),
        ],
    );
    let v = object_value(
        vec![
            entry("additionalProperties", JsonValue::Bool(false)),
            entry("oneOf", one_of),
            entry("properties", properties),
            entry("type", text_value("object")),
        ],
    );
    let ghost want = schema_view(ToolKind::Scroll)->Object_0;
    assert(any_of@->Array_0 =~= seq![requires_one("direction"@), requires_one("pixels"@)]);
    assert(not_other@->Object_0 =~= want[1].1->Array_0[0]->Object_0[0].1->Object_0);
    assert(target_names@->Array_0 =~= seq![jstr("target"@)]);
    assert(by_target@->Object_0 =~= want[1].1->Array_0[0]->Object_0);
    assert(direction_names@->Array_0 =~= seq![jstr("direction"@)]);
    assert(by_direction@->Object_0 =~= want[1].1->Array_0[1]->Object_0);
    assert(one_of@->Array_0 =~= want[1].1->Array_0);
    assert(directions@->Array_0 =~= seq![jstr("up"@), jstr("down"@)]);
    assert(direction@->Object_0 =~= want[2].1->Object_0[0].1->Object_0);
    assert(pixels@->Object_0 =~= want[2].1->Object_0[1].1->Object_0);
    assert(properties@->Object_0 =~= want[2].1->Object_0);
    assert(v@->Object_0 =~= want);
    v
}

/// Builds the input schema that the server publishes for `kind`.
pub fn schema(kind: ToolKind) -> (v: JsonValue)
    ensures
        v@ == schema_view(kind),
{
    match kind {
        ToolKind::Navigate => {
            let url = object_value(
                vec![
                    entry("description", text_value("URL to navigate to")),
                    entry("type", text_value("string")),
                ],
            );
            assert(url@->Object_0 =~= described_string("URL to navigate to"@)->Object_0);
            let props = object_value(vec![entry("url", url)]);
            assert(props@->Object_0 =~= seq![("url"@, described_string("URL to navigate to"@))]);
            object_schema(props, Some("url"))
        },
        ToolKind::Click => {
            let props = object_value(
                vec![entry("target", ref_property_value("Ref from the latest snapshot, such as e3"))],
            );
            assert(props@->Object_0 =~= seq![
                ("target"@, ref_property("Ref from the latest snapshot, such as e3"@)),
            ]);
            object_schema(props, Some("target"))
        },
        ToolKind::Scroll => scroll_schema(),
        _ => empty_schema_value(),
    }
}

} // verus!

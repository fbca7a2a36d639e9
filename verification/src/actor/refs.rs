//! Snapshot refs: which element refs the latest snapshot handed out, and the counter
//! that keeps refs from ever being handed out twice in a session.
use vstd::prelude::*;

use super::error::{owned, BrowserError, ErrorView};
use crate::json::{find_member, lemma_members_view, JsonNumber, JsonValue, JsonView};
use crate::text::{
    canonical_digits, decimal, digits_value, is_digit, lemma_canonical_is_decimal,
    lemma_decimal_shape, parse_unsigned, parse_unsigned_str, push_decimal, push_str,
};
use crate::tools::{is_valid_ref, valid_ref};

verus! {

/// The name of ref number `n`.
pub open spec fn ref_name(n: nat) -> Seq<char> {
    seq!['e'] + decimal(n)
}

/// The refs of a session: the counter of the next ref to hand out, and the numbers
/// `lo..hi` of the refs that the latest snapshot handed out (none when `lo == hi`).
pub struct RefState {
    pub next: nat,
    pub lo: nat,
    pub hi: nat,
}

/// Whether `target` names a ref of state `s`.
pub open spec fn is_current(s: RefState, target: Seq<char>) -> bool {
    exists|n: nat| s.lo <= n < s.hi && target == #[trigger] ref_name(n)
}

/// The first ref number a snapshot in state `s` hands out.
pub open spec fn start_of(s: RefState) -> nat {
    if s.next == 0 {
        1
    } else {
        s.next
    }
}

/// The state after a snapshot that reports `reported` as its next ref, or `None` when the
/// counter would go backwards.
pub open spec fn after_snapshot(s: RefState, reported: nat) -> Option<RefState> {
    if reported < start_of(s) {
        None
    } else {
        Some(RefState { next: reported, lo: start_of(s), hi: reported })
    }
}

/// The same counter with no current refs.
pub open spec fn cleared(s: RefState) -> RefState {
    RefState { next: s.next, lo: 0, hi: 0 }
}

/// The name of a positive ref number passes the ref pattern and reads back as that number.
pub proof fn lemma_ref_name_valid(n: nat)
    requires
        n >= 1,
    ensures
        valid_ref(ref_name(n)),
        digits_value(ref_name(n).skip(1)) == n,
{
    lemma_decimal_shape(n);
    let t = ref_name(n);
    assert(t.skip(1) =~= decimal(n));
    assert forall|i: int| 1 <= i < t.len() implies #[trigger] is_digit(t[i]) by {
        assert(t[i] == decimal(n)[i - 1]);
    }
    assert(t[1] == decimal(n)[0]);
}

/// A string that passes the ref pattern is the name of its own number, which is positive.
pub proof fn lemma_valid_ref_is_name(t: Seq<char>)
    requires
        valid_ref(t),
    ensures
        t == ref_name(digits_value(t.skip(1))),
        digits_value(t.skip(1)) >= 1,
{
    let d = t.skip(1);
    assert forall|i: int| 0 <= i < d.len() implies #[trigger] is_digit(d[i]) by {
        assert(d[i] == t[i + 1]);
    }
    assert(canonical_digits(d));
    lemma_canonical_is_decimal(d);
    assert(t =~= seq!['e'] + d);
    lemma_decimal_shape(digits_value(d));
    if digits_value(d) == 0 {
        assert(decimal(0) =~= seq!['0']);
        assert(d[0] == '0');
    }
}

/// The selector of the element that carries ref `target` in a snapshot of this server.
pub open spec fn mcp_ref_selector_spec(target: Seq<char>) -> Seq<char> {
    "[data-mcp-ref=\""@ + target + "\"]"@
}

/// The selector of the element that carries ref `target`.
pub fn mcp_ref_selector(target: &str) -> (s: String)
    ensures
        s@ == mcp_ref_selector_spec(target@),
{
    let mut s = owned("[data-mcp-ref=\"");
    push_str(&mut s, target);
    push_str(&mut s, "\"]");
    s
}

/// The refs of a browser session.
pub struct RefTracker {
    next_ref: u64,
    lo: u64,
    hi: u64,
}

impl View for RefTracker {
    type V = RefState;

    closed spec fn view(&self) -> RefState {
        RefState { next: self.next_ref as nat, lo: self.lo as nat, hi: self.hi as nat }
    }
}

impl RefTracker {
    /// The invariant: current refs, if any, lie below the counter and start at one or more.
    pub open spec fn wf(&self) -> bool {
        &&& self@.lo <= self@.hi <= self@.next
        &&& self@.lo < self@.hi ==> self@.lo >= 1
        &&& self@.next <= u64::MAX
    }

    /// A session that has handed out no refs.
    pub fn new() -> (t: RefTracker)
        ensures
            t.wf(),
            t@ == (RefState { next: 0, lo: 0, hi: 0 }),
    {
        RefTracker { next_ref: 0, lo: 0, hi: 0 }
    }

    /// The first ref number the next snapshot hands out.
    pub fn start_ref(&self) -> (n: u64)
        ensures
            n == start_of(self@),
    {
        if self.next_ref == 0 {
            1
        } else {
            self.next_ref
        }
    }

    /// Forgets the current refs (the page changed).
    pub fn clear(&mut self)
        requires
            old(self).wf(),
        ensures
            final(self).wf(),
            final(self)@ == cleared(old(self)@),
    {
        self.lo = 0;
        self.hi = 0;
    }

    /// Whether `target` is a ref of the latest snapshot.
    pub fn contains(&self, target: &str) -> (r: bool)
        requires
            self.wf(),
        ensures
            r == is_current(self@, target@),
    {
        if !is_valid_ref(target) {
            proof {
                if is_current(self@, target@) {
                    let n = choose|n: nat| self@.lo <= n < self@.hi && target@ == #[trigger] ref_name(n);
                    lemma_ref_name_valid(n);
                }
            }
            return false;
        }
        proof {
            lemma_valid_ref_is_name(target@);
        }
        let len = target.unicode_len();
        let digits = target.substring_char(1, len);
        assert(digits@ == target@.skip(1));
        let parsed = parse_unsigned_str(digits, u64::MAX);
        let ghost v = digits_value(target@.skip(1));
        proof {
            assert(is_digit(target@[1]));
            assert(digits@[0] == target@[1]);
            assert(digits@.len() > 0 && digits@[0] != '+');
            assert(crate::text::unsigned_digits(digits@) == digits@);
            assert forall|i: int| 0 <= i < digits@.len() implies #[trigger] is_digit(digits@[i]) by {
                assert(digits@[i] == target@[i + 1]);
            }
        }
        let r = match parsed {
            Some(n) => self.lo <= n && n < self.hi,
            None => false,
        };
        proof {
            if r {
                assert(self@.lo <= v < self@.hi && target@ == ref_name(v));
            }
            if is_current(self@, target@) {
                let n = choose|n: nat| self@.lo <= n < self@.hi && target@ == #[trigger] ref_name(n);
                assert(decimal(n) =~= target@.skip(1));
                assert(decimal(v) =~= target@.skip(1));
                crate::text::lemma_decimal_injective(n, v);
            }
        }
        r
    }

    /// Admits an action on ref `target`: a ref that the latest snapshot did not hand out
    /// is refused; otherwise every ref is forgotten, so that a retry after a failure can
    /// never act twice on the same ref.
    pub fn begin_ref_action(&mut self, target: &str) -> (r: Result<(), BrowserError>)
        requires
            old(self).wf(),
        ensures
            final(self).wf(),
            r is Ok <==> is_current(old(self)@, target@),
            r is Ok ==> final(self)@ == cleared(old(self)@),
            r matches Err(e) ==> final(self)@ == old(self)@ && e@ == ErrorView::Message(
                "unknown or stale ref "@ + target@
                    + "; call browser_snapshot and use its latest refs"@,
            ),
    {
        if !self.contains(target) {
            let mut m = owned("unknown or stale ref ");
            push_str(&mut m, target);
            push_str(&mut m, "; call browser_snapshot and use its latest refs");
            return Err(BrowserError::Message(m));
        }
        self.clear();
        Ok(())
    }

    /// Records a snapshot that reported `reported` as its next ref: its refs become the
    /// current ones. A counter that would go backwards is refused and changes nothing.
    pub fn accept_snapshot(&mut self, reported: u64) -> (r: Result<(), BrowserError>)
        requires
            old(self).wf(),
        ensures
            final(self).wf(),
            match after_snapshot(old(self)@, reported as nat) {
                Some(s) => r is Ok && final(self)@ == s,
                None => final(self)@ == old(self)@ && (r matches Err(e) && e@ == ErrorView::Message(
                    "snapshot ref counter regressed from "@ + decimal(start_of(old(self)@))
                        + " to "@ + decimal(reported as nat),
                )),
            },
    {
        let start = self.start_ref();
        if reported < start {
            let mut m = owned("snapshot ref counter regressed from ");
            push_decimal(&mut m, start);
            push_str(&mut m, " to ");
            push_decimal(&mut m, reported);
            return Err(BrowserError::Message(m));
        }
        self.lo = start;
        self.hi = reported;
        self.next_ref = reported;
        Ok(())
    }
}

/// The member `key` of an object value, if the value is an object that has it.
pub open spec fn member_of(value: JsonView, key: Seq<char>) -> Option<JsonView> {
    match value {
        JsonView::Object(m) => match crate::json::member_index(m, key) {
            Some(i) => Some(m[i].1),
            None => None,
        },
        _ => None,
    }
}

/// The string member `key` of `value`, as `Value::get(key).and_then(Value::as_str)` reads it.
pub open spec fn string_member(value: JsonView, key: Seq<char>) -> Option<Seq<char>> {
    match member_of(value, key) {
        Some(JsonView::Str(s)) => Some(s),
        _ => None,
    }
}

/// The unsigned member `key` of `value`, as `Value::get(key).and_then(Value::as_u64)` reads it.
pub open spec fn u64_member(value: JsonView, key: Seq<char>) -> Option<u64> {
    match member_of(value, key) {
        Some(JsonView::Number(JsonNumber::PosInt(n))) => Some(n),
        _ => None,
    }
}

/// What the snapshot script's result means for a session in state `s`: the outline and
/// the new state, or the error text.
pub open spec fn snapshot_outcome(s: RefState, value: JsonView, rendered: Seq<char>) -> Result<
    (Seq<char>, RefState),
    Seq<char>,
> {
    match string_member(value, "outline"@) {
        None => Err("snapshot returned no outline: "@ + rendered),
        Some(outline) => match u64_member(value, "nextRef"@) {
            None => Err("snapshot returned no nextRef: "@ + rendered),
            Some(next) => match after_snapshot(s, next as nat) {
                None => Err(
                    "snapshot ref counter regressed from "@ + decimal(start_of(s)) + " to "@
                        + decimal(next as nat),
                ),
                Some(t) => Ok((outline, t)),
            },
        },
    }
}

fn get_member<'a>(value: &'a JsonValue, key: &str) -> (r: Option<&'a JsonValue>)
    ensures
        match member_of(value@, key@) {
            Some(v) => r matches Some(x) && x@ == v,
            None => r is None,
        },
{
    match value {
        JsonValue::Object(members) => {
            proof {
                lemma_members_view(members@);
                crate::json::lemma_member_index(crate::json::members_view(members@), key@);
            }
            assert(value@ == JsonView::Object(crate::json::members_view(members@)));
            match find_member(members, key) {
                Some(i) => {
                    assert(crate::json::members_view(members@)[i as int].1 == members@[i as int].1@);
                    Some(&members[i].1)
                },
                None => None,
            }
        },
        _ => None,
    }
}

impl RefTracker {
    /// Reads the snapshot script's result `value` (whose JSON text is `rendered`): its
    /// `outline` is the snapshot and its `nextRef` the new ref counter, whose refs become
    /// the current ones. A result without either, or whose counter would go backwards, is
    /// an error and changes nothing.
    pub fn read_snapshot(&mut self, value: &JsonValue, rendered: &str) -> (r: Result<
        String,
        BrowserError,
    >)
        requires
            old(self).wf(),
        ensures
            final(self).wf(),
            match snapshot_outcome(old(self)@, value@, rendered@) {
                Ok((outline, s)) => r matches Ok(o) && o@ == outline && final(self)@ == s,
                Err(text) => final(self)@ == old(self)@ && (r matches Err(e) && e@
                    == ErrorView::Message(text)),
            },
    {
        let outline = match get_member(value, "outline") {
            Some(JsonValue::Str(s)) => s.clone(),
            _ => {
                let mut m = owned("snapshot returned no outline: ");
                push_str(&mut m, rendered);
                return Err(BrowserError::Message(m));
            },
        };
        let next = match get_member(value, "nextRef") {
            Some(JsonValue::Number(JsonNumber::PosInt(n))) => *n,
            _ => {
                let mut m = owned("snapshot returned no nextRef: ");
                push_str(&mut m, rendered);
                return Err(BrowserError::Message(m));
            },
        };
        match self.accept_snapshot(next) {
            Ok(()) => Ok(outline),
            Err(e) => Err(e),
        }
    }
}


/// Different ref numbers have different names.
pub proof fn lemma_ref_name_injective(a: nat, b: nat)
    requires
        ref_name(a) == ref_name(b),
    ensures
        a == b,
{
    assert(ref_name(a).skip(1) =~= decimal(a));
    assert(ref_name(b).skip(1) =~= decimal(b));
    crate::text::lemma_decimal_injective(a, b);
}

/// Refs are never handed out twice in a session: a snapshot hands out refs numbered at
/// or above the counter, which never goes back, so no ref handed out before it (numbered
/// below the counter) is current afterwards.
pub proof fn law_refs_never_reused(s: RefState, reported: nat, n: nat)
    requires
        after_snapshot(s, reported) is Some,
        n < s.next,
    ensures
        after_snapshot(s, reported)->0.next >= s.next,
        !is_current(after_snapshot(s, reported)->0, ref_name(n)),
{
    let t = after_snapshot(s, reported)->0;
    if is_current(t, ref_name(n)) {
        let m = choose|m: nat| t.lo <= m < t.hi && ref_name(n) == #[trigger] ref_name(m);
        lemma_ref_name_injective(n, m);
    }
}

/// The refs that snapshots hand out are exactly the strings that pass the published
/// ref pattern `^e[1-9][0-9]*$`.
pub proof fn law_ref_names_match_pattern(n: nat, t: Seq<char>)
    ensures
        n >= 1 ==> valid_ref(ref_name(n)),
        valid_ref(t) ==> digits_value(t.skip(1)) >= 1 && t == ref_name(digits_value(t.skip(1))),
{
    if n >= 1 {
        lemma_ref_name_valid(n);
    }
    if valid_ref(t) {
        lemma_valid_ref_is_name(t);
    }
}

/// A snapshot's counter is refused only when it goes backwards: a snapshot that reports
/// any counter at or above the first ref it was to hand out (`e1` in a fresh session) is
/// accepted, makes current exactly the refs from that first one up to the reported
/// counter (none when it reports the first one itself, as on a page with no interactive
/// element), and moves the counter to what it reported.
pub proof fn law_snapshot_counter_only_refuses_regressions(s: RefState, reported: nat, target: Seq<char>)
    ensures
        reported >= 1 && reported >= s.next ==> after_snapshot(s, reported) == Some(
            RefState {
                next: reported,
                lo: if s.next == 0 {
                    1
                } else {
                    s.next
                },
                hi: reported,
            },
        ),
        reported == 0 || reported < s.next ==> after_snapshot(s, reported) is None,
        reported >= 1 && reported >= s.next && reported == (if s.next == 0 {
            1
        } else {
            s.next
        }) ==> !is_current(after_snapshot(s, reported)->0, target),
{
}

/// Reading a snapshot result gives its `outline` string, and makes current the refs
/// from the first one to hand out up to its `nextRef`; a result without a string
/// `outline` or without an unsigned `nextRef` is an error. The refs `e<n>` that are
/// current are exactly those numbered from `lo` up to `hi`.
pub proof fn law_snapshot_reads_outline_and_counter(
    s: RefState,
    value: JsonView,
    rendered: Seq<char>,
    outline: Seq<char>,
    next: u64,
    n: nat,
)
    ensures
        member_of(value, "outline"@) == Some(JsonView::Str(outline)) && member_of(value, "nextRef"@)
            == Some(JsonView::Number(JsonNumber::PosInt(next))) && next >= 1 && next >= s.next
            ==> snapshot_outcome(s, value, rendered) == Ok::<(Seq<char>, RefState), Seq<char>>(
            (
                outline,
                RefState {
                    next: next as nat,
                    lo: if s.next == 0 {
                        1
                    } else {
                        s.next
                    },
                    hi: next as nat,
                },
            ),
        ),
        !(member_of(value, "outline"@) matches Some(JsonView::Str(_))) ==> snapshot_outcome(
            s,
            value,
            rendered,
        ) is Err,
        !(member_of(value, "nextRef"@) matches Some(JsonView::Number(JsonNumber::PosInt(_))))
            ==> snapshot_outcome(s, value, rendered) is Err,
        s.lo <= n < s.hi ==> is_current(s, seq!['e'] + decimal(n)),
        (n < s.lo || n >= s.hi) && n >= 1 ==> !is_current(s, seq!['e'] + decimal(n)),
{
    if (n < s.lo || n >= s.hi) && n >= 1 && is_current(s, seq!['e'] + decimal(n)) {
        let m = choose|m: nat| s.lo <= m < s.hi && seq!['e'] + decimal(n) == #[trigger] ref_name(m);
        lemma_ref_name_injective(n, m);
    }
    if s.lo <= n < s.hi {
        assert(seq!['e'] + decimal(n) == ref_name(n));
    }
}

/// An admitted ref action spends every ref: until the next snapshot, no ref (the one
/// acted on included) can be acted on again.
pub proof fn law_ref_action_spends_refs(s: RefState, target: Seq<char>)
    ensures
        !is_current(cleared(s), target),
{
}

} // verus!

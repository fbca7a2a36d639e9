//! The actor's hold on the browser: how it starts (a local launch or a remote CDP
//! attach), what it must do before a command can use the page, and how engine failures
//! become command errors.
use vstd::prelude::*;

use super::cancel::{reason_error, CancellationReason};
use super::error::{owned, BrowserError, ErrorView};
use super::refs::{cleared, is_current, RefState, RefTracker};
use crate::json::{
    json_document, lemma_members_view, members_view, parse_json_document, JsonValue, JsonView,
};
use crate::session::{blank, is_blank};
use crate::text::{parse_unsigned, parse_unsigned_str, push_str};
use crate::tools::BrowserOp;

verus! {

/// The error text of a remote browser that cannot be reached.
pub open spec fn remote_unreachable() -> Seq<char> {
    "remote CDP session unreachable — restart or reconfigure"@
}

fn remote_unreachable_error() -> (e: BrowserError)
    ensures
        e@ == ErrorView::Message(remote_unreachable()),
{
    BrowserError::Message(owned("remote CDP session unreachable — restart or reconfigure"))
}

/// CDP timeout used when the environment names none.
pub const DEFAULT_CDP_TIMEOUT_MS: u64 = 60_000;

/// How to reach a remote browser over CDP.
pub struct RemoteConfig {
    pub endpoint: String,
    pub headers: Vec<(String, String)>,
    pub timeout_ms: u64,
}

/// The mathematical form of a [`RemoteConfig`].
pub struct RemoteView {
    pub endpoint: Seq<char>,
    pub headers: Seq<(Seq<char>, Seq<char>)>,
    pub timeout_ms: u64,
}

pub open spec fn headers_view(h: Seq<(String, String)>) -> Seq<(Seq<char>, Seq<char>)> {
    h.map_values(|p: (String, String)| (p.0@, p.1@))
}

impl View for RemoteConfig {
    type V = RemoteView;

    open spec fn view(&self) -> RemoteView {
        RemoteView {
            endpoint: self.endpoint@,
            headers: headers_view(self.headers@),
            timeout_ms: self.timeout_ms,
        }
    }
}

impl RemoteConfig {
    /// A copy of this configuration.
    pub fn duplicate(&self) -> (c: RemoteConfig)
        ensures
            c@ == self@,
    {
        let mut headers: Vec<(String, String)> = Vec::new();
        let mut i: usize = 0;
        while i < self.headers.len()
            invariant
                i <= self.headers.len(),
                headers@.len() == i,
                forall|j: int|
                    0 <= j < i ==> (#[trigger] headers@[j]).0@ == self.headers@[j].0@
                        && headers@[j].1@ == self.headers@[j].1@,
            decreases self.headers.len() - i,
        {
            let (name, value) = &self.headers[i];
            headers.push((name.clone(), value.clone()));
            i = i + 1;
        }
        assert(headers_view(headers@) =~= headers_view(self.headers@));
        RemoteConfig { endpoint: self.endpoint.clone(), headers, timeout_ms: self.timeout_ms }
    }
}

/// How the actor reaches a browser.
pub enum BrowserStartup {
    /// Launch Chromium locally on first use.
    Local,
    /// Attach to a remote browser on first use.
    Remote(RemoteConfig),
    /// A remote browser was asked for, but its settings cannot be used.
    InvalidRemote,
}

/// An environment variable as the process sees it.
pub enum EnvSetting<T> {
    Unset,
    NotUnicode,
    Present(T),
}

/// The header pairs that a JSON document names: an object whose every value is a string.
pub open spec fn headers_from_document(doc: Option<JsonView>) -> Option<
    Seq<(Seq<char>, Seq<char>)>,
> {
    match doc {
        Some(JsonView::Object(m)) => if forall|i: int| 0 <= i < m.len() ==> (#[trigger] m[i]).1 is Str {
            Some(m.map_values(|p: (Seq<char>, JsonView)| (p.0, p.1->Str_0)))
        } else {
            None
        },
        _ => None,
    }
}

pub open spec fn document_view(doc: Option<JsonValue>) -> Option<JsonView> {
    match doc {
        Some(d) => Some(d@),
        None => None,
    }
}

/// Reads the header pairs from a parsed headers document (`None` when it is not JSON).
pub fn headers_from_json(doc: Option<JsonValue>) -> (r: Option<Vec<(String, String)>>)
    ensures
        match headers_from_document(document_view(doc)) {
            Some(h) => r matches Some(v) && headers_view(v@) == h,
            None => r is None,
        },
{
    let ghost dv = document_view(doc);
    match doc {
        Some(JsonValue::Object(members)) => {
            let ghost m = members_view(members@);
            proof {
                lemma_members_view(members@);
            }
            assert(dv == Some(JsonView::Object(m)));
            let mut out: Vec<(String, String)> = Vec::new();
            let mut i: usize = 0;
            while i < members.len()
                invariant
                    i <= members.len(),
                    m == members_view(members@),
                    dv == Some(JsonView::Object(m)),
                    dv == document_view(doc),
                    m.len() == members.len(),
                    forall|j: int|
                        0 <= j < members@.len() ==> #[trigger] m[j] == (
                            members@[j].0@,
                            members@[j].1@,
                        ),
                    forall|j: int| 0 <= j < i ==> (#[trigger] m[j]).1 is Str,
                    out@.len() == i,
                    forall|j: int|
                        0 <= j < i ==> (#[trigger] out@[j]).0@ == m[j].0 && out@[j].1@ == m[j].1->Str_0,
                decreases members.len() - i,
            {
                match &members[i].1 {
                    JsonValue::Str(value) => {
                        out.push((members[i].0.clone(), value.clone()));
                    },
                    _ => {
                        assert(!(m[i as int].1 is Str));
                        assert(!(forall|j: int| 0 <= j < m.len() ==> (#[trigger] m[j]).1 is Str));
                        return None;
                    },
                }
                i = i + 1;
            }
            assert(headers_view(out@) =~= m.map_values(
                |p: (Seq<char>, JsonView)| (p.0, p.1->Str_0),
            ));
            Some(out)
        },
        _ => None,
    }
}

/// Reads the header pairs that the headers setting `value` names: a JSON object whose
/// every value is a string.
pub fn decode_headers(value: &str) -> (r: Option<Vec<(String, String)>>)
    ensures
        match headers_from_document(json_document(value@)) {
            Some(h) => r matches Some(v) && headers_view(v@) == h,
            None => r is None,
        },
{
    let doc = parse_json_document(value);
    proof {
        assert(document_view(doc) == json_document(value@));
    }
    headers_from_json(doc)
}

/// How the actor reaches a browser, given its settings: the CDP endpoint, the CDP timeout
/// in milliseconds and the CDP headers as a JSON object of strings.
pub open spec fn startup_for(
    endpoint: EnvSetting<Seq<char>>,
    timeout: EnvSetting<Seq<char>>,
    headers: EnvSetting<Seq<char>>,
) -> Option<Option<RemoteView>> {
    match endpoint {
        EnvSetting::Present(e) => if blank(e) {
            None
        } else {
            let t: Option<u64> = match timeout {
                EnvSetting::Present(text) => match parse_unsigned(text, u64::MAX as nat) {
                    Some(v) => if v > 0 {
                        Some(v as u64)
                    } else {
                        None
                    },
                    None => None,
                },
                EnvSetting::Unset => Some(DEFAULT_CDP_TIMEOUT_MS),
                EnvSetting::NotUnicode => None,
            };
            let h: Option<Seq<(Seq<char>, Seq<char>)>> = match headers {
                EnvSetting::Present(text) => headers_from_document(json_document(text)),
                EnvSetting::Unset => Some(Seq::empty()),
                EnvSetting::NotUnicode => None,
            };
            match (t, h) {
                (Some(timeout_ms), Some(headers)) => Some(
                    Some(RemoteView { endpoint: e, headers, timeout_ms }),
                ),
                _ => Some(None),
            }
        },
        _ => None,
    }
}

pub open spec fn setting_view(s: EnvSetting<String>) -> EnvSetting<Seq<char>> {
    match s {
        EnvSetting::Present(v) => EnvSetting::Present(v@),
        EnvSetting::Unset => EnvSetting::Unset,
        EnvSetting::NotUnicode => EnvSetting::NotUnicode,
    }
}

/// Decides how the actor reaches a browser from its settings. No endpoint (or a blank
/// one) means a local launch; an endpoint with an unusable timeout (not a positive
/// integer) or unusable headers (not a JSON object of strings) means an invalid remote.
pub fn startup_from_settings(
    endpoint: EnvSetting<String>,
    timeout: EnvSetting<String>,
    headers: EnvSetting<String>,
) -> (s: BrowserStartup)
    ensures
        match startup_for(
            setting_view(endpoint),
            setting_view(timeout),
            setting_view(headers),
        ) {
            None => s is Local,
            Some(None) => s is InvalidRemote,
            Some(Some(r)) => s matches BrowserStartup::Remote(c) && c@ == r,
        },
{
    let endpoint = match endpoint {
        EnvSetting::Present(e) => e,
        _ => {
            return BrowserStartup::Local;
        },
    };
    if is_blank(endpoint.as_str()) {
        return BrowserStartup::Local;
    }
    let timeout_ms = match timeout {
        EnvSetting::Present(text) => match parse_unsigned_str(text.as_str(), u64::MAX) {
            Some(v) => {
                if v > 0 {
                    v
                } else {
                    return BrowserStartup::InvalidRemote;
                }
            },
            None => {
                return BrowserStartup::InvalidRemote;
            },
        },
        EnvSetting::Unset => DEFAULT_CDP_TIMEOUT_MS,
        EnvSetting::NotUnicode => {
            return BrowserStartup::InvalidRemote;
        },
    };
    let headers = match headers {
        EnvSetting::Present(text) => match decode_headers(text.as_str()) {
            Some(h) => h,
            None => {
                return BrowserStartup::InvalidRemote;
            },
        },
        EnvSetting::Unset => {
            let h: Vec<(String, String)> = Vec::new();
            assert(headers_view(h@) =~= Seq::empty());
            h
        },
        EnvSetting::NotUnicode => {
            return BrowserStartup::InvalidRemote;
        },
    };
    BrowserStartup::Remote(RemoteConfig { endpoint, headers, timeout_ms })
}

/// A failure that the browser engine reported, by kind, with its text.
pub enum EngineFailureKind {
    Cancelled,
    Timeout,
    ConnectFailed,
    Closed,
    Other,
}

pub struct EngineFailure {
    pub kind: EngineFailureKind,
    pub text: String,
}

/// The engine calls that a command makes, for the context of their errors.
#[derive(Clone, Copy, Debug, PartialEq, Eq)]
pub enum EngineCall {
    Launch,
    NewPage,
    Navigate,
    NavigateBack,
    NavigateForward,
    Snapshot,
    Click,
    ScrollIntoView,
    ScrollViewport,
    Screenshot,
}

/// The context that a failure of `call` (on the ref `target`, for the calls that act on
/// one) is reported under.
pub open spec fn call_context_text(call: EngineCall, target: Seq<char>) -> Seq<char> {
    match call {
        EngineCall::Launch => "browser launch failed"@,
        EngineCall::NewPage => "new page failed"@,
        EngineCall::Navigate => "navigation failed"@,
        EngineCall::NavigateBack => "back navigation failed"@,
        EngineCall::NavigateForward => "forward navigation failed"@,
        EngineCall::Snapshot => "snapshot evaluation failed"@,
        EngineCall::Click => "click failed for "@ + target,
        EngineCall::ScrollIntoView => "scroll failed for "@ + target,
        EngineCall::ScrollViewport => "viewport scroll failed"@,
        EngineCall::Screenshot => "screenshot failed"@,
    }
}

/// The context of a failure of `call` (see [`call_context_text`]).
pub fn call_context(call: EngineCall, target: &str) -> (s: String)
    ensures
        s@ == call_context_text(call, target@),
{
    match call {
        EngineCall::Launch => owned("browser launch failed"),
        EngineCall::NewPage => owned("new page failed"),
        EngineCall::Navigate => owned("navigation failed"),
        EngineCall::NavigateBack => owned("back navigation failed"),
        EngineCall::NavigateForward => owned("forward navigation failed"),
        EngineCall::Snapshot => owned("snapshot evaluation failed"),
        EngineCall::Click => {
            let mut s = owned("click failed for ");
            push_str(&mut s, target);
            s
        },
        EngineCall::ScrollIntoView => {
            let mut s = owned("scroll failed for ");
            push_str(&mut s, target);
            s
        },
        EngineCall::ScrollViewport => owned("viewport scroll failed"),
        EngineCall::Screenshot => owned("screenshot failed"),
    }
}

/// The error of an engine operation that failed with `failure`, for a command with
/// cancellation reason `reason` and timeout `timeout_ms`. A cancelled operation ends with
/// the command's cancellation error, a timed-out one with its timeout; a remote browser
/// that disconnected or closed is reported unreachable; anything else is reported as
/// `context: failure`.
pub open spec fn operation_error_view(
    context: Seq<char>,
    kind: EngineFailureKind,
    text: Seq<char>,
    reason: CancellationReason,
    timeout_ms: u64,
    remote: bool,
    disconnected: bool,
) -> ErrorView {
    match kind {
        EngineFailureKind::Cancelled => match reason_error(reason, timeout_ms) {
            Some(e) => e,
            None => ErrorView::Cancelled,
        },
        EngineFailureKind::Timeout => ErrorView::Timeout(timeout_ms),
        _ => if remote && (disconnected || kind is ConnectFailed || kind is Closed) {
            ErrorView::Message(remote_unreachable())
        } else {
            ErrorView::Message(context + ": "@ + text)
        },
    }
}

fn cancelled_error(reason: CancellationReason, timeout_ms: u64) -> (e: BrowserError)
    ensures
        e@ == (match reason_error(reason, timeout_ms) {
            Some(x) => x,
            None => ErrorView::Cancelled,
        }),
{
    match reason.error(timeout_ms) {
        Some(e) => e,
        None => BrowserError::Cancelled,
    }
}

/// Turns an engine failure into the command's error (see [`operation_error_view`]).
pub fn operation_error(
    context: &str,
    failure: &EngineFailure,
    reason: CancellationReason,
    timeout_ms: u64,
    remote: bool,
    disconnected: bool,
) -> (e: BrowserError)
    ensures
        e@ == operation_error_view(
            context@,
            failure.kind,
            failure.text@,
            reason,
            timeout_ms,
            remote,
            disconnected,
        ),
{
    match failure.kind {
        EngineFailureKind::Cancelled => cancelled_error(reason, timeout_ms),
        EngineFailureKind::Timeout => BrowserError::Timeout(timeout_ms),
        _ => {
            let lost = match failure.kind {
                EngineFailureKind::ConnectFailed | EngineFailureKind::Closed => true,
                _ => false,
            };
            if remote && (disconnected || lost) {
                remote_unreachable_error()
            } else {
                let mut m = owned(context);
                push_str(&mut m, ": ");
                push_str(&mut m, failure.text.as_str());
                BrowserError::Message(m)
            }
        },
    }
}

/// The error of a failed remote attach: cancellation and timeouts as for any operation,
/// and every other failure reported as an unreachable remote, without its details.
pub open spec fn attach_error_view(
    kind: EngineFailureKind,
    reason: CancellationReason,
    timeout_ms: u64,
) -> ErrorView {
    match kind {
        EngineFailureKind::Cancelled => match reason_error(reason, timeout_ms) {
            Some(e) => e,
            None => ErrorView::Cancelled,
        },
        EngineFailureKind::Timeout => ErrorView::Timeout(timeout_ms),
        _ => ErrorView::Message(remote_unreachable()),
    }
}

/// Turns a failure of the remote attach into the command's error.
pub fn remote_attach_error(failure: &EngineFailure, reason: CancellationReason, timeout_ms: u64) -> (e:
    BrowserError)
    ensures
        e@ == attach_error_view(failure.kind, reason, timeout_ms),
{
    match failure.kind {
        EngineFailureKind::Cancelled => cancelled_error(reason, timeout_ms),
        EngineFailureKind::Timeout => BrowserError::Timeout(timeout_ms),
        _ => remote_unreachable_error(),
    }
}

/// The result of a history navigation that found (`had_entry`) or did not find an entry.
pub fn history_result(had_entry: bool, back: bool) -> (r: Result<(), BrowserError>)
    ensures
        had_entry ==> r is Ok,
        !had_entry ==> (r matches Err(e) && e@ == ErrorView::Message(
            if back {
                "no back history"@
            } else {
                "no forward history"@
            },
        )),
{
    if had_entry {
        Ok(())
    } else if back {
        Err(BrowserError::Message(owned("no back history")))
    } else {
        Err(BrowserError::Message(owned("no forward history")))
    }
}

/// What the actor must do before a command can use the page.
pub enum PageStep {
    /// The page is ready.
    Ready,
    /// The command fails with this error.
    Fail(BrowserError),
    /// Attach to the remote browser with these settings.
    Attach(RemoteConfig),
    /// Launch a local browser.
    Launch,
    /// Open a page in the local browser.
    OpenPage,
}

/// The mathematical form of the actor's hold on the browser.
pub struct HoldView {
    pub remote: bool,
    pub remote_config: Option<RemoteView>,
    pub unreachable: bool,
    pub has_browser: bool,
    pub has_page: bool,
    pub refs: RefState,
}

/// The actor's hold on the browser, apart from the engine handles themselves.
pub struct BrowserHold {
    remote: bool,
    remote_config: Option<RemoteConfig>,
    unreachable: bool,
    has_browser: bool,
    has_page: bool,
    refs: RefTracker,
}

impl View for BrowserHold {
    type V = HoldView;

    closed spec fn view(&self) -> HoldView {
        HoldView {
            remote: self.remote,
            remote_config: match self.remote_config {
                Some(c) => Some(c@),
                None => None,
            },
            unreachable: self.unreachable,
            has_browser: self.has_browser,
            has_page: self.has_page,
            refs: self.refs@,
        }
    }
}

/// The step that a hold in state `h` takes next, for a command whose cancellation error
/// (if it was cancelled and has not committed a physical action) is `pending`.
pub open spec fn page_step_view(h: HoldView, pending: Option<ErrorView>) -> Option<
    Result<Option<RemoteView>, ErrorView>,
> {
    // None: ready; Some(Err(e)): fail; Some(Ok(Some(c))): attach; Some(Ok(None)): local work.
    if pending is Some {
        Some(Err(pending->0))
    } else if h.unreachable {
        Some(Err(ErrorView::Message(remote_unreachable())))
    } else if h.remote {
        if h.has_page {
            None
        } else {
            match h.remote_config {
                Some(c) => Some(Ok(Some(c))),
                None => Some(Err(ErrorView::Message(remote_unreachable()))),
            }
        }
    } else if h.has_browser && h.has_page {
        None
    } else {
        Some(Ok(None))
    }
}

/// The error text of an action on a ref that the latest snapshot did not hand out.
pub open spec fn stale_ref_text(target: Seq<char>) -> Seq<char> {
    "unknown or stale ref "@ + target + "; call browser_snapshot and use its latest refs"@
}

/// What an operation does to the refs of state `s` before it acts: an action on a ref
/// needs a current ref and spends every ref; any other operation that changes the page
/// forgets them; a snapshot or a screenshot leaves them as they are.
pub open spec fn refs_before_op(s: RefState, op: BrowserOp) -> Result<RefState, Seq<char>> {
    match op {
        BrowserOp::Click(t) => if is_current(s, t@) {
            Ok(cleared(s))
        } else {
            Err(stale_ref_text(t@))
        },
        BrowserOp::ScrollTarget(t) => if is_current(s, t@) {
            Ok(cleared(s))
        } else {
            Err(stale_ref_text(t@))
        },
        BrowserOp::Snapshot => Ok(s),
        BrowserOp::TakeScreenshot => Ok(s),
        _ => Ok(cleared(s)),
    }
}

impl BrowserHold {
    /// The invariant: a remote hold never has a local launch pending, a page needs a
    /// browser, and the refs are well formed.
    pub closed spec fn wf(&self) -> bool {
        &&& self@.has_page ==> self@.has_browser
        &&& self.refs.wf()
        &&& !self@.remote ==> self@.remote_config is None && !self@.unreachable
    }

    /// A hold that has not reached any browser yet.
    pub fn new(startup: BrowserStartup) -> (h: BrowserHold)
        ensures
            h.wf(),
            !h@.has_browser && !h@.has_page,
            h@.refs == (RefState { next: 0, lo: 0, hi: 0 }),
            match startup {
                BrowserStartup::Local => !h@.remote && h@.remote_config is None && !h@.unreachable,
                BrowserStartup::InvalidRemote => h@.remote && h@.remote_config is None
                    && h@.unreachable,
                BrowserStartup::Remote(c) => h@.remote && h@.remote_config == Some(c@)
                    && !h@.unreachable,
            },
    {
        let refs = RefTracker::new();
        match startup {
            BrowserStartup::Local => BrowserHold {
                remote: false,
                remote_config: None,
                unreachable: false,
                has_browser: false,
                has_page: false,
                refs,
            },
            BrowserStartup::InvalidRemote => BrowserHold {
                remote: true,
                remote_config: None,
                unreachable: true,
                has_browser: false,
                has_page: false,
                refs,
            },
            BrowserStartup::Remote(c) => BrowserHold {
                remote: true,
                remote_config: Some(c),
                unreachable: false,
                has_browser: false,
                has_page: false,
                refs,
            },
        }
    }

    /// Whether the browser is remote (attached rather than launched).
    pub fn is_remote(&self) -> (r: bool)
        ensures
            r == self@.remote,
    {
        self.remote
    }

    /// Decides what must happen before a command can use the page. A command cancelled
    /// before it committed a physical action fails with its cancellation error; a remote
    /// hold that became unreachable fails; a remote hold attaches, and never launches a
    /// local browser; a local hold launches its browser and opens its page as needed.
    pub fn page_step(&self, reason: CancellationReason, committed: bool, timeout_ms: u64) -> (step:
        PageStep)
        requires
            self.wf(),
        ensures
            ({
                let pending = if committed {
                    None
                } else {
                    reason_error(reason, timeout_ms)
                };
                match page_step_view(self@, pending) {
                    None => step is Ready,
                    Some(Err(e)) => step matches PageStep::Fail(x) && x@ == e,
                    Some(Ok(Some(c))) => step matches PageStep::Attach(x) && x@ == c,
                    Some(Ok(None)) => if !self@.has_browser {
                        step is Launch
                    } else {
                        step is OpenPage
                    },
                }
            }),
            self@.remote ==> !(step is Launch) && !(step is OpenPage),
    {
        if !committed {
            if let Some(e) = reason.error(timeout_ms) {
                return PageStep::Fail(e);
            }
        }
        if self.unreachable {
            return PageStep::Fail(remote_unreachable_error());
        }
        if self.remote {
            if self.has_page {
                return PageStep::Ready;
            }
            return match &self.remote_config {
                Some(c) => PageStep::Attach(c.duplicate()),
                None => PageStep::Fail(remote_unreachable_error()),
            };
        }
        if !self.has_browser {
            PageStep::Launch
        } else if !self.has_page {
            PageStep::OpenPage
        } else {
            PageStep::Ready
        }
    }

    /// Records the outcome of a remote attach. The settings are used once: after a
    /// success the page is held; after a failure that was not a cancellation or timeout
    /// the remote is unreachable for good.
    pub fn finish_attach(&mut self, result: Result<(), BrowserError>) -> (r: Result<(), BrowserError>)
        requires
            old(self).wf(),
            old(self)@.remote,
        ensures
            final(self).wf(),
            final(self)@.remote,
            final(self)@.refs == old(self)@.refs,
            r == result,
            result is Ok ==> final(self)@.has_page && final(self)@.has_browser
                && final(self)@.remote_config is None && final(self)@.unreachable
                == old(self)@.unreachable,
            result matches Err(e) ==> !final(self)@.has_page == !old(self)@.has_page
                && final(self)@.has_browser == old(self)@.has_browser && if e is Cancelled
                || e is Timeout {
                final(self)@.remote_config == old(self)@.remote_config && final(self)@.unreachable
                    == old(self)@.unreachable
            } else {
                final(self)@.remote_config is None && final(self)@.unreachable
            },
    {
        match &result {
            Ok(()) => {
                self.remote_config = None;
                self.has_browser = true;
                self.has_page = true;
            },
            Err(e) => {
                let transient = match e {
                    BrowserError::Cancelled | BrowserError::Timeout(_) => true,
                    _ => false,
                };
                if !transient {
                    self.remote_config = None;
                    self.unreachable = true;
                }
            },
        }
        result
    }

    /// Records that the local browser launched.
    pub fn finish_launch(&mut self)
        requires
            old(self).wf(),
            !old(self)@.remote,
        ensures
            final(self).wf(),
            final(self)@ == (HoldView { has_browser: true, ..old(self)@ }),
    {
        self.has_browser = true;
    }

    /// Records that a page opened in the local browser.
    pub fn finish_open_page(&mut self)
        requires
            old(self).wf(),
            !old(self)@.remote,
            old(self)@.has_browser,
        ensures
            final(self).wf(),
            final(self)@ == (HoldView { has_page: true, ..old(self)@ }),
    {
        self.has_page = true;
    }

    /// Whether shutting down closes the page itself: only a launched browser's page is
    /// closed; a remote page is left for its owner.
    pub fn closes_page_on_shutdown(&self) -> (r: bool)
        ensures
            r == (self@.has_page && !self@.remote),
    {
        self.has_page && !self.remote
    }

    /// Records that the browser was released at shutdown.
    pub fn release(&mut self)
        requires
            old(self).wf(),
        ensures
            final(self).wf(),
            final(self)@ == (HoldView { has_browser: false, has_page: false, ..old(self)@ }),
    {
        self.has_page = false;
        self.has_browser = false;
    }
    /// The first ref number that the next snapshot hands out.
    pub fn start_ref(&self) -> (n: u64)
        requires
            self.wf(),
        ensures
            n == super::refs::start_of(self@.refs),
    {
        self.refs.start_ref()
    }

    /// Forgets the current refs (the page changed).
    pub fn clear_refs(&mut self)
        requires
            old(self).wf(),
        ensures
            final(self).wf(),
            final(self)@ == (HoldView { refs: super::refs::cleared(old(self)@.refs), ..old(self)@ }),
    {
        self.refs.clear();
    }

    /// Admits an action on ref `target` (see [`RefTracker::begin_ref_action`]).
    pub fn begin_ref_action(&mut self, target: &str) -> (r: Result<(), BrowserError>)
        requires
            old(self).wf(),
        ensures
            final(self).wf(),
            r is Ok <==> super::refs::is_current(old(self)@.refs, target@),
            r is Ok ==> final(self)@ == (HoldView {
                refs: super::refs::cleared(old(self)@.refs),
                ..old(self)@
            }),
            r matches Err(e) ==> final(self)@ == old(self)@ && e@ == ErrorView::Message(
                "unknown or stale ref "@ + target@
                    + "; call browser_snapshot and use its latest refs"@,
            ),
    {
        self.refs.begin_ref_action(target)
    }

    /// Applies what `op` does to the refs before it acts (see [`refs_before_op`]): an
    /// action on a stale ref is refused and changes nothing.
    pub fn begin_op(&mut self, op: &BrowserOp) -> (r: Result<(), BrowserError>)
        requires
            old(self).wf(),
        ensures
            final(self).wf(),
            match refs_before_op(old(self)@.refs, *op) {
                Ok(s) => r is Ok && final(self)@ == (HoldView { refs: s, ..old(self)@ }),
                Err(text) => final(self)@ == old(self)@ && (r matches Err(e) && e@
                    == ErrorView::Message(text)),
            },
    {
        match op {
            BrowserOp::Click(target) => self.begin_ref_action(target.as_str()),
            BrowserOp::ScrollTarget(target) => self.begin_ref_action(target.as_str()),
            BrowserOp::Snapshot | BrowserOp::TakeScreenshot => Ok(()),
            _ => {
                self.clear_refs();
                Ok(())
            },
        }
    }

    /// Reads a snapshot result (see [`RefTracker::read_snapshot`]).
    pub fn read_snapshot(&mut self, value: &JsonValue, rendered: &str) -> (r: Result<
        String,
        BrowserError,
    >)
        requires
            old(self).wf(),
        ensures
            final(self).wf(),
            match super::refs::snapshot_outcome(old(self)@.refs, value@, rendered@) {
                Ok((outline, s)) => r matches Ok(o) && o@ == outline && final(self)@ == (HoldView {
                    refs: s,
                    ..old(self)@
                }),
                Err(text) => final(self)@ == old(self)@ && (r matches Err(e) && e@
                    == ErrorView::Message(text)),
            },
    {
        self.refs.read_snapshot(value, rendered)
    }
}


/// A remote hold never falls back to launching a local browser, and once its remote has
/// become unreachable every command fails.
pub proof fn law_remote_never_launches_locally(h: HoldView, pending: Option<ErrorView>)
    requires
        h.remote,
    ensures
        page_step_view(h, pending) != Some(Ok::<Option<RemoteView>, ErrorView>(None)),
        h.unreachable ==> page_step_view(h, pending) matches Some(Err(_)),
{
}

/// Every operation but a snapshot or a screenshot leaves no ref current: refs from
/// before a page change, or from before an action on a ref, can never be acted on.
pub proof fn law_ops_spend_refs(s: RefState, op: BrowserOp, target: Seq<char>)
    requires
        !(op is Snapshot),
        !(op is TakeScreenshot),
        refs_before_op(s, op) is Ok,
    ensures
        !is_current(refs_before_op(s, op)->Ok_0, target),
{
}

} // verus!

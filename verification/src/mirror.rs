//! Ordered-mirror fetching, modeled as a state machine. The session holds
//! the identifier and the position in the fixed mirror list; every decision
//! — which URL to request next, whether a response body is a ready binary
//! or markup to scrape, whether to follow an extracted link, when to give
//! up with an empty result — is taken here. The transport performs each
//! returned action and feeds the observed outcome back as an event.
//!
//! Exhaustion of the mirror list is a soft outcome: the session delivers
//! an empty result, never an error. The only hard failure is a body read
//! error on a response already classified as a ready binary.

use vstd::prelude::*;
use vstd::string::StringExecFns;
use crate::classify::{classify_content_type, spec_is_ready_binary, Classification};
use crate::linkscan::{link_request, spec_link_request};

verus! {

/// Number of configured mirror endpoints.
pub open spec fn mirror_count() -> int {
    5
}

/// The base URL of mirror `i`, in the configured order.
pub open spec fn spec_mirror(i: int) -> Seq<char> {
    if i == 0 {
        "https://sci-hub.se"@
    } else if i == 1 {
        "https://sci-hub.st"@
    } else if i == 2 {
        "https://sci-hub.ru"@
    } else if i == 3 {
        "http://sci-hub.wf"@
    } else {
        "https://sci-hub.cat"@
    }
}

/// The request URL for identifier `doi` at mirror `i`.
pub open spec fn spec_mirror_url(i: int, doi: Seq<char>) -> Seq<char> {
    spec_mirror(i) + seq!['/'] + doi
}

/// The base URL of mirror `i`.
pub fn mirror_base(i: usize) -> (r: String)
    requires
        i < mirror_count(),
    ensures
        r@ == spec_mirror(i as int),
{
    if i == 0 {
        String::from_str("https://sci-hub.se")
    } else if i == 1 {
        String::from_str("https://sci-hub.st")
    } else if i == 2 {
        String::from_str("https://sci-hub.ru")
    } else if i == 3 {
        String::from_str("http://sci-hub.wf")
    } else {
        String::from_str("https://sci-hub.cat")
    }
}

/// The request URL for an identifier at mirror `i`.
fn mirror_url(i: usize, doi: &str) -> (r: String)
    requires
        i < mirror_count(),
    ensures
        r@ == spec_mirror_url(i as int, doi@),
{
    let base = mirror_base(i);
    let with_slash = base.concat("/");
    proof {
        reveal_strlit("/");
        assert(with_slash@ =~= spec_mirror(i as int) + seq!['/']);
    }
    with_slash.concat(doi)
}

/// What the session is waiting for.
#[derive(Debug, Clone, Copy, PartialEq, Eq, Structural)]
pub enum FetchPhase {
    /// A mirror request is out; the status and content type are awaited.
    AwaitingResponse,
    /// The response was classified as a ready binary; its bytes are awaited.
    AwaitingBinaryBody,
    /// The response was classified as markup; its text is awaited.
    AwaitingMarkupBody,
    /// A viewer link was extracted and requested; its bytes are awaited.
    AwaitingLink,
    /// The session has delivered its outcome.
    Done,
}

/// One download attempt for one identifier.
pub struct FetchSession {
    /// The identifier the session fetches.
    pub doi: String,
    /// Index of the mirror the session is working on.
    pub mirror: usize,
    pub phase: FetchPhase,
}

/// The observed outcome of the transport action the session asked for.
pub enum FetchEvent {
    /// Outcome of a mirror request: `ok` is false on a network failure or
    /// a non-success status; on success the declared content type is given
    /// (empty when the header is absent or unreadable).
    ResponseStatus { ok: bool, content_type: String },
    /// The body bytes of a ready-binary response; absent on a read error.
    BinaryBody(Option<Vec<u8>>),
    /// The body text of a markup response; absent on a decode error.
    MarkupBody(Option<String>),
    /// The body bytes of a followed link; absent on any failure of that
    /// second request.
    LinkBody(Option<Vec<u8>>),
}

/// What the transport must do next.
pub enum FetchAction {
    /// Issue a GET to this mirror URL and reply with `ResponseStatus`.
    RequestMirror(String),
    /// Read the current response's bytes and reply with `BinaryBody`.
    ReadBinary,
    /// Read the current response's text and reply with `MarkupBody`.
    ReadMarkup,
    /// Issue a GET to this extracted link and reply with `LinkBody`.
    RequestLink(String),
    /// Terminal: the download result; absent means no mirror yielded a
    /// payload, which is a success with an empty result.
    Deliver(Option<Vec<u8>>),
    /// Terminal: a hard failure with its cause.
    Abort(String),
}

/// The event kind each phase accepts.
pub open spec fn event_fits(phase: FetchPhase, e: FetchEvent) -> bool {
    match phase {
        FetchPhase::AwaitingResponse => e is ResponseStatus,
        FetchPhase::AwaitingBinaryBody => e is BinaryBody,
        FetchPhase::AwaitingMarkupBody => e is MarkupBody,
        FetchPhase::AwaitingLink => e is LinkBody,
        FetchPhase::Done => false,
    }
}

/// The session gives up on the current mirror: it requests the next mirror
/// in the configured order, or delivers the empty result when the list is
/// exhausted.
pub open spec fn advances(pre: FetchSession, post: FetchSession, a: FetchAction) -> bool {
    &&& post.doi == pre.doi
    &&& if pre.mirror + 1 < mirror_count() {
        &&& post.mirror == pre.mirror + 1
        &&& post.phase is AwaitingResponse
        &&& a matches FetchAction::RequestMirror(u) && u@ == spec_mirror_url(
            pre.mirror + 1,
            pre.doi@,
        )
    } else {
        &&& post.mirror == pre.mirror
        &&& post.phase is Done
        &&& a == FetchAction::Deliver(Option::<Vec<u8>>::None)
    }
}

/// The full transition relation of the session: given the phase and the
/// event, it pins the next state and the next action.
pub open spec fn step_relation(
    pre: FetchSession,
    e: FetchEvent,
    post: FetchSession,
    a: FetchAction,
) -> bool {
    match e {
        FetchEvent::ResponseStatus { ok, content_type } => {
            &&& pre.phase is AwaitingResponse
            &&& if !ok {
                advances(pre, post, a)
            } else if spec_is_ready_binary(content_type@) {
                &&& post == (FetchSession { phase: FetchPhase::AwaitingBinaryBody, ..pre })
                &&& a is ReadBinary
            } else {
                &&& post == (FetchSession { phase: FetchPhase::AwaitingMarkupBody, ..pre })
                &&& a is ReadMarkup
            }
        },
        FetchEvent::BinaryBody(body) => {
            &&& pre.phase is AwaitingBinaryBody
            &&& post == (FetchSession { phase: FetchPhase::Done, ..pre })
            &&& match body {
                Some(b) => a == FetchAction::Deliver(Some(b)),
                None => a is Abort,
            }
        },
        FetchEvent::MarkupBody(body) => {
            &&& pre.phase is AwaitingMarkupBody
            &&& match body {
                Some(html) => match spec_link_request(html@) {
                    Some(u) => {
                        &&& post == (FetchSession { phase: FetchPhase::AwaitingLink, ..pre })
                        &&& a matches FetchAction::RequestLink(l) && l@ == u
                    },
                    None => advances(pre, post, a),
                },
                None => advances(pre, post, a),
            }
        },
        FetchEvent::LinkBody(body) => {
            &&& pre.phase is AwaitingLink
            &&& match body {
                Some(b) => {
                    &&& post == (FetchSession { phase: FetchPhase::Done, ..pre })
                    &&& a == FetchAction::Deliver(Some(b))
                },
                None => advances(pre, post, a),
            }
        },
    }
}

impl FetchSession {
    /// Start a download attempt: the session requests the first mirror.
    pub fn begin(doi: &str) -> (r: (FetchSession, FetchAction))
        ensures
            r.0.doi@ == doi@,
            r.0.mirror == 0,
            r.0.phase is AwaitingResponse,
            r.1 matches FetchAction::RequestMirror(u) && u@ == spec_mirror_url(0, doi@),
    {
        let s = FetchSession { doi: doi.to_owned(), mirror: 0, phase: FetchPhase::AwaitingResponse };
        let u = mirror_url(0, doi);
        (s, FetchAction::RequestMirror(u))
    }

    /// Give up on the current mirror.
    fn advance(&mut self) -> (a: FetchAction)
        requires
            old(self).mirror < mirror_count(),
        ensures
            advances(*old(self), *final(self), a),
            final(self).mirror < mirror_count(),
    {
        if self.mirror + 1 < 5 {
            self.mirror = self.mirror + 1;
            self.phase = FetchPhase::AwaitingResponse;
            let u = mirror_url(self.mirror, self.doi.as_str());
            FetchAction::RequestMirror(u)
        } else {
            self.phase = FetchPhase::Done;
            FetchAction::Deliver(None)
        }
    }

    /// Absorb the outcome of the previous action and decide the next one.
    pub fn step(&mut self, e: FetchEvent) -> (a: FetchAction)
        requires
            event_fits(old(self).phase, e),
            old(self).mirror < mirror_count(),
        ensures
            step_relation(*old(self), e, *final(self), a),
            final(self).mirror < mirror_count(),
    {
        match e {
            FetchEvent::ResponseStatus { ok, content_type } => {
                if !ok {
                    self.advance()
                } else {
                    match classify_content_type(content_type.as_str()) {
                        Classification::ReadyBinary => {
                            self.phase = FetchPhase::AwaitingBinaryBody;
                            FetchAction::ReadBinary
                        },
                        Classification::Markup => {
                            self.phase = FetchPhase::AwaitingMarkupBody;
                            FetchAction::ReadMarkup
                        },
                    }
                }
            },
            FetchEvent::BinaryBody(body) => {
                self.phase = FetchPhase::Done;
                match body {
                    Some(b) => FetchAction::Deliver(Some(b)),
                    None => FetchAction::Abort(
                        String::from_str("could not read the binary response body"),
                    ),
                }
            },
            FetchEvent::MarkupBody(body) => {
                match body {
                    Some(html) => {
                        match link_request(html.as_str()) {
                            Some(u) => {
                                self.phase = FetchPhase::AwaitingLink;
                                FetchAction::RequestLink(u)
                            },
                            None => self.advance(),
                        }
                    },
                    None => self.advance(),
                }
            },
            FetchEvent::LinkBody(body) => {
                match body {
                    Some(b) => {
                        self.phase = FetchPhase::Done;
                        FetchAction::Deliver(Some(b))
                    },
                    None => self.advance(),
                }
            },
        }
    }
}

/// Mirrors are tried in the configured order: a new mirror request always
/// names the mirror one past the current one, the index never moves
/// backward, and a response classified as a ready binary is never followed
/// by another mirror request — the session only reads that body and
/// finishes.
pub proof fn lemma_mirror_order(pre: FetchSession, e: FetchEvent, post: FetchSession, a: FetchAction)
    requires
        step_relation(pre, e, post, a),
    ensures
        a is RequestMirror ==> post.mirror == pre.mirror + 1 && post.phase is AwaitingResponse,
        post.mirror == pre.mirror || post.mirror == pre.mirror + 1,
        (e matches FetchEvent::ResponseStatus { ok, content_type } && ok && spec_is_ready_binary(
            content_type@,
        )) ==> !(a is RequestMirror) && post.phase is AwaitingBinaryBody && post.mirror
            == pre.mirror,
        pre.phase is AwaitingBinaryBody ==> !(a is RequestMirror) && !(a is RequestLink)
            && post.phase is Done,
{
}

/// A failed mirror response advances to exactly the next mirror, and at
/// the last mirror it delivers the empty result — never an error.
pub proof fn lemma_failure_advances(
    pre: FetchSession,
    e: FetchEvent,
    post: FetchSession,
    a: FetchAction,
)
    requires
        step_relation(pre, e, post, a),
        e matches FetchEvent::ResponseStatus { ok: false, content_type: _ },
    ensures
        pre.mirror + 1 < mirror_count() ==> (a matches FetchAction::RequestMirror(u) && u@
            == spec_mirror_url(pre.mirror + 1, pre.doi@) && post.phase is AwaitingResponse
            && post.mirror == pre.mirror + 1),
        pre.mirror + 1 >= mirror_count() ==> a == FetchAction::Deliver(Option::<Vec<u8>>::None)
            && post.phase is Done,
{
}

/// A run that starts at the first mirror and sees nothing but failed
/// responses walks the whole mirror list in order and ends by delivering
/// the empty result — a success with nothing found, not an error.
pub proof fn lemma_only_failures_yield_empty(
    ss: Seq<FetchSession>,
    es: Seq<FetchEvent>,
    actions: Seq<FetchAction>,
)
    requires
        ss.len() == es.len() + 1,
        actions.len() == es.len(),
        es.len() == mirror_count(),
        ss[0].mirror == 0,
        ss[0].phase is AwaitingResponse,
        forall|i: int|
            0 <= i < es.len() ==> step_relation(ss[i], es[i], ss[i + 1], actions[i]),
        forall|i: int|
            0 <= i < es.len() ==> (#[trigger] es[i]) matches FetchEvent::ResponseStatus {
                ok: false,
                content_type: _,
            },
    ensures
        forall|i: int|
            0 <= i < es.len() - 1 ==> ((#[trigger] actions[i]) matches FetchAction::RequestMirror(
                u,
            ) && u@ == spec_mirror_url(i + 1, ss[0].doi@)),
        actions[es.len() - 1] == FetchAction::Deliver(Option::<Vec<u8>>::None),
{
    assert forall|i: int| 0 <= i < es.len() implies ss[i].mirror == i && ss[i].phase
        is AwaitingResponse && ss[i].doi == ss[0].doi by {
        lemma_failure_prefix(ss, es, actions, i);
    }
}

/// In an all-failure run, the session at step `i` stands at mirror `i`.
proof fn lemma_failure_prefix(
    ss: Seq<FetchSession>,
    es: Seq<FetchEvent>,
    actions: Seq<FetchAction>,
    i: int,
)
    requires
        ss.len() == es.len() + 1,
        actions.len() == es.len(),
        es.len() == mirror_count(),
        ss[0].mirror == 0,
        ss[0].phase is AwaitingResponse,
        forall|j: int|
            0 <= j < es.len() ==> step_relation(ss[j], es[j], ss[j + 1], actions[j]),
        forall|j: int|
            0 <= j < es.len() ==> (#[trigger] es[j]) matches FetchEvent::ResponseStatus {
                ok: false,
                content_type: _,
            },
        0 <= i < es.len(),
    ensures
        ss[i].mirror == i,
        ss[i].phase is AwaitingResponse,
        ss[i].doi == ss[0].doi,
    decreases i,
{
    if i > 0 {
        lemma_failure_prefix(ss, es, actions, i - 1);
        assert(es[i - 1] matches FetchEvent::ResponseStatus { ok: false, content_type: _ });
        assert(step_relation(ss[i - 1], es[i - 1], ss[i - 1 + 1], actions[i - 1]));
        assert(advances(ss[i - 1], ss[i], actions[i - 1]));
    }
}

} // verus!

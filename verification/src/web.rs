//! Fetching an asset over HTTP, relative to the page that serves the game.
//!
//! The request and the reading of the body are awaited by the caller; this
//! module holds the decisions between them, as a state machine: the caller
//! performs each [`FetchAction`] and hands back the [`FetchEvent`] it led to.
use vstd::prelude::*;

use crate::error::{outcome_view, AssetFetchError, AssetFetchErrorView};

verus! {

/// The URL, relative to the page, at which the asset `relative_path` is
/// requested: the `assets/` folder that is served beside the page.
pub open spec fn request_path(relative_path: Seq<char>) -> Seq<char> {
    "assets/"@ + relative_path
}

/// What a web fetch returns, given whether the request was answered (and if so
/// whether its status is a success, and which status it is) and whether the
/// body could be read.  A body is only read after a successful status.
pub open spec fn web_fetch_outcome(
    path: Seq<char>,
    response: Option<(bool, u16)>,
    body: Option<Seq<u8>>,
) -> Result<Seq<u8>, AssetFetchErrorView> {
    match response {
        None => Err(AssetFetchErrorView::PathFailure { path }),
        Some((ok, status)) => if !ok {
            Err(AssetFetchErrorView::HTTPError { path, status })
        } else {
            match body {
                Some(bytes) => Ok(bytes),
                None => Err(AssetFetchErrorView::BinaryReadFailure { path }),
            }
        },
    }
}

/// Where a web fetch stands.
pub enum FetchState {
    /// The GET request for `path` has been sent; its response is awaited.
    AwaitingResponse { path: String },
    /// The response for `path` was a success; its body is being read.
    AwaitingBody { path: String },
    /// The fetch is over.
    Finished,
}

/// What happened to the last action.
pub enum FetchEvent {
    /// The request could not be sent or was not answered.
    RequestFailed,
    /// A response arrived: whether its status is a success, and the status.
    Responded { ok: bool, status: u16 },
    /// The body was read.
    BodyRead { bytes: Vec<u8> },
    /// The body could not be read.
    BodyFailed,
}

/// What the caller is to do next.
pub enum FetchAction {
    /// Send a GET request for `path`.
    SendGet { path: String },
    /// Read the body of the response as bytes.
    ReadBody,
    /// The fetch is over, with this outcome.
    Complete { outcome: Result<Vec<u8>, AssetFetchError> },
}

pub enum FetchStateView {
    AwaitingResponse { path: Seq<char> },
    AwaitingBody { path: Seq<char> },
    Finished,
}

pub enum FetchEventView {
    RequestFailed,
    Responded { ok: bool, status: u16 },
    BodyRead { bytes: Seq<u8> },
    BodyFailed,
}

pub enum FetchActionView {
    SendGet { path: Seq<char> },
    ReadBody,
    Complete { outcome: Result<Seq<u8>, AssetFetchErrorView> },
}

impl View for FetchState {
    type V = FetchStateView;

    open spec fn view(&self) -> FetchStateView {
        match self {
            FetchState::AwaitingResponse { path } => FetchStateView::AwaitingResponse { path: path@ },
            FetchState::AwaitingBody { path } => FetchStateView::AwaitingBody { path: path@ },
            FetchState::Finished => FetchStateView::Finished,
        }
    }
}

impl View for FetchEvent {
    type V = FetchEventView;

    open spec fn view(&self) -> FetchEventView {
        match self {
            FetchEvent::RequestFailed => FetchEventView::RequestFailed,
            FetchEvent::Responded { ok, status } => FetchEventView::Responded {
                ok: *ok,
                status: *status,
            },
            FetchEvent::BodyRead { bytes } => FetchEventView::BodyRead { bytes: bytes@ },
            FetchEvent::BodyFailed => FetchEventView::BodyFailed,
        }
    }
}

impl View for FetchAction {
    type V = FetchActionView;

    open spec fn view(&self) -> FetchActionView {
        match self {
            FetchAction::SendGet { path } => FetchActionView::SendGet { path: path@ },
            FetchAction::ReadBody => FetchActionView::ReadBody,
            FetchAction::Complete { outcome } => FetchActionView::Complete {
                outcome: outcome_view(*outcome),
            },
        }
    }
}

/// The events that can follow the action a state was entered with: a
/// response (or its failure) while one is awaited, a body (or its failure)
/// while one is read, and nothing once the fetch is over.
pub open spec fn fetch_accepts(s: FetchStateView, e: FetchEventView) -> bool {
    match s {
        FetchStateView::AwaitingResponse { .. } => e is RequestFailed || e is Responded,
        FetchStateView::AwaitingBody { .. } => e is BodyRead || e is BodyFailed,
        FetchStateView::Finished => false,
    }
}

/// The transition table of a web fetch.
pub open spec fn fetch_next(s: FetchStateView, e: FetchEventView) -> (FetchStateView, FetchActionView)
    recommends
        fetch_accepts(s, e),
{
    match (s, e) {
        (FetchStateView::AwaitingResponse { path }, FetchEventView::RequestFailed) => (
            FetchStateView::Finished,
            FetchActionView::Complete { outcome: Err(AssetFetchErrorView::PathFailure { path }) },
        ),
        (FetchStateView::AwaitingResponse { path }, FetchEventView::Responded { ok, status }) => if ok {
            (FetchStateView::AwaitingBody { path }, FetchActionView::ReadBody)
        } else {
            (
                FetchStateView::Finished,
                FetchActionView::Complete {
                    outcome: Err(AssetFetchErrorView::HTTPError { path, status }),
                },
            )
        },
        (FetchStateView::AwaitingBody { .. }, FetchEventView::BodyRead { bytes }) => (
            FetchStateView::Finished,
            FetchActionView::Complete { outcome: Ok(bytes) },
        ),
        (FetchStateView::AwaitingBody { path }, FetchEventView::BodyFailed) => (
            FetchStateView::Finished,
            FetchActionView::Complete {
                outcome: Err(AssetFetchErrorView::BinaryReadFailure { path }),
            },
        ),
        _ => (s, FetchActionView::ReadBody),
    }
}

/// The path, relative to the page, at which `relative_path` is requested.
pub fn web_request_path(relative_path: &str) -> (p: String)
    ensures
        p@ == request_path(relative_path@),
        p@ == "assets/"@ + relative_path@,
{
    let mut p = String::from_str("assets/");
    p.append(relative_path);
    p
}

/// Starts fetching the asset `relative_path`: the GET request to send, and
/// the state that awaits its response.
pub fn start_fetch(relative_path: &str) -> (r: (FetchState, FetchAction))
    ensures
        r.0@ == (FetchStateView::AwaitingResponse { path: request_path(relative_path@) }),
        r.1@ == (FetchActionView::SendGet { path: request_path(relative_path@) }),
        r.1@ == (FetchActionView::SendGet { path: "assets/"@ + relative_path@ }),
{
    let path = web_request_path(relative_path);
    let sent = path.clone();
    (FetchState::AwaitingResponse { path }, FetchAction::SendGet { path: sent })
}

impl FetchState {
    /// Whether `event` can follow the action this state was entered with.
    pub fn accepts(&self, event: &FetchEvent) -> (b: bool)
        ensures
            b == fetch_accepts(self@, event@),
    {
        match self {
            FetchState::AwaitingResponse { .. } => match event {
                FetchEvent::RequestFailed => true,
                FetchEvent::Responded { .. } => true,
                _ => false,
            },
            FetchState::AwaitingBody { .. } => match event {
                FetchEvent::BodyRead { .. } => true,
                FetchEvent::BodyFailed => true,
                _ => false,
            },
            FetchState::Finished => false,
        }
    }

    /// Whether the fetch is over.
    pub fn is_finished(&self) -> (b: bool)
        ensures
            b == (self@ is Finished),
    {
        match self {
            FetchState::Finished => true,
            _ => false,
        }
    }
}

/// Takes the fetch one event further: the state it is then in and what the
/// caller is to do next.
pub fn step(state: FetchState, event: FetchEvent) -> (r: (FetchState, FetchAction))
    requires
        fetch_accepts(state@, event@),
    ensures
        (r.0@, r.1@) == fetch_next(state@, event@),
{
    match state {
        FetchState::AwaitingResponse { path } => match event {
            FetchEvent::RequestFailed => (
                FetchState::Finished,
                FetchAction::Complete { outcome: Err(AssetFetchError::PathFailure { path }) },
            ),
            FetchEvent::Responded { ok, status } => if ok {
                (FetchState::AwaitingBody { path }, FetchAction::ReadBody)
            } else {
                (
                    FetchState::Finished,
                    FetchAction::Complete {
                        outcome: Err(AssetFetchError::HTTPError { path, status }),
                    },
                )
            },
            // ruled out by `requires`
            _ => (FetchState::AwaitingResponse { path }, FetchAction::ReadBody),
        },
        FetchState::AwaitingBody { path } => match event {
            FetchEvent::BodyRead { bytes } => (
                FetchState::Finished,
                FetchAction::Complete { outcome: Ok(bytes) },
            ),
            FetchEvent::BodyFailed => (
                FetchState::Finished,
                FetchAction::Complete {
                    outcome: Err(AssetFetchError::BinaryReadFailure { path }),
                },
            ),
            // ruled out by `requires`
            _ => (FetchState::AwaitingBody { path }, FetchAction::ReadBody),
        },
        // ruled out by `requires`
        FetchState::Finished => (FetchState::Finished, FetchAction::ReadBody),
    }
}

/// The event that a response (or its absence) hands back.
pub open spec fn response_event(response: Option<(bool, u16)>) -> FetchEventView {
    match response {
        None => FetchEventView::RequestFailed,
        Some((ok, status)) => FetchEventView::Responded { ok, status },
    }
}

/// The event that reading a body (or failing to) hands back.
pub open spec fn body_event(body: Option<Seq<u8>>) -> FetchEventView {
    match body {
        Some(bytes) => FetchEventView::BodyRead { bytes },
        None => FetchEventView::BodyFailed,
    }
}

/// A web fetch of `relative_path` requests `assets/<relative_path>` and is
/// over after at most two events: the response, then (only after a successful
/// status) the body.  It then completes with exactly what the fetch returns:
/// the body's bytes, or the error for the step that failed.
pub proof fn lemma_fetch_completes_with_web_outcome(
    relative_path: Seq<char>,
    response: Option<(bool, u16)>,
    body: Option<Seq<u8>>,
)
    ensures
        ({
            let path = request_path(relative_path);
            let s0 = FetchStateView::AwaitingResponse { path };
            let (s1, a1) = fetch_next(s0, response_event(response));
            let (s2, a2) = fetch_next(s1, body_event(body));
            &&& fetch_accepts(s0, response_event(response))
            &&& if response matches Some((true, _)) {
                &&& s1 == (FetchStateView::AwaitingBody { path })
                &&& a1 is ReadBody
                &&& fetch_accepts(s1, body_event(body))
                &&& s2 is Finished
                &&& a2 == (FetchActionView::Complete {
                    outcome: web_fetch_outcome(path, response, body),
                })
            } else {
                &&& s1 is Finished
                &&& a1 == (FetchActionView::Complete {
                    outcome: web_fetch_outcome(path, response, body),
                })
            }
        }),
{
}

/// Every step that ends a fetch with an error names, in that error, the path
/// that the fetch requested; and the fetch is then over.
pub proof fn lemma_errors_name_requested_path(s: FetchStateView, e: FetchEventView)
    requires
        fetch_accepts(s, e),
    ensures
        fetch_next(s, e).1 is Complete ==> fetch_next(s, e).0 is Finished,
        fetch_next(s, e).1 matches FetchActionView::Complete { outcome: Err(err) } ==> ({
            &&& s matches FetchStateView::AwaitingResponse { path } ==> err.path() == path
            &&& s matches FetchStateView::AwaitingBody { path } ==> err.path() == path
        }),
{
}

/// The request for an asset goes to the `assets/` folder beside the page:
/// its path is `assets/` followed by the relative path, whole and unchanged;
/// so it is exactly seven characters longer, starts with `assets/`, and two
/// different relative paths are never requested at the same path.
pub proof fn lemma_request_path_is_under_assets(r: Seq<char>, r2: Seq<char>)
    ensures
        request_path(r) == "assets/"@ + r,
        request_path(r).len() == r.len() + 7,
        request_path(r).subrange(0, 7) == seq!['a', 's', 's', 'e', 't', 's', '/'],
        request_path(r).subrange(7, request_path(r).len() as int) == r,
        request_path(r) == request_path(r2) ==> r == r2,
{
    reveal_strlit("assets/");
    let a = "assets/"@;
    assert(a =~= seq!['a', 's', 's', 'e', 't', 's', '/']);
    assert((a + r).subrange(0, 7) =~= a);
    assert((a + r).subrange(7, (a + r).len() as int) =~= r);
    if request_path(r) == request_path(r2) {
        assert((a + r2).subrange(7, (a + r2).len() as int) =~= r2);
    }
}

/// A fetch that awaits a response takes exactly what a request hands back (a
/// response, or the request's failure), never a body; a body (read, or failed
/// to read) is taken only while a body is being read; and a finished fetch
/// takes nothing.  A fetch only comes to read a body after a response with a
/// success status, and it reads the body of the path it requested.
pub proof fn lemma_body_only_after_success(s: FetchStateView, e: FetchEventView)
    ensures
        s is AwaitingResponse ==> (fetch_accepts(s, e) <==> (e is RequestFailed || e is Responded)),
        (e is BodyRead || e is BodyFailed) ==> (fetch_accepts(s, e) <==> s is AwaitingBody),
        s is Finished ==> !fetch_accepts(s, e),
        fetch_accepts(s, e) && fetch_next(s, e).0 is AwaitingBody ==> ({
            &&& e matches FetchEventView::Responded { ok, .. } && ok
            &&& s is AwaitingResponse
            &&& fetch_next(s, e).0->AwaitingBody_path == s->AwaitingResponse_path
        }),
{
}

} // verus!

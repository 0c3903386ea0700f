//! The viewer side: which request gets which answer, and the relay that
//! feeds one viewer's stream.
//!
//! The relay is driven from outside. Its driver hands the response to the
//! HTTP layer, waits for frames on the viewer's subscription and passes
//! chunks to the response body, one at a time; after each of these it tells
//! the relay what happened and does what the relay answers.

use vstd::prelude::*;
use vstd::string::*;
use crate::multipart::{ascii, boundary_spec, chunk_spec, frame_chunk, stream_boundary};
use crate::packets::Screen;

verus! {

/// The answer that a request gets.
#[derive(Clone, Copy, Debug, PartialEq, Eq, Structural)]
pub enum Route {
    /// A short text that shows the server is up.
    Index,
    /// The stream of one screen's frames.
    Stream(Screen),
    /// Not found.
    NotFound,
}

/// Only a GET is answered: `/` with the index, `/top` and `/bottom` with the
/// screens' streams. The path is compared byte for byte.
pub open spec fn route_spec(is_get: bool, path: Seq<u8>) -> Route {
    if !is_get {
        Route::NotFound
    } else if path == ascii("/"@) {
        Route::Index
    } else if path == ascii("/top"@) {
        Route::Stream(Screen::Top)
    } else if path == ascii("/bottom"@) {
        Route::Stream(Screen::Bottom)
    } else {
        Route::NotFound
    }
}

fn same_bytes(a: &[u8], b: &[u8]) -> (same: bool)
    ensures
        same == (a@ == b@),
{
    if a.len() != b.len() {
        return false;
    }
    let mut i: usize = 0;
    while i < a.len()
        invariant
            i <= a.len(),
            a.len() == b.len(),
            a@.subrange(0, i as int) == b@.subrange(0, i as int),
        decreases a.len() - i,
    {
        if a[i] != b[i] {
            return false;
        }
        i += 1;
        assert(a@.subrange(0, i as int) =~= a@.subrange(0, i - 1).push(a@[i - 1]));
        assert(b@.subrange(0, i as int) =~= b@.subrange(0, i - 1).push(b@[i - 1]));
    }
    assert(a@.subrange(0, i as int) =~= a@);
    assert(b@.subrange(0, i as int) =~= b@);
    true
}

fn is_text(path: &[u8], text: &str) -> (same: bool)
    requires
        is_ascii(text),
    ensures
        same == (path@ == ascii(text@)),
{
    let bytes = text.as_bytes();
    proof {
        is_ascii_spec_bytes(text);
        assert(bytes@ =~= ascii(text@));
    }
    same_bytes(path, bytes)
}

/// Picks the answer to a request from whether it is a GET and from its path.
pub fn route(is_get: bool, path: &str) -> (r: Route)
    ensures
        r == route_spec(is_get, path.spec_bytes()),
{
    proof {
        reveal_strlit("/");
        reveal_strlit("/top");
        reveal_strlit("/bottom");
    }
    let bytes = path.as_bytes();
    if !is_get {
        Route::NotFound
    } else if is_text(bytes, "/") {
        Route::Index
    } else if is_text(bytes, "/top") {
        Route::Stream(Screen::Top)
    } else if is_text(bytes, "/bottom") {
        Route::Stream(Screen::Bottom)
    } else {
        Route::NotFound
    }
}

/// Where a relay stands.
#[derive(Clone, Copy, Debug, PartialEq, Eq, Structural)]
pub enum Phase {
    /// The response has not been handed to the HTTP layer yet.
    Handoff,
    /// The relay waits for the next frame.
    Waiting,
    /// A chunk is with the response body and has not been taken yet.
    Sending,
    /// The stream is over.
    Finished,
}

/// What the driver reports to the relay.
pub enum Event {
    /// The HTTP layer took the response, at the time `now_ms`.
    ResponseDelivered { now_ms: u64 },
    /// The HTTP layer was gone before it took the response.
    ResponseRefused,
    /// The subscription gave a frame, at the time `now_ms`.
    Frame { frame: Vec<u8>, now_ms: u64 },
    /// The subscription gave an error in place of a frame.
    ReceiveFailed,
    /// The response body took the chunk.
    ChunkAccepted,
    /// The response body is closed: the viewer is gone.
    SinkClosed,
}

/// The mathematical content of an `Event`.
pub enum EventView {
    ResponseDelivered { now_ms: u64 },
    ResponseRefused,
    Frame { frame: Seq<u8>, now_ms: u64 },
    ReceiveFailed,
    ChunkAccepted,
    SinkClosed,
}

impl View for Event {
    type V = EventView;

    open spec fn view(&self) -> EventView {
        match *self {
            Event::ResponseDelivered { now_ms } => EventView::ResponseDelivered { now_ms },
            Event::ResponseRefused => EventView::ResponseRefused,
            Event::Frame { frame, now_ms } => EventView::Frame { frame: frame@, now_ms },
            Event::ReceiveFailed => EventView::ReceiveFailed,
            Event::ChunkAccepted => EventView::ChunkAccepted,
            Event::SinkClosed => EventView::SinkClosed,
        }
    }
}

/// What the relay asks of its driver.
pub enum Action {
    /// Wait for the next frame on the subscription.
    AwaitFrame,
    /// Pass this chunk to the response body and wait until it is taken.
    SendChunk(Vec<u8>),
    /// Drop the subscription and end.
    Stop,
}

/// The mathematical content of an `Action`.
pub enum ActionView {
    AwaitFrame,
    SendChunk(Seq<u8>),
    Stop,
}

impl View for Action {
    type V = ActionView;

    open spec fn view(&self) -> ActionView {
        match *self {
            Action::AwaitFrame => ActionView::AwaitFrame,
            Action::SendChunk(chunk) => ActionView::SendChunk(chunk@),
            Action::Stop => ActionView::Stop,
        }
    }
}

/// The relay of one viewer's stream.
pub struct Responder {
    pub phase: Phase,
    pub boundary: Vec<u8>,
}

/// The mathematical content of a `Responder`.
pub struct ResponderView {
    pub phase: Phase,
    pub boundary: Seq<u8>,
}

impl View for Responder {
    type V = ResponderView;

    open spec fn view(&self) -> ResponderView {
        ResponderView { phase: self.phase, boundary: self.boundary@ }
    }
}

/// The relay's next state and its answer to an event.
///
/// Once the response is handed over, the boundary is fixed with the time of
/// the handover and the relay waits for frames. A frame goes out as one
/// chunk, and no other is taken up before the body has taken that one. An
/// error on the subscription is passed over: the relay goes on waiting. A
/// closed body ends the stream, and so does any event that cannot come in
/// the phase the relay is in.
pub open spec fn respond_spec(r: ResponderView, e: EventView) -> (ResponderView, ActionView) {
    let finished = (ResponderView { phase: Phase::Finished, boundary: r.boundary }, ActionView::Stop);
    match r.phase {
        Phase::Handoff => match e {
            EventView::ResponseDelivered { now_ms } => (
                ResponderView { phase: Phase::Waiting, boundary: boundary_spec(now_ms) },
                ActionView::AwaitFrame,
            ),
            _ => finished,
        },
        Phase::Waiting => match e {
            EventView::Frame { frame, now_ms } => (
                ResponderView { phase: Phase::Sending, boundary: r.boundary },
                ActionView::SendChunk(chunk_spec(r.boundary, now_ms, frame)),
            ),
            EventView::ReceiveFailed => (r, ActionView::AwaitFrame),
            _ => finished,
        },
        Phase::Sending => match e {
            EventView::ChunkAccepted => (
                ResponderView { phase: Phase::Waiting, boundary: r.boundary },
                ActionView::AwaitFrame,
            ),
            _ => finished,
        },
        Phase::Finished => finished,
    }
}

impl Responder {
    /// A relay whose response has yet to be handed over.
    pub fn new() -> (r: Responder)
        ensures
            r@ == (ResponderView { phase: Phase::Handoff, boundary: Seq::empty() }),
    {
        Responder { phase: Phase::Handoff, boundary: Vec::new() }
    }

    /// Takes what the driver reports and answers with what it is to do next.
    pub fn step(&mut self, event: Event) -> (action: Action)
        ensures
            (final(self)@, action@) == respond_spec(old(self)@, event@),
    {
        match self.phase {
            Phase::Handoff => match event {
                Event::ResponseDelivered { now_ms } => {
                    self.boundary = stream_boundary(now_ms);
                    self.phase = Phase::Waiting;
                    Action::AwaitFrame
                },
                _ => {
                    self.phase = Phase::Finished;
                    Action::Stop
                },
            },
            Phase::Waiting => match event {
                Event::Frame { frame, now_ms } => {
                    let chunk = frame_chunk(self.boundary.as_slice(), now_ms, frame.as_slice());
                    self.phase = Phase::Sending;
                    Action::SendChunk(chunk)
                },
                Event::ReceiveFailed => Action::AwaitFrame,
                _ => {
                    self.phase = Phase::Finished;
                    Action::Stop
                },
            },
            Phase::Sending => match event {
                Event::ChunkAccepted => {
                    self.phase = Phase::Waiting;
                    Action::AwaitFrame
                },
                _ => {
                    self.phase = Phase::Finished;
                    Action::Stop
                },
            },
            Phase::Finished => Action::Stop,
        }
    }
}

} // verus!

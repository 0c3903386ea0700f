//! Per-screen reassembly of fragments into frames.
//!
//! A frame arrives as a run of fragments numbered from zero. The reassembler
//! keeps no fragment that arrives out of turn: a gap, or a fragment of another
//! frame, discards what was gathered, and gathering starts again at the next
//! fragment numbered zero.

use vstd::prelude::*;
use crate::bytes::append_bytes;
use crate::packets::{end_of_frame_of, RemotePlayPacket, Wire};

verus! {

/// What the reassembler reads of one fragment.
pub struct Fragment {
    pub frame_id: u8,
    pub packet_id: u8,
    pub last: bool,
    pub payload: Seq<u8>,
}

/// The fragment that a packet carries.
pub open spec fn fragment_of(w: Wire) -> Fragment {
    Fragment {
        frame_id: w.frame_id,
        packet_id: w.packet_id,
        last: end_of_frame_of(w.flags),
        payload: w.payload,
    }
}

/// A frame in the course of being gathered.
pub struct FrameState {
    pub frame_id: u8,
    pub next_packet_id: u8,
    pub frame_complete: bool,
    pub image_data: Vec<u8>,
}

/// The mathematical content of a `FrameState`.
pub struct Progress {
    pub frame_id: u8,
    pub next_packet_id: u8,
    pub complete: bool,
    pub buffer: Seq<u8>,
}

impl View for FrameState {
    type V = Progress;

    open spec fn view(&self) -> Progress {
        Progress {
            frame_id: self.frame_id,
            next_packet_id: self.next_packet_id,
            complete: self.frame_complete,
            buffer: self.image_data@,
        }
    }
}

/// The view of a state that may be absent.
pub open spec fn progress_of(state: Option<FrameState>) -> Option<Progress> {
    match state {
        Some(s) => Some(s@),
        None => None,
    }
}

/// The view of a frame that may be absent.
pub open spec fn frame_of(frame: Option<Vec<u8>>) -> Option<Seq<u8>> {
    match frame {
        Some(f) => Some(f@),
        None => None,
    }
}

/// The sequence number that follows `id`; it wraps with the byte.
pub open spec fn following(id: u8) -> u8 {
    if id == 255 {
        0
    } else {
        (id + 1) as u8
    }
}

/// Starting a frame: only a fragment numbered zero can start one, and a frame
/// is never complete at its first fragment.
pub open spec fn begin_spec(f: Fragment) -> Option<Progress> {
    if f.packet_id != 0 {
        None
    } else {
        Some(
            Progress { frame_id: f.frame_id, next_packet_id: 1, complete: false, buffer: f.payload },
        )
    }
}

/// Folding the next fragment into a frame: the fragment must carry the
/// expected number, and the frame's identifier unless the frame is already
/// complete; otherwise nothing is kept.
pub open spec fn advance_spec(s: Progress, f: Fragment) -> Option<Progress> {
    if f.frame_id != s.frame_id && !s.complete {
        None
    } else if f.packet_id != s.next_packet_id {
        None
    } else {
        Some(
            Progress {
                frame_id: f.frame_id,
                next_packet_id: following(f.packet_id),
                complete: f.last,
                buffer: s.buffer + f.payload,
            },
        )
    }
}

fn next_id(id: u8) -> (next: u8)
    ensures
        next == following(id),
{
    if id == 255 {
        0
    } else {
        id + 1
    }
}

impl FrameState {
    /// Starts a frame from the header fields and payload of its first fragment.
    pub fn begin(frame_id: u8, packet_id: u8, payload: &[u8]) -> (state: Option<FrameState>)
        ensures
            state is Some <==> packet_id == 0,
            state matches Some(s) ==> s@ == (Progress {
                frame_id,
                next_packet_id: 1,
                complete: false,
                buffer: payload@,
            }),
    {
        if packet_id != 0 {
            None
        } else {
            let mut data: Vec<u8> = Vec::with_capacity(payload.len());
            append_bytes(&mut data, payload);
            assert(data@ =~= payload@);
            Some(FrameState { frame_id, next_packet_id: 1, frame_complete: false, image_data: data })
        }
    }

    /// Folds in a fragment given by its header fields, its end-of-frame marker
    /// and its payload.
    pub fn extend(self, frame_id: u8, packet_id: u8, last: bool, payload: &[u8]) -> (state: Option<
        FrameState,
    >)
        ensures
            progress_of(state) == advance_spec(
                self@,
                Fragment { frame_id, packet_id, last, payload: payload@ },
            ),
    {
        if frame_id != self.frame_id && !self.frame_complete {
            return None;
        }
        if packet_id != self.next_packet_id {
            return None;
        }
        let mut data = self.image_data;
        append_bytes(&mut data, payload);
        Some(
            FrameState {
                frame_id,
                next_packet_id: next_id(packet_id),
                frame_complete: last,
                image_data: data,
            },
        )
    }

    /// Starts a frame from its first fragment.
    pub fn from_initial_packet(packet: RemotePlayPacket) -> (state: Option<FrameState>)
        ensures
            progress_of(state) == begin_spec(fragment_of(packet@)),
    {
        FrameState::begin(packet.frame_id, packet.packet_id, packet.image_data.as_slice())
    }

    /// Folds the next fragment into the frame; `None` where the fragment is
    /// out of turn, and with it what was gathered is gone.
    pub fn advance(self, packet: RemotePlayPacket) -> (state: Option<FrameState>)
        ensures
            progress_of(state) == advance_spec(self@, fragment_of(packet@)),
    {
        let last = packet.is_end_of_frame();
        self.extend(packet.frame_id, packet.packet_id, last, packet.image_data.as_slice())
    }
}

/// One step of the reassembler: the next state and the frame handed out, if
/// the fragment completed one.
///
/// With no frame in progress the fragment may start one. Otherwise it is
/// folded in; where that completes the frame, the frame is handed out whole
/// and nothing stays in progress; where the fragment is out of turn, what was
/// gathered is discarded and nothing is handed out.
pub open spec fn step_spec(state: Option<Progress>, f: Fragment) -> (Option<Progress>, Option<Seq<u8>>) {
    match state {
        None => (begin_spec(f), None),
        Some(s) => match advance_spec(s, f) {
            None => (None, None),
            Some(next) => if next.complete {
                (None, Some(next.buffer))
            } else {
                (Some(next), None)
            },
        },
    }
}

/// The reassembler of one screen: the frame in progress, if any.
pub struct Reassembler {
    pub state: Option<FrameState>,
}

impl View for Reassembler {
    type V = Option<Progress>;

    open spec fn view(&self) -> Option<Progress> {
        progress_of(self.state)
    }
}

impl Reassembler {
    /// A reassembler with no frame in progress.
    pub fn new() -> (r: Reassembler)
        ensures
            r@ is None,
    {
        Reassembler { state: None }
    }

    /// Takes the next fragment, given by its header fields, its end-of-frame
    /// marker and its payload, and hands out the frame that it completed.
    pub fn push_fragment(&mut self, frame_id: u8, packet_id: u8, last: bool, payload: &[u8]) -> (frame:
        Option<Vec<u8>>)
        ensures
            (final(self)@, frame_of(frame)) == step_spec(
                old(self)@,
                Fragment { frame_id, packet_id, last, payload: payload@ },
            ),
    {
        match self.state.take() {
            None => {
                self.state = FrameState::begin(frame_id, packet_id, payload);
                None
            },
            Some(state) => match state.extend(frame_id, packet_id, last, payload) {
                None => None,
                Some(next) => {
                    if next.frame_complete {
                        Some(next.image_data)
                    } else {
                        self.state = Some(next);
                        None
                    }
                },
            },
        }
    }

    /// Takes the next fragment of this screen and hands out the frame that it
    /// completed.
    ///
    /// The marker is the one that the packet's flags carry. As the flags are
    /// read, none does (`lemma_marker_never_set`), so a frame is handed out
    /// only where the caller supplies the marker, through `push_fragment`.
    pub fn push(&mut self, packet: RemotePlayPacket) -> (frame: Option<Vec<u8>>)
        ensures
            (final(self)@, frame_of(frame)) == step_spec(old(self)@, fragment_of(packet@)),
    {
        let last = packet.is_end_of_frame();
        self.push_fragment(packet.frame_id, packet.packet_id, last, packet.image_data.as_slice())
    }
}

} // verus!

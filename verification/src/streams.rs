//! Whole streams of fragments: what a reassembler hands out over a run of
//! fragments, and what two reassemblers hand out when a mixed stream is split
//! between them by screen.

use vstd::prelude::*;
use crate::packets::{screen_of, Screen, Wire};
use crate::reassembly::{following, fragment_of, step_spec, Fragment, Progress};

verus! {

/// A reassembler's state together with the frames it has handed out so far.
pub struct Outcome {
    pub state: Option<Progress>,
    pub frames: Seq<Seq<u8>>,
}

/// Nothing in progress and nothing handed out.
pub open spec fn idle() -> Outcome {
    Outcome { state: None, frames: Seq::empty() }
}

/// The outcome after one more fragment.
pub open spec fn feed(o: Outcome, f: Fragment) -> Outcome {
    let (state, frame) = step_spec(o.state, f);
    Outcome {
        state,
        frames: match frame {
            Some(bytes) => o.frames.push(bytes),
            None => o.frames,
        },
    }
}

/// The outcome after a run of fragments, taken in order.
pub open spec fn run_from(o: Outcome, frags: Seq<Fragment>) -> Outcome
    decreases frags.len(),
{
    if frags.len() == 0 {
        o
    } else {
        feed(run_from(o, frags.drop_last()), frags.last())
    }
}

/// The outcome of a run of fragments on a fresh reassembler.
pub open spec fn run(frags: Seq<Fragment>) -> Outcome {
    run_from(idle(), frags)
}

/// The payloads of a run of fragments, one after the other.
pub open spec fn joined(frags: Seq<Fragment>) -> Seq<u8>
    decreases frags.len(),
{
    if frags.len() == 0 {
        Seq::empty()
    } else {
        joined(frags.drop_last()) + frags.last().payload
    }
}

/// The fragments all belong to the frame of the first and are numbered from
/// zero without a gap.
pub open spec fn in_order(frags: Seq<Fragment>) -> bool {
    &&& forall|i: int| 0 <= i < frags.len() ==> (#[trigger] frags[i]).frame_id == frags[0].frame_id
    &&& forall|i: int| 0 <= i < frags.len() ==> (#[trigger] frags[i]).packet_id == i
}

/// None of the fragments after the first carries the end-of-frame marker.
pub open spec fn unfinished(frags: Seq<Fragment>) -> bool {
    forall|i: int| 1 <= i < frags.len() ==> !(#[trigger] frags[i]).last
}

/// Running two runs one after the other is running their concatenation.
pub proof fn lemma_run_concat(o: Outcome, a: Seq<Fragment>, b: Seq<Fragment>)
    ensures
        run_from(o, a + b) == run_from(run_from(o, a), b),
    decreases b.len(),
{
    if b.len() == 0 {
        assert(a + b =~= a);
    } else {
        assert((a + b).drop_last() =~= a + b.drop_last());
        assert((a + b).last() == b.last());
        lemma_run_concat(o, a, b.drop_last());
    }
}

/// While fragments arrive in order and none ends the frame, their payloads
/// pile up in the frame in progress and nothing is handed out.
pub proof fn lemma_in_order_run_gathers(frags: Seq<Fragment>)
    requires
        frags.len() >= 1,
        in_order(frags),
        unfinished(frags),
    ensures
        run(frags) == (Outcome {
            state: Some(
                Progress {
                    frame_id: frags[0].frame_id,
                    next_packet_id: following(frags.last().packet_id),
                    complete: false,
                    buffer: joined(frags),
                },
            ),
            frames: Seq::empty(),
        }),
    decreases frags.len(),
{
    let head = frags.drop_last();
    if frags.len() == 1 {
        assert(head =~= Seq::<Fragment>::empty());
        assert(run(head) == idle());
        assert(joined(head) =~= Seq::<u8>::empty());
        assert(joined(frags) =~= frags[0].payload);
    } else {
        assert(in_order(head)) by {
            assert forall|i: int| 0 <= i < head.len() implies (#[trigger] head[i]).frame_id
                == head[0].frame_id by {
                assert(head[i] == frags[i]);
                assert(head[0] == frags[0]);
            }
            assert forall|i: int| 0 <= i < head.len() implies (#[trigger] head[i]).packet_id
                == i by {
                assert(head[i] == frags[i]);
            }
        }
        assert(unfinished(head)) by {
            assert forall|i: int| 1 <= i < head.len() implies !(#[trigger] head[i]).last by {
                assert(head[i] == frags[i]);
            }
        }
        lemma_in_order_run_gathers(head);
        let n = frags.len() as int;
        assert(head.last() == frags[n - 2]);
        assert(head[0] == frags[0]);
        assert(frags[n - 2].packet_id == n - 2);
        assert(frags[n - 1].packet_id == n - 1);
        assert(frags[n - 1].frame_id == frags[0].frame_id);
        assert(!frags[n - 1].last);
    }
}

/// A frame whose fragments arrive in order, the last of them and no other
/// carrying the end-of-frame marker, is handed out exactly once, as the
/// payloads of its fragments one after the other; nothing stays in progress.
///
/// The frame has at least two fragments: a frame is never complete at its
/// first fragment.
pub proof fn lemma_in_order_frame_is_emitted(frags: Seq<Fragment>)
    requires
        frags.len() >= 2,
        in_order(frags),
        forall|i: int| 0 <= i < frags.len() ==> ((#[trigger] frags[i]).last <==> i == frags.len() - 1),
    ensures
        run(frags) == (Outcome { state: None, frames: seq![joined(frags)] }),
{
    let head = frags.drop_last();
    let n = frags.len() as int;
    assert(in_order(head)) by {
        assert forall|i: int| 0 <= i < head.len() implies (#[trigger] head[i]).frame_id
            == head[0].frame_id by {
            assert(head[i] == frags[i]);
            assert(head[0] == frags[0]);
        }
        assert forall|i: int| 0 <= i < head.len() implies (#[trigger] head[i]).packet_id == i by {
            assert(head[i] == frags[i]);
        }
    }
    assert(unfinished(head)) by {
        assert forall|i: int| 1 <= i < head.len() implies !(#[trigger] head[i]).last by {
            assert(head[i] == frags[i]);
        }
    }
    lemma_in_order_run_gathers(head);
    assert(head.last() == frags[n - 2]);
    assert(head[0] == frags[0]);
    assert(frags[n - 2].packet_id == n - 2);
    assert(frags[n - 1].packet_id == n - 1);
    assert(frags[n - 1].frame_id == frags[0].frame_id);
    assert(frags[n - 1].last);
    assert(run(frags).frames =~= seq![joined(frags)]);
}

/// A gap discards the frame in progress: after fragments that arrived in
/// order, a fragment that does not carry the next number leaves nothing in
/// progress and nothing handed out, so whatever follows is reassembled as on
/// a fresh reassembler.
pub proof fn lemma_gap_drops_frame(prefix: Seq<Fragment>, stray: Fragment, rest: Seq<Fragment>)
    requires
        prefix.len() >= 1,
        in_order(prefix),
        unfinished(prefix),
        stray.packet_id != following(prefix.last().packet_id),
    ensures
        run(prefix.push(stray)) == idle(),
        run(prefix.push(stray) + rest) == run(rest),
{
    lemma_in_order_run_gathers(prefix);
    assert(prefix.push(stray).drop_last() =~= prefix);
    assert(prefix.push(stray).last() == stray);
    assert(run(prefix.push(stray)).frames =~= Seq::<Seq<u8>>::empty());
    lemma_run_concat(idle(), prefix.push(stray), rest);
}

/// With nothing in progress, a fragment that is not numbered zero is passed
/// over, and a fragment numbered zero starts a frame with its payload.
pub proof fn lemma_resumes_at_fragment_zero(f: Fragment)
    ensures
        f.packet_id != 0 ==> feed(idle(), f) == idle(),
        f.packet_id == 0 ==> feed(idle(), f) == (Outcome {
            state: Some(
                Progress {
                    frame_id: f.frame_id,
                    next_packet_id: 1,
                    complete: false,
                    buffer: f.payload,
                },
            ),
            frames: Seq::empty(),
        }),
{
}

/// A fragment together with the screen that its flags name.
pub struct Tagged {
    pub screen: Screen,
    pub fragment: Fragment,
}

/// A packet as the pipeline sees it: its screen and its fragment.
pub open spec fn tagged(w: Wire) -> Tagged {
    Tagged { screen: screen_of(w.flags), fragment: fragment_of(w) }
}

/// The outcomes of the two screens' reassemblers.
pub struct Lanes {
    pub top: Outcome,
    pub bottom: Outcome,
}

impl Lanes {
    pub open spec fn of(self, screen: Screen) -> Outcome {
        match screen {
            Screen::Top => self.top,
            Screen::Bottom => self.bottom,
        }
    }
}

/// Handing one fragment to the reassembler of its screen; the other is left
/// as it is.
pub open spec fn route(l: Lanes, t: Tagged) -> Lanes {
    match t.screen {
        Screen::Top => Lanes { top: feed(l.top, t.fragment), bottom: l.bottom },
        Screen::Bottom => Lanes { top: l.top, bottom: feed(l.bottom, t.fragment) },
    }
}

/// Handing a mixed stream, fragment by fragment, to two fresh reassemblers.
pub open spec fn route_all(ts: Seq<Tagged>) -> Lanes
    decreases ts.len(),
{
    if ts.len() == 0 {
        Lanes { top: idle(), bottom: idle() }
    } else {
        route(route_all(ts.drop_last()), ts.last())
    }
}

/// The fragments of a mixed stream that belong to one screen, in order.
pub open spec fn lane(ts: Seq<Tagged>, screen: Screen) -> Seq<Fragment>
    decreases ts.len(),
{
    if ts.len() == 0 {
        Seq::empty()
    } else if ts.last().screen == screen {
        lane(ts.drop_last(), screen).push(ts.last().fragment)
    } else {
        lane(ts.drop_last(), screen)
    }
}

/// Each screen's reassembler ends where it would have ended had it been given
/// that screen's fragments alone: the same frames handed out, the same frame
/// in progress.
pub proof fn lemma_screens_are_isolated(ts: Seq<Tagged>, screen: Screen)
    ensures
        route_all(ts).of(screen) == run(lane(ts, screen)),
    decreases ts.len(),
{
    if ts.len() > 0 {
        lemma_screens_are_isolated(ts.drop_last(), screen);
        if ts.last().screen == screen {
            let mine = lane(ts.drop_last(), screen);
            assert(mine.push(ts.last().fragment).drop_last() =~= mine);
        }
    }
}

/// What one screen's reassembler hands out does not depend on the fragments
/// of the other screen, nor on where they fall in the stream.
pub proof fn lemma_other_screen_has_no_effect(a: Seq<Tagged>, b: Seq<Tagged>, screen: Screen)
    requires
        lane(a, screen) == lane(b, screen),
    ensures
        route_all(a).of(screen) == route_all(b).of(screen),
{
    lemma_screens_are_isolated(a, screen);
    lemma_screens_are_isolated(b, screen);
}

} // verus!

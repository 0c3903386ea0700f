//! Fan-out of fragments and frames over bounded broadcast buses.
//!
//! Each screen has two buses: one carries its fragments from the ingest loop
//! to its reassembler, the other carries its finished frames from the
//! reassembler to the viewers. Fragments are sent with a blocking broadcast,
//! so a slow reassembler holds the ingest loop back; frames are offered
//! without blocking, so a slow viewer costs it frames and never holds the
//! reassembler back.

use vstd::prelude::*;
use bus::Bus;
use crate::packets::{parse, screen_of, DecodeError, RemotePlayPacket, Screen, Wire};
use crate::reassembly::{fragment_of, step_spec, Reassembler};

verus! {

/// `bus::Bus`, the producing end of a broadcast channel. Nothing inside it is
/// visible here.
#[verifier::external_type_specification]
#[verifier::external_body]
#[verifier::reject_recursive_types(T)]
pub struct ExBus<T>(Bus<T>);

/// The frames that a frame bus has taken so far, oldest first.
pub uninterp spec fn accepted_frames(bus: Bus<Vec<u8>>) -> Seq<Seq<u8>>;

/// The fragments that a fragment bus has taken so far, oldest first.
pub uninterp spec fn accepted_fragments(bus: Bus<RemotePlayPacket>) -> Seq<Wire>;

/// The capacity that a frame bus was made with: the number of items that it
/// is to hold for a subscriber that does not read.
pub uninterp spec fn frame_bus_capacity(bus: Bus<Vec<u8>>) -> nat;

/// The capacity that a fragment bus was made with: the number of items that
/// it is to hold for a subscriber that does not read.
pub uninterp spec fn fragment_bus_capacity(bus: Bus<RemotePlayPacket>) -> nat;

/// Items that a subscriber may lag behind before the bus is full for it.
pub const BUS_CAPACITY: usize = 10;

/// The largest capacity that a bus is created with here.
pub const MAX_BUS_CAPACITY: usize = 4096;

/// Creates a frame bus with `bus::Bus::new`.
///
/// Not proved: that the new bus holds `len` items and has taken nothing yet.
/// The call allocates the whole ring at once, so the capacity is kept small.
#[verifier::external_body]
fn frame_bus_with_capacity(len: usize) -> (bus: Bus<Vec<u8>>)
    requires
        len <= MAX_BUS_CAPACITY,
    ensures
        frame_bus_capacity(bus) == len,
        accepted_frames(bus) == Seq::<Seq<u8>>::empty(),
{
    Bus::new(len)
}

/// Creates a fragment bus with `bus::Bus::new`.
///
/// Not proved: that the new bus holds `len` items and has taken nothing yet.
/// The call allocates the whole ring at once, so the capacity is kept small.
#[verifier::external_body]
fn fragment_bus_with_capacity(len: usize) -> (bus: Bus<RemotePlayPacket>)
    requires
        len <= MAX_BUS_CAPACITY,
    ensures
        fragment_bus_capacity(bus) == len,
        accepted_fragments(bus) == Seq::<Wire>::empty(),
{
    Bus::new(len)
}

/// Offers a frame to a frame bus with `bus::Bus::try_broadcast`, which never
/// blocks.
///
/// Not proved: that on `Ok` the bus has taken the frame after all it took
/// before, that on `Err` it has taken nothing and hands the same frame back,
/// and that its capacity stays. Nor that the call gives `Ok` while the bus
/// has taken fewer items than its capacity: the ring has one seat more than
/// the capacity, and until that many items were sent the seat after the next
/// one was never written, so no subscriber can hold it. After that, whether
/// there is room depends on how far the subscribers have read, and nothing
/// is said of which of the two happens.
#[verifier::external_body]
fn offer_frame(bus: &mut Bus<Vec<u8>>, frame: Vec<u8>) -> (r: Result<(), Vec<u8>>)
    ensures
        frame_bus_capacity(*final(bus)) == frame_bus_capacity(*old(bus)),
        accepted_frames(*old(bus)).len() < frame_bus_capacity(*old(bus)) ==> r is Ok,
        match r {
            Ok(_) => accepted_frames(*final(bus)) == accepted_frames(*old(bus)).push(frame@),
            Err(back) => back@ == frame@ && accepted_frames(*final(bus)) == accepted_frames(
                *old(bus),
            ),
        },
{
    bus.try_broadcast(frame)
}

/// Sends a fragment on a fragment bus with `bus::Bus::broadcast`, which waits
/// for room while a subscriber lags by the bus's whole capacity.
///
/// Not proved: that when the call returns the bus has taken the fragment
/// after all it took before, and that its capacity stays.
#[verifier::external_body]
fn send_fragment(bus: &mut Bus<RemotePlayPacket>, packet: RemotePlayPacket)
    ensures
        fragment_bus_capacity(*final(bus)) == fragment_bus_capacity(*old(bus)),
        accepted_fragments(*final(bus)) == accepted_fragments(*old(bus)).push(packet@),
{
    bus.broadcast(packet)
}

/// A bus for finished frames, with room for `BUS_CAPACITY` of them.
pub fn new_image_bus() -> (bus: Bus<Vec<u8>>)
    ensures
        frame_bus_capacity(bus) == BUS_CAPACITY,
        accepted_frames(bus) == Seq::<Seq<u8>>::empty(),
{
    frame_bus_with_capacity(BUS_CAPACITY)
}

/// A bus for fragments, with room for `BUS_CAPACITY` of them.
pub fn new_packet_bus() -> (bus: Bus<RemotePlayPacket>)
    ensures
        fragment_bus_capacity(bus) == BUS_CAPACITY,
        accepted_fragments(bus) == Seq::<Wire>::empty(),
{
    fragment_bus_with_capacity(BUS_CAPACITY)
}

/// What became of a fragment handed to a screen's reassembly worker.
#[derive(Clone, Copy, Debug, PartialEq, Eq, Structural)]
pub enum Delivery {
    /// The fragment completed no frame.
    Pending,
    /// The fragment completed a frame and the bus took it.
    Published,
    /// The fragment completed a frame and the bus was full: the frame is lost.
    Dropped,
}

impl Delivery {
    /// What became of a frame, from the bus's answer to the offer.
    pub fn of_offer(offer: &Result<(), Vec<u8>>) -> (d: Delivery)
        ensures
            d == (if offer is Ok {
                Delivery::Published
            } else {
                Delivery::Dropped
            }),
    {
        match offer {
            Ok(_) => Delivery::Published,
            Err(_) => Delivery::Dropped,
        }
    }
}

/// Offers a finished frame to the viewers without waiting for any of them.
///
/// The frame is either taken by the bus, after all that it took before, or
/// lost; the result says which. It is taken whenever the bus has taken fewer
/// frames than its capacity: until then no viewer, however slow, can be in
/// the way. After that a frame is lost where a viewer has not read far
/// enough to leave room.
pub fn publish_frame(frames: &mut Bus<Vec<u8>>, frame: Vec<u8>) -> (d: Delivery)
    ensures
        frame_bus_capacity(*final(frames)) == frame_bus_capacity(*old(frames)),
        d != Delivery::Pending,
        accepted_frames(*old(frames)).len() < frame_bus_capacity(*old(frames)) ==> d
            == Delivery::Published,
        d == Delivery::Published ==> accepted_frames(*final(frames)) == accepted_frames(
            *old(frames),
        ).push(frame@),
        d == Delivery::Dropped ==> accepted_frames(*final(frames)) == accepted_frames(*old(frames)),
{
    let offer = offer_frame(frames, frame);
    Delivery::of_offer(&offer)
}

/// One turn of a screen's reassembly worker: the fragment goes to the
/// reassembler, and the frame that it completes, if any, is offered to the
/// viewers, who get it whenever the bus has taken fewer frames than its
/// capacity.
pub fn collect(reassembler: &mut Reassembler, packet: RemotePlayPacket, frames: &mut Bus<
    Vec<u8>,
>) -> (d: Delivery)
    ensures
        frame_bus_capacity(*final(frames)) == frame_bus_capacity(*old(frames)),
        final(reassembler)@ == step_spec(old(reassembler)@, fragment_of(packet@)).0,
        match step_spec(old(reassembler)@, fragment_of(packet@)).1 {
            None => d == Delivery::Pending && accepted_frames(*final(frames)) == accepted_frames(
                *old(frames),
            ),
            Some(frame) => {
                &&& accepted_frames(*old(frames)).len() < frame_bus_capacity(*old(frames)) ==> d
                    == Delivery::Published
                &&& {
                    ||| d == Delivery::Published && accepted_frames(*final(frames))
                        == accepted_frames(*old(frames)).push(frame)
                    ||| d == Delivery::Dropped && accepted_frames(*final(frames))
                        == accepted_frames(*old(frames))
                }
            },
        },
{
    match reassembler.push(packet) {
        None => Delivery::Pending,
        Some(frame) => publish_frame(frames, frame),
    }
}

/// One turn of the ingest loop: the datagram is decoded and its fragment is
/// sent on the bus of the screen that its flags name; the other bus is left
/// alone. A datagram that holds no fragment is dropped and touches neither.
pub fn ingest_datagram(
    datagram: &[u8],
    top: &mut Bus<RemotePlayPacket>,
    bottom: &mut Bus<RemotePlayPacket>,
) -> (r: Result<Screen, DecodeError>)
    ensures
        fragment_bus_capacity(*final(top)) == fragment_bus_capacity(*old(top)),
        fragment_bus_capacity(*final(bottom)) == fragment_bus_capacity(*old(bottom)),
        match r {
            Ok(screen) => {
                &&& parse(datagram@) matches Some(w)
                &&& screen == screen_of(w.flags)
                &&& accepted_fragments(*final(top)) == (if screen == Screen::Top {
                    accepted_fragments(*old(top)).push(w)
                } else {
                    accepted_fragments(*old(top))
                })
                &&& accepted_fragments(*final(bottom)) == (if screen == Screen::Bottom {
                    accepted_fragments(*old(bottom)).push(w)
                } else {
                    accepted_fragments(*old(bottom))
                })
            },
            Err(e) => {
                &&& parse(datagram@) is None
                &&& e.available == datagram.len()
                &&& accepted_fragments(*final(top)) == accepted_fragments(*old(top))
                &&& accepted_fragments(*final(bottom)) == accepted_fragments(*old(bottom))
            },
        },
{
    match RemotePlayPacket::decode(datagram) {
        Err(e) => Err(e),
        Ok(packet) => {
            let screen = packet.screen();
            match screen {
                Screen::Top => send_fragment(top, packet),
                Screen::Bottom => send_fragment(bottom, packet),
            }
            Ok(screen)
        },
    }
}

} // verus!

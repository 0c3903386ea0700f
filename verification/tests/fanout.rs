use bus::Bus;
use ntr_stream::fanout::{
    collect, ingest_datagram, new_image_bus, new_packet_bus, publish_frame, Delivery, BUS_CAPACITY,
};
use ntr_stream::packets::{DecodeError, RemotePlayPacket, Screen};
use ntr_stream::reassembly::Reassembler;
use std::sync::mpsc::TryRecvError;

fn datagram(frame_id: u8, flags: u8, packet_id: u8, fill: u8) -> Vec<u8> {
    let mut bytes = vec![frame_id, flags, 0, packet_id];
    bytes.extend(std::iter::repeat(fill).take(1444));
    bytes
}

#[test]
fn published_frame_reaches_every_subscriber() {
    let mut frames = new_image_bus();
    let mut first = frames.add_rx();
    let mut second = frames.add_rx();
    assert_eq!(publish_frame(&mut frames, vec![1, 2, 3]), Delivery::Published);
    assert_eq!(first.try_recv(), Ok(vec![1, 2, 3]));
    assert_eq!(second.try_recv(), Ok(vec![1, 2, 3]));
    assert_eq!(first.try_recv(), Err(TryRecvError::Empty));
}

#[test]
fn stalled_subscriber_sees_at_most_the_capacity() {
    assert_eq!(BUS_CAPACITY, 10);
    let mut frames = new_image_bus();
    let mut stalled = frames.add_rx();
    for i in 0..BUS_CAPACITY {
        assert_eq!(publish_frame(&mut frames, vec![i as u8]), Delivery::Published);
    }
    assert_eq!(publish_frame(&mut frames, vec![BUS_CAPACITY as u8]), Delivery::Dropped);
    assert_eq!(publish_frame(&mut frames, vec![99]), Delivery::Dropped);
    for i in 0..BUS_CAPACITY {
        assert_eq!(stalled.try_recv(), Ok(vec![i as u8]));
    }
    assert_eq!(stalled.try_recv(), Err(TryRecvError::Empty));
    // once the subscriber has caught up there is room again
    assert_eq!(publish_frame(&mut frames, vec![100]), Delivery::Published);
    assert_eq!(stalled.try_recv(), Ok(vec![100]));
}

#[test]
fn capacity_holds_for_another_bus_size() {
    let capacity = 3usize;
    let mut frames: Bus<Vec<u8>> = Bus::new(capacity);
    let mut stalled = frames.add_rx();
    let mut published = 0;
    for i in 0..capacity + 1 {
        if publish_frame(&mut frames, vec![i as u8]) == Delivery::Published {
            published += 1;
        }
    }
    assert_eq!(published, capacity);
    let mut seen = 0;
    while let Ok(frame) = stalled.try_recv() {
        assert_eq!(frame, vec![seen as u8]);
        seen += 1;
    }
    assert_eq!(seen, capacity);
}

#[test]
fn late_subscriber_sees_only_later_frames() {
    let mut frames = new_image_bus();
    let mut early = frames.add_rx();
    for i in 0..4u8 {
        assert_eq!(publish_frame(&mut frames, vec![i]), Delivery::Published);
    }
    let mut late = frames.add_rx();
    assert_eq!(late.try_recv(), Err(TryRecvError::Empty));
    assert_eq!(publish_frame(&mut frames, vec![4]), Delivery::Published);
    assert_eq!(publish_frame(&mut frames, vec![5]), Delivery::Published);
    assert_eq!(late.try_recv(), Ok(vec![4]));
    assert_eq!(late.try_recv(), Ok(vec![5]));
    assert_eq!(late.try_recv(), Err(TryRecvError::Empty));
    for i in 0..6u8 {
        assert_eq!(early.try_recv(), Ok(vec![i]));
    }
}

#[test]
fn frames_are_published_without_subscribers() {
    let mut frames = new_image_bus();
    for i in 0..(3 * BUS_CAPACITY) {
        assert_eq!(publish_frame(&mut frames, vec![i as u8]), Delivery::Published);
    }
}

#[test]
fn ingest_routes_by_screen() {
    let mut top = new_packet_bus();
    let mut bottom = new_packet_bus();
    let mut top_rx = top.add_rx();
    let mut bottom_rx = bottom.add_rx();

    assert_eq!(ingest_datagram(&datagram(1, 0x01, 0, 7), &mut top, &mut bottom), Ok(Screen::Top));
    assert_eq!(ingest_datagram(&datagram(2, 0x00, 0, 8), &mut top, &mut bottom), Ok(Screen::Bottom));
    assert_eq!(ingest_datagram(&datagram(2, 0x02, 1, 9), &mut top, &mut bottom), Ok(Screen::Bottom));
    assert_eq!(ingest_datagram(&datagram(1, 0x11, 1, 10), &mut top, &mut bottom), Ok(Screen::Top));

    let got: RemotePlayPacket = top_rx.try_recv().unwrap();
    assert_eq!((got.frame_id, got.flags, got.packet_id), (1, 0x01, 0));
    assert_eq!(&got.image_data[..], &[7u8; 1444][..]);
    let got = top_rx.try_recv().unwrap();
    assert_eq!((got.frame_id, got.flags, got.packet_id), (1, 0x11, 1));
    assert_eq!(&got.image_data[..], &[10u8; 1444][..]);
    assert!(top_rx.try_recv().is_err());

    let got = bottom_rx.try_recv().unwrap();
    assert_eq!((got.frame_id, got.flags, got.packet_id), (2, 0x00, 0));
    assert_eq!(&got.image_data[..], &[8u8; 1444][..]);
    let got = bottom_rx.try_recv().unwrap();
    assert_eq!((got.frame_id, got.flags, got.packet_id), (2, 0x02, 1));
    assert!(bottom_rx.try_recv().is_err());
}

#[test]
fn ingest_drops_short_datagrams() {
    let mut top = new_packet_bus();
    let mut bottom = new_packet_bus();
    let mut top_rx = top.add_rx();
    let mut bottom_rx = bottom.add_rx();
    let bytes = datagram(1, 0x01, 0, 7);
    assert_eq!(
        ingest_datagram(&bytes[..1447], &mut top, &mut bottom),
        Err(DecodeError { available: 1447 })
    );
    assert_eq!(ingest_datagram(&[], &mut top, &mut bottom), Err(DecodeError { available: 0 }));
    assert!(top_rx.try_recv().is_err());
    assert!(bottom_rx.try_recv().is_err());
    // the loop goes on with the next datagram
    assert_eq!(ingest_datagram(&bytes, &mut top, &mut bottom), Ok(Screen::Top));
    assert!(top_rx.try_recv().is_ok());
}

#[test]
fn collect_gathers_fragments() {
    let mut frames = new_image_bus();
    let mut viewer = frames.add_rx();
    let mut reassembler = Reassembler::new();
    for id in 0..3u8 {
        let packet = RemotePlayPacket::decode(&datagram(4, 0x01, id, id)).unwrap();
        assert_eq!(collect(&mut reassembler, packet, &mut frames), Delivery::Pending);
    }
    let state = reassembler.state.as_ref().unwrap();
    assert_eq!(state.next_packet_id, 3);
    assert_eq!(state.image_data.len(), 3 * 1444);
    assert_eq!(viewer.try_recv(), Err(TryRecvError::Empty));
    // a gap discards what was gathered
    let packet = RemotePlayPacket::decode(&datagram(4, 0x01, 5, 0)).unwrap();
    assert_eq!(collect(&mut reassembler, packet, &mut frames), Delivery::Pending);
    assert!(reassembler.state.is_none());
    assert_eq!(viewer.try_recv(), Err(TryRecvError::Empty));
}

#[test]
fn delivery_follows_the_offer() {
    assert_eq!(Delivery::of_offer(&Ok(())), Delivery::Published);
    assert_eq!(Delivery::of_offer(&Err(vec![1])), Delivery::Dropped);
}

#[test]
fn frames_are_taken_until_the_capacity_is_reached() {
    for capacity in [1usize, 2, 5] {
        let mut frames: Bus<Vec<u8>> = Bus::new(capacity);
        let _first = frames.add_rx();
        let _second = frames.add_rx();
        for i in 0..capacity {
            assert_eq!(publish_frame(&mut frames, vec![i as u8]), Delivery::Published);
        }
        assert_eq!(publish_frame(&mut frames, vec![0xff]), Delivery::Dropped);
    }
}

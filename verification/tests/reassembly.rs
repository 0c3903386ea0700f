use ntr_stream::packets::{RemotePlayPacket, Screen};
use ntr_stream::reassembly::{FrameState, Reassembler};

fn payload(seed: u8) -> Vec<u8> {
    (0..1444usize).map(|i| seed.wrapping_add((i % 7) as u8)).collect()
}

fn packet(frame_id: u8, flags: u8, packet_id: u8, seed: u8) -> RemotePlayPacket {
    let mut image_data = [0u8; 1444];
    image_data.copy_from_slice(&payload(seed));
    RemotePlayPacket { frame_id, flags, format: 0, packet_id, image_data }
}

#[test]
fn initial_packet_starts_a_frame() {
    let state = FrameState::from_initial_packet(packet(5, 1, 0, 10)).unwrap();
    assert_eq!(state.frame_id, 5);
    assert_eq!(state.next_packet_id, 1);
    assert!(!state.frame_complete);
    assert_eq!(state.image_data, payload(10));
}

#[test]
fn later_packet_cannot_start_a_frame() {
    assert!(FrameState::from_initial_packet(packet(5, 1, 1, 10)).is_none());
    assert!(FrameState::from_initial_packet(packet(5, 1, 255, 10)).is_none());
    assert!(FrameState::begin(5, 3, &payload(1)).is_none());
}

#[test]
fn advance_appends_the_next_packet() {
    let state = FrameState::from_initial_packet(packet(5, 1, 0, 10)).unwrap();
    let state = state.advance(packet(5, 1, 1, 20)).unwrap();
    assert_eq!(state.frame_id, 5);
    assert_eq!(state.next_packet_id, 2);
    assert!(!state.frame_complete);
    let mut expected = payload(10);
    expected.extend(payload(20));
    assert_eq!(state.image_data, expected);
}

#[test]
fn advance_rejects_a_gap() {
    let state = FrameState::from_initial_packet(packet(5, 1, 0, 10)).unwrap();
    assert!(state.advance(packet(5, 1, 2, 20)).is_none());
}

#[test]
fn advance_rejects_a_repeated_packet() {
    let state = FrameState::from_initial_packet(packet(5, 1, 0, 10)).unwrap();
    assert!(state.advance(packet(5, 1, 0, 20)).is_none());
}

#[test]
fn advance_rejects_another_frame() {
    let state = FrameState::from_initial_packet(packet(5, 1, 0, 10)).unwrap();
    assert!(state.advance(packet(6, 1, 1, 20)).is_none());
}

#[test]
fn complete_frame_tolerates_another_frame_id() {
    let state = FrameState::begin(5, 0, &[1, 2]).unwrap();
    let state = state.extend(5, 1, true, &[3]).unwrap();
    assert!(state.frame_complete);
    let state = state.extend(6, 2, false, &[4]).unwrap();
    assert_eq!(state.frame_id, 6);
    assert_eq!(state.next_packet_id, 3);
    assert!(!state.frame_complete);
    assert_eq!(state.image_data, vec![1, 2, 3, 4]);
}

#[test]
fn extend_sets_the_marker_from_the_fragment() {
    let state = FrameState::begin(9, 0, &[1]).unwrap();
    let state = state.extend(9, 1, true, &[2]).unwrap();
    assert!(state.frame_complete);
    assert_eq!(state.image_data, vec![1, 2]);
    assert_eq!(state.next_packet_id, 2);
}

#[test]
fn packet_number_wraps_after_255() {
    let mut state = FrameState::begin(1, 0, &[0]).unwrap();
    for id in 1..=255u8 {
        state = state.extend(1, id, false, &[id]).unwrap();
    }
    assert_eq!(state.next_packet_id, 0);
    assert_eq!(state.image_data.len(), 256);
    let state = state.extend(1, 0, false, &[7]).unwrap();
    assert_eq!(state.next_packet_id, 1);
    assert_eq!(state.image_data.len(), 257);
}

#[test]
fn in_order_frame_is_handed_out_once() {
    let mut reassembler = Reassembler::new();
    assert!(reassembler.state.is_none());
    let n = 5u8;
    let mut expected = Vec::new();
    let mut frames = Vec::new();
    for id in 0..n {
        let bytes = payload(id * 3);
        expected.extend(bytes.iter().copied());
        if let Some(frame) = reassembler.push_fragment(42, id, id == n - 1, &bytes) {
            frames.push(frame);
        }
    }
    assert_eq!(frames, vec![expected]);
    assert!(reassembler.state.is_none());
}

#[test]
fn two_fragment_frame_is_handed_out() {
    let mut reassembler = Reassembler::new();
    assert_eq!(reassembler.push_fragment(1, 0, false, &[1, 2, 3]), None);
    assert_eq!(reassembler.push_fragment(1, 1, true, &[4, 5]), Some(vec![1, 2, 3, 4, 5]));
    assert!(reassembler.state.is_none());
}

#[test]
fn frame_is_not_complete_at_its_first_fragment() {
    let mut reassembler = Reassembler::new();
    assert_eq!(reassembler.push_fragment(1, 0, true, &[1, 2, 3]), None);
    let state = reassembler.state.as_ref().unwrap();
    assert!(!state.frame_complete);
    assert_eq!(state.next_packet_id, 1);
    assert_eq!(state.image_data, vec![1, 2, 3]);
}

#[test]
fn gap_drops_the_frame_and_the_next_frame_comes_through() {
    let mut reassembler = Reassembler::new();
    assert_eq!(reassembler.push_fragment(7, 0, false, &[1]), None);
    assert_eq!(reassembler.push_fragment(7, 1, false, &[2]), None);
    assert_eq!(reassembler.push_fragment(7, 3, true, &[4]), None);
    assert!(reassembler.state.is_none());
    // what is left of the broken frame is passed over
    assert_eq!(reassembler.push_fragment(7, 4, true, &[5]), None);
    assert!(reassembler.state.is_none());
    assert_eq!(reassembler.push_fragment(8, 0, false, &[10]), None);
    assert_eq!(reassembler.push_fragment(8, 1, false, &[11]), None);
    assert_eq!(reassembler.push_fragment(8, 2, true, &[12]), Some(vec![10, 11, 12]));
}

#[test]
fn fragment_of_another_frame_drops_the_frame() {
    let mut reassembler = Reassembler::new();
    assert_eq!(reassembler.push_fragment(7, 0, false, &[1]), None);
    assert_eq!(reassembler.push_fragment(8, 1, true, &[2]), None);
    assert!(reassembler.state.is_none());
}

#[test]
fn stray_fragment_zero_does_not_start_the_next_frame() {
    let mut reassembler = Reassembler::new();
    assert_eq!(reassembler.push_fragment(7, 0, false, &[1]), None);
    assert_eq!(reassembler.push_fragment(8, 0, false, &[2]), None);
    assert!(reassembler.state.is_none());
    assert_eq!(reassembler.push_fragment(8, 1, true, &[3]), None);
}

#[test]
fn idle_reassembler_passes_over_later_fragments() {
    let mut reassembler = Reassembler::new();
    assert_eq!(reassembler.push_fragment(7, 1, false, &[1]), None);
    assert_eq!(reassembler.push_fragment(7, 2, true, &[1]), None);
    assert!(reassembler.state.is_none());
}

#[test]
fn push_gathers_packets() {
    let mut reassembler = Reassembler::new();
    assert_eq!(reassembler.push(packet(3, 0x11, 0, 1)), None);
    assert_eq!(reassembler.push(packet(3, 0x11, 1, 2)), None);
    let state = reassembler.state.as_ref().unwrap();
    assert_eq!(state.frame_id, 3);
    assert_eq!(state.next_packet_id, 2);
    let mut expected = payload(1);
    expected.extend(payload(2));
    assert_eq!(state.image_data, expected);
    assert_eq!(reassembler.push(packet(3, 0x11, 3, 2)), None);
    assert!(reassembler.state.is_none());
}

#[test]
fn screens_do_not_mix() {
    // two frames, one for each screen, with their fragments interleaved
    let top_flags = 0x01u8;
    let bottom_flags = 0x00u8;
    let stream = vec![
        (top_flags, 1u8, 0u8, false, vec![1u8, 1]),
        (bottom_flags, 9, 0, false, vec![2, 2]),
        (bottom_flags, 9, 1, false, vec![2, 3]),
        (top_flags, 1, 1, false, vec![1, 4]),
        (top_flags, 1, 2, true, vec![1, 5]),
        (bottom_flags, 9, 2, true, vec![2, 6]),
    ];
    let mut top = Reassembler::new();
    let mut bottom = Reassembler::new();
    let mut top_frames = Vec::new();
    let mut bottom_frames = Vec::new();
    for (flags, frame_id, packet_id, last, bytes) in stream.iter() {
        let probe = RemotePlayPacket {
            frame_id: *frame_id,
            flags: *flags,
            format: 0,
            packet_id: *packet_id,
            image_data: [0; 1444],
        };
        match probe.screen() {
            Screen::Top => top_frames.extend(top.push_fragment(*frame_id, *packet_id, *last, bytes)),
            Screen::Bottom => {
                bottom_frames.extend(bottom.push_fragment(*frame_id, *packet_id, *last, bytes))
            }
        }
    }
    assert_eq!(top_frames, vec![vec![1u8, 1, 1, 4, 1, 5]]);
    assert_eq!(bottom_frames, vec![vec![2u8, 2, 2, 3, 2, 6]]);

    // each screen's fragments alone give the same frames
    let mut alone = Reassembler::new();
    let mut alone_frames = Vec::new();
    for (flags, frame_id, packet_id, last, bytes) in stream.iter() {
        if *flags == top_flags {
            alone_frames.extend(alone.push_fragment(*frame_id, *packet_id, *last, bytes));
        }
    }
    assert_eq!(alone_frames, top_frames);
}

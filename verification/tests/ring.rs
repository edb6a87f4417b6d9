use myvid::engine::frame::PlanarFrame;
use myvid::engine::protocol::{
    half_up, recv_step, send_step, Layout, RecvOutcome, RecvStep, SendOutcome, SendStep,
};
use myvid::engine::shm::{SharedFrame, Surface, SLOTS};

#[test]
fn a_slot_holds_both_planes() {
    let layout = Layout::new(1920, 1080, 1984, 2048, 3);
    assert_eq!(layout.luma_bytes(), 1984 * 1080);
    assert_eq!(layout.chroma_bytes(), 2048 * 540);
    assert_eq!(layout.slot_bytes, 1984 * 1080 + 2048 * 540);
    assert_eq!(layout.total_bytes(), 3 * (1984 * 1080 + 2048 * 540));
    assert_eq!((layout.width, layout.height, layout.slots), (1920, 1080, 3));
    assert!(layout.is_sound());
}

#[test]
fn an_odd_height_rounds_up() {
    assert_eq!(half_up(3), 2);
    assert_eq!(half_up(u32::MAX), 1 << 31);
    assert_eq!(Layout::new(4, 3, 4, 4, 3).chroma_bytes(), 8);
}

#[test]
fn a_layout_that_contradicts_itself_is_not_sound() {
    let layout = Layout::new(4, 2, 4, 4, 3);
    assert!(!Layout { slots: 0, ..layout }.is_sound());
    assert!(!Layout { slot_bytes: 11, ..layout }.is_sound());
    assert!(Layout { slot_bytes: 13, ..layout }.is_sound());
    assert!(!Layout { y_stride: 5, ..layout }.is_sound());
    let huge = Layout {
        y_stride: u32::MAX,
        height: u32::MAX,
        uv_stride: 0,
        slot_bytes: u32::MAX as u64 * u32::MAX as u64,
        slots: u32::MAX,
        ..layout
    };
    assert!(!huge.is_sound());
}

#[test]
fn what_is_written_to_a_slot_is_read_from_it() {
    let surface = Surface { layout: Layout::new(4, 2, 4, 4, SLOTS) };
    let mut ring = vec![0u8; surface.layout().total_bytes()];
    for slot in 0..SLOTS {
        let luma = vec![10 + slot as u8; 8];
        let chroma = vec![20 + slot as u8; 4];
        surface.write(&mut ring, slot, &luma, &chroma);
    }
    for slot in 0..SLOTS {
        let (luma, y_stride) = surface.plane(&ring, slot, 0).unwrap();
        let (chroma, uv_stride) = surface.plane(&ring, slot, 1).unwrap();
        assert_eq!((luma, y_stride), (&[10 + slot as u8; 8][..], 4));
        assert_eq!((chroma, uv_stride), (&[20 + slot as u8; 4][..], 4));
        assert!(surface.plane(&ring, slot, 2).is_none());
    }
}

#[test]
fn a_plane_too_large_is_cut_and_one_too_small_leaves_the_rest() {
    let surface = Surface { layout: Layout::new(2, 2, 2, 2, 1) };
    let mut ring = vec![0u8; 6];
    surface.write(&mut ring, 0, &[1; 100], &[2]);
    assert_eq!(ring, [1, 1, 1, 1, 2, 0]);
}

#[test]
fn a_mismatched_layout_never_reaches_outside_its_slot() {
    let layout = Layout::new(2, 2, 2, 2, 3);
    for (slot_bytes, slot) in [
        (0, [].as_slice()),
        (3, [1, 1, 1].as_slice()),
        (5, [1, 1, 1, 1, 2].as_slice()),
        (6, [1, 1, 1, 1, 2, 2].as_slice()),
        (8, [1, 1, 1, 1, 2, 2, 0, 0].as_slice()),
    ] {
        let surface = Surface { layout: Layout { slot_bytes, ..layout } };
        let n = slot_bytes as usize;
        let mut ring = vec![0u8; 3 * n];
        surface.write(&mut ring, 1, &[1; 100], &[2; 100]);
        assert_eq!(&ring[n..2 * n], slot);
        assert!(ring[..n].iter().chain(&ring[2 * n..]).all(|byte| *byte == 0));
    }
}

#[test]
fn planes_larger_than_their_slot_are_read_whole_as_far_as_the_buffer_goes() {
    let layout = Layout { slot_bytes: 3, ..Layout::new(2, 2, 2, 2, 3) };
    let surface = Surface { layout };
    let ring = [0u8, 1, 2, 3, 4, 5, 6, 7, 8];
    assert_eq!(surface.plane(&ring, 0, 0).unwrap().0, [0, 1, 2, 3]);
    assert_eq!(surface.plane(&ring, 0, 1).unwrap().0, [4, 5]);
    assert_eq!(surface.plane(&ring, 1, 0).unwrap().0, [3, 4, 5, 6]);
    assert_eq!(surface.plane(&ring, 1, 1).unwrap().0, [7, 8]);
    assert_eq!(surface.plane(&ring, 2, 0).unwrap().0, [6, 7, 8]);
    assert_eq!(surface.plane(&ring, 2, 1).unwrap().0, [0u8; 0]);
}

#[test]
fn a_slot_past_the_last_wraps_round() {
    let surface = Surface { layout: Layout::new(2, 2, 2, 2, 3) };
    let mut ring = vec![0u8; 18];
    surface.write(&mut ring, 4, &[1; 4], &[2; 2]);
    assert_eq!(&ring[6..12], [1, 1, 1, 1, 2, 2]);
    assert_eq!(surface.plane(&ring, 1, 0).unwrap().0, [1; 4]);
}

#[test]
fn a_shared_frame_reads_its_slot() {
    let surface = Surface { layout: Layout::new(2, 2, 2, 2, 3) };
    let mut ring = vec![0u8; 18];
    surface.write(&mut ring, 2, &[5; 4], &[6; 2]);
    let frame = SharedFrame::new(surface, &ring, 2);
    assert_eq!((frame.width(), frame.height()), (2, 2));
    assert_eq!(frame.plane(0).unwrap(), (&[5u8; 4][..], 2));
    assert_eq!(frame.plane(1).unwrap(), (&[6u8; 2][..], 2));
    assert!(frame.plane(2).is_none());
}

#[test]
fn a_signal_is_not_a_failure() {
    assert_eq!(send_step(SendOutcome::Interrupted, true), SendStep::Again);
    assert_eq!(recv_step(RecvOutcome::Interrupted), RecvStep::Again);
}

#[test]
fn a_full_socket_drops_only_what_may_be_dropped() {
    let full = || SendOutcome::Full("full".to_owned());
    assert_eq!(send_step(full(), true), SendStep::Dropped);
    assert_eq!(send_step(full(), false), SendStep::Broken("full".to_owned()));
    assert_eq!(send_step(SendOutcome::Sent, true), SendStep::Sent);
    assert_eq!(
        send_step(SendOutcome::Failed("gone".to_owned()), true),
        SendStep::Broken("gone".to_owned())
    );
}

#[test]
fn nothing_received_means_that_the_other_end_is_gone() {
    assert_eq!(recv_step(RecvOutcome::Received(0)), RecvStep::Gone);
    assert_eq!(recv_step(RecvOutcome::Received(9)), RecvStep::Message(9));
    assert_eq!(
        recv_step(RecvOutcome::Failed("no".to_owned())),
        RecvStep::Broken("no".to_owned())
    );
}

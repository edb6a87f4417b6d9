use myvid::engine::frame::{Frame, FrameSlot, PlanarFrame};
use myvid::render::{chroma_size, has_pixels, texture_size, Upload, VideoPipeline};

struct Still {
    width: u32,
    height: u32,
    luma: Vec<u8>,
}

impl PlanarFrame for Still {
    fn width(&self) -> u32 {
        self.width
    }

    fn height(&self) -> u32 {
        self.height
    }

    fn plane(&self, index: usize) -> Option<(&[u8], u32)> {
        if index == 0 {
            Some((&self.luma, self.width))
        } else {
            None
        }
    }
}

fn still(width: u32, height: u32) -> Box<dyn PlanarFrame> {
    Box::new(Still { width, height, luma: vec![7; (width * height) as usize] })
}

#[test]
fn a_new_slot_is_empty() {
    let slot = FrameSlot::new();
    assert!(slot.read(|f: &Frame| f.is_empty()));
    assert_eq!(slot.read(|f: &Frame| (f.width(), f.height(), f.generation())), (0, 0, 0));
    assert_eq!(slot.read(|f: &Frame| f.plane(0).is_none()), true);
    assert_eq!(slot.aspect(), None);
}

#[test]
fn the_last_frame_wins() {
    let mut slot = FrameSlot::new();
    slot.write(|f: &mut Frame| f.set(still(2, 2)));
    slot.write(|f: &mut Frame| f.set(still(4, 2)));
    assert_eq!(slot.read(|f: &Frame| (f.width(), f.height(), f.generation())), (4, 2, 2));
    assert_eq!(slot.aspect(), Some((4, 2)));
    slot.read(|f: &Frame| {
        let (data, stride) = f.plane(0).unwrap();
        assert_eq!((data.len(), stride), (8, 4));
        assert!(f.plane(1).is_none());
    });
}

#[test]
fn clearing_releases_the_picture_and_counts_anew() {
    let mut slot = FrameSlot::new();
    slot.write(|f: &mut Frame| f.set(still(2, 2)));
    slot.clear();
    assert!(slot.read(|f: &Frame| f.is_empty()));
    assert_eq!(slot.read(|f: &Frame| f.generation()), 0);
    slot.clear();
    assert_eq!(slot.read(|f: &Frame| (f.width(), f.height(), f.generation())), (0, 0, 0));
    assert_eq!(slot.aspect(), None);
    slot.write(|f: &mut Frame| f.set(still(2, 2)));
    assert_eq!(slot.read(|f: &Frame| f.generation()), 1);
}

#[test]
fn a_frame_is_uploaded_once() {
    let mut frame = Frame::empty();
    let mut gpu = VideoPipeline::new();
    assert_eq!(gpu.upload(&frame), Upload { allocate: false, write: false });
    frame.set(still(4, 2));
    assert_eq!(gpu.upload(&frame), Upload { allocate: true, write: true });
    assert_eq!(gpu.upload(&frame), Upload { allocate: false, write: false });
    frame.set(still(4, 2));
    assert_eq!(gpu.upload(&frame), Upload { allocate: false, write: true });
    frame.set(still(8, 2));
    assert_eq!(gpu.upload(&frame), Upload { allocate: true, write: true });
    assert_eq!(gpu.planes, Some((8, 2)));
    assert_eq!(gpu.uploaded, 3);
}

#[test]
fn the_first_frame_after_a_cleared_slot_is_uploaded() {
    let mut slot = FrameSlot::new();
    let mut gpu = VideoPipeline::new();
    slot.write(|f: &mut Frame| f.set(still(4, 2)));
    slot.read(|f: &Frame| gpu.upload(f));
    slot.clear();
    slot.write(|f: &mut Frame| f.set(still(4, 2)));
    assert_eq!(slot.read(|f: &Frame| (f.generation(), f.count())), (1, 2));
    assert_eq!(
        slot.read(|f: &Frame| gpu.upload(f)),
        Upload { allocate: false, write: true }
    );
    assert_eq!(
        slot.read(|f: &Frame| gpu.upload(f)),
        Upload { allocate: false, write: false }
    );
}

#[test]
fn an_empty_slot_leaves_nothing_on_the_gpu() {
    let mut frame = Frame::empty();
    let mut gpu = VideoPipeline::new();
    frame.set(still(4, 2));
    gpu.upload(&frame);
    gpu.upload(&Frame::empty());
    assert_eq!(gpu, VideoPipeline::new());
}

#[test]
fn the_colour_plane_is_half_as_large_rounded_up() {
    assert_eq!(chroma_size(1920, 1080), (960, 540));
    assert_eq!(chroma_size(5, 3), (3, 2));
    assert_eq!(chroma_size(u32::MAX, 0), (1 << 31, 0));
}

#[test]
fn a_texture_has_at_least_one_pixel() {
    assert_eq!(texture_size(0, 0), (1, 1));
    assert_eq!(texture_size(4, 2), (4, 2));
}

#[test]
fn an_empty_plane_is_not_copied() {
    assert!(has_pixels(&[0], 1, 1));
    assert!(!has_pixels(&[], 1, 1));
    assert!(!has_pixels(&[0], 0, 1));
    assert!(!has_pixels(&[0], 1, 0));
}

//! Presentation of decoded frames: what goes to the GPU, and when.
//!
//! A frame is uploaded straight from the decoder's memory, once; the textures for it
//! are rebuilt only when the stream's resolution changes.

use vstd::prelude::*;

use crate::engine::frame::{Frame, PlanarFrame};
use crate::engine::protocol;
use crate::engine::protocol::half_up;

verus! {

/// What is on the GPU.
#[derive(Debug, Clone, Copy, PartialEq, Eq)]
pub struct VideoPipeline {
    /// Width and height of the textures, where there are any.
    pub planes: Option<(u32, u32)>,
    /// Which frame is currently on the GPU, by its count; none has the count 0.
    pub uploaded: u64,
}

/// What to do about the frame in the slot.
#[derive(Debug, Clone, Copy, PartialEq, Eq, Structural)]
pub struct Upload {
    /// Make new textures first, of the frame's size.
    pub allocate: bool,
    /// Copy the frame to the textures.
    pub write: bool,
}

impl VideoPipeline {
    /// Nothing on the GPU yet.
    pub fn new() -> (r: VideoPipeline)
        ensures
            r == (VideoPipeline { planes: None, uploaded: 0 }),
    {
        VideoPipeline { planes: None, uploaded: 0 }
    }

    /// What there is to do about a frame.
    pub open spec fn plan(self, frame: Frame) -> Upload {
        if frame.picture() is None {
            Upload { allocate: false, write: false }
        } else {
            let resized = self.planes != Some((frame.spec_width(), frame.spec_height()));
            let uploaded = if resized {
                0
            } else {
                self.uploaded
            };
            Upload { allocate: resized, write: uploaded != frame.spec_count() }
        }
    }

    /// What is on the GPU once it has been done.
    pub open spec fn after(self, frame: Frame) -> VideoPipeline {
        if frame.picture() is None {
            VideoPipeline { planes: None, uploaded: 0 }
        } else {
            VideoPipeline {
                planes: Some((frame.spec_width(), frame.spec_height())),
                uploaded: frame.spec_count(),
            }
        }
    }

    /// Push the newest decoded frame to the GPU, with new textures if the stream's
    /// resolution changed. An empty slot leaves nothing to show.
    pub fn upload(&mut self, frame: &Frame) -> (r: Upload)
        ensures
            r == old(self).plan(*frame),
            *final(self) == old(self).after(*frame),
    {
        if frame.is_empty() {
            self.planes = None;
            self.uploaded = 0;
            return Upload { allocate: false, write: false };
        }
        let width: u32 = frame.width();
        let height: u32 = frame.height();
        let resized: bool = match self.planes {
            Some((w, h)) => w != width || h != height,
            None => true,
        };
        if resized {
            self.planes = Some((width, height));
            self.uploaded = 0;
        }
        let write: bool = self.uploaded != frame.count();
        self.uploaded = frame.count();
        Upload { allocate: resized, write }
    }
}

/// A frame that has not changed is not uploaded again.
pub proof fn lemma_unchanged_frames_are_skipped(pipeline: VideoPipeline, frame: Frame)
    ensures
        pipeline.after(frame).plan(frame) == (Upload { allocate: false, write: false }),
{
}

/// A new frame is always uploaded: whatever the renderer last saw in the slot, a frame
/// that was taken in after it is written to the textures. That the slot was cleared in
/// between makes no difference, because its count goes on.
pub proof fn lemma_new_frames_are_uploaded(pipeline: VideoPipeline, seen: Frame, frame: Frame)
    requires
        frame.picture() is Some,
        seen.spec_count() < frame.spec_count(),
    ensures
        pipeline.after(seen).plan(frame).write,
        pipeline.after(seen).after(frame).uploaded == frame.spec_count(),
{
}

/// The newest frame is uploaded even where the one before it is on the GPU, the slot was
/// cleared, and the renderer saw nothing of that.
pub proof fn lemma_clearing_hides_no_frame(
    pipeline: VideoPipeline,
    seen: Frame,
    cleared: Frame,
    picture: Option<Box<dyn PlanarFrame>>,
    frame: Frame,
)
    requires
        cleared.forgot(seen),
        frame.took(cleared, picture),
    ensures
        pipeline.after(seen).plan(frame).write,
        frame.picture() == picture,
{
    lemma_new_frames_are_uploaded(pipeline, seen, frame);
}

/// Width and height of the colour plane of a picture: half of each, rounded up.
pub fn chroma_size(width: u32, height: u32) -> (r: (u32, u32))
    ensures
        r.0 == protocol::half(width as int),
        r.1 == protocol::half(height as int),
{
    (half_up(width), half_up(height))
}

/// Width and height of the texture for a plane: a texture has at least one pixel.
pub fn texture_size(width: u32, height: u32) -> (r: (u32, u32))
    ensures
        r.0 == (if width == 0 {
            1
        } else {
            width
        }),
        r.1 == (if height == 0 {
            1
        } else {
            height
        }),
{
    (if width == 0 {
        1
    } else {
        width
    }, if height == 0 {
        1
    } else {
        height
    })
}

/// Whether a plane has anything to copy.
pub fn has_pixels(data: &[u8], width: u32, height: u32) -> (r: bool)
    ensures
        r == (width > 0 && height > 0 && data@.len() > 0),
{
    !(width == 0 || height == 0 || data.len() == 0)
}

/// The planes are made anew exactly where there is a picture of another size than the
/// last, and a picture is sent exactly where it is new or its planes are.
pub proof fn lemma_when_planes_are_made(pipeline: VideoPipeline, frame: Frame)
    ensures
        frame.picture() is None ==> !pipeline.plan(frame).allocate && !pipeline.plan(frame).write
            && pipeline.after(frame).planes is None,
        frame.picture() is Some && pipeline.planes == Some(
            (frame.spec_width(), frame.spec_height()),
        ) ==> !pipeline.plan(frame).allocate && (pipeline.plan(frame).write <==> pipeline.uploaded
            != frame.spec_count()),
        frame.picture() is Some && pipeline.planes != Some(
            (frame.spec_width(), frame.spec_height()),
        ) ==> pipeline.plan(frame).allocate && (frame.spec_count() > 0 ==> pipeline.plan(
            frame,
        ).write),
        frame.picture() is Some ==> pipeline.after(frame).planes == Some(
            (frame.spec_width(), frame.spec_height()),
        ) && pipeline.after(frame).uploaded == frame.spec_count(),
{
}

} // verus!

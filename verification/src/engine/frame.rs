//! The hand-off between whoever decodes and whoever draws.
//!
//! One slot, last frame wins. The decoder replaces what is there; the renderer reads
//! whatever it finds when it wakes. No queue and no back-pressure: if the GPU misses
//! a frame, the next one is already more correct than the one it missed.
//!
//! The slot holds the decoder's own buffer rather than a copy of it.

use vstd::prelude::*;

verus! {

/// A decoded frame owned by whoever produced it.
///
/// Implementations hand out borrowed plane data, so a frame is never copied on its
/// way to the GPU.
pub trait PlanarFrame: Send + Sync {
    /// How wide the frame is; open unless an implementation says.
    closed spec fn spec_width(&self) -> u32 {
        arbitrary()
    }

    /// How high the frame is; open unless an implementation says.
    closed spec fn spec_height(&self) -> u32 {
        arbitrary()
    }

    /// Pixels and row stride of one plane, where there is such a plane; open unless an
    /// implementation says.
    closed spec fn spec_plane(&self, index: nat) -> Option<(Seq<u8>, u32)> {
        arbitrary()
    }

    fn width(&self) -> (r: u32)
        ensures
            r == self.spec_width(),
    ;

    fn height(&self) -> (r: u32)
        ensures
            r == self.spec_height(),
    ;

    /// Pixels and row stride for one plane, or `None` if it does not exist.
    fn plane(&self, index: usize) -> (r: Option<(&[u8], u32)>)
        ensures
            match r {
                Some((data, stride)) => self.spec_plane(index as nat) == Some((data@, stride)),
                None => self.spec_plane(index as nat) is None,
            },
    ;
}

/// The newest frame, if there is one, and how many there have been.
pub struct Frame {
    source: Option<Box<dyn PlanarFrame>>,
    /// Bumped on every write; starts again when the picture is dropped.
    generation: u64,
    /// Bumped on every write and never set back, so the renderer can skip an unchanged
    /// frame and no other.
    count: u64,
}

impl Frame {
    /// What the frame shows.
    pub closed spec fn picture(&self) -> Option<Box<dyn PlanarFrame>> {
        self.source
    }

    /// How many frames there have been since the picture was last dropped.
    pub closed spec fn spec_generation(&self) -> u64 {
        self.generation
    }

    /// How many frames there have ever been.
    pub closed spec fn spec_count(&self) -> u64 {
        self.count
    }

    /// How wide the picture is.
    pub open spec fn spec_width(&self) -> u32 {
        match self.picture() {
            Some(picture) => picture.spec_width(),
            None => 0,
        }
    }

    /// How high the picture is.
    pub open spec fn spec_height(&self) -> u32 {
        match self.picture() {
            Some(picture) => picture.spec_height(),
            None => 0,
        }
    }

    /// One plane of the picture.
    pub open spec fn spec_plane(&self, index: nat) -> Option<(Seq<u8>, u32)> {
        match self.picture() {
            Some(picture) => picture.spec_plane(index),
            None => None,
        }
    }

    /// What there is once a newly decoded frame has been taken in: that frame alone, and
    /// one more of them.
    pub open spec fn took(self, before: Frame, picture: Option<Box<dyn PlanarFrame>>) -> bool {
        &&& picture is Some
        &&& self.picture() == picture
        &&& self.spec_generation() == before.spec_generation() + 1
        &&& self.spec_count() == before.spec_count() + 1
    }

    /// What there is once the picture has been dropped: nothing, counted from the start
    /// again, but for the frames there have ever been.
    pub open spec fn forgot(self, before: Frame) -> bool {
        &&& self.picture() is None
        &&& self.spec_generation() == 0
        &&& self.spec_count() == before.spec_count()
    }

    /// No frame yet.
    pub fn empty() -> (r: Frame)
        ensures
            r.picture() is None,
            r.spec_generation() == 0,
            r.spec_count() == 0,
    {
        Frame { source: None, generation: 0, count: 0 }
    }

    pub fn is_empty(&self) -> (r: bool)
        ensures
            r == (self.picture() is None),
    {
        self.source.is_none()
    }

    pub fn generation(&self) -> (r: u64)
        ensures
            r == self.spec_generation(),
    {
        self.generation
    }

    /// How many frames there have ever been.
    pub fn count(&self) -> (r: u64)
        ensures
            r == self.spec_count(),
    {
        self.count
    }

    pub fn width(&self) -> (r: u32)
        ensures
            r == self.spec_width(),
    {
        match &self.source {
            Some(source) => source.width(),
            None => 0,
        }
    }

    pub fn height(&self) -> (r: u32)
        ensures
            r == self.spec_height(),
    {
        match &self.source {
            Some(source) => source.height(),
            None => 0,
        }
    }

    pub fn plane(&self, index: usize) -> (r: Option<(&[u8], u32)>)
        ensures
            match r {
                Some((data, stride)) => self.spec_plane(index as nat) == Some((data@, stride)),
                None => self.spec_plane(index as nat) is None,
            },
    {
        match &self.source {
            Some(source) => source.plane(index),
            None => None,
        }
    }

    /// Take ownership of a newly decoded frame, dropping the previous one.
    pub fn set(&mut self, source: Box<dyn PlanarFrame>)
        requires
            old(self).spec_generation() < u64::MAX,
            old(self).spec_count() < u64::MAX,
        ensures
            final(self).picture() == Some(source),
            final(self).took(*old(self), final(self).picture()),
    {
        let held = Some(source);
        self.source = held;
        self.generation = self.generation + 1;
        self.count = self.count + 1;
    }

    /// Drop the picture, and start the generation again.
    fn forget(&mut self)
        ensures
            final(self).forgot(*old(self)),
    {
        self.source = None;
        self.generation = 0;
    }
}

/// The frame slot.
pub struct FrameSlot {
    frame: Frame,
}

impl FrameSlot {
    /// What is in the slot.
    pub closed spec fn held(&self) -> Frame {
        self.frame
    }

    /// Width and height of the last frame, if there is one.
    pub open spec fn spec_aspect(&self) -> Option<(u32, u32)> {
        if self.held().picture() is Some {
            Some((self.held().spec_width(), self.held().spec_height()))
        } else {
            None
        }
    }

    pub fn new() -> (r: FrameSlot)
        ensures
            r.held().picture() is None,
            r.held().spec_generation() == 0,
            r.held().spec_count() == 0,
    {
        FrameSlot { frame: Frame::empty() }
    }

    /// Work on what is in the slot.
    pub fn write<R, F: FnOnce(&mut Frame) -> R>(&mut self, f: F) -> (r: R)
        requires
            forall|m: &mut Frame| *m == old(self).held() ==> #[trigger] f.requires((m,)),
        ensures
            exists|m: &mut Frame|
                *m == old(self).held() && *final(m) == final(self).held() && #[trigger] f.ensures(
                    (m,),
                    r,
                ),
    {
        f(&mut self.frame)
    }

    /// Look at what is in the slot.
    pub fn read<R, F: FnOnce(&Frame) -> R>(&self, f: F) -> (r: R)
        requires
            f.requires((&self.held(),)),
        ensures
            f.ensures((&self.held(),), r),
    {
        f(&self.frame)
    }

    /// Width and height of the last frame, if there is one: its aspect ratio is the
    /// one over the other.
    pub fn aspect(&self) -> (r: Option<(u32, u32)>)
        ensures
            r == self.spec_aspect(),
    {
        if self.frame.is_empty() {
            None
        } else {
            Some((self.frame.width(), self.frame.height()))
        }
    }

    /// Drop the current picture, so the last frame of the previous file does not
    /// linger behind the next one. Also releases the decoder's buffer.
    pub fn clear(&mut self)
        ensures
            final(self).held().forgot(old(self).held()),
    {
        self.frame.forget();
    }
}

/// The last frame wins: however many frames a slot takes in, one after another, what it
/// holds is the last of them alone, with its size and its planes, and each is counted.
pub proof fn lemma_last_frame_wins(
    slots: Seq<FrameSlot>,
    sources: Seq<Option<Box<dyn PlanarFrame>>>,
)
    requires
        sources.len() > 0,
        slots.len() == sources.len() + 1,
        forall|i: int|
            0 <= i < sources.len() ==> (#[trigger] slots[i + 1]).held().took(
                slots[i].held(),
                sources[i],
            ),
    ensures
        slots.last().held().picture() == sources.last(),
        slots.last().held().spec_width() == sources.last()->0.spec_width(),
        slots.last().held().spec_height() == sources.last()->0.spec_height(),
        forall|index: nat| #[trigger]
            slots.last().held().spec_plane(index) == sources.last()->0.spec_plane(index),
        slots.last().held().spec_generation() == slots[0].held().spec_generation() + sources.len(),
        slots.last().held().spec_count() == slots[0].held().spec_count() + sources.len(),
        slots.last().spec_aspect() == Some(
            (sources.last()->0.spec_width(), sources.last()->0.spec_height()),
        ),
    decreases sources.len(),
{
    let n = sources.len() - 1;
    assert(slots[n + 1].held().took(slots[n].held(), sources[n]));
    if n > 0 {
        let before = slots.drop_last();
        let earlier = sources.drop_last();
        assert forall|i: int| 0 <= i < earlier.len() implies (
        #[trigger] before[i + 1]).held().took(before[i].held(), earlier[i]) by {
            assert(slots[i + 1].held().took(slots[i].held(), sources[i]));
        }
        lemma_last_frame_wins(before, earlier);
    }
}

/// A cleared slot reads like a new one, and clearing it again changes nothing.
pub proof fn lemma_clearing_twice(before: FrameSlot, cleared: FrameSlot, again: FrameSlot)
    requires
        cleared.held().forgot(before.held()),
        again.held().forgot(cleared.held()),
    ensures
        again == cleared,
        cleared.held().picture() is None,
        cleared.held().spec_generation() == 0,
        cleared.held().spec_width() == 0,
        cleared.held().spec_height() == 0,
        forall|index: nat| (#[trigger] cleared.held().spec_plane(index)) is None,
        cleared.spec_aspect() is None,
{
}

} // verus!

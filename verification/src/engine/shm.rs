//! The shared frame buffer between the decode process and the renderer.
//!
//! Process isolation costs a copy: the decoder's own buffer lives in its address
//! space, so a frame has to be written somewhere both sides can see. This is that
//! place: a byte range, mapped by both, holding a small ring of frames.
//!
//! The ring is what makes the copy safe without locking. The decoder writes the next
//! slot while the player reads the last one, and only laps it if the player stalls
//! for several frames, at which point the picture is stale anyway.

use vstd::prelude::*;

use crate::engine::frame::PlanarFrame;
use crate::engine::protocol;
use crate::engine::protocol::Layout;

verus! {

/// Enough slots that a late reader is never overwritten mid-read, and few enough
/// that the buffer stays a few megabytes.
pub const SLOTS: u32 = 3;

/// A byte range with some of it replaced.
pub open spec fn overwritten(ring: Seq<u8>, at: int, data: Seq<u8>) -> Seq<u8> {
    ring.take(at) + data + ring.skip(at + data.len())
}

/// As much of some data as there is room for.
pub open spec fn cut(data: Seq<u8>, room: int) -> Seq<u8> {
    if data.len() > room {
        data.take(room)
    } else {
        data
    }
}

/// The arrangement of a shared buffer, for reaching the frames in its bytes.
#[derive(Debug, Clone, Copy, PartialEq, Eq, Structural)]
pub struct Surface {
    pub layout: Layout,
}

impl Surface {
    /// Where a slot starts. A slot past the last wraps round.
    pub open spec fn offset(self, slot: u32) -> int {
        (slot as int % self.layout.slots as int) * self.layout.slot_bytes
    }

    /// The buffer once a frame has been copied into a slot.
    pub open spec fn with_frame(
        self,
        ring: Seq<u8>,
        slot: u32,
        luma: Seq<u8>,
        chroma: Seq<u8>,
    ) -> Seq<u8> {
        let at = self.offset(slot);
        overwritten(
            overwritten(ring, at, cut(luma, self.layout.luma_room())),
            at + self.layout.luma_room(),
            cut(chroma, self.layout.chroma_room()),
        )
    }

    /// The bytes of a slot.
    pub open spec fn bytes_of(self, ring: Seq<u8>, slot: u32) -> Seq<u8> {
        ring.subrange(self.offset(slot), self.offset(slot) + self.layout.slot_bytes)
    }

    /// Pixels and row stride of one plane of a slot. Planes that are larger than the slot
    /// run on behind it, as far as the buffer goes.
    pub open spec fn plane_of(self, ring: Seq<u8>, slot: u32, index: nat) -> Option<
        (Seq<u8>, u32),
    > {
        let start = self.offset(slot);
        let middle = no_further(start + self.layout.luma(), ring.len() as int);
        let end = no_further(start + self.layout.luma() + self.layout.chroma(), ring.len() as int);
        if index == 0 {
            Some((ring.subrange(start, middle), self.layout.y_stride))
        } else if index == 1 {
            Some((ring.subrange(middle, end), self.layout.uv_stride))
        } else {
            None
        }
    }

    pub fn layout(&self) -> (r: Layout)
        ensures
            r == self.layout,
    {
        self.layout
    }

    fn slot_offset(&self, slot: u32) -> (r: usize)
        requires
            self.layout.addressable(),
        ensures
            r == self.offset(slot),
            r + self.layout.slot_bytes <= self.layout.total(),
    {
        proof {
            lemma_slot_inside(*self, slot);
        }
        (slot % self.layout.slots) as usize * self.layout.slot_bytes as usize
    }

    /// Copy one frame's planes into a slot. Decoder side.
    ///
    /// A plane larger than its place in the slot is truncated rather than overrunning
    /// it, which is the safe failure for a mismatched layout: nothing outside the slot
    /// is ever written.
    pub fn write(&self, ring: &mut [u8], slot: u32, luma: &[u8], chroma: &[u8])
        requires
            self.layout.addressable(),
            old(ring)@.len() == self.layout.total(),
        ensures
            final(ring)@ == self.with_frame(old(ring)@, slot, luma@, chroma@),
            final(ring)@.len() == old(ring)@.len(),
            forall|i: int|
                0 <= i < old(ring)@.len() && !(self.offset(slot) <= i < self.offset(slot)
                    + self.layout.slot_bytes) ==> #[trigger] final(ring)@[i] == old(ring)@[i],
    {
        let offset: usize = self.slot_offset(slot);
        proof {
            lemma_slot_inside(*self, slot);
        }
        let (luma_room, chroma_room) = self.layout.rooms();
        let luma_len: usize = if luma.len() > luma_room {
            luma_room
        } else {
            luma.len()
        };
        let chroma_len: usize = if chroma.len() > chroma_room {
            chroma_room
        } else {
            chroma.len()
        };
        copy_into(ring, offset, luma, luma_len);
        copy_into(ring, offset + luma_room, chroma, chroma_len);
        proof {
            assert(luma@.take(luma_len as int) =~= cut(luma@, self.layout.luma_room()));
            assert(chroma@.take(chroma_len as int) =~= cut(chroma@, self.layout.chroma_room()));
        }
    }

    /// One plane of a slot, read directly out of the buffer.
    pub fn plane<'r>(&self, ring: &'r [u8], slot: u32, index: usize) -> (r: Option<
        (&'r [u8], u32),
    >)
        requires
            self.layout.addressable(),
            ring@.len() == self.layout.total(),
        ensures
            match r {
                Some((data, stride)) => self.plane_of(ring@, slot, index as nat) == Some(
                    (data@, stride),
                ),
                None => self.plane_of(ring@, slot, index as nat) is None,
            },
    {
        let start: usize = self.slot_offset(slot);
        let (luma, chroma) = self.layout.plane_bytes();
        let middle: usize = up_to(start as u128 + luma as u128, ring.len());
        let end: usize = up_to(start as u128 + luma as u128 + chroma as u128, ring.len());
        match index {
            0 => Some((&ring[start..middle], self.layout.y_stride)),
            1 => Some((&ring[middle..end], self.layout.uv_stride)),
            _ => None,
        }
    }
}

/// A place, or the end where the place is past it.
pub open spec fn no_further(place: int, end: int) -> int {
    if place < end {
        place
    } else {
        end
    }
}

/// A place, or the end where the place is past it.
fn up_to(place: u128, end: usize) -> (r: usize)
    ensures
        r == no_further(place as int, end as int),
{
    if place < end as u128 {
        place as usize
    } else {
        end
    }
}

/// Copy the first `len` bytes of some data to a place in a byte range.
fn copy_into(ring: &mut [u8], at: usize, data: &[u8], len: usize)
    requires
        len <= data@.len(),
        at + len <= old(ring)@.len(),
    ensures
        final(ring)@ == overwritten(old(ring)@, at as int, data@.take(len as int)),
        final(ring)@.len() == old(ring)@.len(),
{
    let ghost before = ring@;
    let room: usize = ring.len();
    let mut i: usize = 0;
    while i < len
        invariant
            i <= len <= data@.len(),
            at + len <= room == ring@.len(),
            ring@.len() == before.len(),
            ring@ =~= overwritten(before, at as int, data@.take(i as int)),
        decreases len - i,
    {
        ring[at + i] = data[i];
        i += 1;
    }
}

/// Every slot is inside the buffer, and the rooms for both planes are inside the slot.
proof fn lemma_slot_inside(surface: Surface, slot: u32)
    requires
        surface.layout.addressable(),
    ensures
        0 <= surface.offset(slot),
        surface.offset(slot) + surface.layout.slot_bytes <= surface.layout.total(),
        surface.layout.slot_bytes <= surface.layout.total(),
        0 <= surface.layout.luma_room(),
        0 <= surface.layout.chroma_room(),
        surface.layout.luma_room() + surface.layout.chroma_room() <= surface.layout.slot_bytes,
{
    let layout = surface.layout;
    let k = slot as int % layout.slots as int;
    let n = layout.slot_bytes as int;
    let slots = layout.slots as int;
    assert(0 <= k * n && k * n + n <= slots * n && n <= slots * n) by (nonlinear_arith)
        requires
            0 <= k < slots,
            0 <= n,
    ;
    assert(slots * n == n * slots) by (nonlinear_arith);
    assert(0 <= layout.y_stride * layout.height) by (nonlinear_arith)
        requires
            0 <= layout.y_stride,
            0 <= layout.height,
    ;
    let rows = protocol::half(layout.height as int);
    assert(0 <= layout.uv_stride * rows) by (nonlinear_arith)
        requires
            0 <= layout.uv_stride,
            0 <= rows,
    ;
}

/// Where a slot holds both planes, what is read from it is what was last written to it:
/// both planes, as far as each was long enough to fill its place.
pub proof fn lemma_read_gives_back_write(
    surface: Surface,
    ring: Seq<u8>,
    slot: u32,
    luma: Seq<u8>,
    chroma: Seq<u8>,
)
    requires
        surface.layout.sound(),
        ring.len() == surface.layout.total(),
        luma.len() >= surface.layout.luma(),
        chroma.len() >= surface.layout.chroma(),
    ensures
        surface.plane_of(surface.with_frame(ring, slot, luma, chroma), slot, 0) == Some(
            (luma.take(surface.layout.luma()), surface.layout.y_stride),
        ),
        surface.plane_of(surface.with_frame(ring, slot, luma, chroma), slot, 1) == Some(
            (chroma.take(surface.layout.chroma()), surface.layout.uv_stride),
        ),
{
    lemma_slot_inside(surface, slot);
    lemma_planes_inside(surface, slot);
    let at = surface.offset(slot);
    let middle = at + surface.layout.luma();
    let after = surface.with_frame(ring, slot, luma, chroma);
    assert(surface.layout.luma_room() == surface.layout.luma());
    assert(surface.layout.chroma_room() == surface.layout.chroma());
    assert(after.subrange(at, middle) =~= luma.take(surface.layout.luma()));
    assert(after.subrange(middle, middle + surface.layout.chroma()) =~= chroma.take(
        surface.layout.chroma(),
    ));
}

/// Where a slot holds both planes, they are inside the buffer.
proof fn lemma_planes_inside(surface: Surface, slot: u32)
    requires
        surface.layout.sound(),
    ensures
        0 <= surface.layout.luma(),
        0 <= surface.layout.chroma(),
        surface.offset(slot) + surface.layout.luma() + surface.layout.chroma()
            <= surface.layout.total(),
{
    lemma_slot_inside(surface, slot);
}

/// Writing one slot leaves the bytes of every other slot as they were, whatever is
/// written and however the layout is mismatched; and with them the planes, where a slot
/// holds both.
pub proof fn lemma_other_slots_are_untouched(
    surface: Surface,
    ring: Seq<u8>,
    slot: u32,
    other: u32,
    luma: Seq<u8>,
    chroma: Seq<u8>,
    index: nat,
)
    requires
        surface.layout.addressable(),
        ring.len() == surface.layout.total(),
        slot as int % surface.layout.slots as int != other as int % surface.layout.slots as int,
    ensures
        surface.bytes_of(surface.with_frame(ring, slot, luma, chroma), other) == surface.bytes_of(
            ring,
            other,
        ),
        surface.layout.sound() ==> surface.plane_of(
            surface.with_frame(ring, slot, luma, chroma),
            other,
            index,
        ) == surface.plane_of(ring, other, index),
{
    lemma_slot_inside(surface, slot);
    lemma_slot_inside(surface, other);
    let n = surface.layout.slot_bytes as int;
    let a = slot as int % surface.layout.slots as int;
    let b = other as int % surface.layout.slots as int;
    assert(a < b ==> a * n + n <= b * n) by (nonlinear_arith)
        requires
            0 <= n,
    ;
    assert(b < a ==> b * n + n <= a * n) by (nonlinear_arith)
        requires
            0 <= n,
    ;
    let at = surface.offset(other);
    let after = surface.with_frame(ring, slot, luma, chroma);
    assert(after.len() == ring.len());
    assert(surface.bytes_of(after, other) =~= surface.bytes_of(ring, other));
    if surface.layout.sound() {
        lemma_planes_inside(surface, other);
        let middle = at + surface.layout.luma();
        let end = middle + surface.layout.chroma();
        assert(after.subrange(at, middle) =~= ring.subrange(at, middle));
        assert(after.subrange(middle, end) =~= ring.subrange(middle, end));
    }
}

/// The slot that a frame goes to.
pub open spec fn slot_for(generation: int) -> int {
    generation % (SLOTS as int)
}

/// A frame is still whole while the next two are being written: they go to other
/// slots.
pub proof fn lemma_reader_is_not_lapped(generation: int)
    requires
        0 <= generation,
    ensures
        slot_for(generation) != slot_for(generation + 1),
        slot_for(generation) != slot_for(generation + 2),
        0 <= slot_for(generation) < SLOTS,
{
}

/// One frame, read directly out of a slot in the shared buffer.
pub struct SharedFrame<'r> {
    surface: Surface,
    ring: &'r [u8],
    slot: u32,
}

impl<'r> SharedFrame<'r> {
    /// The buffer's bytes are all there.
    #[verifier::type_invariant]
    spec fn whole(&self) -> bool {
        self.surface.layout.addressable() && self.ring@.len() == self.surface.layout.total()
    }

    /// The buffer that the frame is in.
    pub closed spec fn spec_surface(&self) -> Surface {
        self.surface
    }

    /// The bytes of the buffer.
    pub closed spec fn bytes(&self) -> Seq<u8> {
        self.ring@
    }

    /// The slot that the frame is in.
    pub closed spec fn spec_slot(&self) -> u32 {
        self.slot
    }

    pub fn new(surface: Surface, ring: &'r [u8], slot: u32) -> (r: SharedFrame<'r>)
        requires
            surface.layout.addressable(),
            ring@.len() == surface.layout.total(),
        ensures
            r.spec_surface() == surface,
            r.bytes() == ring@,
            r.spec_slot() == slot,
    {
        SharedFrame { surface, ring, slot }
    }
}

impl<'r> PlanarFrame for SharedFrame<'r> {
    open spec fn spec_width(&self) -> u32 {
        self.spec_surface().layout.width
    }

    open spec fn spec_height(&self) -> u32 {
        self.spec_surface().layout.height
    }

    open spec fn spec_plane(&self, index: nat) -> Option<(Seq<u8>, u32)> {
        self.spec_surface().plane_of(self.bytes(), self.spec_slot(), index)
    }

    fn width(&self) -> u32 {
        self.surface.layout.width
    }

    fn height(&self) -> u32 {
        self.surface.layout.height
    }

    fn plane(&self, index: usize) -> Option<(&[u8], u32)> {
        proof {
            use_type_invariant(self);
        }
        self.surface.plane(self.ring, self.slot, index)
    }
}

} // verus!

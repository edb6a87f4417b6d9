//! The conversation between the player and its decode process.
//!
//! One socket pair of sequenced packets carries everything. Packets preserve message
//! boundaries, so each send is one message and needs no length framing.

use vstd::prelude::*;

use crate::engine::{AudioEffects, MediaInfo, State, Track, TrackKind};

verus! {

/// Generous for a track listing; nothing here carries pixels.
pub const MAX_MESSAGE: usize = 262_144;

/// Player to decoder.
#[derive(Debug, Clone, PartialEq, Eq)]
pub enum Request {
    /// Confine this decoder to one file, then play it.
    ///
    /// The path arrives before the sandbox closes, and is the only thing outside the
    /// system directories the process will ever be able to open, so a decoder is
    /// confined to the single film it was started for.
    PlayPath(String),
    /// Play a network source, which the decoder must open itself.
    PlayUri(String),
    Resume,
    Pause,
    /// Where to, in nanoseconds.
    Seek(u64),
    /// How loud, in percent.
    Volume(u32),
    AudioEffects(AudioEffects),
    /// How fast, in hundredths.
    Rate(u32),
    SelectTrack { kind: TrackKind, id: Option<String> },
    Shutdown,
}

/// Decoder to player.
#[derive(Debug, Clone, PartialEq, Eq)]
pub enum Notice {
    /// Sent at startup, and again on being confined: how well the decoder is
    /// confined.
    Ready { confinement: String },
    State(State),
    Duration(u64),
    Position(u64),
    Buffering(u8),
    Loaded(MediaInfo),
    Tracks(Vec<Track>),
    /// A new shared frame buffer, attached as a descriptor. Sent whenever the
    /// stream's resolution changes.
    Surface(Layout),
    /// Slot `slot` now holds frame `generation`, handed over at `sent_ns`
    /// (nanoseconds since the epoch, so both processes read the same clock).
    Frame { slot: u32, generation: u64, sent_ns: u64 },
    Subtitle { text: Option<String>, start: u64, end: u64 },
    Eos,
    Failed(String),
}

/// Half of a number of rows or columns, rounded up: what the colour of a picture
/// has.
pub open spec fn half(n: int) -> int {
    (n + 1) / 2
}

/// Half of a number of rows or columns, rounded up.
pub fn half_up(n: u32) -> (r: u32)
    ensures
        r == half(n as int),
{
    n / 2 + n % 2
}

/// How pixels are arranged in the shared buffer.
#[derive(Debug, Clone, Copy, PartialEq, Eq, Structural)]
pub struct Layout {
    pub width: u32,
    pub height: u32,
    pub y_stride: u32,
    pub uv_stride: u32,
    /// Bytes per slot, including both planes.
    pub slot_bytes: u64,
    /// How many frames the buffer holds before wrapping.
    pub slots: u32,
}

/// Bytes of a brightness plane.
pub open spec fn luma_size(y_stride: u32, height: u32) -> int {
    y_stride * height
}

/// Bytes of a colour plane.
pub open spec fn chroma_size(uv_stride: u32, height: u32) -> int {
    uv_stride * half(height as int)
}

impl Layout {
    /// Bytes of the brightness plane.
    pub open spec fn luma(self) -> int {
        luma_size(self.y_stride, self.height)
    }

    /// Bytes of the colour plane.
    pub open spec fn chroma(self) -> int {
        chroma_size(self.uv_stride, self.height)
    }

    /// Bytes of the whole buffer.
    pub open spec fn total(self) -> int {
        self.slot_bytes * self.slots
    }

    /// Whether the buffer is one that this machine can address: it has slots, and the
    /// whole fits.
    pub open spec fn addressable(self) -> bool {
        &&& self.slots > 0
        &&& self.total() <= usize::MAX
    }

    /// Whether the buffer is one that frames fit in: it can be addressed, and a slot
    /// holds both planes.
    pub open spec fn sound(self) -> bool {
        &&& self.addressable()
        &&& self.luma() + self.chroma() <= self.slot_bytes
    }

    /// How much of the brightness plane a slot has room for.
    pub open spec fn luma_room(self) -> int {
        if self.luma() < self.slot_bytes {
            self.luma()
        } else {
            self.slot_bytes as int
        }
    }

    /// How much of the colour plane a slot has room for, behind the brightness plane.
    pub open spec fn chroma_room(self) -> int {
        if self.chroma() < self.slot_bytes - self.luma_room() {
            self.chroma()
        } else {
            self.slot_bytes - self.luma_room()
        }
    }

    pub fn new(width: u32, height: u32, y_stride: u32, uv_stride: u32, slots: u32) -> (r: Layout)
        requires
            luma_size(y_stride, height) + chroma_size(uv_stride, height) <= u64::MAX,
        ensures
            r.width == width,
            r.height == height,
            r.y_stride == y_stride,
            r.uv_stride == uv_stride,
            r.slot_bytes == luma_size(y_stride, height) + chroma_size(uv_stride, height),
            r.slots == slots,
    {
        let rows: u32 = half_up(height);
        proof {
            lemma_product_fits(y_stride, height);
            lemma_product_fits(uv_stride, rows);
        }
        let luma: u64 = y_stride as u64 * height as u64;
        let chroma: u64 = uv_stride as u64 * rows as u64;
        Layout { width, height, y_stride, uv_stride, slot_bytes: luma + chroma, slots }
    }

    pub fn luma_bytes(&self) -> (r: usize)
        requires
            self.luma() <= usize::MAX,
        ensures
            r == self.luma(),
    {
        self.y_stride as usize * self.height as usize
    }

    pub fn chroma_bytes(&self) -> (r: usize)
        requires
            self.chroma() <= usize::MAX,
        ensures
            r == self.chroma(),
    {
        self.uv_stride as usize * half_up(self.height) as usize
    }

    pub fn total_bytes(&self) -> (r: usize)
        requires
            self.slot_bytes <= usize::MAX,
            self.total() <= usize::MAX,
        ensures
            r == self.total(),
    {
        self.slot_bytes as usize * self.slots as usize
    }

    /// Bytes of both planes, whether this machine can address them or not.
    pub fn plane_bytes(&self) -> (r: (u64, u64))
        ensures
            r.0 == self.luma(),
            r.1 == self.chroma(),
    {
        let rows: u32 = half_up(self.height);
        proof {
            lemma_product_fits(self.y_stride, self.height);
            lemma_product_fits(self.uv_stride, rows);
        }
        (self.y_stride as u64 * self.height as u64, self.uv_stride as u64 * rows as u64)
    }

    /// How much of each plane a slot has room for.
    pub fn rooms(&self) -> (r: (usize, usize))
        requires
            self.slot_bytes <= usize::MAX,
        ensures
            r.0 == self.luma_room(),
            r.1 == self.chroma_room(),
            r.0 + r.1 <= self.slot_bytes,
    {
        let (luma, chroma) = self.plane_bytes();
        let first: u64 = if luma < self.slot_bytes {
            luma
        } else {
            self.slot_bytes
        };
        let left: u64 = self.slot_bytes - first;
        let second: u64 = if chroma < left {
            chroma
        } else {
            left
        };
        (first as usize, second as usize)
    }

    /// Whether this is a layout that frames fit in.
    pub fn is_sound(&self) -> (r: bool)
        ensures
            r == self.sound(),
    {
        let rows: u32 = half_up(self.height);
        proof {
            lemma_product_fits(self.y_stride, self.height);
            lemma_product_fits(self.uv_stride, rows);
            assert(self.slot_bytes * self.slots <= 0xffff_ffff_ffff_ffff * 0xffff_ffff) by (nonlinear_arith)
                requires
                    self.slot_bytes <= 0xffff_ffff_ffff_ffff,
                    self.slots <= 0xffff_ffff,
            ;
        }
        let luma: u128 = self.y_stride as u128 * self.height as u128;
        let chroma: u128 = self.uv_stride as u128 * rows as u128;
        let total: u128 = self.slot_bytes as u128 * self.slots as u128;
        self.slots > 0 && luma + chroma <= self.slot_bytes as u128 && total <= usize::MAX as u128
    }
}

/// The product of two 32-bit numbers fits in 64 bits.
proof fn lemma_product_fits(a: u32, b: u32)
    ensures
        0 <= a * b <= 0xffff_ffff * 0xffff_ffff,
{
    assert(0 <= a * b <= 0xffff_ffff * 0xffff_ffff) by (nonlinear_arith)
        requires
            0 <= a <= 0xffff_ffff,
            0 <= b <= 0xffff_ffff,
    ;
}

/// What came of one attempt to send a packet.
#[derive(Debug, Clone, PartialEq, Eq)]
pub enum SendOutcome {
    Sent,
    /// A signal arrived first.
    Interrupted,
    /// There is no room in the socket, in the system's words.
    Full(String),
    Failed(String),
}

/// What to do about it.
#[derive(Debug, Clone, PartialEq, Eq)]
pub enum SendStep {
    /// The message has gone.
    Sent,
    /// The message has been dropped; the next one supersedes it.
    Dropped,
    /// The same message, once more.
    Again,
    /// The channel is broken, for the given reason.
    Broken(String),
}

/// Decide about one attempt to send.
///
/// A signal is not a failure; the message simply has not gone yet. A full socket is
/// one only to a message that has to arrive: a frame or position notice is superseded
/// by the next, and blocking on one stalls the decode loop, including its ability to
/// notice that the player has gone away.
pub fn send_step(outcome: SendOutcome, non_blocking: bool) -> (r: SendStep)
    ensures
        r == (match outcome {
            SendOutcome::Sent => SendStep::Sent,
            SendOutcome::Interrupted => SendStep::Again,
            SendOutcome::Full(why) => if non_blocking {
                SendStep::Dropped
            } else {
                SendStep::Broken(why)
            },
            SendOutcome::Failed(why) => SendStep::Broken(why),
        }),
{
    match outcome {
        SendOutcome::Sent => SendStep::Sent,
        SendOutcome::Interrupted => SendStep::Again,
        SendOutcome::Full(why) => {
            if non_blocking {
                SendStep::Dropped
            } else {
                SendStep::Broken(why)
            }
        },
        SendOutcome::Failed(why) => SendStep::Broken(why),
    }
}

/// What came of one attempt to receive a packet.
#[derive(Debug, Clone, PartialEq, Eq)]
pub enum RecvOutcome {
    /// This many bytes arrived.
    Received(usize),
    /// A signal arrived first.
    Interrupted,
    Failed(String),
}

/// What to do about it.
#[derive(Debug, Clone, PartialEq, Eq)]
pub enum RecvStep {
    /// The other end has gone away.
    Gone,
    /// This many bytes are one message.
    Message(usize),
    /// Wait once more.
    Again,
    /// The channel is broken, for the given reason.
    Broken(String),
}

/// Decide about one attempt to receive.
///
/// A signal is not the peer going away: treating it as that tears down a healthy
/// connection and deadlocks the other end.
pub fn recv_step(outcome: RecvOutcome) -> (r: RecvStep)
    ensures
        r == (match outcome {
            RecvOutcome::Received(n) => if n == 0 {
                RecvStep::Gone
            } else {
                RecvStep::Message(n)
            },
            RecvOutcome::Interrupted => RecvStep::Again,
            RecvOutcome::Failed(why) => RecvStep::Broken(why),
        }),
{
    match outcome {
        RecvOutcome::Received(n) => {
            if n == 0 {
                RecvStep::Gone
            } else {
                RecvStep::Message(n)
            }
        },
        RecvOutcome::Interrupted => RecvStep::Again,
        RecvOutcome::Failed(why) => RecvStep::Broken(why),
    }
}

} // verus!

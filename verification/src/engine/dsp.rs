//! Optional sound processing, applied in the decoder just before the sink.
//!
//! Everything here is off by default, and when it is off the samples are not touched
//! at all, not even multiplied by one. What is decided here is which of the stages a
//! stream goes through; the samples themselves are processed elsewhere.

use vstd::prelude::*;

use crate::engine::{AudioEffects, FULL_VOLUME};

verus! {

/// `FRONT_CENTER` in the positions of a channel mask.
pub const FRONT_CENTER_BIT: u32 = 2;

/// Whether a channel mask has a position.
pub open spec fn has_position(mask: u64, bit: u64) -> bool {
    mask & (1u64 << bit) != 0
}

/// How many of the positions below `bit` a mask has.
pub open spec fn positions_below(mask: u64, bit: nat) -> nat
    decreases bit,
{
    if bit == 0 {
        0
    } else {
        positions_below(mask, (bit - 1) as nat) + if has_position(mask, (bit - 1) as u64) {
            1nat
        } else {
            0
        }
    }
}

/// Where the centre channel sits in an interleaved frame, if it is in it.
pub open spec fn centre(channels: usize, mask: u64) -> Option<usize> {
    let index = positions_below(mask, FRONT_CENTER_BIT as nat);
    if channels > 2 && has_position(mask, FRONT_CENTER_BIT as u64) && index < channels {
        Some(index as usize)
    } else {
        None
    }
}

/// Where the centre channel sits in an interleaved frame, in tracks that have one
/// and have more than two channels. Channels are laid out in ascending position
/// order, so its index is the number of positions below it that are present.
pub fn centre_index(channels: usize, mask: u64) -> (r: Option<usize>)
    ensures
        r == centre(channels, mask),
{
    if channels <= 2 || mask & (1u64 << 2u64) == 0 {
        return None;
    }
    let mut index: usize = 0;
    let mut bit: u32 = 0;
    while bit < FRONT_CENTER_BIT
        invariant
            bit <= FRONT_CENTER_BIT,
            index <= bit,
            index == positions_below(mask, bit as nat),
        decreases FRONT_CENTER_BIT - bit,
    {
        if mask & (1u64 << (bit as u64)) != 0 {
            index += 1;
        }
        bit += 1;
    }
    if index < channels {
        Some(index)
    } else {
        None
    }
}

/// What happens to a sample ahead of everything else.
#[derive(Debug, Clone, Copy, PartialEq, Eq, Structural)]
pub enum Lift {
    /// It is left alone.
    Keep,
    /// It is raised: it is a voice.
    Raise,
    /// It is lowered: it is everything else.
    Lower,
}

/// What the sound goes through, and what sound it is.
#[derive(Debug, Clone, Copy, PartialEq, Eq, Structural)]
pub struct AudioFx {
    pub effects: AudioEffects,
    /// The part of the volume above full volume, in percent; never below full.
    pub boost: u32,
    pub channels: usize,
    pub rate: u32,
    /// Index of the centre channel within a frame, when the track has one and has
    /// more than two channels.
    pub centre: Option<usize>,
}

impl Default for AudioFx {
    fn default() -> (r: Self)
        ensures
            r == (AudioFx {
                effects: AudioEffects { dialogue: false, night: false },
                boost: FULL_VOLUME,
                channels: 2,
                rate: 48_000,
                centre: None,
            }),
    {
        AudioFx {
            effects: AudioEffects::default(),
            boost: FULL_VOLUME,
            channels: 2,
            rate: 48_000,
            centre: None,
        }
    }
}

impl AudioFx {
    /// Whether there is anything to do to the samples. Clear dialogue has nothing to do
    /// in a track without a centre channel.
    pub open spec fn active(self) -> bool {
        ||| self.effects.dialogue && self.centre is Some
        ||| self.effects.night
        ||| self.boost > FULL_VOLUME
    }

    pub fn set_effects(&mut self, effects: AudioEffects)
        ensures
            *final(self) == (AudioFx { effects, ..*old(self) }),
    {
        self.effects = effects;
    }

    /// The gain for the part of the volume above full; never below full.
    pub fn set_boost(&mut self, boost: u32)
        ensures
            *final(self) == (AudioFx {
                boost: if boost > FULL_VOLUME {
                    boost
                } else {
                    FULL_VOLUME
                },
                ..*old(self)
            }),
    {
        self.boost = if boost > FULL_VOLUME {
            boost
        } else {
            FULL_VOLUME
        };
    }

    /// Describe the stream that is about to arrive. `channel_mask` is the bitmask of
    /// positions, or zero when the track has none.
    pub fn set_format(&mut self, channels: usize, rate: u32, channel_mask: u64)
        ensures
            *final(self) == (AudioFx {
                channels: if channels == 0 {
                    1
                } else {
                    channels
                },
                rate: if rate == 0 {
                    1
                } else {
                    rate
                },
                centre: centre(channels, channel_mask),
                ..*old(self)
            }),
    {
        self.channels = if channels == 0 {
            1
        } else {
            channels
        };
        self.rate = if rate == 0 {
            1
        } else {
            rate
        };
        self.centre = centre_index(channels, channel_mask);
    }

    pub fn is_active(&self) -> (r: bool)
        ensures
            r == self.active(),
    {
        (self.effects.dialogue && self.centre.is_some()) || self.effects.night || self.boost
            > FULL_VOLUME
    }

    /// What happens to the sample of a channel ahead of everything else: with clear
    /// dialogue on, in tracks with a centre channel, the centre is raised and the
    /// rest lowered.
    pub fn lift(&self, channel: usize) -> (r: Lift)
        ensures
            r == (match self.centre {
                Some(centre) => if !self.effects.dialogue {
                    Lift::Keep
                } else if channel == centre {
                    Lift::Raise
                } else {
                    Lift::Lower
                },
                None => Lift::Keep,
            }),
    {
        match self.centre {
            Some(centre) => {
                if !self.effects.dialogue {
                    Lift::Keep
                } else if channel == centre {
                    Lift::Raise
                } else {
                    Lift::Lower
                }
            },
            None => Lift::Keep,
        }
    }
}

/// With both switches off and the volume at or below full, the samples are not
/// touched; above full volume, in night mode, or with clear dialogue on in a track that
/// has a centre channel, they go through the chain.
pub proof fn lemma_untouched_when_off(fx: AudioFx, volume: u32)
    requires
        fx.boost == (if volume > FULL_VOLUME {
            volume
        } else {
            FULL_VOLUME
        }),
    ensures
        !fx.effects.dialogue && !fx.effects.night && volume <= FULL_VOLUME ==> !fx.active(),
        fx.active() <==> volume > FULL_VOLUME || fx.effects.night || (fx.effects.dialogue
            && fx.centre is Some),
{
}

/// Stereo has no centre channel to lift, whatever its mask says: clear dialogue alone
/// leaves a stereo track unchanged.
pub proof fn lemma_stereo_is_left_alone(fx: AudioFx, channels: usize, mask: u64)
    requires
        channels <= 2,
        fx.centre == centre(channels, mask),
        !fx.effects.night,
        fx.boost <= FULL_VOLUME,
    ensures
        fx.centre is None,
        !fx.active(),
{
}

} // verus!

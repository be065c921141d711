//! Encoder options: speed and color encoding.

use vstd::prelude::*;

verus! {

/// Encoding speed, from the fastest (1) to the slowest (10).
#[derive(Debug, Clone, Copy, PartialEq, Eq, Structural)]
pub enum EncoderSpeed {
    /// Fastest, 1
    Lightning,
    /// 2
    Thunder,
    /// 3
    Falcon,
    /// 4
    Cheetah,
    /// 5
    Hare,
    /// 6
    Wombat,
    /// 7, default
    Squirrel,
    /// 8
    Kitten,
    /// 9
    Tortoise,
    /// Slowest, 10
    Glacier,
}

impl EncoderSpeed {
    /// The effort level the speed stands for.
    pub open spec fn spec_effort(self) -> i64 {
        match self {
            EncoderSpeed::Lightning => 1,
            EncoderSpeed::Thunder => 2,
            EncoderSpeed::Falcon => 3,
            EncoderSpeed::Cheetah => 4,
            EncoderSpeed::Hare => 5,
            EncoderSpeed::Wombat => 6,
            EncoderSpeed::Squirrel => 7,
            EncoderSpeed::Kitten => 8,
            EncoderSpeed::Tortoise => 9,
            EncoderSpeed::Glacier => 10,
        }
    }

    /// The effort level (1..10) the encoder is set to for this speed.
    pub fn effort(self) -> (r: i64)
        ensures
            r == self.spec_effort(),
    {
        match self {
            EncoderSpeed::Lightning => 1,
            EncoderSpeed::Thunder => 2,
            EncoderSpeed::Falcon => 3,
            EncoderSpeed::Cheetah => 4,
            EncoderSpeed::Hare => 5,
            EncoderSpeed::Wombat => 6,
            EncoderSpeed::Squirrel => 7,
            EncoderSpeed::Kitten => 8,
            EncoderSpeed::Tortoise => 9,
            EncoderSpeed::Glacier => 10,
        }
    }
}

impl Default for EncoderSpeed {
    fn default() -> (r: Self)
        ensures
            r == EncoderSpeed::Squirrel,
    {
        EncoderSpeed::Squirrel
    }
}

/// The effort of every speed is in 1..10, and distinct speeds have distinct
/// efforts, slower speeds higher ones.
pub proof fn lemma_speed_effort(a: EncoderSpeed, b: EncoderSpeed)
    ensures
        1 <= a.spec_effort() <= 10,
        a.spec_effort() == b.spec_effort() <==> a == b,
        EncoderSpeed::Lightning.spec_effort() == 1,
        EncoderSpeed::Glacier.spec_effort() == 10,
{
}

/// Encoding color profile.
#[derive(Debug, Clone, Copy, PartialEq, Eq, Structural)]
pub enum ColorEncoding {
    /// sRGB, default for int pixel types.
    Srgb,
    /// Linear sRGB, default for float pixel types.
    LinearSrgb,
    /// sRGB, images with only luma channel.
    SrgbLuma,
    /// Linear sRGB with only luma channel.
    LinearSrgbLuma,
}

impl ColorEncoding {
    /// Whether the encoding has a single (luma) color channel.
    pub open spec fn spec_is_luma(self) -> bool {
        self == ColorEncoding::SrgbLuma || self == ColorEncoding::LinearSrgbLuma
    }
}

} // verus!

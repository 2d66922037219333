use vstd::prelude::*;

verus! {

/// What a sample holds.
#[derive(Clone, Copy, Debug, PartialEq, Eq, Structural)]
pub enum SampleType {
    NoType,
    /// unsigned 8 bits
    U8,
    /// signed 16 bits
    S16,
    /// signed 32 bits
    S32,
    /// float (32 bits)
    Flt,
    /// double (64 bits)
    Dbl,
}

/// How the bits that represent audio samples are organised.
#[derive(Clone, Copy, Debug, PartialEq, Eq, Structural)]
pub struct SampleFormat {
    pub sample_type: SampleType,
    /// planar means non-interleaved
    pub planar: bool,
}

pub const SAMPLE_FMT_NONE: i32 = -1;
pub const SAMPLE_FMT_U8: i32 = 0;
pub const SAMPLE_FMT_S16: i32 = 1;
pub const SAMPLE_FMT_S32: i32 = 2;
pub const SAMPLE_FMT_FLT: i32 = 3;
pub const SAMPLE_FMT_DBL: i32 = 4;
pub const SAMPLE_FMT_U8P: i32 = 5;
pub const SAMPLE_FMT_S16P: i32 = 6;
pub const SAMPLE_FMT_S32P: i32 = 7;
pub const SAMPLE_FMT_FLTP: i32 = 8;
pub const SAMPLE_FMT_DBLP: i32 = 9;

/// The native code of a sample type in its interleaved form; `planar_offset`
/// is added for the planar form.
pub open spec fn sample_type_code(t: SampleType) -> int {
    match t {
        SampleType::NoType => -1,
        SampleType::U8 => 0,
        SampleType::S16 => 1,
        SampleType::S32 => 2,
        SampleType::Flt => 3,
        SampleType::Dbl => 4,
    }
}

/// The native code of a sample format. `NoType` has one code whatever the layout.
pub open spec fn sample_format_code(f: SampleFormat) -> int {
    if f.sample_type == SampleType::NoType {
        -1
    } else if f.planar {
        sample_type_code(f.sample_type) + 5
    } else {
        sample_type_code(f.sample_type)
    }
}

/// Native sample format codes that name a format.
pub open spec fn is_sample_format_code(x: int) -> bool {
    -1 <= x <= 9
}

/// The format that a native code names: the codes `0..=4` are interleaved,
/// `5..=9` planar, `-1` is no type.
pub open spec fn sample_format_of_code(x: int) -> SampleFormat {
    let t = if x == -1 {
        SampleType::NoType
    } else if x % 5 == 0 {
        SampleType::U8
    } else if x % 5 == 1 {
        SampleType::S16
    } else if x % 5 == 2 {
        SampleType::S32
    } else if x % 5 == 3 {
        SampleType::Flt
    } else {
        SampleType::Dbl
    };
    SampleFormat { sample_type: t, planar: x >= 5 }
}

impl SampleFormat {
    /// The native code of this format.
    pub fn to_groove(&self) -> (r: i32)
        ensures
            r as int == sample_format_code(*self),
            is_sample_format_code(r as int),
    {
        match (self.sample_type, self.planar) {
            (SampleType::NoType, false) => SAMPLE_FMT_NONE,
            (SampleType::U8, false) => SAMPLE_FMT_U8,
            (SampleType::S16, false) => SAMPLE_FMT_S16,
            (SampleType::S32, false) => SAMPLE_FMT_S32,
            (SampleType::Flt, false) => SAMPLE_FMT_FLT,
            (SampleType::Dbl, false) => SAMPLE_FMT_DBL,
            (SampleType::NoType, true) => SAMPLE_FMT_NONE,
            (SampleType::U8, true) => SAMPLE_FMT_U8P,
            (SampleType::S16, true) => SAMPLE_FMT_S16P,
            (SampleType::S32, true) => SAMPLE_FMT_S32P,
            (SampleType::Flt, true) => SAMPLE_FMT_FLTP,
            (SampleType::Dbl, true) => SAMPLE_FMT_DBLP,
        }
    }

    /// Whether `x` is the native code of a sample format.
    pub fn is_groove_code(x: i32) -> (r: bool)
        ensures
            r == is_sample_format_code(x as int),
    {
        SAMPLE_FMT_NONE <= x && x <= SAMPLE_FMT_DBLP
    }

    /// The format that a native code names. The native side hands out no
    /// other code: an unknown one is a broken contract, which callers test
    /// for first.
    pub fn from_groove(groove_sample_format: i32) -> (r: SampleFormat)
        requires
            is_sample_format_code(groove_sample_format as int),
        ensures
            r == sample_format_of_code(groove_sample_format as int),
    {
        let (sample_type, planar) = match groove_sample_format {
            SAMPLE_FMT_NONE => (SampleType::NoType, false),
            SAMPLE_FMT_U8 => (SampleType::U8, false),
            SAMPLE_FMT_S16 => (SampleType::S16, false),
            SAMPLE_FMT_S32 => (SampleType::S32, false),
            SAMPLE_FMT_FLT => (SampleType::Flt, false),
            SAMPLE_FMT_DBL => (SampleType::Dbl, false),
            SAMPLE_FMT_U8P => (SampleType::U8, true),
            SAMPLE_FMT_S16P => (SampleType::S16, true),
            SAMPLE_FMT_S32P => (SampleType::S32, true),
            SAMPLE_FMT_FLTP => (SampleType::Flt, true),
            _ => (SampleType::Dbl, true),
        };
        SampleFormat { sample_type, planar }
    }
}

impl SampleFormat {
    /// Whether this format has a native code of its own: only `NoType` is
    /// the same in both layouts, and the planar one reads back as interleaved.
    pub open spec fn is_supported(self) -> bool {
        !(self.sample_type == SampleType::NoType && self.planar)
    }
}

/// Translating a supported sample format to its native code and back gives
/// the same format.
pub proof fn lemma_sample_format_round_trip(f: SampleFormat)
    requires
        f.is_supported(),
    ensures
        is_sample_format_code(sample_format_code(f)),
        sample_format_of_code(sample_format_code(f)) == f,
{
}

/// Reading a native code as a format and translating it back gives the same
/// code.
pub proof fn lemma_sample_code_round_trip(x: int)
    requires
        is_sample_format_code(x),
    ensures
        sample_format_code(sample_format_of_code(x)) == x,
{
}

pub const CH_FRONT_LEFT: u64 = 1;
pub const CH_FRONT_RIGHT: u64 = 2;
pub const CH_FRONT_CENTER: u64 = 4;
pub const CH_LAYOUT_MONO: u64 = 4;
pub const CH_LAYOUT_STEREO: u64 = 3;

/// The channel layouts that this library names. The native side describes a
/// layout by a mask with one bit per channel position; only these five masks
/// are recognised.
#[derive(Clone, Copy, Debug, PartialEq, Eq, Structural)]
pub enum ChannelLayout {
    FrontLeft,
    FrontRight,
    FrontCenter,
    LayoutMono,
    LayoutStereo,
}

/// The native mask of a layout.
pub open spec fn channel_layout_mask(l: ChannelLayout) -> u64 {
    match l {
        ChannelLayout::FrontLeft => 1,
        ChannelLayout::FrontRight => 2,
        ChannelLayout::FrontCenter => 4,
        ChannelLayout::LayoutMono => 4,
        ChannelLayout::LayoutStereo => 3,
    }
}

/// The number of channel positions that the mask `x` sets, among the three
/// that the named layouts use.
pub open spec fn mask_channel_count(x: u64) -> int {
    (x % 2) + (x / 2 % 2) + (x / 4 % 2)
}

/// The layout that a native mask names. The mono mask is the front-center
/// mask, and reads back as front center.
pub open spec fn channel_layout_of_mask(x: u64) -> Option<ChannelLayout> {
    if x == 1 {
        Some(ChannelLayout::FrontLeft)
    } else if x == 2 {
        Some(ChannelLayout::FrontRight)
    } else if x == 4 {
        Some(ChannelLayout::FrontCenter)
    } else if x == 3 {
        Some(ChannelLayout::LayoutStereo)
    } else {
        None
    }
}

impl ChannelLayout {
    /// The native mask of this layout.
    pub fn to_groove(&self) -> (r: u64)
        ensures
            r == channel_layout_mask(*self),
    {
        match *self {
            ChannelLayout::FrontLeft => CH_FRONT_LEFT,
            ChannelLayout::FrontRight => CH_FRONT_RIGHT,
            ChannelLayout::FrontCenter => CH_FRONT_CENTER,
            ChannelLayout::LayoutMono => CH_LAYOUT_MONO,
            ChannelLayout::LayoutStereo => CH_LAYOUT_STEREO,
        }
    }

    /// Whether `x` is the mask of a named layout.
    pub fn is_groove_mask(x: u64) -> (r: bool)
        ensures
            r == channel_layout_of_mask(x).is_some(),
    {
        x == CH_FRONT_LEFT || x == CH_FRONT_RIGHT || x == CH_FRONT_CENTER || x == CH_LAYOUT_STEREO
    }

    /// The layout that a native mask names. Masks outside the named set are
    /// not accepted; callers test for them first.
    pub fn from_groove(x: u64) -> (r: ChannelLayout)
        requires
            channel_layout_of_mask(x).is_some(),
        ensures
            Some(r) == channel_layout_of_mask(x),
    {
        match x {
            CH_FRONT_LEFT => ChannelLayout::FrontLeft,
            CH_FRONT_RIGHT => ChannelLayout::FrontRight,
            CH_FRONT_CENTER => ChannelLayout::FrontCenter,
            _ => ChannelLayout::LayoutStereo,
        }
    }

    /// The channel count of this layout: one channel per position in its mask.
    pub fn count(&self) -> (r: i32)
        ensures
            r as int == mask_channel_count(channel_layout_mask(*self)),
    {
        let r: i32 = match *self {
            ChannelLayout::LayoutStereo => 2,
            _ => 1,
        };
        r
    }
}

/// Every named layout but mono reads back from its mask unchanged; mono
/// reads back as front center, whose mask it shares.
pub proof fn lemma_channel_layout_round_trip(l: ChannelLayout)
    ensures
        l != ChannelLayout::LayoutMono ==> channel_layout_of_mask(channel_layout_mask(l)) == Some(l),
        l == ChannelLayout::LayoutMono ==> channel_layout_of_mask(channel_layout_mask(l)) == Some(
            ChannelLayout::FrontCenter,
        ),
{
}

/// The native audio format record, as plain values.
#[derive(Clone, Copy, Debug, PartialEq, Eq, Structural)]
pub struct GrooveAudioFormat {
    pub sample_rate: i32,
    pub channel_layout: u64,
    pub sample_fmt: i32,
}

/// Sample rate, channel layout and sample format of a stream.
#[derive(Clone, Copy, Debug, PartialEq, Eq, Structural)]
pub struct AudioFormat {
    pub sample_rate: i32,
    pub channel_layout: ChannelLayout,
    pub sample_fmt: SampleFormat,
}

impl GrooveAudioFormat {
    /// Whether the layout and the sample format of this record are both
    /// named by this library.
    pub open spec fn is_recognised_spec(&self) -> bool {
        channel_layout_of_mask(self.channel_layout).is_some() && is_sample_format_code(
            self.sample_fmt as int,
        )
    }

    /// Whether `AudioFormat::from_groove` accepts this record.
    pub fn is_recognised(&self) -> (r: bool)
        ensures
            r == self.is_recognised_spec(),
    {
        ChannelLayout::is_groove_mask(self.channel_layout) && SampleFormat::is_groove_code(
            self.sample_fmt,
        )
    }
}

impl AudioFormat {
    /// Reads a native record whose layout and sample format are recognised.
    pub fn from_groove(g: &GrooveAudioFormat) -> (r: AudioFormat)
        requires
            g.is_recognised_spec(),
        ensures
            r.sample_rate == g.sample_rate,
            Some(r.channel_layout) == channel_layout_of_mask(g.channel_layout),
            r.sample_fmt == sample_format_of_code(g.sample_fmt as int),
    {
        AudioFormat {
            sample_rate: g.sample_rate,
            channel_layout: ChannelLayout::from_groove(g.channel_layout),
            sample_fmt: SampleFormat::from_groove(g.sample_fmt),
        }
    }

    /// The native record of this format.
    pub fn to_groove(&self) -> (r: GrooveAudioFormat)
        ensures
            r.sample_rate == self.sample_rate,
            r.channel_layout == channel_layout_mask(self.channel_layout),
            r.sample_fmt as int == sample_format_code(self.sample_fmt),
    {
        GrooveAudioFormat {
            sample_rate: self.sample_rate,
            channel_layout: self.channel_layout.to_groove(),
            sample_fmt: self.sample_fmt.to_groove(),
        }
    }
}

} // verus!

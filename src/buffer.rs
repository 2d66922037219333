use vstd::prelude::*;

use crate::audio_format::{SampleFormat, SampleType};

verus! {

pub const BUFFER_NO: i32 = 0;
pub const BUFFER_YES: i32 = 1;
pub const BUFFER_END: i32 = 2;

/// The three outcomes of a native buffer pull.
#[derive(Clone, Copy, Debug, PartialEq, Eq, Structural)]
pub enum BufferStatus {
    /// A buffer is there now.
    Ready,
    /// No buffer yet: try later.
    NotReady,
    /// The stream has ended; no buffer will come.
    Ended,
}

/// What a native pull returns, by its code.
pub open spec fn buffer_status_of(code: i32) -> Option<BufferStatus> {
    if code == BUFFER_YES {
        Some(BufferStatus::Ready)
    } else if code == BUFFER_NO {
        Some(BufferStatus::NotReady)
    } else if code == BUFFER_END {
        Some(BufferStatus::Ended)
    } else {
        None
    }
}

impl BufferStatus {
    /// Whether `code` is one of the three native pull codes.
    pub fn is_groove_code(code: i32) -> (r: bool)
        ensures
            r == buffer_status_of(code).is_some(),
    {
        code == BUFFER_YES || code == BUFFER_NO || code == BUFFER_END
    }

    /// The outcome that a native pull code stands for. The native side
    /// returns no other code; callers test for one first.
    pub fn from_groove(code: i32) -> (r: BufferStatus)
        requires
            buffer_status_of(code).is_some(),
        ensures
            Some(r) == buffer_status_of(code),
    {
        match code {
            BUFFER_YES => BufferStatus::Ready,
            BUFFER_NO => BufferStatus::NotReady,
            _ => BufferStatus::Ended,
        }
    }
}

/// The outcome of a blocking pull: a buffer, or the end of the stream.
/// There is no "not ready": blocking guarantees that no pull comes back
/// empty, and a caller that sees that code stops as on a broken contract.
#[derive(Clone, Copy, Debug, PartialEq, Eq, Structural)]
pub enum Pulled {
    Buffer,
    End,
}

/// Reads the code of a blocking pull, which is "ready" or "ended".
pub fn blocking_pull(code: i32) -> (r: Pulled)
    requires
        buffer_status_of(code) == Some(BufferStatus::Ready) || buffer_status_of(code) == Some(
            BufferStatus::Ended,
        ),
    ensures
        buffer_status_of(code) == Some(BufferStatus::Ready) <==> r == Pulled::Buffer,
        buffer_status_of(code) == Some(BufferStatus::Ended) <==> r == Pulled::End,
{
    match BufferStatus::from_groove(code) {
        BufferStatus::Ready => Pulled::Buffer,
        _ => Pulled::End,
    }
}

/// Where a typed view of a buffer lies: the data plane, and how many
/// elements of the view's type it holds.
#[derive(Clone, Copy, Debug, PartialEq, Eq, Structural)]
pub struct SampleRegion {
    pub plane: u32,
    pub len: u64,
}

/// A decoded buffer as its accessors see it: its sample format, its channel
/// count and its frame count. The samples stay in native memory.
///
/// Each accessor admits only the uses that fit the buffer: the requested
/// sample type, the layout of its family (per channel for planar buffers,
/// whole for interleaved ones) and, per channel, an index below the channel
/// count. Any other use is a defect of the caller, which tests first.
pub struct DecodedBuffer {
    pub sample_format: SampleFormat,
    pub channel_count: u32,
    pub frame_count: u32,
}

impl DecodedBuffer {
    pub fn sample_format(&self) -> (r: SampleFormat)
        ensures
            r == self.sample_format,
    {
        self.sample_format
    }

    /// Whether channel `channel_index` may be read, as samples of type
    /// `expected` (`None`: as raw bytes).
    pub open spec fn channel_readable(&self, expected: Option<SampleType>, channel_index: u32) -> bool {
        &&& expected.is_some() ==> self.sample_format.sample_type == expected.unwrap()
        &&& self.sample_format.planar
        &&& channel_index < self.channel_count
    }

    /// Whether the whole buffer may be read, as samples of type `expected`
    /// (`None`: as raw bytes).
    pub open spec fn whole_readable(&self, expected: Option<SampleType>) -> bool {
        &&& expected.is_some() ==> self.sample_format.sample_type == expected.unwrap()
        &&& !self.sample_format.planar
    }

    /// The region of channel `channel_index`: its own plane, one sample per
    /// frame.
    pub open spec fn channel_region(&self, channel_index: u32) -> SampleRegion {
        SampleRegion { plane: channel_index, len: self.frame_count as u64 }
    }

    /// The region of the whole interleaved buffer: the first plane, one
    /// sample per channel of every frame.
    pub open spec fn whole_region(&self) -> SampleRegion {
        SampleRegion { plane: 0, len: (self.channel_count as int * self.frame_count as int) as u64 }
    }

    /// Whether channel `channel_index` of this buffer may be read as
    /// samples of type `expected` (`None`: as raw bytes).
    pub fn can_read_channel(&self, expected: Option<SampleType>, channel_index: u32) -> (r: bool)
        ensures
            r == self.channel_readable(expected, channel_index),
    {
        let type_ok = match expected {
            Some(t) => self.sample_format.sample_type == t,
            None => true,
        };
        type_ok && self.sample_format.planar && channel_index < self.channel_count
    }

    /// Whether this whole buffer may be read as samples of type `expected`
    /// (`None`: as raw bytes).
    pub fn can_read_whole(&self, expected: Option<SampleType>) -> (r: bool)
        ensures
            r == self.whole_readable(expected),
    {
        let type_ok = match expected {
            Some(t) => self.sample_format.sample_type == t,
            None => true,
        };
        type_ok && !self.sample_format.planar
    }

    /// The samples of one channel of a planar buffer, as doubles.
    pub fn channel_as_slice_f64(&self, channel_index: u32) -> (r: SampleRegion)
        requires
            self.channel_readable(Some(SampleType::Dbl), channel_index),
        ensures
            r == self.channel_region(channel_index),
    {
        self.channel_as_slice_generic(channel_index)
    }

    /// All the samples of an interleaved buffer, as doubles.
    pub fn as_slice_f64(&self) -> (r: SampleRegion)
        requires
            self.whole_readable(Some(SampleType::Dbl)),
        ensures
            r == self.whole_region(),
    {
        self.as_slice_generic()
    }

    /// The samples of one channel of a planar buffer, as floats.
    pub fn channel_as_slice_f32(&self, channel_index: u32) -> (r: SampleRegion)
        requires
            self.channel_readable(Some(SampleType::Flt), channel_index),
        ensures
            r == self.channel_region(channel_index),
    {
        self.channel_as_slice_generic(channel_index)
    }

    /// All the samples of an interleaved buffer, as floats.
    pub fn as_slice_f32(&self) -> (r: SampleRegion)
        requires
            self.whole_readable(Some(SampleType::Flt)),
        ensures
            r == self.whole_region(),
    {
        self.as_slice_generic()
    }

    /// The samples of one channel of a planar buffer, as signed 32-bit samples.
    pub fn channel_as_slice_i32(&self, channel_index: u32) -> (r: SampleRegion)
        requires
            self.channel_readable(Some(SampleType::S32), channel_index),
        ensures
            r == self.channel_region(channel_index),
    {
        self.channel_as_slice_generic(channel_index)
    }

    /// All the samples of an interleaved buffer, as signed 32-bit samples.
    pub fn as_slice_i32(&self) -> (r: SampleRegion)
        requires
            self.whole_readable(Some(SampleType::S32)),
        ensures
            r == self.whole_region(),
    {
        self.as_slice_generic()
    }

    /// The samples of one channel of a planar buffer, as signed 16-bit samples.
    pub fn channel_as_slice_i16(&self, channel_index: u32) -> (r: SampleRegion)
        requires
            self.channel_readable(Some(SampleType::S16), channel_index),
        ensures
            r == self.channel_region(channel_index),
    {
        self.channel_as_slice_generic(channel_index)
    }

    /// All the samples of an interleaved buffer, as signed 16-bit samples.
    pub fn as_slice_i16(&self) -> (r: SampleRegion)
        requires
            self.whole_readable(Some(SampleType::S16)),
        ensures
            r == self.whole_region(),
    {
        self.as_slice_generic()
    }

    /// The samples of one channel of a planar buffer, as unsigned 8-bit samples.
    pub fn channel_as_slice_u8(&self, channel_index: u32) -> (r: SampleRegion)
        requires
            self.channel_readable(Some(SampleType::U8), channel_index),
        ensures
            r == self.channel_region(channel_index),
    {
        self.channel_as_slice_generic(channel_index)
    }

    /// All the samples of an interleaved buffer, as unsigned 8-bit samples.
    pub fn as_slice_u8(&self) -> (r: SampleRegion)
        requires
            self.whole_readable(Some(SampleType::U8)),
        ensures
            r == self.whole_region(),
    {
        self.as_slice_generic()
    }

    /// The samples of one channel of a planar buffer, as bytes, whatever the sample type.
    pub fn channel_as_slice_raw(&self, channel_index: u32) -> (r: SampleRegion)
        requires
            self.channel_readable(None, channel_index),
        ensures
            r == self.channel_region(channel_index),
    {
        self.channel_as_slice_generic(channel_index)
    }

    /// All the samples of an interleaved buffer, as bytes, whatever the sample type.
    pub fn as_slice_raw(&self) -> (r: SampleRegion)
        requires
            self.whole_readable(None),
        ensures
            r == self.whole_region(),
    {
        self.as_slice_generic()
    }

    fn channel_as_slice_generic(&self, channel_index: u32) -> (r: SampleRegion)
        requires
            self.sample_format.planar,
            channel_index < self.channel_count,
        ensures
            r == self.channel_region(channel_index),
    {
        SampleRegion { plane: channel_index, len: self.frame_count as u64 }
    }

    fn as_slice_generic(&self) -> (r: SampleRegion)
        requires
            !self.sample_format.planar,
        ensures
            r == self.whole_region(),
    {
        let c: u64 = self.channel_count as u64;
        let f: u64 = self.frame_count as u64;
        proof {
            assert(c * f <= 0xffff_ffff * 0xffff_ffff) by (nonlinear_arith)
                requires
                    c <= 0xffff_ffff,
                    f <= 0xffff_ffff,
            ;
        }
        SampleRegion { plane: 0, len: c * f }
    }
}

} // verus!

use groove::audio_format::{
    AudioFormat, ChannelLayout, GrooveAudioFormat, SampleFormat, SampleType,
};

const TYPES: [SampleType; 5] =
    [SampleType::U8, SampleType::S16, SampleType::S32, SampleType::Flt, SampleType::Dbl];

#[test]
fn sample_format_codes() {
    let f = |t, planar| SampleFormat { sample_type: t, planar }.to_groove();
    assert_eq!(f(SampleType::NoType, false), -1);
    assert_eq!(f(SampleType::NoType, true), -1);
    assert_eq!(f(SampleType::U8, false), 0);
    assert_eq!(f(SampleType::S16, false), 1);
    assert_eq!(f(SampleType::S32, false), 2);
    assert_eq!(f(SampleType::Flt, false), 3);
    assert_eq!(f(SampleType::Dbl, false), 4);
    assert_eq!(f(SampleType::U8, true), 5);
    assert_eq!(f(SampleType::S16, true), 6);
    assert_eq!(f(SampleType::S32, true), 7);
    assert_eq!(f(SampleType::Flt, true), 8);
    assert_eq!(f(SampleType::Dbl, true), 9);
}

#[test]
fn sample_format_round_trip() {
    for t in TYPES {
        for planar in [false, true] {
            let fmt = SampleFormat { sample_type: t, planar };
            assert_eq!(SampleFormat::from_groove(fmt.to_groove()), fmt);
        }
    }
    let none = SampleFormat { sample_type: SampleType::NoType, planar: false };
    assert_eq!(SampleFormat::from_groove(none.to_groove()), none);
}

#[test]
fn planar_no_type_reads_back_interleaved() {
    let fmt = SampleFormat { sample_type: SampleType::NoType, planar: true };
    let back = SampleFormat::from_groove(fmt.to_groove());
    assert_eq!(back.sample_type, SampleType::NoType);
    assert!(!back.planar);
}

#[test]
fn unknown_sample_format_code() {
    for code in -1..=9 {
        assert!(SampleFormat::is_groove_code(code));
    }
    assert!(!SampleFormat::is_groove_code(10));
    assert!(!SampleFormat::is_groove_code(-2));
    assert!(!SampleFormat::is_groove_code(i32::MAX));
    assert!(!SampleFormat::is_groove_code(i32::MIN));
}

#[test]
fn channel_layout_masks() {
    assert_eq!(ChannelLayout::FrontLeft.to_groove(), 1);
    assert_eq!(ChannelLayout::FrontRight.to_groove(), 2);
    assert_eq!(ChannelLayout::FrontCenter.to_groove(), 4);
    assert_eq!(ChannelLayout::LayoutMono.to_groove(), 4);
    assert_eq!(ChannelLayout::LayoutStereo.to_groove(), 3);
}

#[test]
fn channel_layout_from_mask() {
    assert_eq!(ChannelLayout::from_groove(1), ChannelLayout::FrontLeft);
    assert_eq!(ChannelLayout::from_groove(2), ChannelLayout::FrontRight);
    assert_eq!(ChannelLayout::from_groove(3), ChannelLayout::LayoutStereo);
    assert_eq!(ChannelLayout::from_groove(4), ChannelLayout::FrontCenter);
}

#[test]
fn unknown_channel_masks() {
    for mask in 1..=4 {
        assert!(ChannelLayout::is_groove_mask(mask));
    }
    assert!(!ChannelLayout::is_groove_mask(0));
    assert!(!ChannelLayout::is_groove_mask(7));
    assert!(!ChannelLayout::is_groove_mask(0x3f));
}

#[test]
fn channel_layout_counts() {
    assert_eq!(ChannelLayout::FrontLeft.count(), 1);
    assert_eq!(ChannelLayout::FrontRight.count(), 1);
    assert_eq!(ChannelLayout::FrontCenter.count(), 1);
    assert_eq!(ChannelLayout::LayoutMono.count(), 1);
    assert_eq!(ChannelLayout::LayoutStereo.count(), 2);
}

#[test]
fn audio_format_to_native() {
    let fmt = AudioFormat {
        sample_rate: 44100,
        channel_layout: ChannelLayout::LayoutStereo,
        sample_fmt: SampleFormat { sample_type: SampleType::S16, planar: false },
    };
    assert_eq!(
        fmt.to_groove(),
        GrooveAudioFormat { sample_rate: 44100, channel_layout: 3, sample_fmt: 1 }
    );
    assert!(fmt.to_groove().is_recognised());
    assert_eq!(AudioFormat::from_groove(&fmt.to_groove()), fmt);
}

#[test]
fn audio_format_from_native() {
    let g = GrooveAudioFormat { sample_rate: 48000, channel_layout: 4, sample_fmt: 8 };
    let fmt = AudioFormat::from_groove(&g);
    assert_eq!(fmt.sample_rate, 48000);
    assert_eq!(fmt.channel_layout, ChannelLayout::FrontCenter);
    assert_eq!(fmt.sample_fmt, SampleFormat { sample_type: SampleType::Flt, planar: true });
}

#[test]
fn audio_format_rejects_unknown_codes() {
    let bad_layout = GrooveAudioFormat { sample_rate: 44100, channel_layout: 0x3f, sample_fmt: 1 };
    assert!(!bad_layout.is_recognised());
    let bad_fmt = GrooveAudioFormat { sample_rate: 44100, channel_layout: 3, sample_fmt: 11 };
    assert!(!bad_fmt.is_recognised());
}

use beep::stream::{
    classify_open, negotiate, AudioError, DeviceReport, NativeFormat, SampleFormat, StreamConfig,
};

#[test]
fn no_device_reported() {
    assert_eq!(negotiate(None), Err(AudioError::NoDeviceAvailable));
}

#[test]
fn unsupported_native_format() {
    let report = DeviceReport { sample_rate: 44100, channel_count: 2, format: NativeFormat::Other };
    assert_eq!(negotiate(Some(report)), Err(AudioError::UnsupportedFormat));
}

#[test]
fn supported_formats_negotiate() {
    let cases = [
        (NativeFormat::F32, SampleFormat::Float32),
        (NativeFormat::I16, SampleFormat::SignedInt16),
        (NativeFormat::U16, SampleFormat::UnsignedInt16),
    ];
    for &(native, expected) in cases.iter() {
        let report = DeviceReport { sample_rate: 48000, channel_count: 2, format: native };
        let cfg = StreamConfig {
            sample_rate: 48000,
            channel_count: 2,
            sample_format: expected,
        };
        assert_eq!(negotiate(Some(report)), Ok(cfg));
    }
}

#[test]
fn stream_open_refusal() {
    assert_eq!(classify_open(false), Err(AudioError::StreamOpenFailed));
    assert_eq!(classify_open(true), Ok(()));
}

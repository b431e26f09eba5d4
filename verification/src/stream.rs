//! Output-stream negotiation: classifying the native sample format an
//! output device reports, deriving the stream configuration one episode
//! runs under, and the audio error taxonomy.

use vstd::prelude::*;

verus! {

/// Sample representations the playback path can convert its synthesized
/// samples into. Chosen once at negotiation time, never per sample.
#[derive(Clone, Copy, PartialEq, Eq, Structural, Debug)]
pub enum SampleFormat {
    Float32,
    SignedInt16,
    UnsignedInt16,
}

/// The native sample format reported by the output device. Anything outside
/// the supported set is a negotiation failure, not a panic.
#[derive(Clone, Copy, PartialEq, Eq, Structural, Debug)]
pub enum NativeFormat {
    F32,
    I16,
    U16,
    /// Any other representation the audio subsystem may report.
    Other,
}

/// Why the audio path of one episode failed. Fatal to that episode's audio
/// output, never to the process.
#[derive(Clone, Copy, PartialEq, Eq, Structural, Debug)]
pub enum AudioError {
    /// The host reports no default output device.
    NoDeviceAvailable,
    /// The device's native sample format is outside the supported set.
    UnsupportedFormat,
    /// The audio subsystem rejected the stream: device busy or
    /// configuration refused.
    StreamOpenFailed,
}

/// What the audio subsystem reports about its default output device's
/// default configuration.
#[derive(Clone, Copy, PartialEq, Eq, Structural, Debug)]
pub struct DeviceReport {
    pub sample_rate: u32,
    pub channel_count: u16,
    pub format: NativeFormat,
}

impl DeviceReport {
    /// A usable report has a positive rate and at least one channel.
    pub open spec fn wf(self) -> bool {
        self.sample_rate >= 1 && self.channel_count >= 1
    }
}

/// The concrete stream configuration one episode runs under; constant for
/// the lifetime of that episode's stream.
#[derive(Clone, Copy, PartialEq, Eq, Structural, Debug)]
pub struct StreamConfig {
    pub sample_rate: u32,
    pub channel_count: u16,
    pub sample_format: SampleFormat,
}

impl StreamConfig {
    pub open spec fn wf(self) -> bool {
        self.sample_rate >= 1 && self.channel_count >= 1
    }
}

/// The supported representation for a native format, if any.
pub open spec fn spec_classify_format(f: NativeFormat) -> Option<SampleFormat> {
    match f {
        NativeFormat::F32 => Some(SampleFormat::Float32),
        NativeFormat::I16 => Some(SampleFormat::SignedInt16),
        NativeFormat::U16 => Some(SampleFormat::UnsignedInt16),
        NativeFormat::Other => None,
    }
}

/// What negotiation yields for a given device report: no device is
/// `NoDeviceAvailable`, an unsupported native format is
/// `UnsupportedFormat`, and otherwise the stream configuration copies the
/// device's rate and channel count and adopts its native format.
pub open spec fn spec_negotiate(device: Option<DeviceReport>) -> Result<StreamConfig, AudioError> {
    match device {
        None => Err(AudioError::NoDeviceAvailable),
        Some(d) => match spec_classify_format(d.format) {
            None => Err(AudioError::UnsupportedFormat),
            Some(fmt) => Ok(StreamConfig {
                sample_rate: d.sample_rate,
                channel_count: d.channel_count,
                sample_format: fmt,
            }),
        },
    }
}

/// Decides the outcome of device negotiation from what the audio subsystem
/// reported. Succeeds exactly when a device is present and its native
/// format is in the supported set.
pub fn negotiate(device: Option<DeviceReport>) -> (r: Result<StreamConfig, AudioError>)
    requires
        device matches Some(d) ==> d.wf(),
    ensures
        r == spec_negotiate(device),
        device is None <==> r == Err::<StreamConfig, AudioError>(AudioError::NoDeviceAvailable),
        r matches Ok(cfg) ==> cfg.wf(),
{
    match device {
        None => Err(AudioError::NoDeviceAvailable),
        Some(d) => match d.format {
            NativeFormat::F32 => Ok(StreamConfig {
                sample_rate: d.sample_rate,
                channel_count: d.channel_count,
                sample_format: SampleFormat::Float32,
            }),
            NativeFormat::I16 => Ok(StreamConfig {
                sample_rate: d.sample_rate,
                channel_count: d.channel_count,
                sample_format: SampleFormat::SignedInt16,
            }),
            NativeFormat::U16 => Ok(StreamConfig {
                sample_rate: d.sample_rate,
                channel_count: d.channel_count,
                sample_format: SampleFormat::UnsignedInt16,
            }),
            NativeFormat::Other => Err(AudioError::UnsupportedFormat),
        },
    }
}

/// Classifies the audio subsystem's verdict on building or starting the
/// output stream: any refusal surfaces as `StreamOpenFailed`.
pub fn classify_open(opened: bool) -> (r: Result<(), AudioError>)
    ensures
        opened <==> r is Ok,
        !opened ==> r == Err::<(), AudioError>(AudioError::StreamOpenFailed),
{
    if opened {
        Ok(())
    } else {
        Err(AudioError::StreamOpenFailed)
    }
}

} // verus!

use vstd::prelude::*;

verus! {

/// How the samples of a stream are encoded.
#[derive(Debug, Clone, Copy, PartialEq, Eq, Structural)]
pub enum SampleFormat {
    /// Signed 16-bit integers.
    I16,
    /// Unsigned 16-bit integers.
    U16,
    /// 32-bit IEEE floats.
    F32,
}

/// The format of a stream: samples per frame, frames per second, encoding.
#[derive(Debug, Clone, Copy, PartialEq, Eq, Structural)]
pub struct Format {
    pub channels: u16,
    pub sample_rate: u32,
    pub data_type: SampleFormat,
}

/// A range of formats that a device supports.
#[derive(Debug, Clone, Copy, PartialEq, Eq, Structural)]
pub struct SupportedFormat {
    pub channels: u16,
    pub min_sample_rate: u32,
    pub max_sample_rate: u32,
    pub data_type: SampleFormat,
}

/// Why a stream could not be created.
#[derive(Debug, Clone, Copy, PartialEq, Eq, Structural)]
pub enum CreationError {
    /// The device is gone, refused the request, or cannot take this many channels.
    DeviceNotAvailable,
}

} // verus!

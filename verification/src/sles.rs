use vstd::prelude::*;

verus! {

// Values of the OpenSL ES 1.0 and Android headers that the setup decisions use.

/// The result code of a call that succeeded.
pub const SL_RESULT_SUCCESS: u32 = 0x0000_0000;
/// Data locator of an I/O device.
pub const SL_DATALOCATOR_IODEVICE: u32 = 0x0000_0003;
/// Data locator of Android's simple buffer queue.
pub const SL_DATALOCATOR_ANDROIDSIMPLEBUFFERQUEUE: u32 = 0x8000_07BD;
/// I/O device type of an audio input.
pub const SL_IODEVICE_AUDIOINPUT: u32 = 0x0000_0001;
/// The default audio input device.
pub const SL_DEFAULTDEVICEID_AUDIOINPUT: u32 = 0xFFFF_FFFF;
/// Data format of linear PCM.
pub const SL_DATAFORMAT_PCM: u32 = 0x0000_0002;
/// 16-bit fixed-point samples.
pub const SL_PCMSAMPLEFORMAT_FIXED_16: u32 = 0x0010;
/// Little-endian samples.
pub const SL_BYTEORDER_LITTLEENDIAN: u32 = 0x0000_0002;
/// Front left speaker position.
pub const SL_SPEAKER_FRONT_LEFT: u32 = 0x0000_0001;
/// Front right speaker position.
pub const SL_SPEAKER_FRONT_RIGHT: u32 = 0x0000_0002;
/// Front centre speaker position.
pub const SL_SPEAKER_FRONT_CENTER: u32 = 0x0000_0004;
/// Buffers in the queue between the recorder and the callback.
pub const RECORDER_QUEUE_BUFFERS: u32 = 2;

/// The fields of an OpenSL ES PCM data format.
#[derive(Debug, Clone, Copy, PartialEq, Eq, Structural)]
pub struct PcmFormat {
    pub format_type: u32,
    pub num_channels: u32,
    /// Frames per second, in milliHertz as OpenSL ES counts them.
    pub samples_per_sec: u32,
    pub bits_per_sample: u32,
    pub container_size: u32,
    pub channel_mask: u32,
    pub endianness: u32,
}

/// What an audio recorder is created with: the microphone it reads, the
/// buffer queue it writes, and the PCM format in that queue.
#[derive(Debug, Clone, Copy, PartialEq, Eq, Structural)]
pub struct RecorderConfig {
    pub source_locator_type: u32,
    pub source_device_type: u32,
    pub source_device_id: u32,
    pub sink_locator_type: u32,
    pub sink_num_buffers: u32,
    pub pcm: PcmFormat,
}

} // verus!

use vstd::prelude::*;

use crate::device::Device;
use crate::format::{CreationError, Format, SampleFormat};
use crate::sles::{
    PcmFormat, RecorderConfig, RECORDER_QUEUE_BUFFERS, SL_BYTEORDER_LITTLEENDIAN, SL_DATAFORMAT_PCM,
    SL_DATALOCATOR_ANDROIDSIMPLEBUFFERQUEUE, SL_DATALOCATOR_IODEVICE, SL_DEFAULTDEVICEID_AUDIOINPUT,
    SL_IODEVICE_AUDIOINPUT, SL_PCMSAMPLEFORMAT_FIXED_16, SL_RESULT_SUCCESS, SL_SPEAKER_FRONT_CENTER,
    SL_SPEAKER_FRONT_LEFT, SL_SPEAKER_FRONT_RIGHT,
};

verus! {

/// Identifies a stream of an event loop; each stream gets a new one.
#[derive(Debug, Clone, Copy, PartialEq, Eq, Hash, Structural)]
pub struct StreamId(usize);

impl View for StreamId {
    type V = usize;

    closed spec fn view(&self) -> usize {
        self.0
    }
}

impl StreamId {
    /// The number of the stream: streams are numbered in the order they are built.
    pub fn index(&self) -> (r: usize)
        ensures
            r == self@,
    {
        self.0
    }
}

/// A playback stream as the event loop keeps it. The OpenSL player object
/// stays with the driver, which finds it by the stream's id.
#[derive(Debug, Clone, Copy, PartialEq, Eq, Structural)]
pub struct StreamInner {
    /// The id of the stream.
    pub id: StreamId,
    /// Buffer descriptors that the stream uses.
    pub num_descriptors: usize,
    /// Format of the samples.
    pub sample_format: SampleFormat,
    /// Number of channels, ie. number of samples per frame.
    pub num_channels: u16,
    /// Number of samples that can fit in the buffer.
    pub buffer_len: usize,
    /// Minimum number of samples to put in the buffer.
    pub period_len: usize,
}

/// A request for the loop that runs the streams.
#[derive(Debug, Clone, Copy, PartialEq, Eq, Structural)]
pub enum Command {
    NewStream(StreamInner),
    PlayStream(StreamId),
    PauseStream(StreamId),
    DestroyStream(StreamId),
}

impl Command {
    /// The stream that the command is about.
    pub open spec fn stream(self) -> StreamId {
        match self {
            Command::NewStream(inner) => inner.id,
            Command::PlayStream(id) => id,
            Command::PauseStream(id) => id,
            Command::DestroyStream(id) => id,
        }
    }
}

/// The OpenSL ES calls that create a recorder, in the order they are made.
#[derive(Debug, Clone, Copy, PartialEq, Eq, Structural)]
pub enum RecorderCall {
    CreateAudioRecorder,
    Realize,
    GetRecordInterface,
    GetBufferQueueInterface,
    RegisterCallback,
}

/// Where the creation of a recording stream stands after a call.
#[derive(Debug, Clone, Copy, PartialEq, Eq, Structural)]
pub enum InputProgress {
    /// Make this call next.
    Next(RecorderCall),
    /// The stream cannot be created.
    Failed(CreationError),
    /// The stream exists under this id.
    Built(StreamId),
}

/// The call that follows `call` while creating a recorder; the last one is
/// followed by none.
pub open spec fn recorder_call_after(call: RecorderCall) -> Option<RecorderCall> {
    match call {
        RecorderCall::CreateAudioRecorder => Some(RecorderCall::Realize),
        RecorderCall::Realize => Some(RecorderCall::GetRecordInterface),
        RecorderCall::GetRecordInterface => Some(RecorderCall::GetBufferQueueInterface),
        RecorderCall::GetBufferQueueInterface => Some(RecorderCall::RegisterCallback),
        RecorderCall::RegisterCallback => None,
    }
}

/// A recorder is created by five calls in a fixed order: create, realize, look
/// up the record interface, look up the buffer-queue interface, register the
/// callback; nothing follows the registration.
pub proof fn recorder_call_order()
    ensures
        recorder_call_after(RecorderCall::CreateAudioRecorder) == Some(RecorderCall::Realize),
        recorder_call_after(RecorderCall::Realize) == Some(RecorderCall::GetRecordInterface),
        recorder_call_after(RecorderCall::GetRecordInterface) == Some(
            RecorderCall::GetBufferQueueInterface,
        ),
        recorder_call_after(RecorderCall::GetBufferQueueInterface) == Some(
            RecorderCall::RegisterCallback,
        ),
        recorder_call_after(RecorderCall::RegisterCallback) == None::<RecorderCall>,
{
}

/// The speaker positions of a stream with `channels` channels: front left and
/// right for more than one, front centre otherwise.
pub open spec fn channel_mask_spec(channels: u16) -> u32 {
    if channels > 1 {
        SL_SPEAKER_FRONT_LEFT | SL_SPEAKER_FRONT_RIGHT
    } else {
        SL_SPEAKER_FRONT_CENTER
    }
}

/// A rate in Hertz as OpenSL ES counts it, in milliHertz; a rate beyond what a
/// `u32` holds in milliHertz is taken as the largest one it holds.
pub open spec fn millihertz_spec(sample_rate: u32) -> u32 {
    if sample_rate * 1000 <= u32::MAX {
        (sample_rate * 1000) as u32
    } else {
        u32::MAX
    }
}

/// The PCM format in which a stream of `format` is queued: 16-bit
/// little-endian samples with the format's channels and rate.
pub open spec fn pcm_format_spec(format: Format) -> PcmFormat {
    PcmFormat {
        format_type: SL_DATAFORMAT_PCM,
        num_channels: format.channels as u32,
        samples_per_sec: millihertz_spec(format.sample_rate),
        bits_per_sample: SL_PCMSAMPLEFORMAT_FIXED_16,
        container_size: SL_PCMSAMPLEFORMAT_FIXED_16,
        channel_mask: channel_mask_spec(format.channels),
        endianness: SL_BYTEORDER_LITTLEENDIAN,
    }
}

/// The recorder configuration for a stream in `format`: the default microphone
/// into a queue of the format's PCM.
pub open spec fn recorder_config_spec(format: Format) -> RecorderConfig {
    RecorderConfig {
        source_locator_type: SL_DATALOCATOR_IODEVICE,
        source_device_type: SL_IODEVICE_AUDIOINPUT,
        source_device_id: SL_DEFAULTDEVICEID_AUDIOINPUT,
        sink_locator_type: SL_DATALOCATOR_ANDROIDSIMPLEBUFFERQUEUE,
        sink_num_buffers: RECORDER_QUEUE_BUFFERS,
        pcm: pcm_format_spec(format),
    }
}

/// A stream's PCM is the format's own channels, at its rate in milliHertz
/// (saturated where it does not fit a `u32`), as 16-bit little-endian linear
/// PCM (`SL_DATAFORMAT_PCM` = 2, `SL_BYTEORDER_LITTLEENDIAN` = 2), on the front
/// left and right speakers (mask 3) for more than one channel and on the front
/// centre (mask 4) otherwise.
pub proof fn pcm_format_law(format: Format)
    ensures
        pcm_format_spec(format).format_type == 2,
        pcm_format_spec(format).num_channels == format.channels as u32,
        pcm_format_spec(format).samples_per_sec == (if format.sample_rate * 1000 <= u32::MAX {
            format.sample_rate * 1000
        } else {
            u32::MAX as int
        }),
        pcm_format_spec(format).bits_per_sample == 16,
        pcm_format_spec(format).container_size == 16,
        pcm_format_spec(format).channel_mask == (if format.channels > 1 {
            3u32
        } else {
            4u32
        }),
        pcm_format_spec(format).endianness == 2,
{
    assert((1u32 | 2u32) == 3u32) by (bit_vector);
}

/// A recorder reads the default audio input device (`SL_DATALOCATOR_IODEVICE`
/// = 3, `SL_IODEVICE_AUDIOINPUT` = 1, `SL_DEFAULTDEVICEID_AUDIOINPUT` =
/// 0xFFFFFFFF) into an Android simple buffer queue (0x800007BD) of two buffers,
/// in the PCM of the stream's own format.
pub proof fn recorder_config_law(format: Format)
    ensures
        recorder_config_spec(format).source_locator_type == 3,
        recorder_config_spec(format).source_device_type == 1,
        recorder_config_spec(format).source_device_id == 0xFFFF_FFFFu32,
        recorder_config_spec(format).sink_locator_type == 0x8000_07BDu32,
        recorder_config_spec(format).sink_num_buffers == 2,
        recorder_config_spec(format).pcm.num_channels == format.channels as u32,
        recorder_config_spec(format).pcm.channel_mask == (if format.channels > 1 {
            3u32
        } else {
            4u32
        }),
        recorder_config_spec(format).pcm == pcm_format_spec(format),
{
    pcm_format_law(format);
}

/// The PCM format in which a stream of `format`, recorded or played, is queued.
pub fn pcm_format(format: &Format) -> (r: PcmFormat)
    ensures
        r == pcm_format_spec(*format),
            r.format_type == 2,
            r.num_channels == format.channels as u32,
            r.samples_per_sec == (if format.sample_rate * 1000 <= u32::MAX {
                format.sample_rate * 1000
            } else {
                u32::MAX as int
            }),
            r.bits_per_sample == 16,
            r.container_size == 16,
            r.channel_mask == (if format.channels > 1 {
                3u32
            } else {
                4u32
            }),
            r.endianness == 2,
{
    proof {
        pcm_format_law(*format);
    }
    let samples_per_sec = match format.sample_rate.checked_mul(1000) {
        Some(rate) => rate,
        None => u32::MAX,
    };
    let channel_mask = if format.channels > 1 {
        SL_SPEAKER_FRONT_LEFT | SL_SPEAKER_FRONT_RIGHT
    } else {
        SL_SPEAKER_FRONT_CENTER
    };
    PcmFormat {
        format_type: SL_DATAFORMAT_PCM,
        num_channels: format.channels as u32,
        samples_per_sec,
        bits_per_sample: SL_PCMSAMPLEFORMAT_FIXED_16,
        container_size: SL_PCMSAMPLEFORMAT_FIXED_16,
        channel_mask,
        endianness: SL_BYTEORDER_LITTLEENDIAN,
    }
}

/// The streams of the OpenSL ES backend and the requests pending for them.
pub struct EventLoop {
    next_stream_id: usize,
    streams: Vec<Option<StreamInner>>,
    commands: Vec<Command>,
}

impl EventLoop {
    /// The id that the next stream gets.
    pub closed spec fn next_id(&self) -> usize {
        self.next_stream_id
    }

    /// The ids handed out so far: all those below the next one.
    pub closed spec fn issued(&self) -> Set<usize> {
        Set::new(|i: usize| i < self.next_stream_id)
    }

    /// The requests not yet taken up by the loop, oldest first.
    pub closed spec fn pending(&self) -> Seq<Command> {
        self.commands@
    }

    /// The streams that the loop runs.
    pub closed spec fn live_streams(&self) -> Seq<Option<StreamInner>> {
        self.streams@
    }

    /// Every stream named anywhere got its id before the next one to hand out.
    #[verifier::type_invariant]
    closed spec fn inv(self) -> bool {
        &&& forall|i: int|
            0 <= i < self.commands@.len() ==> (#[trigger] self.commands@[i]).stream()@
                < self.next_stream_id
        &&& forall|i: int|
            0 <= i < self.streams@.len() ==> (#[trigger] self.streams@[i] matches Some(
                inner,
            ) ==> inner.id@ < self.next_stream_id)
    }

    /// An id has been handed out exactly when it is below the next one; every
    /// stream named in the loop has one of them.
    pub proof fn issued_ids_are_below_next(&self, id: usize)
        ensures
            self.issued().contains(id) <==> id < self.next_id(),
    {
    }

    /// A loop with no streams and no requests; the first stream gets id 0.
    pub fn new() -> (r: EventLoop)
        ensures
            r.next_id() == 0,
            r.issued() == Set::<usize>::empty(),
            r.pending() == Seq::<Command>::empty(),
            r.live_streams() == Seq::<Option<StreamInner>>::empty(),
    {
        let r = EventLoop { next_stream_id: 0, streams: Vec::new(), commands: Vec::new() };
        assert(r.issued() =~= Set::<usize>::empty());
        r
    }

    /// The id that the next stream gets.
    pub fn next_stream_id(&self) -> (r: usize)
        ensures
            r == self.next_id(),
    {
        self.next_stream_id
    }

    /// The requests not yet taken up by the loop, oldest first.
    pub fn commands(&self) -> (r: &Vec<Command>)
        ensures
            r@ == self.pending(),
    {
        &self.commands
    }

    /// Hands out the next stream id.
    fn alloc_stream_id(&mut self) -> (r: StreamId)
        requires
            old(self).next_id() < usize::MAX,
        ensures
            r@ == old(self).next_id(),
            final(self).next_id() == old(self).next_id() + 1,
            !old(self).issued().contains(r@),
            final(self).issued() == old(self).issued().insert(r@),
            final(self).pending() == old(self).pending(),
            final(self).live_streams() == old(self).live_streams(),
    {
        proof {
            use_type_invariant(&*self);
        }
        let id = StreamId(self.next_stream_id);
        self.next_stream_id = self.next_stream_id + 1;
        assert(self.issued() =~= old(self).issued().insert(id@));
        id
    }

    /// Queues a request about a stream that has its id already.
    fn push_command(&mut self, command: Command)
        requires
            command.stream()@ < old(self).next_id(),
        ensures
            final(self).next_id() == old(self).next_id(),
            final(self).issued() == old(self).issued(),
            final(self).pending() == old(self).pending().push(command),
            final(self).live_streams() == old(self).live_streams(),
    {
        proof {
            use_type_invariant(&*self);
        }
        let mut commands = Vec::new();
        std::mem::swap(&mut commands, &mut self.commands);
        commands.push(command);
        self.commands = commands;
    }

    /// Decides how a recording stream in `format` is set up: refused for more
    /// than two channels, otherwise the recorder configuration to create it
    /// with. The driver then makes the calls of [`RecorderCall`], from
    /// `CreateAudioRecorder` on, and reports each result to
    /// [`EventLoop::advance_input_stream`].
    pub fn build_input_stream(&self, device: &Device, format: &Format) -> (r: Result<
        RecorderConfig,
        CreationError,
    >)
        ensures
            format.channels > 2 ==> r == Err::<RecorderConfig, CreationError>(
                CreationError::DeviceNotAvailable,
            ),
            format.channels <= 2 ==> r == Ok::<RecorderConfig, CreationError>(
                recorder_config_spec(*format),
            ),
            format.channels <= 2 ==> (r matches Ok(c) && c.source_locator_type == 3
                && c.source_device_type == 1 && c.source_device_id == 0xFFFF_FFFFu32
                && c.sink_locator_type == 0x8000_07BDu32 && c.sink_num_buffers == 2
                && c.pcm.num_channels == format.channels as u32 && c.pcm.channel_mask == (
            if format.channels > 1 {
                3u32
            } else {
                4u32
            }) && c.pcm == pcm_format_spec(*format)),
    {
        proof {
            recorder_config_law(*format);
        }
        if format.channels > 2 {
            return Err(CreationError::DeviceNotAvailable);
        }
        Ok(
            RecorderConfig {
                source_locator_type: SL_DATALOCATOR_IODEVICE,
                source_device_type: SL_IODEVICE_AUDIOINPUT,
                source_device_id: SL_DEFAULTDEVICEID_AUDIOINPUT,
                sink_locator_type: SL_DATALOCATOR_ANDROIDSIMPLEBUFFERQUEUE,
                sink_num_buffers: RECORDER_QUEUE_BUFFERS,
                pcm: pcm_format(format),
            },
        )
    }

    /// Takes the result of one call of the recorder's creation and decides what
    /// follows: a failed creation, realization or interface lookup refuses the
    /// stream as unavailable; each success leads to the next call; the callback's
    /// registration, whatever its result, completes the stream under a new id.
    pub fn advance_input_stream(&mut self, call: RecorderCall, result: u32) -> (r: InputProgress)
        requires
            call == RecorderCall::RegisterCallback ==> old(self).next_id() < usize::MAX,
        ensures
            final(self).pending() == old(self).pending(),
            final(self).live_streams() == old(self).live_streams(),
            call != RecorderCall::RegisterCallback && result == SL_RESULT_SUCCESS ==> {
                &&& r == InputProgress::Next(recorder_call_after(call)->0)
                &&& final(self).next_id() == old(self).next_id()
                &&& final(self).issued() == old(self).issued()
            },
            call != RecorderCall::RegisterCallback && result != SL_RESULT_SUCCESS ==> {
                &&& r == InputProgress::Failed(CreationError::DeviceNotAvailable)
                &&& final(self).next_id() == old(self).next_id()
                &&& final(self).issued() == old(self).issued()
            },
            call == RecorderCall::RegisterCallback ==> {
                &&& r matches InputProgress::Built(id)
                &&& id@ == old(self).next_id()
                &&& final(self).next_id() == old(self).next_id() + 1
                &&& !old(self).issued().contains(id@)
                &&& final(self).issued() == old(self).issued().insert(id@)
                &&& forall|i: int|
                    0 <= i < old(self).pending().len() ==> (#[trigger] old(self).pending()[i]).stream()
                        != id
            },
    {
        proof {
            use_type_invariant(&*self);
        }
        match call {
            RecorderCall::RegisterCallback => InputProgress::Built(self.alloc_stream_id()),
            _ => {
                if result != SL_RESULT_SUCCESS {
                    InputProgress::Failed(CreationError::DeviceNotAvailable)
                } else {
                    let next = match call {
                        RecorderCall::CreateAudioRecorder => RecorderCall::Realize,
                        RecorderCall::Realize => RecorderCall::GetRecordInterface,
                        RecorderCall::GetRecordInterface => RecorderCall::GetBufferQueueInterface,
                        _ => RecorderCall::RegisterCallback,
                    };
                    InputProgress::Next(next)
                }
            },
        }
    }

    /// Takes the result of registering the player's buffer-queue callback and
    /// builds the playback stream: on success the stream gets a new id and a
    /// `NewStream` request with the format's sample type and channels, two
    /// descriptors and the given buffer and period lengths is queued; otherwise
    /// the stream is refused as unavailable and nothing changes.
    pub fn build_output_stream(
        &mut self,
        device: &Device,
        format: &Format,
        register_result: u32,
        buffer_len: usize,
        period_len: usize,
    ) -> (r: Result<StreamId, CreationError>)
        requires
            register_result == SL_RESULT_SUCCESS ==> old(self).next_id() < usize::MAX,
        ensures
            final(self).live_streams() == old(self).live_streams(),
            register_result == SL_RESULT_SUCCESS ==> {
                &&& r matches Ok(id)
                &&& id@ == old(self).next_id()
                &&& final(self).next_id() == old(self).next_id() + 1
                &&& !old(self).issued().contains(id@)
                &&& final(self).issued() == old(self).issued().insert(id@)
                &&& forall|i: int|
                    0 <= i < old(self).pending().len() ==> (#[trigger] old(self).pending()[i]).stream()
                        != id
                &&& final(self).pending() == old(self).pending().push(
                    Command::NewStream(
                        StreamInner {
                            id,
                            num_descriptors: 2,
                            sample_format: format.data_type,
                            num_channels: format.channels,
                            buffer_len,
                            period_len,
                        },
                    ),
                )
            },
            register_result != SL_RESULT_SUCCESS ==> {
                &&& r == Err::<StreamId, CreationError>(CreationError::DeviceNotAvailable)
                &&& final(self).next_id() == old(self).next_id()
                &&& final(self).issued() == old(self).issued()
                &&& final(self).pending() == old(self).pending()
            },
    {
        proof {
            use_type_invariant(&*self);
        }
        if register_result != SL_RESULT_SUCCESS {
            return Err(CreationError::DeviceNotAvailable);
        }
        let new_stream_id = self.alloc_stream_id();
        let stream_inner = StreamInner {
            id: new_stream_id,
            num_descriptors: 2,
            sample_format: format.data_type,
            num_channels: format.channels,
            buffer_len,
            period_len,
        };
        self.push_command(Command::NewStream(stream_inner));
        Ok(new_stream_id)
    }
}

} // verus!

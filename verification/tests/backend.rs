use sles_backend::device::{default_input_device, default_output_device, Device, Devices, SupportedInputFormats, SupportedOutputFormats};
use sles_backend::event_loop::{pcm_format, Command, EventLoop, InputProgress, RecorderCall, StreamInner};
use sles_backend::format::{CreationError, Format, SampleFormat};

use sles_backend::index::nextIndex;
use sles_backend::sles::{
    SL_BYTEORDER_LITTLEENDIAN, SL_DATAFORMAT_PCM, SL_DATALOCATOR_ANDROIDSIMPLEBUFFERQUEUE,
    SL_DATALOCATOR_IODEVICE, SL_DEFAULTDEVICEID_AUDIOINPUT, SL_IODEVICE_AUDIOINPUT,
    SL_PCMSAMPLEFORMAT_FIXED_16, SL_RESULT_SUCCESS,
};
use sles_backend::stream::{RecordAction, OPENSL_STREAM, STARTUP_INTERVALS};
use sles_backend::wave::SinWave;

fn stream(output_channels: i32, intervals: i32, index: i32) -> OPENSL_STREAM {
    OPENSL_STREAM {
        sample_rate: 44100,
        input_channels: 2,
        output_channels,
        callback_buffer_size: 64,
        input_buffer_frames: 256,
        input_index: index,
        input_intervals: intervals,
    }
}

fn stereo(rate: u32) -> Format {
    Format { channels: 2, sample_rate: rate, data_type: SampleFormat::I16 }
}

#[test]
fn next_index_adds_when_it_fits() {
    assert_eq!(nextIndex(5, 3), 8);
    assert_eq!(nextIndex(0, 0), 0);
    assert_eq!(nextIndex(i32::MAX - 10, 10), i32::MAX);
}

#[test]
fn next_index_restarts_on_overflow() {
    assert_eq!(nextIndex(i32::MAX - 10, 11), 0);
    assert_eq!(nextIndex(i32::MAX, 1), 0);
}

#[test]
fn next_index_never_negative() {
    for &(i, inc) in &[(0, 0), (7, 9), (i32::MAX, i32::MAX), (1 << 30, 1 << 30)] {
        assert!(nextIndex(i, inc) >= 0);
    }
}

#[test]
fn record_only_stream_delivers_then_enqueues() {
    let mut s = stream(0, 0, 224);
    let step = s.record_step();
    assert_eq!(s.input_index, 288);
    match step.action {
        RecordAction::Deliver { sample_rate, frames, channels, offset } => {
            assert_eq!((sample_rate, frames, channels, offset), (44100, 64, 2, 448));
        }
        _ => panic!("a stream that only records delivers to the user callback"),
    }
    // frame 288 sits in slot 32 of the 256-frame ring, two samples per frame
    assert_eq!(step.enqueue_offset, 64);
    assert_eq!(step.enqueue_bytes, 64 * 2 * 2);
    assert_eq!((step.recorded.frames, step.recorded.channels, step.recorded.offset), (64, 2, 448));
}

#[test]
fn duplex_stream_still_reports_the_recorded_region() {
    let mut s = stream(2, STARTUP_INTERVALS, 64);
    let step = s.record_step();
    assert!(matches!(step.action, RecordAction::Nothing));
    assert_eq!((step.recorded.frames, step.recorded.channels, step.recorded.offset), (64, 2, 128));
}

#[test]
fn aligned_ring_keeps_regions_inside() {
    let mut s = stream(0, 0, 0);
    for _ in 0..40 {
        let step = s.record_step();
        assert_eq!(s.input_index % 64, 0);
        assert!(step.enqueue_offset + 64 * 2 <= 256 * 2);
    }
}

#[test]
fn delivered_region_is_the_last_enqueued_one() {
    let mut s = stream(0, 0, 200);
    let first = s.record_step();
    let second = s.record_step();
    match second.action {
        RecordAction::Deliver { offset, frames, channels, .. } => {
            assert_eq!(offset, first.enqueue_offset);
            assert_eq!(frames as i64 * channels as i64 * 2, first.enqueue_bytes);
        }
        _ => panic!("expected a delivery"),
    }
}

#[test]
fn duplex_stream_calibrates_during_startup() {
    let mut s = stream(2, STARTUP_INTERVALS - 1, 10);
    let step = s.record_step();
    match step.action {
        RecordAction::Calibrate { current_index } => assert_eq!(current_index, 10),
        _ => panic!("expected calibration"),
    }
    assert_eq!(s.input_index, 74);
    assert_eq!(s.input_intervals, STARTUP_INTERVALS - 1);
}

#[test]
fn duplex_stream_after_startup_does_nothing_before_enqueue() {
    let mut s = stream(2, STARTUP_INTERVALS, 10);
    let step = s.record_step();
    assert!(matches!(step.action, RecordAction::Nothing));
    assert_eq!(step.enqueue_offset, 74 * 2);
}

#[test]
fn record_index_restarts_on_overflow() {
    let mut s = stream(0, 0, i32::MAX - 10);
    let step = s.record_step();
    assert_eq!(s.input_index, 0);
    assert_eq!(step.enqueue_offset, 0);
}

#[test]
fn enqueue_offset_stays_in_ring() {
    let mut s = stream(0, 0, 0);
    for _ in 0..100 {
        let step = s.record_step();
        assert!(step.enqueue_offset >= 0);
        assert!(step.enqueue_offset <= (256 - 1) * 2);
    }
}

#[test]
fn input_stream_config_stereo() {
    let el = EventLoop::new();
    let cfg = el.build_input_stream(&Device, &stereo(44100)).unwrap();
    assert_eq!(cfg.source_locator_type, SL_DATALOCATOR_IODEVICE);
    assert_eq!(cfg.source_device_type, SL_IODEVICE_AUDIOINPUT);
    assert_eq!(cfg.source_device_id, SL_DEFAULTDEVICEID_AUDIOINPUT);
    assert_eq!(cfg.sink_locator_type, SL_DATALOCATOR_ANDROIDSIMPLEBUFFERQUEUE);
    assert_eq!(cfg.sink_num_buffers, 2);
    assert_eq!(cfg.pcm.format_type, SL_DATAFORMAT_PCM);
    assert_eq!(cfg.pcm.num_channels, 2);
    assert_eq!(cfg.pcm.samples_per_sec, 44_100_000);
    assert_eq!(cfg.pcm.bits_per_sample, SL_PCMSAMPLEFORMAT_FIXED_16);
    assert_eq!(cfg.pcm.container_size, SL_PCMSAMPLEFORMAT_FIXED_16);
    assert_eq!(cfg.pcm.channel_mask, 3);
    assert_eq!(cfg.pcm.endianness, SL_BYTEORDER_LITTLEENDIAN);
}

#[test]
fn input_stream_config_mono_uses_centre() {
    let el = EventLoop::new();
    let mono = Format { channels: 1, sample_rate: 8000, data_type: SampleFormat::I16 };
    let cfg = el.build_input_stream(&Device, &mono).unwrap();
    assert_eq!(cfg.pcm.channel_mask, 4);
    assert_eq!(cfg.pcm.samples_per_sec, 8_000_000);
    let none = Format { channels: 0, sample_rate: 8000, data_type: SampleFormat::I16 };
    assert_eq!(el.build_input_stream(&Device, &none).unwrap().pcm.channel_mask, 4);
}

#[test]
fn input_stream_refuses_too_many_channels() {
    let el = EventLoop::new();
    let f = Format { channels: 3, sample_rate: 44100, data_type: SampleFormat::I16 };
    assert_eq!(el.build_input_stream(&Device, &f), Err(CreationError::DeviceNotAvailable));
}

#[test]
fn input_stream_takes_any_rate() {
    let el = EventLoop::new();
    let high = el.build_input_stream(&Device, &stereo(4_294_968)).unwrap();
    assert_eq!(high.pcm.samples_per_sec, u32::MAX);
    let edge = el.build_input_stream(&Device, &stereo(4_294_967)).unwrap();
    assert_eq!(edge.pcm.samples_per_sec, 4_294_967_000);
}

#[test]
fn pcm_format_for_players() {
    let mono = Format { channels: 1, sample_rate: 22050, data_type: SampleFormat::I16 };
    let pcm = pcm_format(&mono);
    assert_eq!(pcm.num_channels, 1);
    assert_eq!(pcm.samples_per_sec, 22_050_000);
    assert_eq!(pcm.channel_mask, 4);
    assert_eq!(pcm.bits_per_sample, 16);
    assert_eq!(pcm_format(&stereo(u32::MAX)).samples_per_sec, u32::MAX);
    assert_eq!(pcm_format(&stereo(44100)).channel_mask, 3);
}

#[test]
fn recorder_protocol_succeeds_in_order() {
    let mut el = EventLoop::new();
    let mut call = RecorderCall::CreateAudioRecorder;
    let mut order = vec![call];
    loop {
        match el.advance_input_stream(call, SL_RESULT_SUCCESS) {
            InputProgress::Next(next) => {
                call = next;
                order.push(call);
            }
            InputProgress::Built(id) => {
                assert_eq!(id.index(), 0);
                break;
            }
            InputProgress::Failed(e) => panic!("unexpected failure {:?}", e),
        }
    }
    assert_eq!(
        order,
        vec![
            RecorderCall::CreateAudioRecorder,
            RecorderCall::Realize,
            RecorderCall::GetRecordInterface,
            RecorderCall::GetBufferQueueInterface,
            RecorderCall::RegisterCallback,
        ]
    );
}

#[test]
fn recorder_protocol_fails_on_any_checked_call() {
    for call in [
        RecorderCall::CreateAudioRecorder,
        RecorderCall::Realize,
        RecorderCall::GetRecordInterface,
        RecorderCall::GetBufferQueueInterface,
    ] {
        let mut el = EventLoop::new();
        assert_eq!(el.advance_input_stream(call, 9), InputProgress::Failed(CreationError::DeviceNotAvailable));
        assert!(el.commands().is_empty());
    }
}

#[test]
fn recorder_registration_result_is_not_checked() {
    let mut el = EventLoop::new();
    match el.advance_input_stream(RecorderCall::RegisterCallback, 12) {
        InputProgress::Built(id) => assert_eq!(id.index(), 0),
        other => panic!("unexpected {:?}", other),
    }
}

#[test]
fn output_stream_gets_fresh_ids_and_queues_command() {
    let mut el = EventLoop::new();
    let f = stereo(48000);
    let a = el.build_output_stream(&Device, &f, SL_RESULT_SUCCESS, 1024, 256).unwrap();
    let b = el.build_output_stream(&Device, &f, SL_RESULT_SUCCESS, 512, 128).unwrap();
    assert_ne!(a, b);
    assert_eq!((a.index(), b.index()), (0, 1));
    let cmds = el.commands();
    assert_eq!(cmds.len(), 2);
    assert_eq!(
        cmds[0],
        Command::NewStream(StreamInner {
            id: a,
            num_descriptors: 2,
            sample_format: SampleFormat::I16,
            num_channels: 2,
            buffer_len: 1024,
            period_len: 256,
        })
    );
}

#[test]
fn output_stream_refused_when_registration_fails() {
    let mut el = EventLoop::new();
    let f = stereo(48000);
    assert_eq!(el.build_output_stream(&Device, &f, 1, 1024, 256), Err(CreationError::DeviceNotAvailable));
    assert!(el.commands().is_empty());
    let id = el.build_output_stream(&Device, &f, SL_RESULT_SUCCESS, 1024, 256).unwrap();
    assert_eq!(id.index(), 0);
}

#[test]
fn input_and_output_streams_share_the_id_sequence() {
    let mut el = EventLoop::new();
    let out = el.build_output_stream(&Device, &stereo(48000), SL_RESULT_SUCCESS, 8, 4).unwrap();
    let inp = match el.advance_input_stream(RecorderCall::RegisterCallback, SL_RESULT_SUCCESS) {
        InputProgress::Built(id) => id,
        other => panic!("unexpected {:?}", other),
    };
    assert_ne!(out, inp);
    assert_eq!(inp.index(), 1);
}

#[test]
fn sin_wave_cursor_wraps() {
    let mut w = SinWave::new(4);
    assert_eq!(w.render(10), vec![0, 1, 2, 3, 0, 1, 2, 3, 0, 1]);
    assert_eq!(w.cursor(), 2);
    assert_eq!(w.len(), 4);
}

#[test]
fn sin_wave_is_periodic() {
    let mut w = SinWave::new(44_000 / 440);
    let first = w.render(100);
    let second = w.render(100);
    assert_eq!(first, second);
    assert_eq!(first[0], 0);
    assert_eq!(first[99], 99);
}

#[test]
fn sin_wave_render_continues() {
    let mut a = SinWave::new(7);
    let mut b = SinWave::new(7);
    let mut split = a.render(5);
    split.extend(a.render(9));
    assert_eq!(split, b.render(14));
}

#[test]
fn sin_wave_next_steps_one_sample() {
    let mut w = SinWave::new(3);
    assert_eq!((w.next(), w.next(), w.next(), w.next()), (0, 1, 2, 0));
    assert_eq!(w.cursor(), 1);
}

#[test]
fn sin_wave_returns_after_whole_periods() {
    let mut w = SinWave::new(5);
    w.render(2);
    w.render(15);
    assert_eq!(w.cursor(), 2);
}

#[test]
fn stream_ids_never_repeat() {
    let mut el = EventLoop::new();
    let mut seen = Vec::new();
    for k in 0..20 {
        let id = if k % 2 == 0 {
            el.build_output_stream(&Device, &stereo(48000), SL_RESULT_SUCCESS, 8, 4).unwrap()
        } else {
            match el.advance_input_stream(RecorderCall::RegisterCallback, SL_RESULT_SUCCESS) {
                InputProgress::Built(id) => id,
                other => panic!("unexpected {:?}", other),
            }
        };
        let _ = el.build_output_stream(&Device, &stereo(48000), 5, 8, 4);
        assert!(!seen.contains(&id));
        assert!(id.index() < el.next_stream_id());
        seen.push(id);
    }
}

#[test]
fn sin_wave_without_period_counts_up() {
    let mut w = SinWave::new(0);
    assert_eq!(w.render(4), vec![0, 1, 2, 3]);
    assert_eq!(w.cursor(), 4);
}

#[test]
fn devices_are_empty() {
    let mut d = Devices::default();
    assert!(d.next().is_none());
    assert!(default_input_device().is_none());
    assert!(default_output_device().is_none());
    assert!(SupportedInputFormats.next().is_none());
    assert!(SupportedOutputFormats.next().is_none());
}

#[test]
fn device_name_is_null() {
    assert_eq!(Device.name(), "null");
}

use std::cell::RefCell;

use hypetrigger::error::{Error, ErrorKind, NoneError, DECODER_EXITED_EARLY};
use hypetrigger::frame::{Frame, FrameAssembler};
use hypetrigger::image::RgbImage;
use hypetrigger::logging::LoggingConfig;
use hypetrigger::metadata::{parse_decimal_u32, parse_ffmpeg_output_size, parse_size_groups, LogSection, OutputSizeParser};
use hypetrigger::pipeline::{Hypetrigger, Trigger, FFMPEG_TEST_INPUT, STOP_SEQUENCE};
use hypetrigger::tesseract::{traineddata_file_name, traineddata_url, DEFAULT_LANGUAGE};
use hypetrigger::worker::{WorkerAction, WorkerEvent, WorkerState, WORKER_QUEUE_CAPACITY};

struct Recorder {
    seen: RefCell<Vec<u64>>,
    fail: bool,
}

impl Trigger for Recorder {
    fn on_frame(&self, frame: &Frame) -> Result<(), Error> {
        self.seen.borrow_mut().push(frame.frame_num);
        if self.fail {
            Err(Error::from_display(ErrorKind::Analyzer, "always fails".to_string()))
        } else {
            Ok(())
        }
    }
}

fn assembler(width: u32, height: u32, fps: u64) -> FrameAssembler {
    match FrameAssembler::new(Some((width, height)), fps) {
        Ok(a) => a,
        Err(e) => panic!("{}", e.message),
    }
}

fn recorder(fail: bool) -> Recorder {
    Recorder { seen: RefCell::new(Vec::new()), fail }
}

const STREAM_LINE: &str = "  Stream #0:0(und): Video: rawvideo (RGB[24] / 0x18424752), rgb24(pc, bt709, progressive), 1920x1080 [SAR 1:1 DAR 16:9], q=2-31, 99532 kb/s, 2 fps, 2 tbn (default)";

#[test]
fn decoder_arguments_for_test_source() {
    let mut job: Hypetrigger<Recorder> = Hypetrigger::new();
    job.test_input().set_fps(1);
    let args = job.ffmpeg_args();
    let expected = [
        "-hwaccel", "auto", "-f", "lavfi", "-i", FFMPEG_TEST_INPUT, "-filter:v", "fps=1", "-vsync", "drop",
        "-f", "rawvideo", "-pix_fmt", "rgb24", "-an", "-y", "pipe:1",
    ];
    assert_eq!(args, expected.iter().map(|s| s.to_string()).collect::<Vec<_>>());
    assert_eq!(FFMPEG_TEST_INPUT, "testsrc=duration=10:size=1280x720:rate=30");
}

#[test]
fn decoder_arguments_without_format() {
    let mut job: Hypetrigger<Recorder> = Hypetrigger::new();
    assert_eq!(job.ffmpeg_exe, "ffmpeg");
    assert_eq!(job.fps, 2);
    job.set_input("in.mp4".to_string()).set_fps(30).set_ffmpeg_exe("/bin/ff".to_string());
    let args = job.ffmpeg_args();
    assert_eq!(args[0..4], ["-hwaccel", "auto", "-i", "in.mp4"]);
    assert_eq!(args[5], "fps=30");
    assert_eq!(args.len(), 15);
    assert_eq!(job.ffmpeg_exe, "/bin/ff");
    job.set_fps(1234567);
    assert_eq!(job.ffmpeg_args()[5], "fps=1234567");
}

#[test]
fn output_size_from_stream_line() {
    assert_eq!(parse_ffmpeg_output_size(STREAM_LINE), Some((1920, 1080)));
    assert_eq!(parse_ffmpeg_output_size("  Stream #0:0: Video: rawvideo, rgb24, 1280x720, 1 fps "), Some((1280, 720)));
    assert_eq!(parse_ffmpeg_output_size("Output #0, rawvideo, to 'pipe:1':"), None);
    assert_eq!(parse_ffmpeg_output_size("  Stream #0:0: Video: x, 99999999999x2, "), None);
}

#[test]
fn decimal_groups() {
    assert_eq!(parse_size_groups("640", "480"), Some((640, 480)));
    assert_eq!(parse_decimal_u32("4294967295"), Some(u32::MAX));
    assert_eq!(parse_decimal_u32("4294967296"), None);
    assert_eq!(parse_decimal_u32(""), None);
    assert_eq!(parse_decimal_u32("1a"), None);
    assert_eq!(parse_decimal_u32("007"), Some(7));
}

#[test]
fn log_reader_finds_size_in_output_section() {
    let mut parser = OutputSizeParser::new();
    assert_eq!(parser.on_line(STREAM_LINE), None);
    assert_eq!(parser.section, LogSection::Prelude);
    assert_eq!(parser.on_line("Output #0, rawvideo, to 'pipe:1':"), None);
    assert_eq!(parser.section, LogSection::InsideOutputSection);
    assert_eq!(parser.on_line("  Metadata:"), None);
    assert_eq!(parser.on_line(STREAM_LINE), Some((1920, 1080)));
    assert_eq!(parser.section, LogSection::Done);
    assert_eq!(parser.on_line(STREAM_LINE), None);
    assert_eq!(parser.size, Some((1920, 1080)));
}

#[test]
fn missing_size_means_invalid_input() {
    let e = match FrameAssembler::new(None, 1) {
        Err(e) => e,
        Ok(_) => panic!("a missing size must be refused"),
    };
    assert_eq!(e.kind, ErrorKind::InvalidInput);
    assert_eq!(e.message, "decoder exited before sending output size");
    assert_eq!(Error::invalid_input().to_string(), DECODER_EXITED_EARLY);
    let e = match FrameAssembler::new(Some((0, 720)), 1) {
        Err(e) => e,
        Ok(_) => panic!("an empty frame size must be refused"),
    };
    assert_eq!(e.kind, ErrorKind::FrameGeometry);
}

#[test]
fn frames_are_cut_and_numbered() {
    let mut a = assembler(2, 1, 4);
    assert_eq!(a.buffer_len(), 6);
    let bytes: Vec<u8> = (0..20).collect();
    let mut frames = a.push_bytes(&bytes[0..4]);
    assert!(frames.is_empty());
    frames.extend(a.push_bytes(&bytes[4..13]));
    frames.extend(a.push_bytes(&bytes[13..20]));
    assert_eq!(frames.len(), 3);
    for (i, f) in frames.iter().enumerate() {
        assert_eq!(f.frame_num, i as u64);
        assert_eq!(f.image.width() * f.image.height() * 3, f.image.pixels.len() as u32);
        assert_eq!(f.image.pixels, bytes[i * 6..i * 6 + 6].to_vec());
        assert_eq!(f.frame_num as f64 / f.fps as f64, i as f64 / 4.0);
    }
    assert_eq!(a.pending, vec![18, 19]);
    assert_eq!(a.frames_delivered(), 3);
}

#[test]
fn ten_frames_at_one_fps() {
    let mut a = assembler(1280, 720, 1);
    let frame = vec![7u8; a.buffer_len()];
    let mut nums = Vec::new();
    for _ in 0..10 {
        for f in a.push_bytes(&frame) {
            assert_eq!((f.image.width(), f.image.height()), (1280, 720));
            nums.push(f.frame_num);
        }
    }
    assert_eq!(nums, (0..10).collect::<Vec<u64>>());
}

#[test]
fn trigger_errors_do_not_stop_delivery() {
    let mut job: Hypetrigger<Recorder> = Hypetrigger::new();
    job.add_trigger(recorder(true)).add_triggers(vec![recorder(false)]);
    let mut a = assembler(1, 1, 2);
    let frames = a.push_bytes(&[1, 2, 3, 4, 5, 6, 7, 8, 9]);
    let report = job.deliver_frames(&frames).unwrap();
    assert_eq!(report.frames_delivered, 3);
    assert_eq!(report.invocations, 6);
    assert_eq!(report.errors.len(), 3);
    assert!(report.errors.iter().all(|(_, t, e)| *t == 0 && e.kind == ErrorKind::Analyzer));
    assert_eq!(*job.triggers[0].seen.borrow(), vec![0, 1, 2]);
    assert_eq!(*job.triggers[1].seen.borrow(), vec![0, 1, 2]);
    let outcome = job.handle_triggers(&frames[0]).unwrap();
    assert_eq!(outcome.invoked, 2);
    assert_eq!(outcome.errors.len(), 1);
}

#[test]
fn worker_runs_each_packet_until_stop() {
    let mut w = WorkerState::new();
    let mut ran = 0;
    for e in [WorkerEvent::Packet, WorkerEvent::Packet, WorkerEvent::Packet, WorkerEvent::Stop] {
        if w.on_event(e) == WorkerAction::RunTrigger {
            ran += 1;
        }
    }
    assert_eq!(ran, 3);
    assert_eq!(w.processed, 3);
    assert!(!w.running);
    let mut d = WorkerState::new();
    assert_eq!(d.on_event(WorkerEvent::Disconnected), WorkerAction::Exit);
    assert_eq!(WORKER_QUEUE_CAPACITY, 100);
}

#[test]
fn error_envelopes() {
    let e = Error::from_std(ErrorKind::Io, "broken pipe".to_string());
    assert_eq!(e.message, "broken pipe");
    assert_eq!(e.source.as_deref(), Some("broken pipe"));
    let d = Error::from_display(ErrorKind::PoisonedMutex, "poisoned".to_string());
    assert!(d.source.is_none());
    let n: Error = NoneError.into();
    assert_eq!(n.kind, ErrorKind::NoneValue);
    assert_eq!(n.message, "called unwrap() on None");
}

#[test]
fn language_data_location() {
    assert_eq!(traineddata_file_name(DEFAULT_LANGUAGE), "eng.traineddata");
    assert_eq!(
        traineddata_url("deu"),
        "https://github.com/tesseract-ocr/tessdata/raw/4.00/deu.traineddata"
    );
}

#[test]
fn logging_defaults() {
    let c = LoggingConfig::default();
    assert!(c.debug_thread_exit);
    assert!(!c.debug_ffmpeg && !c.debug_buffer_allocation && !c.debug_buffer_transfer && !c.log_ffmpeg_stderr);
}

#[test]
fn stop_request_bytes() {
    assert_eq!(STOP_SEQUENCE.as_bytes(), b"q\n");
}

#[test]
fn builder_setters() {
    let mut job: Hypetrigger<Recorder> = Hypetrigger::new();
    job.set_verbose(true).set_input_format("gdigrab").set_input("desktop".to_string());
    assert!(job.verbose);
    assert_eq!(job.input_format.as_deref(), Some("gdigrab"));
    let args = job.ffmpeg_args();
    assert_eq!(args[2..6], ["-f", "gdigrab", "-i", "desktop"]);
    assert_eq!(args[7], "fps=2");
}

#[test]
fn malformed_frame_reaches_no_trigger() {
    let mut job: Hypetrigger<Recorder> = Hypetrigger::new();
    job.add_trigger(recorder(false));
    let bad = Frame { image: RgbImage { pixels: vec![0; 5], width: 1, height: 1 }, frame_num: 0, fps: 1 };
    let e = match job.handle_triggers(&bad) {
        Err(e) => e,
        Ok(_) => panic!("a malformed frame must be refused"),
    };
    assert_eq!(e.kind, ErrorKind::FrameGeometry);
    let good = Frame { image: RgbImage { pixels: vec![0; 3], width: 1, height: 1 }, frame_num: 1, fps: 1 };
    let e = match job.deliver_frames(&vec![good, bad]) {
        Err(e) => e,
        Ok(_) => panic!("a batch with a malformed frame must be refused"),
    };
    assert_eq!(e.kind, ErrorKind::FrameGeometry);
    assert!(job.triggers[0].seen.borrow().is_empty());
}

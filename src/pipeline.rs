//! The job configuration, the decoder's arguments, and the fan-out of
//! frames to triggers.
use vstd::prelude::*;
use crate::error::{Error, ErrorKind};
use crate::frame::{Frame, geometry_mismatch};

verus! {

/// The decoder executable used unless another is set.
pub const DEFAULT_FFMPEG_EXE: &'static str = "ffmpeg";

/// The sampling rate used unless another is set, in frames per second.
pub const DEFAULT_FPS: u64 = 2;

/// The decoder's synthetic test source: ten seconds of a 1280×720 pattern
/// with a counter, at 30 frames per second.
pub const FFMPEG_TEST_INPUT: &'static str = "testsrc=duration=10:size=1280x720:rate=30";

/// The input format that selects the decoder's synthetic sources.
pub const TEST_INPUT_FORMAT: &'static str = "lavfi";

/// The bytes that ask the decoder, on its standard input, to stop cleanly.
pub const STOP_SEQUENCE: &'static str = "q\n";

/// A per-frame analyzer.
pub trait Trigger {
    /// Looks at one frame. An error is reported and does not stop the run.
    fn on_frame(&self, frame: &Frame) -> Result<(), Error>;
}

/// The character of a decimal digit.
pub open spec fn digit_char(d: nat) -> char {
    seq!['0', '1', '2', '3', '4', '5', '6', '7', '8', '9'][d as int]
}

/// `n` written in decimal, without leading zeros.
pub open spec fn decimal_digits(n: nat) -> Seq<char>
    decreases n,
{
    if n < 10 {
        seq![digit_char(n)]
    } else {
        decimal_digits(n / 10).push(digit_char(n % 10))
    }
}

fn digit_str(d: u64) -> (r: &'static str)
    requires
        d < 10,
    ensures
        r@ == seq![digit_char(d as nat)],
{
    proof {
        reveal_strlit("0");
        reveal_strlit("1");
        reveal_strlit("2");
        reveal_strlit("3");
        reveal_strlit("4");
        reveal_strlit("5");
        reveal_strlit("6");
        reveal_strlit("7");
        reveal_strlit("8");
        reveal_strlit("9");
    }
    if d == 0 {
        "0"
    } else if d == 1 {
        "1"
    } else if d == 2 {
        "2"
    } else if d == 3 {
        "3"
    } else if d == 4 {
        "4"
    } else if d == 5 {
        "5"
    } else if d == 6 {
        "6"
    } else if d == 7 {
        "7"
    } else if d == 8 {
        "8"
    } else {
        "9"
    }
}

/// Appends `n` in decimal to `s`.
pub fn push_decimal(s: &mut String, n: u64)
    ensures
        final(s)@ == old(s)@ + decimal_digits(n as nat),
    decreases n,
{
    if n >= 10 {
        push_decimal(s, n / 10);
    }
    s.append(digit_str(n % 10));
    assert(final(s)@ =~= old(s)@ + decimal_digits(n as nat));
}

/// The decoder's arguments for a job: hardware acceleration "auto", the
/// optional input format, the input, an `fps=N` video filter, dropped
/// timestamps, raw packed-RGB output without audio, overwrite on, output to
/// standard output.
pub open spec fn decoder_args(input: Seq<char>, input_format: Option<Seq<char>>, fps: nat) -> Seq<
    Seq<char>,
> {
    seq!["-hwaccel"@, "auto"@] + match input_format {
        Some(f) => seq!["-f"@, f],
        None => Seq::empty(),
    } + seq![
        "-i"@,
        input,
        "-filter:v"@,
        "fps="@ + decimal_digits(fps),
        "-vsync"@,
        "drop"@,
        "-f"@,
        "rawvideo"@,
        "-pix_fmt"@,
        "rgb24"@,
        "-an"@,
        "-y"@,
        "pipe:1"@,
    ]
}

/// The views of a list of strings.
pub open spec fn string_views(v: Seq<String>) -> Seq<Seq<char>> {
    v.map_values(|s: String| s@)
}

/// The configuration of one decoding job, and the triggers that every sampled
/// frame goes to.
pub struct Hypetrigger<T> {
    /// Path to the decoder binary, or the command to run.
    pub ffmpeg_exe: String,
    /// Print all decoder log output.
    pub verbose: bool,
    /// Input video or image, as the decoder's `-i` argument.
    pub input: String,
    /// The input's format, as the decoder's `-f` argument, when it cannot be
    /// inferred from the input.
    pub input_format: Option<String>,
    /// Sampling rate, in frames per second.
    pub fps: u64,
    /// The triggers run on every frame, in registration order.
    pub triggers: Vec<T>,
}

impl<T: Trigger> Hypetrigger<T> {
    /// A job with the default decoder, no input, 2 fps and no triggers.
    pub fn new() -> (r: Hypetrigger<T>)
        ensures
            r.ffmpeg_exe@ == DEFAULT_FFMPEG_EXE@,
            !r.verbose,
            r.input@.len() == 0,
            r.input_format is None,
            r.fps == DEFAULT_FPS,
            r.triggers@.len() == 0,
    {
        Hypetrigger {
            ffmpeg_exe: String::from_str(DEFAULT_FFMPEG_EXE),
            verbose: false,
            input: String::new(),
            input_format: None,
            fps: DEFAULT_FPS,
            triggers: Vec::new(),
        }
    }

    /// Sets the decoder binary or command.
    pub fn set_ffmpeg_exe(&mut self, ffmpeg_exe: String) -> (r: &mut Self)
        ensures
            r.ffmpeg_exe == ffmpeg_exe,
            r.verbose == old(self).verbose,
            r.input == old(self).input,
            r.input_format == old(self).input_format,
            r.fps == old(self).fps,
            r.triggers == old(self).triggers,
            *final(self) == *final(r),
    {
        self.ffmpeg_exe = ffmpeg_exe;
        self
    }

    /// Turns the printing of the decoder's log on or off.
    pub fn set_verbose(&mut self, verbose: bool) -> (r: &mut Self)
        ensures
            r.ffmpeg_exe == old(self).ffmpeg_exe,
            r.verbose == verbose,
            r.input == old(self).input,
            r.input_format == old(self).input_format,
            r.fps == old(self).fps,
            r.triggers == old(self).triggers,
            *final(self) == *final(r),
    {
        self.verbose = verbose;
        self
    }

    /// Sets the input video or image.
    pub fn set_input(&mut self, input: String) -> (r: &mut Self)
        ensures
            r.ffmpeg_exe == old(self).ffmpeg_exe,
            r.verbose == old(self).verbose,
            r.input == input,
            r.input_format == old(self).input_format,
            r.fps == old(self).fps,
            r.triggers == old(self).triggers,
            *final(self) == *final(r),
    {
        self.input = input;
        self
    }

    /// Sets the input's format.
    pub fn set_input_format(&mut self, input_format: &str) -> (r: &mut Self)
        ensures
            r.ffmpeg_exe == old(self).ffmpeg_exe,
            r.verbose == old(self).verbose,
            r.input == old(self).input,
            r.input_format matches Some(f) && f@ == input_format@,
            r.fps == old(self).fps,
            r.triggers == old(self).triggers,
            *final(self) == *final(r),
    {
        self.input_format = Some(String::from_str(input_format));
        self
    }

    /// Selects the decoder's synthetic test source as input.
    pub fn test_input(&mut self) -> (r: &mut Self)
        ensures
            r.ffmpeg_exe == old(self).ffmpeg_exe,
            r.verbose == old(self).verbose,
            r.input@ == FFMPEG_TEST_INPUT@,
            r.input_format matches Some(f) && f@ == TEST_INPUT_FORMAT@,
            r.fps == old(self).fps,
            r.triggers == old(self).triggers,
            *final(self) == *final(r),
    {
        self.input_format = Some(String::from_str(TEST_INPUT_FORMAT));
        self.input = String::from_str(FFMPEG_TEST_INPUT);
        self
    }

    /// Sets the sampling rate, in frames per second.
    pub fn set_fps(&mut self, fps: u64) -> (r: &mut Self)
        ensures
            r.ffmpeg_exe == old(self).ffmpeg_exe,
            r.verbose == old(self).verbose,
            r.input == old(self).input,
            r.input_format == old(self).input_format,
            r.fps == fps,
            r.triggers == old(self).triggers,
            *final(self) == *final(r),
    {
        self.fps = fps;
        self
    }

    /// Registers a trigger after those already registered.
    pub fn add_trigger(&mut self, trigger: T) -> (r: &mut Self)
        ensures
            r.ffmpeg_exe == old(self).ffmpeg_exe,
            r.verbose == old(self).verbose,
            r.input == old(self).input,
            r.input_format == old(self).input_format,
            r.fps == old(self).fps,
            r.triggers@ == old(self).triggers@.push(trigger),
            *final(self) == *final(r),
    {
        self.triggers.push(trigger);
        self
    }

    /// Registers several triggers, in order, after those already registered.
    pub fn add_triggers(&mut self, triggers: Vec<T>) -> (r: &mut Self)
        ensures
            r.ffmpeg_exe == old(self).ffmpeg_exe,
            r.verbose == old(self).verbose,
            r.input == old(self).input,
            r.input_format == old(self).input_format,
            r.fps == old(self).fps,
            r.triggers@ == old(self).triggers@ + triggers@,
            *final(self) == *final(r),
    {
        let mut triggers = triggers;
        self.triggers.append(&mut triggers);
        self
    }

    /// The decoder's argument list for this job.
    pub fn ffmpeg_args(&self) -> (r: Vec<String>)
        ensures
            string_views(r@) == decoder_args(
                self.input@,
                match self.input_format {
                    Some(f) => Some(f@),
                    None => None,
                },
                self.fps as nat,
            ),
    {
        let mut args: Vec<String> = Vec::new();
        args.push(String::from_str("-hwaccel"));
        args.push(String::from_str("auto"));
        match &self.input_format {
            Some(f) => {
                args.push(String::from_str("-f"));
                args.push(f.clone());
            },
            None => {},
        }
        args.push(String::from_str("-i"));
        args.push(self.input.clone());
        args.push(String::from_str("-filter:v"));
        let mut filter = String::from_str("fps=");
        push_decimal(&mut filter, self.fps);
        args.push(filter);
        args.push(String::from_str("-vsync"));
        args.push(String::from_str("drop"));
        args.push(String::from_str("-f"));
        args.push(String::from_str("rawvideo"));
        args.push(String::from_str("-pix_fmt"));
        args.push(String::from_str("rgb24"));
        args.push(String::from_str("-an"));
        args.push(String::from_str("-y"));
        args.push(String::from_str("pipe:1"));
        assert(string_views(args@) =~= decoder_args(
            self.input@,
            match self.input_format {
                Some(f) => Some(f@),
                None => None,
            },
            self.fps as nat,
        ));
        args
    }

    /// Runs every trigger on `frame`, in registration order, appending each
    /// failure to `errors` with the frame's number and the trigger's index.
    fn run_triggers(&self, frame: &Frame, errors: &mut Vec<(u64, usize, Error)>) -> (invoked: usize)
        ensures
            invoked == self.triggers@.len(),
            old(errors)@.len() <= final(errors)@.len() <= old(errors)@.len() + invoked,
            final(errors)@.subrange(0, old(errors)@.len() as int) == old(errors)@,
            forall|i: int|
                #![trigger final(errors)@[i]]
                old(errors)@.len() <= i < final(errors)@.len() ==> final(errors)@[i].0
                    == frame.frame_num && final(errors)@[i].1 < invoked,
            forall|i: int, j: int|
                #![trigger final(errors)@[i], final(errors)@[j]]
                old(errors)@.len() <= i < j < final(errors)@.len() ==> final(errors)@[i].1
                    < final(errors)@[j].1,
    {
        let ghost start = errors@;
        let mut i: usize = 0;
        while i < self.triggers.len()
            invariant
                i <= self.triggers@.len(),
                start.len() <= errors@.len() <= start.len() + i,
                errors@.subrange(0, start.len() as int) == start,
                forall|k: int|
                    #![trigger errors@[k]]
                    start.len() <= k < errors@.len() ==> errors@[k].0 == frame.frame_num
                        && errors@[k].1 < i,
                forall|k: int, l: int|
                    #![trigger errors@[k], errors@[l]]
                    start.len() <= k < l < errors@.len() ==> errors@[k].1 < errors@[l].1,
            decreases self.triggers@.len() - i,
        {
            match self.triggers[i].on_frame(frame) {
                Ok(()) => {},
                Err(e) => {
                    let ghost before = errors@;
                    errors.push((frame.frame_num, i, e));
                    assert(errors@.subrange(0, start.len() as int) =~= before.subrange(
                        0,
                        start.len() as int,
                    ));
                },
            }
            i = i + 1;
        }
        i
    }

    /// Runs every trigger on `frame`, in registration order. A failing
    /// trigger does not keep the later ones from running; the failures are
    /// returned for reporting, each with the index of its trigger. A frame
    /// whose byte count does not match its size is refused with a
    /// frame-geometry error before any trigger sees it.
    pub fn handle_triggers(&self, frame: &Frame) -> (r: Result<FrameOutcome, Error>)
        ensures
            r is Err <==> !frame.wf(),
            r matches Err(e) ==> e.kind == ErrorKind::FrameGeometry,
            r matches Ok(out) ==> {
                &&& out.invoked == self.triggers@.len()
                &&& out.errors@.len() <= out.invoked
                &&& forall|i: int|
                    #![trigger out.errors@[i]]
                    0 <= i < out.errors@.len() ==> out.errors@[i].0 == frame.frame_num
                        && out.errors@[i].1 < out.invoked
                &&& forall|i: int, j: int|
                    #![trigger out.errors@[i], out.errors@[j]]
                    0 <= i < j < out.errors@.len() ==> out.errors@[i].1 < out.errors@[j].1
            },
    {
        if !frame.has_valid_geometry() {
            return Err(geometry_mismatch());
        }
        let mut errors: Vec<(u64, usize, Error)> = Vec::new();
        let invoked = self.run_triggers(frame, &mut errors);
        Ok(FrameOutcome { invoked, errors })
    }

    /// Hands each frame, in order, to every trigger. Every frame is delivered
    /// to every trigger whatever the triggers return: a failure is recorded
    /// with the number of its frame and the index of its trigger. When some
    /// frame's byte count does not match its size, the batch is refused with a
    /// frame-geometry error before any trigger is called.
    pub fn deliver_frames(&self, frames: &Vec<Frame>) -> (r: Result<DeliveryReport, Error>)
        requires
            frames@.len() * self.triggers@.len() <= usize::MAX,
        ensures
            r is Err <==> exists|i: int| 0 <= i < frames@.len() && !(#[trigger] frames@[i]).wf(),
            r matches Err(e) ==> e.kind == ErrorKind::FrameGeometry,
            r matches Ok(report) ==> {
                &&& report.frames_delivered == frames@.len()
                &&& report.invocations == frames@.len() * self.triggers@.len()
                &&& report.errors@.len() <= report.invocations
                &&& forall|i: int|
                    #![trigger report.errors@[i]]
                    0 <= i < report.errors@.len() ==> report.errors@[i].1 < self.triggers@.len()
            },
    {
        let mut checked: usize = 0;
        while checked < frames.len()
            invariant
                checked <= frames@.len(),
                forall|k: int| 0 <= k < checked ==> (#[trigger] frames@[k]).wf(),
            decreases frames@.len() - checked,
        {
            if !frames[checked].has_valid_geometry() {
                return Err(geometry_mismatch());
            }
            checked = checked + 1;
        }
        let mut errors: Vec<(u64, usize, Error)> = Vec::new();
        let mut invocations: usize = 0;
        let mut i: usize = 0;
        while i < frames.len()
            invariant
                i <= frames@.len(),
                frames@.len() * self.triggers@.len() <= usize::MAX,
                invocations == i * self.triggers@.len(),
                errors@.len() <= invocations,
                forall|k: int|
                    #![trigger errors@[k]]
                    0 <= k < errors@.len() ==> errors@[k].1 < self.triggers@.len(),
            decreases frames@.len() - i,
        {
            proof {
                assert((i + 1) * self.triggers@.len() == i * self.triggers@.len()
                    + self.triggers@.len()) by (nonlinear_arith);
                assert((i + 1) * self.triggers@.len() <= frames@.len() * self.triggers@.len())
                    by (nonlinear_arith)
                    requires
                        i + 1 <= frames@.len(),
                ;
            }
            let ghost before = errors@;
            let invoked = self.run_triggers(&frames[i], &mut errors);
            assert forall|k: int| #![trigger errors@[k]] 0 <= k < errors@.len() implies errors@[k].1
                < self.triggers@.len() by {
                if k < before.len() {
                    assert(errors@.subrange(0, before.len() as int)[k] == before[k]);
                } else {
                    assert(errors@[k].1 < invoked);
                }
            }
            invocations = invocations + invoked;
            i = i + 1;
        }
        Ok(DeliveryReport { frames_delivered: i, invocations, errors })
    }
}

/// What happened when one frame went to every trigger.
pub struct FrameOutcome {
    /// How many triggers ran.
    pub invoked: usize,
    /// The failures: frame number, trigger index, error.
    pub errors: Vec<(u64, usize, Error)>,
}

/// What happened when a batch of frames went to every trigger.
pub struct DeliveryReport {
    /// How many frames were delivered.
    pub frames_delivered: usize,
    /// How many trigger calls were made.
    pub invocations: usize,
    /// The failures: frame number, trigger index, error.
    pub errors: Vec<(u64, usize, Error)>,
}


} // verus!

//! Stripping the metadata of a video: the decisions around the `ffmpeg`
//! run that copies the streams of an upload into `/tmp/processed/` without
//! its metadata. The job is a state machine; the caller performs each action
//! (a file-system query, a directory creation, an `ffmpeg` run) and hands
//! back what happened.

use vstd::prelude::*;
use crate::io::{file_name, file_name_of};
use crate::text::strings_chars;

verus! {

/// The directory that receives converted videos.
pub open spec fn processed_dir() -> Seq<char> {
    "/tmp/processed/"@
}

/// Where the conversion of `input` is written: `/tmp/processed/{file name}`,
/// or `None` when `input` has no file name.
pub open spec fn convert_output_of(input: Seq<char>) -> Option<Seq<char>> {
    match file_name_of(input) {
        Some(n) => Some(processed_dir() + n),
        None => None,
    }
}

/// The arguments of the `ffmpeg` run that copies the audio and video streams
/// of `input` into `output` and drops all metadata, overwriting `output`.
pub open spec fn ffmpeg_args_of(input: Seq<char>, output: Seq<char>) -> Seq<Seq<char>> {
    seq![
        "-y"@, "-i"@, input, "-map_metadata"@, "-1"@, "-c:v"@, "copy"@, "-c:a"@, "copy"@, output,
    ]
}

/// Why a video could not be converted.
#[derive(Debug, Clone, PartialEq, Eq)]
pub enum ConvertError {
    /// The input path has no file name to name the output after.
    FileCreationFailed,
    /// An I/O operation failed: creating `/tmp/processed/`, starting
    /// `ffmpeg` or forwarding its output. The operation's error text.
    Io(String),
    /// `ffmpeg` ended with a non-zero exit code, or without one.
    NonZeroExit,
}

/// The message that reports a conversion error.
pub open spec fn convert_error_message(e: ConvertError) -> Seq<char> {
    match e {
        ConvertError::FileCreationFailed => "File Creation Failed Error"@,
        ConvertError::Io(text) => text@,
        ConvertError::NonZeroExit => "FFmpeg quit with a non zero exit code!"@,
    }
}

impl ConvertError {
    /// The message that reports this error (see `convert_error_message`).
    pub fn message(&self) -> (m: &str)
        ensures
            m@ == convert_error_message(*self),
    {
        match self {
            ConvertError::FileCreationFailed => "File Creation Failed Error",
            ConvertError::Io(text) => text.as_str(),
            ConvertError::NonZeroExit => "FFmpeg quit with a non zero exit code!",
        }
    }
}

/// The output path of the conversion of `file` (see `convert_output_of`).
pub fn convert_output_path(file: &str) -> (r: Result<String, ConvertError>)
    ensures
        match convert_output_of(file@) {
            Some(o) => r matches Ok(s) && s@ == o,
            None => r == Err::<String, ConvertError>(ConvertError::FileCreationFailed),
        },
{
    match file_name(file) {
        Some(name) => {
            let mut out = String::from_str("/tmp/processed/");
            out.append(name.as_str());
            Ok(out)
        },
        None => Err(ConvertError::FileCreationFailed),
    }
}

/// The `ffmpeg` arguments for converting `input` into `output` (see `ffmpeg_args_of`).
pub fn ffmpeg_arguments(input: &str, output: &str) -> (r: Vec<String>)
    ensures
        strings_chars(r@) == ffmpeg_args_of(input@, output@),
{
    let r = vec![
        String::from_str("-y"),
        String::from_str("-i"),
        String::from_str(input),
        String::from_str("-map_metadata"),
        String::from_str("-1"),
        String::from_str("-c:v"),
        String::from_str("copy"),
        String::from_str("-c:a"),
        String::from_str("copy"),
        String::from_str(output),
    ];
    assert(strings_chars(r@) =~= ffmpeg_args_of(input@, output@));
    r
}

/// The result of a conversion whose `ffmpeg` run ended with `exit_code`
/// (`None` when it ended without a code): the output path when the code is
/// 0, `NonZeroExit` otherwise.
pub fn ffmpeg_outcome(output: String, exit_code: Option<i32>) -> (r: Result<String, ConvertError>)
    ensures
        exit_code == Some(0i32) ==> r == Ok::<String, ConvertError>(output),
        exit_code != Some(0i32) ==> r == Err::<String, ConvertError>(ConvertError::NonZeroExit),
{
    match exit_code {
        Some(0) => Ok(output),
        _ => Err(ConvertError::NonZeroExit),
    }
}

/// Where a video job stands.
#[derive(Debug, Clone, Copy, PartialEq, Eq, Structural)]
pub enum VideoPhase {
    /// Waiting to learn whether the input file exists.
    AwaitExists,
    /// Waiting for `/tmp/processed/` to be created.
    AwaitDirectory,
    /// Waiting for the `ffmpeg` run to end.
    AwaitFfmpeg,
    /// The job has produced its result.
    Finished,
}

/// What the caller reports back to a video job.
#[derive(Debug, Clone, PartialEq, Eq)]
pub enum VideoEvent {
    /// Whether the input file exists.
    Exists(bool),
    /// `/tmp/processed/` was created, or already existed.
    DirectoryCreated,
    /// `/tmp/processed/` could not be created; the error text.
    DirectoryFailed(String),
    /// `ffmpeg` could not be started, or its output could not be forwarded;
    /// the error text.
    FfmpegFailed(String),
    /// The exit code of `ffmpeg`, or `None` when it ended without a code.
    FfmpegFinished(Option<i32>),
}

/// What a video job asks the caller to do next.
pub enum VideoAction {
    /// Check whether this file exists.
    CheckExists(String),
    /// Create this directory and its parents.
    CreateDirectory(String),
    /// Run `ffmpeg` with these arguments.
    RunFfmpeg(Vec<String>),
    /// The job is done: the path of the stripped copy, or `None`.
    Finish(Option<String>),
}

/// `VideoAction` over character sequences.
pub enum VideoActionView {
    CheckExists(Seq<char>),
    CreateDirectory(Seq<char>),
    RunFfmpeg(Seq<Seq<char>>),
    Finish(Option<Seq<char>>),
}

impl View for VideoAction {
    type V = VideoActionView;

    open spec fn view(&self) -> VideoActionView {
        match self {
            VideoAction::CheckExists(p) => VideoActionView::CheckExists(p@),
            VideoAction::CreateDirectory(p) => VideoActionView::CreateDirectory(p@),
            VideoAction::RunFfmpeg(args) => VideoActionView::RunFfmpeg(strings_chars(args@)),
            VideoAction::Finish(Some(p)) => VideoActionView::Finish(Some(p@)),
            VideoAction::Finish(None) => VideoActionView::Finish(None),
        }
    }
}

/// The state of a video job: its input path, the output path once known,
/// its phase, and why the conversion failed, once it has.
pub struct VideoJobState {
    pub input: Seq<char>,
    pub output: Seq<char>,
    pub phase: VideoPhase,
    pub failure: Option<ConvertError>,
}

/// The metadata stripping of one video file.
pub struct VideoJob {
    input: String,
    output: String,
    phase: VideoPhase,
    failure: Option<ConvertError>,
}

impl View for VideoJob {
    type V = VideoJobState;

    closed spec fn view(&self) -> VideoJobState {
        VideoJobState { input: self.input@, output: self.output@, phase: self.phase, failure: self.failure }
    }
}

/// Whether a job in `phase` expects `event`.
pub open spec fn video_accepts(phase: VideoPhase, event: VideoEvent) -> bool {
    match (phase, event) {
        (VideoPhase::AwaitExists, VideoEvent::Exists(_)) => true,
        (VideoPhase::AwaitDirectory, VideoEvent::DirectoryCreated) => true,
        (VideoPhase::AwaitDirectory, VideoEvent::DirectoryFailed(_)) => true,
        (VideoPhase::AwaitFfmpeg, VideoEvent::FfmpegFailed(_)) => true,
        (VideoPhase::AwaitFfmpeg, VideoEvent::FfmpegFinished(_)) => true,
        _ => false,
    }
}

/// The job state right after `VideoJob::new(input)`.
pub open spec fn video_start(input: Seq<char>) -> VideoJobState {
    VideoJobState { input, output: Seq::empty(), phase: VideoPhase::AwaitExists, failure: None }
}

/// One step of a video job: a missing file ends the job with `None` and no
/// conversion; an input without a file name, a failed directory creation
/// (then `ffmpeg` is not run), an `ffmpeg` run that could not be started or
/// forwarded, or a non-zero exit ends it with `None` and records why the
/// conversion failed, with the I/O error's text where there is one; otherwise the
/// job goes on to the next step, and ends with the output path once `ffmpeg`
/// exits with 0.
pub open spec fn video_step(s: VideoJobState, e: VideoEvent) -> (VideoJobState, VideoActionView) {
    let done = VideoJobState { phase: VideoPhase::Finished, ..s };
    let failed = |f: ConvertError| VideoJobState { phase: VideoPhase::Finished, failure: Some(f), ..s };
    match e {
        VideoEvent::Exists(false) => (done, VideoActionView::Finish(None)),
        VideoEvent::Exists(true) => match convert_output_of(s.input) {
            None => (failed(ConvertError::FileCreationFailed), VideoActionView::Finish(None)),
            Some(o) => (
                VideoJobState { output: o, phase: VideoPhase::AwaitDirectory, ..s },
                VideoActionView::CreateDirectory(processed_dir()),
            ),
        },
        VideoEvent::DirectoryFailed(text) => (failed(ConvertError::Io(text)), VideoActionView::Finish(None)),
        VideoEvent::DirectoryCreated => (
            VideoJobState { phase: VideoPhase::AwaitFfmpeg, ..s },
            VideoActionView::RunFfmpeg(ffmpeg_args_of(s.input, s.output)),
        ),
        VideoEvent::FfmpegFailed(text) => (failed(ConvertError::Io(text)), VideoActionView::Finish(None)),
        VideoEvent::FfmpegFinished(code) => if code == Some(0i32) {
            (done, VideoActionView::Finish(Some(s.output)))
        } else {
            (failed(ConvertError::NonZeroExit), VideoActionView::Finish(None))
        },
    }
}

impl VideoJob {
    /// A job that strips the metadata of the video at `filepath`, and its
    /// first action: checking that the file exists.
    pub fn new(filepath: &str) -> (r: (VideoJob, VideoAction))
        ensures
            r.0@ == video_start(filepath@),
            r.1@ == VideoActionView::CheckExists(filepath@),
    {
        let job = VideoJob {
            input: String::from_str(filepath),
            output: String::new(),
            phase: VideoPhase::AwaitExists,
            failure: None,
        };
        (job, VideoAction::CheckExists(String::from_str(filepath)))
    }

    /// Where the job stands.
    pub fn phase(&self) -> (p: VideoPhase)
        ensures
            p == self@.phase,
    {
        self.phase
    }

    /// Why the conversion failed, once it has.
    pub fn failure(&self) -> (f: &Option<ConvertError>)
        ensures
            *f == self@.failure,
    {
        &self.failure
    }

    /// Whether the job expects `event` now.
    pub fn accepts(&self, event: &VideoEvent) -> (b: bool)
        ensures
            b == video_accepts(self@.phase, *event),
    {
        match (self.phase, event) {
            (VideoPhase::AwaitExists, VideoEvent::Exists(_)) => true,
            (VideoPhase::AwaitDirectory, VideoEvent::DirectoryCreated) => true,
            (VideoPhase::AwaitDirectory, VideoEvent::DirectoryFailed(_)) => true,
            (VideoPhase::AwaitFfmpeg, VideoEvent::FfmpegFailed(_)) => true,
            (VideoPhase::AwaitFfmpeg, VideoEvent::FfmpegFinished(_)) => true,
            _ => false,
        }
    }
}

/// Advances `job` by `event` and returns its next action (see `video_step`):
/// the decisions of stripping a video's metadata with `ffmpeg`.
pub fn remove_video_metadata(job: &mut VideoJob, event: VideoEvent) -> (action: VideoAction)
    requires
        video_accepts(old(job)@.phase, event),
    ensures
        (final(job)@, action@) == video_step(old(job)@, event),
{
    match event {
        VideoEvent::Exists(exists) => {
            if !exists {
                job.phase = VideoPhase::Finished;
                return VideoAction::Finish(None);
            }
            match convert_output_path(job.input.as_str()) {
                Ok(out) => {
                    job.output = out;
                    job.phase = VideoPhase::AwaitDirectory;
                    VideoAction::CreateDirectory(String::from_str("/tmp/processed/"))
                },
                Err(e) => {
                    job.phase = VideoPhase::Finished;
                    job.failure = Some(e);
                    VideoAction::Finish(None)
                },
            }
        },
        VideoEvent::DirectoryFailed(text) => {
            job.phase = VideoPhase::Finished;
            job.failure = Some(ConvertError::Io(text));
            VideoAction::Finish(None)
        },
        VideoEvent::DirectoryCreated => {
            job.phase = VideoPhase::AwaitFfmpeg;
            VideoAction::RunFfmpeg(ffmpeg_arguments(job.input.as_str(), job.output.as_str()))
        },
        VideoEvent::FfmpegFailed(text) => {
            job.phase = VideoPhase::Finished;
            job.failure = Some(ConvertError::Io(text));
            VideoAction::Finish(None)
        },
        VideoEvent::FfmpegFinished(code) => {
            job.phase = VideoPhase::Finished;
            let output = job.output.clone();
            match ffmpeg_outcome(output, code) {
                Ok(out) => VideoAction::Finish(Some(out)),
                Err(e) => {
                    job.failure = Some(e);
                    VideoAction::Finish(None)
                },
            }
        },
    }
}


/// A job that ends without a copy records why, unless the file was missing;
/// a job that ends with a copy records no failure.
pub proof fn lemma_video_failure_recorded(s: VideoJobState, e: VideoEvent)
    requires
        video_accepts(s.phase, e),
        s.failure is None,
    ensures
        video_step(s, e).1 == VideoActionView::Finish(None) && e != VideoEvent::Exists(false)
            ==> video_step(s, e).0.failure is Some,
        video_step(s, e).1 is Finish && video_step(s, e).1->Finish_0 is Some ==> video_step(s, e).0.failure is None,
        e == VideoEvent::Exists(false) ==> video_step(s, e).0.failure is None,
{
}

/// The state reached and the actions asked for when a job takes `events` in turn.
pub open spec fn video_run(s: VideoJobState, events: Seq<VideoEvent>) -> (VideoJobState, Seq<VideoActionView>)
    decreases events.len(),
{
    if events.len() == 0 {
        (s, Seq::empty())
    } else {
        let (s1, a) = video_step(s, events[0]);
        let (s2, rest) = video_run(s1, events.drop_first());
        (s2, seq![a] + rest)
    }
}

/// Whether a job expects each of `events` in turn.
pub open spec fn video_events_accepted(s: VideoJobState, events: Seq<VideoEvent>) -> bool
    decreases events.len(),
{
    events.len() == 0 || (video_accepts(s.phase, events[0]) && video_events_accepted(
        video_step(s, events[0]).0,
        events.drop_first(),
    ))
}

/// A finished job expects nothing more.
proof fn lemma_video_finished_run(s: VideoJobState, events: Seq<VideoEvent>)
    requires
        s.phase == VideoPhase::Finished,
        video_events_accepted(s, events),
    ensures
        events.len() == 0,
{
}

/// A video job hands back a stripped copy exactly when the file exists, has
/// a file name, `/tmp/processed/` could be created and `ffmpeg` exited with 0;
/// the copy is then `/tmp/processed/{file name}`. Any other run that the job
/// accepts ends without a copy.
pub proof fn lemma_video_success_exactly(input: Seq<char>, events: Seq<VideoEvent>)
    requires
        video_events_accepted(video_start(input), events),
        events.len() > 0,
    ensures
        (video_run(video_start(input), events).1.last() is Finish
            && video_run(video_start(input), events).1.last()->Finish_0 is Some)
            <==> (events == seq![
            VideoEvent::Exists(true),
            VideoEvent::DirectoryCreated,
            VideoEvent::FfmpegFinished(Some(0i32)),
        ] && file_name_of(input) is Some),
        video_run(video_start(input), events).1.last() == VideoActionView::Finish(Some(processed_dir() + file_name_of(input)->0))
            <== (events == seq![
            VideoEvent::Exists(true),
            VideoEvent::DirectoryCreated,
            VideoEvent::FfmpegFinished(Some(0i32)),
        ] && file_name_of(input) is Some),
{
    let s0 = video_start(input);
    let e0 = events[0];
    let (s1, a0) = video_step(s0, e0);
    let rest1 = events.drop_first();
    assert(video_events_accepted(s1, rest1));
    let good = seq![
        VideoEvent::Exists(true),
        VideoEvent::DirectoryCreated,
        VideoEvent::FfmpegFinished(Some(0i32)),
    ];
    if rest1.len() == 0 {
        assert(video_run(s1, rest1).1 =~= Seq::<VideoActionView>::empty());
        assert(video_run(s0, events).1 =~= seq![a0]);
        assert(events != good);
        return;
    }
    assert(s1.phase != VideoPhase::Finished) by {
        if s1.phase == VideoPhase::Finished {
            lemma_video_finished_run(s1, rest1);
        }
    }
    assert(e0 == VideoEvent::Exists(true));
    assert(file_name_of(input) is Some);
    let e1 = rest1[0];
    let (s2, a1) = video_step(s1, e1);
    let rest2 = rest1.drop_first();
    assert(video_accepts(s1.phase, e1));
    assert(video_events_accepted(s2, rest2));
    if rest2.len() == 0 {
        assert(video_run(s2, rest2).1 =~= Seq::<VideoActionView>::empty());
        assert(video_run(s1, rest1).1 =~= seq![a1]);
        assert(video_run(s0, events).1 =~= seq![a0, a1]);
        assert(events.len() == 2);
        assert(events != good);
        return;
    }
    assert(s2.phase != VideoPhase::Finished) by {
        if s2.phase == VideoPhase::Finished {
            lemma_video_finished_run(s2, rest2);
        }
    }
    assert(e1 == VideoEvent::DirectoryCreated);
    let e2 = rest2[0];
    let (s3, a2) = video_step(s2, e2);
    let rest3 = rest2.drop_first();
    assert(video_accepts(s2.phase, e2));
    assert(video_events_accepted(s3, rest3));
    assert(s3.phase == VideoPhase::Finished);
    lemma_video_finished_run(s3, rest3);
    assert(video_run(s3, rest3).1 =~= Seq::<VideoActionView>::empty());
    assert(video_run(s2, rest2).1 =~= seq![a2]);
    assert(video_run(s1, rest1).1 =~= seq![a1, a2]);
    assert(video_run(s0, events).1 =~= seq![a0, a1, a2]);
    assert(events.len() == 3);
    if e2 == VideoEvent::FfmpegFinished(Some(0i32)) {
        assert(events =~= good);
    } else {
        assert(events != good) by {
            assert(events[2] != good[2]);
        }
    }
}


/// Once `/tmp/processed/` exists, the job runs `ffmpeg` on its own input,
/// overwriting its planned output, copying the audio and video streams and
/// dropping all metadata (`-map_metadata -1`); its input and output stay.
pub proof fn lemma_video_runs_stripping_ffmpeg(s: VideoJobState)
    requires
        s.phase == VideoPhase::AwaitDirectory,
    ensures
        video_step(s, VideoEvent::DirectoryCreated).1 == VideoActionView::RunFfmpeg(
            seq![
                "-y"@, "-i"@, s.input, "-map_metadata"@, "-1"@, "-c:v"@, "copy"@, "-c:a"@, "copy"@,
                s.output,
            ],
        ),
        video_step(s, VideoEvent::DirectoryCreated).0.input == s.input,
        video_step(s, VideoEvent::DirectoryCreated).0.output == s.output,
{
}

/// For a video at a path whose file name is `name`, the job, once the file
/// exists and `/tmp/processed/` was made, runs `ffmpeg` from that path into
/// `/tmp/processed/{name}` with all metadata dropped.
pub proof fn lemma_video_conversion_plan(input: Seq<char>, name: Seq<char>)
    requires
        file_name_of(input) == Some(name),
    ensures
        video_run(video_start(input), seq![VideoEvent::Exists(true), VideoEvent::DirectoryCreated]).1
            == seq![
            VideoActionView::CreateDirectory("/tmp/processed/"@),
            VideoActionView::RunFfmpeg(
                seq![
                    "-y"@, "-i"@, input, "-map_metadata"@, "-1"@, "-c:v"@, "copy"@, "-c:a"@, "copy"@,
                    "/tmp/processed/"@ + name,
                ],
            ),
        ],
{
    let events = seq![VideoEvent::Exists(true), VideoEvent::DirectoryCreated];
    let s0 = video_start(input);
    let (s1, a0) = video_step(s0, events[0]);
    let (s2, a1) = video_step(s1, events[1]);
    lemma_video_runs_stripping_ffmpeg(s1);
    let rest1 = events.drop_first();
    let rest2 = rest1.drop_first();
    assert(rest1[0] == VideoEvent::DirectoryCreated);
    assert(rest2.len() == 0);
    assert(video_run(s2, rest2).1 =~= Seq::<VideoActionView>::empty());
    assert(video_run(s1, rest1).1 =~= seq![a1]);
    assert(video_run(s0, events).1 =~= seq![a0, a1]);
}

} // verus!

//! Stripping the EXIF metadata of an image. The job is a state machine: the
//! caller loads the image's metadata, asks whether the format supports EXIF,
//! clears the EXIF data and saves it back, and reports each outcome.

use vstd::prelude::*;

verus! {

/// Why the EXIF data of a file could not be stripped.
#[derive(Debug, Clone, PartialEq, Eq)]
pub enum ExifError {
    /// The file's format does not carry EXIF data.
    ExifUnsupported,
    /// The file's metadata could not be read; the reader's error text.
    LoadFailed(String),
    /// The cleared metadata could not be written back; the writer's error text.
    SaveFailed(String),
}

/// The message that reports an EXIF error.
pub open spec fn exif_error_message(e: ExifError) -> Seq<char> {
    match e {
        ExifError::ExifUnsupported => "Exif is unsupported on this filetype"@,
        ExifError::LoadFailed(text) => text@,
        ExifError::SaveFailed(text) => text@,
    }
}

impl ExifError {
    /// The message that reports this error (see `exif_error_message`).
    pub fn message(&self) -> (m: &str)
        ensures
            m@ == exif_error_message(*self),
    {
        match self {
            ExifError::ExifUnsupported => "Exif is unsupported on this filetype",
            ExifError::LoadFailed(text) => text.as_str(),
            ExifError::SaveFailed(text) => text.as_str(),
        }
    }
}

/// What the caller reports back to an EXIF job.
#[derive(Debug, Clone, PartialEq, Eq)]
pub enum ExifEvent {
    /// Whether the file exists.
    Exists(bool),
    /// The file's metadata was read.
    Loaded,
    /// The file's metadata could not be read; the reader's error text.
    LoadFailed(String),
    /// Whether the file's format supports EXIF.
    SupportChecked(bool),
    /// The cleared metadata was written back to the file.
    Saved,
    /// The cleared metadata could not be written back; the writer's error text.
    SaveFailed(String),
}

/// What an EXIF job asks the caller to do next.
pub enum ExifAction {
    /// Check whether this file exists.
    CheckExists(String),
    /// Read the metadata of this file.
    Load(String),
    /// Ask whether the loaded metadata's format supports EXIF.
    CheckSupport,
    /// Clear the EXIF data of the loaded metadata and write it back to this file.
    ClearAndSave(String),
    /// The job cannot go on: the metadata could not be read where reading it
    /// was required; the reader's error text.
    Abort(String),
    /// The job is done: the stripped file, or why it could not be stripped.
    Finish(Result<String, ExifError>),
}

/// `ExifAction` over character sequences.
pub enum ExifActionView {
    CheckExists(Seq<char>),
    Load(Seq<char>),
    CheckSupport,
    ClearAndSave(Seq<char>),
    Abort(Seq<char>),
    Finish(Result<Seq<char>, ExifError>),
}

impl View for ExifAction {
    type V = ExifActionView;

    open spec fn view(&self) -> ExifActionView {
        match self {
            ExifAction::CheckExists(p) => ExifActionView::CheckExists(p@),
            ExifAction::Load(p) => ExifActionView::Load(p@),
            ExifAction::CheckSupport => ExifActionView::CheckSupport,
            ExifAction::ClearAndSave(p) => ExifActionView::ClearAndSave(p@),
            ExifAction::Abort(text) => ExifActionView::Abort(text@),
            ExifAction::Finish(Ok(p)) => ExifActionView::Finish(Ok(p@)),
            ExifAction::Finish(Err(e)) => ExifActionView::Finish(Err(*e)),
        }
    }
}

/// Where an EXIF job stands.
#[derive(Debug, Clone, Copy, PartialEq, Eq, Structural)]
pub enum ExifPhase {
    AwaitExists,
    AwaitLoad,
    AwaitSupport,
    AwaitSave,
    Finished,
}

/// The state of an EXIF job: the file and the phase.
pub struct ExifJobState {
    pub path: Seq<char>,
    pub phase: ExifPhase,
}

/// The EXIF stripping of one image file.
pub struct ImageJob {
    path: String,
    phase: ExifPhase,
}

impl View for ImageJob {
    type V = ExifJobState;

    closed spec fn view(&self) -> ExifJobState {
        ExifJobState { path: self.path@, phase: self.phase }
    }
}

/// Whether an image job in `phase` expects `event`.
pub open spec fn image_accepts(phase: ExifPhase, event: ExifEvent) -> bool {
    match (phase, event) {
        (ExifPhase::AwaitLoad, ExifEvent::Loaded) => true,
        (ExifPhase::AwaitLoad, ExifEvent::LoadFailed(_)) => true,
        (ExifPhase::AwaitSupport, ExifEvent::SupportChecked(_)) => true,
        (ExifPhase::AwaitSave, ExifEvent::Saved) => true,
        (ExifPhase::AwaitSave, ExifEvent::SaveFailed(_)) => true,
        _ => false,
    }
}

/// One step of an image job: unreadable metadata, a format without EXIF or a
/// failed save ends the job with that error; a successful save ends it with
/// the file's own path.
pub open spec fn image_step(s: ExifJobState, e: ExifEvent) -> (ExifJobState, ExifActionView) {
    let done = ExifJobState { phase: ExifPhase::Finished, ..s };
    match e {
        ExifEvent::LoadFailed(text) => (done, ExifActionView::Finish(Err(ExifError::LoadFailed(text)))),
        ExifEvent::Loaded => (
            ExifJobState { phase: ExifPhase::AwaitSupport, ..s },
            ExifActionView::CheckSupport,
        ),
        ExifEvent::SupportChecked(false) => (done, ExifActionView::Finish(Err(ExifError::ExifUnsupported))),
        ExifEvent::SupportChecked(true) => (
            ExifJobState { phase: ExifPhase::AwaitSave, ..s },
            ExifActionView::ClearAndSave(s.path),
        ),
        ExifEvent::SaveFailed(text) => (done, ExifActionView::Finish(Err(ExifError::SaveFailed(text)))),
        ExifEvent::Saved => (done, ExifActionView::Finish(Ok(s.path))),
        ExifEvent::Exists(_) => (s, ExifActionView::Abort(Seq::empty())),
    }
}

impl ImageJob {
    /// Where the job stands.
    pub fn phase(&self) -> (p: ExifPhase)
        ensures
            p == self@.phase,
    {
        self.phase
    }

    /// Whether the job expects `event` now.
    pub fn accepts(&self, event: &ExifEvent) -> (b: bool)
        ensures
            b == image_accepts(self@.phase, *event),
    {
        match (self.phase, event) {
            (ExifPhase::AwaitLoad, ExifEvent::Loaded) => true,
            (ExifPhase::AwaitLoad, ExifEvent::LoadFailed(_)) => true,
            (ExifPhase::AwaitSupport, ExifEvent::SupportChecked(_)) => true,
            (ExifPhase::AwaitSave, ExifEvent::Saved) => true,
            (ExifPhase::AwaitSave, ExifEvent::SaveFailed(_)) => true,
            _ => false,
        }
    }
}

/// A job that strips the EXIF data of the image at `filepath`, and its first
/// action: reading the file's metadata.
pub fn start_img_metadata_removal(filepath: &str) -> (r: (ImageJob, ExifAction))
    ensures
        r.0@ == (ExifJobState { path: filepath@, phase: ExifPhase::AwaitLoad }),
        r.1@ == ExifActionView::Load(filepath@),
{
    (
        ImageJob { path: String::from_str(filepath), phase: ExifPhase::AwaitLoad },
        ExifAction::Load(String::from_str(filepath)),
    )
}

/// Advances `job` by `event` and returns its next action (see `image_step`):
/// the decisions of stripping an image's EXIF data.
pub fn remove_img_metadata(job: &mut ImageJob, event: ExifEvent) -> (action: ExifAction)
    requires
        image_accepts(old(job)@.phase, event),
    ensures
        (final(job)@, action@) == image_step(old(job)@, event),
{
    match event {
        ExifEvent::Loaded => {
            job.phase = ExifPhase::AwaitSupport;
            ExifAction::CheckSupport
        },
        ExifEvent::LoadFailed(text) => {
            job.phase = ExifPhase::Finished;
            ExifAction::Finish(Err(ExifError::LoadFailed(text)))
        },
        ExifEvent::SupportChecked(supported) => {
            if supported {
                job.phase = ExifPhase::AwaitSave;
                ExifAction::ClearAndSave(job.path.clone())
            } else {
                job.phase = ExifPhase::Finished;
                ExifAction::Finish(Err(ExifError::ExifUnsupported))
            }
        },
        ExifEvent::Saved => {
            job.phase = ExifPhase::Finished;
            ExifAction::Finish(Ok(job.path.clone()))
        },
        ExifEvent::SaveFailed(text) => {
            job.phase = ExifPhase::Finished;
            ExifAction::Finish(Err(ExifError::SaveFailed(text)))
        },
        ExifEvent::Exists(_) => ExifAction::Abort(String::new()),
    }
}


/// The state reached and the actions asked for when an image job takes `events` in turn.
pub open spec fn image_run(s: ExifJobState, events: Seq<ExifEvent>) -> (ExifJobState, Seq<ExifActionView>)
    decreases events.len(),
{
    if events.len() == 0 {
        (s, Seq::empty())
    } else {
        let (s1, a) = image_step(s, events[0]);
        let (s2, rest) = image_run(s1, events.drop_first());
        (s2, seq![a] + rest)
    }
}

/// Whether an image job expects each of `events` in turn.
pub open spec fn image_events_accepted(s: ExifJobState, events: Seq<ExifEvent>) -> bool
    decreases events.len(),
{
    events.len() == 0 || (image_accepts(s.phase, events[0]) && image_events_accepted(
        image_step(s, events[0]).0,
        events.drop_first(),
    ))
}

/// An image file is written back only once its format is known to support
/// EXIF, and only to its own path.
pub proof fn lemma_image_writes_only_supported(s: ExifJobState, e: ExifEvent)
    requires
        image_accepts(s.phase, e),
    ensures
        image_step(s, e).1 is ClearAndSave ==> e == ExifEvent::SupportChecked(true)
            && image_step(s, e).1->ClearAndSave_0 == s.path,
{
}

/// An image job reports the stripped file exactly when the metadata was
/// read, the format supports EXIF and the save succeeded; the file reported
/// is the job's own. Any other run that the job accepts ends with an error.
pub proof fn lemma_image_success_exactly(path: Seq<char>, events: Seq<ExifEvent>)
    requires
        image_events_accepted(ExifJobState { path, phase: ExifPhase::AwaitLoad }, events),
        events.len() > 0,
    ensures
        ({
            let last = image_run(ExifJobState { path, phase: ExifPhase::AwaitLoad }, events).1.last();
            &&& (last is Finish && last->Finish_0 is Ok) <==> events == seq![
                ExifEvent::Loaded,
                ExifEvent::SupportChecked(true),
                ExifEvent::Saved,
            ]
            &&& (last is Finish && last->Finish_0 is Ok) ==> last == ExifActionView::Finish(Ok(path))
        }),
{
    let s0 = ExifJobState { path, phase: ExifPhase::AwaitLoad };
    let good = seq![ExifEvent::Loaded, ExifEvent::SupportChecked(true), ExifEvent::Saved];
    let e0 = events[0];
    let (s1, a0) = image_step(s0, e0);
    let rest1 = events.drop_first();
    assert(image_events_accepted(s1, rest1));
    if rest1.len() == 0 {
        assert(image_run(s1, rest1).1 =~= Seq::<ExifActionView>::empty());
        assert(image_run(s0, events).1 =~= seq![a0]);
        assert(events != good);
        return;
    }
    assert(image_accepts(s1.phase, rest1[0]));
    assert(e0 == ExifEvent::Loaded);
    let e1 = rest1[0];
    let (s2, a1) = image_step(s1, e1);
    let rest2 = rest1.drop_first();
    assert(image_events_accepted(s2, rest2));
    if rest2.len() == 0 {
        assert(image_run(s2, rest2).1 =~= Seq::<ExifActionView>::empty());
        assert(image_run(s1, rest1).1 =~= seq![a1]);
        assert(image_run(s0, events).1 =~= seq![a0, a1]);
        assert(events != good);
        return;
    }
    assert(image_accepts(s2.phase, rest2[0]));
    assert(e1 == ExifEvent::SupportChecked(true));
    let e2 = rest2[0];
    let (s3, a2) = image_step(s2, e2);
    let rest3 = rest2.drop_first();
    assert(image_events_accepted(s3, rest3));
    assert(s3.phase == ExifPhase::Finished);
    assert(rest3.len() == 0);
    assert(image_run(s3, rest3).1 =~= Seq::<ExifActionView>::empty());
    assert(image_run(s2, rest2).1 =~= seq![a2]);
    assert(image_run(s1, rest1).1 =~= seq![a1, a2]);
    assert(image_run(s0, events).1 =~= seq![a0, a1, a2]);
    if e2 == ExifEvent::Saved {
        assert(events =~= good);
    } else {
        assert(events[2] != good[2]);
    }
}

} // verus!

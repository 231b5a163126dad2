//! The decisions of the server program: where an upload is stored, the
//! links of a reply (normalised as URLs), and the in-place EXIF stripping of
//! a file.

use vstd::prelude::*;
use crate::exif_image::{ExifAction, ExifActionView, ExifError, ExifEvent, ExifJobState, ExifPhase};
use crate::handler::public_path_of;
use crate::io::{
    extension_of_path, get_filename_extension, public_filename, public_filename_of,
    unix_time_seconds, IoError,
};
use crate::text::{concat_str, joined_lines, lines_text, opt_chars, strings_chars};

verus! {

/// Where an upload is stored: its public name and the file it is written to.
pub struct StoredUpload {
    pub public_filename: String,
    pub filepath: String,
}

/// Where the `iteration`-th upload of a request, named `filename`, is stored
/// in `dir` at the clock reading `now_secs`; `None` when the name has no
/// extension.
pub fn plan_stored_upload_at(dir: &str, filename: &str, iteration: usize, now_secs: u64) -> (r: Option<StoredUpload>)
    ensures
        match extension_of_path(filename@) {
            None => r is None,
            Some(e) => r matches Some(u) && {
                let name = public_filename_of(now_secs as nat, iteration as nat, e);
                &&& u.public_filename@ == name
                &&& u.filepath@ == public_path_of(dir@, name)
            },
        },
{
    match get_filename_extension(filename) {
        None => None,
        Some(extension) => {
            let name = public_filename(now_secs, iteration, extension.as_str());
            let mut filepath = concat_str(dir, "/");
            filepath.append(name.as_str());
            Some(StoredUpload { public_filename: name, filepath })
        },
    }
}

/// Where the `iteration`-th upload of a request is stored, stamped with the
/// current time (see `plan_stored_upload_at`).
pub fn plan_stored_upload(dir: &str, filename: &str, iteration: usize) -> (r: Result<StoredUpload, IoError>)
    ensures
        match extension_of_path(filename@) {
            None => r == Err::<StoredUpload, IoError>(IoError::CouldNotGetFileNameExtension),
            Some(e) => r == Err::<StoredUpload, IoError>(IoError::ClockBeforeEpoch) || exists|t: u64|
                r matches Ok(u) && {
                    let name = #[trigger] public_filename_of(t as nat, iteration as nat, e);
                    &&& u.public_filename@ == name
                    &&& u.filepath@ == public_path_of(dir@, name)
                },
        },
{
    if get_filename_extension(filename).is_none() {
        return Err(IoError::CouldNotGetFileNameExtension);
    }
    match unix_time_seconds() {
        None => Err(IoError::ClockBeforeEpoch),
        Some(t) => match plan_stored_upload_at(dir, filename, iteration, t) {
            Some(u) => Ok(u),
            None => Err(IoError::CouldNotGetFileNameExtension),
        },
    }
}

/// The file that an upload named `filename` is copied to under `pub_path`:
/// the two joined as they are.
pub fn copy_to_public_path(pub_path: &str, filename: &str) -> (r: String)
    ensures
        r@ == pub_path@ + filename@,
{
    concat_str(pub_path, filename)
}

/// The serialization of the URL that `url::Url::parse` reads from `input`,
/// or `None` when `input` is not a valid absolute URL.
pub uninterp spec fn url_serialization(input: Seq<char>) -> Option<Seq<char>>;

/// Calls `url::Url::parse` and keeps the serialization of the parsed URL;
/// a parse error becomes `None`. The result is named by `url_serialization`,
/// a function of the input alone; nothing else is stated of it.
#[verifier::external_body]
fn parse_url(input: &str) -> (r: Option<String>)
    ensures
        opt_chars(r) == url_serialization(input@),
{
    match url::Url::parse(input) {
        Ok(u) => Some(String::from(u)),
        Err(_) => None,
    }
}

/// The reply listing the uploads: for each public name, the URL made of
/// `url` and the name, normalised, on a line of its own; `None` when one of
/// them is not a valid URL.
pub open spec fn published_links_of(url: Seq<char>, names: Seq<Seq<char>>) -> Option<Seq<char>> {
    if forall|i: int| 0 <= i < names.len() ==> #[trigger] url_serialization(url + names[i]) is Some {
        Some(lines_text(Seq::new(names.len(), |i: int| url_serialization(url + names[i])->0)))
    } else {
        None
    }
}

/// Lists the uploads as normalised URLs (see `published_links_of`).
pub fn published_links(url: &str, filenames: &Vec<String>) -> (r: Option<String>)
    ensures
        opt_chars(r) == published_links_of(url@, strings_chars(filenames@)),
{
    let n = filenames.len();
    let ghost names = strings_chars(filenames@);
    let mut lines: Vec<String> = Vec::new();
    let mut i: usize = 0;
    while i < n
        invariant
            n == filenames@.len(),
            names == strings_chars(filenames@),
            i <= n,
            lines@.len() == i,
            forall|j: int| 0 <= j < i ==> #[trigger] url_serialization(url@ + names[j]) is Some,
            forall|j: int| 0 <= j < i ==> #[trigger] lines@[j]@ == url_serialization(url@ + names[j])->0,
        decreases n - i,
    {
        let candidate = concat_str(url, filenames[i].as_str());
        assert(candidate@ == url@ + names[i as int]);
        match parse_url(candidate.as_str()) {
            Some(link) => {
                lines.push(link);
            },
            None => {
                assert(!(url_serialization(url@ + names[i as int]) is Some));
                return None;
            },
        }
        i = i + 1;
    }
    assert(strings_chars(lines@) =~= Seq::new(names.len(), |i: int| url_serialization(url@ + names[i])->0));
    Some(joined_lines(&lines))
}

/// The in-place EXIF stripping of one file, as the server program does it.
pub struct MetadataJob {
    path: String,
    phase: ExifPhase,
}

impl View for MetadataJob {
    type V = ExifJobState;

    closed spec fn view(&self) -> ExifJobState {
        ExifJobState { path: self.path@, phase: self.phase }
    }
}

/// Whether a server-side EXIF job in `phase` expects `event`.
pub open spec fn metadata_accepts(phase: ExifPhase, event: ExifEvent) -> bool {
    match (phase, event) {
        (ExifPhase::AwaitExists, ExifEvent::Exists(_)) => true,
        (ExifPhase::AwaitLoad, ExifEvent::Loaded) => true,
        (ExifPhase::AwaitLoad, ExifEvent::LoadFailed(_)) => true,
        (ExifPhase::AwaitSave, ExifEvent::Saved) => true,
        (ExifPhase::AwaitSave, ExifEvent::SaveFailed(_)) => true,
        _ => false,
    }
}

/// One step of a server-side EXIF job: whether the file exists is only
/// reported, unreadable metadata aborts the job, the EXIF data is cleared
/// without asking whether the format supports it, and a failed save ends the
/// job with `SaveFailed`.
pub open spec fn metadata_step(s: ExifJobState, e: ExifEvent) -> (ExifJobState, ExifActionView) {
    let done = ExifJobState { phase: ExifPhase::Finished, ..s };
    match e {
        ExifEvent::Exists(_) => (ExifJobState { phase: ExifPhase::AwaitLoad, ..s }, ExifActionView::Load(s.path)),
        ExifEvent::LoadFailed(text) => (done, ExifActionView::Abort(text@)),
        ExifEvent::Loaded => (
            ExifJobState { phase: ExifPhase::AwaitSave, ..s },
            ExifActionView::ClearAndSave(s.path),
        ),
        ExifEvent::SaveFailed(text) => (done, ExifActionView::Finish(Err(ExifError::SaveFailed(text)))),
        ExifEvent::Saved => (done, ExifActionView::Finish(Ok(s.path))),
        ExifEvent::SupportChecked(_) => (s, ExifActionView::Abort(Seq::empty())),
    }
}

impl MetadataJob {
    /// A job that clears the EXIF data of the file at `filepath` in place,
    /// and its first action: checking whether the file exists.
    pub fn new(filepath: &str) -> (r: (MetadataJob, ExifAction))
        ensures
            r.0@ == (ExifJobState { path: filepath@, phase: ExifPhase::AwaitExists }),
            r.1@ == ExifActionView::CheckExists(filepath@),
    {
        (
            MetadataJob { path: String::from_str(filepath), phase: ExifPhase::AwaitExists },
            ExifAction::CheckExists(String::from_str(filepath)),
        )
    }

    /// Where the job stands.
    pub fn phase(&self) -> (p: ExifPhase)
        ensures
            p == self@.phase,
    {
        self.phase
    }

    /// Whether the job expects `event` now.
    pub fn accepts(&self, event: &ExifEvent) -> (b: bool)
        ensures
            b == metadata_accepts(self@.phase, *event),
    {
        match (self.phase, event) {
            (ExifPhase::AwaitExists, ExifEvent::Exists(_)) => true,
            (ExifPhase::AwaitLoad, ExifEvent::Loaded) => true,
            (ExifPhase::AwaitLoad, ExifEvent::LoadFailed(_)) => true,
            (ExifPhase::AwaitSave, ExifEvent::Saved) => true,
            (ExifPhase::AwaitSave, ExifEvent::SaveFailed(_)) => true,
            _ => false,
        }
    }
}

/// Advances `job` by `event` and returns its next action (see `metadata_step`).
pub fn remove_metadata(job: &mut MetadataJob, event: ExifEvent) -> (action: ExifAction)
    requires
        metadata_accepts(old(job)@.phase, event),
    ensures
        (final(job)@, action@) == metadata_step(old(job)@, event),
{
    match event {
        ExifEvent::Exists(_) => {
            job.phase = ExifPhase::AwaitLoad;
            ExifAction::Load(job.path.clone())
        },
        ExifEvent::Loaded => {
            job.phase = ExifPhase::AwaitSave;
            ExifAction::ClearAndSave(job.path.clone())
        },
        ExifEvent::LoadFailed(text) => {
            job.phase = ExifPhase::Finished;
            ExifAction::Abort(text)
        },
        ExifEvent::Saved => {
            job.phase = ExifPhase::Finished;
            ExifAction::Finish(Ok(job.path.clone()))
        },
        ExifEvent::SaveFailed(text) => {
            job.phase = ExifPhase::Finished;
            ExifAction::Finish(Err(ExifError::SaveFailed(text)))
        },
        ExifEvent::SupportChecked(_) => ExifAction::Abort(String::new()),
    }
}


/// The state reached and the actions asked for when a server-side EXIF job takes `events` in turn.
pub open spec fn metadata_run(s: ExifJobState, events: Seq<ExifEvent>) -> (ExifJobState, Seq<ExifActionView>)
    decreases events.len(),
{
    if events.len() == 0 {
        (s, Seq::empty())
    } else {
        let (s1, a) = metadata_step(s, events[0]);
        let (s2, rest) = metadata_run(s1, events.drop_first());
        (s2, seq![a] + rest)
    }
}

/// Whether a server-side EXIF job expects each of `events` in turn.
pub open spec fn metadata_events_accepted(s: ExifJobState, events: Seq<ExifEvent>) -> bool
    decreases events.len(),
{
    events.len() == 0 || (metadata_accepts(s.phase, events[0]) && metadata_events_accepted(
        metadata_step(s, events[0]).0,
        events.drop_first(),
    ))
}

/// A server-side EXIF job reports the stripped file exactly when the
/// metadata was read and saved back, whether or not the file was first found
/// to exist; the file reported is the job's own. It aborts exactly when the
/// metadata cannot be read.
pub proof fn lemma_metadata_success_exactly(path: Seq<char>, events: Seq<ExifEvent>)
    requires
        metadata_events_accepted(ExifJobState { path, phase: ExifPhase::AwaitExists }, events),
        events.len() > 0,
    ensures
        ({
            let last = metadata_run(ExifJobState { path, phase: ExifPhase::AwaitExists }, events).1.last();
            &&& (last is Finish && last->Finish_0 is Ok) <==> (events.len() == 3 && events[0] is Exists
                && events[1] == ExifEvent::Loaded && events[2] == ExifEvent::Saved)
            &&& (last is Finish && last->Finish_0 is Ok) ==> last == ExifActionView::Finish(Ok(path))
            &&& last is Abort <==> (events.len() == 2 && events[1] is LoadFailed)
        }),
{
    let s0 = ExifJobState { path, phase: ExifPhase::AwaitExists };
    let e0 = events[0];
    let (s1, a0) = metadata_step(s0, e0);
    let rest1 = events.drop_first();
    assert(metadata_events_accepted(s1, rest1));
    if rest1.len() == 0 {
        assert(metadata_run(s1, rest1).1 =~= Seq::<ExifActionView>::empty());
        assert(metadata_run(s0, events).1 =~= seq![a0]);
        return;
    }
    assert(metadata_accepts(s1.phase, rest1[0]));
    let e1 = rest1[0];
    let (s2, a1) = metadata_step(s1, e1);
    let rest2 = rest1.drop_first();
    assert(metadata_events_accepted(s2, rest2));
    if rest2.len() == 0 {
        assert(metadata_run(s2, rest2).1 =~= Seq::<ExifActionView>::empty());
        assert(metadata_run(s1, rest1).1 =~= seq![a1]);
        assert(metadata_run(s0, events).1 =~= seq![a0, a1]);
        assert(events[1] == e1);
        return;
    }
    assert(metadata_accepts(s2.phase, rest2[0]));
    let e2 = rest2[0];
    let (s3, a2) = metadata_step(s2, e2);
    let rest3 = rest2.drop_first();
    assert(metadata_events_accepted(s3, rest3));
    assert(rest3.len() == 0);
    assert(metadata_run(s3, rest3).1 =~= Seq::<ExifActionView>::empty());
    assert(metadata_run(s2, rest2).1 =~= seq![a2]);
    assert(metadata_run(s1, rest1).1 =~= seq![a1, a2]);
    assert(metadata_run(s0, events).1 =~= seq![a0, a1, a2]);
    assert(events[1] == e1 && events[2] == e2);
}


/// A server-side EXIF job only ever writes the cleared metadata back to its
/// own file, and only once the metadata was read; the file it reports as
/// stripped is its own; and its file never changes.
pub proof fn lemma_metadata_writes_only_own_path(s: ExifJobState, e: ExifEvent)
    requires
        metadata_accepts(s.phase, e),
    ensures
        metadata_step(s, e).0.path == s.path,
        metadata_step(s, e).1 is ClearAndSave ==> metadata_step(s, e).1->ClearAndSave_0 == s.path
            && e == ExifEvent::Loaded,
        metadata_step(s, e).1 is Finish && metadata_step(s, e).1->Finish_0 is Ok
            ==> metadata_step(s, e).1->Finish_0->Ok_0 == s.path && e == ExifEvent::Saved,
{
}

/// Over any run that a server-side EXIF job accepts, every write goes to the
/// job's own file.
pub proof fn lemma_metadata_run_writes_own_path(s: ExifJobState, events: Seq<ExifEvent>)
    requires
        metadata_events_accepted(s, events),
    ensures
        metadata_run(s, events).0.path == s.path,
        forall|i: int|
            0 <= i < metadata_run(s, events).1.len() && (#[trigger] metadata_run(s, events).1[i]) is ClearAndSave
                ==> metadata_run(s, events).1[i]->ClearAndSave_0 == s.path,
    decreases events.len(),
{
    if events.len() > 0 {
        let (s1, a) = metadata_step(s, events[0]);
        lemma_metadata_writes_only_own_path(s, events[0]);
        lemma_metadata_run_writes_own_path(s1, events.drop_first());
        let rest = metadata_run(s1, events.drop_first()).1;
        let all = metadata_run(s, events).1;
        assert(all =~= seq![a] + rest);
        assert forall|i: int| 0 <= i < all.len() && (#[trigger] all[i]) is ClearAndSave implies all[i]->ClearAndSave_0 == s.path by {
            if i > 0 {
                assert(all[i] == rest[i - 1]);
            }
        }
    }
}

} // verus!

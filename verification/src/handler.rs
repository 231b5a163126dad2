//! The decisions of the upload endpoint. For each uploaded file the session
//! names it, says where it is buffered and published, picks how its metadata
//! is removed from its detected type, and finally lists the published links.
//! The caller receives the multipart stream, writes and copies the files and
//! detects their types.

use vstd::prelude::*;
use crate::cfg::ServerConfig;
use crate::io::{
    extension_of_path, generate_public_filename_at, lemma_public_filename_injective,
    public_filename_of, unix_time_seconds, IoError,
};
use crate::metadata::{Image, MetaData, Noop, Stripping, StrippingView, VideoFile};
use crate::text::{concat_str, contains_seq, contains_str, joined_lines, lines_text, strings_chars};

verus! {

/// Where an upload goes: its public name, the temporary file that receives
/// its bytes, and the file it is published as.
pub struct FilePlan {
    pub public_filename: String,
    pub temp_path: String,
    pub public_path: String,
}

/// The temporary file of an upload: `/tmp/{public name}`.
pub open spec fn temp_path_of(public_filename: Seq<char>) -> Seq<char> {
    "/tmp/"@ + public_filename
}

/// The published file of an upload: `{upload directory}/{public name}`.
pub open spec fn public_path_of(dir: Seq<char>, public_filename: Seq<char>) -> Seq<char> {
    dir + "/"@ + public_filename
}

/// The reply to a successful request: one line `{url}{public name}` per upload, in order.
pub open spec fn links_of(url: Seq<char>, names: Seq<Seq<char>>) -> Seq<char> {
    lines_text(Seq::new(names.len(), |i: int| url + names[i]))
}

/// How the metadata of an upload is handled, by its detected type.
#[derive(Debug, Clone, Copy, PartialEq, Eq, Structural)]
pub enum MetadataKind {
    Image,
    Video,
    Noop,
}

/// The handling for a detected MIME type: images and videos (by a MIME type
/// containing `image`, then `video`) have their metadata stripped, any other
/// detected type is kept as it is, and an undetected type cannot be handled.
pub open spec fn metadata_kind_of(mime: Option<Seq<char>>) -> Option<MetadataKind> {
    match mime {
        None => None,
        Some(m) => if contains_seq(m, "image"@) {
            Some(MetadataKind::Image)
        } else if contains_seq(m, "video"@) {
            Some(MetadataKind::Video)
        } else {
            Some(MetadataKind::Noop)
        },
    }
}

/// The character sequence of an optional string slice.
pub open spec fn opt_str_chars(o: Option<&str>) -> Option<Seq<char>> {
    match o {
        Some(s) => Some(s@),
        None => None,
    }
}

/// Picks the metadata handling for a detected MIME type (see `metadata_kind_of`).
pub fn choose_metadata_kind(mime: Option<&str>) -> (r: Option<MetadataKind>)
    ensures
        r == metadata_kind_of(opt_str_chars(mime)),
{
    match mime {
        None => None,
        Some(m) => {
            if contains_str(m, "image") {
                Some(MetadataKind::Image)
            } else if contains_str(m, "video") {
                Some(MetadataKind::Video)
            } else {
                Some(MetadataKind::Noop)
            }
        },
    }
}

/// How the metadata of the file at `path` is removed for a handling kind.
pub fn stripping_for(kind: MetadataKind, path: &str) -> (r: Stripping)
    ensures
        r@ == (match kind {
            MetadataKind::Noop => StrippingView::Keep(path@),
            _ => StrippingView::StripExif(path@),
        }),
{
    match kind {
        MetadataKind::Image => Image { path }.remove_metadata(),
        MetadataKind::Video => VideoFile { path }.remove_metadata(),
        MetadataKind::Noop => Noop { path }.remove_metadata(),
    }
}

/// The error reply when the metadata of an upload could not be stripped.
pub fn strip_failure_message(user_filename: &str) -> (r: String)
    ensures
        r@ == "Something went wrong while stripping the metadata of "@ + user_filename@,
{
    concat_str("Something went wrong while stripping the metadata of ", user_filename)
}

/// The error reply when the type of an upload cannot be handled.
pub fn unsupported_type_message(user_filename: &str) -> (r: String)
    ensures
        r@ == "Sorry, I cannot handle this sort of file "@ + user_filename@,
{
    concat_str("Sorry, I cannot handle this sort of file ", user_filename)
}

/// Whether `name` is the public name of the upload at `position`, at some
/// clock reading and with some extension.
pub open spec fn is_public_name_at(name: Seq<char>, position: nat) -> bool {
    exists|t: nat, x: Seq<char>| name == #[trigger] public_filename_of(t, position, x)
}

/// Every name is the public name of the upload at its position.
pub open spec fn names_are_public(names: Seq<Seq<char>>) -> bool {
    forall|j: int| 0 <= j < names.len() ==> is_public_name_at(#[trigger] names[j], j as nat)
}

/// Naming the next upload keeps every name the public name of its position.
proof fn lemma_names_push(names: Seq<Seq<char>>, t: nat, x: Seq<char>)
    requires
        names_are_public(names),
    ensures
        names_are_public(names.push(public_filename_of(t, names.len(), x))),
{
    let all = names.push(public_filename_of(t, names.len(), x));
    assert(is_public_name_at(all[names.len() as int], names.len()));
    assert forall|j: int| 0 <= j < all.len() implies is_public_name_at(#[trigger] all[j], j as nat) by {
        if j < names.len() {
            assert(all[j] == names[j]);
        }
    }
}

/// What becomes of one upload: the stripped file to publish, or the error
/// reply that ends the request. An upload of a type that cannot be handled is
/// refused; one whose metadata could not be stripped (`stripped` is `None`)
/// fails; otherwise the stripped file is published.
pub fn file_outcome(kind: Option<MetadataKind>, stripped: Option<&str>, user_filename: &str) -> (r: Result<String, String>)
    ensures
        kind is None ==> (r matches Err(m) && m@ == "Sorry, I cannot handle this sort of file "@ + user_filename@),
        kind is Some && stripped is None ==> (r matches Err(m)
            && m@ == "Something went wrong while stripping the metadata of "@ + user_filename@),
        kind is Some && stripped is Some ==> (r matches Ok(p) && p@ == stripped->0@),
{
    match kind {
        None => Err(unsupported_type_message(user_filename)),
        Some(_) => match stripped {
            None => Err(strip_failure_message(user_filename)),
            Some(p) => Ok(String::from_str(p)),
        },
    }
}

/// The state of an upload session: the upload directory, the public URL and
/// the public names given so far.
pub struct UploadState {
    pub dir: Seq<char>,
    pub url: Seq<char>,
    pub filenames: Seq<Seq<char>>,
}

/// The uploads of one request.
pub struct UploadSession {
    config: ServerConfig,
    filenames: Vec<String>,
}

impl View for UploadSession {
    type V = UploadState;

    closed spec fn view(&self) -> UploadState {
        UploadState {
            dir: self.config.path@,
            url: self.config.url@,
            filenames: strings_chars(self.filenames@),
        }
    }
}

impl UploadSession {
    /// Every name given so far is the public name of the upload at its position.
    #[verifier::type_invariant]
    closed spec fn names_valid(&self) -> bool {
        names_are_public(strings_chars(self.filenames@))
    }

    /// A session with no uploads yet.
    pub fn new(config: ServerConfig) -> (r: UploadSession)
        ensures
            r@.dir == config.path@,
            r@.url == config.url@,
            r@.filenames == Seq::<Seq<char>>::empty(),
    {
        let r = UploadSession { config, filenames: Vec::new() };
        assert(strings_chars(r.filenames@) =~= Seq::<Seq<char>>::empty());
        r
    }

    /// Names the next upload, which is the `n`-th one when `n` uploads were
    /// named before, with the clock reading `now_secs`, and records its name.
    /// On an error nothing is recorded.
    pub fn begin_file_at(&mut self, filename: Option<&str>, now_secs: Option<u64>) -> (r: Result<FilePlan, IoError>)
        ensures
            names_are_public(final(self)@.filenames),
            final(self)@.dir == old(self)@.dir,
            final(self)@.url == old(self)@.url,
            match filename {
                None => r == Err::<FilePlan, IoError>(IoError::CouldNotExtractFilename),
                Some(f) => match extension_of_path(f@) {
                    None => r == Err::<FilePlan, IoError>(IoError::CouldNotGetFileNameExtension),
                    Some(e) => match now_secs {
                        None => r == Err::<FilePlan, IoError>(IoError::ClockBeforeEpoch),
                        Some(t) => r matches Ok(plan) && {
                            let name = public_filename_of(t as nat, old(self)@.filenames.len(), e);
                            &&& plan.public_filename@ == name
                            &&& plan.temp_path@ == temp_path_of(name)
                            &&& plan.public_path@ == public_path_of(old(self)@.dir, name)
                            &&& final(self)@.filenames == old(self)@.filenames.push(name)
                        },
                    },
                },
            },
            r is Err ==> final(self)@ == old(self)@,
    {
        proof {
            use_type_invariant(&*self);
        }
        let iteration = self.filenames.len();
        let public_filename = match generate_public_filename_at(filename, iteration, now_secs) {
            Ok(p) => p,
            Err(e) => {
                return Err(e);
            },
        };
        let temp_path = concat_str("/tmp/", public_filename.as_str());
        let mut public_path = concat_str(self.config.path.as_str(), "/");
        public_path.append(public_filename.as_str());
        let mut names: Vec<String> = Vec::new();
        std::mem::swap(&mut names, &mut self.filenames);
        let ghost old_names = names@;
        names.push(public_filename.clone());
        proof {
            assert(strings_chars(names@) =~= strings_chars(old_names).push(public_filename@));
            lemma_names_push(
                strings_chars(old_names),
                now_secs->0 as nat,
                extension_of_path(filename->0@)->0,
            );
        }
        self.filenames = names;
        Ok(FilePlan { public_filename, temp_path, public_path })
    }

    /// Names the next upload with the current time (see `begin_file_at`).
    pub fn begin_file(&mut self, filename: Option<&str>) -> (r: Result<FilePlan, IoError>)
        ensures
            names_are_public(final(self)@.filenames),
            final(self)@.dir == old(self)@.dir,
            final(self)@.url == old(self)@.url,
            match filename {
                None => r == Err::<FilePlan, IoError>(IoError::CouldNotExtractFilename),
                Some(f) => match extension_of_path(f@) {
                    None => r == Err::<FilePlan, IoError>(IoError::CouldNotGetFileNameExtension),
                    Some(e) => r == Err::<FilePlan, IoError>(IoError::ClockBeforeEpoch) || exists|t: u64|
                        r matches Ok(plan) && {
                            let name = #[trigger] public_filename_of(t as nat, old(self)@.filenames.len(), e);
                            &&& plan.public_filename@ == name
                            &&& plan.temp_path@ == temp_path_of(name)
                            &&& plan.public_path@ == public_path_of(old(self)@.dir, name)
                            &&& final(self)@.filenames == old(self)@.filenames.push(name)
                        },
                },
            },
            r is Err ==> final(self)@ == old(self)@,
    {
        let now = unix_time_seconds();
        self.begin_file_at(filename, now)
    }

    /// The number of uploads named so far.
    pub fn file_count(&self) -> (n: usize)
        ensures
            n == self@.filenames.len(),
    {
        self.filenames.len()
    }

    /// The reply listing the links of all uploads (see `links_of`).
    pub fn links(&self) -> (r: String)
        ensures
            r@ == links_of(self@.url, self@.filenames),
    {
        let mut lines: Vec<String> = Vec::new();
        let n = self.filenames.len();
        let mut i: usize = 0;
        while i < n
            invariant
                n == self.filenames@.len(),
                i <= n,
                lines@.len() == i,
                forall|j: int| 0 <= j < i ==> #[trigger] lines@[j]@ == self.config.url@ + self.filenames@[j]@,
            decreases n - i,
        {
            lines.push(concat_str(self.config.url.as_str(), self.filenames[i].as_str()));
            i = i + 1;
        }
        assert(strings_chars(lines@) =~= Seq::new(
            self@.filenames.len(),
            |i: int| self@.url + self@.filenames[i],
        ));
        joined_lines(&lines)
    }
}

/// Within a session, no two uploads get the same public name, so none
/// overwrites another.
pub proof fn lemma_upload_names_distinct(names: Seq<Seq<char>>, j: int, k: int)
    requires
        names_are_public(names),
        0 <= j < k < names.len(),
    ensures
        names[j] != names[k],
{
    assert(is_public_name_at(names[j], j as nat));
    assert(is_public_name_at(names[k], k as nat));
    let (tj, xj) = choose|t: nat, x: Seq<char>| names[j] == #[trigger] public_filename_of(t, j as nat, x);
    let (tk, xk) = choose|t: nat, x: Seq<char>| names[k] == #[trigger] public_filename_of(t, k as nat, x);
    if names[j] == names[k] {
        lemma_public_filename_injective(tj, j as nat, xj, tk, k as nat, xk);
    }
}

/// Each upload adds its own link as the last line of the reply.
pub proof fn lemma_links_append(url: Seq<char>, names: Seq<Seq<char>>, name: Seq<char>)
    ensures
        links_of(url, names.push(name)) == links_of(url, names) + url + name + seq!['\n'],
{
    let lines = Seq::new(names.push(name).len(), |i: int| url + names.push(name)[i]);
    assert(lines.drop_last() =~= Seq::new(names.len(), |i: int| url + names[i]));
    assert(lines.last() == url + name);
}


/// Every detected type has a handling: types naming `image` are stripped as
/// images, other types naming `video` as videos, and all other detected types
/// are published as they are. Only an undetected type is refused.
pub proof fn lemma_metadata_kind_total(m: Seq<char>)
    ensures
        metadata_kind_of(Some(m)) is Some,
        metadata_kind_of(None) is None,
        contains_seq(m, "image"@) ==> metadata_kind_of(Some(m)) == Some(MetadataKind::Image),
        !contains_seq(m, "image"@) && contains_seq(m, "video"@) ==> metadata_kind_of(Some(m)) == Some(
            MetadataKind::Video,
        ),
        !contains_seq(m, "image"@) && !contains_seq(m, "video"@) ==> metadata_kind_of(Some(m)) == Some(
            MetadataKind::Noop,
        ),
{
}

} // verus!

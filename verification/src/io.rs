//! File names: the final component of an upload path, its extension, and
//! the public name under which an upload is stored.

use vstd::prelude::*;
use crate::text::{decimal, is_digit, lemma_decimal_digits, lemma_decimal_injective, u64_to_decimal, last_index_of, lemma_last_index_of, lemma_last_index_of_unique, opt_chars};

verus! {

/// The final component of a `/`-separated path, as `std::path::Path::file_name`
/// defines it: empty and `.` components at the end are skipped; a final `..`,
/// a root or an empty path has no file name.
pub open spec fn file_name_of(p: Seq<char>) -> Option<Seq<char>>
    decreases p.len(),
{
    let k = last_index_of(p, '/');
    let tail = p.subrange(k + 1, p.len() as int);
    if tail.len() == 0 || tail == seq!['.'] {
        if k < 0 {
            None
        } else {
            proof {
                lemma_last_index_of(p, '/');
            }
            file_name_of(p.subrange(0, k))
        }
    } else if tail == seq!['.', '.'] {
        None
    } else {
        Some(tail)
    }
}

/// The extension of a file name, as `std::path::Path::extension` defines it:
/// what follows the last `.`, unless there is no `.` or the only `.` starts the name.
pub open spec fn extension_of_name(n: Seq<char>) -> Option<Seq<char>> {
    let k = last_index_of(n, '.');
    if k <= 0 {
        None
    } else {
        Some(n.subrange(k + 1, n.len() as int))
    }
}

/// The extension of the file name of a path.
pub open spec fn extension_of_path(p: Seq<char>) -> Option<Seq<char>> {
    match file_name_of(p) {
        Some(n) => extension_of_name(n),
        None => None,
    }
}

/// The public name of the `iteration`-th upload at `epoch_secs`: `{epoch}_{iteration}.{extension}`.
pub open spec fn public_filename_of(epoch_secs: nat, iteration: nat, extension: Seq<char>) -> Seq<char> {
    decimal(epoch_secs) + seq!['_'] + decimal(iteration) + seq!['.'] + extension
}

/// Why no public file name could be made for an upload.
#[derive(Debug, Clone, Copy, PartialEq, Eq, Structural)]
pub enum IoError {
    /// The upload carries no file name.
    CouldNotExtractFilename,
    /// The upload's file name has no extension.
    CouldNotGetFileNameExtension,
    /// The system clock reads a time before the Unix epoch.
    ClockBeforeEpoch,
}

/// The message that reports a naming error.
pub open spec fn io_error_message(e: IoError) -> Seq<char> {
    match e {
        IoError::CouldNotExtractFilename => "Could not extract Filename"@,
        IoError::CouldNotGetFileNameExtension => "Could not get filename extension"@,
        IoError::ClockBeforeEpoch => "The system clock reads a time before the Unix epoch"@,
    }
}

impl IoError {
    /// The message that reports this error (see `io_error_message`).
    pub fn message(&self) -> (m: &'static str)
        ensures
            m@ == io_error_message(*self),
    {
        match self {
            IoError::CouldNotExtractFilename => "Could not extract Filename",
            IoError::CouldNotGetFileNameExtension => "Could not get filename extension",
            IoError::ClockBeforeEpoch => "The system clock reads a time before the Unix epoch",
        }
    }
}

/// The position of the last `c` among the first `end` characters of `s`.
fn last_index_before(s: &str, c: char, end: usize) -> (r: Option<usize>)
    requires
        end <= s@.len(),
    ensures
        match r {
            Some(k) => k < end && k == last_index_of(s@.subrange(0, end as int), c),
            None => last_index_of(s@.subrange(0, end as int), c) == -1,
        },
{
    let ghost sub = s@.subrange(0, end as int);
    let mut i: usize = end;
    while i > 0
        invariant
            i <= end <= s@.len(),
            sub == s@.subrange(0, end as int),
            forall|j: int| i <= j < end ==> sub[j] != c,
        decreases i,
    {
        if s.get_char(i - 1) == c {
            proof {
                lemma_last_index_of_unique(sub, c, i - 1);
            }
            return Some(i - 1);
        }
        i = i - 1;
    }
    proof {
        lemma_last_index_of_unique(sub, c, -1);
    }
    None
}

/// The final component of `path` (see `file_name_of`).
pub fn file_name(path: &str) -> (r: Option<String>)
    ensures
        opt_chars(r) == file_name_of(path@),
{
    let len = path.unicode_len();
    let mut end: usize = len;
    assert(path@.subrange(0, len as int) =~= path@);
    loop
        invariant
            len == path@.len(),
            end <= len,
            file_name_of(path@.subrange(0, end as int)) == file_name_of(path@),
        decreases end,
    {
        let ghost sub = path@.subrange(0, end as int);
        let k = last_index_before(path, '/', end);
        let start: usize = match k {
            Some(k) => k + 1,
            None => 0,
        };
        let tail = path.substring_char(start, end);
        assert(tail@ =~= sub.subrange(last_index_of(sub, '/') + 1, sub.len() as int));
        let tail_len = end - start;
        if tail_len == 0 || (tail_len == 1 && tail.get_char(0) == '.') {
            assert(tail_len == 1 ==> tail@ =~= seq!['.']);
            match k {
                None => {
                    return None;
                },
                Some(k) => {
                    assert(sub.subrange(0, k as int) =~= path@.subrange(0, k as int));
                    end = k;
                },
            }
        } else {
            assert(tail@ != seq!['.']) by {
                if tail_len == 1 {
                    assert(tail@[0] != seq!['.'][0]);
                }
            }
            if tail_len == 2 && tail.get_char(0) == '.' && tail.get_char(1) == '.' {
                assert(tail@ =~= seq!['.', '.']);
                return None;
            }
            assert(tail@ != seq!['.', '.']) by {
                if tail_len == 2 {
                    if tail@[0] != '.' {
                        assert(tail@[0] != seq!['.', '.'][0]);
                    } else {
                        assert(tail@[1] != seq!['.', '.'][1]);
                    }
                }
            }
            return Some(String::from_str(tail));
        }
    }
}

/// The extension of `name` (see `extension_of_name`).
fn name_extension(name: &str) -> (r: Option<String>)
    ensures
        opt_chars(r) == extension_of_name(name@),
{
    let len = name.unicode_len();
    assert(name@.subrange(0, len as int) =~= name@);
    match last_index_before(name, '.', len) {
        None => None,
        Some(k) => {
            if k == 0 {
                None
            } else {
                let ext = name.substring_char(k + 1, len);
                Some(String::from_str(ext))
            }
        },
    }
}

/// The extension of the file name of `path`, as `Path::extension` gives it.
pub fn get_filename_extension(path: &str) -> (r: Option<String>)
    ensures
        opt_chars(r) == extension_of_path(path@),
{
    match file_name(path) {
        Some(name) => name_extension(name.as_str()),
        None => None,
    }
}


/// `std::time::SystemTime`, carried through as an opaque clock reading.
#[verifier::external_type_specification]
#[verifier::external_body]
pub struct ExSystemTime(std::time::SystemTime);

/// Calls `std::time::SystemTime::now`. The reading depends on the machine's
/// clock, so nothing is stated of it.
#[verifier::external_body]
fn system_time_now() -> (t: std::time::SystemTime) {
    std::time::SystemTime::now()
}

/// Calls `SystemTime::duration_since` with `UNIX_EPOCH`, turning its error
/// (the reading lies before the epoch) into `None`. The duration depends on
/// the clock reading, which is opaque, so nothing more is stated.
#[verifier::external_body]
fn duration_since_unix_epoch(t: &std::time::SystemTime) -> (d: Option<core::time::Duration>) {
    t.duration_since(std::time::UNIX_EPOCH).ok()
}

/// Calls `Duration::as_secs`. The duration is opaque here, so nothing is
/// stated of the number of whole seconds.
#[verifier::external_body]
fn duration_whole_seconds(d: &core::time::Duration) -> (secs: u64) {
    d.as_secs()
}

/// The whole seconds since the Unix epoch on the system clock, or `None`
/// when the clock reads a time before the epoch.
pub fn unix_time_seconds() -> (r: Option<u64>) {
    let now = system_time_now();
    match duration_since_unix_epoch(&now) {
        Some(d) => Some(duration_whole_seconds(&d)),
        None => None,
    }
}

/// The public name `{epoch_secs}_{iteration}.{extension}` of an upload.
pub fn public_filename(epoch_secs: u64, iteration: usize, extension: &str) -> (r: String)
    ensures
        r@ == public_filename_of(epoch_secs as nat, iteration as nat, extension@),
{
    let mut r = u64_to_decimal(epoch_secs);
    r.append("_");
    let it = u64_to_decimal(iteration as u64);
    r.append(it.as_str());
    r.append(".");
    r.append(extension);
    proof {
        reveal_strlit("_");
        reveal_strlit(".");
    }
    assert(r@ =~= public_filename_of(epoch_secs as nat, iteration as nat, extension@));
    r
}

/// The public name of an upload given the clock reading `now_secs`: the
/// upload's file name must be present and have an extension, and the clock
/// must read a time after the epoch.
pub fn generate_public_filename_at(filename: Option<&str>, iteration: usize, now_secs: Option<u64>) -> (r: Result<String, IoError>)
    ensures
        match filename {
            None => r == Err::<String, IoError>(IoError::CouldNotExtractFilename),
            Some(f) => match extension_of_path(f@) {
                None => r == Err::<String, IoError>(IoError::CouldNotGetFileNameExtension),
                Some(e) => match now_secs {
                    None => r == Err::<String, IoError>(IoError::ClockBeforeEpoch),
                    Some(t) => r matches Ok(s) && s@ == public_filename_of(t as nat, iteration as nat, e),
                },
            },
        },
{
    let f = match filename {
        Some(f) => f,
        None => {
            return Err(IoError::CouldNotExtractFilename);
        },
    };
    let extension = match get_filename_extension(f) {
        Some(e) => e,
        None => {
            return Err(IoError::CouldNotGetFileNameExtension);
        },
    };
    match now_secs {
        Some(t) => Ok(public_filename(t, iteration, extension.as_str())),
        None => Err(IoError::ClockBeforeEpoch),
    }
}

/// The public name of the `iteration`-th upload, stamped with the current
/// time: `{seconds since the epoch}_{iteration}.{extension of filename}`.
pub fn generate_public_filename(filename: Option<&str>, iteration: usize) -> (r: Result<String, IoError>)
    ensures
        match filename {
            None => r == Err::<String, IoError>(IoError::CouldNotExtractFilename),
            Some(f) => match extension_of_path(f@) {
                None => r == Err::<String, IoError>(IoError::CouldNotGetFileNameExtension),
                Some(e) => r == Err::<String, IoError>(IoError::ClockBeforeEpoch)
                    || exists|t: u64| r matches Ok(s) && s@ == #[trigger] public_filename_of(t as nat, iteration as nat, e),
            },
        },
{
    let now = unix_time_seconds();
    generate_public_filename_at(filename, iteration, now)
}


/// A file name never holds a `/`.
proof fn lemma_file_name_has_no_slash(p: Seq<char>)
    ensures
        file_name_of(p) matches Some(n) ==> forall|j: int| 0 <= j < n.len() ==> n[j] != '/',
    decreases p.len(),
{
    lemma_last_index_of(p, '/');
    let k = last_index_of(p, '/');
    let tail = p.subrange(k + 1, p.len() as int);
    if tail.len() == 0 || tail == seq!['.'] {
        if k >= 0 {
            lemma_file_name_has_no_slash(p.subrange(0, k));
        }
    } else {
        assert forall|j: int| 0 <= j < tail.len() implies tail[j] != '/' by {
            assert(tail[j] == p[k + 1 + j]);
        }
    }
}

/// An extension holds neither `/` nor `.`.
proof fn lemma_extension_chars(p: Seq<char>)
    ensures
        extension_of_path(p) matches Some(e) ==> forall|j: int|
            0 <= j < e.len() ==> e[j] != '/' && e[j] != '.',
{
    lemma_file_name_has_no_slash(p);
    if let Some(n) = file_name_of(p) {
        lemma_last_index_of(n, '.');
        let k = last_index_of(n, '.');
        if k > 0 {
            let e = n.subrange(k + 1, n.len() as int);
            assert forall|j: int| 0 <= j < e.len() implies e[j] != '/' && e[j] != '.' by {
                assert(e[j] == n[k + 1 + j]);
            }
        }
    }
}

/// The public name of an upload keeps the extension of the uploaded file's
/// name: naming an upload `{epoch}_{iteration}.{extension}` never changes
/// what `get_filename_extension` reads from it.
pub proof fn lemma_public_filename_keeps_extension(filename: Seq<char>, epoch_secs: nat, iteration: nat)
    requires
        extension_of_path(filename) is Some,
    ensures
        extension_of_path(public_filename_of(epoch_secs, iteration, extension_of_path(filename)->0))
            == extension_of_path(filename),
{
    let e = extension_of_path(filename)->0;
    lemma_extension_chars(filename);
    lemma_decimal_digits(epoch_secs);
    lemma_decimal_digits(iteration);
    let d1 = decimal(epoch_secs);
    let d2 = decimal(iteration);
    let p = public_filename_of(epoch_secs, iteration, e);
    let m: int = d1.len() as int + 1 + d2.len() as int;
    assert(p.len() == m + 1 + e.len());
    // Where each character of the public name comes from.
    assert forall|j: int| 0 <= j < p.len() implies
        (j < d1.len() ==> p[j] == d1[j])
        && (j == d1.len() ==> p[j] == '_')
        && (d1.len() < j < m ==> p[j] == d2[j - d1.len() - 1])
        && (j == m ==> p[j] == '.')
        && (m < j ==> p[j] == e[j - m - 1]) by {}
    // No `/` anywhere: the whole name is its file name.
    assert forall|j: int| 0 <= j < p.len() implies p[j] != '/' by {
        if j < d1.len() {
            assert(is_digit(d1[j]));
        } else if d1.len() < j < m {
            assert(is_digit(d2[j - d1.len() - 1]));
        }
    }
    lemma_last_index_of_unique(p, '/', -1);
    assert(p.subrange(0, p.len() as int) =~= p);
    assert(p != seq!['.']);
    assert(p != seq!['.', '.']);
    assert(file_name_of(p) == Some(p));
    // The last `.` is the one placed before the extension.
    lemma_last_index_of_unique(p, '.', m);
    assert(p.subrange(m + 1, p.len() as int) =~= e);
}


/// Where each character of a public name comes from.
proof fn lemma_public_filename_layout(epoch_secs: nat, iteration: nat, extension: Seq<char>)
    ensures
        ({
            let d1 = decimal(epoch_secs);
            let d2 = decimal(iteration);
            let p = public_filename_of(epoch_secs, iteration, extension);
            &&& p.len() == d1.len() as int + 1 + d2.len() as int + 1 + extension.len()
            &&& p.subrange(0, d1.len() as int) == d1
            &&& p.subrange(d1.len() as int + 1, d1.len() as int + 1 + d2.len() as int) == d2
            &&& p.subrange(d1.len() as int + 1 + d2.len() as int + 1, p.len() as int) == extension
            &&& p[d1.len() as int] == '_'
            &&& p[d1.len() as int + 1 + d2.len() as int] == '.'
            &&& forall|j: int| 0 <= j < d1.len() ==> p[j] == d1[j]
            &&& forall|j: int| 0 <= j < d2.len() ==> p[d1.len() as int + 1 + j] == d2[j]
        }),
{
    let d1 = decimal(epoch_secs);
    let d2 = decimal(iteration);
    let p = public_filename_of(epoch_secs, iteration, extension);
    assert(p.subrange(0, d1.len() as int) =~= d1);
    assert(p.subrange(d1.len() as int + 1, d1.len() as int + 1 + d2.len() as int) =~= d2);
    assert(p.subrange(d1.len() as int + 1 + d2.len() as int + 1, p.len() as int) =~= extension);
}

/// Public names tell their clock readings, positions and extensions apart:
/// two uploads of one request (which differ in position) never share a name.
pub proof fn lemma_public_filename_injective(
    e1: nat,
    i1: nat,
    x1: Seq<char>,
    e2: nat,
    i2: nat,
    x2: Seq<char>,
)
    requires
        public_filename_of(e1, i1, x1) == public_filename_of(e2, i2, x2),
    ensures
        e1 == e2,
        i1 == i2,
        x1 == x2,
{
    let p = public_filename_of(e1, i1, x1);
    let a1 = decimal(e1);
    let b1 = decimal(i1);
    let a2 = decimal(e2);
    let b2 = decimal(i2);
    lemma_public_filename_layout(e1, i1, x1);
    lemma_public_filename_layout(e2, i2, x2);
    lemma_decimal_digits(e1);
    lemma_decimal_digits(i1);
    lemma_decimal_digits(e2);
    lemma_decimal_digits(i2);
    if a1.len() < a2.len() {
        assert(is_digit(a2[a1.len() as int]));
    }
    if a2.len() < a1.len() {
        assert(is_digit(a1[a2.len() as int]));
    }
    assert(a1.len() == a2.len());
    assert(a1 == a2);
    lemma_decimal_injective(e1, e2);
    if b1.len() < b2.len() {
        assert(is_digit(b2[b1.len() as int]));
        assert(p[a1.len() as int + 1 + b1.len() as int] == b2[b1.len() as int]);
    }
    if b2.len() < b1.len() {
        assert(is_digit(b1[b2.len() as int]));
        assert(p[a1.len() as int + 1 + b2.len() as int] == b1[b2.len() as int]);
    }
    assert(b1.len() == b2.len());
    assert(b1 == b2);
    lemma_decimal_injective(i1, i2);
}


/// The extension of a file name is everything after its last `.`, however
/// long, as soon as something stands before that `.`.
pub proof fn lemma_extension_after_last_dot(stem: Seq<char>, extension: Seq<char>)
    requires
        stem.len() > 0,
        forall|j: int| 0 <= j < extension.len() ==> extension[j] != '.',
    ensures
        extension_of_name(stem + seq!['.'] + extension) == Some(extension),
{
    let n = stem + seq!['.'] + extension;
    assert forall|j: int| stem.len() < j < n.len() implies n[j] != '.' by {
        assert(n[j] == extension[j - stem.len() - 1]);
    }
    lemma_last_index_of_unique(n, '.', stem.len() as int);
    assert(n.subrange(stem.len() as int + 1, n.len() as int) =~= extension);
}

/// A file name without a `.`, or whose only `.` is its first character, has
/// no extension.
pub proof fn lemma_no_extension(n: Seq<char>)
    requires
        forall|j: int| 0 < j < n.len() ==> n[j] != '.',
    ensures
        extension_of_name(n) is None,
{
    lemma_last_index_of(n, '.');
}

/// The file name of `{dir}/{name}` is `name`, for any name that is a plain
/// component: not empty, without `/`, and neither `.` nor `..`.
pub proof fn lemma_file_name_of_last_component(dir: Seq<char>, name: Seq<char>)
    requires
        name.len() > 0,
        forall|j: int| 0 <= j < name.len() ==> name[j] != '/',
        name != seq!['.'],
        name != seq!['.', '.'],
    ensures
        file_name_of(dir + seq!['/'] + name) == Some(name),
{
    let p = dir + seq!['/'] + name;
    assert forall|j: int| dir.len() < j < p.len() implies p[j] != '/' by {
        assert(p[j] == name[j - dir.len() - 1]);
    }
    lemma_last_index_of_unique(p, '/', dir.len() as int);
    assert(p.subrange(dir.len() as int + 1, p.len() as int) =~= name);
}

/// The extension that `get_filename_extension` reads from
/// `{dir}/{stem}.{extension}` is `extension`, whatever its length, when
/// the stem is not empty and neither part holds a separator that splits it.
pub proof fn lemma_path_extension(dir: Seq<char>, stem: Seq<char>, extension: Seq<char>)
    requires
        stem.len() > 0,
        forall|j: int| 0 <= j < stem.len() ==> stem[j] != '/',
        forall|j: int| 0 <= j < extension.len() ==> extension[j] != '.' && extension[j] != '/',
        stem + seq!['.'] + extension != seq!['.', '.'],
    ensures
        extension_of_path(dir + seq!['/'] + (stem + seq!['.'] + extension)) == Some(extension),
{
    let name = stem + seq!['.'] + extension;
    assert forall|j: int| 0 <= j < name.len() implies name[j] != '/' by {
        if j < stem.len() {
            assert(name[j] == stem[j]);
        } else if j > stem.len() {
            assert(name[j] == extension[j - stem.len() - 1]);
        }
    }
    assert(name != seq!['.']) by {
        assert(name.len() >= 2);
    }
    lemma_file_name_of_last_component(dir, name);
    lemma_extension_after_last_dot(stem, extension);
}

} // verus!

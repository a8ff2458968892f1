//! The artifact finder: given a listing of the job's working directory,
//! pick the produced media file.  The search degrades in a fixed order —
//! an allow-listed media file among the immediate files, then any
//! immediate file, then the same two passes over the files one level down
//! in subdirectories.

use vstd::prelude::*;

use crate::estimator::TickSample;
use crate::parse::{lemma_positions_sound, positions_of};
use crate::text::{
    chars_vec, lower_vec, seq_contains, seq_ends_with, spec_lower, str_contains, string_of_chars,
    sub_vec, vec_contains, vec_ends_with,
};
use crate::types::DownloadError;

verus! {

/// One plain file seen in a directory listing: its name (no path) and its
/// size in bytes.
#[derive(Debug)]
pub struct FileEntry {
    pub name: String,
    pub size: u64,
}

/// A depth-one listing of the working directory: its immediate plain
/// files, and the plain files of each immediate subdirectory.
#[derive(Debug)]
pub struct DirListing {
    pub files: Vec<FileEntry>,
    pub subdirs: Vec<Vec<FileEntry>>,
}

/// The discovered output file: name, byte length and inferred extension.
#[derive(Debug)]
pub struct ArtifactDescriptor {
    pub name: String,
    pub size: u64,
    pub extension: String,
}

/// The characters after the last dot of a name; empty when it has none.
pub open spec fn spec_ext_of(n: Seq<char>) -> Seq<char> {
    let dots = positions_of(n, '.');
    if dots.len() > 0 {
        n.subrange(dots.last() + 1, n.len() as int)
    } else {
        Seq::<char>::empty()
    }
}

/// The media extensions the extraction tool is known to produce.
pub open spec fn is_media_ext(e: Seq<char>) -> bool {
    e == "mp4"@ || e == "mp3"@ || e == "m4a"@ || e == "webm"@ || e == "mkv"@ || e == "opus"@ || e
        == "ogg"@ || e == "wav"@ || e == "aac"@ || e == "flac"@
}

/// Whether a filename carries an allow-listed media extension, compared
/// without regard to ASCII case.
pub open spec fn spec_is_media_name(n: Seq<char>) -> bool {
    is_media_ext(spec_lower(spec_ext_of(n)))
}

/// Extract a name's extension.
pub fn ext_of(name: &str) -> (r: String)
    ensures
        r@ == spec_ext_of(name@),
{
    let v = chars_vec(name);
    let dots = crate::parse::find_positions(&v, '.');
    proof {
        lemma_positions_sound(v@, '.');
        if dots@.len() > 0 {
            let k = dots@.len() - 1;
            assert(dots@.map_values(|x: usize| x as int)[k] == dots@[k] as int);
            assert(positions_of(v@, '.')[k] == dots@[k] as int);
        }
    }
    if dots.len() > 0 {
        let d = dots[dots.len() - 1];
        string_of_chars(&sub_vec(&v, d + 1, v.len()))
    } else {
        let r = String::new();
        proof {
            assert(r@ =~= spec_ext_of(name@));
        }
        r
    }
}

/// Whether a filename names a media file.
pub fn is_media_name(name: &str) -> (r: bool)
    ensures
        r == spec_is_media_name(name@),
{
    let ext = ext_of(name);
    let ev = chars_vec(ext.as_str());
    let lowered = string_of_chars(&lower_vec(&ev));
    lowered == String::from_str("mp4") || lowered == String::from_str("mp3") || lowered
        == String::from_str("m4a") || lowered == String::from_str("webm") || lowered
        == String::from_str("mkv") || lowered == String::from_str("opus") || lowered
        == String::from_str("ogg") || lowered == String::from_str("wav") || lowered
        == String::from_str("aac") || lowered == String::from_str("flac")
}

/// The first media file at or after position `i` in a file list.
pub open spec fn first_media_from(files: Seq<FileEntry>, i: int) -> Option<int>
    decreases files.len() - i,
{
    if i < 0 || i >= files.len() {
        None
    } else if spec_is_media_name(files[i].name@) {
        Some(i)
    } else {
        first_media_from(files, i + 1)
    }
}

/// The first subdirectory holding a media file, at or after position `i`,
/// with that file's position.
pub open spec fn first_subdir_media(subdirs: Seq<Vec<FileEntry>>, i: int) -> Option<(int, int)>
    decreases subdirs.len() - i,
{
    if i < 0 || i >= subdirs.len() {
        None
    } else {
        match first_media_from(subdirs[i]@, 0) {
            Option::Some(j) => Some((i, j)),
            Option::None => first_subdir_media(subdirs, i + 1),
        }
    }
}

/// The first non-empty subdirectory at or after position `i`.
pub open spec fn first_subdir_file(subdirs: Seq<Vec<FileEntry>>, i: int) -> Option<int>
    decreases subdirs.len() - i,
{
    if i < 0 || i >= subdirs.len() {
        None
    } else if subdirs[i]@.len() > 0 {
        Some(i)
    } else {
        first_subdir_file(subdirs, i + 1)
    }
}

/// The file the ordered, degrading search picks: the first immediate
/// media file, else the first immediate file, else the first media file
/// one level down, else any file one level down.
pub open spec fn spec_find_output(files: Seq<FileEntry>, subdirs: Seq<Vec<FileEntry>>) -> Option<
    FileEntry,
> {
    match first_media_from(files, 0) {
        Option::Some(i) => Some(files[i]),
        Option::None => {
            if files.len() > 0 {
                Some(files[0])
            } else {
                match first_subdir_media(subdirs, 0) {
                    Option::Some((i, j)) => Some(subdirs[i]@[j]),
                    Option::None => match first_subdir_file(subdirs, 0) {
                        Option::Some(i) => Some(subdirs[i]@[0]),
                        Option::None => None,
                    },
                }
            }
        },
    }
}

/// Scan a file list for its first media file.
fn scan_media(files: &Vec<FileEntry>) -> (r: Option<usize>)
    ensures
        (r is Some) == (first_media_from(files@, 0) is Some),
        r is Some ==> Some(r->Some_0 as int) == first_media_from(files@, 0) && r->Some_0
            < files@.len(),
{
    let n = files.len();
    let mut i: usize = 0;
    while i < n
        invariant
            n == files@.len(),
            i <= n,
            first_media_from(files@, 0) == first_media_from(files@, i as int),
        decreases n - i,
    {
        if is_media_name(files[i].name.as_str()) {
            return Some(i);
        }
        i = i + 1;
    }
    None
}

/// Describe a chosen file as the artifact.
fn describe(f: &FileEntry) -> (r: ArtifactDescriptor)
    ensures
        r.name@ == f.name@,
        r.size == f.size,
        r.extension@ == spec_ext_of(f.name@),
{
    ArtifactDescriptor { name: f.name.clone(), size: f.size, extension: ext_of(f.name.as_str()) }
}

/// Find the produced output file in a working-directory listing.
/// `Err(ArtifactNotFound)` exactly when the listing holds no file at all,
/// immediate or one level down.
pub fn find_downloaded_file(listing: &DirListing) -> (r: Result<ArtifactDescriptor, DownloadError>)
    ensures
        (r is Ok) == (spec_find_output(listing.files@, listing.subdirs@) is Some),
        r is Ok ==> {
            let f = spec_find_output(listing.files@, listing.subdirs@)->Some_0;
            r->Ok_0.name@ == f.name@ && r->Ok_0.size == f.size && r->Ok_0.extension@ == spec_ext_of(
                f.name@,
            )
        },
        r is Err ==> r->Err_0 is ArtifactNotFound,
{
    if let Some(i) = scan_media(&listing.files) {
        return Ok(describe(&listing.files[i]));
    }
    if listing.files.len() > 0 {
        return Ok(describe(&listing.files[0]));
    }
    let m = listing.subdirs.len();
    let mut i: usize = 0;
    while i < m
        invariant
            m == listing.subdirs@.len(),
            i <= m,
            first_media_from(listing.files@, 0) is None,
            listing.files@.len() == 0,
            first_subdir_media(listing.subdirs@, 0) == first_subdir_media(
                listing.subdirs@,
                i as int,
            ),
        decreases m - i,
    {
        if let Some(j) = scan_media(&listing.subdirs[i]) {
            proof {
                assert(first_subdir_media(listing.subdirs@, i as int) == Some((
                    i as int,
                    j as int,
                )));
            }
            return Ok(describe(&listing.subdirs[i][j]));
        }
        i = i + 1;
    }
    let mut i: usize = 0;
    while i < m
        invariant
            m == listing.subdirs@.len(),
            i <= m,
            first_subdir_media(listing.subdirs@, 0) is None,
            first_media_from(listing.files@, 0) is None,
            listing.files@.len() == 0,
            first_subdir_file(listing.subdirs@, 0) == first_subdir_file(
                listing.subdirs@,
                i as int,
            ),
        decreases m - i,
    {
        if listing.subdirs[i].len() > 0 {
            return Ok(describe(&listing.subdirs[i][0]));
        }
        i = i + 1;
    }
    Err(DownloadError::ArtifactNotFound)
}


/// Whether a filename marks an unfinished download: the tool's `.part`
/// suffix or a format-fragment marker.
pub open spec fn spec_is_partial_marker(n: Seq<char>) -> bool {
    seq_ends_with(n, ".part"@) || seq_contains(n, ".f"@)
}

/// Whether a filename marks a finished media file being processed.
pub open spec fn spec_is_media_marker(n: Seq<char>) -> bool {
    seq_contains(n, ".mkv"@) || seq_contains(n, ".mp4"@) || seq_contains(n, ".webm"@)
        || seq_contains(n, ".mp3"@)
}

/// Whether a filename marks an unfinished download.
pub fn is_partial_marker(name: &str) -> (r: bool)
    ensures
        r == spec_is_partial_marker(name@),
{
    let v = chars_vec(name);
    let part = chars_vec(".part");
    let frag = chars_vec(".f");
    vec_ends_with(&v, &part) || vec_contains(&v, &frag)
}

/// Whether a filename marks a finished media file.
pub fn is_media_marker(name: &str) -> (r: bool)
    ensures
        r == spec_is_media_marker(name@),
{
    str_contains(name, ".mkv") || str_contains(name, ".mp4") || str_contains(name, ".webm")
        || str_contains(name, ".mp3")
}

/// The sizes of all files added up, saturating at `u64::MAX`.
pub open spec fn spec_total_bytes(files: Seq<FileEntry>) -> u64
    decreases files.len(),
{
    if files.len() == 0 {
        0u64
    } else {
        let rest = spec_total_bytes(files.drop_last());
        if rest + files.last().size > u64::MAX {
            u64::MAX as u64
        } else {
            (rest + files.last().size) as u64
        }
    }
}

/// Whether any file in the list carries a partial-download marker.
pub open spec fn spec_any_partial(files: Seq<FileEntry>) -> bool {
    exists|i: int| 0 <= i < files.len() && spec_is_partial_marker(#[trigger] files[i].name@)
}

/// Whether any file in the list carries a media marker.
pub open spec fn spec_any_media(files: Seq<FileEntry>) -> bool {
    exists|i: int| 0 <= i < files.len() && spec_is_media_marker(#[trigger] files[i].name@)
}

/// Summarize one scan of the working directory's immediate files into the
/// raw signals of a sampling tick: the byte total and the two markers,
/// alongside the elapsed time and the tool's own percentage where one
/// parsed this tick.
pub fn scan_sample(
    files: &Vec<FileEntry>,
    elapsed_seconds: u64,
    tool_percent_tenths: Option<u64>,
) -> (s: TickSample)
    ensures
        s.elapsed_seconds == elapsed_seconds,
        s.bytes_on_disk == spec_total_bytes(files@),
        s.has_partial_file == spec_any_partial(files@),
        s.has_media_file == spec_any_media(files@),
        s.tool_percent_tenths == tool_percent_tenths,
{
    let n = files.len();
    let mut bytes: u64 = 0;
    let mut has_partial = false;
    let mut has_media = false;
    let mut i: usize = 0;
    while i < n
        invariant
            n == files@.len(),
            i <= n,
            bytes == spec_total_bytes(files@.subrange(0, i as int)),
            has_partial == spec_any_partial(files@.subrange(0, i as int)),
            has_media == spec_any_media(files@.subrange(0, i as int)),
        decreases n - i,
    {
        proof {
            let pre = files@.subrange(0, i as int);
            let ext = files@.subrange(0, i + 1);
            assert(ext.drop_last() =~= pre);
            assert(ext.last() == files@[i as int]);
            assert(spec_any_partial(ext) == (spec_any_partial(pre) || spec_is_partial_marker(
                files@[i as int].name@,
            ))) by {
                if spec_any_partial(pre) {
                    let k = choose|k: int| 0 <= k < pre.len() && spec_is_partial_marker(pre[k].name@);
                    assert(spec_is_partial_marker(ext[k].name@));
                }
                if spec_any_partial(ext) {
                    let k = choose|k: int| 0 <= k < ext.len() && spec_is_partial_marker(ext[k].name@);
                    if k < pre.len() {
                        assert(spec_is_partial_marker(pre[k].name@));
                    }
                }
            }
            assert(spec_any_media(ext) == (spec_any_media(pre) || spec_is_media_marker(
                files@[i as int].name@,
            ))) by {
                if spec_any_media(pre) {
                    let k = choose|k: int| 0 <= k < pre.len() && spec_is_media_marker(pre[k].name@);
                    assert(spec_is_media_marker(ext[k].name@));
                }
                if spec_any_media(ext) {
                    let k = choose|k: int| 0 <= k < ext.len() && spec_is_media_marker(ext[k].name@);
                    if k < pre.len() {
                        assert(spec_is_media_marker(pre[k].name@));
                    }
                }
            }
        }
        let f = &files[i];
        if f.size > u64::MAX - bytes {
            bytes = u64::MAX;
        } else {
            bytes = bytes + f.size;
        }
        if is_partial_marker(f.name.as_str()) {
            has_partial = true;
        }
        if is_media_marker(f.name.as_str()) {
            has_media = true;
        }
        i = i + 1;
    }
    proof {
        assert(files@.subrange(0, n as int) =~= files@);
    }
    TickSample {
        elapsed_seconds,
        bytes_on_disk: bytes,
        has_partial_file: has_partial,
        has_media_file: has_media,
        tool_percent_tenths,
    }
}

} // verus!

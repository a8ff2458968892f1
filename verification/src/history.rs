//! The normalized download record handed to the history collaborator
//! after a successful download, and the derivations that fill it in: the
//! media identifier read out of the source URL and the thumbnail URL
//! built from it.

use vstd::prelude::*;

use crate::parse::first_match_from;
use crate::text::{chars_vec, seq_starts_with, string_of_chars, sub_vec, vec_starts_with};

verus! {

/// The media identifier carried by a watch URL's `v` query parameter: the
/// value of the first `v=` segment of the query string.
pub open spec fn spec_find_v_param(q: Seq<char>) -> Option<Seq<char>>
    decreases q.len(),
{
    let e0 = match first_match_from(q, seq!['&'], 0) {
        Option::Some(k) => k,
        Option::None => q.len() as int,
    };
    let e = if 0 <= e0 && e0 < q.len() {
        e0
    } else {
        q.len() as int
    };
    let seg = q.subrange(0, e);
    if seq_starts_with(seg, "v="@) {
        Some(seg.subrange(2, seg.len() as int))
    } else if e == q.len() {
        None
    } else {
        spec_find_v_param(q.subrange(e + 1, q.len() as int))
    }
}

/// The piece of `s` before its first `?` or `#`.
pub open spec fn spec_before_query(s: Seq<char>) -> Seq<char> {
    let q = match first_match_from(s, seq!['?'], 0) {
        Option::Some(k) => k,
        Option::None => s.len() as int,
    };
    let h = match first_match_from(s, seq!['#'], 0) {
        Option::Some(k) => k,
        Option::None => s.len() as int,
    };
    let e = if q <= h {
        q
    } else {
        h
    };
    if 0 <= e && e <= s.len() {
        s.subrange(0, e)
    } else {
        s
    }
}

/// The media identifier read out of a source URL, matched by shape rather
/// than by a full URL parse: the `v` query parameter after
/// `youtube.com/watch?`, or the path after `youtu.be/` up to any query or
/// fragment.  An empty identifier counts as none.
pub open spec fn spec_extract_video_id(u: Seq<char>) -> Option<Seq<char>> {
    match first_match_from(u, "youtube.com/watch?"@, 0) {
        Option::Some(i) => {
            let id = spec_find_v_param(u.subrange(i + 18, u.len() as int));
            if id is Some && id->Some_0.len() > 0 {
                id
            } else {
                None
            }
        },
        Option::None => match first_match_from(u, "youtu.be/"@, 0) {
            Option::Some(j) => {
                let id = spec_before_query(u.subrange(j + 9, u.len() as int));
                if id.len() > 0 {
                    Some(id)
                } else {
                    None
                }
            },
            Option::None => None,
        },
    }
}

/// Find the value of the first `v=` segment of a query string.
fn find_v_param(q: &Vec<char>) -> (r: Option<String>)
    ensures
        (r is Some) == (spec_find_v_param(q@) is Some),
        r is Some ==> r->Some_0@ == spec_find_v_param(q@)->Some_0,
    decreases q@.len(),
{
    let mut amp: Vec<char> = Vec::new();
    amp.push('&');
    proof {
        assert(amp@ =~= seq!['&']);
    }
    let n = q.len();
    let e = match crate::parse::find_first(q, &amp) {
        Some(k) => k,
        None => n,
    };
    let seg = sub_vec(q, 0, e);
    let mut vpat: Vec<char> = Vec::new();
    vpat.push('v');
    vpat.push('=');
    proof {
        assert(vpat@ =~= "v="@) by {
            reveal_strlit("v=");
        }
    }
    if vec_starts_with(&seg, &vpat) {
        proof {
            reveal_strlit("v=");
        }
        Some(string_of_chars(&sub_vec(&seg, 2, seg.len())))
    } else if e == n {
        None
    } else {
        let rest = sub_vec(q, e + 1, n);
        find_v_param(&rest)
    }
}

/// Cut a string vector off at its first `?` or `#`.
fn before_query(s: &Vec<char>) -> (r: Vec<char>)
    ensures
        r@ == spec_before_query(s@),
{
    let n = s.len();
    let mut qpat: Vec<char> = Vec::new();
    qpat.push('?');
    let mut hpat: Vec<char> = Vec::new();
    hpat.push('#');
    proof {
        assert(qpat@ =~= seq!['?']);
        assert(hpat@ =~= seq!['#']);
    }
    let q = match crate::parse::find_first(s, &qpat) {
        Some(k) => k,
        None => n,
    };
    let h = match crate::parse::find_first(s, &hpat) {
        Some(k) => k,
        None => n,
    };
    let e = if q <= h {
        q
    } else {
        h
    };
    sub_vec(s, 0, e)
}

/// Read the media identifier out of a source URL.
pub fn extract_video_id(url: &str) -> (r: Option<String>)
    ensures
        (r is Some) == (spec_extract_video_id(url@) is Some),
        r is Some ==> r->Some_0@ == spec_extract_video_id(url@)->Some_0,
{
    let v = chars_vec(url);
    let n = v.len();
    let watch_pat = chars_vec("youtube.com/watch?");
    proof {
        reveal_strlit("youtube.com/watch?");
        assert("youtube.com/watch?"@.len() == 18);
    }
    if let Some(i) = crate::parse::find_first(&v, &watch_pat) {
        let query = sub_vec(&v, i + 18, n);
        return match find_v_param(&query) {
            Some(id) => {
                if id.as_str().unicode_len() > 0 {
                    Some(id)
                } else {
                    None
                }
            },
            None => None,
        };
    }
    let short_pat = chars_vec("youtu.be/");
    proof {
        reveal_strlit("youtu.be/");
        assert("youtu.be/"@.len() == 9);
    }
    if let Some(j) = crate::parse::find_first(&v, &short_pat) {
        let id = before_query(&sub_vec(&v, j + 9, n));
        if id.len() > 0 {
            return Some(string_of_chars(&id));
        }
        return None;
    }
    None
}

/// The thumbnail URL served for a media identifier.
pub open spec fn spec_thumbnail_url(video_id: Seq<char>) -> Seq<char> {
    "https://i.ytimg.com/vi/"@ + video_id + "/mqdefault.jpg"@
}

/// Build the thumbnail URL for a media identifier.
pub fn generate_thumbnail_url(video_id: &str) -> (r: String)
    ensures
        r@ == spec_thumbnail_url(video_id@),
{
    let mut r = String::from_str("https://i.ytimg.com/vi/");
    r.append(video_id);
    r.append("/mqdefault.jpg");
    r
}

/// An empty format name defaults to `video` in the history record.
pub fn normalize_format_type(s: &str) -> (r: String)
    ensures
        s@.len() == 0 ==> r@ == "video"@,
        s@.len() > 0 ==> r@ == s@,
{
    if s.unicode_len() == 0 {
        String::from_str("video")
    } else {
        s.to_owned()
    }
}

/// An empty quality name defaults to `best` in the history record.
pub fn normalize_quality(s: &str) -> (r: String)
    ensures
        s@.len() == 0 ==> r@ == "best"@,
        s@.len() > 0 ==> r@ == s@,
{
    if s.unicode_len() == 0 {
        String::from_str("best")
    } else {
        s.to_owned()
    }
}

/// The normalized record handed to the history collaborator.
#[derive(Debug)]
pub struct HistoryRecord {
    pub url: String,
    pub title: String,
    pub filename: String,
    pub file_path: String,
    pub format_type: String,
    pub quality: String,
    pub file_size: i64,
    pub video_id: Option<String>,
    pub thumbnail_url: Option<String>,
    pub duration: Option<i64>,
}

/// Assemble the history record for a finished download: the caller's
/// plain fields, normalized format and quality names, and the media
/// identifier and thumbnail derived from the URL.
pub fn build_history_record(
    url: &str,
    title: &str,
    filename: &str,
    file_path: &str,
    format_type: &str,
    quality: &str,
    file_size: i64,
    duration: Option<i64>,
) -> (r: HistoryRecord)
    ensures
        r.url@ == url@,
        r.title@ == title@,
        r.filename@ == filename@,
        r.file_path@ == file_path@,
        format_type@.len() == 0 ==> r.format_type@ == "video"@,
        format_type@.len() > 0 ==> r.format_type@ == format_type@,
        quality@.len() == 0 ==> r.quality@ == "best"@,
        quality@.len() > 0 ==> r.quality@ == quality@,
        r.file_size == file_size,
        r.duration == duration,
        (r.video_id is Some) == (spec_extract_video_id(url@) is Some),
        r.video_id is Some ==> r.video_id->Some_0@ == spec_extract_video_id(url@)->Some_0,
        (r.thumbnail_url is Some) == (spec_extract_video_id(url@) is Some),
        r.thumbnail_url is Some ==> r.thumbnail_url->Some_0@ == spec_thumbnail_url(
            spec_extract_video_id(url@)->Some_0,
        ),
{
    let video_id = extract_video_id(url);
    let thumbnail_url = match &video_id {
        Some(id) => Some(generate_thumbnail_url(id.as_str())),
        None => None,
    };
    HistoryRecord {
        url: url.to_owned(),
        title: title.to_owned(),
        filename: filename.to_owned(),
        file_path: file_path.to_owned(),
        format_type: normalize_format_type(format_type),
        quality: normalize_quality(quality),
        file_size,
        video_id,
        thumbnail_url,
        duration,
    }
}

} // verus!

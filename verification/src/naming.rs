//! Filenames for saved artifacts: sanitising titles, swapping extensions,
//! and checking a filename against the extension a format calls for.

use vstd::prelude::*;

use crate::parse::positions_of;
use crate::text::{
    chars_vec, lower_vec, push_char, seq_ends_with, spec_lower, string_of_chars, sub_vec,
    vec_ends_with,
};
use crate::types::FormatType;

verus! {

/// Whether `c` may not appear in a filename on common platforms.
pub open spec fn is_forbidden(c: char) -> bool {
    c == '/' || c == '\\' || c == ':' || c == '*' || c == '?' || c == '"' || c == '<' || c == '>'
        || c == '|'
}

/// Forbidden characters are replaced by underscores.
pub open spec fn sanitize_char(c: char) -> char {
    if is_forbidden(c) {
        '_'
    } else {
        c
    }
}

fn exec_sanitize_char(c: char) -> (r: char)
    ensures
        r == sanitize_char(c),
{
    if c == '/' || c == '\\' || c == ':' || c == '*' || c == '?' || c == '"' || c == '<' || c == '>'
        || c == '|' {
        '_'
    } else {
        c
    }
}

/// The filename used for a saved artifact: the sanitised title and the
/// extension, or `video.<ext>` when the title is empty.
pub open spec fn spec_clean_filename(title: Seq<char>, extension: Seq<char>) -> Seq<char> {
    if title.len() == 0 {
        "video"@ + seq!['.'] + extension
    } else {
        title.map_values(|c: char| sanitize_char(c)) + seq!['.'] + extension
    }
}

/// Build a safe filename out of a title and an extension.
pub fn create_clean_filename(title: &str, extension: &str) -> (r: String)
    ensures
        r@ == spec_clean_filename(title@, extension@),
{
    let v = chars_vec(title);
    let n = v.len();
    let mut r: String = if n == 0 {
        String::from_str("video")
    } else {
        let mut s = String::new();
        let mut i: usize = 0;
        while i < n
            invariant
                n == v@.len(),
                i <= n,
                s@ == v@.subrange(0, i as int).map_values(|c: char| sanitize_char(c)),
            decreases n - i,
        {
            push_char(&mut s, exec_sanitize_char(v[i]));
            i = i + 1;
            proof {
                assert(s@ =~= v@.subrange(0, i as int).map_values(|c: char| sanitize_char(c)));
            }
        }
        proof {
            assert(v@.subrange(0, n as int) =~= v@);
        }
        s
    };
    push_char(&mut r, '.');
    r.append(extension);
    proof {
        assert(r@ =~= spec_clean_filename(title@, extension@));
    }
    r
}

/// The filename adjusted to a chosen format: everything before the first
/// dot, with the format's extension; an empty name stays empty.
pub open spec fn spec_update_filename(filename: Seq<char>, kind: FormatType) -> Seq<char> {
    if filename.len() == 0 {
        Seq::<char>::empty()
    } else {
        let dots = positions_of(filename, '.');
        let base = if dots.len() > 0 {
            filename.subrange(0, dots[0])
        } else {
            filename
        };
        base + seq!['.'] + kind.spec_extension()
    }
}

/// Swap a filename's extension for the one the format calls for.
pub fn update_filename(filename: &str, format_type: &FormatType) -> (r: String)
    ensures
        r@ == spec_update_filename(filename@, *format_type),
{
    let v = chars_vec(filename);
    if v.len() == 0 {
        let r = String::new();
        proof {
            assert(r@ =~= spec_update_filename(filename@, *format_type));
        }
        return r;
    }
    let dots = crate::parse::find_positions(&v, '.');
    proof {
        crate::parse::lemma_positions_sound(v@, '.');
        if dots@.len() > 0 {
            assert(dots@.map_values(|x: usize| x as int)[0] == dots@[0] as int);
            assert(positions_of(v@, '.')[0] == dots@[0] as int);
        }
    }
    let base = if dots.len() > 0 {
        sub_vec(&v, 0, dots[0])
    } else {
        sub_vec(&v, 0, v.len())
    };
    proof {
        if dots@.len() == 0 {
            assert(v@.subrange(0, v@.len() as int) =~= v@);
        }
    }
    let mut r = string_of_chars(&base);
    push_char(&mut r, '.');
    r.append(format_type.get_extension());
    proof {
        assert(r@ =~= spec_update_filename(filename@, *format_type));
    }
    r
}

impl FormatType {
    /// Whether the filename already ends in this format's extension,
    /// compared without regard to ASCII case.
    pub open spec fn spec_has_valid_extension(self, filename: Seq<char>) -> bool {
        seq_ends_with(spec_lower(filename), seq!['.'] + self.spec_extension())
    }

    pub fn has_valid_extension(&self, filename: &str) -> (r: bool)
        ensures
            r == self.spec_has_valid_extension(filename@),
    {
        let v = chars_vec(filename);
        let lowered = lower_vec(&v);
        let ext = self.get_extension();
        let ev = chars_vec(ext);
        let mut pat: Vec<char> = Vec::new();
        pat.push('.');
        let m = ev.len();
        let mut i: usize = 0;
        while i < m
            invariant
                m == ev@.len(),
                i <= m,
                pat@ == seq!['.'] + ev@.subrange(0, i as int),
            decreases m - i,
        {
            pat.push(ev[i]);
            i = i + 1;
            proof {
                assert(pat@ =~= seq!['.'] + ev@.subrange(0, i as int));
            }
        }
        proof {
            assert(ev@.subrange(0, m as int) =~= ev@);
        }
        vec_ends_with(&lowered, &pat)
    }
}

} // verus!

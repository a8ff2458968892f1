//! The saved-downloads catalog shown by the shell: one record per saved
//! file, filtered by format tab and by a case-insensitive search over
//! titles and filenames.

use vstd::prelude::*;

use crate::text::{
    append_dec, chars_vec, lower_vec, push_char, seq_contains, spec_dec, spec_lower, vec_contains,
};

verus! {

/// One saved download as the catalog shows it.
#[derive(Debug)]
pub struct DownloadItem {
    pub id: Option<i64>,
    pub title: String,
    pub filename: String,
    pub file_path: String,
    pub format_type: String,
    pub quality: String,
    pub file_size: Option<u64>,
    pub duration: Option<u64>,
    pub date_downloaded: String,
    pub thumbnail_url: Option<String>,
    pub file_exists: bool,
}

/// Zero-padded two-digit rendering of a value below one hundred.
pub open spec fn spec_pad2(n: u64) -> Seq<char> {
    if n < 10 {
        seq!['0'] + spec_dec(n as nat)
    } else {
        spec_dec(n as nat)
    }
}

fn append_pad2(s: &mut String, n: u64)
    ensures
        final(s)@ == old(s)@ + spec_pad2(n),
{
    if n < 10 {
        push_char(s, '0');
    }
    append_dec(s, n);
    proof {
        assert(final(s)@ =~= old(s)@ + spec_pad2(n));
    }
}

/// The clock-style rendering of a duration: hours only when there are
/// any, and `Unknown` when none was recorded.
pub open spec fn spec_format_duration(duration: Option<u64>) -> Seq<char> {
    match duration {
        Option::None => "Unknown"@,
        Option::Some(seconds) => {
            let h = seconds / 3600;
            let m = (seconds % 3600) / 60;
            let s = seconds % 60;
            if h > 0 {
                spec_dec(h as nat) + seq![':'] + spec_pad2(m) + seq![':'] + spec_pad2(s)
            } else {
                spec_dec(m as nat) + seq![':'] + spec_pad2(s)
            }
        },
    }
}

impl DownloadItem {
    /// Render the duration for display.
    pub fn format_duration(&self) -> (r: String)
        ensures
            r@ == spec_format_duration(self.duration),
    {
        match self.duration {
            None => String::from_str("Unknown"),
            Some(seconds) => {
                let hours = seconds / 3600;
                let minutes = (seconds % 3600) / 60;
                let secs = seconds % 60;
                let mut r = String::new();
                if hours > 0 {
                    append_dec(&mut r, hours);
                    push_char(&mut r, ':');
                    append_pad2(&mut r, minutes);
                    push_char(&mut r, ':');
                    append_pad2(&mut r, secs);
                    proof {
                        assert(r@ =~= spec_format_duration(self.duration));
                    }
                } else {
                    append_dec(&mut r, minutes);
                    push_char(&mut r, ':');
                    append_pad2(&mut r, secs);
                    proof {
                        assert(r@ =~= spec_format_duration(self.duration));
                    }
                }
                r
            },
        }
    }
}

/// Whether an item belongs on a tab: `all` shows everything, any other
/// tab name selects its format.
pub open spec fn item_on_tab(item: DownloadItem, tab: Seq<char>) -> bool {
    tab == "all"@ || item.format_type@ == tab
}

/// Whether an item matches a search query, already lower-cased: an empty
/// query matches everything, otherwise the lowered title or filename must
/// contain it.
pub open spec fn item_matches_query(item: DownloadItem, lowered_query: Seq<char>) -> bool {
    lowered_query.len() == 0 || seq_contains(spec_lower(item.title@), lowered_query)
        || seq_contains(spec_lower(item.filename@), lowered_query)
}

/// The positions of the items shown for a tab and a query, in order.
pub open spec fn shown_indices(items: Seq<DownloadItem>, tab: Seq<char>, lowered_query: Seq<char>) -> Seq<int>
    decreases items.len(),
{
    if items.len() == 0 {
        seq![]
    } else {
        let pre = shown_indices(items.drop_last(), tab, lowered_query);
        if item_on_tab(items.last(), tab) && item_matches_query(items.last(), lowered_query) {
            pre.push(items.len() - 1)
        } else {
            pre
        }
    }
}

fn matches_query(item: &DownloadItem, lowered_query: &Vec<char>) -> (r: bool)
    ensures
        r == item_matches_query(*item, lowered_query@),
{
    if lowered_query.len() == 0 {
        return true;
    }
    let title = lower_vec(&chars_vec(item.title.as_str()));
    let filename = lower_vec(&chars_vec(item.filename.as_str()));
    vec_contains(&title, lowered_query) || vec_contains(&filename, lowered_query)
}

/// Filter the catalog by tab and search query, returning the positions of
/// the items to show, in their stored order.  The query is lower-cased
/// here; titles and filenames are compared lower-cased too.
pub fn filter_downloads(items: &Vec<DownloadItem>, active_tab: &str, search_query: &str) -> (r:
    Vec<usize>)
    ensures
        r@.map_values(|x: usize| x as int) == shown_indices(
            items@,
            active_tab@,
            spec_lower(search_query@),
        ),
{
    let tabv = chars_vec(active_tab);
    let all = chars_vec("all");
    let on_all = crate::text::vec_eq(&tabv, &all);
    let query = lower_vec(&chars_vec(search_query));
    let n = items.len();
    let mut r: Vec<usize> = Vec::new();
    let mut i: usize = 0;
    while i < n
        invariant
            n == items@.len(),
            i <= n,
            on_all == (tabv@ == "all"@),
            tabv@ == active_tab@,
            query@ == spec_lower(search_query@),
            r@.map_values(|x: usize| x as int) == shown_indices(
                items@.subrange(0, i as int),
                active_tab@,
                query@,
            ),
        decreases n - i,
    {
        proof {
            let pre = items@.subrange(0, i as int);
            let ext = items@.subrange(0, i + 1);
            assert(ext.drop_last() =~= pre);
            assert(ext.last() == items@[i as int]);
        }
        let item = &items[i];
        let on_tab = on_all || {
            let f = chars_vec(item.format_type.as_str());
            crate::text::vec_eq(&f, &tabv)
        };
        if on_tab && matches_query(item, &query) {
            r.push(i);
            proof {
                assert(r@.map_values(|x: usize| x as int) =~= shown_indices(
                    items@.subrange(0, i + 1),
                    active_tab@,
                    query@,
                ));
            }
        }
        i = i + 1;
    }
    proof {
        assert(items@.subrange(0, n as int) =~= items@);
    }
    r
}

/// How many items carry a format name.
pub open spec fn spec_count_format(items: Seq<DownloadItem>, format: Seq<char>) -> nat
    decreases items.len(),
{
    if items.len() == 0 {
        0
    } else {
        spec_count_format(items.drop_last(), format) + if items.last().format_type@ == format {
            1nat
        } else {
            0nat
        }
    }
}

/// Count the catalog's items of one format, for the tab headers.
pub fn count_format(items: &Vec<DownloadItem>, format: &str) -> (r: usize)
    ensures
        r == spec_count_format(items@, format@),
{
    let fv = chars_vec(format);
    let n = items.len();
    let mut count: usize = 0;
    let mut i: usize = 0;
    while i < n
        invariant
            n == items@.len(),
            i <= n,
            fv@ == format@,
            count == spec_count_format(items@.subrange(0, i as int), format@),
            count <= i,
        decreases n - i,
    {
        proof {
            let pre = items@.subrange(0, i as int);
            let ext = items@.subrange(0, i + 1);
            assert(ext.drop_last() =~= pre);
            assert(ext.last() == items@[i as int]);
        }
        let f = chars_vec(items[i].format_type.as_str());
        if crate::text::vec_eq(&f, &fv) {
            count = count + 1;
        }
        i = i + 1;
    }
    proof {
        assert(items@.subrange(0, n as int) =~= items@);
    }
    count
}

} // verus!

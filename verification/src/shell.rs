//! Shell actions on builds without a desktop environment.  Opening files,
//! revealing folders and triggering browser downloads are platform work;
//! on these targets each action deliberately has no effect, so call sites
//! stay uniform across targets.

use vstd::prelude::*;

verus! {

/// Opening a file needs a desktop shell; without one this does nothing.
pub fn open_file(path: &str) {
    let _ = path;
}

/// Revealing a file's folder needs a desktop shell; without one this does
/// nothing.
pub fn open_containing_folder(path: &str) {
    let _ = path;
}

/// Outside a browser, downloads are served through data URLs in the
/// anchor element itself, so there is nothing to trigger here.
pub fn trigger_download(url: &str, filename: &str) {
    let _ = url;
    let _ = filename;
}

} // verus!

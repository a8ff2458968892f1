//! The external-process locator's decisions.  Probing the host for the
//! extraction binary, resolving its canonical path and provisioning a copy
//! are the application's work; the verdicts on their outcomes live here.

use vstd::prelude::*;

verus! {

/// A usable reference to the extraction binary: its resolved filesystem
/// path where resolution succeeded, or the bare command name.
#[derive(Clone, Debug)]
pub enum ExecutableRef {
    CanonicalPath(String),
    BareName(String),
}

/// The locator's one failure: the tool can neither be found nor
/// provisioned.  The payload is a user-actionable message.
#[derive(Clone, Debug)]
pub enum LocatorError {
    Unavailable(String),
}

/// The message shown when the tool cannot be had, with installation steps.
pub open spec fn spec_install_message() -> Seq<char> {
    "The media extraction tool could not be found or provisioned. Please install yt-dlp and make sure it is on your search path."@
}

/// The user-actionable text for an unavailable tool.
pub fn install_message() -> (r: String)
    ensures
        r@ == spec_install_message(),
{
    String::from_str(
        "The media extraction tool could not be found or provisioned. Please install yt-dlp and make sure it is on your search path.",
    )
}

/// Judge a probe of the host's search path: a working binary gives its
/// canonical path where resolution succeeded and the bare command name
/// where it did not; a failed probe gives nothing.
pub fn assess_probe(command_name: &str, probe_ok: bool, canonical: Option<String>) -> (r: Option<
    ExecutableRef,
>)
    ensures
        (r is Some) == probe_ok,
        probe_ok && canonical is Some ==> r == Some(
            ExecutableRef::CanonicalPath(canonical->Some_0),
        ),
        probe_ok && canonical is None ==> (r matches Some(ExecutableRef::BareName(n)) && n@
            == command_name@),
{
    if probe_ok {
        match canonical {
            Some(c) => Some(ExecutableRef::CanonicalPath(c)),
            None => Some(ExecutableRef::BareName(command_name.to_owned())),
        }
    } else {
        None
    }
}

/// Judge a provisioning attempt: the tool is usable only when the copy
/// was put in place and then answered the version probe; anything else is
/// `Unavailable`, with installation steps in the message.
pub fn assess_provision(provisioned_path: &str, provisioned: bool, reprobe_ok: bool) -> (r: Result<
    ExecutableRef,
    LocatorError,
>)
    ensures
        (r is Ok) == (provisioned && reprobe_ok),
        r is Ok ==> (r->Ok_0 matches ExecutableRef::CanonicalPath(p) && p@ == provisioned_path@),
        r is Err ==> (r->Err_0 matches LocatorError::Unavailable(m) && m@ == spec_install_message()),
{
    if provisioned && reprobe_ok {
        Ok(ExecutableRef::CanonicalPath(provisioned_path.to_owned()))
    } else {
        Err(LocatorError::Unavailable(install_message()))
    }
}

} // verus!

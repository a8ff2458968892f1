//! The download orchestrator: the state machine that sequences one job
//! from request to artifact.  All outside work — creating and removing the
//! working directory, probing and spawning the extraction tool, reading
//! files — is done by the application between calls; each method takes the
//! outcome of one such step and decides the next phase and what the
//! progress store shows.

use vstd::prelude::*;

use crate::config::{configure, spec_configure, ExtractionConfig};
use crate::estimator::{
    next_eta, next_published, next_status, spec_max, spec_render_status, spec_tick, render_status,
    EstimatorState, StatusCode, TickSample,
};
use crate::finder::ArtifactDescriptor;
use crate::locator::{ExecutableRef, LocatorError};
use crate::request::spec_supported_url;
use crate::store::ProgressStore;
use crate::types::{DownloadError, DownloadProgress, DownloadRequest, ProgressV, Quality};

verus! {

/// The phases one download moves through, in order, with `Failed`
/// reachable from every non-terminal phase (through `Cleanup` once a
/// working directory exists).
#[derive(Clone, Copy, PartialEq, Eq, Structural, Debug)]
pub enum Phase {
    Initializing,
    ResolvingMetadata,
    Configuring,
    Extracting,
    Locating,
    ReadingArtifact,
    Persisting,
    Cleanup,
    Done,
    Failed,
}

impl Phase {
    /// The two states nothing leads out of.
    pub open spec fn is_terminal(self) -> bool {
        self == Phase::Done || self == Phase::Failed
    }
}

/// What the metadata probe of the extraction tool yielded: the typed
/// subset of its output that the pipeline consumes.
#[derive(Debug)]
pub struct MediaMetadata {
    /// The media title, where the tool reported one.
    pub title: Option<String>,
    /// The duration in whole seconds, zero when unknown.
    pub duration_seconds: u64,
    /// The reported size of each available format, in bytes.
    pub format_filesizes: Vec<u64>,
}

/// The largest element of a size list, zero for an empty one.
pub open spec fn seq_max_u64(s: Seq<u64>) -> u64
    decreases s.len(),
{
    if s.len() == 0 {
        0u64
    } else {
        spec_max(seq_max_u64(s.drop_last()), s.last())
    }
}

/// Pick the largest reported format size.
pub fn best_filesize(sizes: &Vec<u64>) -> (r: u64)
    ensures
        r == seq_max_u64(sizes@),
{
    let n = sizes.len();
    let mut best: u64 = 0;
    let mut i: usize = 0;
    while i < n
        invariant
            n == sizes@.len(),
            i <= n,
            best == seq_max_u64(sizes@.subrange(0, i as int)),
        decreases n - i,
    {
        proof {
            let pre = sizes@.subrange(0, i as int);
            let ext = sizes@.subrange(0, i + 1);
            assert(ext.drop_last() =~= pre);
            assert(ext.last() == sizes@[i as int]);
        }
        if sizes[i] > best {
            best = sizes[i];
        }
        i = i + 1;
    }
    proof {
        assert(sizes@.subrange(0, n as int) =~= sizes@);
    }
    best
}

/// The assumed download rate for a quality tier, in bytes per second,
/// used to estimate a total size from a duration when no size is known.
pub open spec fn spec_quality_rate(q: Quality) -> u64 {
    match q {
        Quality::Lowest => 51200u64,
        Quality::Medium => 256000u64,
        Quality::Highest => 512000u64,
    }
}

/// The size estimate a job runs with: the reported size where one is
/// known, else duration times the quality tier's assumed rate, and at
/// least one binary megabyte either way so ratios stay meaningful.
pub open spec fn spec_adjusted_estimate(size: u64, duration_seconds: u64, q: Quality) -> u64 {
    let base = if size == 0 {
        if (duration_seconds as nat) * (spec_quality_rate(q) as nat) > u64::MAX {
            u64::MAX as u64
        } else {
            ((duration_seconds as nat) * (spec_quality_rate(q) as nat)) as u64
        }
    } else {
        size
    };
    spec_max(base, 1048576)
}

/// Compute the size estimate for a job.
pub fn adjusted_estimate(size: u64, duration_seconds: u64, q: Quality) -> (r: u64)
    ensures
        r == spec_adjusted_estimate(size, duration_seconds, q),
        r >= 1048576,
{
    let rate: u64 = match q {
        Quality::Lowest => 51200,
        Quality::Medium => 256000,
        Quality::Highest => 512000,
    };
    let base: u64 = if size == 0 {
        proof {
            assert(duration_seconds as u128 * rate as u128 <= 0xffffffffffffffffu128 * 512000u128)
                by (nonlinear_arith)
                requires
                    duration_seconds <= u64::MAX,
                    rate <= 512000u64,
            ;
        }
        let wide: u128 = duration_seconds as u128 * rate as u128;
        if wide > u64::MAX as u128 {
            u64::MAX
        } else {
            wide as u64
        }
    } else {
        size
    };
    if base >= 1048576 {
        base
    } else {
        1048576
    }
}

/// A progress record on the normalized 0..=100 scale.
pub open spec fn spec_record(percent: u64, eta: u64, status: Seq<char>) -> ProgressV {
    ProgressV { downloaded_bytes: percent, total_bytes: 100, eta_seconds: eta, status }
}

fn record(percent: u64, eta: u64, status: String) -> (r: DownloadProgress)
    ensures
        r@ == spec_record(percent, eta, status@),
{
    DownloadProgress { downloaded_bytes: percent, total_bytes: 100, eta_seconds: eta, status }
}

/// The record every poll sees once a job is done.
pub open spec fn spec_complete_record() -> ProgressV {
    spec_record(100, 0, "Download complete!"@)
}

/// The status line published when a job fails.
pub open spec fn spec_error_status(detail: Seq<char>) -> Seq<char> {
    "Error: "@ + detail
}

/// The status line published while the tool starts up on a title.
pub open spec fn spec_starting_status(title: Seq<char>) -> Seq<char> {
    "Starting download: "@ + title
}

fn starting_status(title: &str) -> (r: String)
    ensures
        r@ == spec_starting_status(title@),
{
    let mut r = String::from_str("Starting download: ");
    r.append(title);
    r
}

/// One download job's orchestration state.
pub struct Orchestrator {
    /// The immutable request this job serves.
    pub request: DownloadRequest,
    /// The progress key derived from the request's URL.
    pub key: u64,
    /// Where in the pipeline the job stands.
    pub phase: Phase,
    /// The failure that sent the job toward `Failed`, if any.
    pub error: Option<DownloadError>,
    /// Whether the job's working directory currently exists on disk.
    pub workdir_present: bool,
    /// The resolved media title, `Unknown` until metadata arrives.
    pub title: String,
    /// The artifact the finder located, once one has been.
    pub artifact: Option<ArtifactDescriptor>,
    /// The progress estimator for this job.
    pub estimator: EstimatorState,
}

impl Orchestrator {
    /// The invariant every method preserves.  In particular: a terminal
    /// phase means the working directory is gone, `Done` means no error,
    /// and `Failed` means one is recorded.
    pub open spec fn wf(self) -> bool {
        &&& self.estimator.wf()
        &&& self.key == self.request.spec_progress_key()
        &&& self.workdir_present == !(self.phase == Phase::Initializing
            || self.phase.is_terminal())
        &&& self.phase == Phase::Done ==> self.error is None
        &&& self.phase == Phase::Failed ==> self.error is Some
        &&& self.phase == Phase::Cleanup && self.error is None ==> self.artifact is Some
    }

    /// Accept a request, rejecting unsupported URLs before anything runs.
    pub fn new(request: DownloadRequest) -> (r: Result<Orchestrator, DownloadError>)
        ensures
            (r is Ok) == spec_supported_url(request.source_url@),
            r is Ok ==> {
                let o = r->Ok_0;
                &&& o.wf()
                &&& o.phase == Phase::Initializing
                &&& o.request == request
                &&& o.key == request.spec_progress_key()
                &&& !o.workdir_present
                &&& o.error is None
            },
            r is Err ==> r->Err_0 is InvalidInput,
    {
        if !crate::request::is_supported_url(request.source_url.as_str()) {
            return Err(
                DownloadError::InvalidInput(
                    String::from_str(
                        "Invalid YouTube URL. Please provide a valid YouTube video URL.",
                    ),
                ),
            );
        }
        let key = crate::request::progress_key(request.source_url.as_str());
        Ok(
            Orchestrator {
                request,
                key,
                phase: Phase::Initializing,
                error: None,
                workdir_present: false,
                title: String::from_str("Unknown"),
                artifact: None,
                estimator: EstimatorState::new(0, 1048576),
            },
        )
    }

    /// Take the locator's verdict.  An unavailable tool fails the job on
    /// the spot — no working directory exists yet and no process is ever
    /// spawned — and the stored error carries the locator's message.
    pub fn tool_located(&mut self, outcome: &Result<ExecutableRef, LocatorError>)
        requires
            old(self).wf(),
            old(self).phase == Phase::Initializing,
        ensures
            final(self).wf(),
            outcome is Ok ==> *final(self) == *old(self),
            outcome matches Err(LocatorError::Unavailable(t)) ==> (final(self).phase
                == Phase::Failed && (final(self).error matches Some(
                DownloadError::Unavailable(m),
            ) && m@ == t@) && !final(self).workdir_present),
    {
        match outcome {
            Ok(_) => (),
            Err(LocatorError::Unavailable(m)) => {
                self.error = Some(DownloadError::Unavailable(m.clone()));
                self.phase = Phase::Failed;
            },
        }
    }

    /// Take the outcome of creating the working directory.  Success writes
    /// the initial zero-progress record and moves to metadata resolution;
    /// failure is fatal on the spot, with nothing on disk to clean up.
    pub fn workdir_created(&mut self, store: &mut ProgressStore, created: bool)
        requires
            old(self).wf(),
            old(self).phase == Phase::Initializing,
        ensures
            final(self).wf(),
            final(self).key == old(self).key,
            created ==> {
                &&& final(self).phase == Phase::ResolvingMetadata
                &&& final(self).workdir_present
                &&& final(store)@ == old(store)@.insert(
                    old(self).key,
                    spec_record(0, 0, "Initializing download..."@),
                )
            },
            !created ==> {
                &&& final(self).phase == Phase::Failed
                &&& (final(self).error matches Some(e) && e is IoError)
                &&& !final(self).workdir_present
                &&& final(store)@ == old(store)@
            },
    {
        if created {
            self.workdir_present = true;
            store.write(self.key, record(0, 0, String::from_str("Initializing download...")));
            self.phase = Phase::ResolvingMetadata;
        } else {
            self.error = Some(
                DownloadError::IoError(String::from_str("Failed to create temp directory")),
            );
            self.phase = Phase::Failed;
        }
    }

    /// Take the metadata probe's result.  Metadata is an optimization,
    /// never a requirement: a missing or timed-out probe degrades to the
    /// placeholder title and a duration-based size estimate, and the job
    /// always moves on to configuration at ten percent.
    pub fn resolve_metadata(&mut self, store: &mut ProgressStore, meta: Option<MediaMetadata>)
        requires
            old(self).wf(),
            old(self).phase == Phase::ResolvingMetadata,
        ensures
            final(self).wf(),
            final(self).phase == Phase::Configuring,
            final(self).key == old(self).key,
            final(self).workdir_present == old(self).workdir_present,
            meta is Some ==> {
                let m = meta->Some_0;
                &&& (m.title is Some ==> final(self).title@ == m.title->Some_0@)
                &&& (m.title is None ==> final(self).title@ == "Unknown"@)
                &&& final(self).estimator.estimated_total == spec_adjusted_estimate(
                    seq_max_u64(m.format_filesizes@),
                    m.duration_seconds,
                    old(self).request.quality,
                )
            },
            meta is None ==> final(self).title@ == "Unknown"@
                && final(self).estimator.estimated_total == 1048576,
            final(self).estimator.published == 10,
            final(store)@ == old(store)@.insert(
                old(self).key,
                spec_record(10, 0, spec_starting_status(final(self).title@)),
            ),
    {
        match meta {
            Some(m) => {
                self.title = match m.title {
                    Some(t) => t,
                    None => String::from_str("Unknown"),
                };
                let size = best_filesize(&m.format_filesizes);
                let est = adjusted_estimate(size, m.duration_seconds, self.request.quality);
                self.estimator = EstimatorState::new(10, est);
            },
            None => {
                self.title = String::from_str("Unknown");
                self.estimator = EstimatorState::new(10, 1048576);
            },
        }
        store.write(self.key, record(10, 0, starting_status(self.title.as_str())));
        self.phase = Phase::Configuring;
    }

    /// Translate the request into the tool's configuration and hand it to
    /// the application to spawn the process; the job is now extracting.
    pub fn configure_extraction(&mut self, store: &mut ProgressStore) -> (cfg: ExtractionConfig)
        requires
            old(self).wf(),
            old(self).phase == Phase::Configuring,
        ensures
            final(self).wf(),
            cfg@ == spec_configure(old(self).request.kind, old(self).request.quality),
            final(self).phase == Phase::Extracting,
            final(self).key == old(self).key,
            final(self).workdir_present == old(self).workdir_present,
            final(self).estimator.published == spec_max(old(self).estimator.published, 15),
            final(store)@ == old(store)@.insert(
                old(self).key,
                spec_record(
                    spec_max(old(self).estimator.published, 15),
                    0,
                    spec_starting_status(old(self).title@),
                ),
            ),
    {
        let cfg = configure(self.request.kind, self.request.quality);
        self.estimator.raise_to(15);
        store.write(
            self.key,
            record(self.estimator.published, 0, starting_status(self.title.as_str())),
        );
        self.phase = Phase::Extracting;
        cfg
    }

    /// Fold one sampling tick into the estimate and publish it.  The
    /// published percentage never decreases.
    pub fn sample(&mut self, store: &mut ProgressStore, s: &TickSample)
        requires
            old(self).wf(),
            old(self).phase == Phase::Extracting,
        ensures
            final(self).wf(),
            final(self).phase == Phase::Extracting,
            final(self).key == old(self).key,
            final(self).workdir_present == old(self).workdir_present,
            final(self).estimator == spec_tick(old(self).estimator, *s),
            final(self).estimator.published >= old(self).estimator.published,
            final(store)@ == old(store)@.insert(
                old(self).key,
                spec_record(
                    next_published(old(self).estimator, *s),
                    next_eta(old(self).estimator, *s),
                    spec_render_status(
                        next_status(old(self).estimator, *s),
                        next_published(old(self).estimator, *s),
                        old(self).title@,
                    ),
                ),
            ),
    {
        let (percent, eta, code) = self.estimator.tick(s);
        let status = render_status(code, percent, self.title.as_str());
        store.write(self.key, record(percent, eta, status));
    }

    /// Take the extraction process's exit.  A clean exit moves on to
    /// locating the artifact; anything else fails the job with the
    /// captured diagnostic output, keeping the percentage where it was.
    pub fn extraction_finished(&mut self, store: &mut ProgressStore, outcome: Result<(), String>)
        requires
            old(self).wf(),
            old(self).phase == Phase::Extracting,
            old(self).workdir_present,
        ensures
            final(self).wf(),
            final(self).key == old(self).key,
            final(self).workdir_present,
            outcome is Ok ==> final(self).phase == Phase::Locating && final(store)@ == old(
                store,
            )@ && final(self).error == old(self).error,
            outcome is Err ==> {
                &&& final(self).phase == Phase::Cleanup
                &&& (final(self).error matches Some(e) && e matches DownloadError::ExtractionError(
                    m,
                ) && m@ == outcome->Err_0@)
                &&& final(store)@ == old(store)@.insert(
                    old(self).key,
                    spec_record(
                        old(self).estimator.published,
                        0,
                        spec_error_status(outcome->Err_0@),
                    ),
                )
            },
    {
        match outcome {
            Ok(()) => {
                self.phase = Phase::Locating;
            },
            Err(stderr) => {
                let mut status = String::from_str("Error: ");
                status.append(stderr.as_str());
                store.write(self.key, record(self.estimator.published, 0, status));
                self.error = Some(DownloadError::ExtractionError(stderr));
                self.phase = Phase::Cleanup;
            },
        }
    }

    /// Take the artifact finder's verdict on the working directory.
    pub fn artifact_located(
        &mut self,
        store: &mut ProgressStore,
        found: Result<ArtifactDescriptor, DownloadError>,
    )
        requires
            old(self).wf(),
            old(self).phase == Phase::Locating,
            found is Err ==> found->Err_0 is ArtifactNotFound,
        ensures
            final(self).wf(),
            final(self).key == old(self).key,
            final(self).workdir_present,
            found is Ok ==> {
                &&& final(self).phase == Phase::ReadingArtifact
                &&& final(self).artifact is Some
                &&& final(self).estimator.published == spec_max(old(self).estimator.published, 90)
                &&& final(store)@ == old(store)@.insert(
                    old(self).key,
                    spec_record(
                        spec_max(old(self).estimator.published, 90),
                        0,
                        "Download complete, preparing file..."@,
                    ),
                )
            },
            found is Err ==> {
                &&& final(self).phase == Phase::Cleanup
                &&& (final(self).error matches Some(e) && e is ArtifactNotFound)
                &&& final(store)@ == old(store)@.insert(
                    old(self).key,
                    spec_record(
                        old(self).estimator.published,
                        0,
                        spec_error_status("Failed to find downloaded file"@),
                    ),
                )
            },
    {
        match found {
            Ok(a) => {
                self.artifact = Some(a);
                self.estimator.raise_to(90);
                store.write(
                    self.key,
                    record(
                        self.estimator.published,
                        0,
                        String::from_str("Download complete, preparing file..."),
                    ),
                );
                self.phase = Phase::ReadingArtifact;
            },
            Err(e) => {
                let mut status = String::from_str("Error: ");
                status.append(e.message().as_str());
                store.write(self.key, record(self.estimator.published, 0, status));
                proof {
                    assert(found->Err_0.spec_message() == "Failed to find downloaded file"@);
                }
                self.error = Some(e);
                self.phase = Phase::Cleanup;
            },
        }
    }

    /// Take the outcome of reading the artifact's bytes into memory.
    pub fn artifact_read(&mut self, store: &mut ProgressStore, read_ok: bool)
        requires
            old(self).wf(),
            old(self).phase == Phase::ReadingArtifact,
            old(self).artifact is Some,
        ensures
            final(self).wf(),
            final(self).key == old(self).key,
            final(self).workdir_present,
            final(self).artifact == old(self).artifact,
            read_ok ==> {
                &&& final(self).phase == Phase::Persisting
                &&& final(self).estimator.published == spec_max(old(self).estimator.published, 95)
                &&& final(store)@ == old(store)@.insert(
                    old(self).key,
                    spec_record(
                        spec_max(old(self).estimator.published, 95),
                        0,
                        "Saving file to permanent location..."@,
                    ),
                )
            },
            !read_ok ==> {
                &&& final(self).phase == Phase::Cleanup
                &&& (final(self).error matches Some(e) && e is IoError)
            },
    {
        if read_ok {
            self.estimator.raise_to(95);
            store.write(
                self.key,
                record(
                    self.estimator.published,
                    0,
                    String::from_str("Saving file to permanent location..."),
                ),
            );
            self.phase = Phase::Persisting;
        } else {
            let mut status = String::from_str("Error: ");
            status.append("Failed to read downloaded file");
            store.write(self.key, record(self.estimator.published, 0, status));
            self.error = Some(
                DownloadError::IoError(String::from_str("Failed to read downloaded file")),
            );
            self.phase = Phase::Cleanup;
        }
    }

    /// Take the outcome of the history write and the filesystem exports.
    /// Persistence failures are logged by the application and never fail
    /// the download: the job heads to cleanup either way.
    pub fn persisted(&mut self, store: &mut ProgressStore, persist_ok: bool)
        requires
            old(self).wf(),
            old(self).phase == Phase::Persisting,
            old(self).artifact is Some,
        ensures
            final(self).wf(),
            final(self).key == old(self).key,
            final(self).workdir_present,
            final(self).phase == Phase::Cleanup,
            final(self).error is None ==> final(self).artifact is Some,
            final(self).error == old(self).error,
            final(self).estimator.published == spec_max(old(self).estimator.published, 99),
            final(store)@ == old(store)@.insert(
                old(self).key,
                spec_record(spec_max(old(self).estimator.published, 99), 0, "Finalizing..."@),
            ),
    {
        let _ = persist_ok;
        self.estimator.raise_to(99);
        store.write(
            self.key,
            record(self.estimator.published, 0, String::from_str("Finalizing...")),
        );
        self.phase = Phase::Cleanup;
    }

    /// The application has removed the working directory; close the job
    /// out.  On the success path the store reads a full 100/100 with the
    /// completion message, so the next poll observes it before the entry
    /// is released; on the failure path the record already carries the
    /// error and stays untouched.
    pub fn cleanup_done(&mut self, store: &mut ProgressStore)
        requires
            old(self).wf(),
            old(self).phase == Phase::Cleanup,
        ensures
            final(self).wf(),
            final(self).key == old(self).key,
            final(self).phase.is_terminal(),
            !final(self).workdir_present,
            old(self).error is None ==> {
                &&& final(self).phase == Phase::Done
                &&& final(store)@ == old(store)@.insert(old(self).key, spec_complete_record())
                &&& final(store)@[old(self).key] == spec_complete_record()
            },
            old(self).error is Some ==> final(self).phase == Phase::Failed && final(self).error
                == old(self).error && final(store)@ == old(store)@,
    {
        self.workdir_present = false;
        if self.error.is_none() {
            store.write(self.key, record(100, 0, String::from_str("Download complete!")));
            self.phase = Phase::Done;
        } else {
            self.phase = Phase::Failed;
        }
    }

    /// Abandon the job: the application kills the child process; the job
    /// records the cancellation and heads to cleanup — or straight to
    /// `Failed` when no working directory was ever created.
    pub fn cancel(&mut self)
        requires
            old(self).wf(),
            !old(self).phase.is_terminal(),
            old(self).phase != Phase::Cleanup,
        ensures
            final(self).wf(),
            final(self).key == old(self).key,
            final(self).error matches Some(e) && e is Cancelled,
            old(self).workdir_present ==> final(self).phase == Phase::Cleanup,
            !old(self).workdir_present ==> final(self).phase == Phase::Failed,
    {
        self.error = Some(DownloadError::Cancelled);
        if self.workdir_present {
            self.phase = Phase::Cleanup;
        } else {
            self.phase = Phase::Failed;
        }
    }

    /// Release the job's progress entry after the grace period.
    pub fn release(&self, store: &mut ProgressStore)
        requires
            self.wf(),
            self.phase.is_terminal(),
        ensures
            final(store)@ == old(store)@.remove(self.key),
    {
        store.remove(self.key);
    }
}

/// Cleanup invariant: in any terminal state the job's working directory
/// no longer exists.
pub proof fn lemma_terminal_workdir_gone(o: Orchestrator)
    requires
        o.wf(),
        o.phase.is_terminal(),
    ensures
        !o.workdir_present,
{
}

/// Terminal convergence: once a job is done, a poll of its key reads a
/// full 100 of 100 with the completion message, until the entry is
/// released.
pub proof fn lemma_done_poll(m: Map<u64, ProgressV>, url: Seq<char>)
    requires
        m.contains_key(url.len() as u64),
        m[url.len() as u64] == spec_complete_record(),
    ensures
        crate::store::spec_get_progress(m, url.len() as u64) == (
            100u64,
            100u64,
            0u64,
            "Download complete!"@,
        ),
{
}

} // verus!

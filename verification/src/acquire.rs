//! The download/cache manager. Each release is acquired by a small state
//! machine that decides, step by step, whether the cached archive can be
//! reused, must be removed and re-downloaded, or a fresh download must be
//! verified and stored; a scheduler bounds how many acquisitions are in
//! flight at once. The outside world (file probes, HTTP, disk writes) is
//! driven by the caller, which performs the pending [`AcquireAction`] and
//! feeds the observed [`AcquireEvent`] back into [`Acquisition::step`].

use vstd::prelude::*;
use vstd::string::StringExecFns;

use crate::archive::tar_gz_well_formed;
use crate::archive::verify_archive;
use crate::error::Error;
use crate::kernels::CachedKernel;
use crate::kernels::KernelRelease;

verus! {

/// The outcome of one HTTP fetch that produced a response.
#[derive(Debug)]
pub struct FetchResponse {
    /// Whether the response carries a success status.
    pub success: bool,
    /// The rendered status line, kept for diagnostics.
    pub status: String,
    /// The full response body, buffered in memory.
    pub body: Vec<u8>,
}

/// Where one release stands in its acquisition. Every non-terminal state
/// names the one outside operation it waits for.
#[derive(Debug)]
pub enum AcquireState {
    /// Waiting to learn whether the canonical cache file exists.
    CheckCache,
    /// The file exists and verification was requested: waiting for its bytes.
    VerifyCache,
    /// The cached file failed verification: waiting for its deletion.
    RemoveCache,
    /// No valid cached file: waiting for the derived URL to be fetched.
    Fetch,
    /// A fresh download passed verification: waiting for it to be written
    /// and synced at the canonical cache path.
    Store { bytes: Vec<u8> },
    /// The release is acquired: a valid archive lies at the cache path.
    Done,
    /// Acquisition of this release failed, which aborts the whole batch.
    Failed { error: Error },
}

/// One outside observation, answering the pending request of a state.
#[derive(Debug)]
pub enum AcquireEvent {
    /// Whether the cache file exists; answers [`AcquireState::CheckCache`].
    CacheChecked(bool),
    /// The cached file's bytes, or the reason they could not be read;
    /// answers [`AcquireState::VerifyCache`].
    CacheLoaded(Result<Vec<u8>, String>),
    /// Whether deleting the cached file succeeded; answers
    /// [`AcquireState::RemoveCache`].
    CacheRemoved(Result<(), String>),
    /// The response, or the reason none came; answers
    /// [`AcquireState::Fetch`].
    Fetched(Result<FetchResponse, String>),
    /// Whether writing and syncing succeeded; answers
    /// [`AcquireState::Store`].
    Stored(Result<(), String>),
}

/// Whether `ev` is the kind of observation the state is waiting for.
pub open spec fn answers(state: AcquireState, ev: AcquireEvent) -> bool {
    match state {
        AcquireState::CheckCache => ev is CacheChecked,
        AcquireState::VerifyCache => ev is CacheLoaded,
        AcquireState::RemoveCache => ev is CacheRemoved,
        AcquireState::Fetch => ev is Fetched,
        AcquireState::Store { .. } => ev is Stored,
        AcquireState::Done => false,
        AcquireState::Failed { .. } => false,
    }
}

/// The mathematical image of an [`AcquireState`]: byte and character
/// payloads are taken as sequences.
pub enum StateModel {
    CheckCache,
    VerifyCache,
    RemoveCache,
    Fetch,
    Store { bytes: Seq<u8> },
    Done,
    Failed { message: Seq<char> },
}

impl AcquireState {
    /// The mathematical image of this state.
    pub open spec fn model(self) -> StateModel {
        match self {
            AcquireState::CheckCache => StateModel::CheckCache,
            AcquireState::VerifyCache => StateModel::VerifyCache,
            AcquireState::RemoveCache => StateModel::RemoveCache,
            AcquireState::Fetch => StateModel::Fetch,
            AcquireState::Store { bytes } => StateModel::Store { bytes: bytes@ },
            AcquireState::Done => StateModel::Done,
            AcquireState::Failed { error } => StateModel::Failed {
                message: error.spec_payload(),
            },
        }
    }
}

/// The cache path under `dir` of the release with the given version
/// identifier: `{dir}/linux-{version}.tar.gz`, for every release alike.
pub open spec fn spec_cache_path(dir: Seq<char>, version: Seq<char>) -> Seq<char> {
    dir + "/"@ + "linux-"@ + version + ".tar.gz"@
}

/// The acquisition of one release: the release, the canonical cache path
/// and download URL derived from it, whether an existing cache file must
/// be re-verified, and the current state.
#[derive(Debug)]
pub struct Acquisition {
    /// The catalog entry being acquired.
    pub release: KernelRelease,
    /// The canonical cache file path of this release.
    pub cache_path: String,
    /// The derived download URL of this release.
    pub url: String,
    /// Whether an existing cache file is verified before being trusted.
    pub verify: bool,
    /// Where the acquisition stands.
    pub state: AcquireState,
}

impl Acquisition {
    /// Bytes are only ever queued for storing after they passed archive
    /// verification: the cache never receives a known-bad file.
    pub open spec fn wf(self) -> bool {
        match self.state {
            AcquireState::Store { bytes } => tar_gz_well_formed(bytes@),
            _ => true,
        }
    }

    /// The transition relation: the state that answering the pending
    /// request with `ev` leads to.
    pub open spec fn spec_step(self, ev: AcquireEvent) -> StateModel {
        match ev {
            AcquireEvent::CacheChecked(exists) => if !exists {
                StateModel::Fetch
            } else if self.verify {
                StateModel::VerifyCache
            } else {
                StateModel::Done
            },
            AcquireEvent::CacheLoaded(res) => match res {
                Ok(bytes) => if tar_gz_well_formed(bytes@) {
                    StateModel::Done
                } else {
                    StateModel::RemoveCache
                },
                Err(_) => StateModel::RemoveCache,
            },
            AcquireEvent::CacheRemoved(res) => match res {
                Ok(_) => StateModel::Fetch,
                Err(m) => StateModel::Failed {
                    message: "failed to remove: "@ + self.cache_path@ + ": "@ + m@,
                },
            },
            AcquireEvent::Fetched(res) => match res {
                Ok(resp) => if !resp.success {
                    StateModel::Failed {
                        message: "failed to download: "@ + self.url@ + ": "@ + resp.status@,
                    }
                } else if tar_gz_well_formed(resp.body@) {
                    StateModel::Store { bytes: resp.body@ }
                } else {
                    StateModel::Failed {
                        message: "test on downloaded archive failed: "@ + self.cache_path@,
                    }
                },
                Err(m) => StateModel::Failed {
                    message: "failed to get url: "@ + self.url@ + ": "@ + m@,
                },
            },
            AcquireEvent::Stored(res) => match res {
                Ok(_) => StateModel::Done,
                Err(m) => StateModel::Failed {
                    message: "failed to write file: "@ + self.cache_path@ + ": "@ + m@,
                },
            },
        }
    }

    /// Begin acquiring `release` under `cache_dir`.
    pub fn new(release: KernelRelease, cache_dir: &str, verify: bool) -> (a: Acquisition)
        ensures
            a.release == release,
            a.verify == verify,
            a.state is CheckCache,
            a.cache_path@ == spec_cache_path(cache_dir@, release.version@),
            a.url@ == release.spec_url(),
            a.wf(),
    {
        let mut path = String::from_str(cache_dir);
        path.append("/");
        path.append("linux-");
        path.append(release.version.as_str());
        path.append(".tar.gz");
        let url = match release.tar_gz_url() {
            Ok(u) => u,
            Err(_) => unreached(),
        };
        Acquisition { release, cache_path: path, url, verify, state: AcquireState::CheckCache }
    }

    /// The outside operation the acquisition waits for, or
    /// [`AcquireAction::Settled`] once it is done or failed.
    pub fn action(&self) -> (a: AcquireAction)
        ensures
            self.state is CheckCache ==> (a matches AcquireAction::StatFile { path } && path@
                == self.cache_path@),
            self.state is VerifyCache ==> (a matches AcquireAction::ReadFile { path } && path@
                == self.cache_path@),
            self.state is RemoveCache ==> (a matches AcquireAction::RemoveFile { path } && path@
                == self.cache_path@),
            self.state is Fetch ==> (a matches AcquireAction::HttpGet { url } && url@
                == self.url@),
            self.state matches AcquireState::Store { bytes: queued } ==> (a
                matches AcquireAction::WriteFile { path, bytes } && path@ == self.cache_path@
                && bytes@ == queued@),
            self.state is Done || self.state is Failed ==> a is Settled,
    {
        match &self.state {
            AcquireState::CheckCache => AcquireAction::StatFile { path: self.cache_path.clone() },
            AcquireState::VerifyCache => AcquireAction::ReadFile { path: self.cache_path.clone() },
            AcquireState::RemoveCache => AcquireAction::RemoveFile {
                path: self.cache_path.clone(),
            },
            AcquireState::Fetch => AcquireAction::HttpGet { url: self.url.clone() },
            AcquireState::Store { bytes } => AcquireAction::WriteFile {
                path: self.cache_path.clone(),
                bytes: clone_bytes(bytes),
            },
            AcquireState::Done => AcquireAction::Settled,
            AcquireState::Failed { .. } => AcquireAction::Settled,
        }
    }

    /// Answer the pending request with what the outside world observed.
    pub fn step(&mut self, ev: AcquireEvent)
        requires
            answers(old(self).state, ev),
        ensures
            final(self).release == old(self).release,
            final(self).cache_path == old(self).cache_path,
            final(self).url == old(self).url,
            final(self).verify == old(self).verify,
            final(self).state.model() == old(self).spec_step(ev),
            final(self).state matches AcquireState::Failed { error } ==> error is Custom,
            final(self).wf(),
    {
        let state = match ev {
            AcquireEvent::CacheChecked(exists) => {
                if !exists {
                    AcquireState::Fetch
                } else if self.verify {
                    AcquireState::VerifyCache
                } else {
                    AcquireState::Done
                }
            },
            AcquireEvent::CacheLoaded(res) => match res {
                Ok(bytes) => match verify_archive(bytes.as_slice()) {
                    Ok(()) => AcquireState::Done,
                    Err(_) => AcquireState::RemoveCache,
                },
                Err(_) => AcquireState::RemoveCache,
            },
            AcquireEvent::CacheRemoved(res) => match res {
                Ok(()) => AcquireState::Fetch,
                Err(m) => {
                    let mut msg = String::from_str("failed to remove: ");
                    msg.append(self.cache_path.as_str());
                    msg.append(": ");
                    msg.append(m.as_str());
                    AcquireState::Failed { error: Error::Custom(msg) }
                },
            },
            AcquireEvent::Fetched(res) => match res {
                Ok(resp) => {
                    if !resp.success {
                        let mut msg = String::from_str("failed to download: ");
                        msg.append(self.url.as_str());
                        msg.append(": ");
                        msg.append(resp.status.as_str());
                        AcquireState::Failed { error: Error::Custom(msg) }
                    } else {
                        match verify_archive(resp.body.as_slice()) {
                            Ok(()) => AcquireState::Store { bytes: resp.body },
                            Err(_) => {
                                let mut msg = String::from_str(
                                    "test on downloaded archive failed: ",
                                );
                                msg.append(self.cache_path.as_str());
                                AcquireState::Failed { error: Error::Custom(msg) }
                            },
                        }
                    }
                },
                Err(m) => {
                    let mut msg = String::from_str("failed to get url: ");
                    msg.append(self.url.as_str());
                    msg.append(": ");
                    msg.append(m.as_str());
                    AcquireState::Failed { error: Error::Custom(msg) }
                },
            },
            AcquireEvent::Stored(res) => match res {
                Ok(()) => AcquireState::Done,
                Err(m) => {
                    let mut msg = String::from_str("failed to write file: ");
                    msg.append(self.cache_path.as_str());
                    msg.append(": ");
                    msg.append(m.as_str());
                    AcquireState::Failed { error: Error::Custom(msg) }
                },
            },
        };
        self.state = state;
    }

    /// The cached archive this acquisition produced.
    pub fn result(&self) -> (r: CachedKernel)
        requires
            self.state is Done,
        ensures
            r.version == self.release,
            r.path == self.cache_path,
    {
        CachedKernel { version: self.release.clone(), path: self.cache_path.clone() }
    }
}

/// The one outside operation an acquisition waits for.
#[derive(Debug)]
pub enum AcquireAction {
    /// Report whether a file exists at `path`.
    StatFile { path: String },
    /// Read the whole file at `path`.
    ReadFile { path: String },
    /// Delete the file at `path`.
    RemoveFile { path: String },
    /// Fetch `url` and buffer the whole response body.
    HttpGet { url: String },
    /// Write `bytes` to `path` and sync, as one step.
    WriteFile { path: String, bytes: Vec<u8> },
    /// Nothing: the acquisition is done or failed.
    Settled,
}

/// An exact copy of a byte buffer.
fn clone_bytes(v: &Vec<u8>) -> (r: Vec<u8>)
    ensures
        r@ == v@,
{
    let r = v.clone();
    proof {
        assert(r@ =~= v@);
    }
    r
}

/// Idempotence against a warm, valid cache: when the canonical cache file
/// exists and holds a well-formed archive, the acquisition is accepted as
/// cached — with verification off after one step, with verification on
/// after re-checking the bytes — and no fetch is ever requested. A second
/// run over a cache the first run left valid therefore performs zero
/// network requests.
pub proof fn lemma_warm_cache_no_fetch(a: Acquisition, bytes: Vec<u8>)
    requires
        a.state is CheckCache,
        tar_gz_well_formed(bytes@),
    ensures
        ({
            let first = a.spec_step(AcquireEvent::CacheChecked(true));
            &&& !(first is Fetch)
            &&& !a.verify ==> first is Done
            &&& a.verify ==> first is VerifyCache
        }),
        ({
            let warm = Acquisition { state: AcquireState::VerifyCache, ..a };
            let second = warm.spec_step(AcquireEvent::CacheLoaded(Ok(bytes)));
            second is Done
        }),
{
}

/// Self-healing: with verification requested, a cached file whose bytes
/// fail archive verification is removed and the release re-downloaded;
/// a response that passes verification is stored and the acquisition
/// completes, so the final file passed verification.
pub proof fn lemma_self_healing(a: Acquisition, bad: Vec<u8>, resp: FetchResponse)
    requires
        a.state is CheckCache,
        a.verify,
        !tar_gz_well_formed(bad@),
        resp.success,
        tar_gz_well_formed(resp.body@),
    ensures
        a.spec_step(AcquireEvent::CacheChecked(true)) is VerifyCache,
        a.spec_step(AcquireEvent::CacheLoaded(Ok(bad))) is RemoveCache,
        a.spec_step(AcquireEvent::CacheRemoved(Ok(()))) is Fetch,
        ({
            let fetched = a.spec_step(AcquireEvent::Fetched(Ok(resp)));
            fetched matches StateModel::Store { bytes } && bytes == resp.body@
        }),
        a.spec_step(AcquireEvent::Stored(Ok(()))) is Done,
{
}

/// The cache never receives a known-bad file: whatever the event, a store
/// is only ever requested for bytes that passed archive verification, and
/// a fresh download that fails verification fails the acquisition.
pub proof fn lemma_store_only_verified(a: Acquisition, ev: AcquireEvent)
    ensures
        a.spec_step(ev) matches StateModel::Store { bytes } ==> tar_gz_well_formed(bytes),
{
}

/// Bounded-concurrency schedule for a batch of acquisitions: releases are
/// handed out by a monotonically increasing index, and never more than
/// `parallelism` of them are in flight at once.
#[derive(Debug)]
pub struct Scheduler {
    /// How many releases the batch holds.
    pub total: usize,
    /// The bound on simultaneous acquisitions; at least 1.
    pub parallelism: usize,
    /// How many releases have been handed out so far.
    pub started: usize,
    /// How many handed-out releases have finished.
    pub completed: usize,
}

impl Scheduler {
    /// How many acquisitions are in flight.
    pub open spec fn in_flight(self) -> int {
        self.started - self.completed
    }

    /// The schedule's invariant: nothing completes before it starts,
    /// nothing starts beyond the batch, and the in-flight count never
    /// exceeds the bound.
    pub open spec fn wf(self) -> bool {
        &&& self.parallelism >= 1
        &&& self.completed <= self.started <= self.total
        &&& self.started - self.completed <= self.parallelism
    }

    /// A fresh schedule for `total` releases, at most `parallelism` of
    /// them in flight at once.
    pub fn new(total: usize, parallelism: usize) -> (s: Scheduler)
        requires
            parallelism >= 1,
        ensures
            s.wf(),
            s.total == total,
            s.parallelism == parallelism,
            s.started == 0,
            s.completed == 0,
    {
        Scheduler { total, parallelism, started: 0, completed: 0 }
    }

    /// Whether another acquisition may start now: releases remain and a
    /// slot is free.
    pub fn can_start(&self) -> (r: bool)
        requires
            self.wf(),
        ensures
            r == (self.started < self.total && self.in_flight() < self.parallelism),
    {
        self.started < self.total && self.started - self.completed < self.parallelism
    }

    /// Hand out the next release; the returned index is the progress
    /// index, increasing monotonically and distinct from completion order.
    pub fn start(&mut self) -> (index: usize)
        requires
            old(self).wf(),
            old(self).started < old(self).total,
            old(self).in_flight() < old(self).parallelism,
        ensures
            final(self).wf(),
            index == old(self).started,
            final(self).started == old(self).started + 1,
            final(self).completed == old(self).completed,
            final(self).total == old(self).total,
            final(self).parallelism == old(self).parallelism,
            final(self).in_flight() == old(self).in_flight() + 1,
    {
        let index = self.started;
        self.started = self.started + 1;
        index
    }

    /// Record that one in-flight acquisition finished.
    pub fn complete(&mut self)
        requires
            old(self).wf(),
            old(self).in_flight() > 0,
        ensures
            final(self).wf(),
            final(self).started == old(self).started,
            final(self).completed == old(self).completed + 1,
            final(self).total == old(self).total,
            final(self).parallelism == old(self).parallelism,
            final(self).in_flight() == old(self).in_flight() - 1,
    {
        self.completed = self.completed + 1;
    }

    /// Whether nothing is in flight.
    pub fn idle(&self) -> (r: bool)
        ensures
            r == (self.in_flight() == 0),
    {
        self.started == self.completed
    }

    /// Whether every release of the batch has finished.
    pub fn finished(&self) -> (r: bool)
        ensures
            r == (self.completed == self.total),
    {
        self.completed == self.total
    }
}

/// Concurrency bound: at no point does a well-formed schedule have more
/// than `parallelism` acquisitions in flight.
pub proof fn lemma_concurrency_bound(s: Scheduler)
    requires
        s.wf(),
    ensures
        s.in_flight() <= s.parallelism,
{
}

} // verus!

//! The provisioning pipeline: "ensure version V is ready", as a state
//! machine. The decisions are all here and verified; the driving layer
//! performs the announced action (a cache lookup, a catalog query, a fetch,
//! a file read, a rename, a delete) and reports what happened, then the
//! machine takes the next step.
//!
//! The stages follow the acquisition order: a cache hit ends in `Done` at
//! once; a miss goes through the catalog (`VersionNotOffered` aborts before
//! any download), the download, the published checksums, and verification;
//! only a verified artifact reaches `Verified`, the one stage allowed to
//! commit into the cache. Every failure is terminal: retry is the caller's
//! decision, taken by running a whole fresh pipeline.

use vstd::prelude::*;
use crate::ProvisioningError;
use crate::cache::CacheEntry;
use crate::cache::CacheStore;
use crate::catalog::parse_checksums_spec;
use crate::catalog::parse_versions_spec;
use crate::integrity::some_checksum_matches;
use crate::naming::artifact_name;
use crate::naming::staging_name;
use crate::naming::staging_name_spec;

verus! {

/// Where one acquisition run stands.
#[derive(Clone, Copy, Debug, PartialEq, Eq, Structural)]
pub enum Stage {
    /// Asking the cache whether the version is already committed.
    CheckingCache,
    /// Asking the catalog which versions are offered.
    CheckingCatalog,
    /// Fetching the artifact into its staging name.
    Downloading,
    /// Artifact staged; asking the catalog for the published checksums.
    FetchingChecksums,
    /// Checksums known; the staged bytes await their digest.
    Verifying,
    /// The digest matched a published checksum; commit is now permitted.
    Verified,
    /// Terminal success: the artifact is committed.
    Done,
    /// Terminal failure, with the stage's typed error.
    Failed(ProvisioningError),
}

/// What the driving layer must do next for a given stage.
#[derive(Clone, Copy, Debug, PartialEq, Eq, Structural)]
pub enum PipelineAction {
    /// Look the version up in the cache root.
    CheckCache,
    /// Query the catalog's list of available versions.
    QueryCatalog,
    /// Fetch the artifact into the staging name.
    FetchArtifact,
    /// Query the catalog's published checksums for the version.
    FetchChecksums,
    /// Read the staged artifact's bytes for verification.
    ReadStaged,
    /// Rename the staged artifact onto its committed name.
    CommitArtifact,
    /// Delete the staged bytes; the run has failed.
    DiscardStaging,
    /// Nothing is left to do.
    Stop,
}

/// How one fetch attempt ended.
#[derive(Clone, Copy, Debug, PartialEq, Eq, Structural)]
pub enum DownloadOutcome {
    /// The whole resource reached the staging path, byte for byte.
    Delivered,
    /// A transport error; the downloader has deleted its partial file.
    TransportFailed,
    /// The configured timeout passed; the partial file is deleted too.
    TimedOut,
}

/// One fetch attempt, for the driving layer's bookkeeping. Ephemeral: it
/// exists only for the duration of the attempt and is never persisted.
pub struct DownloadJob {
    pub url: Vec<u8>,
    pub destination: Vec<u8>,
    pub bytes_observed: u64,
    pub outcome: DownloadOutcome,
}

/// The mathematical state of a run: everything the next decision depends
/// on.
#[verifier::ext_equal]
pub struct PipelineModel {
    pub version: u64,
    pub stage: Stage,
    pub checksums: Seq<Seq<u8>>,
    pub staged: bool,
}

/// What the driving layer reports back after performing an action. A `None`
/// body or result stands for the I/O failing outright.
pub enum PipelineEvent {
    CacheChecked(Option<bool>),
    CatalogResponse(Option<Seq<u8>>),
    DownloadFinished(DownloadOutcome),
    ChecksumsResponse(Option<Seq<u8>>),
    StagedRead(Option<Seq<u8>>),
    CommitPerformed,
    StagingDiscarded,
}

/// The state a fresh run starts in.
pub open spec fn fresh_model(version: u64) -> PipelineModel {
    PipelineModel { version, stage: Stage::CheckingCache, checksums: seq![], staged: false }
}

/// The transition relation: one reported event against one stage. An event
/// that does not belong to the current stage changes nothing.
pub open spec fn step_spec(m: PipelineModel, e: PipelineEvent) -> PipelineModel {
    match (m.stage, e) {
        (Stage::CheckingCache, PipelineEvent::CacheChecked(res)) => match res {
            Option::None => PipelineModel {
                stage: Stage::Failed(ProvisioningError::IOUnavailable),
                ..m
            },
            Option::Some(true) => PipelineModel { stage: Stage::Done, ..m },
            Option::Some(false) => PipelineModel { stage: Stage::CheckingCatalog, ..m },
        },
        (Stage::CheckingCatalog, PipelineEvent::CatalogResponse(res)) => match res {
            Option::None => PipelineModel {
                stage: Stage::Failed(ProvisioningError::CatalogUnreachable),
                ..m
            },
            Option::Some(body) => match parse_versions_spec(body) {
                Option::None => PipelineModel {
                    stage: Stage::Failed(ProvisioningError::CatalogMalformed),
                    ..m
                },
                Option::Some(vs) => if vs.contains(m.version) {
                    PipelineModel { stage: Stage::Downloading, ..m }
                } else {
                    PipelineModel { stage: Stage::Failed(ProvisioningError::VersionNotOffered), ..m }
                },
            },
        },
        (Stage::Downloading, PipelineEvent::DownloadFinished(out)) => match out {
            DownloadOutcome::Delivered => PipelineModel {
                stage: Stage::FetchingChecksums,
                staged: true,
                ..m
            },
            DownloadOutcome::TransportFailed => PipelineModel {
                stage: Stage::Failed(ProvisioningError::DownloadFailed),
                staged: false,
                ..m
            },
            DownloadOutcome::TimedOut => PipelineModel {
                stage: Stage::Failed(ProvisioningError::DownloadTimedOut),
                staged: false,
                ..m
            },
        },
        (Stage::FetchingChecksums, PipelineEvent::ChecksumsResponse(res)) => match res {
            Option::None => PipelineModel {
                stage: Stage::Failed(ProvisioningError::CatalogUnreachable),
                ..m
            },
            Option::Some(body) => match parse_checksums_spec(body) {
                Option::None => PipelineModel {
                    stage: Stage::Failed(ProvisioningError::CatalogMalformed),
                    ..m
                },
                Option::Some(cs) => PipelineModel {
                    stage: Stage::Verifying,
                    checksums: cs,
                    ..m
                },
            },
        },
        (Stage::Verifying, PipelineEvent::StagedRead(res)) => match res {
            Option::None => PipelineModel {
                stage: Stage::Failed(ProvisioningError::IOUnavailable),
                ..m
            },
            Option::Some(content) => if some_checksum_matches(content, m.checksums) {
                PipelineModel { stage: Stage::Verified, ..m }
            } else {
                PipelineModel { stage: Stage::Failed(ProvisioningError::ChecksumMismatch), ..m }
            },
        },
        (Stage::Verified, PipelineEvent::CommitPerformed) => PipelineModel {
            stage: Stage::Done,
            staged: false,
            ..m
        },
        (Stage::Failed(_), PipelineEvent::StagingDiscarded) => PipelineModel {
            staged: false,
            ..m
        },
        _ => m,
    }
}

/// The action a stage asks of the driving layer. A failed run with staged
/// bytes asks for their discard before anything else: no terminal failure
/// returns control with a partial artifact still in place.
pub open spec fn action_of(m: PipelineModel) -> PipelineAction {
    match m.stage {
        Stage::CheckingCache => PipelineAction::CheckCache,
        Stage::CheckingCatalog => PipelineAction::QueryCatalog,
        Stage::Downloading => PipelineAction::FetchArtifact,
        Stage::FetchingChecksums => PipelineAction::FetchChecksums,
        Stage::Verifying => PipelineAction::ReadStaged,
        Stage::Verified => PipelineAction::CommitArtifact,
        Stage::Done => PipelineAction::Stop,
        Stage::Failed(_) => if m.staged {
            PipelineAction::DiscardStaging
        } else {
            PipelineAction::Stop
        },
    }
}

/// A whole run: the model folded over a sequence of reported events.
pub open spec fn run_spec(m: PipelineModel, events: Seq<PipelineEvent>) -> PipelineModel
    decreases events.len(),
{
    if events.len() == 0 {
        m
    } else {
        run_spec(step_spec(m, events[0]), events.drop_first())
    }
}

/// How often a run asks the driving layer for a given action: one count per
/// step whose pre-state announces it.
pub open spec fn count_actions(
    m: PipelineModel,
    events: Seq<PipelineEvent>,
    a: PipelineAction,
) -> nat
    decreases events.len(),
{
    if events.len() == 0 {
        0
    } else {
        (if action_of(m) == a {
            1nat
        } else {
            0nat
        }) + count_actions(step_spec(m, events[0]), events.drop_first(), a)
    }
}

/// A stage from which nothing moves.
pub open spec fn is_terminal(m: PipelineModel) -> bool {
    m.stage == Stage::Done || m.stage matches Stage::Failed(_)
}

/// A terminal run is inert: whatever is still reported, the stage never
/// changes, and the machine never again asks for a catalog query, a
/// download, a checksum fetch or a commit.
pub proof fn lemma_terminal_absorbs(m: PipelineModel, events: Seq<PipelineEvent>)
    requires
        is_terminal(m),
    ensures
        run_spec(m, events).stage == m.stage,
        count_actions(m, events, PipelineAction::QueryCatalog) == 0,
        count_actions(m, events, PipelineAction::FetchArtifact) == 0,
        count_actions(m, events, PipelineAction::FetchChecksums) == 0,
        count_actions(m, events, PipelineAction::CommitArtifact) == 0,
    decreases events.len(),
{
    if events.len() > 0 {
        let m1 = step_spec(m, events[0]);
        assert(m1.stage == m.stage);
        lemma_terminal_absorbs(m1, events.drop_first());
    }
}

/// Cache hit short-circuit: when the cache already holds the version, the
/// run is `Done` after the one cache answer, and no event sequence after it
/// makes the machine ask for a catalog query, a download, a checksum fetch
/// or a commit.
pub proof fn lemma_cache_hit_short_circuit(version: u64, rest: Seq<PipelineEvent>)
    ensures
        ({
            let m1 = step_spec(fresh_model(version), PipelineEvent::CacheChecked(Some(true)));
            &&& m1.stage == Stage::Done
            &&& run_spec(m1, rest).stage == Stage::Done
            &&& count_actions(m1, rest, PipelineAction::QueryCatalog) == 0
            &&& count_actions(m1, rest, PipelineAction::FetchArtifact) == 0
            &&& count_actions(m1, rest, PipelineAction::FetchChecksums) == 0
            &&& count_actions(m1, rest, PipelineAction::CommitArtifact) == 0
        }),
{
    let m1 = step_spec(fresh_model(version), PipelineEvent::CacheChecked(Some(true)));
    lemma_terminal_absorbs(m1, rest);
}

/// Idempotence of `ensure`: once a run has committed a version, the cache
/// answers the next run's lookup with a hit (`CacheStore::has_version` is
/// exact), so a second run for the same version ends `Done` after its cache
/// check alone: no second download, no catalog query, no second commit. Both
/// runs' entries are the deterministic one for the version, so they are the
/// same entry.
pub proof fn lemma_second_run_idempotent(version: u64, cache: Set<u64>, rest: Seq<PipelineEvent>)
    requires
        cache.contains(version),
    ensures
        cache.insert(version) == cache,
        ({
            let m1 = step_spec(fresh_model(version), PipelineEvent::CacheChecked(Some(true)));
            &&& run_spec(m1, rest).stage == Stage::Done
            &&& count_actions(m1, rest, PipelineAction::FetchArtifact) == 0
            &&& count_actions(m1, rest, PipelineAction::QueryCatalog) == 0
            &&& count_actions(m1, rest, PipelineAction::CommitArtifact) == 0
        }),
{
    assert(cache.insert(version) =~= cache);
    lemma_cache_hit_short_circuit(version, rest);
}

/// Unavailable version: when the catalog's versions document does not offer
/// the requested version, the run fails with `VersionNotOffered` right
/// after the catalog answer, and the whole run — the cache miss, the
/// catalog answer, and anything reported after — never asks for a download.
pub proof fn lemma_unavailable_version_no_download(
    version: u64,
    body: Seq<u8>,
    rest: Seq<PipelineEvent>,
)
    requires
        parse_versions_spec(body) matches Option::Some(vs) && !vs.contains(version),
    ensures
        ({
            let events = seq![
                PipelineEvent::CacheChecked(Some(false)),
                PipelineEvent::CatalogResponse(Some(body)),
            ] + rest;
            &&& run_spec(fresh_model(version), events).stage == Stage::Failed(
                ProvisioningError::VersionNotOffered,
            )
            &&& count_actions(fresh_model(version), events, PipelineAction::FetchArtifact) == 0
        }),
{
    let e0 = PipelineEvent::CacheChecked(Some(false));
    let e1 = PipelineEvent::CatalogResponse(Some(body));
    let events = seq![e0, e1] + rest;
    let m0 = fresh_model(version);
    let m1 = step_spec(m0, e0);
    let m2 = step_spec(m1, e1);
    assert(events[0] == e0);
    assert(events.drop_first() =~= seq![e1] + rest);
    assert((seq![e1] + rest)[0] == e1);
    assert((seq![e1] + rest).drop_first() =~= rest);
    assert(m1.stage == Stage::CheckingCatalog);
    assert(m2.stage == Stage::Failed(ProvisioningError::VersionNotOffered));
    lemma_terminal_absorbs(m2, rest);
    assert(events.len() == 2 + rest.len());
    assert(run_spec(m0, events) == run_spec(m1, events.drop_first()));
    assert(run_spec(m1, events.drop_first()) == run_spec(m2, rest));
    assert(action_of(m0) == PipelineAction::CheckCache);
    assert(action_of(m1) == PipelineAction::QueryCatalog);
    assert(count_actions(m0, events, PipelineAction::FetchArtifact) == count_actions(
        m1,
        events.drop_first(),
        PipelineAction::FetchArtifact,
    ));
    assert(count_actions(m1, events.drop_first(), PipelineAction::FetchArtifact) == count_actions(
        m2,
        rest,
        PipelineAction::FetchArtifact,
    ));
}

/// Rejection of a tampered artifact: when no published checksum matches the
/// digest of the staged bytes, the step ends in `ChecksumMismatch` with the
/// staged bytes still marked for discard, and nothing reported afterwards
/// ever reaches `Done` or asks for a commit.
pub proof fn lemma_tampered_artifact_rejected(
    m: PipelineModel,
    content: Seq<u8>,
    rest: Seq<PipelineEvent>,
)
    requires
        m.stage == Stage::Verifying,
        m.staged,
        !some_checksum_matches(content, m.checksums),
    ensures
        ({
            let m1 = step_spec(m, PipelineEvent::StagedRead(Some(content)));
            &&& m1.stage == Stage::Failed(ProvisioningError::ChecksumMismatch)
            &&& action_of(m1) == PipelineAction::DiscardStaging
            &&& run_spec(m1, rest).stage == Stage::Failed(ProvisioningError::ChecksumMismatch)
            &&& count_actions(m1, rest, PipelineAction::CommitArtifact) == 0
        }),
{
    let m1 = step_spec(m, PipelineEvent::StagedRead(Some(content)));
    lemma_terminal_absorbs(m1, rest);
}

/// A failed run with staged bytes asks for their discard, and the discard
/// leaves the failure as it is with nothing staged: terminal failures hand
/// control back only after the partial artifact is gone.
pub proof fn lemma_failed_run_discards_staging(m: PipelineModel)
    requires
        m.stage matches Stage::Failed(_),
        m.staged,
    ensures
        action_of(m) == PipelineAction::DiscardStaging,
        step_spec(m, PipelineEvent::StagingDiscarded).stage == m.stage,
        !step_spec(m, PipelineEvent::StagingDiscarded).staged,
        action_of(step_spec(m, PipelineEvent::StagingDiscarded)) == PipelineAction::Stop,
{
}

/// One acquisition run. The driving layer asks `next_action`, performs it,
/// reports the outcome through the matching `on_` method, and repeats until
/// `Stop`. Every reported outcome takes exactly the step `step_spec`
/// describes; an out-of-turn report changes nothing.
pub struct Pipeline {
    pub version: u64,
    pub run_id: u64,
    pub stage: Stage,
    pub checksums: Vec<Vec<u8>>,
    pub staged: bool,
    pub entry: Option<CacheEntry>,
}

impl View for Pipeline {
    type V = PipelineModel;

    open spec fn view(&self) -> PipelineModel {
        PipelineModel {
            version: self.version,
            stage: self.stage,
            checksums: self.checksums.deep_view(),
            staged: self.staged,
        }
    }
}

/// The view of an optional response body.
pub open spec fn opt_bytes_view(o: Option<&Vec<u8>>) -> Option<Seq<u8>> {
    match o {
        Option::Some(v) => Option::Some(v@),
        Option::None => Option::None,
    }
}

fn contains_u64(vs: &Vec<u64>, x: u64) -> (r: bool)
    ensures
        r == vs@.contains(x),
{
    let mut i: usize = 0;
    while i < vs.len()
        invariant
            i <= vs@.len(),
            forall|j: int| 0 <= j < i ==> vs@[j] != x,
        decreases vs@.len() - i,
    {
        if vs[i] == x {
            proof {
                assert(vs@.contains(x));
            }
            return true;
        }
        i += 1;
    }
    proof {
        assert(!vs@.contains(x));
    }
    false
}

impl Pipeline {
    /// A `Done` pipeline carries the deterministic entry of its version and
    /// nothing else ever does.
    pub open spec fn inv(&self) -> bool {
        match self.stage {
            Stage::Done => self.entry matches Option::Some(e) && e.is_committed_for(self.version),
            _ => self.entry is None,
        }
    }

    /// Starts a run for a version (versions are positive) under a run
    /// identifier that keeps its staging name apart from concurrent runs.
    pub fn new(version: u64, run_id: u64) -> (r: Pipeline)
        requires
            version >= 1,
        ensures
            r@ == fresh_model(version),
            r.run_id == run_id,
            r.inv(),
    {
        let r = Pipeline {
            version,
            run_id,
            stage: Stage::CheckingCache,
            checksums: Vec::new(),
            staged: false,
            entry: None,
        };
        proof {
            assert(r@ =~~= fresh_model(version));
        }
        r
    }

    /// What the driving layer must do next.
    pub fn next_action(&self) -> (r: PipelineAction)
        ensures
            r == action_of(self@),
    {
        match self.stage {
            Stage::CheckingCache => PipelineAction::CheckCache,
            Stage::CheckingCatalog => PipelineAction::QueryCatalog,
            Stage::Downloading => PipelineAction::FetchArtifact,
            Stage::FetchingChecksums => PipelineAction::FetchChecksums,
            Stage::Verifying => PipelineAction::ReadStaged,
            Stage::Verified => PipelineAction::CommitArtifact,
            Stage::Done => PipelineAction::Stop,
            Stage::Failed(_) => if self.staged {
                PipelineAction::DiscardStaging
            } else {
                PipelineAction::Stop
            },
        }
    }

    /// The staging name this run downloads into.
    pub fn staging_name_for(&self) -> (r: Vec<u8>)
        ensures
            r@ == staging_name_spec(self.version, self.run_id),
    {
        staging_name(self.version, self.run_id)
    }

    /// The cache lookup's answer: a hit ends the run at once with the
    /// deterministic entry; a miss sends it to the catalog; an unreadable
    /// cache root is `IOUnavailable`.
    pub fn on_cache_checked(&mut self, present: Option<bool>)
        ensures
            final(self)@ == step_spec(old(self)@, PipelineEvent::CacheChecked(present)),
            final(self).run_id == old(self).run_id,
            old(self).inv() ==> final(self).inv(),
    {
        match self.stage {
            Stage::CheckingCache => match present {
                None => {
                    self.stage = Stage::Failed(ProvisioningError::IOUnavailable);
                },
                Some(true) => {
                    self.stage = Stage::Done;
                    self.entry = Some(
                        CacheEntry {
                            version: self.version,
                            name: artifact_name(self.version),
                            present: true,
                        },
                    );
                },
                Some(false) => {
                    self.stage = Stage::CheckingCatalog;
                },
            },
            _ => {},
        }
        proof {
            assert(self@ =~~= step_spec(old(self)@, PipelineEvent::CacheChecked(present)));
        }
    }

    /// The catalog's versions document, or nothing if it was unreachable.
    /// The version must be offered before any download is attempted; an
    /// unreadable document is `CatalogMalformed`, never an empty offer.
    pub fn on_catalog_response(&mut self, body: Option<&Vec<u8>>)
        ensures
            final(self)@ == step_spec(
                old(self)@,
                PipelineEvent::CatalogResponse(opt_bytes_view(body)),
            ),
            final(self).run_id == old(self).run_id,
            old(self).inv() ==> final(self).inv(),
    {
        match self.stage {
            Stage::CheckingCatalog => match body {
                None => {
                    self.stage = Stage::Failed(ProvisioningError::CatalogUnreachable);
                },
                Some(b) => match crate::catalog::parse_versions(b.as_slice()) {
                    Ok(vs) => {
                        if contains_u64(&vs, self.version) {
                            self.stage = Stage::Downloading;
                        } else {
                            self.stage = Stage::Failed(ProvisioningError::VersionNotOffered);
                        }
                    },
                    Err(_) => {
                        self.stage = Stage::Failed(ProvisioningError::CatalogMalformed);
                    },
                },
            },
            _ => {},
        }
        proof {
            assert(self@ =~~= step_spec(
                old(self)@,
                PipelineEvent::CatalogResponse(opt_bytes_view(body)),
            ));
        }
    }

    /// How the fetch ended. Delivery stages the artifact; either failure is
    /// terminal, with the downloader's own cleanup already done.
    pub fn on_download_finished(&mut self, outcome: DownloadOutcome)
        ensures
            final(self)@ == step_spec(old(self)@, PipelineEvent::DownloadFinished(outcome)),
            final(self).run_id == old(self).run_id,
            old(self).inv() ==> final(self).inv(),
    {
        match self.stage {
            Stage::Downloading => match outcome {
                DownloadOutcome::Delivered => {
                    self.stage = Stage::FetchingChecksums;
                    self.staged = true;
                },
                DownloadOutcome::TransportFailed => {
                    self.stage = Stage::Failed(ProvisioningError::DownloadFailed);
                    self.staged = false;
                },
                DownloadOutcome::TimedOut => {
                    self.stage = Stage::Failed(ProvisioningError::DownloadTimedOut);
                    self.staged = false;
                },
            },
            _ => {},
        }
        proof {
            assert(self@ =~~= step_spec(old(self)@, PipelineEvent::DownloadFinished(outcome)));
        }
    }

    /// The catalog's per-version release document, or nothing if it was
    /// unreachable. Its published digests become the expected checksums.
    pub fn on_checksums_response(&mut self, body: Option<&Vec<u8>>)
        ensures
            final(self)@ == step_spec(
                old(self)@,
                PipelineEvent::ChecksumsResponse(opt_bytes_view(body)),
            ),
            final(self).run_id == old(self).run_id,
            old(self).inv() ==> final(self).inv(),
    {
        match self.stage {
            Stage::FetchingChecksums => match body {
                None => {
                    self.stage = Stage::Failed(ProvisioningError::CatalogUnreachable);
                },
                Some(b) => match crate::catalog::parse_checksums(b.as_slice()) {
                    Ok(cs) => {
                        self.checksums = cs;
                        self.stage = Stage::Verifying;
                    },
                    Err(_) => {
                        self.stage = Stage::Failed(ProvisioningError::CatalogMalformed);
                    },
                },
            },
            _ => {},
        }
        proof {
            assert(self@ =~~= step_spec(
                old(self)@,
                PipelineEvent::ChecksumsResponse(opt_bytes_view(body)),
            ));
        }
    }

    /// The staged artifact's bytes. Their digest is computed here, in one
    /// streaming pass, and held against the published checksums: a match
    /// permits the commit, anything else is a terminal `ChecksumMismatch`.
    pub fn on_staged_read(&mut self, content: Option<&Vec<u8>>)
        ensures
            final(self)@ == step_spec(old(self)@, PipelineEvent::StagedRead(opt_bytes_view(content))),
            final(self).run_id == old(self).run_id,
            old(self).inv() ==> final(self).inv(),
    {
        match self.stage {
            Stage::Verifying => match content {
                None => {
                    self.stage = Stage::Failed(ProvisioningError::IOUnavailable);
                },
                Some(c) => {
                    let res = crate::integrity::verify(c.as_slice(), &self.checksums);
                    match res.matched {
                        Some(_) => {
                            self.stage = Stage::Verified;
                        },
                        None => {
                            self.stage = Stage::Failed(ProvisioningError::ChecksumMismatch);
                        },
                    }
                },
            },
            _ => {},
        }
        proof {
            assert(self@ =~~= step_spec(
                old(self)@,
                PipelineEvent::StagedRead(opt_bytes_view(content)),
            ));
        }
    }

    /// Commits the verified artifact into the cache. Only a `Verified` run
    /// touches the store — in every other stage the store is left exactly as
    /// it was — so the one rename onto the committed name is the only way an
    /// artifact becomes visible there.
    pub fn commit(&mut self, store: &mut CacheStore)
        ensures
            final(self)@ == step_spec(old(self)@, PipelineEvent::CommitPerformed),
            final(self).run_id == old(self).run_id,
            old(self).inv() ==> final(self).inv(),
            old(self).stage == Stage::Verified ==> final(store)@ == old(store)@.insert(
                old(self).version,
            ),
            old(self).stage != Stage::Verified ==> final(store)@ == old(store)@,
    {
        match self.stage {
            Stage::Verified => {
                let e = store.commit(self.version);
                self.entry = Some(e);
                self.stage = Stage::Done;
                self.staged = false;
            },
            _ => {},
        }
        proof {
            assert(self@ =~~= step_spec(old(self)@, PipelineEvent::CommitPerformed));
        }
    }

    /// The staged bytes are gone; a failed run can now stop.
    pub fn on_staging_discarded(&mut self)
        ensures
            final(self)@ == step_spec(old(self)@, PipelineEvent::StagingDiscarded),
            final(self).run_id == old(self).run_id,
            old(self).inv() ==> final(self).inv(),
    {
        match self.stage {
            Stage::Failed(_) => {
                self.staged = false;
            },
            _ => {},
        }
        proof {
            assert(self@ =~~= step_spec(old(self)@, PipelineEvent::StagingDiscarded));
        }
    }
}

} // verus!

//! The creation orchestrator: one instance per creation request, sequencing
//! slug allocation, asset materialization, the signed upload, cleanup and
//! the final insert, and mapping every failure to a user-facing outcome.
//!
//! All I/O is the caller's: each step returns the next effect to perform
//! (`CreationAction`), and the caller hands the effect's outcome back
//! through the matching `on_*` method. Slug uniqueness rests on the store's
//! uniqueness constraint: a duplicate-key answer to the insert is treated
//! exactly like a "taken" answer to an existence check and feeds back into
//! one more allocation attempt, instead of surfacing a generic failure.

use crate::config::CloudinaryUploadConfig;
use crate::forms::{AssetSource, Creation};
use crate::models::Goose;
use crate::signer::{hex_spec, sha1_of, sign, signing_payload};
use crate::slug::{alnum, normalize_spec};
use crate::slugalloc::{taken_step, SlugAllocator, MAX_CHECKS};
use crate::text::{dec_spec, u64_to_dec};
use std::time::{SystemTime, UNIX_EPOCH};
use vstd::pervasive::unreached;
use vstd::prelude::*;

verus! {

/// Why a creation attempt failed. Internal causes are for the caller to
/// log; none of these carries store or transport detail to the user.
#[derive(Clone, Copy, Debug, PartialEq, Eq)]
pub enum Failure {
    /// Five consecutive slug collisions: the retry budget is spent.
    SlugExhausted,
    /// The store could not answer a lookup or an insert.
    StoreError,
    /// The staged asset could not be materialized, or the transport failed,
    /// or the asset host answered with a non-success status.
    UploadFailure,
    /// The current time could not be read for signing or stamping.
    TimeSourceFailure,
}

/// The store's answer to an insert under the slug-uniqueness constraint.
#[derive(Clone, Copy, Debug, PartialEq, Eq)]
pub enum InsertError {
    /// The uniqueness constraint rejected the record's slug.
    DuplicateKey,
    /// Any other store-side failure.
    Other,
}

/// A store lookup that could not be carried out at all.
#[derive(Clone, Copy, Debug, PartialEq, Eq)]
pub struct StoreFault;

/// One upload call's credential and addressing. Valid only for the single
/// upload that produced it; never cached or reused across attempts.
#[derive(Debug)]
pub struct UploadRequest {
    pub url: String,
    pub api_key: String,
    pub timestamp: String,
    pub signature: String,
    pub public_id: String,
    pub file_path: String,
    pub file_name: String,
}

/// The next effect the caller must perform for the pipeline.
#[derive(Debug)]
pub enum CreationAction {
    /// Ask the store whether a record with this slug already exists.
    CheckSlug(String),
    /// Persist the staged asset bytes to this temporary path.
    PersistTemp(String),
    /// Submit the asset as a multipart upload described by the request.
    SubmitUpload(UploadRequest),
    /// Delete the temporary file at this path; a deletion failure is
    /// swallowed by the caller, it does not affect the record.
    DeleteTemp(String),
    /// Insert the record; the store must enforce slug uniqueness.
    InsertRecord(Goose),
    /// Terminal: the record with this slug was created.
    Succeed(String),
    /// Terminal: the attempt failed; no record was persisted for it.
    Fail(Failure),
}

/// Where the pipeline stands between two effects.
#[derive(Debug)]
pub enum Phase {
    /// Waiting for the store's answer about the allocator's candidate.
    Allocating,
    /// Waiting for the staged asset to land at the temporary path.
    Persisting { slug: String, path: String },
    /// Waiting for the upload outcome for the asset at `path`.
    AwaitingUpload { slug: String, path: String, persisted: bool },
    /// Waiting for the temporary file to be deleted; `outcome` is what to
    /// report once it is gone.
    Cleaning { slug: String, path: String, outcome: Result<(), Failure> },
    /// Waiting for the insert outcome.
    Inserting { slug: String },
    /// Terminal: the record exists under this slug.
    Done { slug: String },
    /// Terminal: the attempt failed.
    Failed { reason: Failure },
}

/// What a well-formed upload submission promises: addressed to the
/// configured endpoint under the configured prefix, and signed over its own
/// public id and timestamp with the configured secret.
pub open spec fn upload_request_ok(
    req: UploadRequest,
    config: CloudinaryUploadConfig,
    slug: Seq<char>,
    path: Seq<char>,
) -> bool {
    &&& req.url@ == config.upload_url@
    &&& req.api_key@ == config.key@
    &&& req.public_id@ == config.prefix@ + slug
    &&& (exists|ts: u64| req.timestamp@ == dec_spec(ts as nat))
    &&& req.signature@ == hex_spec(
        sha1_of(signing_payload(req.public_id@, req.timestamp@, config.secret@)),
    )
    &&& req.file_path@ == path
    &&& req.file_name@ == slug
}

/// Relies on `std::time` (`SystemTime::now` followed by
/// `duration_since(UNIX_EPOCH)`): reads the wall clock as whole Unix
/// seconds. The value depends on the machine and the moment, so nothing is
/// stated about it; `None` comes back when the clock reads as before the
/// epoch.
#[verifier::external_body]
fn read_unix_clock() -> (r: Option<u64>) {
    match SystemTime::now().duration_since(UNIX_EPOCH) {
        Ok(d) => Some(d.as_secs()),
        Err(_) => None,
    }
}

/// Builds the credential and addressing for one upload attempt.
fn build_upload_request(
    config: &CloudinaryUploadConfig,
    slug: &String,
    path: String,
    ts: u64,
) -> (r: UploadRequest)
    ensures
        upload_request_ok(r, *config, slug@, path@),
        r.timestamp@ == dec_spec(ts as nat),
{
    let ts_str = u64_to_dec(ts);
    let mut public_id = config.prefix.clone();
    public_id.append(slug.as_str());
    let signature = sign(public_id.as_str(), ts_str.as_str(), config.secret.as_str());
    UploadRequest {
        url: config.upload_url.clone(),
        api_key: config.key.clone(),
        timestamp: ts_str,
        signature,
        public_id,
        file_path: path,
        file_name: slug.clone(),
    }
}

/// A creation request in flight.
pub struct Pipeline {
    pub config: CloudinaryUploadConfig,
    pub temp_dir: String,
    pub name: String,
    pub description: String,
    pub color: String,
    pub source: AssetSource,
    pub alloc: SlugAllocator,
    pub phase: Phase,
}

/// The record the pipeline assembles for `slug`: the request's fields, the
/// deterministic asset URL, and a zero like-counter.
pub open spec fn record_ok(g: Goose, p: Pipeline, slug: Seq<char>) -> bool {
    &&& g.name@ == p.name@
    &&& g.description@ == p.description@
    &&& g.color@ == p.color@
    &&& g.slug@ == slug
    &&& g.likes == 0
    &&& g.image@ == p.config.fetch_url@ + slug
}

impl Pipeline {
    /// The pipeline's invariant: the allocator is well-formed; while any
    /// effect is still outstanding the check budget is not spent; and every
    /// phase that remembers the allocated slug agrees with the allocator,
    /// with temporary paths placed under the configured directory.
    pub open spec fn wf(&self) -> bool {
        &&& self.alloc.wf()
        &&& match self.phase {
            Phase::Allocating => self.alloc.model().checks < MAX_CHECKS as int,
            Phase::Persisting { slug, path } => self.alloc.model().checks < MAX_CHECKS as int
                && slug@ == self.alloc.model().candidate && path@ == self.temp_dir@ + slug@,
            Phase::AwaitingUpload { slug, path, persisted } => self.alloc.model().checks
                < MAX_CHECKS as int && slug@ == self.alloc.model().candidate && (persisted
                ==> path@ == self.temp_dir@ + slug@),
            Phase::Cleaning { slug, path, outcome } => self.alloc.model().checks < MAX_CHECKS as int
                && slug@ == self.alloc.model().candidate && path@ == self.temp_dir@ + slug@,
            Phase::Inserting { slug } => self.alloc.model().checks < MAX_CHECKS as int && slug@
                == self.alloc.model().candidate,
            Phase::Done { slug } => true,
            Phase::Failed { reason } => true,
        }
    }

    /// The temporary file the pipeline is currently responsible for, if
    /// any: the one the caller persisted for it and has not yet deleted.
    pub open spec fn pending_temp(&self) -> Option<Seq<char>> {
        match self.phase {
            Phase::AwaitingUpload { path, persisted, .. } => if persisted {
                Some(path@)
            } else {
                None
            },
            Phase::Cleaning { path, .. } => Some(path@),
            _ => None,
        }
    }

    /// The context a step never touches: configuration and request fields.
    pub open spec fn same_ctx(&self, other: &Pipeline) -> bool {
        &&& self.config == other.config
        &&& self.temp_dir == other.temp_dir
        &&& self.name == other.name
        &&& self.description == other.description
        &&& self.color == other.color
        &&& self.source == other.source
    }

    /// Starts a creation attempt: derives the candidate slug from the
    /// request's name and asks the caller for the first existence check.
    /// No upload work happens before a slug is allocated.
    pub fn start(config: CloudinaryUploadConfig, temp_dir: String, creation: Creation) -> (r: (
        Pipeline,
        CreationAction,
    ))
        ensures
            r.0.wf(),
            r.0.phase is Allocating,
            r.0.config == config,
            r.0.temp_dir == temp_dir,
            r.0.name == creation.name,
            r.0.description == creation.description,
            r.0.color == creation.color.0,
            r.0.source == creation.image,
            r.0.alloc.model().checks == 0,
            normalize_spec(creation.name@).len() > 0 ==> r.0.alloc.model().candidate
                == normalize_spec(creation.name@),
            normalize_spec(creation.name@).len() == 0 ==> r.0.alloc.model().candidate.len() == 5
                && (forall|i: int|
                0 <= i < r.0.alloc.model().candidate.len() ==> alnum(
                    #[trigger] r.0.alloc.model().candidate[i],
                )),
            r.1 matches CreationAction::CheckSlug(c) && c@ == r.0.alloc.model().candidate,
    {
        let candidate = crate::slug::derive(creation.name.as_str());
        let alloc = SlugAllocator::new(candidate);
        let action = CreationAction::CheckSlug(alloc.candidate().clone());
        let p = Pipeline {
            config,
            temp_dir,
            name: creation.name,
            description: creation.description,
            color: creation.color.0,
            source: creation.image,
            alloc,
            phase: Phase::Allocating,
        };
        (p, action)
    }

    /// Consumes the store's answer to the outstanding existence check. A
    /// store fault aborts the attempt. A collision either perturbs the
    /// candidate and asks for the next check, or — when it was the fifth
    /// check — gives up with `SlugExhausted`. A free slug moves on to
    /// materialization: staged bytes are sent to a temporary file first,
    /// while an asset already on disk goes straight to the signed upload.
    pub fn on_slug_check(&mut self, result: Result<bool, StoreFault>) -> (r: CreationAction)
        requires
            old(self).wf(),
            old(self).phase is Allocating,
        ensures
            final(self).wf(),
            final(self).same_ctx(old(self)),
            result is Err ==> (final(self).phase matches Phase::Failed { reason }
                && reason is StoreError && (r matches CreationAction::Fail(f)
                && f is StoreError)),
            result == Ok::<bool, StoreFault>(true) && old(self).alloc.model().checks < MAX_CHECKS
                as int - 1 ==> (final(self).phase is Allocating && final(self).alloc.model().checks
                == old(self).alloc.model().checks + 1 && (exists|c: char|
                alnum(c) && final(self).alloc.model() == taken_step(old(self).alloc.model(), c))
                && (r matches CreationAction::CheckSlug(s) && s@
                == final(self).alloc.model().candidate)),
            result == Ok::<bool, StoreFault>(true) && old(self).alloc.model().checks == MAX_CHECKS
                as int - 1 ==> (final(self).phase matches Phase::Failed { reason }
                && reason is SlugExhausted && (r matches CreationAction::Fail(f)
                && f is SlugExhausted)),
            result == Ok::<bool, StoreFault>(false) && old(self).source is InMemory ==> (final(self).phase matches Phase::Persisting { slug, path } && slug@
                == old(self).alloc.model().candidate && path@ == old(self).temp_dir@ + slug@ && (
            r matches CreationAction::PersistTemp(q) && q@ == path@)),
            result == Ok::<bool, StoreFault>(false) ==> (old(self).source matches
                AssetSource::AlreadyOnDisk(dp) ==> ((final(self).phase matches Phase::Failed {
                reason,
            } && reason is TimeSourceFailure && (r matches CreationAction::Fail(f)
                && f is TimeSourceFailure)) || (final(self).phase matches Phase::AwaitingUpload {
                slug,
                path,
                persisted,
            } && slug@ == old(self).alloc.model().candidate && path@ == dp@ && persisted == false
                && (r matches CreationAction::SubmitUpload(req) && upload_request_ok(
                req,
                old(self).config,
                slug@,
                dp@,
            ))))),
            final(self).pending_temp() is None,
    {
        match result {
            Err(_) => {
                self.phase = Phase::Failed { reason: Failure::StoreError };
                CreationAction::Fail(Failure::StoreError)
            },
            Ok(true) => {
                if self.alloc.on_last_check() {
                    self.phase = Phase::Failed { reason: Failure::SlugExhausted };
                    CreationAction::Fail(Failure::SlugExhausted)
                } else {
                    self.alloc.note_taken();
                    CreationAction::CheckSlug(self.alloc.candidate().clone())
                }
            },
            Ok(false) => {
                let slug = self.alloc.candidate().clone();
                let disk_path: Option<String> = match &self.source {
                    AssetSource::AlreadyOnDisk(p) => Some(p.clone()),
                    AssetSource::InMemory => None,
                };
                match disk_path {
                    None => {
                        let mut path = self.temp_dir.clone();
                        path.append(slug.as_str());
                        proof {
                            assert(path@ =~= self.temp_dir@ + slug@);
                        }
                        let action = CreationAction::PersistTemp(path.clone());
                        self.phase = Phase::Persisting { slug, path };
                        action
                    },
                    Some(path) => {
                        match read_unix_clock() {
                            None => {
                                self.phase = Phase::Failed {
                                    reason: Failure::TimeSourceFailure,
                                };
                                CreationAction::Fail(Failure::TimeSourceFailure)
                            },
                            Some(ts) => {
                                let req = build_upload_request(
                                    &self.config,
                                    &slug,
                                    path.clone(),
                                    ts,
                                );
                                self.phase = Phase::AwaitingUpload {
                                    slug,
                                    path,
                                    persisted: false,
                                };
                                CreationAction::SubmitUpload(req)
                            },
                        }
                    },
                }
            },
        }
    }

    /// Consumes the outcome of persisting the staged asset. A failure to
    /// materialize aborts the attempt (there is no temporary file to clean
    /// up). Once the bytes are on disk the pipeline is responsible for the
    /// file: on success it moves to the signed upload, and even a clock
    /// failure at that point asks for the file's deletion before failing.
    pub fn on_persisted(&mut self, ok: bool) -> (r: CreationAction)
        requires
            old(self).wf(),
            old(self).phase is Persisting,
        ensures
            final(self).wf(),
            final(self).same_ctx(old(self)),
            final(self).alloc == old(self).alloc,
            !ok ==> (final(self).phase matches Phase::Failed { reason } && reason is UploadFailure
                && (r matches CreationAction::Fail(f) && f is UploadFailure)
                && final(self).pending_temp() is None),
            ok ==> (old(self).phase matches Phase::Persisting { slug: oslug, path: opath } ==> ((
            final(self).phase matches Phase::Cleaning { slug, path, outcome } && slug@ == oslug@
                && path@ == opath@ && outcome == Err::<(), Failure>(Failure::TimeSourceFailure) && (
            r matches CreationAction::DeleteTemp(q) && q@ == opath@)) || (final(self).phase matches Phase::AwaitingUpload { slug, path, persisted } && slug@ == oslug@
                && path@ == opath@ && persisted == true && (r matches
                CreationAction::SubmitUpload(req) && upload_request_ok(
                req,
                old(self).config,
                slug@,
                path@,
            ))))),
    {
        let (slug, path) = match &self.phase {
            Phase::Persisting { slug, path } => (slug.clone(), path.clone()),
            _ => unreached(),
        };
        if !ok {
            self.phase = Phase::Failed { reason: Failure::UploadFailure };
            return CreationAction::Fail(Failure::UploadFailure);
        }
        match read_unix_clock() {
            None => {
                let action = CreationAction::DeleteTemp(path.clone());
                self.phase = Phase::Cleaning {
                    slug,
                    path,
                    outcome: Err(Failure::TimeSourceFailure),
                };
                action
            },
            Some(ts) => {
                let req = build_upload_request(&self.config, &slug, path.clone(), ts);
                self.phase = Phase::AwaitingUpload { slug, path, persisted: true };
                CreationAction::SubmitUpload(req)
            },
        }
    }

    /// Consumes the upload outcome. If the pipeline persisted a temporary
    /// file, that file is released first, whatever the outcome was: the
    /// next action is its deletion, and the report follows only afterwards.
    /// Without a temporary file, a successful upload moves straight to the
    /// insert and a failed one aborts the attempt.
    pub fn on_uploaded(&mut self, ok: bool) -> (r: CreationAction)
        requires
            old(self).wf(),
            old(self).phase is AwaitingUpload,
        ensures
            final(self).wf(),
            final(self).same_ctx(old(self)),
            final(self).alloc == old(self).alloc,
            old(self).pending_temp() matches Some(p) ==> (final(self).phase matches
                Phase::Cleaning { slug, path, outcome } && path@ == p && (r matches
                CreationAction::DeleteTemp(q) && q@ == p) && (ok ==> outcome == Ok::<(),
                Failure,
            >(())) && (!ok ==> outcome == Err::<(), Failure>(Failure::UploadFailure))),
            old(self).pending_temp() is None && !ok ==> (final(self).phase matches Phase::Failed {
                reason,
            } && reason is UploadFailure && (r matches CreationAction::Fail(f)
                && f is UploadFailure)),
            old(self).pending_temp() is None && ok ==> (old(self).phase matches
                Phase::AwaitingUpload { slug: oslug, .. } ==> ((final(self).phase matches
                Phase::Failed { reason } && reason is TimeSourceFailure && (r matches
                CreationAction::Fail(f) && f is TimeSourceFailure)) || (final(self).phase matches Phase::Inserting { slug } && slug@ == oslug@ && (r matches
                CreationAction::InsertRecord(g) && record_ok(g, *old(self), oslug@))))),
    {
        let (slug, path, persisted) = match &self.phase {
            Phase::AwaitingUpload { slug, path, persisted } => (
                slug.clone(),
                path.clone(),
                *persisted,
            ),
            _ => unreached(),
        };
        if persisted {
            let action = CreationAction::DeleteTemp(path.clone());
            let outcome: Result<(), Failure> = if ok {
                Ok(())
            } else {
                Err(Failure::UploadFailure)
            };
            self.phase = Phase::Cleaning { slug, path, outcome };
            action
        } else if !ok {
            self.phase = Phase::Failed { reason: Failure::UploadFailure };
            CreationAction::Fail(Failure::UploadFailure)
        } else {
            self.proceed_to_insert(slug)
        }
    }

    /// Consumes the deletion of the temporary file and reports what the
    /// attempt had already decided: carry on to the insert after a
    /// successful upload, or surface the failure now that the file is gone.
    pub fn on_deleted(&mut self) -> (r: CreationAction)
        requires
            old(self).wf(),
            old(self).phase is Cleaning,
        ensures
            final(self).wf(),
            final(self).same_ctx(old(self)),
            final(self).alloc == old(self).alloc,
            final(self).pending_temp() is None,
            old(self).phase matches Phase::Cleaning { outcome: Err(f), .. } ==> (final(self).phase matches Phase::Failed { reason } && reason == f && (r matches
                CreationAction::Fail(g) && g == f)),
            old(self).phase matches Phase::Cleaning { outcome: Ok(()), slug: oslug, .. } ==> ((
            final(self).phase matches Phase::Failed { reason } && reason is TimeSourceFailure && (
            r matches CreationAction::Fail(f) && f is TimeSourceFailure)) || (final(self).phase matches Phase::Inserting { slug } && slug@ == oslug@ && (r matches
                CreationAction::InsertRecord(g) && record_ok(g, *old(self), oslug@)))),
    {
        let (slug, failed) = match &self.phase {
            Phase::Cleaning { slug, outcome, .. } => (
                slug.clone(),
                match outcome {
                    Ok(_) => None,
                    Err(f) => Some(*f),
                },
            ),
            _ => unreached(),
        };
        match failed {
            Some(f) => {
                self.phase = Phase::Failed { reason: f };
                CreationAction::Fail(f)
            },
            None => self.proceed_to_insert(slug),
        }
    }

    /// Stamps the record and asks for the insert; a clock failure here
    /// aborts the attempt (no temporary file is pending by this point).
    fn proceed_to_insert(&mut self, slug: String) -> (r: CreationAction)
        requires
            old(self).wf(),
            !(old(self).phase is Done) && !(old(self).phase is Failed),
            slug@ == old(self).alloc.model().candidate,
        ensures
            final(self).wf(),
            final(self).same_ctx(old(self)),
            final(self).pending_temp() is None,
            final(self).alloc == old(self).alloc,
            (final(self).phase matches Phase::Failed { reason } && reason is TimeSourceFailure && (
            r matches CreationAction::Fail(f) && f is TimeSourceFailure)) || (final(self).phase matches Phase::Inserting { slug: s } && s@ == slug@ && (r matches
                CreationAction::InsertRecord(g) && record_ok(g, *old(self), slug@))),
    {
        match read_unix_clock() {
            None => {
                self.phase = Phase::Failed { reason: Failure::TimeSourceFailure };
                CreationAction::Fail(Failure::TimeSourceFailure)
            },
            Some(ts) => {
                let mut image = self.config.fetch_url.clone();
                image.append(slug.as_str());
                let record = Goose {
                    name: self.name.clone(),
                    description: self.description.clone(),
                    image,
                    color: self.color.clone(),
                    likes: 0,
                    slug: slug.clone(),
                    timestamp: ts,
                };
                self.phase = Phase::Inserting { slug };
                CreationAction::InsertRecord(record)
            },
        }
    }

    /// Consumes the insert outcome. Success ends the attempt with the
    /// created record's slug. A duplicate-key rejection is the uniqueness
    /// constraint doing its work and counts exactly like a "taken" answer:
    /// one more allocation attempt if the budget allows, `SlugExhausted`
    /// otherwise. Any other store failure aborts.
    pub fn on_inserted(&mut self, result: Result<(), InsertError>) -> (r: CreationAction)
        requires
            old(self).wf(),
            old(self).phase is Inserting,
        ensures
            final(self).wf(),
            final(self).same_ctx(old(self)),
            result is Ok ==> (old(self).phase matches Phase::Inserting { slug: oslug } ==> (
            final(self).phase matches Phase::Done { slug } && slug@ == oslug@ && (r matches
                CreationAction::Succeed(s) && s@ == oslug@))),
            result == Err::<(), InsertError>(InsertError::Other) ==> (final(self).phase matches
                Phase::Failed { reason } && reason is StoreError && (r matches
                CreationAction::Fail(f) && f is StoreError)),
            result == Err::<(), InsertError>(InsertError::DuplicateKey) && old(self).alloc.model().checks < MAX_CHECKS as int - 1 ==> (final(self).phase is Allocating
                && final(self).alloc.model().checks == old(self).alloc.model().checks + 1 && (
            exists|c: char|
                alnum(c) && final(self).alloc.model() == taken_step(old(self).alloc.model(), c)) && (
            r matches CreationAction::CheckSlug(s) && s@ == final(self).alloc.model().candidate)),
            result == Err::<(), InsertError>(InsertError::DuplicateKey) && old(self).alloc.model().checks == MAX_CHECKS as int - 1 ==> (final(self).phase matches
                Phase::Failed { reason } && reason is SlugExhausted && (r matches
                CreationAction::Fail(f) && f is SlugExhausted)),
    {
        match result {
            Ok(_) => {
                let slug = match &self.phase {
                    Phase::Inserting { slug } => slug.clone(),
                    _ => unreached(),
                };
                let action = CreationAction::Succeed(slug.clone());
                self.phase = Phase::Done { slug };
                action
            },
            Err(InsertError::Other) => {
                self.phase = Phase::Failed { reason: Failure::StoreError };
                CreationAction::Fail(Failure::StoreError)
            },
            Err(InsertError::DuplicateKey) => {
                if self.alloc.on_last_check() {
                    self.phase = Phase::Failed { reason: Failure::SlugExhausted };
                    CreationAction::Fail(Failure::SlugExhausted)
                } else {
                    self.alloc.note_taken();
                    self.phase = Phase::Allocating;
                    CreationAction::CheckSlug(self.alloc.candidate().clone())
                }
            },
        }
    }
}

/// Upload cleanup law: the pipeline never stands in a terminal phase while
/// it is still responsible for a persisted temporary file. Together with
/// the step contracts — which turn every outcome of an upload attempt with
/// a persisted file into a `DeleteTemp` of exactly that file — this says
/// the temporary materialization is released on every exit path.
pub proof fn lemma_terminal_holds_no_temp(p: &Pipeline)
    requires
        p.phase is Done || p.phase is Failed,
    ensures
        p.pending_temp() is None,
{
}

} // verus!

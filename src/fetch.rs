//! The fetch orchestrator: a single-writer state machine that the front end
//! drives with messages. It decides; the caller performs the network and disk
//! work it asks for and reports back.
use vstd::prelude::*;
use crate::asset::{AssetKind, AssetRequest, Ext, ext_of, extension_for, locate, remote_url_of};
use crate::cache::{cache_path, cache_path_of, lemma_write_idempotent, resolved_on, Disk};
use crate::decimal::{is_u64_decimal, parse_u64, u64_text_value};
use crate::error::FetchError;
use crate::profile::{authorization, authorization_of, profile_of, profile_url, profile_url_of, ProfileRecord, User};

verus! {

/// How one image of a fetch ended.
#[derive(Clone, Copy, Debug, PartialEq, Eq, Structural)]
pub enum AssetOutcome {
    /// The user has no such image.
    Skipped,
    /// Downloaded and stored in the cache as this variant.
    Cached(Ext),
    /// Downloading or storing it failed.
    Failed(FetchError),
}

/// Where the orchestrator stands.
#[allow(inconsistent_fields)]
#[derive(Debug)]
pub enum Phase {
    /// Nothing fetched yet, or the last fetch was cancelled.
    Idle,
    /// Waiting for the profile of `id`.
    Fetching { id: u64, ticket: u64 },
    /// The profile came; waiting for the images whose slot is `None`.
    FetchingAssets {
        id: u64,
        ticket: u64,
        profile: ProfileRecord,
        avatar: Option<AssetOutcome>,
        banner: Option<AssetOutcome>,
    },
    /// The profile and every image that exists were fetched.
    Succeeded { profile: ProfileRecord, avatar: AssetOutcome, banner: AssetOutcome },
    /// The profile was fetched but at least one image failed.
    PartiallySucceeded { profile: ProfileRecord, avatar: AssetOutcome, banner: AssetOutcome },
    /// The profile could not be fetched.
    Failed { error: FetchError },
}

/// The profile request the caller is to send.
#[derive(Debug)]
pub struct ProfileRequest {
    pub ticket: u64,
    pub url: String,
    pub authorization: String,
}

/// One image the caller is to download and store at `local_path`.
#[derive(Debug)]
pub struct AssetJob {
    pub ticket: u64,
    pub kind: AssetKind,
    pub remote_url: String,
    pub local_path: String,
    pub extension: Ext,
}

/// The orchestrator. `ticket` names the current fetch: reports that carry
/// another ticket belong to a superseded or cancelled fetch and are ignored.
pub struct Fetcher {
    pub phase: Phase,
    pub token: String,
    pub ticket: u64,
}

pub open spec fn in_flight(ph: Phase) -> bool {
    ph is Fetching || ph is FetchingAssets
}

pub open spec fn in_flight_for(ph: Phase, id: u64) -> bool {
    ||| ph matches Phase::Fetching { id: i, .. } && i == id
    ||| ph matches Phase::FetchingAssets { id: i, .. } && i == id
}

pub open spec fn is_failure(o: AssetOutcome) -> bool {
    o is Failed
}

/// The slot of an image right after the profile came: pending when the user
/// has one, skipped otherwise.
pub open spec fn initial_slot(asset_ref: Seq<char>) -> Option<AssetOutcome> {
    if asset_ref.len() > 0 { None } else { Some(AssetOutcome::Skipped) }
}

pub open spec fn asset_ref_of(p: ProfileRecord, kind: AssetKind) -> Seq<char> {
    match kind {
        AssetKind::Avatar => p.avatar_ref@,
        AssetKind::Banner => p.banner_ref@,
    }
}

/// The outcome an image report records.
pub open spec fn outcome_of(p: ProfileRecord, kind: AssetKind, result: Result<(), FetchError>) -> AssetOutcome {
    match result {
        Ok(_) => AssetOutcome::Cached(ext_of(asset_ref_of(p, kind))),
        Err(e) => AssetOutcome::Failed(e),
    }
}

/// The phase once both slots are known, or still waiting otherwise.
pub open spec fn settled(
    id: u64,
    ticket: u64,
    profile: ProfileRecord,
    avatar: Option<AssetOutcome>,
    banner: Option<AssetOutcome>,
) -> Phase {
    match (avatar, banner) {
        (Some(a), Some(b)) => if is_failure(a) || is_failure(b) {
            Phase::PartiallySucceeded { profile, avatar: a, banner: b }
        } else {
            Phase::Succeeded { profile, avatar: a, banner: b }
        },
        _ => Phase::FetchingAssets { id, ticket, profile, avatar, banner },
    }
}

/// The image report for `kind` is awaited under `ticket`.
pub open spec fn awaits(ph: Phase, ticket: u64, kind: AssetKind) -> bool {
    ph matches Phase::FetchingAssets { ticket: t, avatar, banner, .. } && t == ticket && match kind {
        AssetKind::Avatar => avatar is None,
        AssetKind::Banner => banner is None,
    }
}

/// The phase after an awaited image report.
pub open spec fn after_asset(ph: Phase, kind: AssetKind, result: Result<(), FetchError>) -> Phase {
    match ph {
        Phase::FetchingAssets { id, ticket, profile, avatar, banner } => {
            let o = Some(outcome_of(profile, kind, result));
            match kind {
                AssetKind::Avatar => settled(id, ticket, profile, o, banner),
                AssetKind::Banner => settled(id, ticket, profile, avatar, o),
            }
        },
        _ => ph,
    }
}

/// `j` is the job for the `kind` image `asset_ref` of `owner_id`.
pub open spec fn job_is(j: AssetJob, ticket: u64, owner_id: u64, asset_ref: Seq<char>, kind: AssetKind) -> bool {
    &&& j.ticket == ticket
    &&& j.kind == kind
    &&& j.extension == ext_of(asset_ref)
    &&& j.remote_url@ == remote_url_of(owner_id, asset_ref, kind)
    &&& j.local_path@ == cache_path_of(owner_id, kind, ext_of(asset_ref))
}

/// The jobs for a profile: the avatar first if there is one, then the banner
/// if there is one.
pub open spec fn jobs_for(js: Seq<AssetJob>, ticket: u64, p: ProfileRecord) -> bool {
    let a = p.avatar_ref@.len() > 0;
    let b = p.banner_ref@.len() > 0;
    &&& js.len() == (if a { 1int } else { 0int }) + (if b { 1int } else { 0int })
    &&& a ==> job_is(js[0], ticket, p.id, p.avatar_ref@, AssetKind::Avatar)
    &&& b ==> job_is(js[js.len() - 1], ticket, p.id, p.banner_ref@, AssetKind::Banner)
}

/// The phase right after the profile for `id` came as `p`.
pub open spec fn started_assets(id: u64, ticket: u64, p: ProfileRecord) -> Phase {
    settled(id, ticket, p, initial_slot(p.avatar_ref@), initial_slot(p.banner_ref@))
}

/// The profile a phase holds, where it holds one.
pub open spec fn profile_in(ph: Phase) -> ProfileRecord
    recommends
        ph is FetchingAssets || ph is Succeeded || ph is PartiallySucceeded,
{
    match ph {
        Phase::FetchingAssets { profile, .. } => profile,
        Phase::Succeeded { profile, .. } => profile,
        Phase::PartiallySucceeded { profile, .. } => profile,
        _ => arbitrary(),
    }
}

/// How `kind` ended, once the fetch has ended with a profile.
pub open spec fn end_outcome(ph: Phase, kind: AssetKind) -> Option<AssetOutcome> {
    match ph {
        Phase::Succeeded { avatar, banner, .. } | Phase::PartiallySucceeded { avatar, banner, .. } => Some(
            match kind {
                AssetKind::Avatar => avatar,
                AssetKind::Banner => banner,
            },
        ),
        _ => None,
    }
}

fn settle(
    id: u64,
    ticket: u64,
    profile: ProfileRecord,
    avatar: Option<AssetOutcome>,
    banner: Option<AssetOutcome>,
) -> (r: Phase)
    ensures
        r == settled(id, ticket, profile, avatar, banner),
{
    match (avatar, banner) {
        (Some(a), Some(b)) => {
            let fa = match a {
                AssetOutcome::Failed(_) => true,
                _ => false,
            };
            let fb = match b {
                AssetOutcome::Failed(_) => true,
                _ => false,
            };
            if fa || fb {
                Phase::PartiallySucceeded { profile, avatar: a, banner: b }
            } else {
                Phase::Succeeded { profile, avatar: a, banner: b }
            }
        },
        (avatar, banner) => Phase::FetchingAssets { id, ticket, profile, avatar, banner },
    }
}

fn job_for(ticket: u64, q: &AssetRequest) -> (r: AssetJob)
    ensures
        job_is(r, ticket, q.owner_id, q.asset_ref@, q.kind),
{
    let extension = q.extension();
    AssetJob {
        ticket,
        kind: q.kind,
        remote_url: q.remote_url(),
        local_path: cache_path(q.owner_id, q.kind, extension),
        extension,
    }
}

impl Fetcher {
    pub open spec fn wf(&self) -> bool {
        match self.phase {
            Phase::Fetching { ticket, .. } => ticket == self.ticket,
            Phase::FetchingAssets { ticket, avatar, banner, .. } => ticket == self.ticket && (avatar is None
                || banner is None),
            _ => true,
        }
    }

    /// An orchestrator that sends `credential` with each profile request. With
    /// no credential there is none, so no request can ever be made.
    pub fn new(credential: Option<String>) -> (r: Result<Fetcher, FetchError>)
        ensures
            credential is None <==> r == Err::<Fetcher, FetchError>(FetchError::MissingCredential),
            credential is Some ==> r is Ok,
            r matches Ok(f) ==> f.wf() && f.phase is Idle && f.token == credential.unwrap(),
    {
        match credential {
            Some(token) => Ok(Fetcher { phase: Phase::Idle, token, ticket: 0 }),
            None => Err(FetchError::MissingCredential),
        }
    }

    fn next_ticket(&mut self)
        ensures
            final(self).ticket != old(self).ticket,
            final(self).phase == old(self).phase,
            final(self).token == old(self).token,
    {
        self.ticket = if self.ticket == u64::MAX { 0 } else { self.ticket + 1 };
    }

    /// Starts fetching the user that `identifier` names. A malformed identifier
    /// is a `Validation` error and changes nothing. A fetch for the same id that
    /// is still running is kept (`Ok(None)`); any other running fetch is
    /// superseded. Otherwise the phase becomes `Fetching` at once and the
    /// request to send is returned; nothing here waits.
    pub fn begin_fetch(&mut self, identifier: &str) -> (r: Result<Option<ProfileRequest>, FetchError>)
        requires
            old(self).wf(),
        ensures
            final(self).wf(),
            final(self).token == old(self).token,
            !is_u64_decimal(identifier@) ==> r == Err::<Option<ProfileRequest>, FetchError>(FetchError::Validation)
                && *final(self) == *old(self),
            is_u64_decimal(identifier@) ==> r is Ok,
            is_u64_decimal(identifier@) && in_flight_for(old(self).phase, u64_text_value(identifier@) as u64)
                ==> (r matches Ok(None) && *final(self) == *old(self)),
            is_u64_decimal(identifier@) && !in_flight_for(old(self).phase, u64_text_value(identifier@) as u64)
                ==> (r matches Ok(Some(q)) && {
                let id = u64_text_value(identifier@) as u64;
                &&& final(self).phase == (Phase::Fetching { id, ticket: final(self).ticket })
                &&& final(self).ticket != old(self).ticket
                &&& q.ticket == final(self).ticket
                &&& q.url@ == profile_url_of(id)
                &&& q.authorization@ == authorization_of(old(self).token@)
            }),
    {
        let id = match parse_u64(identifier) {
            Some(n) => n,
            None => return Err(FetchError::Validation),
        };
        let same = match &self.phase {
            Phase::Fetching { id: i, .. } => *i == id,
            Phase::FetchingAssets { id: i, .. } => *i == id,
            _ => false,
        };
        if same {
            return Ok(None);
        }
        self.next_ticket();
        self.phase = Phase::Fetching { id, ticket: self.ticket };
        Ok(Some(ProfileRequest {
            ticket: self.ticket,
            url: profile_url(id),
            authorization: authorization(self.token.as_str()),
        }))
    }

    /// Abandons the running fetch, if any: the phase returns to `Idle` and its
    /// late reports are ignored. Returns whether a fetch was running.
    pub fn cancel_fetch(&mut self) -> (r: bool)
        requires
            old(self).wf(),
        ensures
            final(self).wf(),
            final(self).token == old(self).token,
            r == in_flight(old(self).phase),
            r ==> final(self).phase is Idle && final(self).ticket != old(self).ticket,
            !r ==> *final(self) == *old(self),
    {
        let running = match &self.phase {
            Phase::Fetching { .. } => true,
            Phase::FetchingAssets { .. } => true,
            _ => false,
        };
        if running {
            self.next_ticket();
            self.phase = Phase::Idle;
        }
        running
    }

    /// Takes the profile response of the fetch `ticket`. A report for any
    /// other fetch, or while no profile is awaited, changes nothing. A failed
    /// request, a record whose id is not a number, or one whose id is 0 when
    /// a non-zero id was asked for, ends the fetch as `Failed`. Otherwise the
    /// profile is kept and the image jobs are returned: one for each image
    /// the user has; with none the fetch has succeeded.
    pub fn profile_received(&mut self, ticket: u64, result: Result<User, FetchError>) -> (r: Vec<AssetJob>)
        requires
            old(self).wf(),
        ensures
            final(self).wf(),
            final(self).token == old(self).token,
            final(self).ticket == old(self).ticket,
            !(old(self).phase is Fetching && ticket == old(self).ticket) ==> *final(self) == *old(self)
                && r@.len() == 0,
            old(self).phase is Fetching && ticket == old(self).ticket ==> match result {
                Err(e) => final(self).phase == (Phase::Failed { error: e }) && r@.len() == 0,
                Ok(u) => if !is_u64_decimal(u.id@) || (u64_text_value(u.id@) == 0
                    && old(self).phase->Fetching_id != 0) {
                    final(self).phase == (Phase::Failed { error: FetchError::Decode }) && r@.len() == 0
                } else {
                    let p = profile_in(final(self).phase);
                    &&& profile_of(&u, &p)
                    &&& final(self).phase == started_assets(old(self).phase->Fetching_id, ticket, p)
                    &&& jobs_for(r@, ticket, p)
                },
            },
    {
        let id = match &self.phase {
            Phase::Fetching { id, ticket: t } => {
                if *t != ticket {
                    return Vec::new();
                }
                *id
            },
            _ => return Vec::new(),
        };
        let u = match result {
            Ok(u) => u,
            Err(e) => {
                self.phase = Phase::Failed { error: e };
                return Vec::new();
            },
        };
        let p = match ProfileRecord::from_user(&u) {
            Ok(p) => p,
            Err(e) => {
                self.phase = Phase::Failed { error: e };
                return Vec::new();
            },
        };
        if p.id == 0 && id != 0 {
            self.phase = Phase::Failed { error: FetchError::Decode };
            return Vec::new();
        }
        let mut jobs: Vec<AssetJob> = Vec::new();
        if let Some(q) = locate(p.id, p.avatar_ref.as_str(), AssetKind::Avatar) {
            jobs.push(job_for(ticket, &q));
        }
        if let Some(q) = locate(p.id, p.banner_ref.as_str(), AssetKind::Banner) {
            jobs.push(job_for(ticket, &q));
        }
        let avatar = if p.avatar_ref.as_str().unicode_len() > 0 { None } else { Some(AssetOutcome::Skipped) };
        let banner = if p.banner_ref.as_str().unicode_len() > 0 { None } else { Some(AssetOutcome::Skipped) };
        self.phase = settle(id, ticket, p, avatar, banner);
        jobs
    }

    /// Takes the report of one image job of the fetch `ticket`: `Ok` once the
    /// image was downloaded and stored, else the error. A report that is not
    /// awaited changes nothing and returns `false`. Once both images are
    /// known the fetch ends: `Succeeded` if none failed, else
    /// `PartiallySucceeded`, which names the failed ones.
    pub fn asset_finished(&mut self, ticket: u64, kind: AssetKind, result: Result<(), FetchError>) -> (r: bool)
        requires
            old(self).wf(),
        ensures
            final(self).wf(),
            final(self).token == old(self).token,
            final(self).ticket == old(self).ticket,
            r == awaits(old(self).phase, ticket, kind),
            r ==> final(self).phase == after_asset(old(self).phase, kind, result),
            !r ==> *final(self) == *old(self),
    {
        let waiting = match &self.phase {
            Phase::FetchingAssets { ticket: t, avatar, banner, .. } => *t == ticket && match kind {
                AssetKind::Avatar => avatar.is_none(),
                AssetKind::Banner => banner.is_none(),
            },
            _ => false,
        };
        if !waiting {
            return false;
        }
        let mut ph = Phase::Idle;
        std::mem::swap(&mut ph, &mut self.phase);
        match ph {
            Phase::FetchingAssets { id, ticket: t, profile, avatar, banner } => {
                let o = match result {
                    Ok(()) => {
                        let e = match kind {
                            AssetKind::Avatar => extension_for(profile.avatar_ref.as_str()),
                            AssetKind::Banner => extension_for(profile.banner_ref.as_str()),
                        };
                        AssetOutcome::Cached(e)
                    },
                    Err(e) => AssetOutcome::Failed(e),
                };
                self.phase = match kind {
                    AssetKind::Avatar => settle(id, t, profile, Some(o), banner),
                    AssetKind::Banner => settle(id, t, profile, avatar, Some(o)),
                };
            },
            other => {
                self.phase = other;
            },
        }
        true
    }

    /// The cache file to show for `kind` once the fetch has ended with that
    /// image stored; `None` in every other case, so no stale path is shown.
    pub fn display_path(&self, kind: AssetKind) -> (r: Option<String>)
        ensures
            r.is_some() == (end_outcome(self.phase, kind) matches Some(AssetOutcome::Cached(_))),
            r matches Some(path) ==> end_outcome(self.phase, kind) matches Some(AssetOutcome::Cached(e))
                && path@ == cache_path_of(profile_in(self.phase).id, kind, e),
    {
        let (profile, a, b) = match &self.phase {
            Phase::Succeeded { profile, avatar, banner } => (profile, *avatar, *banner),
            Phase::PartiallySucceeded { profile, avatar, banner } => (profile, *avatar, *banner),
            _ => return None,
        };
        let o = match kind {
            AssetKind::Avatar => a,
            AssetKind::Banner => b,
        };
        match o {
            AssetOutcome::Cached(e) => Some(cache_path(profile.id, kind, e)),
            _ => None,
        }
    }
}

/// Fetching the same user twice plans the same image jobs (same source, same
/// cache path, same variant), so storing the same downloaded bytes twice
/// leaves the cache with the contents and the resolved variant of one store.
pub proof fn lemma_refetch_same_cache(
    first: AssetJob,
    second: AssetJob,
    first_ticket: u64,
    second_ticket: u64,
    owner_id: u64,
    asset_ref: Seq<char>,
    kind: AssetKind,
    disk: Disk,
    bytes: Seq<u8>,
)
    requires
        job_is(first, first_ticket, owner_id, asset_ref, kind),
        job_is(second, second_ticket, owner_id, asset_ref, kind),
    ensures
        first.remote_url@ == second.remote_url@,
        first.local_path@ == second.local_path@,
        first.extension == second.extension,
        disk.insert(first.local_path@, bytes).insert(second.local_path@, bytes) == disk.insert(
            first.local_path@,
            bytes,
        ),
        resolved_on(disk.insert(first.local_path@, bytes).insert(second.local_path@, bytes), owner_id, kind)
            == resolved_on(disk.insert(first.local_path@, bytes), owner_id, kind),
{
    lemma_write_idempotent(disk, owner_id, kind, first.extension, bytes);
}

} // verus!

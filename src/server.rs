//! The decisions of the daemon's event loop: which job a request starts or
//! cancels, the registries of running jobs, and how each loop iteration
//! advances them.

use vstd::prelude::*;
use vstd::string::*;
use crate::clone::{CloneJob, CloneObservation, CloneStep, clone_advanced};
use crate::compression::Compression;
use crate::image::{image_variant, is_valid_image_name};
use crate::inbound::Request;
use crate::outbound::ToYaml;
use crate::restore::{RestoreJob, RestoreStatus, restore_advanced};
use crate::clone::ProgressPoll;
use crate::text::same_text;

verus! {

/// Receive timeout, in milliseconds, after an iteration that did work.
pub const BUSY_TIMEOUT_MS: i32 = 0;

/// Receive timeout, in milliseconds, after an idle iteration.
pub const IDLE_TIMEOUT_MS: i32 = 10;

/// How long the next receive may wait: not at all after an iteration that
/// did work, briefly after an idle one.
pub fn receive_timeout_ms(did_work: bool) -> (r: i32)
    ensures
        r == if did_work { BUSY_TIMEOUT_MS } else { IDLE_TIMEOUT_MS },
{
    if did_work {
        BUSY_TIMEOUT_MS
    } else {
        IDLE_TIMEOUT_MS
    }
}

/// Why an image could not be deleted.
#[derive(Debug)]
pub enum DeleteFailure {
    /// There was no such file.
    NotFound,
    /// Any other failure, with its message.
    Other(String),
}

/// The outcome of deleting an image file.
#[derive(Debug)]
pub struct DeleteResult(pub String, pub Result<(), DeleteFailure>);

impl ToYaml for DeleteResult {
    open spec fn yaml_text(&self) -> Seq<char> {
        match self.1 {
            Ok(_) => "type: deleted-clone\nfile: "@ + self.0@,
            Err(DeleteFailure::NotFound) => "type: delete-clone-failed\nfile: "@ + self.0@ + "\nerror: "@ + "No such file"@,
            Err(DeleteFailure::Other(m)) => "type: delete-clone-failed\nfile: "@ + self.0@ + "\nerror: "@ + m@,
        }
    }

    fn to_yaml(&self) -> (r: String) {
        match &self.1 {
            Ok(_) => String::from_str("type: deleted-clone\nfile: ").concat(self.0.as_str()),
            Err(e) => {
                let mut r = String::from_str("type: delete-clone-failed\nfile: ");
                r.append(self.0.as_str());
                r.append("\nerror: ");
                match e {
                    DeleteFailure::NotFound => r.append("No such file"),
                    DeleteFailure::Other(m) => r.append(m.as_str()),
                }
                r
            },
        }
    }
}

/// What the event loop is to do for a request.
#[derive(Debug)]
pub enum Action {
    /// Nothing: no request, or none that applies.
    Ignore,
    /// Send the status message of the running daemon.
    SendStatus,
    /// Stop the loop.
    Stop,
    /// Start a clone job.
    StartClone { source: String, destination: String, name: String, compression: Compression },
    /// Start a restore job.
    StartRestore { source: String, destination: String },
    /// This clone job left the registry: release it, then report it cancelled.
    CancelClone(CloneJob),
    /// This restore job left the registry: release it, then report it cancelled.
    CancelRestore(RestoreJob),
    /// Delete this image file and report the outcome.
    DeleteImage(String),
    /// Refuse to delete this file, which is not an image.
    RejectDelete(String),
}

/// The outcome of advancing one clone job in an iteration.
#[derive(Debug)]
pub struct CloneReport {
    pub id: String,
    pub step: CloneStep,
}

/// The outcome of advancing one restore job in an iteration.
#[derive(Debug)]
pub struct RestoreReport {
    pub id: String,
    pub status: Option<RestoreStatus>,
}

/// The jobs of `afters` that have not ended, in order.
pub open spec fn live_clones(afters: Seq<CloneJob>) -> Seq<CloneJob>
    decreases afters.len(),
{
    if afters.len() == 0 {
        Seq::empty()
    } else if afters.last().terminated {
        live_clones(afters.drop_last())
    } else {
        live_clones(afters.drop_last()).push(afters.last())
    }
}

/// The jobs of `afters` that have not ended, in order.
pub open spec fn live_restores(afters: Seq<RestoreJob>) -> Seq<RestoreJob>
    decreases afters.len(),
{
    if afters.len() == 0 {
        Seq::empty()
    } else if afters.last().terminated {
        live_restores(afters.drop_last())
    } else {
        live_restores(afters.drop_last()).push(afters.last())
    }
}

/// The observation for job `k`; a job with none observed gets `Nothing`.
pub open spec fn clone_obs_at(obs: Seq<CloneObservation>, k: int) -> CloneObservation {
    if 0 <= k < obs.len() {
        obs[k]
    } else {
        CloneObservation::Nothing
    }
}

/// The observation for job `k`; a job with none observed gets `Empty`.
pub open spec fn restore_obs_at(obs: Seq<ProgressPoll>, k: int) -> ProgressPoll {
    if 0 <= k < obs.len() {
        obs[k]
    } else {
        ProgressPoll::Empty
    }
}

/// Index of the first job with the given identifier.
pub open spec fn first_with_id<J>(ids: Seq<Seq<char>>, id: Seq<char>, i: nat) -> Option<nat>
    decreases ids.len() - i,
{
    if i >= ids.len() {
        None
    } else if ids[i as int] == id {
        Some(i)
    } else {
        first_with_id::<J>(ids, id, i + 1)
    }
}

/// The identifiers of clone jobs.
pub open spec fn clone_ids(jobs: Seq<CloneJob>) -> Seq<Seq<char>> {
    jobs.map_values(|j: CloneJob| j.id@)
}

/// The identifiers of restore jobs.
pub open spec fn restore_ids(jobs: Seq<RestoreJob>) -> Seq<Seq<char>> {
    jobs.map_values(|j: RestoreJob| j.id@)
}

/// The registries of running jobs, in the order they were started.
#[derive(Debug)]
pub struct Server {
    pub clones: Vec<CloneJob>,
    pub restores: Vec<RestoreJob>,
}

impl Server {
    /// No registered job has ended.
    pub open spec fn wf(&self) -> bool {
        &&& forall|j: int| 0 <= j < self.clones@.len() ==> !(#[trigger] self.clones@[j]).terminated
        &&& forall|j: int| 0 <= j < self.restores@.len() ==> !(#[trigger] self.restores@[j]).terminated
    }

    /// Empty registries.
    pub fn new() -> (r: Server)
        ensures
            r.wf(),
            r.clones@.len() == 0,
            r.restores@.len() == 0,
    {
        Server { clones: Vec::new(), restores: Vec::new() }
    }

    /// Registers a clone job; one that has already ended is not registered.
    pub fn add_clone(&mut self, job: CloneJob)
        requires
            old(self).wf(),
        ensures
            final(self).wf(),
            final(self).restores == old(self).restores,
            final(self).clones@ == if job.terminated { old(self).clones@ } else { old(self).clones@.push(job) },
    {
        if !job.terminated {
            self.clones.push(job);
        }
    }

    /// Registers a restore job; one that has already ended is not registered.
    pub fn add_restore(&mut self, job: RestoreJob)
        requires
            old(self).wf(),
        ensures
            final(self).wf(),
            final(self).clones == old(self).clones,
            final(self).restores@ == if job.terminated { old(self).restores@ } else { old(self).restores@.push(job) },
    {
        if !job.terminated {
            self.restores.push(job);
        }
    }

    /// Takes the first clone job with identifier `id` out of the registry.
    pub fn remove_clone(&mut self, id: &str) -> (r: Option<CloneJob>)
        requires
            old(self).wf(),
        ensures
            final(self).wf(),
            final(self).restores == old(self).restores,
            match first_with_id::<CloneJob>(clone_ids(old(self).clones@), id@, 0) {
                Some(i) => r == Some(old(self).clones@[i as int]) && final(self).clones@ == old(self).clones@.remove(i as int),
                None => r is None && final(self).clones@ == old(self).clones@,
            },
    {
        let ghost ids = clone_ids(self.clones@);
        let mut i: usize = 0;
        while i < self.clones.len()
            invariant
                i <= self.clones@.len(),
                self.clones == old(self).clones,
                self.restores == old(self).restores,
                old(self).wf(),
                ids == clone_ids(self.clones@),
                first_with_id::<CloneJob>(ids, id@, 0) == first_with_id::<CloneJob>(ids, id@, i as nat),
            decreases self.clones.len() - i,
        {
            if same_text(self.clones[i].id.as_str(), id) {
                let job = self.clones.remove(i);
                proof {
                    assert(ids[i as int] == id@);
                    assert forall|j: int| 0 <= j < self.clones@.len() implies !(#[trigger] self.clones@[j]).terminated by {
                        if j < i {
                            assert(self.clones@[j] == old(self).clones@[j]);
                        } else {
                            assert(self.clones@[j] == old(self).clones@[j + 1]);
                        }
                    }
                }
                return Some(job);
            }
            i = i + 1;
        }
        None
    }

    /// Takes the first restore job with identifier `id` out of the registry.
    pub fn remove_restore(&mut self, id: &str) -> (r: Option<RestoreJob>)
        requires
            old(self).wf(),
        ensures
            final(self).wf(),
            final(self).clones == old(self).clones,
            match first_with_id::<RestoreJob>(restore_ids(old(self).restores@), id@, 0) {
                Some(i) => r == Some(old(self).restores@[i as int]) && final(self).restores@ == old(self).restores@.remove(i as int),
                None => r is None && final(self).restores@ == old(self).restores@,
            },
    {
        let ghost ids = restore_ids(self.restores@);
        let mut i: usize = 0;
        while i < self.restores.len()
            invariant
                i <= self.restores@.len(),
                self.clones == old(self).clones,
                self.restores == old(self).restores,
                old(self).wf(),
                ids == restore_ids(self.restores@),
                first_with_id::<RestoreJob>(ids, id@, 0) == first_with_id::<RestoreJob>(ids, id@, i as nat),
            decreases self.restores.len() - i,
        {
            if same_text(self.restores[i].id.as_str(), id) {
                let job = self.restores.remove(i);
                proof {
                    assert(ids[i as int] == id@);
                    assert forall|j: int| 0 <= j < self.restores@.len() implies !(#[trigger] self.restores@[j]).terminated by {
                        if j < i {
                            assert(self.restores@[j] == old(self).restores@[j]);
                        } else {
                            assert(self.restores@[j] == old(self).restores@[j + 1]);
                        }
                    }
                }
                return Some(job);
            }
            i = i + 1;
        }
        None
    }

    /// Decides what a request asks of the loop. A cancellation takes the
    /// job out of the registry and hands it over; a deletion is done only
    /// for a valid image name.
    pub fn dispatch(&mut self, request: Option<Request>) -> (r: Action)
        requires
            old(self).wf(),
        ensures
            final(self).wf(),
            match request {
                None => r is Ignore && *final(self) == *old(self),
                Some(Request::Status) => r is SendStatus && *final(self) == *old(self),
                Some(Request::Kill) => r is Stop && *final(self) == *old(self),
                Some(Request::Clone { source, destination, name, compression }) => r == (Action::StartClone {
                    source,
                    destination,
                    name,
                    compression,
                }) && *final(self) == *old(self),
                Some(Request::Restore { source, destination }) => r == (Action::StartRestore {
                    source,
                    destination,
                }) && *final(self) == *old(self),
                Some(Request::CancelClone { id }) => final(self).restores == old(self).restores && match first_with_id::<CloneJob>(
                    clone_ids(old(self).clones@),
                    id@,
                    0,
                ) {
                    Some(i) => r == Action::CancelClone(old(self).clones@[i as int]) && final(self).clones@
                        == old(self).clones@.remove(i as int),
                    None => r is Ignore && final(self).clones@ == old(self).clones@,
                },
                Some(Request::CancelRestore { id }) => final(self).clones == old(self).clones && match first_with_id::<RestoreJob>(
                    restore_ids(old(self).restores@),
                    id@,
                    0,
                ) {
                    Some(i) => r == Action::CancelRestore(old(self).restores@[i as int]) && final(self).restores@
                        == old(self).restores@.remove(i as int),
                    None => r is Ignore && final(self).restores@ == old(self).restores@,
                },
                Some(Request::DeleteImage { file }) => *final(self) == *old(self) && if image_variant(file@) is Some {
                    r == Action::DeleteImage(file)
                } else {
                    r == Action::RejectDelete(file)
                },
            },
    {
        match request {
            None => Action::Ignore,
            Some(Request::Status) => Action::SendStatus,
            Some(Request::Kill) => Action::Stop,
            Some(Request::Clone { source, destination, name, compression }) => Action::StartClone {
                source,
                destination,
                name,
                compression,
            },
            Some(Request::Restore { source, destination }) => Action::StartRestore { source, destination },
            Some(Request::CancelClone { id }) => match self.remove_clone(id.as_str()) {
                Some(job) => Action::CancelClone(job),
                None => Action::Ignore,
            },
            Some(Request::CancelRestore { id }) => match self.remove_restore(id.as_str()) {
                Some(job) => Action::CancelRestore(job),
                None => Action::Ignore,
            },
            Some(Request::DeleteImage { file }) => if is_valid_image_name(file.as_str()) {
                Action::DeleteImage(file)
            } else {
                Action::RejectDelete(file)
            },
        }
    }

    /// Advances every clone job once at instant `now`, in registration
    /// order, job `k` on `obs[k]` (on `Nothing` where `obs` is shorter),
    /// and drops from the registry each job that has ended.
    pub fn poll_clones(&mut self, obs: Vec<CloneObservation>, now: i64) -> (r: Vec<CloneReport>)
        requires
            old(self).wf(),
        ensures
            final(self).wf(),
            final(self).restores == old(self).restores,
            r@.len() == old(self).clones@.len(),
            forall|k: int| 0 <= k < r@.len() ==> (#[trigger] r@[k]).id@ == old(self).clones@[k].id@,
            exists|afters: Seq<CloneJob>| {
                &&& afters.len() == old(self).clones@.len()
                &&& forall|k: int| 0 <= k < afters.len() ==> clone_advanced(
                    old(self).clones@[k],
                    clone_obs_at(obs@, k),
                    now as int,
                    afters[k],
                    #[trigger] r@[k].step,
                )
                &&& final(self).clones@ == live_clones(afters)
            },
    {
        let ghost jobs = self.clones@;
        let ghost obs0 = obs@;
        let n = self.clones.len();
        let mut pending: Vec<CloneJob> = Vec::new();
        std::mem::swap(&mut pending, &mut self.clones);
        let mut obs = obs;
        while obs.len() < n
            invariant
                obs@.len() <= n || obs@ == obs0,
                forall|k: int| 0 <= k < n ==> k < obs@.len() ==> obs@[k] == clone_obs_at(obs0, k),
                obs0.len() <= obs@.len() || obs@ == obs0,
            decreases n - obs@.len(),
        {
            obs.push(CloneObservation::Nothing);
        }
        let mut reports: Vec<CloneReport> = Vec::new();
        let mut kept: Vec<CloneJob> = Vec::new();
        let ghost mut afters: Seq<CloneJob> = Seq::empty();
        let mut k: usize = 0;
        while k < n
            invariant
                n == jobs.len(),
                k <= n,
                pending@ == jobs.subrange(k as int, n as int),
                obs@.len() >= n - k,
                forall|i: int| 0 <= i < n - k ==> obs@[i] == clone_obs_at(obs0, k + i),
                reports@.len() == k,
                afters.len() == k,
                forall|i: int| 0 <= i < k ==> (#[trigger] reports@[i]).id@ == jobs[i].id@,
                forall|i: int| 0 <= i < k ==> clone_advanced(jobs[i], clone_obs_at(obs0, i), now as int, afters[i], #[trigger] reports@[i].step),
                kept@ == live_clones(afters),
                forall|j: int| 0 <= j < kept@.len() ==> !(#[trigger] kept@[j]).terminated,
                self.restores == old(self).restores,
                old(self).clones@ == jobs,
                old(self).wf(),
            decreases n - k,
        {
            let mut job = pending.remove(0);
            let o = obs.remove(0);
            assert(jobs[k as int] == job);
            let step = job.advance(o, now);
            let id = job.id();
            let ghost prev = afters;
            proof {
                afters = prev.push(job);
                assert(afters.drop_last() =~= prev);
                assert(afters.last() == job);
            }
            if !job.terminated {
                kept.push(job);
            }
            reports.push(CloneReport { id, step });
            k = k + 1;
        }
        self.clones = kept;
        reports
    }

    /// Advances every restore job once at instant `now`, in registration
    /// order, job `k` on `obs[k]` (on `Empty` where `obs` is shorter), and
    /// drops from the registry each job that has ended.
    pub fn poll_restores(&mut self, obs: Vec<ProgressPoll>, now: i64) -> (r: Vec<RestoreReport>)
        requires
            old(self).wf(),
        ensures
            final(self).wf(),
            final(self).clones == old(self).clones,
            r@.len() == old(self).restores@.len(),
            forall|k: int| 0 <= k < r@.len() ==> (#[trigger] r@[k]).id@ == old(self).restores@[k].id@,
            exists|afters: Seq<RestoreJob>| {
                &&& afters.len() == old(self).restores@.len()
                &&& forall|k: int| 0 <= k < afters.len() ==> restore_advanced(
                    old(self).restores@[k],
                    restore_obs_at(obs@, k),
                    now as int,
                    afters[k],
                    #[trigger] r@[k].status,
                )
                &&& final(self).restores@ == live_restores(afters)
            },
    {
        let ghost jobs = self.restores@;
        let ghost obs0 = obs@;
        let n = self.restores.len();
        let mut pending: Vec<RestoreJob> = Vec::new();
        std::mem::swap(&mut pending, &mut self.restores);
        let mut obs = obs;
        while obs.len() < n
            invariant
                obs@.len() <= n || obs@ == obs0,
                forall|k: int| 0 <= k < n ==> k < obs@.len() ==> obs@[k] == restore_obs_at(obs0, k),
                obs0.len() <= obs@.len() || obs@ == obs0,
            decreases n - obs@.len(),
        {
            obs.push(ProgressPoll::Empty);
        }
        let mut reports: Vec<RestoreReport> = Vec::new();
        let mut kept: Vec<RestoreJob> = Vec::new();
        let ghost mut afters: Seq<RestoreJob> = Seq::empty();
        let mut k: usize = 0;
        while k < n
            invariant
                n == jobs.len(),
                k <= n,
                pending@ == jobs.subrange(k as int, n as int),
                obs@.len() >= n - k,
                forall|i: int| 0 <= i < n - k ==> obs@[i] == restore_obs_at(obs0, k + i),
                reports@.len() == k,
                afters.len() == k,
                forall|i: int| 0 <= i < k ==> (#[trigger] reports@[i]).id@ == jobs[i].id@,
                forall|i: int| 0 <= i < k ==> restore_advanced(jobs[i], restore_obs_at(obs0, i), now as int, afters[i], #[trigger] reports@[i].status),
                kept@ == live_restores(afters),
                forall|j: int| 0 <= j < kept@.len() ==> !(#[trigger] kept@[j]).terminated,
                self.clones == old(self).clones,
                old(self).restores@ == jobs,
                old(self).wf(),
            decreases n - k,
        {
            let mut job = pending.remove(0);
            let o = obs.remove(0);
            assert(jobs[k as int] == job);
            let status = job.advance(o, now);
            let id = job.id();
            let ghost prev = afters;
            proof {
                afters = prev.push(job);
                assert(afters.drop_last() =~= prev);
                assert(afters.last() == job);
            }
            if !job.terminated {
                kept.push(job);
            }
            reports.push(RestoreReport { id, status });
            k = k + 1;
        }
        self.restores = kept;
        reports
    }
}

/// After an iteration the clone registry holds exactly the advanced jobs
/// that have not ended: a job that sent a terminal message has left it.
pub proof fn lemma_live_clones(afters: Seq<CloneJob>)
    ensures
        forall|x: CloneJob| #[trigger] live_clones(afters).contains(x) <==> (afters.contains(x) && !x.terminated),
    decreases afters.len(),
{
    if afters.len() > 0 {
        let rest = afters.drop_last();
        lemma_live_clones(rest);
        assert(afters =~= rest.push(afters.last()));
        assert forall|x: CloneJob| #[trigger] live_clones(afters).contains(x) <==> (afters.contains(x) && !x.terminated) by {
            if afters.contains(x) {
                let i = choose|i: int| 0 <= i < afters.len() && afters[i] == x;
                if i < afters.len() - 1 {
                    assert(rest[i] == x);
                }
            }
            if rest.contains(x) {
                let i = choose|i: int| 0 <= i < rest.len() && rest[i] == x;
                assert(afters[i] == x);
            }
            if !afters.last().terminated {
                let l = live_clones(rest);
                assert(live_clones(afters) == l.push(afters.last()));
                if l.contains(x) {
                    let i = choose|i: int| 0 <= i < l.len() && l[i] == x;
                    assert(l.push(afters.last())[i] == x);
                }
                if l.push(afters.last()).contains(x) && x != afters.last() {
                    let i = choose|i: int| 0 <= i < l.len() + 1 && l.push(afters.last())[i] == x;
                    assert(l[i] == x);
                }
                assert(l.push(afters.last())[l.len() as int] == afters.last());
            } else {
                assert(live_clones(afters) == live_clones(rest));
            }
        }
    }
}

/// After an iteration the restore registry holds exactly the advanced jobs
/// that have not ended: a job that sent a terminal message has left it.
pub proof fn lemma_live_restores(afters: Seq<RestoreJob>)
    ensures
        forall|x: RestoreJob| #[trigger] live_restores(afters).contains(x) <==> (afters.contains(x) && !x.terminated),
    decreases afters.len(),
{
    if afters.len() > 0 {
        let rest = afters.drop_last();
        lemma_live_restores(rest);
        assert(afters =~= rest.push(afters.last()));
        assert forall|x: RestoreJob| #[trigger] live_restores(afters).contains(x) <==> (afters.contains(x) && !x.terminated) by {
            if afters.contains(x) {
                let i = choose|i: int| 0 <= i < afters.len() && afters[i] == x;
                if i < afters.len() - 1 {
                    assert(rest[i] == x);
                }
            }
            if rest.contains(x) {
                let i = choose|i: int| 0 <= i < rest.len() && rest[i] == x;
                assert(afters[i] == x);
            }
            if !afters.last().terminated {
                let l = live_restores(rest);
                assert(live_restores(afters) == l.push(afters.last()));
                if l.contains(x) {
                    let i = choose|i: int| 0 <= i < l.len() && l[i] == x;
                    assert(l.push(afters.last())[i] == x);
                }
                if l.push(afters.last()).contains(x) && x != afters.last() {
                    let i = choose|i: int| 0 <= i < l.len() + 1 && l.push(afters.last())[i] == x;
                    assert(l[i] == x);
                }
                assert(l.push(afters.last())[l.len() as int] == afters.last());
            } else {
                assert(live_restores(afters) == live_restores(rest));
            }
        }
    }
}

} // verus!

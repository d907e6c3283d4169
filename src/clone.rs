//! Clone jobs: a partition imaged, compressed and written to a file that is
//! renamed into place once every stage has succeeded.

use vstd::prelude::*;
use vstd::string::*;
use crate::text::{clone_opt, opt_view};
use crate::image::{finished_destination, finished_name, inprogress_destination, inprogress_name};
use crate::outbound::{ToYaml, common_text, complete_text, or_tilde, push_common, push_complete};
use crate::partclone::PartcloneStatus;
use crate::text::{nat_text, push_decimal};
use crate::time::{instant_text, local_minute_stamp, push_instant, utc_now};

verus! {

/// The largest completed fraction, in ten-thousandths, reported before the
/// image is flushed.
pub const MAX_RUNNING_COMPLETE: u64 = 9999;

/// The fields shared by every message of a clone job.
#[derive(Debug, Clone)]
pub struct CloneStatusCommon {
    pub id: String,
    pub source: String,
    /// Where the image ends up.
    pub destination: String,
    /// Where the image is written while the job runs.
    pub inprogress_destination: String,
    /// Seconds since the epoch.
    pub start: i64,
    pub source_uuid: Option<String>,
}

/// A message of a clone job; times are seconds since the epoch and
/// `complete` is in ten-thousandths.
#[derive(Debug)]
pub enum CloneStatus {
    Running {
        common: CloneStatusCommon,
        complete: u64,
        rate: Option<String>,
        estimated_finish: Option<i64>,
    },
    Syncing { common: CloneStatusCommon },
    Finished { common: CloneStatusCommon, finish: i64, image_size: u64 },
    Failed { common: CloneStatusCommon, reason: String, finish: i64 },
}

/// Relies on uuid's `Uuid::new_v4` and its hyphenated text: a fresh random
/// identifier.
#[verifier::external_body]
pub(crate) fn fresh_id() -> (r: String) {
    uuid::Uuid::new_v4().to_string()
}

/// The text of an optional instant.
pub open spec fn opt_instant_text(o: Option<i64>) -> Seq<char> {
    match o {
        Some(t) => instant_text(t as int),
        None => "~"@,
    }
}

impl ToYaml for CloneStatusCommon {
    open spec fn yaml_text(&self) -> Seq<char> {
        common_text(self.start as int, self.source@, self.destination@, self.id@) + match self.source_uuid {
            Some(u) => "\nsource_uuid: "@ + u@,
            None => Seq::empty(),
        }
    }

    fn to_yaml(&self) -> (r: String) {
        let mut r = String::new();
        push_common(&mut r, self.start, self.source.as_str(), self.destination.as_str(), self.id.as_str());
        match &self.source_uuid {
            Some(u) => {
                r.append("\nsource_uuid: ");
                r.append(u.as_str());
            },
            None => {},
        }
        assert(r@ =~= self.yaml_text());
        r
    }
}

impl CloneStatus {
    /// The fields shared by every message.
    pub open spec fn common(&self) -> CloneStatusCommon {
        match *self {
            CloneStatus::Running { common, .. } => common,
            CloneStatus::Syncing { common } => common,
            CloneStatus::Finished { common, .. } => common,
            CloneStatus::Failed { common, .. } => common,
        }
    }

    /// Whether the message ends the job.
    pub open spec fn is_terminal(&self) -> bool {
        self is Finished || self is Failed
    }

    /// Whether the message ends the job.
    pub fn terminal(&self) -> (r: bool)
        ensures
            r == self.is_terminal(),
    {
        match self {
            CloneStatus::Finished { .. } | CloneStatus::Failed { .. } => true,
            _ => false,
        }
    }
}

impl ToYaml for CloneStatus {
    open spec fn yaml_text(&self) -> Seq<char> {
        match *self {
            CloneStatus::Running { common, complete, rate, estimated_finish } => "type: clone\n"@
                + common.yaml_text() + "\ncomplete: "@ + complete_text(complete as nat)
                + "\nsyncing: false\nrate: "@ + or_tilde(opt_view(rate)) + "\nestimated_finish: "@
                + opt_instant_text(estimated_finish),
            CloneStatus::Syncing { common } => "type: clone\n"@ + common.yaml_text()
                + "\ncomplete: 0.9999\nsyncing: true"@,
            CloneStatus::Finished { common, finish, image_size } => "type: clone\n"@
                + common.yaml_text() + "\ncomplete: 1.0\nsyncing: false\nfinish: "@ + instant_text(
                finish as int,
            ) + "\nimage_size: "@ + nat_text(image_size as nat),
            CloneStatus::Failed { common, reason, finish } => "type: clone-failed\n"@
                + common.yaml_text() + "\nfinish: "@ + instant_text(finish as int) + "\nerror: "@
                + reason@,
        }
    }

    fn to_yaml(&self) -> (r: String) {
        match self {
            CloneStatus::Running { common, complete, rate, estimated_finish } => {
                let mut r = String::from_str("type: clone\n");
                let c = common.to_yaml();
                r.append(c.as_str());
                r.append("\ncomplete: ");
                push_complete(&mut r, *complete);
                r.append("\nsyncing: false\nrate: ");
                match rate {
                    Some(t) => r.append(t.as_str()),
                    None => r.append("~"),
                }
                r.append("\nestimated_finish: ");
                match estimated_finish {
                    Some(t) => push_instant(&mut r, *t),
                    None => r.append("~"),
                }
                assert(r@ =~= self.yaml_text());
                r
            },
            CloneStatus::Syncing { common } => {
                let mut r = String::from_str("type: clone\n");
                let c = common.to_yaml();
                r.append(c.as_str());
                r.append("\ncomplete: 0.9999\nsyncing: true");
                assert(r@ =~= self.yaml_text());
                r
            },
            CloneStatus::Finished { common, finish, image_size } => {
                let mut r = String::from_str("type: clone\n");
                let c = common.to_yaml();
                r.append(c.as_str());
                r.append("\ncomplete: 1.0\nsyncing: false\nfinish: ");
                push_instant(&mut r, *finish);
                r.append("\nimage_size: ");
                push_decimal(&mut r, *image_size);
                assert(r@ =~= self.yaml_text());
                r
            },
            CloneStatus::Failed { common, reason, finish } => {
                let mut r = String::from_str("type: clone-failed\n");
                let c = common.to_yaml();
                r.append(c.as_str());
                r.append("\nfinish: ");
                push_instant(&mut r, *finish);
                r.append("\nerror: ");
                r.append(reason.as_str());
                assert(r@ =~= self.yaml_text());
                r
            },
        }
    }
}

/// What a non-blocking wait saw of a child process.
#[derive(Debug, Clone, Copy, PartialEq, Eq, Structural)]
pub enum ChildExit {
    /// Still running.
    Running,
    /// Exited with success.
    Succeeded,
    /// Exited with failure, or could not be waited on.
    Failed,
}

/// What the progress channel held on a non-blocking receive.
#[derive(Debug)]
pub enum ProgressPoll {
    Event(PartcloneStatus),
    Empty,
    /// The progress reader is gone.
    Closed,
}

/// What the rename task has reported.
#[derive(Debug, Clone, Copy, PartialEq, Eq, Structural)]
pub enum RenamePoll {
    /// Not started, or not done yet.
    Pending,
    /// Renamed into place; the image's size in bytes.
    Done(u64),
    /// The rename or the size lookup failed.
    Failed,
}

/// What the caller observed for a job, as its phase asks.
#[derive(Debug)]
pub enum CloneObservation {
    /// Nothing: the job's first message needs no observation.
    Nothing,
    /// While imaging: the progress channel.
    Progress(ProgressPoll),
    /// Once the image is flushed: both children and the rename task.
    Exits { imager: ChildExit, compressor: ChildExit, rename: RenamePoll },
}

/// What a clone job expects to be observed next.
#[derive(Debug, Clone, Copy, PartialEq, Eq, Structural)]
pub enum ClonePhase {
    /// Its first message is due.
    Starting,
    /// The imager is reporting progress.
    Imaging,
    /// The image is flushed; the children are to exit and the file renamed.
    Finishing,
    /// A terminal message was sent.
    Done,
}

/// The outcome of advancing a clone job: a message to send, and whether
/// the rename of the finished image is to be started.
#[derive(Debug)]
pub struct CloneStep {
    pub status: Option<CloneStatus>,
    pub start_rename: bool,
}

/// The state of a clone job.
#[derive(Debug)]
pub struct CloneJob {
    pub source: String,
    /// Where the image is written while the job runs.
    pub destination: String,
    pub id: String,
    /// Seconds since the epoch.
    pub start: i64,
    pub source_uuid: Option<String>,
    pub sent_first_msg: bool,
    /// The imager reported the flush.
    pub partclone_finished: bool,
    pub rename_started: bool,
    /// A terminal message was sent.
    pub terminated: bool,
}

/// `c` carries the job's fields.
pub open spec fn common_of(c: CloneStatusCommon, job: CloneJob) -> bool {
    &&& c.id@ == job.id@
    &&& c.source@ == job.source@
    &&& c.destination@ == finished_name(job.destination@)
    &&& c.inprogress_destination@ == job.destination@
    &&& c.start == job.start
    &&& opt_view(c.source_uuid) == opt_view(job.source_uuid)
}

/// The message for a failed rename of `file`.
pub open spec fn rename_failed_message(file: Seq<char>) -> Seq<char> {
    "Failed to rename "@ + file
}

/// `st` is a `Failed` message of the job with the given reason and finish.
pub open spec fn is_failure(st: CloneStatus, job: CloneJob, reason: Seq<char>, finish: int) -> bool {
    st matches CloneStatus::Failed { common, reason: r, finish: f } && common_of(common, job) && r@
        == reason && f == finish
}

/// The completed fraction reported for `c`: capped below completion.
pub open spec fn capped_complete(c: nat) -> nat {
    if c > MAX_RUNNING_COMPLETE {
        MAX_RUNNING_COMPLETE as nat
    } else {
        c
    }
}

/// What one advance of a job does: `before` and `after` are the job
/// before and after it, on observation `obs` at instant `now`, with outcome `r`.
pub open spec fn clone_advanced(before: CloneJob, obs: CloneObservation, now: int, after: CloneJob, r: CloneStep) -> bool {
    &&& after.source == before.source
    &&& after.destination == before.destination
    &&& after.id == before.id
    &&& after.start == before.start
    &&& after.source_uuid == before.source_uuid
    &&& before.terminated ==> r.status is None && !r.start_rename && after == before
    &&& after.terminated == (before.terminated || (r.status matches Some(st) && st.is_terminal()))
    &&& r.status matches Some(st) ==> common_of(st.common(), before)
    &&& r.status matches Some(CloneStatus::Running { complete, .. }) ==> complete <= MAX_RUNNING_COMPLETE
    &&& r.status matches Some(CloneStatus::Finished { .. }) ==> before.partclone_finished && before.rename_started
    &&& r.start_rename ==> r.status is None && before.partclone_finished && !before.rename_started
    &&& after.rename_started == (before.rename_started || r.start_rename)
    &&& after.partclone_finished == (before.partclone_finished || r.status matches Some(CloneStatus::Syncing { .. }))
    &&& r.status matches Some(CloneStatus::Syncing { .. }) ==> !before.partclone_finished
    &&& before.spec_phase() == ClonePhase::Starting ==> {
            &&& after.sent_first_msg
            &&& !r.start_rename
            &&& r.status matches Some(CloneStatus::Running { complete, rate, estimated_finish, .. })
            &&& complete == 0 && rate is None && estimated_finish is None
    }
    &&& before.spec_phase() == ClonePhase::Imaging ==> match obs {
            CloneObservation::Progress(ProgressPoll::Event(PartcloneStatus::Running { complete: c, rate: t, estimated_finish: e })) =>
                r.status matches Some(CloneStatus::Running { complete, rate, estimated_finish, .. })
                && complete == capped_complete(c as nat) && (rate matches Some(rt) && rt@ == t@)
                && estimated_finish == Some(e),
            CloneObservation::Progress(ProgressPoll::Event(PartcloneStatus::Synced { .. })) =>
                r.status matches Some(CloneStatus::Syncing { .. }),
            CloneObservation::Progress(ProgressPoll::Event(PartcloneStatus::Failed { finish })) =>
                r.status matches Some(st) && is_failure(st, before, "Failed"@, finish as int),
            CloneObservation::Progress(ProgressPoll::Closed) =>
                r.status matches Some(st) && is_failure(st, before, "Failed"@, now as int),
            _ => r.status is None
    }
    &&& before.spec_phase() == ClonePhase::Finishing ==> match obs {
            CloneObservation::Exits { imager, compressor, rename } =>
                if imager == ChildExit::Failed {
                    r.status matches Some(st) && is_failure(st, before, "Clone failed"@, now as int)
                } else if compressor == ChildExit::Failed {
                    r.status matches Some(st) && is_failure(st, before, "Compress failed"@, now as int)
                } else if imager == ChildExit::Running || compressor == ChildExit::Running {
                    r.status is None && !r.start_rename
                } else if !before.rename_started {
                    r.start_rename
                } else {
                    match rename {
                        RenamePoll::Done(size) => r.status matches Some(CloneStatus::Finished { finish, image_size, .. })
                            && finish == now && image_size == size,
                        RenamePoll::Failed => r.status matches Some(st) && is_failure(
                            st, before, rename_failed_message(before.destination@), now as int),
                        RenamePoll::Pending => r.status is None,
                    }
                },
            _ => r.status is None && !r.start_rename
    }
}

impl CloneJob {
    /// The phase the job is in.
    pub open spec fn spec_phase(&self) -> ClonePhase {
        if self.terminated {
            ClonePhase::Done
        } else if !self.sent_first_msg {
            ClonePhase::Starting
        } else if !self.partclone_finished {
            ClonePhase::Imaging
        } else {
            ClonePhase::Finishing
        }
    }

    /// The phase the job is in, which says what to observe for it.
    pub fn phase(&self) -> (r: ClonePhase)
        ensures
            r == self.spec_phase(),
    {
        if self.terminated {
            ClonePhase::Done
        } else if !self.sent_first_msg {
            ClonePhase::Starting
        } else if !self.partclone_finished {
            ClonePhase::Imaging
        } else {
            ClonePhase::Finishing
        }
    }

    /// A job for `source`, written under `destination_dir` as `name` with
    /// the given variant and compressor name, stamped `stamp` (local
    /// `YYYY-MM-DDTHHMM`), identified by `id` and started at `now`.
    pub fn create(
        source: String,
        destination_dir: &str,
        name: &str,
        variant: &str,
        z_name: &str,
        source_uuid: Option<String>,
        stamp: &str,
        id: String,
        now: i64,
    ) -> (r: CloneJob)
        ensures
            r.source == source,
            r.destination@ == inprogress_name(destination_dir@, name@, stamp@, variant@, z_name@),
            r.id == id,
            r.start == now,
            r.source_uuid == source_uuid,
            !r.sent_first_msg,
            !r.partclone_finished,
            !r.rename_started,
            !r.terminated,
    {
        let destination = inprogress_destination(destination_dir, name, stamp, variant, z_name);
        CloneJob {
            source,
            destination,
            id,
            start: now,
            source_uuid,
            sent_first_msg: false,
            partclone_finished: false,
            rename_started: false,
            terminated: false,
        }
    }

    /// A job for `source`, written under `destination_dir` as `name` with
    /// the given variant and compressor name, stamped with the local time
    /// now, with a fresh identifier.
    pub fn new(
        source: String,
        destination_dir: &str,
        name: &str,
        variant: &str,
        z_name: &str,
        source_uuid: Option<String>,
    ) -> (r: CloneJob)
        ensures
            r.source == source,
            exists|stamp: Seq<char>| r.destination@ == inprogress_name(destination_dir@, name@, stamp, variant@, z_name@),
            r.source_uuid == source_uuid,
            !r.sent_first_msg,
            !r.partclone_finished,
            !r.rename_started,
            !r.terminated,
    {
        let stamp = local_minute_stamp();
        let r = Self::create(source, destination_dir, name, variant, z_name, source_uuid, stamp.as_str(), fresh_id(), utc_now());
        assert(r.destination@ == inprogress_name(destination_dir@, name@, stamp@, variant@, z_name@));
        r
    }

    /// The job's identifier.
    pub fn id(&self) -> (r: String)
        ensures
            r@ == self.id@,
    {
        self.id.clone()
    }

    /// Where the image ends up once the job succeeds.
    pub fn successful_destination(&self) -> (r: String)
        ensures
            r@ == finished_name(self.destination@),
    {
        finished_destination(self.destination.as_str())
    }

    /// The fields shared by the job's messages.
    pub fn clone_status_common(&self) -> (r: CloneStatusCommon)
        ensures
            common_of(r, *self),
    {
        CloneStatusCommon {
            id: self.id.clone(),
            source: self.source.clone(),
            destination: self.successful_destination(),
            inprogress_destination: self.destination.clone(),
            start: self.start,
            source_uuid: clone_opt(&self.source_uuid),
        }
    }

    /// A `Failed` message of the job with the given reason, at `now`.
    pub fn fail_status_at(&self, reason: &str, now: i64) -> (r: CloneStatus)
        ensures
            is_failure(r, *self, reason@, now as int),
    {
        CloneStatus::Failed { common: self.clone_status_common(), reason: reason.to_owned(), finish: now }
    }

    /// A `Failed` message of the job with the given reason, at the current time.
    pub fn fail_status(&self, reason: &str) -> (r: CloneStatus)
        ensures
            exists|now: int| is_failure(r, *self, reason@, now),
    {
        self.fail_status_at(reason, utc_now())
    }

    /// Advances the job at instant `now` on what was observed for its phase.
    ///
    /// The first call sends a `Running` message at 0. While imaging, a
    /// progress event is passed on with its fraction capped below
    /// completion, the flush turns into `Syncing`, and a failure or a lost
    /// progress reader into `Failed`. Once flushed, a child that failed
    /// ends the job, and when both succeeded the rename is started, then
    /// its outcome ends the job with `Finished` or `Failed`. An observation
    /// that does not fit the phase, or one that shows nothing new, sends
    /// nothing; so does a job that has ended.
    pub fn advance(&mut self, obs: CloneObservation, now: i64) -> (r: CloneStep)
        ensures
            clone_advanced(*old(self), obs, now as int, *final(self), r),

    {
        if self.terminated {
            return CloneStep { status: None, start_rename: false };
        }
        if !self.sent_first_msg {
            self.sent_first_msg = true;
            let common = self.clone_status_common();
            return CloneStep {
                status: Some(CloneStatus::Running { common, complete: 0, rate: None, estimated_finish: None }),
                start_rename: false,
            };
        }
        if !self.partclone_finished {
            let status = match obs {
                CloneObservation::Progress(ProgressPoll::Event(ev)) => match ev {
                    PartcloneStatus::Running { complete, rate, estimated_finish } => {
                        let capped = if complete > MAX_RUNNING_COMPLETE { MAX_RUNNING_COMPLETE } else { complete };
                        Some(CloneStatus::Running {
                            common: self.clone_status_common(),
                            complete: capped,
                            rate: Some(rate),
                            estimated_finish: Some(estimated_finish),
                        })
                    },
                    PartcloneStatus::Synced { .. } => {
                        let common = self.clone_status_common();
                        self.partclone_finished = true;
                        Some(CloneStatus::Syncing { common })
                    },
                    PartcloneStatus::Failed { finish } => {
                        let st = self.fail_status_at("Failed", finish);
                        self.terminated = true;
                        Some(st)
                    },
                },
                CloneObservation::Progress(ProgressPoll::Closed) => {
                    let st = self.fail_status_at("Failed", now);
                    self.terminated = true;
                    Some(st)
                },
                _ => None,
            };
            return CloneStep { status, start_rename: false };
        }
        match obs {
            CloneObservation::Exits { imager, compressor, rename } => {
                if imager == ChildExit::Failed {
                    let st = self.fail_status_at("Clone failed", now);
                    self.terminated = true;
                    CloneStep { status: Some(st), start_rename: false }
                } else if compressor == ChildExit::Failed {
                    let st = self.fail_status_at("Compress failed", now);
                    self.terminated = true;
                    CloneStep { status: Some(st), start_rename: false }
                } else if imager == ChildExit::Running || compressor == ChildExit::Running {
                    CloneStep { status: None, start_rename: false }
                } else if !self.rename_started {
                    self.rename_started = true;
                    CloneStep { status: None, start_rename: true }
                } else {
                    match rename {
                        RenamePoll::Done(size) => {
                            let common = self.clone_status_common();
                            self.terminated = true;
                            CloneStep {
                                status: Some(CloneStatus::Finished { common, finish: now, image_size: size }),
                                start_rename: false,
                            }
                        },
                        RenamePoll::Failed => {
                            let reason = String::from_str("Failed to rename ").concat(self.destination.as_str());
                            let st = self.fail_status_at(reason.as_str(), now);
                            self.terminated = true;
                            CloneStep { status: Some(st), start_rename: false }
                        },
                        RenamePoll::Pending => CloneStep { status: None, start_rename: false },
                    }
                }
            },
            _ => CloneStep { status: None, start_rename: false },
        }
    }

    /// Advances the job at the current time on what was observed for its
    /// phase; see [`CloneJob::advance`].
    pub fn try_recv(&mut self, obs: CloneObservation) -> (r: CloneStep)
        ensures
            exists|now: int| clone_advanced(*old(self), obs, now, *final(self), r),
    {
        self.advance(obs, utc_now())
    }
}

/// `steps` are the outcomes of advancing `jobs[0]` successively on `obs`
/// at `nows`, `jobs[k + 1]` being the job after step `k`.
pub open spec fn clone_trace(jobs: Seq<CloneJob>, obs: Seq<CloneObservation>, nows: Seq<int>, steps: Seq<CloneStep>) -> bool {
    &&& jobs.len() == steps.len() + 1
    &&& obs.len() == steps.len()
    &&& nows.len() == steps.len()
    &&& forall|k: int| 0 <= k < steps.len() ==> clone_advanced(jobs[k], obs[k], nows[k], jobs[k + 1], #[trigger] steps[k])
}

/// A progress message in `step`, if any, reports less than completion.
pub open spec fn below_completion(step: CloneStep) -> bool {
    step.status matches Some(CloneStatus::Running { complete, .. }) ==> complete <= MAX_RUNNING_COMPLETE
}

/// Step `k` of a trace sent a `Syncing` message.
pub open spec fn sent_syncing(steps: Seq<CloneStep>, k: int) -> bool {
    steps[k].status matches Some(CloneStatus::Syncing { .. })
}

/// Where step `k` sent `Finished`, an earlier step sent `Syncing`.
pub open spec fn finished_after_syncing(steps: Seq<CloneStep>, k: int) -> bool {
    steps[k].status matches Some(CloneStatus::Finished { .. }) ==> exists|i: int| 0 <= i < k && #[trigger] sent_syncing(steps, i)
}

proof fn lemma_flushed_after_syncing(jobs: Seq<CloneJob>, obs: Seq<CloneObservation>, nows: Seq<int>, steps: Seq<CloneStep>, k: int)
    requires
        clone_trace(jobs, obs, nows, steps),
        !jobs[0].partclone_finished,
        0 <= k <= steps.len(),
    ensures
        jobs[k].partclone_finished ==> exists|i: int| 0 <= i < k && #[trigger] sent_syncing(steps, i),
    decreases k,
{
    if k > 0 {
        lemma_flushed_after_syncing(jobs, obs, nows, steps, k - 1);
        assert(clone_advanced(jobs[k - 1], obs[k - 1], nows[k - 1], jobs[k], steps[k - 1]));
        if jobs[k].partclone_finished && !jobs[k - 1].partclone_finished {
            assert(sent_syncing(steps, k - 1));
        }
    }
}

/// A clone never reports completion early: from a job whose image is not
/// yet flushed, every progress message stays below completion, and a
/// `Finished` message only comes after a `Syncing` message.
pub proof fn lemma_no_early_completion(jobs: Seq<CloneJob>, obs: Seq<CloneObservation>, nows: Seq<int>, steps: Seq<CloneStep>)
    requires
        clone_trace(jobs, obs, nows, steps),
        !jobs[0].partclone_finished,
    ensures
        forall|k: int| 0 <= k < steps.len() ==> #[trigger] below_completion(steps[k]),
        forall|k: int| 0 <= k < steps.len() ==> #[trigger] finished_after_syncing(steps, k),
{
    assert forall|k: int| 0 <= k < steps.len() implies #[trigger] finished_after_syncing(steps, k) by {
        assert(clone_advanced(jobs[k], obs[k], nows[k], jobs[k + 1], steps[k]));
        lemma_flushed_after_syncing(jobs, obs, nows, steps, k);
    }
    assert forall|k: int| 0 <= k < steps.len() implies #[trigger] below_completion(steps[k]) by {
        assert(clone_advanced(jobs[k], obs[k], nows[k], jobs[k + 1], steps[k]));
    }
}

/// A clone job sends at most one terminal message: once it has sent one,
/// advancing it sends nothing, starts nothing and leaves it as it is.
pub proof fn lemma_clone_single_terminal(
    j0: CloneJob, o1: CloneObservation, n1: int, j1: CloneJob, s1: CloneStep,
    o2: CloneObservation, n2: int, j2: CloneJob, s2: CloneStep,
)
    requires
        clone_advanced(j0, o1, n1, j1, s1),
        s1.status matches Some(st) && st.is_terminal(),
        clone_advanced(j1, o2, n2, j2, s2),
    ensures
        s2.status is None,
        !s2.start_rename,
        j2 == j1,
{
}

} // verus!

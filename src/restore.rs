//! Restore jobs: an image file decompressed and fed to the imager, which
//! writes it to a block device.

use vstd::prelude::*;
use vstd::string::*;
use crate::clone::{MAX_RUNNING_COMPLETE, fresh_id, ProgressPoll, capped_complete, opt_instant_text};
use crate::compression::{Compression, file_name_index, is_registered, unknown_file_message};
use crate::text::opt_view;
use crate::image::{image_variant, invalid_image_message, partclone_variant_from_image};
use crate::outbound::{ToYaml, bool_text, common_text, complete_text, or_tilde, push_bool, push_common, push_complete};
use crate::partclone::PartcloneStatus;
use crate::time::{instant_text, push_instant, utc_now};

verus! {

/// The fields shared by every message of a restore job.
#[derive(Debug, Clone)]
pub struct RestoreStatusCommon {
    pub id: String,
    pub source: String,
    pub destination: String,
    /// Seconds since the epoch.
    pub start: i64,
}

/// A message of a restore job; times are seconds since the epoch and
/// `complete` is in ten-thousandths.
#[derive(Debug)]
pub enum RestoreStatus {
    Running {
        common: RestoreStatusCommon,
        complete: u64,
        syncing: bool,
        rate: Option<String>,
        estimated_finish: Option<i64>,
    },
    Finished { common: RestoreStatusCommon, finish: i64 },
    Failed { common: RestoreStatusCommon, reason: String, finish: i64 },
}

impl ToYaml for RestoreStatusCommon {
    open spec fn yaml_text(&self) -> Seq<char> {
        common_text(self.start as int, self.source@, self.destination@, self.id@)
    }

    fn to_yaml(&self) -> (r: String) {
        let mut r = String::new();
        push_common(&mut r, self.start, self.source.as_str(), self.destination.as_str(), self.id.as_str());
        assert(r@ =~= self.yaml_text());
        r
    }
}

impl RestoreStatus {
    /// The fields shared by every message.
    pub open spec fn common(&self) -> RestoreStatusCommon {
        match *self {
            RestoreStatus::Running { common, .. } => common,
            RestoreStatus::Finished { common, .. } => common,
            RestoreStatus::Failed { common, .. } => common,
        }
    }

    /// Whether the message ends the job.
    pub open spec fn is_terminal(&self) -> bool {
        !(self is Running)
    }

    /// Whether the message ends the job.
    pub fn terminal(&self) -> (r: bool)
        ensures
            r == self.is_terminal(),
    {
        match self {
            RestoreStatus::Running { .. } => false,
            _ => true,
        }
    }
}

impl ToYaml for RestoreStatus {
    open spec fn yaml_text(&self) -> Seq<char> {
        match *self {
            RestoreStatus::Running { common, complete, syncing, rate, estimated_finish } =>
                "type: restore\n"@ + common.yaml_text() + "\ncomplete: "@ + complete_text(complete as nat)
                + "\nsyncing: "@ + bool_text(syncing) + "\nrate: "@ + or_tilde(opt_view(rate))
                + "\nestimated_finish: "@ + opt_instant_text(estimated_finish),
            RestoreStatus::Finished { common, finish } => "type: restore\n"@ + common.yaml_text()
                + "\ncomplete: 1.0\nsyncing: false\nfinish: "@ + instant_text(finish as int),
            RestoreStatus::Failed { common, reason, finish } => "type: restore-failed\n"@
                + common.yaml_text() + "\nfinish: "@ + instant_text(finish as int) + "\nerror: "@
                + reason@,
        }
    }

    fn to_yaml(&self) -> (r: String) {
        match self {
            RestoreStatus::Running { common, complete, syncing, rate, estimated_finish } => {
                let mut r = String::from_str("type: restore\n");
                let c = common.to_yaml();
                r.append(c.as_str());
                r.append("\ncomplete: ");
                push_complete(&mut r, *complete);
                r.append("\nsyncing: ");
                push_bool(&mut r, *syncing);
                r.append("\nrate: ");
                match rate {
                    Some(t) => r.append(t.as_str()),
                    None => r.append("~"),
                }
                r.append("\nestimated_finish: ");
                match estimated_finish {
                    Some(t) => push_instant(&mut r, *t),
                    None => r.append("~"),
                }
                assert(r@ =~= self.yaml_text());
                r
            },
            RestoreStatus::Finished { common, finish } => {
                let mut r = String::from_str("type: restore\n");
                let c = common.to_yaml();
                r.append(c.as_str());
                r.append("\ncomplete: 1.0\nsyncing: false\nfinish: ");
                push_instant(&mut r, *finish);
                assert(r@ =~= self.yaml_text());
                r
            },
            RestoreStatus::Failed { common, reason, finish } => {
                let mut r = String::from_str("type: restore-failed\n");
                let c = common.to_yaml();
                r.append(c.as_str());
                r.append("\nfinish: ");
                push_instant(&mut r, *finish);
                r.append("\nerror: ");
                r.append(reason.as_str());
                assert(r@ =~= self.yaml_text());
                r
            },
        }
    }
}

/// The state of a restore job.
#[derive(Debug)]
pub struct RestoreJob {
    /// The image file.
    pub source: String,
    /// The block device written.
    pub destination: String,
    pub id: String,
    /// Seconds since the epoch.
    pub start: i64,
    pub sent_first_msg: bool,
    /// A terminal message was sent.
    pub terminated: bool,
}

/// `c` carries the job's fields.
pub open spec fn restore_common_of(c: RestoreStatusCommon, job: RestoreJob) -> bool {
    &&& c.id@ == job.id@
    &&& c.source@ == job.source@
    &&& c.destination@ == job.destination@
    &&& c.start == job.start
}

/// `st` is a `Failed` message of the job with the given reason and finish.
pub open spec fn is_restore_failure(st: RestoreStatus, job: RestoreJob, reason: Seq<char>, finish: int) -> bool {
    st matches RestoreStatus::Failed { common, reason: r, finish: f } && restore_common_of(common, job)
        && r@ == reason && f == finish
}

/// Why a restore cannot start from an image file.
#[derive(Debug)]
pub enum RestoreSetupError {
    /// The file name is not a valid image name.
    InvalidImage(String),
    /// The file name has no known compressor extension.
    UnknownCompression(String),
}

/// The imager variant and the compressor to restore the image `source`
/// with, both read from its file name.
pub fn restore_setup(source: &str) -> (r: Result<(String, Compression), RestoreSetupError>)
    ensures
        match (image_variant(source@), file_name_index(source@)) {
            (Some(v), Some(i)) => r matches Ok((var, z)) && var@ == v && is_registered(z, i),
            (None, _) => r matches Err(RestoreSetupError::InvalidImage(m)) && m@ == invalid_image_message(source@),
            (Some(_), None) => r matches Err(RestoreSetupError::UnknownCompression(m)) && m@ == unknown_file_message(source@),
        },
{
    let variant = match partclone_variant_from_image(source) {
        Ok(v) => v,
        Err(e) => return Err(RestoreSetupError::InvalidImage(e.0)),
    };
    match Compression::from_file_name(source) {
        Ok(z) => Ok((variant, z)),
        Err(m) => Err(RestoreSetupError::UnknownCompression(m)),
    }
}

/// What one advance of a job does: `before` and `after` are the job
/// before and after it, on observation `obs` at instant `now`, with outcome `r`.
pub open spec fn restore_advanced(before: RestoreJob, obs: ProgressPoll, now: int, after: RestoreJob, r: Option<RestoreStatus>) -> bool {
    &&& after.source == before.source
    &&& after.destination == before.destination
    &&& after.id == before.id
    &&& after.start == before.start
    &&& before.terminated ==> r is None && after == before
    &&& after.terminated == (before.terminated || (r matches Some(st) && st.is_terminal()))
    &&& !before.terminated ==> after.sent_first_msg
    &&& r matches Some(st) ==> restore_common_of(st.common(), before)
    &&& r matches Some(RestoreStatus::Running { complete, .. }) ==> complete <= MAX_RUNNING_COMPLETE
    &&& !before.terminated && !before.sent_first_msg ==> (r matches Some(
            RestoreStatus::Running { complete, syncing, rate, estimated_finish, .. }
        ) && complete == 0 && !syncing && rate is None && estimated_finish is None)
    &&& !before.terminated && before.sent_first_msg ==> match obs {
            ProgressPoll::Event(PartcloneStatus::Running { complete: c, rate: t, estimated_finish: e }) =>
                r matches Some(RestoreStatus::Running { complete, syncing, rate, estimated_finish, .. })
                && complete == capped_complete(c as nat) && syncing == (c > MAX_RUNNING_COMPLETE)
                && (rate matches Some(rt) && rt@ == t@) && estimated_finish == Some(e),
            ProgressPoll::Event(PartcloneStatus::Synced { finish: f }) =>
                r matches Some(RestoreStatus::Finished { finish, .. }) && finish == f,
            ProgressPoll::Event(PartcloneStatus::Failed { finish }) =>
                r matches Some(st) && is_restore_failure(st, before, "Failed"@, finish as int),
            ProgressPoll::Closed =>
                r matches Some(st) && is_restore_failure(st, before, "Failed"@, now as int),
            ProgressPoll::Empty => r is None
    }
}

impl RestoreJob {
    /// A job restoring `source` to `destination`, identified by `id` and
    /// started at `now`.
    pub fn create(source: String, destination: String, id: String, now: i64) -> (r: RestoreJob)
        ensures
            r.source == source,
            r.destination == destination,
            r.id == id,
            r.start == now,
            !r.sent_first_msg,
            !r.terminated,
    {
        RestoreJob { source, destination, id, start: now, sent_first_msg: false, terminated: false }
    }

    /// A job restoring `source` to `destination`, with a fresh identifier,
    /// started now.
    pub fn new(source: String, destination: String) -> (r: RestoreJob)
        ensures
            r.source == source,
            r.destination == destination,
            !r.sent_first_msg,
            !r.terminated,
    {
        Self::create(source, destination, fresh_id(), utc_now())
    }

    /// The job's identifier.
    pub fn id(&self) -> (r: String)
        ensures
            r@ == self.id@,
    {
        self.id.clone()
    }

    /// The fields shared by the job's messages.
    pub fn clone_status_common(&self) -> (r: RestoreStatusCommon)
        ensures
            restore_common_of(r, *self),
    {
        RestoreStatusCommon {
            id: self.id.clone(),
            source: self.source.clone(),
            destination: self.destination.clone(),
            start: self.start,
        }
    }

    /// A `Failed` message of the job with the given reason, at `now`.
    pub fn fail_status_at(&self, reason: &str, now: i64) -> (r: RestoreStatus)
        ensures
            is_restore_failure(r, *self, reason@, now as int),
    {
        RestoreStatus::Failed { common: self.clone_status_common(), reason: reason.to_owned(), finish: now }
    }

    /// A `Failed` message of the job with the given reason, at the current time.
    pub fn fail_status(&self, reason: &str) -> (r: RestoreStatus)
        ensures
            exists|now: int| is_restore_failure(r, *self, reason@, now),
    {
        self.fail_status_at(reason, utc_now())
    }

    /// Advances the job at instant `now` on what the progress channel held.
    ///
    /// The first call sends a `Running` message at 0. Then a progress event
    /// is passed on with its fraction capped below completion and `syncing`
    /// set once it is past the cap; the flush ends the job with `Finished`,
    /// and a failure or a lost progress reader with `Failed`. An empty
    /// channel sends nothing; so does a job that has ended.
    pub fn advance(&mut self, obs: ProgressPoll, now: i64) -> (r: Option<RestoreStatus>)
        ensures
            restore_advanced(*old(self), obs, now as int, *final(self), r),

    {
        if self.terminated {
            return None;
        }
        if !self.sent_first_msg {
            self.sent_first_msg = true;
            let common = self.clone_status_common();
            return Some(RestoreStatus::Running {
                common,
                complete: 0,
                syncing: false,
                rate: None,
                estimated_finish: None,
            });
        }
        match obs {
            ProgressPoll::Event(ev) => match ev {
                PartcloneStatus::Running { complete, rate, estimated_finish } => {
                    let syncing = complete > MAX_RUNNING_COMPLETE;
                    let capped = if syncing { MAX_RUNNING_COMPLETE } else { complete };
                    Some(RestoreStatus::Running {
                        common: self.clone_status_common(),
                        complete: capped,
                        syncing,
                        rate: Some(rate),
                        estimated_finish: Some(estimated_finish),
                    })
                },
                PartcloneStatus::Synced { finish } => {
                    let common = self.clone_status_common();
                    self.terminated = true;
                    Some(RestoreStatus::Finished { common, finish })
                },
                PartcloneStatus::Failed { finish } => {
                    let st = self.fail_status_at("Failed", finish);
                    self.terminated = true;
                    Some(st)
                },
            },
            ProgressPoll::Closed => {
                let st = self.fail_status_at("Failed", now);
                self.terminated = true;
                Some(st)
            },
            ProgressPoll::Empty => None,
        }
    }

    /// Advances the job at the current time on what the progress channel
    /// held; see [`RestoreJob::advance`].
    pub fn try_recv(&mut self, obs: ProgressPoll) -> (r: Option<RestoreStatus>)
        ensures
            exists|now: int| restore_advanced(*old(self), obs, now, *final(self), r),
    {
        self.advance(obs, utc_now())
    }
}

/// A restore job sends at most one terminal message: once it has sent
/// one, advancing it sends nothing and leaves it as it is.
pub proof fn lemma_restore_single_terminal(
    j0: RestoreJob, o1: ProgressPoll, n1: int, j1: RestoreJob, s1: Option<RestoreStatus>,
    o2: ProgressPoll, n2: int, j2: RestoreJob, s2: Option<RestoreStatus>,
)
    requires
        restore_advanced(j0, o1, n1, j1, s1),
        s1 matches Some(st) && st.is_terminal(),
        restore_advanced(j1, o2, n2, j2, s2),
    ensures
        s2 is None,
        j2 == j1,
{
}

} // verus!

use apart_core::child::{is_quiet_wait_error, teardown_plan, Teardown, WaitProbe};
use apart_core::clone::{CloneJob, CloneObservation, ProgressPoll};
use apart_core::inbound::Request;
use apart_core::partclone::PartcloneStatus;
use apart_core::restore::RestoreJob;
use apart_core::server::{receive_timeout_ms, Action, Server};

fn clone_job(id: &str) -> CloneJob {
    CloneJob::create("/dev/sda5".to_owned(), "/tmp", "j", "dd", "gz", None, "2017-04-20T1500", id.to_owned(), 0)
}

#[test]
fn dispatch_simple_requests() {
    let mut s = Server::new();
    assert!(matches!(s.dispatch(None), Action::Ignore));
    assert!(matches!(s.dispatch(Some(Request::Status)), Action::SendStatus));
    assert!(matches!(s.dispatch(Some(Request::Kill)), Action::Stop));
    match s.dispatch(Request::parse("type: restore\nsource: /a\ndestination: /dev/b")) {
        Action::StartRestore { source, destination } => {
            assert_eq!(source, "/a");
            assert_eq!(destination, "/dev/b");
        }
        other => panic!("unexpected {:?}", other),
    }
}

#[test]
fn cancel_clone_takes_job_out() {
    let mut s = Server::new();
    s.add_clone(clone_job("a"));
    s.add_clone(clone_job("b"));
    match s.dispatch(Some(Request::CancelClone { id: "b".to_owned() })) {
        Action::CancelClone(job) => assert_eq!(job.id, "b"),
        other => panic!("unexpected {:?}", other),
    }
    assert_eq!(s.clones.len(), 1);
    assert!(matches!(s.dispatch(Some(Request::CancelClone { id: "b".to_owned() })), Action::Ignore));
}

#[test]
fn cancel_restore_takes_job_out() {
    let mut s = Server::new();
    s.add_restore(RestoreJob::create("/a".to_owned(), "/dev/b".to_owned(), "r".to_owned(), 0));
    match s.dispatch(Some(Request::CancelRestore { id: "r".to_owned() })) {
        Action::CancelRestore(job) => assert_eq!(job.id, "r"),
        other => panic!("unexpected {:?}", other),
    }
    assert!(s.restores.is_empty());
}

#[test]
fn delete_image_requests() {
    let mut s = Server::new();
    match s.dispatch(Some(Request::DeleteImage { file: "/d/mockimg-2017-04-20T1500.apt.dd.gz".to_owned() })) {
        Action::DeleteImage(f) => assert_eq!(f, "/d/mockimg-2017-04-20T1500.apt.dd.gz"),
        other => panic!("unexpected {:?}", other),
    }
    match s.dispatch(Some(Request::DeleteImage { file: "/etc/passwd".to_owned() })) {
        Action::RejectDelete(f) => assert_eq!(f, "/etc/passwd"),
        other => panic!("unexpected {:?}", other),
    }
}

#[test]
fn ended_jobs_leave_the_registry() {
    let mut s = Server::new();
    s.add_clone(clone_job("a"));
    s.add_clone(clone_job("b"));
    let reports = s.poll_clones(vec![], 1);
    assert_eq!(reports.len(), 2);
    assert!(reports.iter().all(|r| r.step.status.is_some()));
    let reports = s.poll_clones(
        vec![
            CloneObservation::Progress(ProgressPoll::Event(PartcloneStatus::Failed { finish: 2 })),
            CloneObservation::Progress(ProgressPoll::Empty),
        ],
        2,
    );
    assert_eq!(reports[0].id, "a");
    assert!(reports[0].step.status.as_ref().unwrap().terminal());
    assert!(reports[1].step.status.is_none());
    assert_eq!(s.clones.len(), 1);
    assert_eq!(s.clones[0].id, "b");

    s.add_restore(RestoreJob::create("/a".to_owned(), "/dev/b".to_owned(), "r".to_owned(), 0));
    s.poll_restores(vec![], 3);
    let reports = s.poll_restores(vec![ProgressPoll::Event(PartcloneStatus::Synced { finish: 4 })], 4);
    assert!(reports[0].status.as_ref().unwrap().terminal());
    assert!(s.restores.is_empty());
}

#[test]
fn idle_timeout() {
    assert_eq!(receive_timeout_ms(true), 0);
    assert_eq!(receive_timeout_ms(false), 10);
}

#[test]
fn child_teardown() {
    assert_eq!(teardown_plan(WaitProbe::Running), Teardown { kill: true, wait: true, warn_failed_exit: false });
    assert_eq!(
        teardown_plan(WaitProbe::Exited { success: false }),
        Teardown { kill: false, wait: true, warn_failed_exit: true }
    );
    assert_eq!(
        teardown_plan(WaitProbe::Error { errno: Some(10) }),
        Teardown { kill: false, wait: false, warn_failed_exit: false }
    );
    assert!(is_quiet_wait_error(Some(10)));
    assert!(!is_quiet_wait_error(Some(4)));
    assert!(!is_quiet_wait_error(None));
}

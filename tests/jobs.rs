use apart_core::clone::{ChildExit, CloneJob, CloneObservation, ClonePhase, CloneStatus, ProgressPoll, RenamePoll};
use apart_core::compression::Compression;
use apart_core::outbound::ToYaml;
use apart_core::partclone::{clone_args, clone_variant, restore_args, PartcloneStatus};
use apart_core::restore::{restore_setup, RestoreJob, RestoreSetupError, RestoreStatus};
use yaml_rust::YamlLoader;

fn job(variant: &str) -> CloneJob {
    CloneJob::create(
        "/dev/sda5".to_owned(),
        "/tmp/out",
        "job",
        variant,
        "gz",
        None,
        "2017-04-20T1500",
        "id-1".to_owned(),
        1000,
    )
}

fn progress(complete: u64, rate: &str, finish: i64) -> CloneObservation {
    CloneObservation::Progress(ProgressPoll::Event(PartcloneStatus::Running {
        complete,
        rate: rate.to_owned(),
        estimated_finish: finish,
    }))
}

fn exits(imager: ChildExit, compressor: ChildExit, rename: RenamePoll) -> CloneObservation {
    CloneObservation::Exits { imager, compressor, rename }
}

#[test]
fn successful_clone() {
    let mut j = job("dd");
    assert_eq!(j.phase(), ClonePhase::Starting);
    let first = j.try_recv(CloneObservation::Nothing).status.unwrap();
    let yaml = YamlLoader::load_from_str(&first.to_yaml()).unwrap().remove(0);
    assert_eq!(yaml["complete"].as_f64(), Some(0.0));
    assert_eq!(yaml["destination"].as_str(), Some("/tmp/out/job-2017-04-20T1500.apt.dd.gz"));

    let st = j.advance(progress(5634, "0.01GB/min", 1182), 1000).status.unwrap();
    let yaml = YamlLoader::load_from_str(&st.to_yaml()).unwrap().remove(0);
    assert_eq!(yaml["complete"].as_f64(), Some(0.5634));
    assert_eq!(yaml["rate"].as_str(), Some("0.01GB/min"));

    let st = j.advance(progress(10000, "12.23GB/min", 1000), 1000).status.unwrap();
    match st {
        CloneStatus::Running { complete, .. } => assert_eq!(complete, 9999),
        other => panic!("unexpected {:?}", other),
    }

    let st = j.advance(CloneObservation::Progress(ProgressPoll::Empty), 1000);
    assert!(st.status.is_none());
    let st = j
        .advance(CloneObservation::Progress(ProgressPoll::Event(PartcloneStatus::Synced { finish: 1001 })), 1001)
        .status
        .unwrap();
    let yaml = YamlLoader::load_from_str(&st.to_yaml()).unwrap().remove(0);
    assert_eq!(yaml["syncing"].as_bool(), Some(true));
    assert_eq!(j.phase(), ClonePhase::Finishing);

    let step = j.advance(exits(ChildExit::Succeeded, ChildExit::Running, RenamePoll::Pending), 1002);
    assert!(step.status.is_none() && !step.start_rename);
    let step = j.advance(exits(ChildExit::Succeeded, ChildExit::Succeeded, RenamePoll::Pending), 1002);
    assert!(step.status.is_none() && step.start_rename);
    let step = j.advance(exits(ChildExit::Succeeded, ChildExit::Succeeded, RenamePoll::Pending), 1003);
    assert!(step.status.is_none() && !step.start_rename);
    let st = j
        .advance(exits(ChildExit::Succeeded, ChildExit::Succeeded, RenamePoll::Done(4242)), 1004)
        .status
        .unwrap();
    assert!(st.terminal());
    let yaml = YamlLoader::load_from_str(&st.to_yaml()).unwrap().remove(0);
    assert_eq!(yaml["complete"].as_f64(), Some(1.0));
    assert_eq!(yaml["image_size"].as_i64(), Some(4242));
    assert!(yaml["destination"].as_str().unwrap().ends_with("job-2017-04-20T1500.apt.dd.gz"));
    assert_eq!(j.phase(), ClonePhase::Done);
    let after = j.advance(exits(ChildExit::Succeeded, ChildExit::Succeeded, RenamePoll::Done(1)), 1005);
    assert!(after.status.is_none());
}

#[test]
fn clone_with_fstype_variant() {
    let variant = clone_variant(Some("f2fs".to_owned()), true);
    assert_eq!(clone_args(&variant, "/dev/sdb3"), vec!["-c", "-s", "/dev/sdb3"]);
    let j = job(&variant);
    assert!(j.successful_destination().ends_with(".f2fs.gz"));
    assert!(j.destination.ends_with(".f2fs.gz.inprogress"));
}

#[test]
fn cancel_clone_message() {
    let j = job("dd");
    let st = j.fail_status("Cancelled");
    let yaml = YamlLoader::load_from_str(&st.to_yaml()).unwrap().remove(0);
    assert_eq!(yaml["type"].as_str(), Some("clone-failed"));
    assert_eq!(yaml["error"].as_str(), Some("Cancelled"));
    assert_eq!(yaml["id"].as_str(), Some("id-1"));
}

#[test]
fn imager_failure() {
    let mut j = job("dd");
    j.advance(CloneObservation::Nothing, 1000);
    let st = j
        .advance(CloneObservation::Progress(ProgressPoll::Event(PartcloneStatus::Failed { finish: 1100 })), 1200)
        .status
        .unwrap();
    let yaml = YamlLoader::load_from_str(&st.to_yaml()).unwrap().remove(0);
    assert_eq!(yaml["type"].as_str(), Some("clone-failed"));
    assert_eq!(yaml["error"].as_str(), Some("Failed"));
    assert_eq!(j.phase(), ClonePhase::Done);
}

#[test]
fn lost_progress_reader_fails() {
    let mut j = job("dd");
    j.advance(CloneObservation::Nothing, 1000);
    let st = j.advance(CloneObservation::Progress(ProgressPoll::Closed), 1200).status.unwrap();
    match st {
        CloneStatus::Failed { reason, finish, .. } => {
            assert_eq!(reason, "Failed");
            assert_eq!(finish, 1200);
        }
        other => panic!("unexpected {:?}", other),
    }
}

#[test]
fn child_failures_after_sync() {
    for (imager, compressor, reason) in [
        (ChildExit::Failed, ChildExit::Succeeded, "Clone failed"),
        (ChildExit::Running, ChildExit::Failed, "Compress failed"),
    ] {
        let mut j = job("dd");
        j.advance(CloneObservation::Nothing, 1000);
        j.advance(CloneObservation::Progress(ProgressPoll::Event(PartcloneStatus::Synced { finish: 1 })), 1);
        match j.advance(exits(imager, compressor, RenamePoll::Pending), 5).status {
            Some(CloneStatus::Failed { reason: r, .. }) => assert_eq!(r, reason),
            other => panic!("unexpected {:?}", other),
        }
    }
}

#[test]
fn rename_failure() {
    let mut j = job("dd");
    j.advance(CloneObservation::Nothing, 1000);
    j.advance(CloneObservation::Progress(ProgressPoll::Event(PartcloneStatus::Synced { finish: 1 })), 1);
    assert!(j.advance(exits(ChildExit::Succeeded, ChildExit::Succeeded, RenamePoll::Pending), 2).start_rename);
    match j.advance(exits(ChildExit::Succeeded, ChildExit::Succeeded, RenamePoll::Failed), 3).status {
        Some(CloneStatus::Failed { reason, .. }) => {
            assert_eq!(reason, "Failed to rename /tmp/out/job-2017-04-20T1500.apt.dd.gz.inprogress")
        }
        other => panic!("unexpected {:?}", other),
    }
}

#[test]
fn new_clone_job_is_fresh() {
    let j = CloneJob::new("/dev/sda5".to_owned(), "/tmp", "n", "dd", "gz", Some("u".to_owned()));
    assert_eq!(j.id().len(), 36);
    assert!(j.destination.starts_with("/tmp/n-"));
    assert!(j.destination.ends_with(".apt.dd.gz.inprogress"));
    assert_eq!(j.phase(), ClonePhase::Starting);
}

#[test]
fn successful_restore_with_decompression() {
    let (variant, z) = restore_setup("/mnt/b/mockimg-2017-04-20T1500.apt.dd.gz").unwrap();
    assert_eq!(variant, "dd");
    assert_eq!(z, Compression::pigz());
    assert_eq!(restore_args(&variant, "/dev/abc123"), vec!["-o", "/dev/abc123"]);
    let mut j = RestoreJob::create(
        "/mnt/b/mockimg-2017-04-20T1500.apt.dd.gz".to_owned(),
        "/dev/abc123".to_owned(),
        "r-1".to_owned(),
        10,
    );
    let first = j.advance(ProgressPoll::Empty, 10).unwrap();
    let yaml = YamlLoader::load_from_str(&first.to_yaml()).unwrap().remove(0);
    assert_eq!(yaml["complete"].as_f64(), Some(0.0));
    assert_eq!(yaml["syncing"].as_bool(), Some(false));
    let st = j
        .advance(
            ProgressPoll::Event(PartcloneStatus::Running { complete: 10000, rate: "1GB/min".to_owned(), estimated_finish: 20 }),
            11,
        )
        .unwrap();
    match st {
        RestoreStatus::Running { complete, syncing, .. } => {
            assert_eq!(complete, 9999);
            assert!(syncing);
        }
        other => panic!("unexpected {:?}", other),
    }
    assert!(j.advance(ProgressPoll::Empty, 12).is_none());
    let done = j.advance(ProgressPoll::Event(PartcloneStatus::Synced { finish: 30 }), 31).unwrap();
    assert!(done.terminal());
    let yaml = YamlLoader::load_from_str(&done.to_yaml()).unwrap().remove(0);
    assert_eq!(yaml["type"].as_str(), Some("restore"));
    assert_eq!(yaml["complete"].as_f64(), Some(1.0));
    assert!(yaml["finish"].as_str().is_some());
    assert!(j.advance(ProgressPoll::Event(PartcloneStatus::Synced { finish: 40 }), 41).is_none());
}

#[test]
fn restore_failure_and_setup_errors() {
    let mut j = RestoreJob::new("/m/x-2017-04-20T1500.apt.ext2.lz4".to_owned(), "/dev/abc".to_owned());
    j.try_recv(ProgressPoll::Empty);
    match j.advance(ProgressPoll::Event(PartcloneStatus::Failed { finish: 3 }), 4) {
        Some(RestoreStatus::Failed { reason, finish, .. }) => {
            assert_eq!(reason, "Failed");
            assert_eq!(finish, 3);
        }
        other => panic!("unexpected {:?}", other),
    }
    match restore_setup("/m/x.gz") {
        Err(RestoreSetupError::InvalidImage(m)) => assert_eq!(m, "Invalid image file: /m/x.gz"),
        other => panic!("unexpected {:?}", other),
    }
    match restore_setup("/m/x-2017-04-20T1500.apt.dd.bz2") {
        Err(RestoreSetupError::UnknownCompression(_)) => {}
        other => panic!("unexpected {:?}", other),
    }
    let (v, z) = restore_setup("/m/x-2017-04-20T1500.apt.f2fs.zstd").unwrap();
    assert_eq!(v, "f2fs");
    assert_eq!(z, Compression::zstd());
}

use apart_core::partclone::{
    clone_args, clone_variant, cmd_candidate, default_prefix_list, imager_path, parse_decimal, parse_percent,
    restore_args, OutputParser, PartcloneStatus,
};

fn chars(s: &str) -> Vec<char> {
    s.chars().collect()
}

#[test]
fn percent_parsing() {
    assert_eq!(parse_percent(&chars("56.34")), Some(5634));
    assert_eq!(parse_percent(&chars("100.00")), Some(10000));
    assert_eq!(parse_percent(&chars("100")), Some(10000));
    assert_eq!(parse_percent(&chars("5.5")), Some(550));
    assert_eq!(parse_percent(&chars("7.")), Some(700));
    assert_eq!(parse_percent(&chars("")), None);
    assert_eq!(parse_percent(&chars("1.234")), None);
    assert_eq!(parse_percent(&chars("a1")), None);
}

#[test]
fn decimal_parsing() {
    assert_eq!(parse_decimal(&chars("00"), 99), Some(0));
    assert_eq!(parse_decimal(&chars("42"), 99), Some(42));
    assert_eq!(parse_decimal(&chars("100"), 99), None);
    assert_eq!(parse_decimal(&chars("18446744073709551615"), u64::MAX), Some(u64::MAX));
    assert_eq!(parse_decimal(&chars("18446744073709551616"), u64::MAX), None);
    assert_eq!(parse_decimal(&chars("-1"), 99), None);
}

const PROGRESS: &str = "Elapsed: 00:00:01, Remaining: 00:03:02, Completed:  56.34%, Rate:   0.01GB/min,";

#[test]
fn progress_lines_are_read_after_the_header() {
    let now = 1_500_000_000;
    let mut p = OutputParser::new();
    let ev = p.read_line(PROGRESS, now);
    assert!(ev.statuses.is_empty() && !ev.invalid && !p.started_main_output);
    let ev = p.read_line("File system:  EXTFS", now);
    assert!(ev.statuses.is_empty() && p.started_main_output);
    let ev = p.read_line(PROGRESS, now);
    assert!(!ev.invalid);
    assert_eq!(ev.statuses.len(), 1);
    match &ev.statuses[0] {
        PartcloneStatus::Running { complete, rate, estimated_finish } => {
            assert_eq!(*complete, 5634);
            assert_eq!(rate, "0.01GB/min");
            assert_eq!(*estimated_finish, now + 3 * 60 + 2);
        }
        other => panic!("unexpected {:?}", other),
    }
}

#[test]
fn handle_rate_without_label() {
    let mut p = OutputParser::new();
    p.read_line("File system: NTFS", 0);
    let ev = p.read_line("Remaining: 01:00:00, Completed: 100.00%, 2.34GB/min,", 10);
    match &ev.statuses[0] {
        PartcloneStatus::Running { complete, rate, estimated_finish } => {
            assert_eq!(*complete, 10000);
            assert_eq!(rate, "2.34GB/min");
            assert_eq!(*estimated_finish, 3610);
        }
        other => panic!("unexpected {:?}", other),
    }
}

#[test]
fn synced_stream_finishes_synced() {
    let mut p = OutputParser::new();
    p.read_line("File system: EXTFS", 0);
    let ev = p.read_line("Syncing... OK!", 0);
    assert!(ev.statuses.is_empty() && p.synced);
    let ev = p.read_line(PROGRESS, 0);
    assert!(ev.statuses.is_empty());
    match p.finish(77) {
        PartcloneStatus::Synced { finish } => assert_eq!(finish, 77),
        other => panic!("unexpected {:?}", other),
    }
}

#[test]
fn unsynced_stream_fails_and_keeps_tail() {
    let mut p = OutputParser::new();
    for i in 0..6 {
        p.read_line(&format!("line {}", i), 0);
    }
    assert_eq!(p.tail, vec!["line 2", "line 3", "line 4", "line 5"]);
    match p.finish(5) {
        PartcloneStatus::Failed { finish } => assert_eq!(finish, 5),
        other => panic!("unexpected {:?}", other),
    }
}

#[test]
fn unreadable_duration_is_invalid() {
    let mut p = OutputParser::new();
    p.read_line("File system: EXTFS", 0);
    let ev = p.read_line(
        "Remaining: 99999999999999999999:00:00, Completed: 1.00%, Rate: 1GB/min,",
        0,
    );
    assert!(ev.invalid);
    assert!(ev.statuses.is_empty());
}

#[test]
fn imager_binary_resolution() {
    assert_eq!(default_prefix_list().len(), 7);
    assert_eq!(imager_path("/usr/sbin/partclone", "ext4"), "/usr/sbin/partclone.ext4");
    assert_eq!(cmd_candidate("f2fs", Some("/tmp/mock"), &vec![]), Some("/tmp/mock.f2fs".to_owned()));
    assert_eq!(
        cmd_candidate("dd", None, &vec![false, false, true, true]),
        Some("/bin/partclone.dd".to_owned())
    );
    assert_eq!(cmd_candidate("dd", None, &vec![false; 7]), None);
}

#[test]
fn clone_using_variant_args() {
    assert_eq!(clone_variant(Some("f2fs".to_owned()), true), "f2fs");
    assert_eq!(clone_variant(Some("f2fs".to_owned()), false), "dd");
    assert_eq!(clone_variant(None, true), "dd");
    assert_eq!(clone_args("f2fs", "/dev/sdb3"), vec!["-c", "-s", "/dev/sdb3"]);
    assert_eq!(clone_args("dd", "/dev/sda5"), vec!["-s", "/dev/sda5"]);
    assert_eq!(restore_args("ext2", "/dev/abc124"), vec!["-r", "-o", "/dev/abc124"]);
    assert_eq!(restore_args("dd", "/dev/abc123"), vec!["-o", "/dev/abc123"]);
}

use apart_core::clone::{CloneStatus, CloneStatusCommon};
use apart_core::compression::Compression;
use apart_core::devices::{Device, Partition, SizeField};
use apart_core::outbound::ToYaml;
use apart_core::restore::{RestoreStatus, RestoreStatusCommon};
use apart_core::server::{DeleteFailure, DeleteResult};
use apart_core::status::status_yaml;
use chrono::{TimeZone, Utc};
use yaml_rust::YamlLoader;

fn secs(y: i32, mo: u32, d: u32, h: u32, mi: u32, s: u32) -> i64 {
    Utc.with_ymd_and_hms(y, mo, d, h, mi, s).unwrap().timestamp()
}

fn part(name: &str, size: u64, fstype: Option<&str>, label: Option<&str>, mountpoint: Option<&str>) -> Partition {
    Partition {
        name: Some(name.to_owned()),
        size: SizeField::Number(size),
        fstype: fstype.map(|s| s.to_owned()),
        label: label.map(|s| s.to_owned()),
        mountpoint: mountpoint.map(|s| s.to_owned()),
        uuid: None,
    }
}

#[test]
fn status_started_yaml() {
    let lsblk = vec![Device {
        name: Some("sda".to_owned()),
        size: SizeField::Number(750156374016),
        children: Some(vec![
            part("sda2", 536766054400, None, None, None),
            part("sda3", 181070200832, Some("ext4"), Some("Arch"), Some("/")),
        ]),
    }];
    let yaml = YamlLoader::load_from_str(&status_yaml("started", &lsblk, &Compression::all_installed(&vec![])))
        .unwrap()
        .remove(0);
    assert_eq!(yaml["type"].as_str(), Some("status"));
    assert_eq!(yaml["status"].as_str(), Some("started"));

    let sda = &yaml["sources"][0];
    assert_eq!(sda["name"].as_str(), Some("sda"));
    assert_eq!(sda["size"].as_i64(), Some(750_156_374_016));

    assert_eq!(sda["parts"][0]["name"].as_str(), Some("sda2"));
    assert_eq!(sda["parts"][0]["size"].as_i64(), Some(536_766_054_400));
    assert_eq!(sda["parts"][0]["fstype"].as_str(), None, "sda2.fstype");
    assert_eq!(sda["parts"][0]["label"].as_str(), None, "sda2.label");
    assert_eq!(sda["parts"][0]["mounted"].as_bool(), Some(false), "sda2.mounted");

    assert_eq!(sda["parts"][1]["name"].as_str(), Some("sda3"));
    assert_eq!(sda["parts"][1]["size"].as_i64(), Some(181_070_200_832));
    assert_eq!(sda["parts"][1]["fstype"].as_str(), Some("ext4"));
    assert_eq!(sda["parts"][1]["label"].as_str(), Some("Arch"));
    assert_eq!(sda["parts"][1]["mounted"].as_bool(), Some(true), "sda3.mounted");
}

#[test]
fn status_lists_only_complete_devices() {
    let lsblk = vec![
        Device { name: Some("loop0".to_owned()), size: SizeField::Text("4096".to_owned()), children: None },
        Device {
            name: Some("sdb".to_owned()),
            size: SizeField::Text("1024".to_owned()),
            children: Some(vec![
                Partition {
                    name: Some("sdb1".to_owned()),
                    size: SizeField::Text("512".to_owned()),
                    fstype: Some("ext2".to_owned()),
                    label: Some("yes: no".to_owned()),
                    mountpoint: None,
                    uuid: Some("456-456-456".to_owned()),
                },
                Partition {
                    name: Some("sdb2".to_owned()),
                    size: SizeField::Text("12x".to_owned()),
                    fstype: None,
                    label: None,
                    mountpoint: None,
                    uuid: None,
                },
            ]),
        },
    ];
    let installed = Compression::all_installed(&vec![true, false, true, false]);
    let yaml = YamlLoader::load_from_str(&status_yaml("running", &lsblk, &installed)).unwrap().remove(0);
    assert_eq!(yaml["status"].as_str(), Some("running"));
    let sources = yaml["sources"].as_vec().unwrap();
    assert_eq!(sources.len(), 1);
    assert_eq!(sources[0]["name"].as_str(), Some("sdb"));
    assert_eq!(sources[0]["size"].as_i64(), Some(1024));
    let parts = sources[0]["parts"].as_vec().unwrap();
    assert_eq!(parts.len(), 1);
    assert_eq!(parts[0]["label"].as_str(), Some("yes: no"));
    assert_eq!(parts[0]["uuid"].as_str(), Some("456-456-456"));
    let options = yaml["compression_options"].as_vec().unwrap();
    assert_eq!(options.len(), 2);
    assert_eq!(options[0].as_str(), Some("gz"));
    assert_eq!(options[1].as_str(), Some("zst"));
}

#[test]
fn status_dying_has_no_sources() {
    let yaml = YamlLoader::load_from_str(&status_yaml("dying", &vec![], &vec![])).unwrap().remove(0);
    assert_eq!(yaml["status"].as_str(), Some("dying"));
    assert!(yaml["sources"].is_badvalue());
    assert_eq!(yaml["compression_options"].as_vec().map(|v| v.len()), Some(0));
}

fn clone_common(source: &str, destination: &str, uuid: Option<&str>) -> CloneStatusCommon {
    CloneStatusCommon {
        source: source.to_owned(),
        destination: destination.to_owned(),
        inprogress_destination: "/mnt/backups/ars2.gz.inprogress".to_owned(),
        start: secs(2017, 4, 18, 15, 44, 12),
        id: "some-id".to_owned(),
        source_uuid: uuid.map(|s| s.to_owned()),
    }
}

#[test]
fn clone_running_to_yaml() {
    let yaml_str = CloneStatus::Running {
        common: clone_common("/dev/ars2", "/mnt/backups/ars2.gz", Some("123-234-345")),
        estimated_finish: Some(secs(2017, 4, 18, 15, 45, 00)),
        complete: 1230,
        rate: Some("1GB/s".to_owned()),
    }
    .to_yaml();
    let yaml = YamlLoader::load_from_str(&yaml_str).unwrap().remove(0);
    assert_eq!(yaml["type"].as_str(), Some("clone"));
    assert_eq!(yaml["complete"].as_f64(), Some(0.123));
    assert_eq!(yaml["id"].as_str(), Some("some-id"));
    assert_eq!(yaml["rate"].as_str(), Some("1GB/s"));
    assert_eq!(yaml["start"].as_str(), Some("2017-04-18T15:44:12Z"));
    assert_eq!(yaml["source"].as_str(), Some("/dev/ars2"));
    assert_eq!(yaml["destination"].as_str(), Some("/mnt/backups/ars2.gz"));
    assert_eq!(yaml["source_uuid"].as_str(), Some("123-234-345"));
}

fn restore_common(source: &str, destination: &str) -> RestoreStatusCommon {
    RestoreStatusCommon {
        source: source.to_owned(),
        destination: destination.to_owned(),
        start: secs(2017, 4, 18, 15, 44, 12),
        id: "some-id".to_owned(),
    }
}

#[test]
fn restore_running_to_yaml() {
    let yaml_str = RestoreStatus::Running {
        common: restore_common("/mnt/backups/ars2.gz", "/dev/ars2"),
        estimated_finish: Some(secs(2017, 4, 18, 15, 45, 00)),
        complete: 1230,
        syncing: false,
        rate: Some("1GB/s".to_owned()),
    }
    .to_yaml();

    println!("{}", yaml_str);

    let yaml = YamlLoader::load_from_str(&yaml_str).unwrap().remove(0);
    assert_eq!(yaml["type"].as_str(), Some("restore"));
    assert_eq!(yaml["complete"].as_f64(), Some(0.123));
    assert_eq!(yaml["syncing"].as_bool(), Some(false));
    assert_eq!(yaml["id"].as_str(), Some("some-id"));
    assert_eq!(yaml["rate"].as_str(), Some("1GB/s"));
    assert_eq!(yaml["start"].as_str(), Some("2017-04-18T15:44:12Z"));
    assert_eq!(yaml["destination"].as_str(), Some("/dev/ars2"));
    assert_eq!(yaml["source"].as_str(), Some("/mnt/backups/ars2.gz"));
}

#[test]
fn job_running_none_options() {
    let yaml_str = CloneStatus::Running {
        common: clone_common("/dev/ars2", "/mnt/backups/ars2.gz", None),
        estimated_finish: None,
        complete: 1230,
        rate: None,
    }
    .to_yaml();
    let yaml = YamlLoader::load_from_str(&yaml_str).unwrap().remove(0);
    assert_eq!(yaml["rate"].as_str(), None);
    assert_eq!(yaml["estimated_finish"].as_str(), None);
}

#[test]
fn clone_finished_to_yaml() {
    let yaml_str = CloneStatus::Finished {
        common: clone_common("/dev/ars3", "/mnt/backups/ars3.gz", None),
        finish: secs(2017, 4, 18, 15, 45, 34),
        image_size: 123_123,
    }
    .to_yaml();
    let yaml = YamlLoader::load_from_str(&yaml_str).unwrap().remove(0);
    assert_eq!(yaml["type"].as_str(), Some("clone"));
    assert_eq!(yaml["complete"].as_f64(), Some(1.0));
    assert_eq!(yaml["id"].as_str(), Some("some-id"));
    assert_eq!(yaml["start"].as_str(), Some("2017-04-18T15:44:12Z"));
    assert_eq!(yaml["finish"].as_str(), Some("2017-04-18T15:45:34Z"));
    assert_eq!(yaml["source"].as_str(), Some("/dev/ars3"));
    assert_eq!(yaml["destination"].as_str(), Some("/mnt/backups/ars3.gz"));
    assert_eq!(yaml["image_size"].as_i64(), Some(123_123));
}

#[test]
fn restore_finished_to_yaml() {
    let yaml_str = RestoreStatus::Finished {
        common: restore_common("/mnt/backups/ars3.gz", "/dev/ars3"),
        finish: secs(2017, 4, 18, 15, 45, 34),
    }
    .to_yaml();
    let yaml = YamlLoader::load_from_str(&yaml_str).unwrap().remove(0);
    assert_eq!(yaml["type"].as_str(), Some("restore"));
    assert_eq!(yaml["complete"].as_f64(), Some(1.0));
    assert_eq!(yaml["id"].as_str(), Some("some-id"));
    assert_eq!(yaml["start"].as_str(), Some("2017-04-18T15:44:12Z"));
    assert_eq!(yaml["finish"].as_str(), Some("2017-04-18T15:45:34Z"));
    assert_eq!(yaml["source"].as_str(), Some("/mnt/backups/ars3.gz"));
    assert_eq!(yaml["destination"].as_str(), Some("/dev/ars3"));
}

#[test]
fn job_failed_to_yaml() {
    let yaml_str = CloneStatus::Failed {
        common: clone_common("/dev/ars3", "/mnt/backups/ars3.gz", None),
        finish: secs(2017, 4, 18, 15, 45, 34),
        reason: "something went wrong".to_owned(),
    }
    .to_yaml();
    let yaml = YamlLoader::load_from_str(&yaml_str).unwrap().remove(0);
    assert_eq!(yaml["type"].as_str(), Some("clone-failed"));
    assert_eq!(yaml["id"].as_str(), Some("some-id"));
    assert_eq!(yaml["start"].as_str(), Some("2017-04-18T15:44:12Z"));
    assert_eq!(yaml["finish"].as_str(), Some("2017-04-18T15:45:34Z"));
    assert_eq!(yaml["source"].as_str(), Some("/dev/ars3"));
    assert_eq!(yaml["destination"].as_str(), Some("/mnt/backups/ars3.gz"));
    assert_eq!(yaml["error"].as_str(), Some("something went wrong"));
}

#[test]
fn job_running_to_yaml_ensure_float() {
    let yaml_str = CloneStatus::Running {
        common: clone_common("/dev/ars3", "/mnt/backups/ars3.gz", None),
        estimated_finish: Some(secs(2017, 4, 18, 15, 45, 00)),
        complete: 10000,
        rate: Some("2GB/s".to_owned()),
    }
    .to_yaml();
    let yaml = YamlLoader::load_from_str(&yaml_str).unwrap().remove(0);
    assert_eq!(yaml["complete"].as_f64(), Some(1.0));
    let yaml_str = CloneStatus::Running {
        common: clone_common("/dev/ars3", "/mnt/backups/ars3.gz", None),
        estimated_finish: Some(secs(2017, 4, 18, 15, 45, 00)),
        complete: 0,
        rate: Some("3GB/s".to_owned()),
    }
    .to_yaml();
    let yaml = YamlLoader::load_from_str(&yaml_str).unwrap().remove(0);
    assert_eq!(yaml["complete"].as_f64(), Some(0.0));
}

#[test]
fn complete_text_forms() {
    let render = |c: u64| {
        CloneStatus::Running {
            common: clone_common("/dev/a", "/b", None),
            estimated_finish: None,
            complete: c,
            rate: None,
        }
        .to_yaml()
    };
    assert!(render(0).contains("\ncomplete: 0.0\n"));
    assert!(render(5634).contains("\ncomplete: 0.5634\n"));
    assert!(render(500).contains("\ncomplete: 0.05\n"));
    assert!(render(9999).contains("\ncomplete: 0.9999\n"));
    assert!(render(10000).contains("\ncomplete: 1.0\n"));
    assert!(render(12500).contains("\ncomplete: 1.25\n"));
}

#[test]
fn syncing_to_yaml() {
    let yaml_str = CloneStatus::Syncing { common: clone_common("/dev/a", "/b", None) }.to_yaml();
    let yaml = YamlLoader::load_from_str(&yaml_str).unwrap().remove(0);
    assert_eq!(yaml["syncing"].as_bool(), Some(true));
    assert_eq!(yaml["complete"].as_f64(), Some(0.9999));
}

#[test]
fn delete_results_to_yaml() {
    let ok = DeleteResult("/m/a.gz".to_owned(), Ok(())).to_yaml();
    assert_eq!(ok, "type: deleted-clone\nfile: /m/a.gz");
    let missing = DeleteResult("/m/a.gz".to_owned(), Err(DeleteFailure::NotFound)).to_yaml();
    let yaml = YamlLoader::load_from_str(&missing).unwrap().remove(0);
    assert_eq!(yaml["type"].as_str(), Some("delete-clone-failed"));
    assert_eq!(yaml["file"].as_str(), Some("/m/a.gz"));
    assert_eq!(yaml["error"].as_str(), Some("No such file"));
    let other = DeleteResult("/m/a.gz".to_owned(), Err(DeleteFailure::Other("Permission denied".to_owned()))).to_yaml();
    assert!(other.ends_with("\nerror: Permission denied"));
}

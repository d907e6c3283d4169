use apart_core::devices::{fstype, uuid, Device, Partition, SizeField};

fn tree() -> Vec<Device> {
    let p = |name: &str, fs: Option<&str>, id: Option<&str>| Partition {
        name: Some(name.to_owned()),
        size: SizeField::Number(1024),
        fstype: fs.map(|s| s.to_owned()),
        label: None,
        mountpoint: None,
        uuid: id.map(|s| s.to_owned()),
    };
    vec![
        Device { name: Some("sda".to_owned()), size: SizeField::Number(1), children: None },
        Device {
            name: Some("sdb".to_owned()),
            size: SizeField::Number(2),
            children: Some(vec![p("sdb1", Some("ext2"), Some("456-456-456")), p("sdb3", Some("f2fs"), None)]),
        },
    ]
}

#[test]
fn fstype_by_dev_path() {
    let t = tree();
    assert_eq!(fstype(&t, "/dev/sdb3"), Some("f2fs".to_owned()));
    assert_eq!(fstype(&t, "/dev/sdb1"), Some("ext2".to_owned()));
    assert_eq!(fstype(&t, "sdb1"), None);
    assert_eq!(fstype(&t, "/dev/sda"), None);
    assert_eq!(fstype(&vec![], "/dev/sdb1"), None);
}

#[test]
fn uuid_by_dev_path() {
    let t = tree();
    assert_eq!(uuid(&t, "/dev/sdb1"), Some("456-456-456".to_owned()));
    assert_eq!(uuid(&t, "/dev/sdb3"), None);
}

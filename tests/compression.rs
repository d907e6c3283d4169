use apart_core::compression::Compression;

#[test]
fn from_gz_file_name() {
    let z = Compression::from_file_name("some-backup-2017-08-09G1106.apt.f2fs.gz");
    assert_eq!(z, Ok(Compression::pigz()));
}

#[test]
fn from_zst_file_name() {
    let z = Compression::from_file_name("some-backup-2017-08-09G1106.apt.f2fs.zst");
    assert_eq!(z, Ok(Compression::zstd()));
    // also support old extension
    let old_z = Compression::from_file_name("some-backup-2017-08-09G1106.apt.f2fs.zstd");
    assert_eq!(old_z, Ok(Compression::zstd()));
}

#[test]
fn from_file_name_each_registered_extension() {
    assert_eq!(Compression::from_file_name("a.apt.dd.uncompressed"), Ok(Compression::none()));
    assert_eq!(Compression::from_file_name("a.apt.dd.lz4"), Ok(Compression::lz4()));
    assert_eq!(Compression::from_file_name("a.apt.dd.gz").unwrap().command, "pigz");
}

#[test]
fn from_file_name_unknown_extension() {
    assert_eq!(
        Compression::from_file_name("a.apt.dd.bz2"),
        Err("Unknown compression used in file `a.apt.dd.bz2`".to_owned())
    );
    assert!(Compression::from_file_name("").is_err());
    assert!(Compression::from_file_name("gz").is_err());
}

#[test]
fn from_name_lookup() {
    assert_eq!(Compression::from_name("zst"), Ok(Compression::zstd()));
    assert_eq!(Compression::from_name("uncompressed").unwrap().command, "cat");
    assert_eq!(
        Compression::from_name("zstd"),
        Err("Unknown compression name `zstd`".to_owned())
    );
}

#[test]
fn default_is_pigz() {
    let z = Compression::default();
    assert_eq!(z, Compression::pigz());
    assert_eq!(z.write_args, &["-1c"]);
    assert_eq!(z.read_args, &["-dc"]);
    assert_eq!(Compression::zstd().read_args, &["-T0", "--long=31", "-dc"]);
}

#[test]
fn all_installed_keeps_table_order() {
    let all = Compression::all();
    assert_eq!(all.len(), 4);
    assert_eq!(all[0].name, "gz");
    assert_eq!(all[1].name, "uncompressed");
    assert_eq!(all[2].name, "zst");
    assert_eq!(all[3].name, "lz4");
    let some = Compression::all_installed(&vec![false, true, false, true]);
    assert_eq!(some, vec![Compression::none(), Compression::lz4()]);
    let short = Compression::all_installed(&vec![true]);
    assert_eq!(short, vec![Compression::pigz()]);
    assert!(Compression::all_installed(&vec![]).is_empty());
}

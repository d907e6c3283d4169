use apart_core::image::{
    finished_destination, inprogress_destination, is_valid_image_name, partclone_variant_from_image,
};

#[test]
fn local_ext2_variant_from_image() {
    assert_eq!(
        partclone_variant_from_image("mockimg-2017-04-20T1500.apt.ext2.gz").unwrap(),
        "ext2".to_owned()
    );
}

#[test]
fn dd_variant_from_image() {
    assert_eq!(
        partclone_variant_from_image("/mnt/backups/mockimg-2017-04-20T1500.apt.dd.gz").unwrap(),
        "dd".to_owned()
    );
}

#[test]
fn image_valid() {
    assert_eq!(is_valid_image_name("/mnt/backups/mockimg-2017-04-20T1500.apt.dd.gz"), true);
}

#[test]
fn image_invalid() {
    assert_eq!(is_valid_image_name("/mnt/backups/mockimg-2017-04-20T1500.gz"), false);
}

#[test]
fn invalid_image_message() {
    let err = partclone_variant_from_image("nope.gz").unwrap_err();
    assert_eq!(err.0, "Invalid image file: nope.gz");
}

#[test]
fn clone_destination_names() {
    let inprogress = inprogress_destination("/mnt/b", "job", "2017-04-20T1500", "f2fs", "gz");
    assert_eq!(inprogress, "/mnt/b/job-2017-04-20T1500.apt.f2fs.gz.inprogress");
    let done = finished_destination(&inprogress);
    assert_eq!(done, "/mnt/b/job-2017-04-20T1500.apt.f2fs.gz");
    assert!(is_valid_image_name(&done));
    assert_eq!(partclone_variant_from_image(&done).unwrap(), "f2fs");
    assert_eq!(finished_destination("/mnt/b/x.gz"), "/mnt/b/x.gz");
}

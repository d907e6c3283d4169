//! The block-device tree as the listing tool reports it, and lookups of a
//! partition's filesystem type and UUID by its `/dev/` path.

use vstd::prelude::*;
use vstd::string::*;
use crate::text::{clone_opt, opt_view, same_text};

verus! {

/// The `size` attribute as reported: a number, a string that should hold
/// digits, or anything else.
#[derive(Debug, Clone)]
pub enum SizeField {
    Number(u64),
    Text(String),
    Other,
}

/// A partition: a child of a device.
#[derive(Debug, Clone)]
pub struct Partition {
    pub name: Option<String>,
    pub size: SizeField,
    pub fstype: Option<String>,
    pub label: Option<String>,
    pub mountpoint: Option<String>,
    pub uuid: Option<String>,
}

/// A top-level device; `children` is `None` where the tool gave no list.
#[derive(Debug, Clone)]
pub struct Device {
    pub name: Option<String>,
    pub size: SizeField,
    pub children: Option<Vec<Partition>>,
}

/// The partitions of a device, none where it has no list.
pub open spec fn parts_of(d: Device) -> Seq<Partition> {
    match d.children {
        Some(c) => c@,
        None => Seq::empty(),
    }
}

/// The partition's `/dev/` path is `source`.
pub open spec fn names_source(p: Partition, source: Seq<char>) -> bool {
    p.name matches Some(n) && "/dev/"@ + n@ == source
}

/// The first partition among `parts` whose path is `source`.
pub open spec fn first_in_parts(parts: Seq<Partition>, source: Seq<char>) -> Option<Partition>
    decreases parts.len(),
{
    if parts.len() == 0 {
        None
    } else if names_source(parts[0], source) {
        Some(parts[0])
    } else {
        first_in_parts(parts.drop_first(), source)
    }
}

/// The first partition, devices and their partitions taken in order, whose
/// path is `source`.
pub open spec fn partition_matching(devices: Seq<Device>, source: Seq<char>) -> Option<Partition>
    decreases devices.len(),
{
    if devices.len() == 0 {
        None
    } else {
        match first_in_parts(parts_of(devices[0]), source) {
            Some(p) => Some(p),
            None => partition_matching(devices.drop_first(), source),
        }
    }
}

fn matches_source(p: &Partition, source: &str) -> (r: bool)
    ensures
        r == names_source(*p, source@),
{
    match &p.name {
        Some(n) => {
            let path = String::from_str("/dev/").concat(n.as_str());
            same_text(path.as_str(), source)
        },
        None => false,
    }
}

fn find_in_parts(parts: &Vec<Partition>, source: &str) -> (r: Option<usize>)
    ensures
        match r {
            Some(j) => j < parts@.len() && first_in_parts(parts@, source@) == Some(parts@[j as int]),
            None => first_in_parts(parts@, source@) is None,
        },
{
    let mut j: usize = 0;
    assert(parts@.subrange(0, parts@.len() as int) =~= parts@);
    while j < parts.len()
        invariant
            j <= parts@.len(),
            first_in_parts(parts@, source@) == first_in_parts(
                parts@.subrange(j as int, parts@.len() as int),
                source@,
            ),
        decreases parts.len() - j,
    {
        let ghost rest = parts@.subrange(j as int, parts@.len() as int);
        assert(rest.drop_first() =~= parts@.subrange(j + 1, parts@.len() as int));
        if matches_source(&parts[j], source) {
            return Some(j);
        }
        j = j + 1;
    }
    assert(parts@.subrange(j as int, parts@.len() as int) =~= Seq::<Partition>::empty());
    None
}

/// Position (device, partition) of the partition whose path is `source`.
fn find_partition(devices: &Vec<Device>, source: &str) -> (r: Option<(usize, usize)>)
    ensures
        match r {
            Some((i, j)) => i < devices@.len() && devices@[i as int].children is Some && j
                < parts_of(devices@[i as int]).len() && partition_matching(devices@, source@)
                == Some(parts_of(devices@[i as int])[j as int]),
            None => partition_matching(devices@, source@) is None,
        },
{
    let mut i: usize = 0;
    assert(devices@.subrange(0, devices@.len() as int) =~= devices@);
    while i < devices.len()
        invariant
            i <= devices@.len(),
            partition_matching(devices@, source@) == partition_matching(
                devices@.subrange(i as int, devices@.len() as int),
                source@,
            ),
        decreases devices.len() - i,
    {
        let ghost rest = devices@.subrange(i as int, devices@.len() as int);
        assert(rest.drop_first() =~= devices@.subrange(i + 1, devices@.len() as int));
        match &devices[i].children {
            Some(parts) => {
                match find_in_parts(parts, source) {
                    Some(j) => {
                        return Some((i, j));
                    },
                    None => {},
                }
            },
            None => {
                assert(parts_of(devices@[i as int]) =~= Seq::<Partition>::empty());
            },
        }
        i = i + 1;
    }
    assert(devices@.subrange(i as int, devices@.len() as int) =~= Seq::<Device>::empty());
    None
}

/// The filesystem type of the partition at `source` (e.g. `/dev/sda1`).
pub fn fstype(devices: &Vec<Device>, source: &str) -> (r: Option<String>)
    ensures
        opt_view(r) == match partition_matching(devices@, source@) {
            Some(p) => opt_view(p.fstype),
            None => None,
        },
{
    match find_partition(devices, source) {
        Some((i, j)) => match &devices[i].children {
            Some(parts) => clone_opt(&parts[j].fstype),
            None => None,
        },
        None => None,
    }
}

/// The UUID of the partition at `source` (e.g. `/dev/sda1`).
pub fn uuid(devices: &Vec<Device>, source: &str) -> (r: Option<String>)
    ensures
        opt_view(r) == match partition_matching(devices@, source@) {
            Some(p) => opt_view(p.uuid),
            None => None,
        },
{
    match find_partition(devices, source) {
        Some((i, j)) => match &devices[i].children {
            Some(parts) => clone_opt(&parts[j].uuid),
            None => None,
        },
        None => None,
    }
}

} // verus!
